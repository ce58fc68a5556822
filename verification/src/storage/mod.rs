pub mod partitions;
pub mod ahci;
