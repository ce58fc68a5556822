pub mod edt;
pub mod probe;
pub mod snf;
pub mod ls;
pub mod pager;
pub mod cat;
pub mod rnm;
pub mod spp;
pub mod cpr;
pub mod dpc;
pub mod ver;
pub mod echo;
pub mod cdr;
pub mod ctr;
pub mod tmps;
pub mod log;
pub mod afn;
pub mod qtr;
pub mod tpf;
pub mod mmr;
pub mod sync;
pub mod sys;
pub mod pci;
pub mod net;
pub mod mnl;
pub mod dsk;
pub mod aide;
pub mod ntr;
pub mod inf;
pub mod df;
