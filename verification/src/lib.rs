use vstd::prelude::*;

pub mod fs;
pub mod texte;
pub mod octets;
pub mod ramdisk;
pub mod sha;
pub mod session;
pub mod journal;
pub mod clavier_queue;
pub mod commandes;
pub mod shell;
pub mod scripting;
pub mod vga_buffer;
pub mod pci;
pub mod syscalls;
pub mod task;
pub mod interrupts;
pub mod storage;
pub mod memory;
pub mod allocator;
pub mod net;

verus! {
} // verus!
