//! The boot-time logic of the nano_core: the order in which the kernel is brought
//! up, the teardown of the boot-time identity mapping, the higher-half address
//! arithmetic, the bodies of the first kernel threads and the panic report.
//!
//! Everything that touches the machine (port I/O, linker symbols, page tables in
//! memory, the console) is performed by the caller; this crate decides what to do
//! and proves that it does it.

use vstd::prelude::*;

pub mod layout;
pub mod page_table;
pub mod boot;
pub mod threads;
pub mod panic;
