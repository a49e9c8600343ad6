//! Core of a minimal virtual-machine monitor: guest page tables, register
//! bundles, the exit-dispatch state machine and the demonstration device.
pub mod device;
pub mod exit;
pub mod paging;
pub mod regs;
