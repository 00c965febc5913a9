//! Platform layer for dynamically booted AArch64 machines: interrupt routing
//! between the per-core and machine-wide controller views, and the memory
//! region catalog with its physical/virtual address translation.

pub mod irq;
pub mod mem;
pub mod power;
pub mod time;
pub mod console;
