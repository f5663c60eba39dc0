//! Peripheral abstraction layer for a Cortex-M style microcontroller.
//!
//! The layer covers three mechanisms that recur across its drivers:
//! a register view selected per hardware family at build time (no runtime
//! branching on the chip variant), a digital-to-analog converter driver
//! built on that view, a busy-wait delay engine that chunks long delays
//! over a 24-bit countdown counter, and a shared-buffer discipline for
//! moving bytes from an interrupt handler to the main context.

pub mod dac;
pub mod delay;
pub mod shared;
pub mod traits;
