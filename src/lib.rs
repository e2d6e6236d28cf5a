//! Driver logic for the memory-mapped UART of SiFive system-on-chips
//! (FU740-C000, FU540-C000, FE310-G002).
//!
//! The controller is a handle on a block of seven 32-bit registers. The
//! library decides what goes into those registers and how a bounded poll on
//! the FIFO status bits ends; the caller performs the volatile register
//! accesses at the addresses the library names.

pub mod regs;
pub mod uart;

pub use uart::{Fault, Poll, RegWrite, UART};
