//! Hardware abstraction layer for the BL702 microcontroller.
//!
//! The drivers in this crate never touch a register themselves. Every
//! operation on the hardware is described as a [`hw::Program`]: the ordered
//! list of register accesses that carry it out. Whatever an operation has to
//! know about the state of the device (a status word, the head of a FIFO) is
//! handed to it as a plain number. The caller reads those numbers from the
//! device and carries the program out; the drivers decide what is read and
//! written, and in which order.

pub mod adc;
pub mod bits;
pub mod clock;
pub mod foreign;
pub mod gpio;
pub mod hw;
pub mod interrupts;
pub mod loopback;
pub mod rate;
pub mod spi;
pub mod system;
pub mod uart;

use vstd::prelude::*;

verus! {

/// System bus frequency, in hertz.
pub const SYSFREQ: u32 = 144_000_000;

} // verus!
