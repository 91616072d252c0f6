//! Rates: clock frequencies and line speeds.

use vstd::prelude::*;

verus! {

/// A frequency in hertz.
#[derive(Clone, Copy, Debug, PartialEq, Eq)]
pub struct Hertz(pub u32);

/// A line speed in symbols per second.
#[derive(Clone, Copy, Debug, PartialEq, Eq)]
pub struct Baud(pub u32);

} // verus!
