//! Types of other crates that the drivers speak in.
//!
//! Each declaration below makes a type known to the verifier as it is
//! defined in its crate: its variants and fields are read from there, and
//! nothing is claimed about it here.

use vstd::prelude::*;

verus! {

/// `nb::Error`: either the operation cannot be completed yet
/// (`WouldBlock`), or it failed for good (`Other`).
#[verifier::external_type_specification]
#[verifier::reject_recursive_types(E)]
pub struct ExNbError<E>(nb::Error<E>);

/// `embedded_hal::spi::Polarity`: the level of the clock line while idle.
#[verifier::external_type_specification]
pub struct ExPolarity(embedded_hal::spi::Polarity);

/// `embedded_hal::spi::Phase`: the clock transition on which data is
/// captured.
#[verifier::external_type_specification]
pub struct ExPhase(embedded_hal::spi::Phase);

/// `embedded_hal::spi::Mode`: polarity and phase together.
#[verifier::external_type_specification]
pub struct ExMode(embedded_hal::spi::Mode);

} // verus!
