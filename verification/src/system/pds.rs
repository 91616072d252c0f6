//! Power-down domain: wake-up interrupts, PLL power.

#![allow(non_camel_case_types, non_snake_case, clippy::upper_case_acronyms)]

use super::romfunc::data::ROM_API_INDEX_e;
use super::romfunc::rom_call;
use crate::hw::Action;
use vstd::prelude::*;

verus! {

/// Physical base address of the block.
pub const PDS_BASE: u32 = 0x4000_e000;

/// Interrupt status and masks of the power-down domain.
pub const PDS_INT: u32 = PDS_BASE + 0x0c;

/// PLL XTAL type definition
#[derive(Clone, Copy, Debug, PartialEq, Eq)]
pub enum PDS_PLL_XTAL_Type {
    /// XTAL is none
    PDS_PLL_XTAL_NONE,
    /// XTAL is 32M
    PDS_PLL_XTAL_32M,
    /// XTAL is RC32M
    PDS_PLL_XTAL_RC32M,
}

impl PDS_PLL_XTAL_Type {
    /// The number that stands for the crystal in the vendor's interface.
    pub open spec fn raw(self) -> u32 {
        match self {
            PDS_PLL_XTAL_Type::PDS_PLL_XTAL_NONE => 0,
            PDS_PLL_XTAL_Type::PDS_PLL_XTAL_32M => 1,
            PDS_PLL_XTAL_Type::PDS_PLL_XTAL_RC32M => 2,
        }
    }

    /// Computes [`Self::raw`].
    pub fn to_raw(self) -> (r: u32)
        ensures
            r == self.raw(),
    {
        match self {
            PDS_PLL_XTAL_Type::PDS_PLL_XTAL_NONE => 0,
            PDS_PLL_XTAL_Type::PDS_PLL_XTAL_32M => 1,
            PDS_PLL_XTAL_Type::PDS_PLL_XTAL_RC32M => 2,
        }
    }
}

/// PLL output clock type definition
#[derive(Clone, Copy, Debug, PartialEq, Eq)]
pub enum PDS_PLL_CLK_Type {
    /// PLL output clock:480M
    PDS_PLL_CLK_480M,
    /// PLL output clock:240M
    PDS_PLL_CLK_240M,
    /// PLL output clock:192M
    PDS_PLL_CLK_192M,
    /// PLL output clock:160M
    PDS_PLL_CLK_160M,
    /// PLL output clock:120M
    PDS_PLL_CLK_120M,
    /// PLL output clock:96M
    PDS_PLL_CLK_96M,
    /// PLL output clock:80M
    PDS_PLL_CLK_80M,
    /// PLL output clock:48M
    PDS_PLL_CLK_48M,
    /// PLL output clock:32M
    PDS_PLL_CLK_32M,
}

/// What powering the PLL on came to.
#[derive(Clone, Copy, Debug, PartialEq, Eq)]
pub enum PllPowerOn {
    /// The PLL is on.
    Success,
    /// The routine reports a failure.
    Failure,
    /// The routine gave up waiting.
    Timeout,
    /// The routine answered with a number that stands for nothing.
    Unknown,
}

/// What the answer of the ROM routine behind [`pds_power_on_pll_rom`]
/// means: 0 is success, 1 failure, 2 a timeout.
pub open spec fn pll_power_on_of(status: u32) -> PllPowerOn {
    if status == 0 {
        PllPowerOn::Success
    } else if status == 1 {
        PllPowerOn::Failure
    } else if status == 2 {
        PllPowerOn::Timeout
    } else {
        PllPowerOn::Unknown
    }
}

/// Reads the answer of the ROM routine behind [`pds_power_on_pll_rom`]:
/// computes [`pll_power_on_of`]. Only [`PllPowerOn::Success`] leaves a PLL
/// that can be used.
pub fn pll_power_on(status: u32) -> (outcome: PllPowerOn)
    ensures
        outcome == pll_power_on_of(status),
        outcome == PllPowerOn::Success <==> status == 0,
{
    if status == 0 {
        PllPowerOn::Success
    } else if status == 1 {
        PllPowerOn::Failure
    } else if status == 2 {
        PllPowerOn::Timeout
    } else {
        PllPowerOn::Unknown
    }
}

/// The request to have the ROM power the PLL on from the crystal given. The
/// answer of the routine is read with [`pll_power_on`].
pub fn pds_power_on_pll_rom(xtal: PDS_PLL_XTAL_Type) -> (call: Action)
    ensures
        call == (Action::RomCall {
            index: ROM_API_INDEX_e::ROM_API_INDEX_PDS_Power_On_PLL.ordinal() as u32,
            arg0: xtal.raw(),
            arg1: 0,
        }),
{
    rom_call(ROM_API_INDEX_e::ROM_API_INDEX_PDS_Power_On_PLL, xtal.to_raw(), 0)
}

} // verus!
