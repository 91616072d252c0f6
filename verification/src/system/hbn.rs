//! Hibernate domain: low-frequency clocks, brown-out detection.

#![allow(non_camel_case_types, non_snake_case, clippy::upper_case_acronyms)]

use super::BL_Err_Type;
use crate::bits::no_fields;
use crate::bits::with_field;
use crate::bits::with_flag;
use crate::bits::Fields;
use crate::hw::Action;
use crate::hw::Program;
use vstd::prelude::*;

verus! {

/// Physical base address of the block.
pub const HBN_BASE: u32 = 0x4000_f000;

/// Interrupt modes of the hibernate domain.
pub const HBN_IRQ_MODE: u32 = HBN_BASE + 0x14;

/// Brown-out detector.
pub const HBN_MISC: u32 = HBN_BASE + 0x2c;

/// Clock selections of the hibernate domain.
pub const HBN_GLB: u32 = HBN_BASE + 0x30;

/// Scratch register in which the system frequency is kept.
pub const HBN_RSV2: u32 = HBN_BASE + 0x108;

/// The 32 kHz crystal oscillator.
pub const HBN_XTAL32K: u32 = HBN_BASE + 0x204;

/// HBN UART clock type definition
#[derive(Clone, Copy, Debug, PartialEq, Eq)]
pub enum HBN_UART_CLK_Type {
    /// Select FCLK as UART clock
    HBN_UART_CLK_FCLK,
    /// Select 96M as UART clock
    HBN_UART_CLK_96M,
}

/// HBN 32K clock type definition
#[derive(Clone, Copy, Debug, PartialEq, Eq)]
pub enum HBN_32K_CLK_Type {
    /// HBN use rc 32k
    HBN_32K_RC,
    /// HBN use xtal 32k
    HBN_32K_XTAL,
    /// HBN use dig 32k
    HBN_32K_DIG,
}

/// HBN xclk clock type definition
#[derive(Clone, Copy, Debug, PartialEq, Eq)]
pub enum HBN_XCLK_CLK_Type {
    /// use RC32M as xclk clock
    HBN_XCLK_CLK_RC32M,
    /// use XTAL as xclk clock
    HBN_XCLK_CLK_XTAL,
}

impl HBN_UART_CLK_Type {
    /// Whether the UART clock is taken from the 96 MHz output of the PLL
    /// rather than from the core clock.
    pub open spec fn from_pll(self) -> bool {
        self == HBN_UART_CLK_Type::HBN_UART_CLK_96M
    }

    /// Computes [`Self::from_pll`].
    pub fn is_pll(self) -> (b: bool)
        ensures
            b == self.from_pll(),
    {
        match self {
            HBN_UART_CLK_Type::HBN_UART_CLK_FCLK => false,
            HBN_UART_CLK_Type::HBN_UART_CLK_96M => true,
        }
    }
}

impl HBN_32K_CLK_Type {
    /// The number that selects the source in the clock selection register.
    pub open spec fn raw(self) -> u32 {
        match self {
            HBN_32K_CLK_Type::HBN_32K_RC => 0,
            HBN_32K_CLK_Type::HBN_32K_XTAL => 1,
            HBN_32K_CLK_Type::HBN_32K_DIG => 3,
        }
    }

    /// Computes [`Self::raw`].
    pub fn to_raw(self) -> (r: u32)
        ensures
            r == self.raw(),
    {
        match self {
            HBN_32K_CLK_Type::HBN_32K_RC => 0,
            HBN_32K_CLK_Type::HBN_32K_XTAL => 1,
            HBN_32K_CLK_Type::HBN_32K_DIG => 3,
        }
    }
}

impl HBN_XCLK_CLK_Type {
    /// Whether the crystal is the source.
    pub open spec fn from_crystal(self) -> bool {
        self == HBN_XCLK_CLK_Type::HBN_XCLK_CLK_XTAL
    }

    /// Computes [`Self::from_crystal`].
    pub fn is_crystal(self) -> (b: bool)
        ensures
            b == self.from_crystal(),
    {
        match self {
            HBN_XCLK_CLK_Type::HBN_XCLK_CLK_RC32M => false,
            HBN_XCLK_CLK_Type::HBN_XCLK_CLK_XTAL => true,
        }
    }
}

/// What [`HBN_32K_Sel`] appends to a program: the source of the 32 kHz
/// clock, in its two bits of the clock selection register.
pub open spec fn sel_32k_actions(clkType: HBN_32K_CLK_Type) -> Seq<Action> {
    let sel = with_field(no_fields(), 3, 2, clkType.raw());
    seq![Action::Modify { addr: HBN_GLB, mask: sel.mask, value: sel.value }]
}

/// What [`HBN_Set_XCLK_CLK_Sel`] appends to a program: the lower bit of the
/// root clock selection, which tells the crystal from the RC oscillator.
pub open spec fn xclk_sel_actions(xClk: HBN_XCLK_CLK_Type) -> Seq<Action> {
    let sel = with_flag(no_fields(), 0, xClk.from_crystal());
    seq![Action::Modify { addr: HBN_GLB, mask: sel.mask, value: sel.value }]
}

/// What [`HBN_Power_On_Xtal_32K`] appends to a program: the oscillator and
/// its output buffer are powered up.
pub open spec fn power_on_xtal_32k_actions() -> Seq<Action> {
    let power = with_flag(with_flag(no_fields(), 19, true), 18, true);
    seq![Action::Modify { addr: HBN_XTAL32K, mask: power.mask, value: power.value }]
}

/// Selects the source of the 32 kHz clock.
pub fn HBN_32K_Sel(clkType: HBN_32K_CLK_Type, program: &mut Program) -> (status: BL_Err_Type)
    ensures
        status == BL_Err_Type::SUCCESS,
        final(program)@ == old(program)@ + sel_32k_actions(clkType),
{
    program.modify_fields(HBN_GLB, Fields::none().with(3, 2, clkType.to_raw()));
    assert(program@ =~= old(program)@ + sel_32k_actions(clkType));
    BL_Err_Type::SUCCESS
}

/// Selects the source of the crystal clock.
pub fn HBN_Set_XCLK_CLK_Sel(xClk: HBN_XCLK_CLK_Type, program: &mut Program) -> (status:
    BL_Err_Type)
    ensures
        status == BL_Err_Type::SUCCESS,
        final(program)@ == old(program)@ + xclk_sel_actions(xClk),
{
    program.modify_fields(HBN_GLB, Fields::none().with_bit(0, xClk.is_crystal()));
    assert(program@ =~= old(program)@ + xclk_sel_actions(xClk));
    BL_Err_Type::SUCCESS
}

/// Powers the 32 kHz crystal oscillator on.
pub fn HBN_Power_On_Xtal_32K(program: &mut Program) -> (status: BL_Err_Type)
    ensures
        status == BL_Err_Type::SUCCESS,
        final(program)@ == old(program)@ + power_on_xtal_32k_actions(),
{
    program.modify_fields(HBN_XTAL32K, Fields::none().with_bit(19, true).with_bit(18, true));
    assert(program@ =~= old(program)@ + power_on_xtal_32k_actions());
    BL_Err_Type::SUCCESS
}

} // verus!
