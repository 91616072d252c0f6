//! Global register block: clock selection, clock gates, pin multiplexing.

#![allow(non_camel_case_types, non_snake_case, clippy::upper_case_acronyms)]

use super::hbn::HBN_UART_CLK_Type;
use super::hbn::HBN_GLB;
use super::romfunc::data::ROM_API_INDEX_e;
use super::romfunc::rom_call;
use super::BL_Err_Type;
use crate::bits::no_fields;
use crate::bits::with_field;
use crate::bits::with_flag;
use crate::bits::Fields;
use crate::hw::Action;
use crate::hw::Program;
use vstd::prelude::*;

verus! {

/// Physical base address of the block.
pub const GLB_BASE: u32 = 0x4000_0000;

/// Root clock selection and bus dividers.
pub const CLK_CFG0: u32 = GLB_BASE + 0x00;

/// UART, flash and infrared clock dividers.
pub const CLK_CFG2: u32 = GLB_BASE + 0x08;

/// Clock gates of the peripherals, one bit each.
pub const CGEN_CFG1: u32 = GLB_BASE + 0x24;

/// Clock of the machine timer.
pub const CPU_CLK_CFG: u32 = GLB_BASE + 0x90;

/// Embedded memory selection.
pub const SEAM_MISC: u32 = GLB_BASE + 0x7c;

/// Miscellaneous parameters: signal swaps, SPI master mode.
pub const GLB_PARM: u32 = GLB_BASE + 0x80;

/// Pins shared with the PSRAM interface.
pub const GPIO_USE_PSRAM_IO: u32 = GLB_BASE + 0x88;

/// Source and divider of the 32 MHz ADC clock.
pub const GPADC_32M_SRC_CTRL: u32 = GLB_BASE + 0xa4;

/// Function of each of the eight UART signals.
pub const UART_SIG_SEL_0: u32 = GLB_BASE + 0xc0;

/// First of the sixteen pin configuration registers; each holds two pins.
pub const GPIO_CFGCTL0: u32 = GLB_BASE + 0x100;

/// Input levels of the pins, one bit each.
pub const GPIO_CFGCTL30: u32 = GLB_BASE + 0x180;

/// Output levels of the pins, one bit each.
pub const GPIO_CFGCTL32: u32 = GLB_BASE + 0x188;

/// Output enables of the pins, one bit each.
pub const GPIO_CFGCTL34: u32 = GLB_BASE + 0x190;

/// PLL XTAL type definition
#[derive(Clone, Copy, Debug, PartialEq, Eq)]
pub enum GLB_PLL_XTAL_Type {
    /// XTAL is none
    GLB_PLL_XTAL_NONE,
    /// XTAL is 24M
    GLB_PLL_XTAL_24M,
    /// XTAL is 32M
    GLB_PLL_XTAL_32M,
    /// XTAL is 38.4M
    GLB_PLL_XTAL_38P4M,
    /// XTAL is 40M
    GLB_PLL_XTAL_40,
    /// XTAL is 26M
    GLB_PLL_XTAL_26M,
    /// XTAL is RC32M
    GLB_PLL_XTAL_RC326,
}

/// DLL XTAL type definition
#[derive(Clone, Copy, Debug, PartialEq, Eq)]
pub enum GLB_DLL_XTAL_Type {
    /// XTAL is none
    GLB_DLL_XTAL_NONE,
    /// XTAL is 32M
    GLB_DLL_XTAL_32M,
    /// XTAL is RC32M
    GLB_DLL_XTAL_RC32M,
}

impl GLB_DLL_XTAL_Type {
    /// The number that stands for the crystal in the vendor's interface.
    pub open spec fn raw(self) -> u32 {
        match self {
            GLB_DLL_XTAL_Type::GLB_DLL_XTAL_NONE => 0,
            GLB_DLL_XTAL_Type::GLB_DLL_XTAL_32M => 1,
            GLB_DLL_XTAL_Type::GLB_DLL_XTAL_RC32M => 2,
        }
    }

    /// Computes [`Self::raw`].
    pub fn to_raw(self) -> (r: u32)
        ensures
            r == self.raw(),
    {
        match self {
            GLB_DLL_XTAL_Type::GLB_DLL_XTAL_NONE => 0,
            GLB_DLL_XTAL_Type::GLB_DLL_XTAL_32M => 1,
            GLB_DLL_XTAL_Type::GLB_DLL_XTAL_RC32M => 2,
        }
    }
}

/// GLB system clock type definition
#[derive(Clone, Copy, Debug, PartialEq, Eq)]
pub enum GLB_SYS_CLK_Type {
    /// use RC32M as system clock frequency
    GLB_SYS_CLK_RC32M,
    /// use XTAL as system clock
    GLB_SYS_CLK_XTAL,
    /// use DLL output 57.6M as system clock
    GLB_SYS_CLK_DLL57P6M,
    /// use DLL output 96M as system clock
    GLB_SYS_CLK_DLL96M,
    /// use DLL output 144M as system clock, PLL120M not recommend
    GLB_SYS_CLK_DLL144M,
}

impl GLB_SYS_CLK_Type {
    /// The number that stands for the clock in the vendor's interface.
    pub open spec fn raw(self) -> u32 {
        match self {
            GLB_SYS_CLK_Type::GLB_SYS_CLK_RC32M => 0,
            GLB_SYS_CLK_Type::GLB_SYS_CLK_XTAL => 1,
            GLB_SYS_CLK_Type::GLB_SYS_CLK_DLL57P6M => 2,
            GLB_SYS_CLK_Type::GLB_SYS_CLK_DLL96M => 3,
            GLB_SYS_CLK_Type::GLB_SYS_CLK_DLL144M => 4,
        }
    }

    /// Computes [`Self::raw`].
    pub fn to_raw(self) -> (r: u32)
        ensures
            r == self.raw(),
    {
        match self {
            GLB_SYS_CLK_Type::GLB_SYS_CLK_RC32M => 0,
            GLB_SYS_CLK_Type::GLB_SYS_CLK_XTAL => 1,
            GLB_SYS_CLK_Type::GLB_SYS_CLK_DLL57P6M => 2,
            GLB_SYS_CLK_Type::GLB_SYS_CLK_DLL96M => 3,
            GLB_SYS_CLK_Type::GLB_SYS_CLK_DLL144M => 4,
        }
    }
}

/// GLB RTC clock type definition
#[derive(Clone, Copy, Debug, PartialEq, Eq)]
pub enum GLB_MTIMER_CLK_Type {
    /// BUS clock
    GLB_MTIMER_CLK_BCLK,
    /// 32KHz
    GLB_MTIMER_CLK_32K,
}

/// GLB root clock type definition
#[derive(Clone, Copy, Debug, PartialEq, Eq)]
pub enum GLB_ROOT_CLK_Type {
    /// root clock select RC32M
    GLB_ROOT_CLK_RC32M,
    /// root clock select XTAL
    GLB_ROOT_CLK_XTAL,
    /// root clock select DLL others, PLL120M not recommend
    GLB_ROOT_CLK_DLL,
}

impl GLB_ROOT_CLK_Type {
    /// The number that stands for the selection in the vendor's interface.
    pub open spec fn raw(self) -> u32 {
        match self {
            GLB_ROOT_CLK_Type::GLB_ROOT_CLK_RC32M => 0,
            GLB_ROOT_CLK_Type::GLB_ROOT_CLK_XTAL => 1,
            GLB_ROOT_CLK_Type::GLB_ROOT_CLK_DLL => 2,
        }
    }

    /// Reads the selection that the ROM routine behind
    /// [`GLB_Get_Root_CLK_Sel`] returned. `None` if the number stands for no
    /// selection.
    pub fn from_raw(raw: u32) -> (sel: Option<GLB_ROOT_CLK_Type>)
        ensures
            match sel {
                Some(s) => s.raw() == raw,
                None => raw > 2,
            },
    {
        if raw == 0 {
            Some(GLB_ROOT_CLK_Type::GLB_ROOT_CLK_RC32M)
        } else if raw == 1 {
            Some(GLB_ROOT_CLK_Type::GLB_ROOT_CLK_XTAL)
        } else if raw == 2 {
            Some(GLB_ROOT_CLK_Type::GLB_ROOT_CLK_DLL)
        } else {
            None
        }
    }
}

/// The request to ask the ROM which root clock is selected. The answer is
/// read with [`GLB_ROOT_CLK_Type::from_raw`].
pub fn GLB_Get_Root_CLK_Sel() -> (call: Action)
    ensures
        call == (Action::RomCall {
            index: ROM_API_INDEX_e::ROM_API_INDEX_GLB_Get_Root_CLK_Sel.ordinal() as u32,
            arg0: 0,
            arg1: 0,
        }),
{
    rom_call(ROM_API_INDEX_e::ROM_API_INDEX_GLB_Get_Root_CLK_Sel, 0, 0)
}

/// The request to ask the ROM for the divider between root clock and core
/// clock, less one.
pub fn GLB_Get_HCLK_Div() -> (call: Action)
    ensures
        call == (Action::RomCall {
            index: ROM_API_INDEX_e::ROM_API_INDEX_GLB_Get_HCLK_Div.ordinal() as u32,
            arg0: 0,
            arg1: 0,
        }),
{
    rom_call(ROM_API_INDEX_e::ROM_API_INDEX_GLB_Get_HCLK_Div, 0, 0)
}

/// The request to ask the ROM for the divider between core clock and bus
/// clock, less one.
pub fn GLB_Get_BCLK_Div() -> (call: Action)
    ensures
        call == (Action::RomCall {
            index: ROM_API_INDEX_e::ROM_API_INDEX_GLB_Get_BCLK_Div.ordinal() as u32,
            arg0: 0,
            arg1: 0,
        }),
{
    rom_call(ROM_API_INDEX_e::ROM_API_INDEX_GLB_Get_BCLK_Div, 0, 0)
}

/// What [`GLB_Set_UART_CLK`] appends to a program: the source of the UART
/// clock is selected, then its divider is set, less one, and the clock is
/// switched on or off.
pub open spec fn uart_clk_actions(enable: u8, clkSel: HBN_UART_CLK_Type, div: u8) -> Seq<Action> {
    let sel = with_flag(no_fields(), 2, clkSel.from_pll());
    let clk = with_flag(with_field(no_fields(), 0, 3, div as u32), 4, enable != 0);
    seq![
        Action::Modify { addr: HBN_GLB, mask: sel.mask, value: sel.value },
        Action::Modify { addr: CLK_CFG2, mask: clk.mask, value: clk.value },
    ]
}

/// Selects the UART clock: its source, its divider less one, and whether it
/// runs.
pub fn GLB_Set_UART_CLK(
    enable: u8,
    clkSel: HBN_UART_CLK_Type,
    div: u8,
    program: &mut Program,
) -> (status: BL_Err_Type)
    ensures
        status == BL_Err_Type::SUCCESS,
        final(program)@ == old(program)@ + uart_clk_actions(enable, clkSel, div),
{
    program.modify_fields(HBN_GLB, Fields::none().with_bit(2, clkSel.is_pll()));
    program.modify_fields(CLK_CFG2, Fields::none().with(0, 3, div as u32).with_bit(4, enable != 0));
    assert(program@ =~= old(program)@ + uart_clk_actions(enable, clkSel, div));
    BL_Err_Type::SUCCESS
}

/// The request to have the ROM select the root clock source and the system
/// clock frequency.
pub fn GLB_Set_System_CLK(xtalType: GLB_DLL_XTAL_Type, clkFreq: GLB_SYS_CLK_Type) -> (call: Action)
    ensures
        call == (Action::RomCall {
            index: ROM_API_INDEX_e::ROM_API_INDEX_GLB_Set_System_CLK.ordinal() as u32,
            arg0: xtalType.raw(),
            arg1: clkFreq.raw(),
        }),
{
    rom_call(
        ROM_API_INDEX_e::ROM_API_INDEX_GLB_Set_System_CLK,
        xtalType.to_raw(),
        clkFreq.to_raw(),
    )
}

/// The request to have the ROM program the core and bus clock dividers. Each
/// divider is given less one.
pub fn GLB_Set_System_CLK_Div(clkDiv: u8, bclkDiv: u8) -> (call: Action)
    ensures
        call == (Action::RomCall {
            index: ROM_API_INDEX_e::ROM_API_INDEX_GLB_Set_System_CLK_Div.ordinal() as u32,
            arg0: clkDiv as u32,
            arg1: bclkDiv as u32,
        }),
{
    rom_call(ROM_API_INDEX_e::ROM_API_INDEX_GLB_Set_System_CLK_Div, clkDiv as u32, bclkDiv as u32)
}

impl GLB_MTIMER_CLK_Type {
    /// Whether the 32 kHz clock is the source, rather than the bus clock.
    pub open spec fn from_32k(self) -> bool {
        self == GLB_MTIMER_CLK_Type::GLB_MTIMER_CLK_32K
    }

    /// Computes [`Self::from_32k`].
    pub fn is_32k(self) -> (b: bool)
        ensures
            b == self.from_32k(),
    {
        match self {
            GLB_MTIMER_CLK_Type::GLB_MTIMER_CLK_BCLK => false,
            GLB_MTIMER_CLK_Type::GLB_MTIMER_CLK_32K => true,
        }
    }
}

/// What [`GLB_Set_MTimer_CLK`] appends to a program: the clock of the
/// machine timer is switched off, its source and its divider, less one, are
/// set, and it is switched on if it is to run.
pub open spec fn mtimer_clk_actions(enable: u8, clkSel: GLB_MTIMER_CLK_Type, div: u8) -> Seq<
    Action,
> {
    let off = with_flag(no_fields(), 18, false);
    let clk = with_field(with_flag(no_fields(), 19, clkSel.from_32k()), 0, 17, div as u32);
    let run = with_flag(no_fields(), 18, enable != 0);
    seq![
        Action::Modify { addr: CPU_CLK_CFG, mask: off.mask, value: off.value },
        Action::Modify { addr: CPU_CLK_CFG, mask: clk.mask, value: clk.value },
        Action::Modify { addr: CPU_CLK_CFG, mask: run.mask, value: run.value },
    ]
}

/// Selects the clock of the machine timer: its source, its divider less
/// one, and whether it runs.
pub fn GLB_Set_MTimer_CLK(
    enable: u8,
    clkSel: GLB_MTIMER_CLK_Type,
    div: u8,
    program: &mut Program,
) -> (status: BL_Err_Type)
    ensures
        status == BL_Err_Type::SUCCESS,
        final(program)@ == old(program)@ + mtimer_clk_actions(enable, clkSel, div),
{
    program.modify_fields(CPU_CLK_CFG, Fields::none().with_bit(18, false));
    program.modify_fields(
        CPU_CLK_CFG,
        Fields::none().with_bit(19, clkSel.is_32k()).with(0, 17, div as u32),
    );
    program.modify_fields(CPU_CLK_CFG, Fields::none().with_bit(18, enable != 0));
    assert(program@ =~= old(program)@ + mtimer_clk_actions(enable, clkSel, div));
    BL_Err_Type::SUCCESS
}

/// The peripherals behind the first AHB slave port. The position of a
/// peripheral in this list is the number of its bit in the clock gate
/// register.
#[derive(Clone, Copy, Debug, PartialEq, Eq)]
pub enum BL_AHB_Slave1_Type {
    GLB,
    MIX,
    GPIP,
    SEC_DBG,
    SEC,
    TZ1,
    TZ2,
    EFUSE,
    CCI,
    L1C,
    S1A_ALL,
    SFC,
    DMA,
    EMAC,
    PDS_HBN_AON_HBNRAM,
    RSVD0F,
    UART0,
    UART1,
    SPI,
    I2C,
    PWM,
    TMR,
    IRR,
    CKS,
    QDEC,
    KYS,
    I2S,
    RSVD1B,
    USB,
    CAM,
    MJPEG,
    MAX,
}

impl BL_AHB_Slave1_Type {
    /// The number of the peripheral's bit in the clock gate register.
    pub open spec fn gate_bit(self) -> u32 {
        match self {
            BL_AHB_Slave1_Type::GLB => 0,
            BL_AHB_Slave1_Type::MIX => 1,
            BL_AHB_Slave1_Type::GPIP => 2,
            BL_AHB_Slave1_Type::SEC_DBG => 3,
            BL_AHB_Slave1_Type::SEC => 4,
            BL_AHB_Slave1_Type::TZ1 => 5,
            BL_AHB_Slave1_Type::TZ2 => 6,
            BL_AHB_Slave1_Type::EFUSE => 7,
            BL_AHB_Slave1_Type::CCI => 8,
            BL_AHB_Slave1_Type::L1C => 9,
            BL_AHB_Slave1_Type::S1A_ALL => 10,
            BL_AHB_Slave1_Type::SFC => 11,
            BL_AHB_Slave1_Type::DMA => 12,
            BL_AHB_Slave1_Type::EMAC => 13,
            BL_AHB_Slave1_Type::PDS_HBN_AON_HBNRAM => 14,
            BL_AHB_Slave1_Type::RSVD0F => 15,
            BL_AHB_Slave1_Type::UART0 => 16,
            BL_AHB_Slave1_Type::UART1 => 17,
            BL_AHB_Slave1_Type::SPI => 18,
            BL_AHB_Slave1_Type::I2C => 19,
            BL_AHB_Slave1_Type::PWM => 20,
            BL_AHB_Slave1_Type::TMR => 21,
            BL_AHB_Slave1_Type::IRR => 22,
            BL_AHB_Slave1_Type::CKS => 23,
            BL_AHB_Slave1_Type::QDEC => 24,
            BL_AHB_Slave1_Type::KYS => 25,
            BL_AHB_Slave1_Type::I2S => 26,
            BL_AHB_Slave1_Type::RSVD1B => 27,
            BL_AHB_Slave1_Type::USB => 28,
            BL_AHB_Slave1_Type::CAM => 29,
            BL_AHB_Slave1_Type::MJPEG => 30,
            BL_AHB_Slave1_Type::MAX => 31,
        }
    }

    /// Whether [`peripheral_clock_gate_all`] switches the peripheral's clock
    /// off. The blocks that the processor itself runs on keep theirs.
    pub open spec fn is_gated(self) -> bool {
        match self {
            BL_AHB_Slave1_Type::TZ1
            | BL_AHB_Slave1_Type::TZ2
            | BL_AHB_Slave1_Type::DMA
            | BL_AHB_Slave1_Type::EMAC
            | BL_AHB_Slave1_Type::UART0
            | BL_AHB_Slave1_Type::UART1
            | BL_AHB_Slave1_Type::SPI
            | BL_AHB_Slave1_Type::I2C
            | BL_AHB_Slave1_Type::PWM
            | BL_AHB_Slave1_Type::TMR
            | BL_AHB_Slave1_Type::IRR
            | BL_AHB_Slave1_Type::CKS
            | BL_AHB_Slave1_Type::USB
            | BL_AHB_Slave1_Type::CAM
            | BL_AHB_Slave1_Type::MJPEG => true,
            _ => false,
        }
    }
}

/// The clock enable bits that [`peripheral_clock_gate_all`] clears.
pub const GATE_ALL_MASK: u32 = 0x70ff_3060;

/// The bit of the clock gate register that belongs to `slave`, as a mask.
pub open spec fn gate_mask(slave: BL_AHB_Slave1_Type) -> u32 {
    1u32 << slave.gate_bit()
}

/// [`GATE_ALL_MASK`] holds the bit of a peripheral exactly if the peripheral
/// is one of those that are gated.
pub proof fn lemma_gate_all_mask(slave: BL_AHB_Slave1_Type)
    ensures
        (GATE_ALL_MASK & gate_mask(slave) != 0) == slave.is_gated(),
{
    let n = slave.gate_bit();
    assert(n < 32);
    assert((0x70ff_3060u32 & (1u32 << n) != 0) == (n == 5 || n == 6 || n == 12 || n == 13 || (16
        <= n && n <= 23) || n == 28 || n == 29 || n == 30)) by (bit_vector)
        requires
            n < 32,
    ;
}

/// What [`peripheral_clock_gate_all`] appends to a program.
pub open spec fn gate_all_actions() -> Seq<Action> {
    seq![Action::Modify { addr: CGEN_CFG1, mask: GATE_ALL_MASK, value: 0 }]
}

/// Switches off the clocks of all peripherals that can do without.
pub fn peripheral_clock_gate_all(program: &mut Program)
    ensures
        final(program)@ == old(program)@ + gate_all_actions(),
{
    program.modify(CGEN_CFG1, GATE_ALL_MASK, 0);
    assert(program@ =~= old(program)@ + gate_all_actions());
}

} // verus!
