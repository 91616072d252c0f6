//! The clock tree: early system bring-up, clock selection, and the frozen
//! clock frequencies that the peripheral drivers are built on.
//!
//! Bring-up has two phases, in this order. The early phase,
//! [`system_init_enter`] and then [`system_init`], runs once, first, with
//! interrupts masked. The late phase, [`system_clock_init`] and then
//! [`board_clock_init`], follows and may be repeated to configure the
//! clocks anew.

#![allow(non_camel_case_types, non_snake_case, clippy::upper_case_acronyms)]

use crate::bits::extract;
use crate::bits::get_field;
use crate::bits::no_fields;
use crate::bits::with_field;
use crate::bits::with_flag;
use crate::bits::Fields;
use crate::gpio::ClkCfg;
use crate::bits::applied;
use crate::bits::bit_is_set;
use crate::bits::lemma_applied_none;
use crate::bits::lemma_last_field_reads_back;
use crate::bits::lemma_low_masks;
use crate::bits::lemma_other_field_unchanged;
use crate::hw::lemma_register_after_push;
use crate::hw::register_after;
use crate::hw::registers_only;
use crate::hw::zero_words;
use crate::hw::Action;
use crate::hw::Program;
use crate::rate::Hertz;
use crate::system::glb::gate_all_actions;
use crate::system::glb::peripheral_clock_gate_all;
use crate::system::glb::mtimer_clk_actions;
use crate::system::glb::GLB_Set_MTimer_CLK;
use crate::system::glb::GLB_Set_UART_CLK;
use crate::system::glb::CPU_CLK_CFG;
use crate::system::glb::GLB_Set_System_CLK;
use crate::system::glb::GLB_Set_System_CLK_Div;
use crate::system::glb::BL_AHB_Slave1_Type;
use crate::system::glb::CGEN_CFG1;
use crate::system::glb::GATE_ALL_MASK;
use crate::system::glb::CLK_CFG2;
use crate::system::glb::GLB_DLL_XTAL_Type;
use crate::system::glb::GLB_MTIMER_CLK_Type;
use crate::system::glb::GLB_PARM;
use crate::system::glb::GLB_ROOT_CLK_Type;
use crate::system::glb::GLB_SYS_CLK_Type;
use crate::system::glb::GPIO_USE_PSRAM_IO;
use crate::system::glb::SEAM_MISC;
use crate::system::hbn::power_on_xtal_32k_actions;
use crate::system::hbn::sel_32k_actions;
use crate::system::hbn::xclk_sel_actions;
use crate::system::hbn::HBN_32K_Sel;
use crate::system::hbn::HBN_UART_CLK_Type;
use crate::system::hbn::HBN_XTAL32K;
use crate::system::hbn::HBN_Power_On_Xtal_32K;
use crate::system::hbn::HBN_Set_XCLK_CLK_Sel;
use crate::system::hbn::HBN_32K_CLK_Type;
use crate::system::hbn::HBN_GLB;
use crate::system::hbn::HBN_IRQ_MODE;
use crate::system::hbn::HBN_MISC;
use crate::system::hbn::HBN_RSV2;
use crate::system::hbn::HBN_XCLK_CLK_Type;
use crate::system::pds::PDS_INT;
use crate::system::romfunc::data::ROM_API_INDEX_e;
use crate::system::BL_Err_Type;
use vstd::prelude::*;

verus! {

/// Divider between root clock and core clock, less one.
pub const BSP_FCLK_DIV: u8 = 0;

/// Divider between core clock and bus clock, less one.
pub const BSP_BCLK_DIV: u8 = 1;

/// The stages of the clock tree that can be asked for their frequency.
#[derive(Clone, Copy, Debug, PartialEq, Eq)]
pub enum system_clock_type {
    /// clock source before fclk_div
    SYSTEM_CLOCK_ROOT_CLOCK,
    /// clock source after fclk_div
    SYSTEM_CLOCK_FCLK,
    /// clock source after bclk_div
    SYSTEM_CLOCK_BCLK,
    /// xtal clock
    SYSTEM_CLOCK_XCLK,
    /// 32K clock
    SYSTEM_CLOCK_32K_CLK,
    /// audio PLL clock
    SYSTEM_CLOCK_AUPLL,
}

/// System bus frequency
pub const SYSFREQ: u32 = 144_000_000;

/// External high-speed crystal frequency
pub const XTAL_FREQ: u32 = 32_000_000;

/// UART peripheral clock frequency when PLL selected
pub const UART_PLL_FREQ: u32 = 96_000_000;

/// SPI peripheral clock frequency
pub const SPI_FREQ: u32 = 36_000_000;

/// The system clock frequencies that can be configured.
#[derive(PartialEq, Eq, Copy, Clone, Debug)]
pub enum SysclkFreq {
    Pll144Mhz,
}

impl SysclkFreq {
    /// The frequency in hertz.
    pub open spec fn hertz(self) -> u32 {
        match self {
            SysclkFreq::Pll144Mhz => 144_000_000,
        }
    }

    /// Computes [`Self::hertz`].
    pub fn to_hertz(self) -> (hz: u32)
        ensures
            hz == self.hertz(),
    {
        match self {
            SysclkFreq::Pll144Mhz => 144_000_000,
        }
    }
}

/// Frozen clock frequencies
///
/// The existence of this value shows that the clocks have been configured
/// and can no longer be changed. The drivers whose timing hangs on the clock
/// tree ask for it when they are built.
#[derive(Clone, Copy, Debug)]
pub struct Clocks {
    sysclk: Hertz,
    uart_clk: Hertz,
    spi_clk: Hertz,
}

impl Clocks {
    /// The system clock frequency, as a number.
    pub closed spec fn sysclk_hz(&self) -> u32 {
        self.sysclk.0
    }

    /// The UART peripheral clock frequency, as a number.
    pub closed spec fn uart_clk_hz(&self) -> u32 {
        self.uart_clk.0
    }

    /// The SPI peripheral clock frequency, as a number.
    pub closed spec fn spi_clk_hz(&self) -> u32 {
        self.spi_clk.0
    }

    /// The clocks as they are after [`board_clock_init`].
    pub fn new() -> (clocks: Self)
        ensures
            clocks.sysclk_hz() == SYSFREQ,
            clocks.uart_clk_hz() == UART_PLL_FREQ,
            clocks.spi_clk_hz() == SPI_FREQ,
    {
        Clocks { sysclk: Hertz(SYSFREQ), uart_clk: Hertz(UART_PLL_FREQ), spi_clk: Hertz(SPI_FREQ) }
    }

    /// The system clock frequency.
    pub fn sysclk(&self) -> (hz: Hertz)
        ensures
            hz.0 == self.sysclk_hz(),
    {
        self.sysclk
    }

    /// The UART peripheral clock frequency.
    pub fn uart_clk(&self) -> (hz: Hertz)
        ensures
            hz.0 == self.uart_clk_hz(),
    {
        self.uart_clk
    }

    /// The SPI peripheral clock frequency.
    pub fn spi_clk(&self) -> (hz: Hertz)
        ensures
            hz.0 == self.spi_clk_hz(),
    {
        self.spi_clk
    }
}

impl Default for Clocks {
    fn default() -> (clocks: Self)
        ensures
            clocks.sysclk_hz() == SYSFREQ,
            clocks.uart_clk_hz() == UART_PLL_FREQ,
            clocks.spi_clk_hz() == SPI_FREQ,
    {
        Self::new()
    }
}

/// The clock configuration that is asked for.
#[derive(Debug)]
pub struct ClockConfig {
    sysclk: SysclkFreq,
}

/// Divider of the UART clock. It leaves the UART clock at 96 MHz.
pub const UART_CLK_DIV: u8 = 1;

/// What [`ClockConfig::freeze`] appends to a program: the UART clock is
/// taken from the PLL, its divider is programmed less one, and it is
/// enabled.
pub open spec fn freeze_actions() -> Seq<Action> {
    let sel = with_flag(no_fields(), 2, true);
    let div = with_flag(with_field(no_fields(), 0, 3, (UART_CLK_DIV - 1) as u32), 4, true);
    seq![
        Action::Modify { addr: HBN_GLB, mask: sel.mask, value: sel.value },
        Action::Modify { addr: CLK_CFG2, mask: div.mask, value: div.value },
    ]
}

impl ClockConfig {
    /// The system clock frequency that is asked for.
    pub closed spec fn target(&self) -> SysclkFreq {
        self.sysclk
    }

    /// Create initial clock config
    pub fn new() -> (config: Self)
        ensures
            config.target() == SysclkFreq::Pll144Mhz,
    {
        ClockConfig { sysclk: SysclkFreq::Pll144Mhz }
    }

    /// Programs the UART clock and fixes the clock frequencies.
    ///
    /// The system clock is the one asked for; the UART clock is the PLL's
    /// 96 MHz divided by [`UART_CLK_DIV`].
    pub fn freeze(self, _clk_cfg: &mut ClkCfg, program: &mut Program) -> (clocks: Clocks)
        ensures
            final(program)@ == old(program)@ + freeze_actions(),
            clocks.sysclk_hz() == self.target().hertz(),
            clocks.uart_clk_hz() == UART_PLL_FREQ / (UART_CLK_DIV as u32),
            clocks.spi_clk_hz() == SPI_FREQ,
    {
        let sysclk = self.sysclk;
        // leave uart clock at 96mhz
        GLB_Set_UART_CLK(1, HBN_UART_CLK_Type::HBN_UART_CLK_96M, UART_CLK_DIV - 1, program);
        assert(program@ =~= old(program)@ + freeze_actions());
        Clocks {
            sysclk: Hertz(sysclk.to_hertz()),
            uart_clk: Hertz(UART_PLL_FREQ / (UART_CLK_DIV as u32)),
            spi_clk: Hertz(SPI_FREQ),
        }
    }
}

impl Default for ClockConfig {
    fn default() -> (config: Self)
        ensures
            config.target() == SysclkFreq::Pll144Mhz,
    {
        Self::new()
    }
}

/// What [`system_clock_init`] appends to a program: the ROM selects the
/// 32 MHz crystal as root clock source and 144 MHz as system clock, then
/// programs the core and bus clock dividers.
pub open spec fn system_clock_actions() -> Seq<Action> {
    seq![
        Action::RomCall {
            index: ROM_API_INDEX_e::ROM_API_INDEX_GLB_Set_System_CLK.ordinal() as u32,
            arg0: GLB_DLL_XTAL_Type::GLB_DLL_XTAL_32M.raw(),
            arg1: GLB_SYS_CLK_Type::GLB_SYS_CLK_DLL144M.raw(),
        },
        Action::RomCall {
            index: ROM_API_INDEX_e::ROM_API_INDEX_GLB_Set_System_CLK_Div.ordinal() as u32,
            arg0: BSP_FCLK_DIV as u32,
            arg1: BSP_BCLK_DIV as u32,
        },
    ]
}

/// What [`peripheral_clock_init`] appends to a program: all peripheral
/// clocks are gated off, then those of the two UARTs are switched on again.
pub open spec fn peripheral_clock_actions() -> Seq<Action> {
    let uarts = with_flag(
        with_flag(no_fields(), BL_AHB_Slave1_Type::UART0.gate_bit(), true),
        BL_AHB_Slave1_Type::UART1.gate_bit(),
        true,
    );
    gate_all_actions() + seq![
        Action::Modify { addr: CGEN_CFG1, mask: uarts.mask, value: uarts.value },
    ]
}

/// Once the peripheral clocks are set up, the two UARTs have their clock,
/// every other peripheral that can do without has none, and the blocks
/// that the processor runs on are as they were.
///
/// `before` is what the clock gate register holds before, whatever that
/// is.
pub proof fn lemma_peripheral_clocks(slave: BL_AHB_Slave1_Type, before: u32)
    ensures
        ({
            let after = register_after(peripheral_clock_actions(), CGEN_CFG1, before);
            let bit = slave.gate_bit();
            bit_is_set(after, bit) == (if slave == BL_AHB_Slave1_Type::UART0 || slave
                == BL_AHB_Slave1_Type::UART1 {
                true
            } else if slave.is_gated() {
                false
            } else {
                bit_is_set(before, bit)
            })
        }),
{
    let uarts = with_flag(with_flag(no_fields(), 16, true), 17, true);
    let a1 = Action::Modify { addr: CGEN_CFG1, mask: GATE_ALL_MASK, value: 0 };
    let a2 = Action::Modify { addr: CGEN_CFG1, mask: uarts.mask, value: uarts.value };
    let s0 = Seq::<Action>::empty();
    assert(peripheral_clock_actions() =~= s0.push(a1).push(a2));
    lemma_register_after_push(s0.push(a1), a2, CGEN_CFG1, before);
    lemma_register_after_push(s0, a1, CGEN_CFG1, before);
    let after = register_after(peripheral_clock_actions(), CGEN_CFG1, before);
    let m = uarts.mask;
    let v = uarts.value;
    assert(m == 0x0003_0000 && v == 0x0003_0000) by (bit_vector)
        requires
            m == (0u32 | ((u32::MAX >> 31u32) << 16u32)) | ((u32::MAX >> 31u32) << 17u32),
            v == ((((0u32 & !((u32::MAX >> 31u32) << 16u32)) | ((1u32 & (u32::MAX >> 31u32))
                << 16u32)) & !((u32::MAX >> 31u32) << 17u32)) | ((1u32 & (u32::MAX >> 31u32))
                << 17u32)),
    ;
    let n = slave.gate_bit();
    assert(after == (((before & !0x70ff_3060u32) | (0u32 & 0x70ff_3060u32)) & !0x0003_0000u32) | (
    0x0003_0000u32 & 0x0003_0000u32));
    assert((((after >> n) & (u32::MAX >> 31u32)) != 0) == (if n == 16 || n == 17 {
        true
    } else if n == 5 || n == 6 || n == 12 || n == 13 || (18 <= n && n <= 23) || n == 28 || n == 29
        || n == 30 {
        false
    } else {
        ((before >> n) & (u32::MAX >> 31u32)) != 0
    })) by (bit_vector)
        requires
            n < 32,
            after == (((before & !0x70ff_3060u32) | (0u32 & 0x70ff_3060u32)) & !0x0003_0000u32) | (
            0x0003_0000u32 & 0x0003_0000u32),
    ;
}

/// This is late system init, called to reconfigure clocks as per users
/// configuration, from the point where the core clocks are set up: the
/// timer clocks are set up, then the peripheral clocks.
///
/// `tree` is the clock tree as it reads once the actions of
/// [`system_clock_init`] have been carried out.
pub fn board_clock_init(tree: ClockReadings, program: &mut Program)
    requires
        clock_hz(system_clock_type::SYSTEM_CLOCK_BCLK, tree) >= 1_000_000,
    ensures
        final(program)@ == old(program)@ + timer_clock_actions(tree) + peripheral_clock_actions(),
{
    timer_clock_init(tree, program);
    peripheral_clock_init(program);
}

/// Set up core clocks: root clock source, system clock frequency, core and
/// bus clock dividers.
///
/// This is the first step of late system init. Once its actions have been
/// carried out, the clock tree is read back and [`board_clock_init`]
/// follows.
pub fn system_clock_init(program: &mut Program)
    ensures
        final(program)@ == old(program)@ + system_clock_actions(),
{
    // select root clock
    program.push(
        GLB_Set_System_CLK(
            GLB_DLL_XTAL_Type::GLB_DLL_XTAL_32M,
            GLB_SYS_CLK_Type::GLB_SYS_CLK_DLL144M,
        ),
    );
    // set fclk/hclk and bclk clock
    program.push(GLB_Set_System_CLK_Div(BSP_FCLK_DIV, BSP_BCLK_DIV));
    assert(program@ =~= old(program)@ + system_clock_actions());
}

/// The divider of the machine timer, less one, that makes it count
/// microseconds off the bus clock.
pub open spec fn mtimer_div(tree: ClockReadings) -> int {
    clock_hz(system_clock_type::SYSTEM_CLOCK_BCLK, tree) / 1000 / 1000 - 1
}

/// What [`timer_clock_init`] appends to a program: the machine timer is
/// set to run off the bus clock, divided down to one megahertz; the 32 kHz
/// crystal oscillator is powered on and then selected as the 32 kHz clock;
/// the crystal is selected as source of the crystal clock.
pub open spec fn timer_clock_actions(tree: ClockReadings) -> Seq<Action> {
    mtimer_clk_actions(1, GLB_MTIMER_CLK_Type::GLB_MTIMER_CLK_BCLK, mtimer_div(tree) as u8)
        + power_on_xtal_32k_actions() + sel_32k_actions(HBN_32K_CLK_Type::HBN_32K_XTAL)
        + xclk_sel_actions(HBN_XCLK_CLK_Type::HBN_XCLK_CLK_XTAL)
}

/// The divider of the machine timer fits its register: the bus clock never
/// runs faster than 144 MHz.
pub proof fn lemma_mtimer_div_fits(tree: ClockReadings)
    requires
        clock_hz(system_clock_type::SYSTEM_CLOCK_BCLK, tree) >= 1_000_000,
    ensures
        0 <= mtimer_div(tree) <= 143,
{
    lemma_dividers_never_exceed(tree);
}

/// Sets the machine timer to count microseconds off the bus clock, powers
/// the 32 kHz crystal oscillator on and selects it, and selects the crystal
/// as source of the crystal clock.
///
/// `tree` is the clock tree as it reads once the actions of
/// [`system_clock_init`] have been carried out.
pub fn timer_clock_init(tree: ClockReadings, program: &mut Program) -> (status: BL_Err_Type)
    requires
        clock_hz(system_clock_type::SYSTEM_CLOCK_BCLK, tree) >= 1_000_000,
    ensures
        status == BL_Err_Type::SUCCESS,
        final(program)@ == old(program)@ + timer_clock_actions(tree),
{
    // Set MTimer the same frequency as SystemCoreClock
    let div: u32 = mtimer_get_clk_src_div(tree);
    proof {
        lemma_mtimer_div_fits(tree);
    }
    GLB_Set_MTimer_CLK(1, GLB_MTIMER_CLK_Type::GLB_MTIMER_CLK_BCLK, div as u8, program);
    HBN_Power_On_Xtal_32K(program);
    HBN_32K_Sel(HBN_32K_CLK_Type::HBN_32K_XTAL, program);
    let status = HBN_Set_XCLK_CLK_Sel(HBN_XCLK_CLK_Type::HBN_XCLK_CLK_XTAL, program);
    assert(program@ =~= old(program)@ + timer_clock_actions(tree));
    status
}

/// Once the timer clocks are set up, the machine timer runs off the bus
/// clock divided down to one megahertz, the 32 kHz crystal oscillator is
/// powered and selected, and the crystal clock comes from the crystal.
///
/// `timer_before`, `hbn_before` and `xtal_before` are what the timer clock
/// register, the clock selection register of the hibernate domain and the
/// oscillator register hold before, whatever that is.
pub proof fn lemma_timer_clocks(
    tree: ClockReadings,
    timer_before: u32,
    hbn_before: u32,
    xtal_before: u32,
)
    requires
        clock_hz(system_clock_type::SYSTEM_CLOCK_BCLK, tree) >= 1_000_000,
    ensures
        ({
            let actions = timer_clock_actions(tree);
            let timer = register_after(actions, CPU_CLK_CFG, timer_before);
            let hbn = register_after(actions, HBN_GLB, hbn_before);
            let xtal = register_after(actions, HBN_XTAL32K, xtal_before);
            &&& bit_is_set(timer, 18)
            &&& !bit_is_set(timer, 19)
            &&& extract(timer, 0, 17) == mtimer_div(tree)
            &&& bit_is_set(xtal, 19)
            &&& bit_is_set(xtal, 18)
            &&& extract(hbn, 3, 2) == HBN_32K_CLK_Type::HBN_32K_XTAL.raw()
            &&& bit_is_set(hbn, 0)
        }),
{
    lemma_mtimer_div_fits(tree);
    let div = mtimer_div(tree) as u8 as u32;
    let off = with_flag(no_fields(), 18, false);
    let sel = with_flag(no_fields(), 19, false);
    let clk = with_field(sel, 0, 17, div);
    let run = with_flag(no_fields(), 18, true);
    let power_buf = with_flag(no_fields(), 19, true);
    let power = with_flag(power_buf, 18, true);
    let f32k = with_field(no_fields(), 3, 2, 1);
    let xclk = with_flag(no_fields(), 0, true);
    let a1 = Action::Modify { addr: CPU_CLK_CFG, mask: off.mask, value: off.value };
    let a2 = Action::Modify { addr: CPU_CLK_CFG, mask: clk.mask, value: clk.value };
    let a3 = Action::Modify { addr: CPU_CLK_CFG, mask: run.mask, value: run.value };
    let a4 = Action::Modify { addr: HBN_XTAL32K, mask: power.mask, value: power.value };
    let a5 = Action::Modify { addr: HBN_GLB, mask: f32k.mask, value: f32k.value };
    let a6 = Action::Modify { addr: HBN_GLB, mask: xclk.mask, value: xclk.value };
    let s0 = Seq::<Action>::empty();
    let s1 = s0.push(a1);
    let s2 = s1.push(a2);
    let s3 = s2.push(a3);
    let s4 = s3.push(a4);
    let s5 = s4.push(a5);
    let s6 = s5.push(a6);
    assert(timer_clock_actions(tree) =~= s6);
    lemma_register_after_push(s0, a1, CPU_CLK_CFG, timer_before);
    lemma_register_after_push(s1, a2, CPU_CLK_CFG, timer_before);
    lemma_register_after_push(s2, a3, CPU_CLK_CFG, timer_before);
    lemma_register_after_push(s3, a4, CPU_CLK_CFG, timer_before);
    lemma_register_after_push(s4, a5, CPU_CLK_CFG, timer_before);
    lemma_register_after_push(s5, a6, CPU_CLK_CFG, timer_before);
    lemma_register_after_push(s0, a1, HBN_GLB, hbn_before);
    lemma_register_after_push(s1, a2, HBN_GLB, hbn_before);
    lemma_register_after_push(s2, a3, HBN_GLB, hbn_before);
    lemma_register_after_push(s3, a4, HBN_GLB, hbn_before);
    lemma_register_after_push(s4, a5, HBN_GLB, hbn_before);
    lemma_register_after_push(s5, a6, HBN_GLB, hbn_before);
    lemma_register_after_push(s0, a1, HBN_XTAL32K, xtal_before);
    lemma_register_after_push(s1, a2, HBN_XTAL32K, xtal_before);
    lemma_register_after_push(s2, a3, HBN_XTAL32K, xtal_before);
    lemma_register_after_push(s3, a4, HBN_XTAL32K, xtal_before);
    lemma_register_after_push(s4, a5, HBN_XTAL32K, xtal_before);
    lemma_register_after_push(s5, a6, HBN_XTAL32K, xtal_before);
    lemma_low_masks();
    assert(1u32 & 1 == 1 && 0u32 & 1 == 0 && 1u32 & 3 == 1) by (bit_vector);
    assert(div & 0x1ffff == div && (u32::MAX >> 15u32) == 0x1ffff) by (bit_vector)
        requires
            div <= 143,
    ;

    // the timer clock: off, source and divider, on
    let t1 = applied(off, timer_before);
    let t2 = applied(clk, t1);
    let t3 = applied(run, t2);
    assert(register_after(s6, CPU_CLK_CFG, timer_before) == t3);
    lemma_last_field_reads_back(no_fields(), 18, 1, 1, t2);
    lemma_other_field_unchanged(no_fields(), 18, 1, 1, t2, 19, 1);
    lemma_other_field_unchanged(no_fields(), 18, 1, 1, t2, 0, 17);
    lemma_applied_none(t2);
    lemma_last_field_reads_back(sel, 0, 17, div, t1);
    lemma_other_field_unchanged(sel, 0, 17, div, t1, 19, 1);
    lemma_last_field_reads_back(no_fields(), 19, 1, 0, t1);

    // the oscillator
    assert(register_after(s6, HBN_XTAL32K, xtal_before) == applied(power, xtal_before));
    lemma_last_field_reads_back(power_buf, 18, 1, 1, xtal_before);
    lemma_other_field_unchanged(power_buf, 18, 1, 1, xtal_before, 19, 1);
    lemma_last_field_reads_back(no_fields(), 19, 1, 1, xtal_before);

    // the clock selections of the hibernate domain
    let h1 = applied(f32k, hbn_before);
    let h2 = applied(xclk, h1);
    assert(register_after(s6, HBN_GLB, hbn_before) == h2);
    lemma_last_field_reads_back(no_fields(), 0, 1, 1, h1);
    lemma_other_field_unchanged(no_fields(), 0, 1, 1, h1, 3, 2);
    lemma_applied_none(h1);
    lemma_last_field_reads_back(no_fields(), 3, 2, 1, hbn_before);
}

/// Disable all peripheral clocks, then re-enable any that we're using
pub fn peripheral_clock_init(program: &mut Program)
    ensures
        final(program)@ == old(program)@ + peripheral_clock_actions(),
{
    peripheral_clock_gate_all(program);
    program.modify_fields(CGEN_CFG1, Fields::none().with_bit(16, true).with_bit(17, true));
    assert(program@ =~= old(program)@ + peripheral_clock_actions());
}

/// Physical base address of the interrupt controller of hart 0.
pub const CLIC_HART0_ADDR: u32 = 0x0280_0000;

/// Offset of the interrupt pending words.
pub const CLIC_INTIP: u32 = 0x000;

/// Offset of the interrupt enable words.
pub const CLIC_INTIE: u32 = 0x400;

/// Number of the first interrupt that is no core-local interrupt.
pub const IRQ_NUM_BASE: u32 = 16;

/// Number of interrupts behind the core-local ones.
pub const IRQ_QTY: u32 = 64;

/// Number of words that hold one byte for each interrupt.
pub const IRQ_ITER_END: u32 = (IRQ_NUM_BASE + IRQ_QTY + 2) / 4;

/// The system frequency at which the frequency scratch register is written
/// anew.
pub const FREQ_TO_FIX: u32 = 57 * 6000 * 1000;

/// The system frequency that is then written: 57.6 MHz.
pub const FREQ_FIXED: u32 = 57_600_000;

/// The selection of the flash interface in the fuse word.
pub open spec fn fuse_flash_cfg(fuse: u32) -> u32 {
    extract(fuse, 26, 3)
}

/// The selection of the PSRAM interface in the fuse word.
pub open spec fn fuse_psram_cfg(fuse: u32) -> u32 {
    extract(fuse, 24, 2)
}

/// The pins that are handed to the memory interface: all six where the fuses
/// say that the flash is inside the package and the PSRAM is not, else none.
pub open spec fn psram_io(fuse: u32) -> u32 {
    let internal_flash = fuse_flash_cfg(fuse) == 1 || fuse_flash_cfg(fuse) == 2;
    let internal_psram = fuse_psram_cfg(fuse) == 1;
    if internal_flash && !internal_psram {
        0x3f
    } else {
        0
    }
}

/// First step of [`system_init`]: interrupts are masked, the wake-up
/// interrupts of the power-down domain are masked and its wake-up sources
/// disabled, the embedded memory selection and the UART signal swap are
/// reset.
pub open spec fn early_mask_actions() -> Seq<Action> {
    let wake = with_field(
        with_flag(with_flag(with_flag(no_fields(), 8, true), 10, true), 11, true),
        16,
        8,
        0,
    );
    let em_sel = with_field(no_fields(), 0, 4, 0);
    let uart_swap = with_field(no_fields(), 24, 4, 0);
    seq![
        Action::DisableInterrupts,
        Action::Modify { addr: PDS_INT, mask: wake.mask, value: wake.value },
        Action::Modify { addr: SEAM_MISC, mask: em_sel.mask, value: em_sel.value },
        Action::Modify { addr: GLB_PARM, mask: uart_swap.mask, value: uart_swap.value },
    ]
}

/// Second step: the frequency scratch register is written anew if it reads
/// [`FREQ_TO_FIX`].
pub open spec fn frequency_fix_actions(frequency: u32) -> Seq<Action> {
    if frequency == FREQ_TO_FIX {
        seq![Action::Write { addr: HBN_RSV2, value: FREQ_FIXED }]
    } else {
        Seq::<Action>::empty()
    }
}

/// Third step: every interrupt is disabled, then every pending interrupt is
/// cleared.
pub open spec fn clear_interrupt_actions() -> Seq<Action> {
    zero_words((CLIC_HART0_ADDR + CLIC_INTIE) as u32, IRQ_ITER_END as nat) + zero_words(
        (CLIC_HART0_ADDR + CLIC_INTIP) as u32,
        IRQ_ITER_END as nat,
    )
}

/// Last step: the pins shared with the memory interface are set as the fuses
/// say, the brown-out interrupt is disabled, the brown-out detector is
/// powered down with its threshold at the higher level and its reset
/// unselected, and interrupts are unmasked.
pub open spec fn safe_default_actions(fuse: u32) -> Seq<Action> {
    let bor_irq = with_flag(no_fields(), 18, false);
    let bor = with_flag(with_flag(with_flag(no_fields(), 2, false), 1, true), 0, false);
    seq![
        Action::Modify { addr: GPIO_USE_PSRAM_IO, mask: u32::MAX, value: psram_io(fuse) },
        Action::Modify { addr: HBN_IRQ_MODE, mask: bor_irq.mask, value: bor_irq.value },
        Action::Modify { addr: HBN_MISC, mask: bor.mask, value: bor.value },
        Action::EnableInterrupts,
    ]
}

/// What [`system_init`] appends to a program: the steps that follow the
/// first.
pub open spec fn system_init_rest_actions(frequency: u32, fuse: u32) -> Seq<Action> {
    frequency_fix_actions(frequency) + clear_interrupt_actions() + safe_default_actions(fuse)
}

/// What early system init comes to, its two steps together: what
/// [`system_init_enter`] appends, then what [`system_init`] appends.
pub open spec fn system_init_actions(frequency: u32, fuse: u32) -> Seq<Action> {
    early_mask_actions() + system_init_rest_actions(frequency, fuse)
}

/// Early system init runs with interrupts masked: the first action of its
/// first step masks them, the last action of its second step unmasks them,
/// and every action in between is an access to a register.
pub proof fn lemma_system_init_masks_interrupts(frequency: u32, fuse: u32)
    ensures
        ({
            let actions = system_init_actions(frequency, fuse);
            &&& actions.len() >= 2
            &&& actions.first() == Action::DisableInterrupts
            &&& actions.last() == Action::EnableInterrupts
            &&& registers_only(actions.subrange(1, actions.len() - 1))
        }),
{
    let early = early_mask_actions();
    let fix = frequency_fix_actions(frequency);
    let clear = clear_interrupt_actions();
    let defaults = safe_default_actions(fuse);
    let actions = system_init_actions(frequency, fuse);
    let inner = actions.subrange(1, actions.len() - 1);
    assert(early.len() == 4);
    assert(clear.len() == 2 * IRQ_ITER_END);
    assert(defaults.len() == 4);
    assert(actions.first() == early[0]);
    assert(actions.last() == defaults[3]);
    assert forall|i: int| 0 <= i < inner.len() implies (#[trigger] inner[i] is Write || inner[i]
        is Modify || inner[i] is WriteByte) by {
        let k = i + 1;
        assert(inner[i] == actions[k]);
        if k < 4 {
            assert(actions[k] == early[k]);
        } else if k < 4 + fix.len() {
            assert(actions[k] == fix[k - 4]);
        } else if k < 4 + fix.len() + clear.len() {
            let j = k - 4 - fix.len();
            assert(actions[k] == clear[j]);
            if j < IRQ_ITER_END {
                assert(clear[j] == zero_words(
                    (CLIC_HART0_ADDR + CLIC_INTIE) as u32,
                    IRQ_ITER_END as nat,
                )[j]);
            } else {
                assert(clear[j] == zero_words(
                    (CLIC_HART0_ADDR + CLIC_INTIP) as u32,
                    IRQ_ITER_END as nat,
                )[j - IRQ_ITER_END]);
            }
        } else {
            let j = k - 4 - fix.len() - clear.len();
            assert(actions[k] == defaults[j]);
        }
    }
}

/// Physical base address of the fuse data.
pub const EF_DATA_BASE: u32 = 0x4000_7000;

/// The factory-programmed word that says how flash and PSRAM are
/// connected.
pub const EF_KEY_SLOT_5_W2: u32 = EF_DATA_BASE + 0x74;

/// This is early system init, first step. It must be carried out before
/// anything else, and before the frequency scratch register
/// ([`HBN_RSV2`]) and the fuse word ([`EF_KEY_SLOT_5_W2`]) are read for
/// the second step, [`system_init`]: interrupts are masked from here on.
pub fn system_init_enter(program: &mut Program)
    ensures
        final(program)@ == old(program)@ + early_mask_actions(),
{
    program.push(Action::DisableInterrupts);
    program.modify_fields(
        PDS_INT,
        Fields::none().with_bit(8, true)  // mask pds wakeup
        .with_bit(10, true)  // mask rf done
        .with_bit(11, true)  // mask pll done
        .with(16, 8, 0),  // no wakeup source
    );
    program.modify_fields(SEAM_MISC, Fields::none().with(0, 4, 0));
    // Restore default setting
    program.modify_fields(GLB_PARM, Fields::none().with(24, 4, 0));
    assert(program@ =~= old(program)@ + early_mask_actions());
}

/// This is early system init, second step.
///
/// `frequency` is what the frequency scratch register reads
/// ([`system_frequency`]); `fuse` is the factory-programmed word that says
/// how flash and PSRAM are connected. Both are to be read once the actions
/// of [`system_init_enter`] have been carried out, so that they are read
/// with interrupts masked. The last action unmasks interrupts.
pub fn system_init(frequency: u32, fuse: u32, program: &mut Program)
    ensures
        final(program)@ == old(program)@ + system_init_rest_actions(frequency, fuse),
{
    // fix 57.6M
    if frequency == FREQ_TO_FIX {
        program.write(HBN_RSV2, FREQ_FIXED);
    }
    assert(program@ =~= old(program)@ + frequency_fix_actions(frequency));

    // Clear all interrupts
    program.zero_words(CLIC_HART0_ADDR + CLIC_INTIE, IRQ_ITER_END);
    program.zero_words(CLIC_HART0_ADDR + CLIC_INTIP, IRQ_ITER_END);
    let ghost cleared = program@;
    assert(cleared =~= old(program)@ + frequency_fix_actions(frequency)
        + clear_interrupt_actions());

    // SF io select from efuse value
    let flash_cfg: u32 = get_field(fuse, 26, 3);
    let psram_cfg: u32 = get_field(fuse, 24, 2);
    let is_internal_flash = flash_cfg == 1 || flash_cfg == 2;
    let is_internal_psram = psram_cfg == 1;
    let shared: u32 = if is_internal_flash && !is_internal_psram {
        0x3f
    } else {
        0
    };
    program.modify(GPIO_USE_PSRAM_IO, u32::MAX, shared);

    program.modify_fields(HBN_IRQ_MODE, Fields::none().with_bit(18, false));
    program.modify_fields(
        HBN_MISC,
        Fields::none().with_bit(2, false).with_bit(1, true).with_bit(0, false),
    );
    program.push(Action::EnableInterrupts);
    assert(program@ =~= cleared + safe_default_actions(fuse));
    assert(program@ =~= old(program)@ + system_init_rest_actions(frequency, fuse));
}

/// The system frequency, as the frequency scratch register holds it.
pub fn system_frequency(hbn_rsv2: u32) -> (frequency: u32)
    ensures
        frequency == hbn_rsv2,
{
    hbn_rsv2
}

/// How the clock tree is set, as read from the device.
#[derive(Clone, Copy, Debug)]
pub struct ClockReadings {
    /// The root clock selection, as the ROM reports it.
    pub root: GLB_ROOT_CLK_Type,
    /// The root clock configuration register.
    pub clk_cfg0: u32,
    /// Divider between root clock and core clock, less one.
    pub hclk_div: u8,
    /// Divider between core clock and bus clock, less one.
    pub bclk_div: u8,
}

/// The PLL output that the root clock configuration register selects.
pub open spec fn pll_sel(clk_cfg0: u32) -> u32 {
    extract(clk_cfg0, 4, 2)
}

/// The frequency of the root clock, in hertz: 32 MHz from either
/// oscillator, else the PLL output that is selected.
pub open spec fn root_clock_hz(tree: ClockReadings) -> u32 {
    if tree.root == GLB_ROOT_CLK_Type::GLB_ROOT_CLK_RC32M || tree.root
        == GLB_ROOT_CLK_Type::GLB_ROOT_CLK_XTAL {
        32_000_000
    } else if pll_sel(tree.clk_cfg0) == 0 {
        57_600_000
    } else if pll_sel(tree.clk_cfg0) == 1 {
        96_000_000
    } else if pll_sel(tree.clk_cfg0) == 2 {
        144_000_000
    } else {
        0
    }
}

/// The frequency of a stage of the clock tree, in hertz. Each divider
/// divides by the number it holds and one, rounding down.
pub open spec fn clock_hz(t: system_clock_type, tree: ClockReadings) -> int {
    let root = root_clock_hz(tree) as int;
    let hclk = tree.hclk_div as int + 1;
    let bclk = tree.bclk_div as int + 1;
    match t {
        system_clock_type::SYSTEM_CLOCK_ROOT_CLOCK => root,
        system_clock_type::SYSTEM_CLOCK_FCLK => root / hclk,
        system_clock_type::SYSTEM_CLOCK_BCLK => root / hclk / bclk,
        system_clock_type::SYSTEM_CLOCK_XCLK => 32_000_000,
        system_clock_type::SYSTEM_CLOCK_32K_CLK => 32_000,
        system_clock_type::SYSTEM_CLOCK_AUPLL => 12_288_000,
    }
}

/// The divider that makes the machine timer count microseconds off the bus
/// clock, less one.
pub fn mtimer_get_clk_src_div(tree: ClockReadings) -> (div: u32)
    requires
        clock_hz(system_clock_type::SYSTEM_CLOCK_BCLK, tree) >= 1_000_000,
    ensures
        div == clock_hz(system_clock_type::SYSTEM_CLOCK_BCLK, tree) / 1000 / 1000 - 1,
{
    system_clock_get(system_clock_type::SYSTEM_CLOCK_BCLK, tree) / 1000 / 1000 - 1
}

/// The frequency of a stage of the clock tree: computes [`clock_hz`].
pub fn system_clock_get(t: system_clock_type, tree: ClockReadings) -> (hz: u32)
    ensures
        hz == clock_hz(t, tree),
    decreases
            (if t == system_clock_type::SYSTEM_CLOCK_ROOT_CLOCK {
                0nat
            } else {
                1nat
            }),
{
    match t {
        system_clock_type::SYSTEM_CLOCK_ROOT_CLOCK => {
            match tree.root {
                GLB_ROOT_CLK_Type::GLB_ROOT_CLK_RC32M | GLB_ROOT_CLK_Type::GLB_ROOT_CLK_XTAL => {
                    32_000_000
                },
                GLB_ROOT_CLK_Type::GLB_ROOT_CLK_DLL => {
                    let sel: u32 = get_field(tree.clk_cfg0, 4, 2);
                    if sel == 0 {
                        57_600_000
                    } else if sel == 1 {
                        96_000_000
                    } else if sel == 2 {
                        144_000_000
                    } else {
                        0
                    }
                },
            }
        },
        system_clock_type::SYSTEM_CLOCK_FCLK => {
            system_clock_get(system_clock_type::SYSTEM_CLOCK_ROOT_CLOCK, tree) / (
            tree.hclk_div as u32 + 1)
        },
        system_clock_type::SYSTEM_CLOCK_BCLK => {
            system_clock_get(system_clock_type::SYSTEM_CLOCK_ROOT_CLOCK, tree) / (
            tree.hclk_div as u32 + 1) / (tree.bclk_div as u32 + 1)
        },
        system_clock_type::SYSTEM_CLOCK_XCLK => 32_000_000,
        system_clock_type::SYSTEM_CLOCK_32K_CLK => 32_000,
        system_clock_type::SYSTEM_CLOCK_AUPLL => 12_288_000,
    }
}

/// No stage of the clock tree runs faster than the root clock that feeds
/// it, whatever the dividers hold.
pub proof fn lemma_dividers_never_exceed(tree: ClockReadings)
    ensures
        clock_hz(system_clock_type::SYSTEM_CLOCK_BCLK, tree) <= clock_hz(
            system_clock_type::SYSTEM_CLOCK_FCLK,
            tree,
        ) <= clock_hz(system_clock_type::SYSTEM_CLOCK_ROOT_CLOCK, tree),
{
    let root = root_clock_hz(tree) as int;
    let h = tree.hclk_div + 1;
    let b = tree.bclk_div + 1;
    assert(root / h <= root) by (nonlinear_arith)
        requires
            root >= 0,
            h >= 1,
    ;
    assert(0 <= root / h) by (nonlinear_arith)
        requires
            root >= 0,
            h >= 1,
    ;
    let f = root / h;
    assert(f / b <= f) by (nonlinear_arith)
        requires
            f >= 0,
            b >= 1,
    ;
}

} // verus!
