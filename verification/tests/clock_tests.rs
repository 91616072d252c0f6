use bl702_hal::clock::board_clock_init;
use bl702_hal::clock::mtimer_get_clk_src_div;
use bl702_hal::clock::peripheral_clock_init;
use bl702_hal::clock::system_clock_get;
use bl702_hal::clock::system_clock_init;
use bl702_hal::clock::system_clock_type;
use bl702_hal::clock::system_frequency;
use bl702_hal::clock::system_init;
use bl702_hal::clock::system_init_enter;
use bl702_hal::clock::EF_KEY_SLOT_5_W2;
use bl702_hal::clock::timer_clock_init;
use bl702_hal::clock::ClockConfig;
use bl702_hal::clock::ClockReadings;
use bl702_hal::clock::Clocks;
use bl702_hal::clock::SysclkFreq;
use bl702_hal::clock::BSP_BCLK_DIV;
use bl702_hal::clock::BSP_FCLK_DIV;
use bl702_hal::clock::SYSFREQ;
use bl702_hal::clock::UART_PLL_FREQ;
use bl702_hal::clock::XTAL_FREQ;
use bl702_hal::gpio::split;
use bl702_hal::hw::Action;
use bl702_hal::hw::Program;
use bl702_hal::rate::Hertz;
use bl702_hal::system::glb::peripheral_clock_gate_all;
use bl702_hal::system::glb::GLB_Get_BCLK_Div;
use bl702_hal::system::glb::GLB_Get_HCLK_Div;
use bl702_hal::system::glb::GLB_Get_Root_CLK_Sel;
use bl702_hal::system::glb::GLB_Set_MTimer_CLK;
use bl702_hal::system::glb::GLB_Set_System_CLK;
use bl702_hal::system::glb::GLB_Set_System_CLK_Div;
use bl702_hal::system::glb::GLB_Set_UART_CLK;
use bl702_hal::system::glb::GLB_DLL_XTAL_Type;
use bl702_hal::system::glb::GLB_MTIMER_CLK_Type;
use bl702_hal::system::glb::GLB_ROOT_CLK_Type;
use bl702_hal::system::glb::GLB_SYS_CLK_Type;
use bl702_hal::system::hbn::HBN_32K_Sel;
use bl702_hal::system::hbn::HBN_Power_On_Xtal_32K;
use bl702_hal::system::hbn::HBN_Set_XCLK_CLK_Sel;
use bl702_hal::system::hbn::HBN_32K_CLK_Type;
use bl702_hal::system::hbn::HBN_UART_CLK_Type;
use bl702_hal::system::hbn::HBN_XCLK_CLK_Type;
use bl702_hal::system::pds::pds_power_on_pll_rom;
use bl702_hal::system::pds::pll_power_on;
use bl702_hal::system::pds::PllPowerOn;
use bl702_hal::system::pds::PDS_PLL_XTAL_Type;
use bl702_hal::system::romfunc::data::ROM_API_INDEX_e;
use bl702_hal::system::romfunc::data::ROMAPI_INDEX_MAX;
use bl702_hal::system::romfunc::data::ROM_API_INDEX_FUNC_LAST;
use bl702_hal::system::romfunc::rom_call;
use bl702_hal::system::romfunc::rom_fn_slot;
use bl702_hal::system::romfunc::rom_signature;
use bl702_hal::system::romfunc::rom_slot;
use bl702_hal::system::romfunc::RomSignature;
use bl702_hal::system::BL_Err_Type;

const PDS_INT: u32 = 0x4000_e00c;
const SEAM_MISC: u32 = 0x4000_007c;
const GLB_PARM: u32 = 0x4000_0080;
const HBN_RSV2: u32 = 0x4000_f108;
const GPIO_USE_PSRAM_IO: u32 = 0x4000_0088;
const HBN_IRQ_MODE: u32 = 0x4000_f014;
const HBN_MISC: u32 = 0x4000_f02c;
const HBN_GLB: u32 = 0x4000_f030;
const CLK_CFG2: u32 = 0x4000_0008;
const CGEN_CFG1: u32 = 0x4000_0024;
const CLIC_INTIE: u32 = 0x0280_0400;
const CLIC_INTIP: u32 = 0x0280_0000;
const CPU_CLK_CFG: u32 = 0x4000_0090;
const HBN_XTAL32K: u32 = 0x4000_f204;

/// Early system init, both steps, as one program.
fn early_init(frequency: u32, fuse: u32, program: &mut Program) {
    system_init_enter(program);
    system_init(frequency, fuse, program);
}

fn modify(addr: u32, mask: u32, value: u32) -> Action {
    Action::Modify { addr, mask, value }
}

fn write(addr: u32, value: u32) -> Action {
    Action::Write { addr, value }
}

fn rom(index: u32, arg0: u32, arg1: u32) -> Action {
    Action::RomCall { index, arg0, arg1 }
}

fn expected_system_init(fix: bool, shared: u32) -> Vec<Action> {
    let mut expected = vec![
        Action::DisableInterrupts,
        modify(PDS_INT, 0x00ff_0d00, 0x0000_0d00),
        modify(SEAM_MISC, 0x0000_000f, 0),
        modify(GLB_PARM, 0x0f00_0000, 0),
    ];
    if fix {
        expected.push(write(HBN_RSV2, 57_600_000));
    }
    for i in 0..20 {
        expected.push(write(CLIC_INTIE + 4 * i, 0));
    }
    for i in 0..20 {
        expected.push(write(CLIC_INTIP + 4 * i, 0));
    }
    expected.push(modify(GPIO_USE_PSRAM_IO, 0xffff_ffff, shared));
    expected.push(modify(HBN_IRQ_MODE, 0x0004_0000, 0));
    expected.push(modify(HBN_MISC, 0x0000_0007, 0x0000_0002));
    expected.push(Action::EnableInterrupts);
    expected
}

#[test]
fn system_init_with_internal_flash() {
    let mut program = Program::new();
    // flash selection 1, PSRAM selection 0
    early_init(144_000_000, 0x0400_0000, &mut program);
    let actions = program.into_actions();
    assert_eq!(actions.len(), 48);
    assert_eq!(actions, expected_system_init(false, 0x3f));
}

#[test]
fn system_init_fuse_selections() {
    for (fuse, shared) in [
        (0x0000_0000u32, 0u32),
        (0x0400_0000, 0x3f),
        (0x0800_0000, 0x3f),
        (0x0c00_0000, 0),
        (0x1000_0000, 0),
        // flash inside, PSRAM inside as well
        (0x0500_0000, 0),
        (0x0900_0000, 0),
        // PSRAM selections other than 1 do not count as inside
        (0x0600_0000, 0x3f),
        (0x0b00_0000, 0x3f),
        // the other bits of the fuse word do not matter
        (0xe4ff_ffff, 0x3f),
        (0x21ff_ffff, 0),
        (0xffff_ffff, 0),
    ] {
        let mut program = Program::new();
        early_init(0, fuse, &mut program);
        assert_eq!(program.into_actions(), expected_system_init(false, shared));
    }
}

#[test]
fn system_init_fixes_the_frequency() {
    let mut program = Program::new();
    early_init(342_000_000, 0, &mut program);
    let actions = program.into_actions();
    assert_eq!(actions.len(), 49);
    assert_eq!(actions, expected_system_init(true, 0));
    // the real 57.6 MHz is left as it is
    let mut program = Program::new();
    early_init(57_600_000, 0, &mut program);
    assert_eq!(program.into_actions(), expected_system_init(false, 0));
}

#[test]
fn system_init_masks_interrupts_throughout() {
    let mut program = Program::new();
    program.write(1, 2);
    early_init(342_000_000, 0x0400_0000, &mut program);
    let actions = program.into_actions();
    // what was there before stays in front
    assert_eq!(actions[0], write(1, 2));
    assert_eq!(actions[1], Action::DisableInterrupts);
    assert_eq!(actions[actions.len() - 1], Action::EnableInterrupts);
    let inner = &actions[2..actions.len() - 1];
    assert!(inner
        .iter()
        .all(|a| !matches!(a, Action::DisableInterrupts | Action::EnableInterrupts)));
}

#[test]
fn system_init_reads_fall_inside_the_masked_window() {
    // the first step masks interrupts and ends before anything is read
    let mut program = Program::new();
    system_init_enter(&mut program);
    let first = program.take();
    assert_eq!(
        first,
        vec![
            Action::DisableInterrupts,
            modify(PDS_INT, 0x00ff_0d00, 0x0000_0d00),
            modify(SEAM_MISC, 0x0000_000f, 0),
            modify(GLB_PARM, 0x0f00_0000, 0),
        ]
    );
    // the second step does not mask again, and unmasks at its end
    system_init(0, 0x0400_0000, &mut program);
    let second = program.take();
    assert_eq!(second.len(), 44);
    assert!(!second.contains(&Action::DisableInterrupts));
    assert_eq!(second[43], Action::EnableInterrupts);
    assert_eq!(second.iter().filter(|a| **a == Action::EnableInterrupts).count(), 1);
    assert_eq!(EF_KEY_SLOT_5_W2, 0x4000_7074);
}

#[test]
fn system_frequency_is_the_scratch_register() {
    assert_eq!(system_frequency(0), 0);
    assert_eq!(system_frequency(144_000_000), 144_000_000);
}

fn expected_timer_clocks(div: u32) -> Vec<Action> {
    vec![
        // the timer clock: off, bus clock and divider, on
        modify(CPU_CLK_CFG, 0x0004_0000, 0),
        modify(CPU_CLK_CFG, 0x0009_ffff, div),
        modify(CPU_CLK_CFG, 0x0004_0000, 0x0004_0000),
        // the 32 kHz crystal: powered on, then selected
        modify(HBN_XTAL32K, 0x000c_0000, 0x000c_0000),
        modify(HBN_GLB, 0x0000_0018, 0x0000_0008),
        // the crystal clock comes from the crystal
        modify(HBN_GLB, 0x0000_0001, 0x0000_0001),
    ]
}

#[test]
fn late_init_selects_clocks_then_timers_then_gates() {
    let mut first = Program::new();
    system_clock_init(&mut first);
    assert_eq!(
        first.into_actions(),
        vec![
            // select the 32 MHz crystal and 144 MHz
            rom(25, 1, 4),
            // core clock undivided, bus clock halved
            rom(21, 0, 1),
        ]
    );
    // the clock tree as it reads after that: bus clock 72 MHz
    let t = tree(GLB_ROOT_CLK_Type::GLB_ROOT_CLK_DLL, 2, 0, 1);
    let mut second = Program::new();
    board_clock_init(t, &mut second);
    let mut expected = expected_timer_clocks(71);
    expected.push(modify(CGEN_CFG1, 0x70ff_3060, 0));
    expected.push(modify(CGEN_CFG1, 0x0003_0000, 0x0003_0000));
    assert_eq!(second.into_actions(), expected);
    let mut gates = Program::new();
    peripheral_clock_init(&mut gates);
    assert_eq!(gates.len(), 2);
    let mut gate = Program::new();
    peripheral_clock_gate_all(&mut gate);
    assert_eq!(gate.into_actions(), vec![modify(CGEN_CFG1, 0x70ff_3060, 0)]);
}

#[test]
fn timer_clocks_follow_the_bus_clock() {
    let dll = GLB_ROOT_CLK_Type::GLB_ROOT_CLK_DLL;
    for (t, div) in [
        (tree(dll, 2, 0, 1), 71u32),
        (tree(dll, 2, 0, 0), 143),
        (tree(dll, 1, 0, 0), 95),
        (tree(dll, 0, 0, 0), 56),
        (tree(GLB_ROOT_CLK_Type::GLB_ROOT_CLK_XTAL, 0, 0, 0), 31),
        (tree(GLB_ROOT_CLK_Type::GLB_ROOT_CLK_RC32M, 0, 3, 1), 3),
        (tree(dll, 2, 143, 0), 0),
    ] {
        let mut program = Program::new();
        assert_eq!(timer_clock_init(t, &mut program), BL_Err_Type::SUCCESS);
        // bit 17 belongs to no field and stays
        assert_eq!(program.readback(CPU_CLK_CFG, 0xffff_ffff), 0xfff6_0000 | div);
        assert_eq!(program.readback(CPU_CLK_CFG, 0), 0x0004_0000 | div);
        assert_eq!(program.readback(HBN_XTAL32K, 0), 0x000c_0000);
        assert_eq!(program.readback(HBN_GLB, 0xffff_ffff), 0xffff_ffef);
        assert_eq!(program.readback(HBN_GLB, 0), 0x0000_0009);
        assert_eq!(program.into_actions(), expected_timer_clocks(div));
    }
}

#[test]
fn gating_keeps_only_what_the_processor_runs_on() {
    let mut program = Program::new();
    peripheral_clock_init(&mut program);
    // everything on before: the gated ones go off, the UARTs come back
    let after = program.readback(CGEN_CFG1, 0xffff_ffff);
    assert_eq!(after, 0x8f03_cf9f);
    // everything off before: only the UARTs are on
    assert_eq!(program.readback(CGEN_CFG1, 0), 0x0003_0000);
}

#[test]
fn freeze_programs_the_uart_clock() {
    let mut parts = split(());
    let mut program = Program::new();
    let clocks = ClockConfig::new().freeze(&mut parts.clk_cfg, &mut program);
    assert_eq!(
        program.into_actions(),
        vec![modify(HBN_GLB, 0x0000_0004, 0x0000_0004), modify(CLK_CFG2, 0x0000_0017, 0x0000_0010)]
    );
    assert_eq!(clocks.sysclk(), Hertz(144_000_000));
    assert_eq!(clocks.uart_clk(), Hertz(96_000_000));
    assert_eq!(clocks.spi_clk(), Hertz(36_000_000));
    let mut program = Program::new();
    let again = ClockConfig::default().freeze(&mut parts.clk_cfg, &mut program);
    assert_eq!(again.sysclk(), clocks.sysclk());
}

#[test]
fn clocks_and_constants() {
    assert_eq!(SYSFREQ, 144_000_000);
    assert_eq!(bl702_hal::SYSFREQ, 144_000_000);
    assert_eq!(XTAL_FREQ, 32_000_000);
    assert_eq!(UART_PLL_FREQ, 96_000_000);
    assert_eq!(BSP_FCLK_DIV, 0);
    assert_eq!(BSP_BCLK_DIV, 1);
    assert_eq!(SysclkFreq::Pll144Mhz.to_hertz(), 144_000_000);
    let clocks = Clocks::new();
    assert_eq!(clocks.sysclk(), Hertz(SYSFREQ));
    assert_eq!(clocks.uart_clk(), Hertz(UART_PLL_FREQ));
    let same = Clocks::default();
    assert_eq!(same.sysclk(), clocks.sysclk());
    assert_eq!(same.uart_clk(), clocks.uart_clk());
    assert_eq!(same.spi_clk(), clocks.spi_clk());
}

fn tree(root: GLB_ROOT_CLK_Type, pll_sel: u32, hclk_div: u8, bclk_div: u8) -> ClockReadings {
    // the PLL selection is bits 4 and 5; the other bits are set to show that they do not matter
    ClockReadings { root, clk_cfg0: 0xffff_ffcf | (pll_sel << 4), hclk_div, bclk_div }
}

#[test]
fn clock_tree_after_bring_up() {
    let t = tree(GLB_ROOT_CLK_Type::GLB_ROOT_CLK_DLL, 2, 0, 1);
    assert_eq!(system_clock_get(system_clock_type::SYSTEM_CLOCK_ROOT_CLOCK, t), 144_000_000);
    assert_eq!(system_clock_get(system_clock_type::SYSTEM_CLOCK_FCLK, t), 144_000_000);
    assert_eq!(system_clock_get(system_clock_type::SYSTEM_CLOCK_BCLK, t), 72_000_000);
    assert_eq!(system_clock_get(system_clock_type::SYSTEM_CLOCK_XCLK, t), 32_000_000);
    assert_eq!(system_clock_get(system_clock_type::SYSTEM_CLOCK_32K_CLK, t), 32_000);
    assert_eq!(system_clock_get(system_clock_type::SYSTEM_CLOCK_AUPLL, t), 12_288_000);
    assert_eq!(mtimer_get_clk_src_div(t), 71);
}

#[test]
fn clock_tree_sources_and_dividers() {
    const BCLK: system_clock_type = system_clock_type::SYSTEM_CLOCK_BCLK;
    const FCLK: system_clock_type = system_clock_type::SYSTEM_CLOCK_FCLK;
    const ROOT: system_clock_type = system_clock_type::SYSTEM_CLOCK_ROOT_CLOCK;
    for pll_sel in 0..4 {
        let rc = tree(GLB_ROOT_CLK_Type::GLB_ROOT_CLK_RC32M, pll_sel, 0, 0);
        assert_eq!(system_clock_get(ROOT, rc), 32_000_000);
        let xtal = tree(GLB_ROOT_CLK_Type::GLB_ROOT_CLK_XTAL, pll_sel, 3, 1);
        assert_eq!(system_clock_get(ROOT, xtal), 32_000_000);
        assert_eq!(system_clock_get(FCLK, xtal), 8_000_000);
        assert_eq!(system_clock_get(BCLK, xtal), 4_000_000);
    }
    let dll = GLB_ROOT_CLK_Type::GLB_ROOT_CLK_DLL;
    assert_eq!(system_clock_get(ROOT, tree(dll, 0, 0, 0)), 57_600_000);
    assert_eq!(system_clock_get(ROOT, tree(dll, 1, 0, 0)), 96_000_000);
    assert_eq!(system_clock_get(ROOT, tree(dll, 2, 0, 0)), 144_000_000);
    assert_eq!(system_clock_get(ROOT, tree(dll, 3, 0, 0)), 0);
    assert_eq!(system_clock_get(BCLK, tree(dll, 3, 9, 9)), 0);
    // each divider rounds down
    assert_eq!(system_clock_get(FCLK, tree(dll, 0, 6, 0)), 8_228_571);
    assert_eq!(system_clock_get(BCLK, tree(dll, 0, 6, 2)), 2_742_857);
    assert_eq!(system_clock_get(FCLK, tree(dll, 2, 255, 255)), 562_500);
    assert_eq!(system_clock_get(BCLK, tree(dll, 2, 255, 255)), 2_197);
    assert_eq!(mtimer_get_clk_src_div(tree(dll, 1, 0, 0)), 95);
    assert_eq!(mtimer_get_clk_src_div(tree(dll, 0, 0, 0)), 56);
    assert_eq!(mtimer_get_clk_src_div(tree(dll, 0, 6, 2)), 1);
    assert_eq!(mtimer_get_clk_src_div(tree(dll, 2, 143, 0)), 0);
}

#[test]
fn rom_requests() {
    assert_eq!(GLB_Get_Root_CLK_Sel(), rom(20, 0, 0));
    assert_eq!(GLB_Get_HCLK_Div(), rom(23, 0, 0));
    // each divider has a slot of its own
    assert_eq!(GLB_Get_BCLK_Div(), rom(22, 0, 0));
    assert_ne!(GLB_Get_BCLK_Div(), GLB_Get_HCLK_Div());
    assert_eq!(
        GLB_Set_System_CLK(
            GLB_DLL_XTAL_Type::GLB_DLL_XTAL_RC32M,
            GLB_SYS_CLK_Type::GLB_SYS_CLK_DLL57P6M
        ),
        rom(25, 2, 2)
    );
    assert_eq!(
        GLB_Set_System_CLK(GLB_DLL_XTAL_Type::GLB_DLL_XTAL_NONE, GLB_SYS_CLK_Type::GLB_SYS_CLK_RC32M),
        rom(25, 0, 0)
    );
    assert_eq!(GLB_Set_System_CLK_Div(3, 255), rom(21, 3, 255));
    assert_eq!(
        rom_call(ROM_API_INDEX_e::ROM_API_INDEX_BL702_Delay_MS, 7, 9),
        rom(11, 7, 9)
    );
    let pll = pds_power_on_pll_rom(PDS_PLL_XTAL_Type::PDS_PLL_XTAL_32M);
    assert!(matches!(pll, Action::RomCall { arg0: 1, arg1: 0, .. }));
    assert_eq!(GLB_ROOT_CLK_Type::from_raw(0), Some(GLB_ROOT_CLK_Type::GLB_ROOT_CLK_RC32M));
    assert_eq!(GLB_ROOT_CLK_Type::from_raw(1), Some(GLB_ROOT_CLK_Type::GLB_ROOT_CLK_XTAL));
    assert_eq!(GLB_ROOT_CLK_Type::from_raw(2), Some(GLB_ROOT_CLK_Type::GLB_ROOT_CLK_DLL));
    assert_eq!(GLB_ROOT_CLK_Type::from_raw(3), None);
    assert_eq!(BL_Err_Type::from_raw(0), Some(BL_Err_Type::SUCCESS));
    assert_eq!(BL_Err_Type::from_raw(1), Some(BL_Err_Type::ERROR));
    assert_eq!(BL_Err_Type::from_raw(2), Some(BL_Err_Type::TIMEOUT));
    assert_eq!(BL_Err_Type::from_raw(3), Some(BL_Err_Type::INVALID));
    assert_eq!(BL_Err_Type::from_raw(4), Some(BL_Err_Type::NORESC));
    assert_eq!(BL_Err_Type::from_raw(5), None);
}

#[test]
fn rom_table_slots() {
    assert_eq!(ROM_API_INDEX_e::ROM_API_INDEX_REV.index(), 0);
    assert_eq!(ROM_API_INDEX_e::ROM_API_INDEX_AON_Power_On_MBG.index(), 4);
    assert_eq!(ROM_API_INDEX_e::ROM_API_INDEX_GLB_Get_Root_CLK_Sel.index(), 20);
    assert_eq!(ROM_API_INDEX_e::ROM_API_INDEX_GLB_Set_System_CLK.index(), 25);
    assert_eq!(ROM_API_INDEX_e::ROM_API_INDEX_FUNC_LAST_ENTRY.index(), 511);
    assert_eq!(ROMAPI_INDEX_MAX, 511);
    assert_eq!(
        ROM_API_INDEX_e::ROM_API_INDEX_FUNC_INVALID_START.index(),
        ROM_API_INDEX_FUNC_LAST + 1
    );
    assert_eq!(rom_fn_slot(ROM_API_INDEX_e::ROM_API_INDEX_REV), 0x2101_8800);
    assert_eq!(rom_fn_slot(ROM_API_INDEX_e::ROM_API_INDEX_AON_Power_On_MBG), 0x2101_8810);
    assert_eq!(rom_fn_slot(ROM_API_INDEX_e::ROM_API_INDEX_GLB_Set_System_CLK), 0x2101_8864);
    assert_eq!(rom_fn_slot(ROM_API_INDEX_e::ROM_API_INDEX_FUNC_LAST_ENTRY), 0x2101_8ffc);
    assert!(!ROM_API_INDEX_e::ROM_API_INDEX_REV.is_routine());
    assert!(ROM_API_INDEX_e::ROM_API_INDEX_AON_Power_On_MBG.is_routine());
    assert!(ROM_API_INDEX_e::ROM_API_INDEX_GLB_Set_System_CLK.is_routine());
    assert!(!ROM_API_INDEX_e::ROM_API_INDEX_FUNC_INVALID_START.is_routine());
    assert!(!ROM_API_INDEX_e::ROM_API_INDEX_FUNC_LAST_ENTRY.is_routine());
}

#[test]
fn uart_clock_selection() {
    let mut program = Program::new();
    assert_eq!(
        GLB_Set_UART_CLK(1, HBN_UART_CLK_Type::HBN_UART_CLK_96M, 0, &mut program),
        BL_Err_Type::SUCCESS
    );
    assert_eq!(
        program.take(),
        vec![modify(HBN_GLB, 0x0000_0004, 0x0000_0004), modify(CLK_CFG2, 0x0000_0017, 0x0000_0010)]
    );
    // the same as freezing the clocks does
    let mut parts = split(());
    let mut frozen = Program::new();
    ClockConfig::new().freeze(&mut parts.clk_cfg, &mut frozen);
    GLB_Set_UART_CLK(1, HBN_UART_CLK_Type::HBN_UART_CLK_96M, 0, &mut program);
    assert_eq!(program.take(), frozen.into_actions());
    // core clock as source, divided by six, switched off
    GLB_Set_UART_CLK(0, HBN_UART_CLK_Type::HBN_UART_CLK_FCLK, 5, &mut program);
    assert_eq!(
        program.take(),
        vec![modify(HBN_GLB, 0x0000_0004, 0), modify(CLK_CFG2, 0x0000_0017, 0x0000_0005)]
    );
    // the divider has three bits
    GLB_Set_UART_CLK(7, HBN_UART_CLK_Type::HBN_UART_CLK_FCLK, 0xff, &mut program);
    assert_eq!(program.take()[1], modify(CLK_CFG2, 0x0000_0017, 0x0000_0017));
}

#[test]
fn machine_timer_clock_selection() {
    let mut program = Program::new();
    assert_eq!(
        GLB_Set_MTimer_CLK(1, GLB_MTIMER_CLK_Type::GLB_MTIMER_CLK_BCLK, 71, &mut program),
        BL_Err_Type::SUCCESS
    );
    assert_eq!(program.readback(CPU_CLK_CFG, 0), 0x0004_0047);
    assert_eq!(program.readback(CPU_CLK_CFG, 0xffff_ffff), 0xfff6_0047);
    assert_eq!(program.take().len(), 3);
    // 32 kHz as source, largest divider, left off
    GLB_Set_MTimer_CLK(0, GLB_MTIMER_CLK_Type::GLB_MTIMER_CLK_32K, 255, &mut program);
    assert_eq!(
        program.take(),
        vec![
            modify(CPU_CLK_CFG, 0x0004_0000, 0),
            modify(CPU_CLK_CFG, 0x0009_ffff, 0x0008_00ff),
            modify(CPU_CLK_CFG, 0x0004_0000, 0),
        ]
    );
}

#[test]
fn low_frequency_clock_selections() {
    let mut program = Program::new();
    assert_eq!(HBN_Power_On_Xtal_32K(&mut program), BL_Err_Type::SUCCESS);
    assert_eq!(program.take(), vec![modify(HBN_XTAL32K, 0x000c_0000, 0x000c_0000)]);
    for (source, code) in [
        (HBN_32K_CLK_Type::HBN_32K_RC, 0u32),
        (HBN_32K_CLK_Type::HBN_32K_XTAL, 1),
        (HBN_32K_CLK_Type::HBN_32K_DIG, 3),
    ] {
        assert_eq!(HBN_32K_Sel(source, &mut program), BL_Err_Type::SUCCESS);
        assert_eq!(program.take(), vec![modify(HBN_GLB, 0x0000_0018, code << 3)]);
    }
    assert_eq!(
        HBN_Set_XCLK_CLK_Sel(HBN_XCLK_CLK_Type::HBN_XCLK_CLK_XTAL, &mut program),
        BL_Err_Type::SUCCESS
    );
    assert_eq!(
        HBN_Set_XCLK_CLK_Sel(HBN_XCLK_CLK_Type::HBN_XCLK_CLK_RC32M, &mut program),
        BL_Err_Type::SUCCESS
    );
    assert_eq!(
        program.take(),
        vec![modify(HBN_GLB, 0x0000_0001, 0x0000_0001), modify(HBN_GLB, 0x0000_0001, 0)]
    );
}

#[test]
fn pll_power_on_status() {
    assert_eq!(pll_power_on(0), PllPowerOn::Success);
    assert_eq!(pll_power_on(1), PllPowerOn::Failure);
    assert_eq!(pll_power_on(2), PllPowerOn::Timeout);
    assert_eq!(pll_power_on(3), PllPowerOn::Unknown);
    assert_eq!(pll_power_on(u32::MAX), PllPowerOn::Unknown);
    assert_eq!(pds_power_on_pll_rom(PDS_PLL_XTAL_Type::PDS_PLL_XTAL_NONE), rom(59, 0, 0));
    assert_eq!(pds_power_on_pll_rom(PDS_PLL_XTAL_Type::PDS_PLL_XTAL_32M), rom(59, 1, 0));
    assert_eq!(pds_power_on_pll_rom(PDS_PLL_XTAL_Type::PDS_PLL_XTAL_RC32M), rom(59, 2, 0));
}

#[test]
fn rom_slots_and_signatures_by_ordinal() {
    assert_eq!(rom_slot(0), Some(0x2101_8800));
    assert_eq!(rom_slot(22), Some(0x2101_8858));
    assert_eq!(rom_slot(511), Some(0x2101_8ffc));
    assert_eq!(rom_slot(512), None);
    assert_eq!(rom_slot(u32::MAX), None);
    assert_eq!(
        rom_slot(22),
        Some(rom_fn_slot(ROM_API_INDEX_e::ROM_API_INDEX_GLB_Get_BCLK_Div))
    );
    assert_eq!(rom_signature(20), Some(RomSignature::ToWord));
    assert_eq!(rom_signature(21), Some(RomSignature::BytesToWord));
    assert_eq!(rom_signature(22), Some(RomSignature::ToByte));
    assert_eq!(rom_signature(23), Some(RomSignature::ToByte));
    assert_eq!(rom_signature(25), Some(RomSignature::WordsToWord));
    assert_eq!(rom_signature(59), Some(RomSignature::SizeToSize));
    for index in [0u32, 4, 10, 19, 24, 26, 58, 60, 173, 174, 511, 512] {
        assert_eq!(rom_signature(index), None);
    }
}
