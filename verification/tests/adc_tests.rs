use bl702_hal::adc::config::AdcConfig;
use bl702_hal::adc::config::Clock;
use bl702_hal::adc::config::ClockSource;
use bl702_hal::adc::config::Continuous;
use bl702_hal::adc::config::Reference;
use bl702_hal::adc::config::Resolution;
use bl702_hal::adc::Adc;
use bl702_hal::adc::Channel;
use bl702_hal::adc::Stage;
use bl702_hal::adc::Temperature;
use bl702_hal::adc::Vbat;
use bl702_hal::adc::Vref;
use bl702_hal::adc::Vssa;
use bl702_hal::gpio::split;
use bl702_hal::hw::Action;
use bl702_hal::hw::Program;

const CMD: u32 = 0x4000_f90c;
const CONFIG1: u32 = 0x4000_f910;
const CONFIG2: u32 = 0x4000_f914;
const GPADC_CONFIG: u32 = 0x4000_2000;
const CGEN_CFG1: u32 = 0x4000_0024;
const SRC_CTRL: u32 = 0x4000_00a4;

fn modify(addr: u32, mask: u32, value: u32) -> Action {
    Action::Modify { addr, mask, value }
}

fn adc_with(config: AdcConfig) -> Adc<()> {
    let mut program = Program::new();
    Adc::adc((), config, &mut program)
}

fn all_resolutions() -> Vec<(Resolution, u32)> {
    vec![
        (Resolution::Twelve2M, 4096),
        (Resolution::Fourteen125k, 16384),
        (Resolution::Fourteen31k25, 16384),
        (Resolution::Sixteen15k565, 65536),
        (Resolution::Sixteen7k8125, 65536),
    ]
}

#[test]
fn millivolts_half_scale_sixteen_bit() {
    let adc = adc_with(
        AdcConfig::default()
            .resolution(Resolution::Sixteen15k565)
            .reference(Reference::V3V2),
    );
    assert_eq!(adc.sample_to_millivolts(32768), 1600);
}

#[test]
fn millivolts_zero_and_below_full_scale() {
    for (resolution, max_sample) in all_resolutions() {
        for (reference, vref) in [(Reference::V3V2, 3200u16), (Reference::V2V0, 2000u16)] {
            let adc = adc_with(AdcConfig::default().resolution(resolution).reference(reference));
            assert_eq!(adc.reference_voltage(), vref as u32);
            assert_eq!(adc.sample_to_millivolts(0), 0);
            let top = adc.sample_to_millivolts((max_sample - 1) as u16);
            assert!(top < vref);
            assert_eq!(top, vref - 1);
        }
    }
}

#[test]
fn millivolts_exact_values() {
    let adc = adc_with(AdcConfig::default());
    // 12 bit, 3200 mV: 1000 * 3200 / 4096 = 781.25
    assert_eq!(adc.sample_to_millivolts(1000), 781);
    assert_eq!(adc.sample_to_millivolts(4095), 3199);
    let adc = adc_with(
        AdcConfig::default()
            .resolution(Resolution::Fourteen125k)
            .reference(Reference::V2V0),
    );
    // 14 bit, 2000 mV: 8192 * 2000 / 16384 = 1000
    assert_eq!(adc.sample_to_millivolts(8192), 1000);
    assert_eq!(adc.sample_to_millivolts(1), 0);
    assert_eq!(adc.sample_to_millivolts(9), 1);
}

#[test]
fn converter_agrees_with_driver() {
    let adc = adc_with(AdcConfig::default().resolution(Resolution::Sixteen7k8125));
    let convert = adc.make_sample_to_millivolts();
    for sample in [0u16, 1, 20, 32768, 40000, 65535] {
        assert_eq!(convert.convert(sample), adc.sample_to_millivolts(sample));
    }
    assert_eq!(convert.convert(65535), 3199);
}

#[test]
fn config_codes() {
    assert_eq!(u8::from(Clock::Div1), 0);
    assert_eq!(u8::from(Clock::Div4), 1);
    assert_eq!(u8::from(Clock::Div8), 2);
    assert_eq!(u8::from(Clock::Div12), 3);
    assert_eq!(u8::from(Clock::Div16), 4);
    assert_eq!(u8::from(Clock::Div20), 5);
    assert_eq!(u8::from(Clock::Div24), 6);
    assert_eq!(u8::from(Clock::Div32), 7);
    assert_eq!(bool::from(ClockSource::AudioPLL), false);
    assert_eq!(bool::from(ClockSource::XClk), true);
    assert_eq!(bool::from(Reference::V3V2), false);
    assert_eq!(bool::from(Reference::V2V0), true);
    assert_eq!(u32::from(Reference::V3V2), 3200);
    assert_eq!(u32::from(Reference::V2V0), 2000);
    assert_eq!(u8::from(Resolution::Twelve2M), 0);
    assert_eq!(u8::from(Resolution::Fourteen125k), 1);
    assert_eq!(u8::from(Resolution::Fourteen31k25), 2);
    assert_eq!(u8::from(Resolution::Sixteen15k565), 3);
    assert_eq!(u8::from(Resolution::Sixteen7k8125), 4);
    assert_eq!(bool::from(Continuous::Single), false);
    assert_eq!(bool::from(Continuous::Continuous), true);
}

#[test]
fn config_builders_change_one_field() {
    let base = AdcConfig::default();
    assert_eq!(
        base,
        AdcConfig::default()
            .clock(Clock::Div16)
            .clock_source(ClockSource::XClk)
            .resolution(Resolution::Twelve2M)
            .continuous(Continuous::Single)
            .reference(Reference::V3V2)
    );
    assert_ne!(base, base.clock(Clock::Div32));
    assert_ne!(base, base.clock_source(ClockSource::AudioPLL));
    assert_ne!(base, base.resolution(Resolution::Sixteen15k565));
    assert_ne!(base, base.continuous(Continuous::Continuous));
    assert_ne!(base, base.reference(Reference::V2V0));
    assert_eq!(base.clock(Clock::Div32).clock(Clock::Div16), base);
}

fn default_config_actions() -> Vec<Action> {
    vec![
        // clock divider: Div16 is code 4, in bits 18..20
        modify(CONFIG1, 0x001c_0000, 0x0010_0000),
        // clock source: gate the analog block off, crystal clock with divider enabled, gate on
        modify(CGEN_CFG1, 0x0000_0004, 0),
        modify(SRC_CTRL, 0x0000_01bf, 0x0000_0180),
        modify(CGEN_CFG1, 0x0000_0004, 0x0000_0004),
        // resolution: code 0 in bits 2..4
        modify(CONFIG1, 0x0000_001c, 0),
        // continuous mode off
        modify(CONFIG1, 0x0000_0002, 0),
        // reference 3.2 V
        modify(CONFIG2, 0x0000_0008, 0),
    ]
}

#[test]
fn construction_disables_configures_enables() {
    let mut program = Program::new();
    let adc = Adc::adc(7u8, AdcConfig::default(), &mut program);
    let mut expected = vec![modify(CMD, 1, 0)];
    expected.extend(default_config_actions());
    expected.push(modify(CMD, 1, 1));
    assert_eq!(program.into_actions(), expected);
    assert_eq!(adc.release(), 7u8);
}

#[test]
fn construction_with_other_settings() {
    let mut program = Program::new();
    let config = AdcConfig::default()
        .clock(Clock::Div32)
        .clock_source(ClockSource::AudioPLL)
        .resolution(Resolution::Sixteen7k8125)
        .continuous(Continuous::Continuous)
        .reference(Reference::V2V0);
    let _adc = Adc::adc((), config, &mut program);
    assert_eq!(
        program.into_actions(),
        vec![
            modify(CMD, 1, 0),
            modify(CONFIG1, 0x001c_0000, 0x001c_0000),
            modify(CGEN_CFG1, 0x0000_0004, 0),
            modify(SRC_CTRL, 0x0000_01bf, 0x0000_0100),
            modify(CGEN_CFG1, 0x0000_0004, 0x0000_0004),
            modify(CONFIG1, 0x0000_001c, 0x0000_0010),
            modify(CONFIG1, 0x0000_0002, 0x0000_0002),
            modify(CONFIG2, 0x0000_0008, 0x0000_0008),
            modify(CMD, 1, 1),
        ]
    );
}

#[test]
fn channel_numbers() {
    assert_eq!(Temperature.channel(), 14);
    assert_eq!(Vref.channel(), 16);
    assert_eq!(Vbat.channel(), 18);
    assert_eq!(Vssa.channel(), 23);
    let mut program = Program::new();
    let parts = split(());
    let expected = [
        (8u8, 0u8),
        (15, 1),
        (17, 2),
        (11, 3),
        (12, 4),
        (14, 5),
        (7, 6),
        (9, 7),
        (18, 8),
        (19, 9),
        (20, 10),
        (21, 11),
    ];
    let pins = vec![
        parts.pin8.into_analog(&mut program).unwrap(),
        parts.pin15.into_analog(&mut program).unwrap(),
        parts.pin17.into_analog(&mut program).unwrap(),
        parts.pin11.into_analog(&mut program).unwrap(),
        parts.pin12.into_analog(&mut program).unwrap(),
        parts.pin14.into_analog(&mut program).unwrap(),
        parts.pin7.into_analog(&mut program).unwrap(),
        parts.pin9.into_analog(&mut program).unwrap(),
        parts.pin18.into_analog(&mut program).unwrap(),
        parts.pin19.into_analog(&mut program).unwrap(),
        parts.pin20.into_analog(&mut program).unwrap(),
        parts.pin21.into_analog(&mut program).unwrap(),
    ];
    for (pin, (number, channel)) in pins.iter().zip(expected.iter()) {
        assert_eq!(pin.number(), *number);
        assert_eq!(Channel::channel(pin), *channel);
    }
}

#[test]
fn conversion_runs_through_its_stages() {
    let mut adc = adc_with(AdcConfig::default());
    let mut program = Program::new();
    let parts = split(());
    let ain = parts.pin9.into_analog(&mut Program::new()).unwrap();

    // continuous mode is off: begin selects channel 7 and asks for the start
    adc.convert(&ain, 0, &mut program);
    assert_eq!(
        program.take(),
        vec![
            // positive input 7, negative input 23, negative to ground
            modify(CMD, 0x0000_3ff8, 0x0000_27b8),
            modify(CMD, 1, 1),
            modify(GPADC_CONFIG, 0x0000_0002, 0x0000_0002),
            modify(GPADC_CONFIG, 0x0000_0100, 0x0000_0100),
            // start: enable, withdraw start, clear ready, ask for start
            modify(CMD, 1, 1),
            modify(CMD, 2, 0),
            modify(GPADC_CONFIG, 0x0000_0100, 0x0000_0100),
            modify(CMD, 2, 2),
        ]
    );

    // not acknowledged while the start bit reads clear
    assert!(!adc.start_acknowledged(0x0000_0001));
    assert!(adc.start_acknowledged(0x0000_0003));
    // acknowledged once only
    assert!(!adc.start_acknowledged(0x0000_0003));

    // waiting: nothing in the FIFO yet
    assert!(adc.awaits_check());
    assert!(!adc.wait_for_conversion_sequence(0x0000_0003, 0, &mut program));
    assert!(!adc.awaits_check());
    assert_eq!(program.len(), 0);
    // a result is there: the start is withdrawn
    assert!(adc.wait_for_conversion_sequence(0, 0x0000_0004, &mut program));
    assert_eq!(program.take(), vec![modify(CMD, 2, 0)]);

    // 12 bit: the FIFO word is moved right by four
    let sample = adc.complete(0x0001_abcd, &mut program);
    assert_eq!(sample, 0x0abc);
    assert_eq!(program.into_actions(), default_config_actions());
}

#[test]
fn conversion_leaves_continuous_mode_first() {
    let mut adc = adc_with(AdcConfig::default().continuous(Continuous::Continuous));
    let mut program = Program::new();
    adc.convert(&Vbat, 0x0000_0002, &mut program);
    let actions = program.into_actions();
    assert_eq!(actions.len(), 10);
    assert_eq!(actions[0], modify(CMD, 1, 0));
    assert_eq!(actions[1], modify(CONFIG1, 2, 0));
    // positive input 18
    assert_eq!(actions[2], modify(CMD, 0x0000_3ff8, 0x0000_32b8));
}

#[test]
fn one_shot_read_switches_on_and_off_again() {
    let mut adc = adc_with(AdcConfig::default().resolution(Resolution::Fourteen125k));
    let mut program = Program::new();
    // the converter reads as switched off
    adc.read(&Temperature, 0, 0, &mut program);
    let actions = program.take();
    assert_eq!(actions.len(), 9);
    assert_eq!(actions[0], modify(CMD, 1, 1));
    assert_eq!(actions[1], modify(CMD, 0x0000_3ff8, 0x0000_2eb8));
    assert!(adc.start_acknowledged(2));
    assert!(adc.wait_for_conversion_sequence(2, 4, &mut program));
    program.take();
    // 14 bit: moved right by two
    assert_eq!(adc.complete(0xffff_ffff, &mut program), 0x3fff);
    let actions = program.take();
    assert_eq!(actions.len(), 8);
    assert_eq!(actions[7], modify(CMD, 1, 0));

    // the converter reads as switched on: it stays on
    adc.read(&Temperature, 1, 0, &mut program);
    assert_eq!(program.take().len(), 8);
    assert!(adc.start_acknowledged(2));
    assert!(adc.wait_for_conversion_sequence(2, 4, &mut program));
    program.take();
    adc.complete(0, &mut program);
    assert_eq!(program.take().len(), 7);
}

#[test]
fn samples_are_normalised_to_the_resolution() {
    for (resolution, shift) in [
        (Resolution::Twelve2M, 4u32),
        (Resolution::Fourteen125k, 2),
        (Resolution::Fourteen31k25, 2),
        (Resolution::Sixteen15k565, 0),
        (Resolution::Sixteen7k8125, 0),
    ] {
        let adc = adc_with(AdcConfig::default().resolution(resolution));
        assert_eq!(adc.current_sample(0x03ff_ffff), 0xffff >> shift);
        assert_eq!(adc.current_sample(0x0000_8000), 0x8000 >> shift);
        assert_eq!(adc.current_sample(0), 0);
    }
}

#[test]
fn try_read_follows_the_fifo_flag() {
    let adc = adc_with(AdcConfig::default());
    assert!(adc.try_read(0).is_none());
    assert!(adc.try_read(0xffff_fffb).is_none());
    let fetch = adc.try_read(0x0000_0004).unwrap();
    assert_eq!(fetch.addr(), 0x4000_2004);
    assert!(adc.is_enabled(1));
    assert!(!adc.is_enabled(0xffff_fffe));
}

#[test]
fn pending_conversion_is_a_start_or_a_result() {
    let adc = adc_with(AdcConfig::default());
    assert!(!adc.has_pending_conversion(0, 0));
    assert!(!adc.has_pending_conversion(0xffff_fffd, 0xffff_fffb));
    assert!(adc.has_pending_conversion(2, 0));
    assert!(adc.has_pending_conversion(0, 4));
    assert!(adc.has_pending_conversion(2, 4));
}

#[test]
fn calibration_does_nothing() {
    let mut adc = adc_with(AdcConfig::default().reference(Reference::V2V0));
    adc.calibrate();
    assert_eq!(adc.reference_voltage(), 2000);
    assert_eq!(adc.sample_to_millivolts(2048), 1000);
}

#[test]
fn adc_construction_reads_back_from_the_registers() {
    let mut program = Program::new();
    let config = AdcConfig::default()
        .clock(Clock::Div24)
        .resolution(Resolution::Fourteen31k25)
        .reference(Reference::V2V0);
    let _adc = Adc::adc((), config, &mut program);
    // the converter ends up switched on, whatever it was
    assert_eq!(program.readback(CMD, 0), 1);
    assert_eq!(program.readback(CMD, 0xffff_ffff), 0xffff_ffff);
    // divider 6 in bits 18..20, resolution 2 in bits 2..4, continuous mode off
    assert_eq!(program.readback(CONFIG1, 0), 0x0018_0008);
    assert_eq!(program.readback(CONFIG1, 0xffff_ffff), 0xfffb_ffe9);
    assert_eq!(program.readback(CONFIG2, 0), 0x0000_0008);
    // the clock of the analog block is on again at the end
    assert_eq!(program.readback(CGEN_CFG1, 0), 0x0000_0004);
    assert_eq!(program.readback(SRC_CTRL, 0xffff_ffff), 0xffff_ffc0);
}

#[test]
fn driver_tells_its_configuration_and_stage() {
    let config = AdcConfig::default().resolution(Resolution::Fourteen125k);
    let mut adc = adc_with(config);
    assert_eq!(adc.current_config(), config);
    assert_eq!(adc.sample_limit(), 16384);
    assert_eq!(adc.current_stage(), Stage::Idle);
    let mut program = Program::new();
    adc.set_resolution(Resolution::Sixteen7k8125, &mut program);
    assert_eq!(adc.sample_limit(), 65536);
    assert_eq!(adc.current_config(), config.resolution(Resolution::Sixteen7k8125));
    adc.set_resolution(Resolution::Twelve2M, &mut program);
    assert_eq!(adc.sample_limit(), 4096);
    adc.convert(&Vref, 0, &mut program);
    assert_eq!(adc.current_stage(), Stage::Configuring);
    assert!(adc.start_acknowledged(2));
    assert_eq!(adc.current_stage(), Stage::Converting);
    assert!(adc.wait_for_conversion_sequence(2, 4, &mut program));
    assert_eq!(adc.current_stage(), Stage::Ready);
    adc.complete(0, &mut program);
    assert_eq!(adc.current_stage(), Stage::Idle);
}
