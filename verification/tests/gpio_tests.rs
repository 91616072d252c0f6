use bl702_hal::gpio::adc_channel;
use bl702_hal::gpio::can_play;
use bl702_hal::gpio::pad_setup;
use bl702_hal::gpio::PinConfig;
use bl702_hal::gpio::Role;
use bl702_hal::gpio::split;
use bl702_hal::hw::Action;
use bl702_hal::hw::Program;

const GPIO_CFGCTL0: u32 = 0x4000_0100;
const GPIO_CFGCTL32: u32 = 0x4000_0188;
const GPIO_CFGCTL34: u32 = 0x4000_0190;
const UART_SIG_SEL_0: u32 = 0x4000_00c0;

fn modify(addr: u32, mask: u32, value: u32) -> Action {
    Action::Modify { addr, mask, value }
}

#[test]
fn split_numbers_the_pins() {
    let parts = split(());
    assert_eq!(parts.pin0.number(), 0);
    assert_eq!(parts.pin1.number(), 1);
    assert_eq!(parts.pin9.number(), 9);
    assert_eq!(parts.pin16.number(), 16);
    assert_eq!(parts.pin24.number(), 24);
    assert_eq!(parts.pin31.number(), 31);
}

#[test]
fn uart_signal_on_even_and_odd_pin() {
    let parts = split(());
    let mut program = Program::new();
    let tx = parts.pin14.into_uart_sig6(&mut program).unwrap();
    let rx = parts.pin15.into_uart_sig7(&mut program).unwrap();
    assert_eq!(tx.number(), 14);
    assert_eq!(rx.number(), 15);
    assert_eq!(
        program.into_actions(),
        vec![
            // pins 14 and 15 share the eighth configuration register
            modify(GPIO_CFGCTL0 + 28, 0x0000_1f3f, 0x0000_0711),
            modify(GPIO_CFGCTL34, 0x0000_4000, 0),
            modify(GPIO_CFGCTL0 + 28, 0x1f3f_0000, 0x0711_0000),
            modify(GPIO_CFGCTL34, 0x0000_8000, 0),
        ]
    );
}

#[test]
fn uart_signal_follows_the_pin_number() {
    let parts = split(());
    let mut program = Program::new();
    // pin 14 carries signal 6 and no other
    let pin = parts.pin14.into_uart_sig0(&mut program).unwrap_err();
    let pin = pin.into_uart_sig1(&mut program).unwrap_err();
    let pin = pin.into_uart_sig2(&mut program).unwrap_err();
    let pin = pin.into_uart_sig3(&mut program).unwrap_err();
    let pin = pin.into_uart_sig4(&mut program).unwrap_err();
    let pin = pin.into_uart_sig5(&mut program).unwrap_err();
    let pin = pin.into_uart_sig7(&mut program).unwrap_err();
    let pin = pin.into_uart_sig::<14>(&mut program).unwrap_err();
    // a refused transition writes nothing and hands the pin back
    assert_eq!(program.len(), 0);
    assert_eq!(pin.number(), 14);
    assert!(pin.into_uart_sig6(&mut program).is_ok());
    assert_eq!(program.len(), 2);
    assert!(parts.pin0.into_uart_sig0(&mut program).is_ok());
    assert!(parts.pin8.into_uart_sig0(&mut program).is_ok());
    assert!(parts.pin17.into_uart_sig1(&mut program).is_ok());
    assert!(parts.pin26.into_uart_sig2(&mut program).is_ok());
    assert!(parts.pin3.into_uart_sig3(&mut program).is_ok());
    assert!(parts.pin28.into_uart_sig4(&mut program).is_ok());
    assert!(parts.pin21.into_uart_sig5(&mut program).is_ok());
    assert!(parts.pin31.into_uart_sig7(&mut program).is_ok());
}

#[test]
fn spi_signal_follows_the_pin_number() {
    let parts = split(());
    let mut program = Program::new();
    let sclk = parts.pin23.into_spi_sclk(&mut program).unwrap();
    assert_eq!(sclk.number(), 23);
    assert_eq!(
        program.take(),
        vec![
            modify(GPIO_CFGCTL0 + 44, 0x1f3f_0000, 0x0411_0000),
            modify(GPIO_CFGCTL34, 0x0080_0000, 0),
        ]
    );
    // pin 24 is data out, and nothing else of the SPI
    let pin = parts.pin24.into_spi_miso(&mut program).unwrap_err();
    let pin = pin.into_spi_ss(&mut program).unwrap_err();
    let pin = pin.into_spi_sclk(&mut program).unwrap_err();
    assert_eq!(program.len(), 0);
    let mosi = pin.into_spi_mosi(&mut program).unwrap();
    assert_eq!(mosi.number(), 24);
    assert!(parts.pin29.into_spi_miso(&mut program).is_ok());
    assert!(parts.pin2.into_spi_ss(&mut program).is_ok());
    assert!(parts.pin1.into_spi_mosi(&mut program).is_err());
    assert!(parts.pin6.into_spi_sclk(&mut program).is_err());
}

#[test]
fn analog_needs_a_converter_channel() {
    let parts = split(());
    let mut program = Program::new();
    let ain = parts.pin9.into_analog(&mut program).unwrap();
    assert_eq!(ain.channel(), 7);
    assert_eq!(
        program.take(),
        vec![
            // function 10, no pulls, input buffer off, output driver off
            modify(GPIO_CFGCTL0 + 16, 0x1f3f_0000, 0x0a00_0000),
            modify(GPIO_CFGCTL34, 0x0000_0200, 0),
        ]
    );
    let pin = parts.pin24.into_analog(&mut program).unwrap_err();
    assert_eq!(pin.number(), 24);
    assert!(parts.pin0.into_analog(&mut program).is_err());
    assert!(parts.pin10.into_analog(&mut program).is_err());
    assert!(parts.pin22.into_analog(&mut program).is_err());
    assert_eq!(program.len(), 0);
}

#[test]
fn adc_channel_table() {
    let wired = [
        (8u8, 0u8),
        (15, 1),
        (17, 2),
        (11, 3),
        (12, 4),
        (14, 5),
        (7, 6),
        (9, 7),
        (18, 8),
        (19, 9),
        (20, 10),
        (21, 11),
    ];
    for number in 0..=255u8 {
        let expected = wired.iter().find(|(n, _)| *n == number).map(|(_, c)| *c);
        assert_eq!(adc_channel(number), expected);
    }
}

#[test]
fn plain_inputs_and_outputs() {
    let parts = split(());
    let mut program = Program::new();
    let led = parts.pin24.into_pull_up_output(&mut program);
    assert_eq!(
        program.take(),
        vec![
            modify(GPIO_CFGCTL0 + 48, 0x0000_1f3f, 0x0000_0b10),
            modify(GPIO_CFGCTL34, 0x0100_0000, 0x0100_0000),
        ]
    );
    let pin = led.into_pull_down_output(&mut program);
    assert_eq!(program.take()[0], modify(GPIO_CFGCTL0 + 48, 0x0000_1f3f, 0x0000_0b20));
    let pin = pin.into_floating_output(&mut program);
    assert_eq!(program.take()[0], modify(GPIO_CFGCTL0 + 48, 0x0000_1f3f, 0x0000_0b00));
    let pin = pin.into_floating_input(&mut program);
    assert_eq!(
        program.take(),
        vec![
            modify(GPIO_CFGCTL0 + 48, 0x0000_1f3f, 0x0000_0b01),
            modify(GPIO_CFGCTL34, 0x0100_0000, 0),
        ]
    );
    let pin = pin.into_pull_up_input(&mut program);
    assert_eq!(program.take()[0], modify(GPIO_CFGCTL0 + 48, 0x0000_1f3f, 0x0000_0b11));
    let pin = pin.into_pull_down_input(&mut program);
    assert_eq!(program.take()[0], modify(GPIO_CFGCTL0 + 48, 0x0000_1f3f, 0x0000_0b21));
    assert_eq!(pin.number(), 24);
    let last = parts.pin31.into_floating_output(&mut program);
    assert_eq!(
        program.take(),
        vec![
            modify(GPIO_CFGCTL0 + 60, 0x1f3f_0000, 0x0b00_0000),
            modify(GPIO_CFGCTL34, 0x8000_0000, 0x8000_0000),
        ]
    );
    assert_eq!(last.number(), 31);
}

#[test]
fn output_levels() {
    let parts = split(());
    let mut program = Program::new();
    let mut led = parts.pin17.into_pull_up_output(&mut program);
    program.take();
    led.set_low(&mut program);
    led.set_high(&mut program);
    assert_eq!(
        program.into_actions(),
        vec![
            modify(GPIO_CFGCTL32, 0x0002_0000, 0),
            modify(GPIO_CFGCTL32, 0x0002_0000, 0x0002_0000),
        ]
    );
}

#[test]
fn input_levels() {
    let parts = split(());
    let mut program = Program::new();
    let button = parts.pin5.into_pull_up_input(&mut program);
    assert!(button.is_high(0x0000_0020));
    assert!(!button.is_low(0x0000_0020));
    assert!(button.is_low(0xffff_ffdf));
    assert!(!button.is_high(0xffff_ffdf));
    assert!(parts.pin31.is_high(0x8000_0000));
    assert!(parts.pin0.is_low(0x8000_0000));
}

#[test]
fn uart_multiplexers() {
    let parts = split(());
    let mut program = Program::new();
    let _tx = parts.uart_mux6.into_uart0_tx(&mut program);
    let _rx = parts.uart_mux7.into_uart0_rx(&mut program);
    let mux = parts.uart_mux0.into_uart0_rts(&mut program);
    let mux = mux.into_uart0_cts(&mut program);
    let mux = mux.into_uart1_rts(&mut program);
    let mux = mux.into_uart1_cts(&mut program);
    let mux = mux.into_uart1_tx(&mut program);
    let _mux = mux.into_uart1_rx(&mut program);
    let _other = parts.uart_mux3.into_uart1_rx(&mut program);
    assert_eq!(
        program.into_actions(),
        vec![
            modify(UART_SIG_SEL_0, 0x0f00_0000, 0x0200_0000),
            modify(UART_SIG_SEL_0, 0xf000_0000, 0x3000_0000),
            modify(UART_SIG_SEL_0, 0x0000_000f, 0),
            modify(UART_SIG_SEL_0, 0x0000_000f, 1),
            modify(UART_SIG_SEL_0, 0x0000_000f, 4),
            modify(UART_SIG_SEL_0, 0x0000_000f, 5),
            modify(UART_SIG_SEL_0, 0x0000_000f, 6),
            modify(UART_SIG_SEL_0, 0x0000_000f, 7),
            modify(UART_SIG_SEL_0, 0x0000_f000, 0x0000_7000),
        ]
    );
}

#[test]
fn transitions_leave_the_neighbour_alone() {
    // pins 8 and 9 share a register: whatever pin 8 held stays when pin 9 changes
    let parts = split(());
    let mut program = Program::new();
    let _ain = parts.pin9.into_analog(&mut program).unwrap();
    let before: u32 = 0xffff_0b11;
    let after = program.readback(GPIO_CFGCTL0 + 16, before);
    assert_eq!(after & 0x0000_ffff, 0x0000_0b11);
    assert_eq!((after >> 24) & 0x1f, 10);
    // the two reserved bits of the half are kept as well
    assert_eq!(after, 0xeac0_0b11);
    assert_eq!(program.readback(GPIO_CFGCTL34, 0xffff_ffff), 0xffff_fdff);
}

#[test]
fn roles_that_pins_can_play() {
    for number in 0..32u8 {
        assert!(can_play(number, Role::FloatingInput));
        assert!(can_play(number, Role::PullUpInput));
        assert!(can_play(number, Role::PullDownInput));
        assert!(can_play(number, Role::FloatingOutput));
        assert!(can_play(number, Role::PullUpOutput));
        assert!(can_play(number, Role::PullDownOutput));
        assert_eq!(can_play(number, Role::Analog), adc_channel(number).is_some());
        for signal in 0..8u8 {
            assert_eq!(can_play(number, Role::UartSignal(signal)), number % 8 == signal);
        }
        assert!(!can_play(number, Role::UartSignal(8 + number % 8)));
        // exactly one of the four SPI signals
        let spi = [Role::SpiMosi, Role::SpiMiso, Role::SpiSs, Role::SpiSclk];
        let playable: Vec<bool> = spi.iter().map(|role| can_play(number, *role)).collect();
        assert_eq!(playable.iter().filter(|p| **p).count(), 1);
        assert!(playable[(number % 4) as usize]);
    }
    assert!(can_play(9, Role::Analog));
    assert!(!can_play(10, Role::Analog));
}

#[test]
fn pad_setups() {
    assert_eq!(
        pad_setup(Role::Analog),
        PinConfig { func: 10, pull_up: false, pull_down: false, input: false, output: false }
    );
    assert_eq!(
        pad_setup(Role::PullDownOutput),
        PinConfig { func: 11, pull_up: false, pull_down: true, input: false, output: true }
    );
    assert_eq!(
        pad_setup(Role::PullUpInput),
        PinConfig { func: 11, pull_up: true, pull_down: false, input: true, output: false }
    );
    assert_eq!(
        pad_setup(Role::UartSignal(3)),
        PinConfig { func: 7, pull_up: true, pull_down: false, input: true, output: false }
    );
    for role in [Role::SpiMosi, Role::SpiMiso, Role::SpiSs, Role::SpiSclk] {
        assert_eq!(
            pad_setup(role),
            PinConfig { func: 4, pull_up: true, pull_down: false, input: true, output: false }
        );
    }
}
