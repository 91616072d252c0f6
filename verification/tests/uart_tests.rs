use bl702_hal::clock::Clocks;
use bl702_hal::gpio::split;
use bl702_hal::gpio::Parts;
use bl702_hal::gpio::Pin;
use bl702_hal::gpio::Uart;
use bl702_hal::gpio::Uart0Rx;
use bl702_hal::gpio::Uart0Tx;
use bl702_hal::gpio::UartMux;
use bl702_hal::hw::Action;
use bl702_hal::hw::Program;
use bl702_hal::loopback::Loopback;
use bl702_hal::rate::Baud;
use bl702_hal::rate::Hertz;
use bl702_hal::uart::effective_baud_rate;
use bl702_hal::uart::Config;
use bl702_hal::uart::Order;
use bl702_hal::uart::Parity;
use bl702_hal::uart::RxOnly;
use bl702_hal::uart::Serial;
use bl702_hal::uart::StopBits;
use bl702_hal::uart::TxOnly;
use bl702_hal::uart::UartError;
use bl702_hal::uart::WordLength;

const UTX_CONFIG: u32 = 0x4000_a000;
const URX_CONFIG: u32 = 0x4000_a004;
const UART_BIT_PRD: u32 = 0x4000_a008;
const DATA_CONFIG: u32 = 0x4000_a00c;
const UART_FIFO_WDATA: u32 = 0x4000_a088;
const UART_FIFO_RDATA: u32 = 0x4000_a08c;

fn modify(addr: u32, mask: u32, value: u32) -> Action {
    Action::Modify { addr, mask, value }
}

fn write(addr: u32, value: u32) -> Action {
    Action::Write { addr, value }
}

fn setup(config: Config) -> Vec<Action> {
    let mut scratch = Program::new();
    let parts: Parts = split(());
    let tx = parts.pin14.into_uart_sig6(&mut scratch).unwrap();
    let rx = parts.pin15.into_uart_sig7(&mut scratch).unwrap();
    let mux6 = parts.uart_mux6.into_uart0_tx(&mut scratch);
    let mux7 = parts.uart_mux7.into_uart0_rx(&mut scratch);
    let mut program = Program::new();
    let _serial = Serial::uart0((), config, ((tx, mux6), (rx, mux7)), Clocks::new(), &mut program);
    program.into_actions()
}

type TxRx = ((Pin<Uart<6>>, UartMux<6, Uart0Tx>), (Pin<Uart<7>>, UartMux<7, Uart0Rx>));

fn serial() -> Serial<(), TxRx> {
    let mut scratch = Program::new();
    let parts: Parts = split(());
    let tx = parts.pin14.into_uart_sig6(&mut scratch).unwrap();
    let rx = parts.pin15.into_uart_sig7(&mut scratch).unwrap();
    let mux6 = parts.uart_mux6.into_uart0_tx(&mut scratch);
    let mux7 = parts.uart_mux7.into_uart0_rx(&mut scratch);
    Serial::uart0((), Config::default(), ((tx, mux6), (rx, mux7)), Clocks::new(), &mut scratch)
}

#[test]
fn uart0_default_setup() {
    assert_eq!(
        setup(Config::default()),
        vec![
            modify(UTX_CONFIG, 1, 0),
            modify(URX_CONFIG, 1, 0),
            write(UART_BIT_PRD, 0x002f_002f),
            write(DATA_CONFIG, 0),
            write(UTX_CONFIG, 0x0000_0f04),
            modify(UTX_CONFIG, 1, 1),
            write(URX_CONFIG, 0x0000_0701),
            modify(URX_CONFIG, 0x0000_f000, 0x0000_f000),
        ]
    );
}

#[test]
fn uart0_setup_with_odd_parity_msb_first() {
    let config = Config {
        baudrate: Baud(9600),
        order: Order::MsbFirst,
        parity: Parity::ParityOdd,
        stopbits: StopBits::STOP2,
        wordlength: WordLength::Five,
    };
    let actions = setup(config);
    assert_eq!(actions[3], write(DATA_CONFIG, 1));
    assert_eq!(actions[4], write(UTX_CONFIG, 0x0000_1c34));
    assert_eq!(actions[6], write(URX_CONFIG, 0x0000_0431));
}

#[test]
fn uart0_setup_word_lengths_and_stop_bits() {
    for (wordlength, code) in [
        (WordLength::Five, 4u32),
        (WordLength::Six, 5),
        (WordLength::Seven, 6),
        (WordLength::Eight, 7),
    ] {
        let config = Config { wordlength, ..Config::default() };
        let actions = setup(config);
        assert_eq!(actions[4], write(UTX_CONFIG, (code << 8) | 0x0804));
        assert_eq!(actions[6], write(URX_CONFIG, (code << 8) | 1));
    }
    for (stopbits, code) in [
        (StopBits::STOP0P5, 0u32),
        (StopBits::STOP1, 1),
        (StopBits::STOP1P5, 2),
        (StopBits::STOP2, 3),
    ] {
        let actions = setup(Config::default().stopbits(stopbits));
        assert_eq!(actions[4], write(UTX_CONFIG, (code << 11) | 0x0704));
    }
    let even = setup(Config::default().parity_even());
    assert_eq!(even[4], write(UTX_CONFIG, 0x0000_0f14));
    assert_eq!(even[6], write(URX_CONFIG, 0x0000_0711));
    let odd = setup(Config::default().parity_even().parity_odd());
    assert_eq!(odd[4], write(UTX_CONFIG, 0x0000_0f34));
    let none = setup(Config::default().parity_odd().parity_none());
    assert_eq!(none[4], write(UTX_CONFIG, 0x0000_0f04));
}

#[test]
fn uart0_tx_only_leaves_receiver_off() {
    let mut scratch = Program::new();
    let parts: Parts = split(());
    let tx = parts.pin14.into_uart_sig6(&mut scratch).unwrap();
    let mux6 = parts.uart_mux6.into_uart0_tx(&mut scratch);
    let mut program = Program::new();
    let _serial =
        Serial::uart0((), Config::default(), TxOnly((tx, mux6)), Clocks::new(), &mut program);
    let actions = program.into_actions();
    assert_eq!(actions[5], modify(UTX_CONFIG, 1, 1));
    assert_eq!(actions[6], write(URX_CONFIG, 0x0000_0700));
}

#[test]
fn uart0_rx_only_leaves_transmitter_off() {
    let mut scratch = Program::new();
    let parts: Parts = split(());
    let rx = parts.pin7.into_uart_sig7(&mut scratch).unwrap();
    let mux7 = parts.uart_mux7.into_uart0_rx(&mut scratch);
    let mut program = Program::new();
    let _serial =
        Serial::uart0((), Config::default(), RxOnly((rx, mux7)), Clocks::new(), &mut program);
    let actions = program.into_actions();
    assert_eq!(actions[5], modify(UTX_CONFIG, 1, 0));
    assert_eq!(actions[6], write(URX_CONFIG, 0x0000_0701));
}

#[test]
fn effective_baud_ignores_requested_baud() {
    let clocks = Clocks::new();
    assert_eq!(clocks.uart_clk(), Hertz(96_000_000));
    assert_eq!(effective_baud_rate(&clocks), Baud(2_000_000));
    let slow = setup(Config::default().baudrate(Baud(115_200)));
    let fast = setup(Config::default().baudrate(Baud(2_000_000)));
    assert_eq!(slow, fast);
    // the divisor that is programmed is 48, less one
    assert_eq!(slow[2], write(UART_BIT_PRD, (47 << 16) | 47));
    assert_eq!(96_000_000 / 48, 2_000_000);
}

#[test]
fn config_default_and_builders() {
    let config = Config::default();
    assert_eq!(config.baudrate, Baud(115_200));
    assert_eq!(config.order, Order::LsbFirst);
    assert_eq!(config.parity, Parity::ParityNone);
    assert_eq!(config.stopbits, StopBits::STOP1);
    assert_eq!(config.wordlength, WordLength::Eight);
    let changed = config.baudrate(Baud(57_600)).parity_even().stopbits(StopBits::STOP1P5);
    assert_eq!(
        changed,
        Config {
            baudrate: Baud(57_600),
            order: Order::LsbFirst,
            parity: Parity::ParityEven,
            stopbits: StopBits::STOP1P5,
            wordlength: WordLength::Eight,
        }
    );
}

#[test]
fn free_gives_back_what_was_given() {
    let mut program = Program::new();
    let parts: Parts = split(());
    let tx = parts.pin22.into_uart_sig6(&mut program).unwrap();
    let mux6 = parts.uart_mux6.into_uart0_tx(&mut program);
    let serial =
        Serial::uart0(17u32, Config::default(), TxOnly((tx, mux6)), Clocks::new(), &mut program);
    let (uart, pins) = serial.free();
    assert_eq!(uart, 17);
    assert_eq!((pins.0).0.number(), 22);
}

#[test]
fn write_blocks_when_no_place_is_free() {
    let mut serial = serial();
    let mut program = Program::new();
    // tx_fifo_cnt is zero, whatever the rest of the word holds
    assert_eq!(
        serial.write(0xffff_ff00, 0x41, &mut program),
        Err(nb::Error::<UartError>::WouldBlock)
    );
    assert_eq!(program.len(), 0);
    assert_eq!(serial.write(0x0000_0001, 0x41, &mut program), Ok(()));
    assert_eq!(serial.write(0x0000_0020, 0xff, &mut program), Ok(()));
    assert_eq!(
        program.into_actions(),
        vec![write(UART_FIFO_WDATA, 0x41), write(UART_FIFO_WDATA, 0xff)]
    );
}

#[test]
fn read_blocks_when_nothing_waits() {
    let mut serial = serial();
    // rx_fifo_cnt is zero, whatever the rest of the word holds
    assert!(matches!(serial.read(0xffff_00ff), Err(nb::Error::WouldBlock)));
    let fetch = serial.read(0x0000_0100).unwrap();
    assert_eq!(fetch.addr(), UART_FIFO_RDATA);
    // the byte is the lowest eight bits of the word
    assert_eq!(fetch.complete(0xabcd_ef5a), 0x5a);
}

#[test]
fn flush_waits_for_empty_fifo_and_idle_line() {
    let mut serial = serial();
    // all 32 places free, line idle
    assert_eq!(serial.flush(0x0000_0020, 0), Ok(()));
    // one byte still in the FIFO
    assert_eq!(serial.flush(0x0000_001f, 0), Err(nb::Error::WouldBlock));
    // FIFO empty, a byte still being shifted out
    assert_eq!(serial.flush(0x0000_0020, 1), Err(nb::Error::WouldBlock));
    // the receive side does not matter
    assert_eq!(serial.flush(0x0000_0520, 2), Ok(()));
    assert_eq!(serial.flush(0, 0), Err(nb::Error::WouldBlock));
}

#[test]
fn write_str_sends_bytes_in_order() {
    let mut serial = serial();
    let mut program = Program::new();
    let mut job = serial.write_str("hi!\r\n");
    assert!(!job.is_done());
    // first the FIFO is full, then there is room, then full again
    let status = [0u32, 3, 0, 0, 1, 32, 0, 7, 1];
    let mut done = false;
    let mut polls = 0;
    for word in status {
        done = job.poll(&mut serial, word, &mut program);
        polls += 1;
        if done {
            break;
        }
    }
    assert!(done);
    assert!(job.is_done());
    assert_eq!(polls, 9);
    assert_eq!(
        program.take(),
        vec![
            write(UART_FIFO_WDATA, 0x68),
            write(UART_FIFO_WDATA, 0x69),
            write(UART_FIFO_WDATA, 0x21),
            write(UART_FIFO_WDATA, 0x0d),
            write(UART_FIFO_WDATA, 0x0a),
        ]
    );
    // once done, nothing more is written
    assert!(job.poll(&mut serial, 32, &mut program));
    assert_eq!(program.len(), 0);
}

#[test]
fn write_str_of_nothing_is_done_at_once() {
    let mut serial = serial();
    let mut program = Program::new();
    let mut job = serial.write_str("");
    assert!(job.is_done());
    assert!(job.poll(&mut serial, 0, &mut program));
    assert_eq!(program.len(), 0);
}

#[test]
fn loopback_keeps_fifo_order() {
    let mut serial = serial();
    let mut device = Loopback::new();
    let words: Vec<u8> = (0..32u8).map(|i| i.wrapping_mul(37).wrapping_add(5)).collect();
    for word in &words {
        assert_eq!(device.write(&mut serial, *word), Ok(()));
    }
    assert_eq!(device.len(), 32);
    let mut back = Vec::new();
    for _ in 0..words.len() {
        back.push(device.read(&mut serial).unwrap());
    }
    assert_eq!(back, words);
    assert_eq!(device.len(), 0);
}

#[test]
fn loopback_blocks_when_full_and_when_empty() {
    let mut serial = serial();
    let mut device = Loopback::new();
    assert_eq!(device.read(&mut serial), Err(nb::Error::WouldBlock));
    for i in 0..32u8 {
        assert_eq!(device.write(&mut serial, i), Ok(()));
    }
    // the 33rd byte finds no place and is not taken
    assert_eq!(device.write(&mut serial, 99), Err(nb::Error::WouldBlock));
    assert_eq!(device.len(), 32);
    assert_eq!(device.read(&mut serial), Ok(0));
    // one place is free again
    assert_eq!(device.write(&mut serial, 99), Ok(()));
    for i in 1..32u8 {
        assert_eq!(device.read(&mut serial), Ok(i));
    }
    assert_eq!(device.read(&mut serial), Ok(99));
    assert_eq!(device.read(&mut serial), Err(nb::Error::WouldBlock));
}

#[test]
fn loopback_registers() {
    let mut device = Loopback::new();
    // empty: 32 places free, nothing waits
    assert_eq!(device.fifo_config_1(), 0x0000_0020);
    device.execute(write(UART_FIFO_WDATA, 0x1234_5678));
    device.execute(write(UART_FIFO_WDATA, 0x9a));
    // stores elsewhere do not reach the FIFO
    device.execute(write(UART_FIFO_RDATA, 0x55));
    device.execute(modify(UART_FIFO_WDATA, 0xff, 0x55));
    assert_eq!(device.fifo_config_1(), 0x0000_021e);
    assert_eq!(device.rdata(), 0x78);
    assert_eq!(device.rdata(), 0x9a);
    assert_eq!(device.rdata(), 0);
    assert_eq!(device.fifo_config_1(), 0x0000_0020);
}

#[test]
fn interleaved_writes_and_reads_keep_order() {
    let mut serial = serial();
    let mut device = Loopback::new();
    let mut next_in: u8 = 0;
    let mut next_out: u8 = 0;
    for round in 0..50usize {
        let writes = (round * 7) % 5;
        for _ in 0..writes {
            if device.write(&mut serial, next_in).is_ok() {
                next_in = next_in.wrapping_add(1);
            }
        }
        let reads = (round * 3) % 4;
        for _ in 0..reads {
            if let Ok(byte) = device.read(&mut serial) {
                assert_eq!(byte, next_out);
                next_out = next_out.wrapping_add(1);
            }
        }
    }
    assert!(next_in != 0);
}

#[test]
fn setup_reads_back_from_the_registers() {
    // whatever the registers held before, the setup leaves them as configured
    let mut scratch = Program::new();
    let parts: Parts = split(());
    let tx = parts.pin14.into_uart_sig6(&mut scratch).unwrap();
    let mux6 = parts.uart_mux6.into_uart0_tx(&mut scratch);
    let mut program = Program::new();
    let config = Config::default().parity_odd().stopbits(StopBits::STOP2);
    let _serial = Serial::uart0((), config, TxOnly((tx, mux6)), Clocks::new(), &mut program);
    for before in [0u32, 0xffff_ffff, 0x1234_5678] {
        let utx = program.readback(UTX_CONFIG, before);
        assert_eq!(utx, 0x0000_1f35);
        let urx = program.readback(URX_CONFIG, before);
        assert_eq!(urx, 0x0000_f730);
        assert_eq!(program.readback(UART_BIT_PRD, before), 0x002f_002f);
        assert_eq!(program.readback(DATA_CONFIG, before), 0);
    }
}
