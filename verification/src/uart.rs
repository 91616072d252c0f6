//! UART driver
//!
//! The line runs at the UART peripheral clock divided by [`UART_DIVISOR`]:
//! at two million symbols per second off the PLL's 96 MHz. The baud rate in
//! [`Config`] is kept but does not enter the divisor.

use crate::bits::applied;
use crate::bits::bit_is_set;
use crate::bits::flag;
use crate::bits::lemma_applied_none;
use crate::bits::lemma_last_field_reads_back;
use crate::bits::lemma_low_masks;
use crate::bits::lemma_other_field_unchanged;
use crate::bits::extract;
use crate::bits::get_bit;
use crate::bits::get_field;
use crate::bits::lemma_extract_insert;
use crate::bits::lemma_insert_keeps_other;
use crate::bits::low_mask;
use crate::bits::no_fields;
use crate::bits::with_field;
use crate::bits::with_flag;
use crate::bits::Fields;
use crate::clock::Clocks;
use crate::gpio::Pin;
use crate::gpio::Uart;
use crate::gpio::Uart0Cts;
use crate::gpio::Uart0Rts;
use crate::gpio::Uart0Rx;
use crate::gpio::Uart0Tx;
use crate::gpio::UartMux;
use crate::hw::lemma_register_after_push;
use crate::hw::register_after;
use crate::hw::Action;
use crate::hw::Fetch;
use crate::hw::Program;
use crate::rate::Baud;
use vstd::prelude::*;
use vstd::slice::slice_to_vec;
use vstd::string::StringSliceAdditionalSpecFns;

verus! {

/// Physical base address of the register block.
pub const UART_BASE: u32 = 0x4000_a000;

/// Transmitter configuration.
pub const UTX_CONFIG: u32 = UART_BASE + 0x00;

/// Receiver configuration.
pub const URX_CONFIG: u32 = UART_BASE + 0x04;

/// Length of one bit, in cycles of the peripheral clock less one, for
/// transmitter and receiver.
pub const UART_BIT_PRD: u32 = UART_BASE + 0x08;

/// Order of the bits on the line.
pub const DATA_CONFIG: u32 = UART_BASE + 0x0c;

/// Line status.
pub const UART_STATUS: u32 = UART_BASE + 0x30;

/// Fill state of the two FIFOs.
pub const UART_FIFO_CONFIG_1: u32 = UART_BASE + 0x84;

/// Entry of the transmit FIFO.
pub const UART_FIFO_WDATA: u32 = UART_BASE + 0x88;

/// Exit of the receive FIFO.
pub const UART_FIFO_RDATA: u32 = UART_BASE + 0x8c;

/// Cycles of the UART peripheral clock per bit on the line.
pub const UART_DIVISOR: u32 = 48;

/// Number of bytes that each FIFO holds.
pub const UART_FIFO_DEPTH: u32 = 32;

/// What can go wrong on the line
#[derive(Debug, Clone, Copy, PartialEq, Eq)]
#[non_exhaustive]
pub enum UartError {
    /// Framing error
    Framing,
    /// Noise error
    Noise,
    /// RX buffer overrun
    Overrun,
    /// Parity check error
    Parity,
}

/// Order of the bits transmitted and received on the wire
#[derive(Debug, Copy, Clone, Eq, PartialEq)]
pub enum Order {
    /// Each byte is sent out LSB-first
    LsbFirst,
    /// Each byte is sent out MSB-first
    MsbFirst,
}

/// Parity check
#[derive(Copy, Clone, Debug, PartialEq, Eq)]
pub enum Parity {
    /// No parity check
    ParityNone,
    /// Even parity bit
    ParityEven,
    /// Odd parity bit
    ParityOdd,
}

/// Stop bits
#[derive(Copy, Clone, Debug, PartialEq, Eq)]
pub enum StopBits {
    /// 1 stop bit
    STOP1,
    /// 0.5 stop bits
    STOP0P5,
    /// 2 stop bits
    STOP2,
    /// 1.5 stop bits
    STOP1P5,
}

/// Word length
#[derive(Copy, Clone, Debug, PartialEq, Eq)]
pub enum WordLength {
    Five,
    Six,
    Seven,
    Eight,
}

/// Interrupt event
#[derive(Copy, Clone, Debug, PartialEq, Eq)]
pub enum Event {
    /// UART RX FIFO error interrupt
    RxFifoError,
    /// UART TX FIFO error interrupt
    TxFifoError,
    /// UART RX parity check error interrupt
    RxParityError,
    /// UART RX Time-out interrupt
    RxTimeout,
    /// UART RX FIFO ready (rx_fifo_cnt > rx_fifo_th) interrupt
    RxFifoReady,
    /// UART TX FIFO ready (tx_fifo_cnt > tx_fifo_th) interrupt
    TxFifoReady,
    /// UART RX transfer end interrupt
    RxTransferEnd,
    /// UART TX transfer end interrupt
    TxTransferEnd,
}

/// Serial configuration
#[derive(Copy, Clone, Debug, PartialEq)]
pub struct Config {
    pub baudrate: Baud,
    pub order: Order,
    pub parity: Parity,
    pub stopbits: StopBits,
    pub wordlength: WordLength,
}

impl Config {
    /// Sets the target baudrate
    pub fn baudrate(self, baudrate: Baud) -> (config: Self)
        ensures
            config == (Config { baudrate, ..self }),
    {
        let mut config = self;
        config.baudrate = baudrate;
        config
    }

    /// Sets parity to no parity check
    pub fn parity_none(self) -> (config: Self)
        ensures
            config == (Config { parity: Parity::ParityNone, ..self }),
    {
        let mut config = self;
        config.parity = Parity::ParityNone;
        config
    }

    /// Sets parity check to even
    pub fn parity_even(self) -> (config: Self)
        ensures
            config == (Config { parity: Parity::ParityEven, ..self }),
    {
        let mut config = self;
        config.parity = Parity::ParityEven;
        config
    }

    /// Sets parity check to odd
    pub fn parity_odd(self) -> (config: Self)
        ensures
            config == (Config { parity: Parity::ParityOdd, ..self }),
    {
        let mut config = self;
        config.parity = Parity::ParityOdd;
        config
    }

    /// Sets the target stopbits
    pub fn stopbits(self, stopbits: StopBits) -> (config: Self)
        ensures
            config == (Config { stopbits, ..self }),
    {
        let mut config = self;
        config.stopbits = stopbits;
        config
    }
}

impl Default for Config {
    fn default() -> (config: Config)
        ensures
            config == (Config {
                baudrate: Baud(115_200),
                order: Order::LsbFirst,
                parity: Parity::ParityNone,
                stopbits: StopBits::STOP1,
                wordlength: WordLength::Eight,
            }),
    {
        Config {
            baudrate: Baud(115_200),
            order: Order::LsbFirst,
            parity: Parity::ParityNone,
            stopbits: StopBits::STOP1,
            wordlength: WordLength::Eight,
        }
    }
}

/// The number that stands for a word length in the configuration
/// registers: the number of data bits less one.
pub open spec fn data_bits_code(wordlength: WordLength) -> u32 {
    match wordlength {
        WordLength::Five => 4,
        WordLength::Six => 5,
        WordLength::Seven => 6,
        WordLength::Eight => 7,
    }
}

/// The number that stands for a count of stop bits in the configuration
/// registers: the count in half bits less one.
pub open spec fn stop_bits_code(stopbits: StopBits) -> u32 {
    match stopbits {
        StopBits::STOP0P5 => 0,
        StopBits::STOP1 => 1,
        StopBits::STOP1P5 => 2,
        StopBits::STOP2 => 3,
    }
}

/// Whether a parity bit is sent and checked.
pub open spec fn parity_enabled(parity: Parity) -> bool {
    parity != Parity::ParityNone
}

/// Whether the parity bit makes the number of ones odd.
pub open spec fn parity_is_odd(parity: Parity) -> bool {
    parity == Parity::ParityOdd
}

/// The transmitter configuration that is programmed: parity, data bits,
/// stop bits, free run on, flow control off, transmitter off.
pub open spec fn utx_config_fields(config: Config) -> Fields {
    let parity = with_flag(
        with_flag(no_fields(), 4, parity_enabled(config.parity)),
        5,
        parity_is_odd(config.parity),
    );
    let data = with_field(parity, 8, 3, data_bits_code(config.wordlength));
    let stop = with_field(data, 11, 2, stop_bits_code(config.stopbits));
    with_flag(with_flag(stop, 2, true), 1, false)
}

/// The receiver configuration that is programmed: parity, data bits, no
/// de-glitching, and the receiver on if a receive pin is wired.
pub open spec fn urx_config_fields(config: Config, has_rx: bool) -> Fields {
    let parity = with_flag(
        with_flag(no_fields(), 4, parity_enabled(config.parity)),
        5,
        parity_is_odd(config.parity),
    );
    let data = with_field(parity, 8, 3, data_bits_code(config.wordlength));
    with_flag(with_flag(data, 11, false), 0, has_rx)
}

/// The bit period that is programmed, for receiver and transmitter alike.
pub open spec fn bit_period_fields() -> Fields {
    with_field(
        with_field(no_fields(), 16, 16, (UART_DIVISOR - 1) as u32),
        0,
        16,
        (UART_DIVISOR - 1) as u32,
    )
}

/// What [`Serial::uart0`] appends to a program.
///
/// Transmitter and receiver are switched off first. Then the bit period,
/// the bit order, and the transmitter and receiver configurations are
/// written. The transmitter is switched on if a transmit pin is wired, the
/// receiver if a receive pin is wired. Last, the de-glitch count of the
/// receiver is set.
pub open spec fn uart0_actions(config: Config, has_tx: bool, has_rx: bool) -> Seq<Action> {
    let off = with_flag(no_fields(), 0, false);
    let order = with_flag(no_fields(), 0, config.order == Order::MsbFirst);
    let tx_on = with_flag(no_fields(), 0, has_tx);
    let deglitch = with_field(no_fields(), 12, 4, 15);
    seq![
        Action::Modify { addr: UTX_CONFIG, mask: off.mask, value: off.value },
        Action::Modify { addr: URX_CONFIG, mask: off.mask, value: off.value },
        Action::Write { addr: UART_BIT_PRD, value: bit_period_fields().value },
        Action::Write { addr: DATA_CONFIG, value: order.value },
        Action::Write { addr: UTX_CONFIG, value: utx_config_fields(config).value },
        Action::Modify { addr: UTX_CONFIG, mask: tx_on.mask, value: tx_on.value },
        Action::Write { addr: URX_CONFIG, value: urx_config_fields(config, has_rx).value },
        Action::Modify { addr: URX_CONFIG, mask: deglitch.mask, value: deglitch.value },
    ]
}

/// Once the UART is set up, the transmitter is on exactly if a transmit
/// pin is wired and the receiver is on exactly if a receive pin is wired;
/// both are set to the word length and the parity of the configuration,
/// and the transmitter to its stop bits.
///
/// `utx_before` and `urx_before` are what the two configuration registers
/// hold before, whatever that is.
pub proof fn lemma_uart0_enables_what_is_wired(
    config: Config,
    has_tx: bool,
    has_rx: bool,
    utx_before: u32,
    urx_before: u32,
)
    ensures
        ({
            let actions = uart0_actions(config, has_tx, has_rx);
            let utx = register_after(actions, UTX_CONFIG, utx_before);
            let urx = register_after(actions, URX_CONFIG, urx_before);
            &&& bit_is_set(utx, 0) == has_tx
            &&& bit_is_set(utx, 4) == parity_enabled(config.parity)
            &&& bit_is_set(utx, 5) == parity_is_odd(config.parity)
            &&& extract(utx, 8, 3) == data_bits_code(config.wordlength)
            &&& extract(utx, 11, 2) == stop_bits_code(config.stopbits)
            &&& bit_is_set(urx, 0) == has_rx
            &&& bit_is_set(urx, 4) == parity_enabled(config.parity)
            &&& bit_is_set(urx, 5) == parity_is_odd(config.parity)
            &&& extract(urx, 8, 3) == data_bits_code(config.wordlength)
            &&& extract(urx, 12, 4) == 15
        }),
{
    let off = with_flag(no_fields(), 0, false);
    let order = with_flag(no_fields(), 0, config.order == Order::MsbFirst);
    let tx_on = with_flag(no_fields(), 0, has_tx);
    let deglitch = with_field(no_fields(), 12, 4, 15);
    let a1 = Action::Modify { addr: UTX_CONFIG, mask: off.mask, value: off.value };
    let a2 = Action::Modify { addr: URX_CONFIG, mask: off.mask, value: off.value };
    let a3 = Action::Write { addr: UART_BIT_PRD, value: bit_period_fields().value };
    let a4 = Action::Write { addr: DATA_CONFIG, value: order.value };
    let a5 = Action::Write { addr: UTX_CONFIG, value: utx_config_fields(config).value };
    let a6 = Action::Modify { addr: UTX_CONFIG, mask: tx_on.mask, value: tx_on.value };
    let a7 = Action::Write { addr: URX_CONFIG, value: urx_config_fields(config, has_rx).value };
    let a8 = Action::Modify { addr: URX_CONFIG, mask: deglitch.mask, value: deglitch.value };
    let s0 = Seq::<Action>::empty();
    let s1 = s0.push(a1);
    let s2 = s1.push(a2);
    let s3 = s2.push(a3);
    let s4 = s3.push(a4);
    let s5 = s4.push(a5);
    let s6 = s5.push(a6);
    let s7 = s6.push(a7);
    let s8 = s7.push(a8);
    assert(uart0_actions(config, has_tx, has_rx) =~= s8);
    lemma_register_after_push(s0, a1, UTX_CONFIG, utx_before);
    lemma_register_after_push(s1, a2, UTX_CONFIG, utx_before);
    lemma_register_after_push(s2, a3, UTX_CONFIG, utx_before);
    lemma_register_after_push(s3, a4, UTX_CONFIG, utx_before);
    lemma_register_after_push(s4, a5, UTX_CONFIG, utx_before);
    lemma_register_after_push(s5, a6, UTX_CONFIG, utx_before);
    lemma_register_after_push(s6, a7, UTX_CONFIG, utx_before);
    lemma_register_after_push(s7, a8, UTX_CONFIG, utx_before);
    lemma_register_after_push(s0, a1, URX_CONFIG, urx_before);
    lemma_register_after_push(s1, a2, URX_CONFIG, urx_before);
    lemma_register_after_push(s2, a3, URX_CONFIG, urx_before);
    lemma_register_after_push(s3, a4, URX_CONFIG, urx_before);
    lemma_register_after_push(s4, a5, URX_CONFIG, urx_before);
    lemma_register_after_push(s5, a6, URX_CONFIG, urx_before);
    lemma_register_after_push(s6, a7, URX_CONFIG, urx_before);
    lemma_register_after_push(s7, a8, URX_CONFIG, urx_before);
    lemma_low_masks();
    assert(1u32 & 1 == 1 && 0u32 & 1 == 0 && 15u32 & 15 == 15) by (bit_vector);
    let d = data_bits_code(config.wordlength);
    let p = stop_bits_code(config.stopbits);
    assert(d & 7 == d) by (bit_vector)
        requires
            4 <= d <= 7,
    ;
    assert(p & 3 == p) by (bit_vector)
        requires
            p <= 3,
    ;
    let pe = flag(parity_enabled(config.parity));
    let po = flag(parity_is_odd(config.parity));

    // the transmitter: what was written, then the enable bit
    let t1 = with_flag(no_fields(), 4, parity_enabled(config.parity));
    let t2 = with_flag(t1, 5, parity_is_odd(config.parity));
    let t3 = with_field(t2, 8, 3, d);
    let t4 = with_field(t3, 11, 2, p);
    let t5 = with_flag(t4, 2, true);
    let t6 = with_flag(t5, 1, false);
    assert(t6 == utx_config_fields(config));
    let utx = register_after(s8, UTX_CONFIG, utx_before);
    assert(utx == applied(tx_on, t6.value));
    lemma_last_field_reads_back(no_fields(), 0, 1, flag(has_tx), t6.value);
    lemma_applied_none(t6.value);
    lemma_other_field_unchanged(no_fields(), 0, 1, flag(has_tx), t6.value, 4, 1);
    lemma_other_field_unchanged(no_fields(), 0, 1, flag(has_tx), t6.value, 5, 1);
    lemma_other_field_unchanged(no_fields(), 0, 1, flag(has_tx), t6.value, 8, 3);
    lemma_other_field_unchanged(no_fields(), 0, 1, flag(has_tx), t6.value, 11, 2);
    // stop bits
    lemma_insert_keeps_other(t5.value, 1, 1, 0, 11, 2);
    lemma_insert_keeps_other(t4.value, 2, 1, 1, 11, 2);
    lemma_extract_insert(t3.value, 11, 2, p);
    // data bits
    lemma_insert_keeps_other(t5.value, 1, 1, 0, 8, 3);
    lemma_insert_keeps_other(t4.value, 2, 1, 1, 8, 3);
    lemma_insert_keeps_other(t3.value, 11, 2, p, 8, 3);
    lemma_extract_insert(t2.value, 8, 3, d);
    // parity selection
    lemma_insert_keeps_other(t5.value, 1, 1, 0, 5, 1);
    lemma_insert_keeps_other(t4.value, 2, 1, 1, 5, 1);
    lemma_insert_keeps_other(t3.value, 11, 2, p, 5, 1);
    lemma_insert_keeps_other(t2.value, 8, 3, d, 5, 1);
    lemma_extract_insert(t1.value, 5, 1, po);
    // parity enable
    lemma_insert_keeps_other(t5.value, 1, 1, 0, 4, 1);
    lemma_insert_keeps_other(t4.value, 2, 1, 1, 4, 1);
    lemma_insert_keeps_other(t3.value, 11, 2, p, 4, 1);
    lemma_insert_keeps_other(t2.value, 8, 3, d, 4, 1);
    lemma_insert_keeps_other(t1.value, 5, 1, po, 4, 1);
    lemma_extract_insert(0, 4, 1, pe);

    // the receiver: what was written, then the de-glitch count
    let r1 = with_flag(no_fields(), 4, parity_enabled(config.parity));
    let r2 = with_flag(r1, 5, parity_is_odd(config.parity));
    let r3 = with_field(r2, 8, 3, d);
    let r4 = with_flag(r3, 11, false);
    let r5 = with_flag(r4, 0, has_rx);
    assert(r5 == urx_config_fields(config, has_rx));
    let urx = register_after(s8, URX_CONFIG, urx_before);
    assert(urx == applied(deglitch, r5.value));
    lemma_last_field_reads_back(no_fields(), 12, 4, 15, r5.value);
    lemma_applied_none(r5.value);
    lemma_other_field_unchanged(no_fields(), 12, 4, 15, r5.value, 0, 1);
    lemma_other_field_unchanged(no_fields(), 12, 4, 15, r5.value, 4, 1);
    lemma_other_field_unchanged(no_fields(), 12, 4, 15, r5.value, 5, 1);
    lemma_other_field_unchanged(no_fields(), 12, 4, 15, r5.value, 8, 3);
    // enable
    lemma_extract_insert(r4.value, 0, 1, flag(has_rx));
    // data bits
    lemma_insert_keeps_other(r4.value, 0, 1, flag(has_rx), 8, 3);
    lemma_insert_keeps_other(r3.value, 11, 1, 0, 8, 3);
    lemma_extract_insert(r2.value, 8, 3, d);
    // parity selection
    lemma_insert_keeps_other(r4.value, 0, 1, flag(has_rx), 5, 1);
    lemma_insert_keeps_other(r3.value, 11, 1, 0, 5, 1);
    lemma_insert_keeps_other(r2.value, 8, 3, d, 5, 1);
    lemma_extract_insert(r1.value, 5, 1, po);
    // parity enable
    lemma_insert_keeps_other(r4.value, 0, 1, flag(has_rx), 4, 1);
    lemma_insert_keeps_other(r3.value, 11, 1, 0, 4, 1);
    lemma_insert_keeps_other(r2.value, 8, 3, d, 4, 1);
    lemma_insert_keeps_other(r1.value, 5, 1, po, 4, 1);
    lemma_extract_insert(0, 4, 1, pe);
}

/// The line speed that results from the bit period that is programmed, off
/// a peripheral clock of `uart_clk` hertz.
pub open spec fn effective_baud(uart_clk: u32) -> u32 {
    uart_clk / UART_DIVISOR
}

/// Computes [`effective_baud`] for the frozen clocks.
pub fn effective_baud_rate(clocks: &Clocks) -> (baud: Baud)
    ensures
        baud.0 == effective_baud(clocks.uart_clk_hz()),
{
    Baud(clocks.uart_clk().0 / UART_DIVISOR)
}

/// The baud rate asked for does not enter what is programmed: two
/// configurations that differ in nothing else set the UART up alike.
pub proof fn lemma_baud_request_is_ignored(a: Config, b: Config, has_tx: bool, has_rx: bool)
    requires
        a.order == b.order,
        a.parity == b.parity,
        a.stopbits == b.stopbits,
        a.wordlength == b.wordlength,
    ensures
        uart0_actions(a, has_tx, has_rx) == uart0_actions(b, has_tx, has_rx),
{
}

/// The bit period that is programmed is [`UART_DIVISOR`] cycles less one,
/// for the transmitter and for the receiver.
pub proof fn lemma_bit_period()
    ensures
        extract(bit_period_fields().value, 0, 16) == UART_DIVISOR - 1,
        extract(bit_period_fields().value, 16, 16) == UART_DIVISOR - 1,
        bit_period_fields().value == 0x002f_002f,
{
    let n = (UART_DIVISOR - 1) as u32;
    let first = with_field(no_fields(), 16, 16, n);
    lemma_extract_insert(first.value, 0, 16, n);
    lemma_insert_keeps_other(first.value, 0, 16, n, 16, 16);
    lemma_extract_insert(0, 16, 16, n);
    assert(low_mask(16) == 0xffff) by (bit_vector);
    assert(47u32 & 0xffff == 47) by (bit_vector);
    assert(((0u32 & !(0xffffu32 << 16u32)) | ((47u32 & 0xffffu32) << 16u32)) == 0x002f_0000u32)
        by (bit_vector);
    assert(((0x002f_0000u32 & !(0xffffu32 << 0u32)) | ((47u32 & 0xffffu32) << 0u32))
        == 0x002f_002fu32) by (bit_vector);
}

/// The number of free places in the transmit FIFO, as the FIFO status word
/// tells it.
pub open spec fn tx_free(fifo_config_1: u32) -> u32 {
    extract(fifo_config_1, 0, 8)
}

/// The number of bytes waiting in the receive FIFO, as the FIFO status word
/// tells it.
pub open spec fn rx_pending(fifo_config_1: u32) -> u32 {
    extract(fifo_config_1, 8, 8)
}

/// Whether the line status word says that a byte is still being shifted
/// out.
pub open spec fn tx_busy(uart_status: u32) -> bool {
    bit_is_set(uart_status, 0)
}

/// Serial transmit pins
pub trait TxPin<UART> {

}

/// Serial receive pins
pub trait RxPin<UART> {

}

/// Serial rts pins
pub trait RtsPin<UART> {

}

/// Serial cts pins
pub trait CtsPin<UART> {

}

impl<const N: u8, UART> TxPin<UART> for (Pin<Uart<N>>, UartMux<N, Uart0Tx>) {

}

impl<const N: u8, UART> RxPin<UART> for (Pin<Uart<N>>, UartMux<N, Uart0Rx>) {

}

impl<const N: u8, UART> RtsPin<UART> for (Pin<Uart<N>>, UartMux<N, Uart0Rts>) {

}

impl<const N: u8, UART> CtsPin<UART> for (Pin<Uart<N>>, UartMux<N, Uart0Cts>) {

}

/// Serial pins
pub trait Pins<UART> {
    /// Whether a transmit pin is among the pins.
    spec fn wires_tx() -> bool;

    /// Whether a receive pin is among the pins.
    spec fn wires_rx() -> bool;

    /// Whether a request-to-send pin is among the pins.
    spec fn wires_rts() -> bool;

    /// Whether a clear-to-send pin is among the pins.
    spec fn wires_cts() -> bool;

    /// Computes [`Self::wires_tx`].
    fn has_tx() -> (b: bool)
        ensures
            b == Self::wires_tx(),
    ;

    /// Computes [`Self::wires_rx`].
    fn has_rx() -> (b: bool)
        ensures
            b == Self::wires_rx(),
    ;

    /// Computes [`Self::wires_rts`].
    fn has_rts() -> (b: bool)
        ensures
            b == Self::wires_rts(),
    ;

    /// Computes [`Self::wires_cts`].
    fn has_cts() -> (b: bool)
        ensures
            b == Self::wires_cts(),
    ;
}

impl<UART, TX, RX> Pins<UART> for (TX, RX) where TX: TxPin<UART>, RX: RxPin<UART> {
    open spec fn wires_tx() -> bool {
        true
    }

    open spec fn wires_rx() -> bool {
        true
    }

    open spec fn wires_rts() -> bool {
        false
    }

    open spec fn wires_cts() -> bool {
        false
    }

    fn has_tx() -> (b: bool) {
        true
    }

    fn has_rx() -> (b: bool) {
        true
    }

    fn has_rts() -> (b: bool) {
        false
    }

    fn has_cts() -> (b: bool) {
        false
    }
}

impl<UART, TX, RX, RTS, CTS> Pins<UART> for (TX, RX, RTS, CTS) where
    TX: TxPin<UART>,
    RX: RxPin<UART>,
    RTS: RtsPin<UART>,
    CTS: CtsPin<UART>,
 {
    open spec fn wires_tx() -> bool {
        true
    }

    open spec fn wires_rx() -> bool {
        true
    }

    open spec fn wires_rts() -> bool {
        true
    }

    open spec fn wires_cts() -> bool {
        true
    }

    fn has_tx() -> (b: bool) {
        true
    }

    fn has_rx() -> (b: bool) {
        true
    }

    fn has_rts() -> (b: bool) {
        true
    }

    fn has_cts() -> (b: bool) {
        true
    }
}

/// A transmit pin alone: the receiver stays off.
#[derive(Debug)]
pub struct TxOnly<TX>(pub TX);

/// A receive pin alone: the transmitter stays off.
#[derive(Debug)]
pub struct RxOnly<RX>(pub RX);

impl<UART, TX> Pins<UART> for TxOnly<TX> where TX: TxPin<UART> {
    open spec fn wires_tx() -> bool {
        true
    }

    open spec fn wires_rx() -> bool {
        false
    }

    open spec fn wires_rts() -> bool {
        false
    }

    open spec fn wires_cts() -> bool {
        false
    }

    fn has_tx() -> (b: bool) {
        true
    }

    fn has_rx() -> (b: bool) {
        false
    }

    fn has_rts() -> (b: bool) {
        false
    }

    fn has_cts() -> (b: bool) {
        false
    }
}

impl<UART, RX> Pins<UART> for RxOnly<RX> where RX: RxPin<UART> {
    open spec fn wires_tx() -> bool {
        false
    }

    open spec fn wires_rx() -> bool {
        true
    }

    open spec fn wires_rts() -> bool {
        false
    }

    open spec fn wires_cts() -> bool {
        false
    }

    fn has_tx() -> (b: bool) {
        false
    }

    fn has_rx() -> (b: bool) {
        true
    }

    fn has_rts() -> (b: bool) {
        false
    }

    fn has_cts() -> (b: bool) {
        false
    }
}

/// Serial abstraction
#[derive(Debug)]
pub struct Serial<UART, PINS> {
    uart: UART,
    pins: PINS,
}

impl<UART, PINS> Serial<UART, PINS> {
    /// The register block that the driver owns.
    pub closed spec fn peripheral(&self) -> UART {
        self.uart
    }

    /// The pins that the driver owns.
    pub closed spec fn pin_set(&self) -> PINS {
        self.pins
    }

    /// Takes the driver apart into its register block and its pins.
    pub fn free(self) -> (parts: (UART, PINS))
        ensures
            parts.0 == self.peripheral(),
            parts.1 == self.pin_set(),
    {
        (self.uart, self.pins)
    }

    /// Puts one byte into the transmit FIFO, if there is room.
    ///
    /// `fifo_config_1` is what the FIFO status register reads. With no free
    /// place the byte is not taken, and the call is to be repeated.
    pub fn write(&mut self, fifo_config_1: u32, word: u8, program: &mut Program) -> (r: Result<
        (),
        nb::Error<UartError>,
    >)
        ensures
            *final(self) == *old(self),
            tx_free(fifo_config_1) == 0 ==> r == Err::<(), nb::Error<UartError>>(nb::Error::WouldBlock)
                && final(program)@ == old(program)@,
            tx_free(fifo_config_1) != 0 ==> r == Ok::<(), nb::Error<UartError>>(()) && final(program)@
                == old(program)@.push(Action::Write { addr: UART_FIFO_WDATA, value: word as u32 }),
    {
        // If there's no room to write a byte or more to the FIFO, return WouldBlock
        if get_field(fifo_config_1, 0, 8) == 0 {
            Err(nb::Error::WouldBlock)
        } else {
            program.write(UART_FIFO_WDATA, word as u32);
            Ok(())
        }
    }

    /// Succeeds once everything written has left: the transmit FIFO is
    /// empty, all its places free, and no byte is being shifted out.
    ///
    /// `fifo_config_1` is what the FIFO status register reads, `uart_status`
    /// what the line status register reads.
    pub fn flush(&mut self, fifo_config_1: u32, uart_status: u32) -> (r: Result<
        (),
        nb::Error<UartError>,
    >)
        ensures
            *final(self) == *old(self),
            r == (if tx_free(fifo_config_1) == UART_FIFO_DEPTH && !tx_busy(uart_status) {
                Ok::<(), nb::Error<UartError>>(())
            } else {
                Err::<(), nb::Error<UartError>>(nb::Error::WouldBlock)
            }),
    {
        // If we're still transmitting or have data in our 32 byte FIFO, return WouldBlock
        if get_field(fifo_config_1, 0, 8) != UART_FIFO_DEPTH || get_bit(uart_status, 0) {
            Err(nb::Error::WouldBlock)
        } else {
            Ok(())
        }
    }

    /// Tells whether a byte is waiting in the receive FIFO. If one is, the
    /// exit of the FIFO is to be read and the word handed to
    /// [`Fetch::complete`]; if none is, the call is to be repeated.
    ///
    /// `fifo_config_1` is what the FIFO status register reads.
    pub fn read(&mut self, fifo_config_1: u32) -> (r: Result<Fetch, nb::Error<UartError>>)
        ensures
            *final(self) == *old(self),
            rx_pending(fifo_config_1) == 0 ==> r == Err::<Fetch, nb::Error<UartError>>(
                nb::Error::WouldBlock,
            ),
            rx_pending(fifo_config_1) != 0 ==> r is Ok && r->Ok_0.register() == UART_FIFO_RDATA,
    {
        if get_field(fifo_config_1, 8, 8) == 0 {
            Err(nb::Error::WouldBlock)
        } else {
            Ok(Fetch::from_register(UART_FIFO_RDATA))
        }
    }

    /// Starts sending a string, byte by byte. The bytes go out by repeated
    /// calls of [`WriteStr::poll`].
    pub fn write_str(&mut self, s: &str) -> (job: WriteStr)
        ensures
            *final(self) == *old(self),
            job.bytes() == s.spec_bytes(),
            job.sent() == 0,
    {
        WriteStr { bytes: slice_to_vec(s.as_bytes()), sent: 0 }
    }
}

impl<UART, PINS> Serial<UART, PINS> where PINS: Pins<UART> {
    /// Sets the UART up and takes hold of its register block and pins.
    pub fn uart0(
        uart: UART,
        config: Config,
        pins: PINS,
        _clocks: Clocks,
        program: &mut Program,
    ) -> (serial: Self)
        ensures
            serial.peripheral() == uart,
            serial.pin_set() == pins,
            final(program)@ == old(program)@ + uart0_actions(
                config,
                PINS::wires_tx(),
                PINS::wires_rx(),
            ),
    {
        let divisor: u32 = UART_DIVISOR;  // bring uart down from 96MHz to 2Mhz

        // Disable uart first
        program.modify_fields(UTX_CONFIG, Fields::none().with_bit(0, false));
        program.modify_fields(URX_CONFIG, Fields::none().with_bit(0, false));

        program.write_fields(
            UART_BIT_PRD,
            Fields::none().with(16, 16, divisor - 1).with(0, 16, divisor - 1),
        );

        // Bit inverse configuration; MsbFirst => 1, LsbFirst => 0
        let order_cfg = match config.order {
            Order::LsbFirst => false,
            Order::MsbFirst => true,
        };
        program.write_fields(DATA_CONFIG, Fields::none().with_bit(0, order_cfg));

        // UART TX config
        let data_bits_cfg: u32 = match config.wordlength {
            WordLength::Five => 4,
            WordLength::Six => 5,
            WordLength::Seven => 6,
            WordLength::Eight => 7,
        };
        let stop_bits_cfg: u32 = match config.stopbits {
            StopBits::STOP0P5 => 0,
            StopBits::STOP1 => 1,
            StopBits::STOP1P5 => 2,
            StopBits::STOP2 => 3,
        };
        let (parity_enable, parity_type) = match config.parity {
            Parity::ParityNone => (false, false),
            Parity::ParityEven => (true, false),  // even => 0
            Parity::ParityOdd => (true, true),  // odd => 1
        };

        program.write_fields(
            UTX_CONFIG,
            Fields::none().with_bit(4, parity_enable).with_bit(5, parity_type).with(
                8,
                3,
                data_bits_cfg,
            ).with(11, 2, stop_bits_cfg).with_bit(2, true)  // free run on
            .with_bit(1, false),  // CTS off
        );
        program.modify_fields(UTX_CONFIG, Fields::none().with_bit(0, PINS::has_tx()));

        // UART RX config
        program.write_fields(
            URX_CONFIG,
            Fields::none().with_bit(4, parity_enable).with_bit(5, parity_type).with(
                8,
                3,
                data_bits_cfg,
            ).with_bit(11, false)  // no rx input de-glitch
            .with_bit(0, PINS::has_rx()),
        );
        program.modify_fields(URX_CONFIG, Fields::none().with(12, 4, 15));

        assert(program@ =~= old(program)@ + uart0_actions(
            config,
            PINS::wires_tx(),
            PINS::wires_rx(),
        ));
        Serial { uart, pins }
    }
}

/// A string on its way out, byte by byte.
#[derive(Debug)]
pub struct WriteStr {
    bytes: Vec<u8>,
    sent: usize,
}

impl WriteStr {
    #[verifier::type_invariant]
    spec fn in_bounds(self) -> bool {
        self.sent <= self.bytes.len()
    }

    /// The bytes to send.
    pub closed spec fn bytes(&self) -> Seq<u8> {
        self.bytes@
    }

    /// The number of bytes that have been put into the transmit FIFO.
    pub closed spec fn sent(&self) -> nat {
        self.sent as nat
    }

    /// Whether every byte has been put into the transmit FIFO.
    pub fn is_done(&self) -> (done: bool)
        ensures
            done == (self.sent() >= self.bytes().len()),
    {
        self.sent >= self.bytes.len()
    }

    /// Puts the next byte into the transmit FIFO if there is room, and
    /// tells whether every byte has then been put there.
    ///
    /// `fifo_config_1` is what the FIFO status register reads; it is to be
    /// read anew for every call.
    pub fn poll<UART, PINS>(
        &mut self,
        serial: &mut Serial<UART, PINS>,
        fifo_config_1: u32,
        program: &mut Program,
    ) -> (done: bool)
        ensures
            *final(serial) == *old(serial),
            final(self).bytes() == old(self).bytes(),
            old(self).sent() <= old(self).bytes().len(),
            done == (final(self).sent() == final(self).bytes().len()),
            old(self).sent() < old(self).bytes().len() && tx_free(fifo_config_1) != 0 ==> {
                &&& final(self).sent() == old(self).sent() + 1
                &&& final(program)@ == old(program)@.push(
                    Action::Write {
                        addr: UART_FIFO_WDATA,
                        value: old(self).bytes()[old(self).sent() as int] as u32,
                    },
                )
            },
            old(self).sent() == old(self).bytes().len() || tx_free(fifo_config_1) == 0 ==> {
                &&& final(self).sent() == old(self).sent()
                &&& final(program)@ == old(program)@
            },
    {
        proof {
            use_type_invariant(&*self);
        }
        if self.sent < self.bytes.len() {
            let byte: u8 = self.bytes[self.sent];
            match serial.write(fifo_config_1, byte, program) {
                Ok(()) => {
                    self.sent = self.sent + 1;
                },
                Err(_) => {},
            }
        }
        self.sent == self.bytes.len()
    }
}

} // verus!
