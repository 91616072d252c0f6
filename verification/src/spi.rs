//! Serial Peripheral Interface
//!
//! The driver is master only and moves one byte at a time, out and in at
//! once. To construct it, use [`Spi::new`]. The pins are a tuple
//! `(miso, mosi, ss, sclk)` of pins in their SPI roles; the slave select
//! may be left out, as `(miso, mosi, sclk)`, to drive it by hand.

use crate::bits::applied;
use crate::bits::bit_is_set;
use crate::bits::flag;
use crate::bits::lemma_last_field_reads_back;
use crate::bits::lemma_low_masks;
use crate::bits::lemma_other_field_unchanged;
use crate::bits::extract;
use crate::bits::get_bit;
use crate::bits::get_field;
use crate::bits::no_fields;
use crate::bits::with_field;
use crate::bits::with_flag;
use crate::bits::Fields;
use crate::clock::Clocks;
use crate::gpio::Pin;
use crate::gpio::SpiMiso;
use crate::gpio::SpiMosi;
use crate::gpio::SpiSclk;
use crate::gpio::SpiSs;
use crate::hw::lemma_register_after_push;
use crate::hw::register_after;
use crate::hw::Action;
use crate::hw::Fetch;
use crate::hw::Program;
use crate::rate::Hertz;
use crate::system::glb::GLB_PARM;
use embedded_hal::spi::Mode;
use embedded_hal::spi::Phase;
use embedded_hal::spi::Polarity;
use vstd::prelude::*;

verus! {

/// Physical base address of the register block.
pub const SPI_BASE: u32 = 0x4000_a200;

/// Mode, frame size, master and slave enable.
pub const SPI_CONFIG: u32 = SPI_BASE + 0x00;

/// Lengths of the start and stop conditions and of the two clock phases.
pub const SPI_PRD_0: u32 = SPI_BASE + 0x10;

/// Length of the interval between frames.
pub const SPI_PRD_1: u32 = SPI_BASE + 0x14;

/// FIFO control and error flags.
pub const SPI_FIFO_CONFIG_0: u32 = SPI_BASE + 0x80;

/// Fill state of the two FIFOs.
pub const SPI_FIFO_CONFIG_1: u32 = SPI_BASE + 0x84;

/// Entry of the transmit FIFO.
pub const SPI_FIFO_WDATA: u32 = SPI_BASE + 0x88;

/// Exit of the receive FIFO.
pub const SPI_FIFO_RDATA: u32 = SPI_BASE + 0x8c;

/// The longest half period of the clock that can be programmed, in cycles
/// of the SPI peripheral clock.
pub const MAX_HALF_PERIOD: u32 = 256;

/// What can go wrong in the FIFOs
#[derive(Debug, Clone, Copy, PartialEq, Eq)]
#[non_exhaustive]
pub enum SpiError {
    /// Rx overflow occurred
    RxOverflow,
    /// Rx underflow occurred
    RxUnderflow,
    /// Tx overflow occurred
    TxOverflow,
    /// Tx underflow occurred
    TxUnderflow,
}

/// The bit format to send the data in
#[derive(Debug, Clone, Copy, PartialEq, Eq)]
pub enum SpiBitFormat {
    /// Least significant bit first
    LsbFirst,
    /// Most significant bit first
    MsbFirst,
}

/// MISO pins
pub trait MisoPin<SPI> {

}

/// MOSI pins
pub trait MosiPin<SPI> {

}

/// SS pins
pub trait SsPin<SPI> {

}

/// SCLK pins
pub trait SclkPin<SPI> {

}

/// Spi pins
pub trait Pins<SPI> {

}

impl<SPI> MosiPin<SPI> for Pin<SpiMosi> {

}

impl<SPI> MisoPin<SPI> for Pin<SpiMiso> {

}

impl<SPI> SsPin<SPI> for Pin<SpiSs> {

}

impl<SPI> SclkPin<SPI> for Pin<SpiSclk> {

}

impl<SPI, MISO, MOSI, SS, SCLK> Pins<SPI> for (MISO, MOSI, SS, SCLK) where
    MISO: MisoPin<SPI>,
    MOSI: MosiPin<SPI>,
    SS: SsPin<SPI>,
    SCLK: SclkPin<SPI>,
 {

}

impl<SPI, MISO, MOSI, SCLK> Pins<SPI> for (MISO, MOSI, SCLK) where
    MISO: MisoPin<SPI>,
    MOSI: MosiPin<SPI>,
    SCLK: SclkPin<SPI>,
 {

}

/// The length of each half of the clock period, in cycles of the SPI
/// peripheral clock, for a clock of `freq` hertz off a peripheral clock of
/// `clk` hertz. Each division rounds down.
pub open spec fn half_period_of(clk: u32, freq: u32) -> int
    recommends
        freq != 0,
{
    (clk as int) / (freq as int) / 2
}

/// Whether a clock of `freq` hertz can be had off a peripheral clock of
/// `clk` hertz: the half period is at least one cycle and no more than
/// [`MAX_HALF_PERIOD`].
pub open spec fn frequency_reachable(clk: u32, freq: u32) -> bool {
    freq != 0 && 1 <= half_period_of(clk, freq) <= MAX_HALF_PERIOD
}

/// Computes [`half_period_of`], where the frequency can be reached.
pub fn half_period(clk: Hertz, freq: Hertz) -> (len: Option<u32>)
    ensures
        len is Some <==> frequency_reachable(clk.0, freq.0),
        len is Some ==> len->Some_0 == half_period_of(clk.0, freq.0),
{
    if freq.0 == 0 {
        return None;
    }
    let len: u32 = clk.0 / freq.0 / 2;
    if len > MAX_HALF_PERIOD || len == 0 {
        None
    } else {
        Some(len)
    }
}

/// A clock faster than half the peripheral clock has a half period of no
/// cycle at all, and cannot be reached.
pub proof fn lemma_too_fast_is_unreachable(clk: u32, freq: u32)
    requires
        freq > clk / 2,
    ensures
        half_period_of(clk, freq) == 0,
        !frequency_reachable(clk, freq),
{
    let c = clk as int;
    let f = freq as int;
    assert(c < 2 * f);
    assert(c / f <= 1) by (nonlinear_arith)
        requires
            0 <= c < 2 * f,
            f > 0,
    ;
    assert(0 <= c / f) by (nonlinear_arith)
        requires
            0 <= c,
            f > 0,
    ;
}

/// The clock periods that are programmed: every length is the half period
/// less one.
pub open spec fn period_fields(len: u32) -> Fields
    recommends
        1 <= len <= MAX_HALF_PERIOD,
{
    let n = (len - 1) as u32;
    with_field(with_field(with_field(with_field(no_fields(), 0, 8, n), 8, 8, n), 16, 8, n), 24, 8, n)
}

/// The configuration that is programmed: clock polarity and phase from the
/// mode, no continuous transfer, frames of eight bits, slave off, master
/// on.
pub open spec fn config_fields(mode: Mode) -> Fields {
    let polarity = with_flag(no_fields(), 4, mode.polarity == Polarity::IdleHigh);
    let phase = with_flag(polarity, 5, mode.phase == Phase::CaptureOnFirstTransition);
    let single = with_flag(phase, 9, false);
    let frame = with_field(single, 2, 2, 0);
    with_flag(with_flag(frame, 1, false), 0, true)
}

/// What [`Spi::new`] appends to a program: the SPI is made a master in the
/// global register block, the clock periods are set, and the configuration
/// is set.
pub open spec fn new_actions(mode: Mode, len: u32) -> Seq<Action>
    recommends
        1 <= len <= MAX_HALF_PERIOD,
{
    let master = with_flag(no_fields(), 12, true);
    let periods = period_fields(len);
    let interval = with_field(no_fields(), 0, 8, (len - 1) as u32);
    let config = config_fields(mode);
    seq![
        Action::Modify { addr: GLB_PARM, mask: master.mask, value: master.value },
        Action::Modify { addr: SPI_PRD_0, mask: periods.mask, value: periods.value },
        Action::Modify { addr: SPI_PRD_1, mask: interval.mask, value: interval.value },
        Action::Modify { addr: SPI_CONFIG, mask: config.mask, value: config.value },
    ]
}

/// Once the driver is constructed, the SPI is a master and no slave, moves
/// frames of eight bits one at a time, idles and samples as the mode says,
/// and each half of its clock period is as long as the frequency asks for.
///
/// `config_before` and `periods_before` are what the configuration
/// register and the period register hold before, whatever that is.
pub proof fn lemma_new_makes_a_master(
    mode: Mode,
    len: u32,
    config_before: u32,
    periods_before: u32,
)
    requires
        1 <= len <= MAX_HALF_PERIOD,
    ensures
        ({
            let actions = new_actions(mode, len);
            let config = register_after(actions, SPI_CONFIG, config_before);
            let periods = register_after(actions, SPI_PRD_0, periods_before);
            &&& bit_is_set(config, 0)
            &&& !bit_is_set(config, 1)
            &&& extract(config, 2, 2) == 0
            &&& bit_is_set(config, 4) == (mode.polarity == Polarity::IdleHigh)
            &&& bit_is_set(config, 5) == (mode.phase == Phase::CaptureOnFirstTransition)
            &&& !bit_is_set(config, 9)
            &&& extract(periods, 0, 8) == len - 1
            &&& extract(periods, 8, 8) == len - 1
            &&& extract(periods, 16, 8) == len - 1
            &&& extract(periods, 24, 8) == len - 1
        }),
{
    let n = (len - 1) as u32;
    let master = with_flag(no_fields(), 12, true);
    let periods = period_fields(len);
    let interval = with_field(no_fields(), 0, 8, n);
    let config = config_fields(mode);
    let a1 = Action::Modify { addr: GLB_PARM, mask: master.mask, value: master.value };
    let a2 = Action::Modify { addr: SPI_PRD_0, mask: periods.mask, value: periods.value };
    let a3 = Action::Modify { addr: SPI_PRD_1, mask: interval.mask, value: interval.value };
    let a4 = Action::Modify { addr: SPI_CONFIG, mask: config.mask, value: config.value };
    let s0 = Seq::<Action>::empty();
    let s1 = s0.push(a1);
    let s2 = s1.push(a2);
    let s3 = s2.push(a3);
    let s4 = s3.push(a4);
    assert(new_actions(mode, len) =~= s4);
    lemma_register_after_push(s0, a1, SPI_CONFIG, config_before);
    lemma_register_after_push(s1, a2, SPI_CONFIG, config_before);
    lemma_register_after_push(s2, a3, SPI_CONFIG, config_before);
    lemma_register_after_push(s3, a4, SPI_CONFIG, config_before);
    lemma_register_after_push(s0, a1, SPI_PRD_0, periods_before);
    lemma_register_after_push(s1, a2, SPI_PRD_0, periods_before);
    lemma_register_after_push(s2, a3, SPI_PRD_0, periods_before);
    lemma_register_after_push(s3, a4, SPI_PRD_0, periods_before);
    lemma_low_masks();
    assert(1u32 & 1 == 1 && 0u32 & 1 == 0 && 0u32 & 3 == 0) by (bit_vector);
    assert(n & 255 == n) by (bit_vector)
        requires
            n <= 255,
    ;

    // the periods
    let p1 = with_field(no_fields(), 0, 8, n);
    let p2 = with_field(p1, 8, 8, n);
    let p3 = with_field(p2, 16, 8, n);
    let p4 = with_field(p3, 24, 8, n);
    assert(p4 == periods);
    let before = periods_before;
    assert(register_after(s4, SPI_PRD_0, before) == applied(p4, before));
    lemma_last_field_reads_back(p3, 24, 8, n, before);
    lemma_other_field_unchanged(p3, 24, 8, n, before, 16, 8);
    lemma_last_field_reads_back(p2, 16, 8, n, before);
    lemma_other_field_unchanged(p3, 24, 8, n, before, 8, 8);
    lemma_other_field_unchanged(p2, 16, 8, n, before, 8, 8);
    lemma_last_field_reads_back(p1, 8, 8, n, before);
    lemma_other_field_unchanged(p3, 24, 8, n, before, 0, 8);
    lemma_other_field_unchanged(p2, 16, 8, n, before, 0, 8);
    lemma_other_field_unchanged(p1, 8, 8, n, before, 0, 8);
    lemma_last_field_reads_back(no_fields(), 0, 8, n, before);

    // the configuration
    let pol = flag(mode.polarity == Polarity::IdleHigh);
    let ph = flag(mode.phase == Phase::CaptureOnFirstTransition);
    let c1 = with_flag(no_fields(), 4, mode.polarity == Polarity::IdleHigh);
    let c2 = with_flag(c1, 5, mode.phase == Phase::CaptureOnFirstTransition);
    let c3 = with_flag(c2, 9, false);
    let c4 = with_field(c3, 2, 2, 0);
    let c5 = with_flag(c4, 1, false);
    let c6 = with_flag(c5, 0, true);
    assert(c6 == config);
    let before = config_before;
    assert(register_after(s4, SPI_CONFIG, before) == applied(c6, before));
    lemma_last_field_reads_back(c5, 0, 1, 1, before);
    lemma_other_field_unchanged(c5, 0, 1, 1, before, 1, 1);
    lemma_last_field_reads_back(c4, 1, 1, 0, before);
    lemma_other_field_unchanged(c5, 0, 1, 1, before, 2, 2);
    lemma_other_field_unchanged(c4, 1, 1, 0, before, 2, 2);
    lemma_last_field_reads_back(c3, 2, 2, 0, before);
    lemma_other_field_unchanged(c5, 0, 1, 1, before, 9, 1);
    lemma_other_field_unchanged(c4, 1, 1, 0, before, 9, 1);
    lemma_other_field_unchanged(c3, 2, 2, 0, before, 9, 1);
    lemma_last_field_reads_back(c2, 9, 1, 0, before);
    lemma_other_field_unchanged(c5, 0, 1, 1, before, 5, 1);
    lemma_other_field_unchanged(c4, 1, 1, 0, before, 5, 1);
    lemma_other_field_unchanged(c3, 2, 2, 0, before, 5, 1);
    lemma_other_field_unchanged(c2, 9, 1, 0, before, 5, 1);
    lemma_last_field_reads_back(c1, 5, 1, ph, before);
    lemma_other_field_unchanged(c5, 0, 1, 1, before, 4, 1);
    lemma_other_field_unchanged(c4, 1, 1, 0, before, 4, 1);
    lemma_other_field_unchanged(c3, 2, 2, 0, before, 4, 1);
    lemma_other_field_unchanged(c2, 9, 1, 0, before, 4, 1);
    lemma_other_field_unchanged(c1, 5, 1, ph, before, 4, 1);
    lemma_last_field_reads_back(no_fields(), 4, 1, pol, before);
}

/// What [`Spi::bit_format`] appends to a program.
pub open spec fn bit_format_actions(format: SpiBitFormat) -> Seq<Action> {
    let inverse = with_flag(no_fields(), 6, format == SpiBitFormat::LsbFirst);
    seq![Action::Modify { addr: SPI_CONFIG, mask: inverse.mask, value: inverse.value }]
}

/// What [`Spi::clear_fifo`] appends to a program.
pub open spec fn clear_fifo_actions() -> Seq<Action> {
    let clear = with_flag(with_flag(no_fields(), 3, true), 2, true);
    seq![Action::Write { addr: SPI_FIFO_CONFIG_0, value: clear.value }]
}

/// The number of free places in the transmit FIFO, as the FIFO status word
/// tells it.
pub open spec fn tx_free(fifo_config_1: u32) -> u32 {
    extract(fifo_config_1, 0, 3)
}

/// The number of bytes waiting in the receive FIFO, as the FIFO status word
/// tells it.
pub open spec fn rx_pending(fifo_config_1: u32) -> u32 {
    extract(fifo_config_1, 8, 3)
}

/// What a read is to come to, given what the two FIFO registers read: an
/// error if the receive FIFO has overflowed or underflowed, else a retry if
/// nothing is waiting. `None` if a byte can be taken.
pub open spec fn read_refusal(fifo_config_0: u32, fifo_config_1: u32) -> Option<
    nb::Error<SpiError>,
> {
    if bit_is_set(fifo_config_0, 6) {
        Some(nb::Error::Other(SpiError::RxOverflow))
    } else if bit_is_set(fifo_config_0, 7) {
        Some(nb::Error::Other(SpiError::RxUnderflow))
    } else if rx_pending(fifo_config_1) == 0 {
        Some(nb::Error::WouldBlock)
    } else {
        None
    }
}

/// What a write is to come to, given what the two FIFO registers read: an
/// error if the transmit FIFO has overflowed or underflowed, else a retry
/// if it is full. `None` if the byte can be put in.
pub open spec fn write_refusal(fifo_config_0: u32, fifo_config_1: u32) -> Option<
    nb::Error<SpiError>,
> {
    if bit_is_set(fifo_config_0, 4) {
        Some(nb::Error::Other(SpiError::TxOverflow))
    } else if bit_is_set(fifo_config_0, 5) {
        Some(nb::Error::Other(SpiError::TxUnderflow))
    } else if tx_free(fifo_config_1) == 0 {
        Some(nb::Error::WouldBlock)
    } else {
        None
    }
}

/// A Serial Peripheral Interface
#[derive(Debug)]
pub struct Spi<SPI, PINS> {
    spi: SPI,
    pins: PINS,
}

impl<SPI, PINS> Spi<SPI, PINS> where PINS: Pins<SPI> {
    /// The register block that the driver owns.
    pub closed spec fn peripheral(&self) -> SPI {
        self.spi
    }

    /// The pins that the driver owns.
    pub closed spec fn pin_set(&self) -> PINS {
        self.pins
    }

    /// Constructs an SPI instance in 8bit dataframe mode.
    ///
    /// The frequency cannot be more than half of the SPI clock frequency,
    /// and not so low that the half period exceeds [`MAX_HALF_PERIOD`]
    /// cycles; [`half_period`] tells.
    pub fn new(
        spi: SPI,
        pins: PINS,
        mode: Mode,
        freq: Hertz,
        clocks: Clocks,
        program: &mut Program,
    ) -> (driver: Self)
        requires
            frequency_reachable(clocks.spi_clk_hz(), freq.0),
        ensures
            driver.peripheral() == spi,
            driver.pin_set() == pins,
            final(program)@ == old(program)@ + new_actions(
                mode,
                half_period_of(clocks.spi_clk_hz(), freq.0) as u32,
            ),
    {
        program.modify_fields(GLB_PARM, Fields::none().with_bit(12, true));

        // length of phase 0 and 1 (i.e. low / high values of SCLK)
        // needs to be divided by two
        let len: u32 = clocks.spi_clk().0 / freq.0 / 2;
        let len: u32 = len - 1;
        program.modify_fields(
            SPI_PRD_0,
            Fields::none().with(0, 8, len).with(8, 8, len).with(16, 8, len).with(24, 8, len),
        );
        program.modify_fields(SPI_PRD_1, Fields::none().with(0, 8, len));

        let idle_high = match mode.polarity {
            Polarity::IdleLow => false,
            Polarity::IdleHigh => true,
        };
        let first_transition = match mode.phase {
            Phase::CaptureOnFirstTransition => true,
            Phase::CaptureOnSecondTransition => false,
        };
        program.modify_fields(
            SPI_CONFIG,
            Fields::none().with_bit(4, idle_high).with_bit(5, first_transition).with_bit(
                9,
                false,
            )  // disable cont mode
            .with(2, 2, 0)  // 8 bit frames
            .with_bit(1, false)  // not slave
            .with_bit(0, true),  // master
        );
        assert(program@ =~= old(program)@ + new_actions(
            mode,
            half_period_of(clocks.spi_clk_hz(), freq.0) as u32,
        ));
        Spi { spi, pins }
    }

    /// Takes the driver apart into its register block and its pins.
    pub fn release(self) -> (parts: (SPI, PINS))
        ensures
            parts.0 == self.peripheral(),
            parts.1 == self.pin_set(),
    {
        (self.spi, self.pins)
    }

    /// Select which frame format is used for data transfers
    pub fn bit_format(&mut self, format: SpiBitFormat, program: &mut Program)
        ensures
            *final(self) == *old(self),
            final(program)@ == old(program)@ + bit_format_actions(format),
    {
        let inverse = match format {
            SpiBitFormat::LsbFirst => true,
            SpiBitFormat::MsbFirst => false,
        };
        program.modify_fields(SPI_CONFIG, Fields::none().with_bit(6, inverse));
        assert(program@ =~= old(program)@ + bit_format_actions(format));
    }

    /// Clear FIFOs
    pub fn clear_fifo(&mut self, program: &mut Program)
        ensures
            *final(self) == *old(self),
            final(program)@ == old(program)@ + clear_fifo_actions(),
    {
        program.write_fields(SPI_FIFO_CONFIG_0, Fields::none().with_bit(3, true).with_bit(2, true));
        assert(program@ =~= old(program)@ + clear_fifo_actions());
    }

    /// Tells whether a byte can be taken out of the receive FIFO. If one
    /// can, the exit of the FIFO is to be read and the word handed to
    /// [`Fetch::complete`].
    ///
    /// `fifo_config_0` and `fifo_config_1` are what the two FIFO registers
    /// read.
    pub fn read(&mut self, fifo_config_0: u32, fifo_config_1: u32) -> (r: Result<
        Fetch,
        nb::Error<SpiError>,
    >)
        ensures
            *final(self) == *old(self),
            match read_refusal(fifo_config_0, fifo_config_1) {
                Some(refusal) => r == Err::<Fetch, nb::Error<SpiError>>(refusal),
                None => r is Ok && r->Ok_0.register() == SPI_FIFO_RDATA,
            },
    {
        if get_bit(fifo_config_0, 6) {
            Err(nb::Error::Other(SpiError::RxOverflow))
        } else if get_bit(fifo_config_0, 7) {
            Err(nb::Error::Other(SpiError::RxUnderflow))
        } else if get_field(fifo_config_1, 8, 3) == 0 {
            Err(nb::Error::WouldBlock)
        } else {
            Ok(Fetch::from_register(SPI_FIFO_RDATA))
        }
    }

    /// Puts one byte into the transmit FIFO, if it can be put there.
    ///
    /// `fifo_config_0` and `fifo_config_1` are what the two FIFO registers
    /// read.
    pub fn write(
        &mut self,
        fifo_config_0: u32,
        fifo_config_1: u32,
        data: u8,
        program: &mut Program,
    ) -> (r: Result<(), nb::Error<SpiError>>)
        ensures
            *final(self) == *old(self),
            match write_refusal(fifo_config_0, fifo_config_1) {
                Some(refusal) => r == Err::<(), nb::Error<SpiError>>(refusal) && final(program)@
                    == old(program)@,
                None => r == Ok::<(), nb::Error<SpiError>>(()) && final(program)@ == old(
                    program,
                )@.push(Action::Write { addr: SPI_FIFO_WDATA, value: data as u32 }),
            },
    {
        if get_bit(fifo_config_0, 4) {
            Err(nb::Error::Other(SpiError::TxOverflow))
        } else if get_bit(fifo_config_0, 5) {
            Err(nb::Error::Other(SpiError::TxUnderflow))
        } else if get_field(fifo_config_1, 0, 3) == 0 {
            Err(nb::Error::WouldBlock)
        } else {
            program.write(SPI_FIFO_WDATA, data as u32);
            Ok(())
        }
    }

    /// Puts one byte into the transmit FIFO, as [`Spi::write`] does.
    pub fn send(
        &mut self,
        fifo_config_0: u32,
        fifo_config_1: u32,
        data: u8,
        program: &mut Program,
    ) -> (r: Result<(), nb::Error<SpiError>>)
        ensures
            *final(self) == *old(self),
            match write_refusal(fifo_config_0, fifo_config_1) {
                Some(refusal) => r == Err::<(), nb::Error<SpiError>>(refusal) && final(program)@
                    == old(program)@,
                None => r == Ok::<(), nb::Error<SpiError>>(()) && final(program)@ == old(
                    program,
                )@.push(Action::Write { addr: SPI_FIFO_WDATA, value: data as u32 }),
            },
    {
        self.write(fifo_config_0, fifo_config_1, data, program)
    }

    /// Starts to send the words and to put what comes back in their place.
    pub fn transfer(&mut self, words: Vec<u8>) -> (job: Transfer)
        ensures
            *final(self) == *old(self),
            job@ == start(words@, true),
    {
        Transfer { words, index: 0, turn: Turn::Write, keep: true, fault: None }
    }

    /// Starts to send the words and to drop what comes back.
    pub fn write_iter(&mut self, words: Vec<u8>) -> (job: Transfer)
        ensures
            *final(self) == *old(self),
            job@ == start(words@, false),
    {
        Transfer { words, index: 0, turn: Turn::Write, keep: false, fault: None }
    }
}

/// Whose turn it is in a transfer.
#[derive(Debug, Clone, Copy, PartialEq, Eq)]
pub enum Turn {
    /// The next byte is to be written.
    Write,
    /// The byte that came back for the last one written is to be read.
    Read,
}

/// What a transfer asks for next.
#[derive(Debug, Clone, Copy, PartialEq, Eq)]
pub enum Request {
    /// Try to write this byte ([`Spi::write`]) and tell how it went
    /// ([`Transfer::wrote`]).
    Write(u8),
    /// Try to read a byte ([`Spi::read`]) and tell how it went
    /// ([`Transfer::received`]).
    Read,
    /// Nothing: the transfer is over ([`Transfer::finish`]).
    Done,
}

/// What a transfer is told.
#[derive(Debug)]
pub enum Reply {
    /// How a write went.
    Wrote(Result<(), nb::Error<SpiError>>),
    /// How a read went, and the byte that was read if it went well.
    Received(Result<u8, nb::Error<SpiError>>),
}

/// Where a transfer stands.
pub struct TransferState {
    /// The words: those received so far in place of those sent, if the
    /// transfer keeps what it receives, then those still to send.
    pub words: Seq<u8>,
    /// The number of words that have been sent and answered.
    pub index: nat,
    /// Whose turn it is.
    pub turn: Turn,
    /// Whether what is received is kept.
    pub keep: bool,
    /// The error that ended the transfer, if one did.
    pub fault: Option<SpiError>,
}

/// The state in which a transfer of `words` starts.
pub open spec fn start(words: Seq<u8>, keep: bool) -> TransferState {
    TransferState { words, index: 0, turn: Turn::Write, keep, fault: None }
}

/// What a transfer in state `s` asks for.
pub open spec fn request_of(s: TransferState) -> Request {
    if s.fault is Some || s.index >= s.words.len() {
        Request::Done
    } else if s.turn == Turn::Write {
        Request::Write(s.words[s.index as int])
    } else {
        Request::Read
    }
}

/// The state after a reply. A reply that does not answer what was asked
/// for changes nothing; neither does one that says to try again. An error
/// ends the transfer. A write that went well gives the turn to the read; a
/// read that went well puts the byte in its place, if it is kept, and
/// moves on to the next word.
pub open spec fn react(s: TransferState, reply: Reply) -> TransferState {
    match (request_of(s), reply) {
        (Request::Write(_), Reply::Wrote(Ok(_))) => TransferState { turn: Turn::Read, ..s },
        (Request::Write(_), Reply::Wrote(Err(nb::Error::Other(e)))) => TransferState {
            fault: Some(e),
            ..s
        },
        (Request::Read, Reply::Received(Ok(byte))) => TransferState {
            words: if s.keep {
                s.words.update(s.index as int, byte)
            } else {
                s.words
            },
            index: s.index + 1,
            turn: Turn::Write,
            ..s
        },
        (Request::Read, Reply::Received(Err(nb::Error::Other(e)))) => TransferState {
            fault: Some(e),
            ..s
        },
        _ => s,
    }
}

/// The state after a run of replies.
pub open spec fn run(s: TransferState, replies: Seq<Reply>) -> TransferState
    decreases replies.len(),
{
    if replies.len() == 0 {
        s
    } else {
        react(run(s, replies.drop_last()), replies.last())
    }
}

/// The bytes that were written in the course of a run of replies, in
/// order: one for each reply that tells of a write gone well when a write
/// was asked for.
pub open spec fn written(s: TransferState, replies: Seq<Reply>) -> Seq<u8>
    decreases replies.len(),
{
    if replies.len() == 0 {
        Seq::<u8>::empty()
    } else {
        let before = run(s, replies.drop_last());
        let so_far = written(s, replies.drop_last());
        match (request_of(before), replies.last()) {
            (Request::Write(byte), Reply::Wrote(Ok(_))) => so_far.push(byte),
            _ => so_far,
        }
    }
}

/// The bytes that were read in the course of a run of replies, in order:
/// one for each reply that tells of a read gone well when a read was asked
/// for.
pub open spec fn read_back(s: TransferState, replies: Seq<Reply>) -> Seq<u8>
    decreases replies.len(),
{
    if replies.len() == 0 {
        Seq::<u8>::empty()
    } else {
        let before = run(s, replies.drop_last());
        let so_far = read_back(s, replies.drop_last());
        match (request_of(before), replies.last()) {
            (Request::Read, Reply::Received(Ok(byte))) => so_far.push(byte),
            _ => so_far,
        }
    }
}

/// Writes and reads of a transfer alternate, one read for each write, and
/// what is read takes the place of what was written, if it is kept.
///
/// Whatever the replies, at every moment of a transfer of `words`, be it
/// one that keeps what it receives or one that drops it:
/// the bytes written are the first of `words`, in order; there are as many
/// reads as writes, or one less while the answer to the last write is
/// still out; the words held are the bytes read, each at the place of the
/// word it answers, followed by the words not yet answered, where what is
/// received is kept, and the words as they were where it is dropped. This
/// holds of a transfer that an error has ended as of any other. A transfer
/// that has come to its end without an error has written every word and
/// read as many bytes, and holds exactly the bytes read if it keeps them.
pub proof fn lemma_transfer_alternates(words: Seq<u8>, keep: bool, replies: Seq<Reply>)
    ensures
        ({
            let s = run(start(words, keep), replies);
            let out = written(start(words, keep), replies);
            let back = read_back(start(words, keep), replies);
            &&& s.keep == keep
            &&& s.words.len() == words.len()
            &&& s.index == back.len()
            &&& s.index <= words.len()
            &&& out.len() == back.len() + (if s.turn == Turn::Read {
                1nat
            } else {
                0nat
            })
            &&& out.len() <= words.len()
            &&& out == words.subrange(0, out.len() as int)
            &&& s.words == (if keep {
                back + words.subrange(back.len() as int, words.len() as int)
            } else {
                words
            })
            &&& (request_of(s) == Request::Done && s.fault is None ==> out == words && back.len()
                == words.len() && (keep ==> s.words == back))
        }),
    decreases replies.len(),
{
    let s0 = start(words, keep);
    if replies.len() == 0 {
        assert(words.subrange(0, 0) =~= Seq::<u8>::empty());
        assert(Seq::<u8>::empty() + words.subrange(0, words.len() as int) =~= words);
        if words.len() == 0 {
            assert(words =~= Seq::<u8>::empty());
        }
    } else {
        let prefix = replies.drop_last();
        lemma_transfer_alternates(words, keep, prefix);
        let before = run(s0, prefix);
        let out0 = written(s0, prefix);
        let back0 = read_back(s0, prefix);
        let s = run(s0, replies);
        let out = written(s0, replies);
        let back = read_back(s0, replies);
        let n = words.len() as int;
        match (request_of(before), replies.last()) {
            (Request::Write(byte), Reply::Wrote(Ok(_))) => {
                assert(before.words[before.index as int] == words[before.index as int]);
                assert(out =~= words.subrange(0, out.len() as int));
            },
            (Request::Read, Reply::Received(Ok(byte))) => {
                let i = before.index as int;
                let rest = words.subrange(back.len() as int, n);
                assert(back == back0.push(byte));
                if keep {
                    assert(s.words == before.words.update(i, byte));
                    assert(before.words == back0 + words.subrange(i, n));
                    assert forall|k: int| 0 <= k < n implies s.words[k] == (back + rest)[k] by {
                        if k < i {
                            assert(before.words[k] == back0[k]);
                        } else if k > i {
                            assert(before.words[k] == words.subrange(i, n)[k - i]);
                        }
                    }
                    assert(s.words =~= back + rest);
                }
            },
            _ => {},
        }
        if request_of(s) == Request::Done && s.fault is None {
            assert(s.index == words.len());
            assert(s.turn == Turn::Write) by {
                if s.turn == Turn::Read {
                    assert(out.len() == words.len() + 1);
                }
            }
            assert(out =~= words);
            if keep {
                assert(s.words =~= back);
            }
        }
    }
}

/// A transfer that an error has ended asks for nothing more.
pub proof fn lemma_fault_ends_transfer(s: TransferState, reply: Reply)
    requires
        s.fault is Some,
    ensures
        request_of(s) == Request::Done,
        react(s, reply) == s,
{
}

/// A transfer under way: the words, and how far it has come.
#[derive(Debug)]
pub struct Transfer {
    words: Vec<u8>,
    index: usize,
    turn: Turn,
    keep: bool,
    fault: Option<SpiError>,
}

impl View for Transfer {
    type V = TransferState;

    closed spec fn view(&self) -> TransferState {
        TransferState {
            words: self.words@,
            index: self.index as nat,
            turn: self.turn,
            keep: self.keep,
            fault: self.fault,
        }
    }
}

impl Transfer {
    /// What is to be done next: computes [`request_of`].
    pub fn request(&self) -> (request: Request)
        ensures
            request == request_of(self@),
    {
        if self.fault.is_some() || self.index >= self.words.len() {
            Request::Done
        } else {
            match self.turn {
                Turn::Write => Request::Write(self.words[self.index]),
                Turn::Read => Request::Read,
            }
        }
    }

    /// Takes note of how a write went: computes [`react`].
    pub fn wrote(&mut self, outcome: Result<(), nb::Error<SpiError>>)
        ensures
            final(self)@ == react(old(self)@, Reply::Wrote(outcome)),
    {
        match self.request() {
            Request::Write(_) => {
                match outcome {
                    Ok(_) => {
                        self.turn = Turn::Read;
                    },
                    Err(nb::Error::Other(e)) => {
                        self.fault = Some(e);
                    },
                    Err(nb::Error::WouldBlock) => {},
                }
            },
            _ => {},
        }
    }

    /// Takes note of how a read went: computes [`react`].
    pub fn received(&mut self, outcome: Result<u8, nb::Error<SpiError>>)
        ensures
            final(self)@ == react(old(self)@, Reply::Received(outcome)),
    {
        match self.request() {
            Request::Read => {
                match outcome {
                    Ok(byte) => {
                        assert(self.index < self.words.len());
                        if self.keep {
                            self.words.set(self.index, byte);
                        }
                        self.index = self.index + 1;
                        self.turn = Turn::Write;
                    },
                    Err(nb::Error::Other(e)) => {
                        self.fault = Some(e);
                    },
                    Err(nb::Error::WouldBlock) => {},
                }
            },
            _ => {},
        }
    }

    /// The words as they stand: the bytes received so far in place of the
    /// words they answer, if the transfer keeps what it receives, then the
    /// words not yet answered. They stand so too when an error has ended
    /// the transfer.
    pub fn words(&self) -> (words: &Vec<u8>)
        ensures
            words@ == self@.words,
    {
        &self.words
    }

    /// The number of words that have been sent and answered.
    pub fn answered(&self) -> (n: usize)
        ensures
            n == self@.index,
    {
        self.index
    }

    /// The error that ended the transfer, if one did.
    pub fn fault(&self) -> (fault: Option<SpiError>)
        ensures
            fault == self@.fault,
    {
        self.fault
    }

    /// Ends the transfer: the words as they stand, or the error that ended
    /// it. (What the words were when an error ended it, [`Transfer::words`]
    /// tells before.)
    pub fn finish(self) -> (r: Result<Vec<u8>, SpiError>)
        ensures
            match self@.fault {
                Some(e) => r == Err::<Vec<u8>, SpiError>(e),
                None => r is Ok && r->Ok_0@ == self@.words,
            },
    {
        match self.fault {
            Some(e) => Err(e),
            None => Ok(self.words),
        }
    }
}

} // verus!
