//! Analog to digital converter
//!
//! One conversion goes through four stages. Idle: nothing is under way.
//! Configuring: the channel has been selected and the start asked for, and
//! the hardware has yet to acknowledge it. Converting: the conversion runs.
//! Ready: a result waits in the FIFO. Taking the result brings the
//! converter back to idle, with its configuration written anew.

/// Contains types related to ADC configuration
pub mod config;

use crate::bits::applied;
use crate::bits::bit_is_set;
use crate::bits::extract;
use crate::bits::flag;
use crate::bits::lemma_applied_none;
use crate::bits::lemma_last_field_reads_back;
use crate::bits::lemma_low_masks;
use crate::bits::lemma_other_field_unchanged;
use crate::bits::get_bit;
use crate::bits::no_fields;
use crate::bits::with_field;
use crate::bits::with_flag;
use crate::bits::Fields;
use crate::gpio::adc_channel_of;
use crate::gpio::Analog;
use crate::gpio::Pin;
use crate::hw::lemma_register_after_push;
use crate::hw::register_after;
use crate::hw::Action;
use crate::hw::Fetch;
use crate::hw::Program;
use crate::system::glb::CGEN_CFG1;
use crate::system::glb::GPADC_32M_SRC_CTRL;
use config::AdcConfig;
use config::Clock;
use config::ClockSource;
use config::Continuous;
use config::Reference;
use config::Resolution;
use vstd::prelude::*;
use vstd::std_specs::convert::FromSpec;

verus! {

/// Physical base address of the always-on register block.
pub const AON_BASE: u32 = 0x4000_f000;

/// Converter commands: enable, start, input selection.
pub const GPADC_REG_CMD: u32 = AON_BASE + 0x90c;

/// Converter configuration: continuous mode, resolution, clock divider.
pub const GPADC_REG_CONFIG1: u32 = AON_BASE + 0x910;

/// Converter configuration: reference voltage.
pub const GPADC_REG_CONFIG2: u32 = AON_BASE + 0x914;

/// Physical base address of the general purpose analog register block.
pub const GPIP_BASE: u32 = 0x4000_2000;

/// Result FIFO control and status.
pub const GPADC_CONFIG: u32 = GPIP_BASE + 0x00;

/// Exit of the result FIFO.
pub const GPADC_DMA_RDATA: u32 = GPIP_BASE + 0x04;

/// The channel that the negative input is connected to: analog ground.
pub const NEGATIVE_CHANNEL: u32 = 23;

/// Vref internal signal, used for calibration
#[derive(Debug)]
pub struct Vref;

/// Vbat internal signal, used for monitoring the battery (if used)
#[derive(Debug)]
pub struct Vbat;

/// Core temperature internal signal
#[derive(Debug)]
pub struct Temperature;

/// Vssa Analog Ground
#[derive(Debug)]
pub struct Vssa;

/// Something that the converter can sample.
pub trait Channel {
    /// The number of the converter channel.
    spec fn channel_id(&self) -> u8;

    /// Computes [`Self::channel_id`].
    fn channel(&self) -> (id: u8)
        ensures
            id == self.channel_id(),
    ;
}

impl Channel for Pin<Analog> {
    open spec fn channel_id(&self) -> u8 {
        adc_channel_of(self.id())->Some_0
    }

    fn channel(&self) -> (id: u8) {
        Pin::<Analog>::channel(self)
    }
}

impl Channel for Temperature {
    open spec fn channel_id(&self) -> u8 {
        14
    }

    fn channel(&self) -> (id: u8) {
        14
    }
}

impl Channel for Vref {
    open spec fn channel_id(&self) -> u8 {
        16
    }

    fn channel(&self) -> (id: u8) {
        16
    }
}

impl Channel for Vbat {
    open spec fn channel_id(&self) -> u8 {
        18
    }

    fn channel(&self) -> (id: u8) {
        18
    }
}

impl Channel for Vssa {
    open spec fn channel_id(&self) -> u8 {
        23
    }

    fn channel(&self) -> (id: u8) {
        23
    }
}

/// How far a conversion has come.
#[derive(Copy, Clone, PartialEq, Eq, Debug)]
pub enum Stage {
    /// Nothing is under way.
    Idle,
    /// The start has been asked for and not yet acknowledged.
    Configuring,
    /// The conversion runs.
    Converting,
    /// A result waits in the FIFO.
    Ready,
}

/// What switching the converter on appends to a program.
pub open spec fn enable_actions() -> Seq<Action> {
    let on = with_flag(no_fields(), 0, true);
    seq![Action::Modify { addr: GPADC_REG_CMD, mask: on.mask, value: on.value }]
}

/// What switching the converter off appends to a program.
pub open spec fn disable_actions() -> Seq<Action> {
    let off = with_flag(no_fields(), 0, false);
    seq![Action::Modify { addr: GPADC_REG_CMD, mask: off.mask, value: off.value }]
}

/// What asking for, or withdrawing, the start of a conversion appends to a
/// program.
pub open spec fn conv_start_actions(start: bool) -> Seq<Action> {
    let bit = with_flag(no_fields(), 1, start);
    seq![Action::Modify { addr: GPADC_REG_CMD, mask: bit.mask, value: bit.value }]
}

/// What setting the clock divider appends to a program.
pub open spec fn clock_actions(clock: Clock) -> Seq<Action> {
    let div = with_field(no_fields(), 18, 3, u8::from_spec(clock) as u32);
    seq![Action::Modify { addr: GPADC_REG_CONFIG1, mask: div.mask, value: div.value }]
}

/// What selecting the clock source appends to a program: the clock of the
/// analog block is gated off, the source is selected with a divider of
/// one and the divider enabled, and the clock is switched on again.
pub open spec fn clock_source_actions(clock_source: ClockSource) -> Seq<Action> {
    let gate_off = with_flag(no_fields(), 2, false);
    let source = with_flag(
        with_field(with_flag(no_fields(), 7, bool::from_spec(clock_source)), 0, 6, 0),
        8,
        true,
    );
    let gate_on = with_flag(no_fields(), 2, true);
    seq![
        Action::Modify { addr: CGEN_CFG1, mask: gate_off.mask, value: gate_off.value },
        Action::Modify { addr: GPADC_32M_SRC_CTRL, mask: source.mask, value: source.value },
        Action::Modify { addr: CGEN_CFG1, mask: gate_on.mask, value: gate_on.value },
    ]
}

/// What setting the resolution appends to a program.
pub open spec fn resolution_actions(resolution: Resolution) -> Seq<Action> {
    let res = with_field(no_fields(), 2, 3, u8::from_spec(resolution) as u32);
    seq![Action::Modify { addr: GPADC_REG_CONFIG1, mask: res.mask, value: res.value }]
}

/// What switching continuous mode on or off appends to a program.
pub open spec fn continuous_actions(continuous: Continuous) -> Seq<Action> {
    let cont = with_flag(no_fields(), 1, bool::from_spec(continuous));
    seq![Action::Modify { addr: GPADC_REG_CONFIG1, mask: cont.mask, value: cont.value }]
}

/// What selecting the reference voltage appends to a program.
pub open spec fn reference_actions(reference: Reference) -> Seq<Action> {
    let vref = with_flag(no_fields(), 3, bool::from_spec(reference));
    seq![Action::Modify { addr: GPADC_REG_CONFIG2, mask: vref.mask, value: vref.value }]
}

/// What applying a whole configuration appends to a program: clock
/// divider, clock source, resolution, continuous mode, reference voltage,
/// in this order.
pub open spec fn apply_config_actions(config: AdcConfig) -> Seq<Action> {
    clock_actions(config@.clock) + clock_source_actions(config@.clock_source) + resolution_actions(
        config@.resolution,
    ) + continuous_actions(config@.continuous) + reference_actions(config@.reference)
}

/// What clearing the result FIFO appends to a program.
pub open spec fn clear_fifo_actions() -> Seq<Action> {
    let clear = with_flag(no_fields(), 1, true);
    seq![Action::Modify { addr: GPADC_CONFIG, mask: clear.mask, value: clear.value }]
}

/// What clearing the ready flag appends to a program.
pub open spec fn clear_ready_actions() -> Seq<Action> {
    let clear = with_flag(no_fields(), 8, true);
    seq![Action::Modify { addr: GPADC_CONFIG, mask: clear.mask, value: clear.value }]
}

/// What selecting a channel appends to a program: the channel on the
/// positive input, analog ground on the negative input.
pub open spec fn channel_actions(channel: u8) -> Seq<Action> {
    let select = with_flag(
        with_field(with_field(no_fields(), 8, 5, channel as u32), 3, 5, NEGATIVE_CHANNEL),
        13,
        true,
    );
    seq![Action::Modify { addr: GPADC_REG_CMD, mask: select.mask, value: select.value }]
}

/// What asking for a conversion appends to a program: the converter is
/// switched on, a start asked for before is withdrawn, the ready flag is
/// cleared, and the start is asked for.
pub open spec fn start_actions() -> Seq<Action> {
    enable_actions() + conv_start_actions(false) + clear_ready_actions() + conv_start_actions(true)
}

/// What the construction of the driver appends to a program: the converter
/// is switched off, configured, and switched on.
pub open spec fn adc_actions(config: AdcConfig) -> Seq<Action> {
    disable_actions() + apply_config_actions(config) + enable_actions()
}

/// Once the driver is constructed, the converter is switched on and set
/// to the clock divider, the resolution, the mode and the reference
/// voltage of the configuration.
///
/// `cmd_before`, `config1_before` and `config2_before` are what the
/// command register and the two configuration registers hold before,
/// whatever that is.
pub proof fn lemma_construction_leaves_enabled(
    config: AdcConfig,
    cmd_before: u32,
    config1_before: u32,
    config2_before: u32,
)
    ensures
        ({
            let actions = adc_actions(config);
            let cmd = register_after(actions, GPADC_REG_CMD, cmd_before);
            let config1 = register_after(actions, GPADC_REG_CONFIG1, config1_before);
            let config2 = register_after(actions, GPADC_REG_CONFIG2, config2_before);
            &&& enabled(cmd)
            &&& extract(config1, 18, 3) == u8::from_spec(config@.clock)
            &&& extract(config1, 2, 3) == u8::from_spec(config@.resolution)
            &&& continuous_is_on(config1) == bool::from_spec(config@.continuous)
            &&& bit_is_set(config2, 3) == bool::from_spec(config@.reference)
        }),
{
    let c = u8::from_spec(config@.clock) as u32;
    let r = u8::from_spec(config@.resolution) as u32;
    let cont = flag(bool::from_spec(config@.continuous));
    let vref = flag(bool::from_spec(config@.reference));
    let src = clock_source_actions(config@.clock_source);
    let a1 = disable_actions()[0];
    let a2 = clock_actions(config@.clock)[0];
    let a3 = src[0];
    let a4 = src[1];
    let a5 = src[2];
    let a6 = resolution_actions(config@.resolution)[0];
    let a7 = continuous_actions(config@.continuous)[0];
    let a8 = reference_actions(config@.reference)[0];
    let a9 = enable_actions()[0];
    let s0 = Seq::<Action>::empty();
    let s1 = s0.push(a1);
    let s2 = s1.push(a2);
    let s3 = s2.push(a3);
    let s4 = s3.push(a4);
    let s5 = s4.push(a5);
    let s6 = s5.push(a6);
    let s7 = s6.push(a7);
    let s8 = s7.push(a8);
    let s9 = s8.push(a9);
    assert(adc_actions(config) =~= s9);
    lemma_register_after_push(s0, a1, GPADC_REG_CMD, cmd_before);
    lemma_register_after_push(s1, a2, GPADC_REG_CMD, cmd_before);
    lemma_register_after_push(s2, a3, GPADC_REG_CMD, cmd_before);
    lemma_register_after_push(s3, a4, GPADC_REG_CMD, cmd_before);
    lemma_register_after_push(s4, a5, GPADC_REG_CMD, cmd_before);
    lemma_register_after_push(s5, a6, GPADC_REG_CMD, cmd_before);
    lemma_register_after_push(s6, a7, GPADC_REG_CMD, cmd_before);
    lemma_register_after_push(s7, a8, GPADC_REG_CMD, cmd_before);
    lemma_register_after_push(s8, a9, GPADC_REG_CMD, cmd_before);
    lemma_register_after_push(s0, a1, GPADC_REG_CONFIG1, config1_before);
    lemma_register_after_push(s1, a2, GPADC_REG_CONFIG1, config1_before);
    lemma_register_after_push(s2, a3, GPADC_REG_CONFIG1, config1_before);
    lemma_register_after_push(s3, a4, GPADC_REG_CONFIG1, config1_before);
    lemma_register_after_push(s4, a5, GPADC_REG_CONFIG1, config1_before);
    lemma_register_after_push(s5, a6, GPADC_REG_CONFIG1, config1_before);
    lemma_register_after_push(s6, a7, GPADC_REG_CONFIG1, config1_before);
    lemma_register_after_push(s7, a8, GPADC_REG_CONFIG1, config1_before);
    lemma_register_after_push(s8, a9, GPADC_REG_CONFIG1, config1_before);
    lemma_register_after_push(s0, a1, GPADC_REG_CONFIG2, config2_before);
    lemma_register_after_push(s1, a2, GPADC_REG_CONFIG2, config2_before);
    lemma_register_after_push(s2, a3, GPADC_REG_CONFIG2, config2_before);
    lemma_register_after_push(s3, a4, GPADC_REG_CONFIG2, config2_before);
    lemma_register_after_push(s4, a5, GPADC_REG_CONFIG2, config2_before);
    lemma_register_after_push(s5, a6, GPADC_REG_CONFIG2, config2_before);
    lemma_register_after_push(s6, a7, GPADC_REG_CONFIG2, config2_before);
    lemma_register_after_push(s7, a8, GPADC_REG_CONFIG2, config2_before);
    lemma_register_after_push(s8, a9, GPADC_REG_CONFIG2, config2_before);
    lemma_low_masks();
    assert(1u32 & 1 == 1 && 0u32 & 1 == 0) by (bit_vector);
    assert(c & 7 == c) by (bit_vector)
        requires
            c <= 7,
    ;
    assert(r & 7 == r) by (bit_vector)
        requires
            r <= 7,
    ;

    // the command register: switched off, then on
    let off = with_flag(no_fields(), 0, false);
    let on = with_flag(no_fields(), 0, true);
    let cmd_off = applied(off, cmd_before);
    assert(register_after(s9, GPADC_REG_CMD, cmd_before) == applied(on, cmd_off));
    lemma_last_field_reads_back(no_fields(), 0, 1, 1, cmd_off);

    // the first configuration register: divider, resolution, mode
    let div = with_field(no_fields(), 18, 3, c);
    let res = with_field(no_fields(), 2, 3, r);
    let mode = with_flag(no_fields(), 1, bool::from_spec(config@.continuous));
    let w1 = applied(div, config1_before);
    let w2 = applied(res, w1);
    let w3 = applied(mode, w2);
    assert(register_after(s9, GPADC_REG_CONFIG1, config1_before) == w3);
    lemma_last_field_reads_back(no_fields(), 1, 1, cont, w2);
    lemma_other_field_unchanged(no_fields(), 1, 1, cont, w2, 2, 3);
    lemma_applied_none(w2);
    lemma_last_field_reads_back(no_fields(), 2, 3, r, w1);
    lemma_other_field_unchanged(no_fields(), 1, 1, cont, w2, 18, 3);
    lemma_other_field_unchanged(no_fields(), 2, 3, r, w1, 18, 3);
    lemma_applied_none(w1);
    lemma_last_field_reads_back(no_fields(), 18, 3, c, config1_before);

    // the second configuration register: reference
    let reference = with_flag(no_fields(), 3, bool::from_spec(config@.reference));
    assert(register_after(s9, GPADC_REG_CONFIG2, config2_before) == applied(
        reference,
        config2_before,
    ));
    lemma_last_field_reads_back(no_fields(), 3, 1, vref, config2_before);
}

/// Whether the configuration register says that continuous mode is on.
pub open spec fn continuous_is_on(config1: u32) -> bool {
    bit_is_set(config1, 1)
}

/// What beginning a conversion of `channel` appends to a program.
///
/// If continuous mode is on, as `config1` tells, the converter is switched
/// off and continuous mode with it. Then the channel is selected, the
/// converter switched on, the result FIFO and the ready flag cleared, and
/// the conversion asked for.
pub open spec fn convert_actions(config1: u32, channel: u8) -> Seq<Action> {
    (if continuous_is_on(config1) {
        disable_actions() + continuous_actions(Continuous::Single)
    } else {
        Seq::<Action>::empty()
    }) + channel_actions(channel) + enable_actions() + clear_fifo_actions() + clear_ready_actions()
        + start_actions()
}

/// What taking the result appends to a program: the configuration is
/// written anew, and the converter is switched off if it is to be left so.
pub open spec fn complete_actions(config: AdcConfig, disable_after: bool) -> Seq<Action> {
    apply_config_actions(config) + (if disable_after {
        disable_actions()
    } else {
        Seq::<Action>::empty()
    })
}

/// Whether the command register says that the converter is switched on.
pub open spec fn enabled(cmd: u32) -> bool {
    bit_is_set(cmd, 0)
}

/// Whether the command register says that a start is asked for.
pub open spec fn start_requested(cmd: u32) -> bool {
    bit_is_set(cmd, 1)
}

/// Whether the FIFO status says that a result waits.
pub open spec fn fifo_not_empty(gpadc_config: u32) -> bool {
    bit_is_set(gpadc_config, 2)
}

/// Whether there is anything to wait for: a start is asked for, or a
/// result waits already.
pub open spec fn conversion_pending(cmd: u32, gpadc_config: u32) -> bool {
    start_requested(cmd) || fifo_not_empty(gpadc_config)
}

/// The sample that a word from the result FIFO carries at a resolution:
/// its lowest sixteen bits, moved right to the width of the resolution.
pub open spec fn sample_of(rdata: u32, resolution: Resolution) -> u16 {
    ((rdata & 0xffff) as u16) >> (resolution.shift() as u16)
}

/// The voltage in millivolts that a sample stands for, rounded down.
pub open spec fn millivolts_of(sample: u16, vref: u32, max_sample: u32) -> int
    recommends
        max_sample != 0,
{
    (sample as int * vref as int) / (max_sample as int)
}

/// The zero sample is zero volts, and no sample below full scale reaches
/// the reference voltage.
pub proof fn lemma_millivolts_range(resolution: Resolution, reference: Reference)
    ensures
        millivolts_of(0, u32::from_spec(reference), resolution.max_sample()) == 0,
        millivolts_of(
            (resolution.max_sample() - 1) as u16,
            u32::from_spec(reference),
            resolution.max_sample(),
        ) < u32::from_spec(reference),
{
    let vref = u32::from_spec(reference) as int;
    let max = resolution.max_sample() as int;
    lemma_below_full_scale((max - 1) as u16, vref as u32, max as u32);
}

/// A sample below full scale stands for less than the reference voltage,
/// and a higher sample never stands for a lower voltage.
pub proof fn lemma_below_full_scale(sample: u16, vref: u32, max_sample: u32)
    requires
        sample < max_sample,
        vref > 0,
    ensures
        0 <= millivolts_of(sample, vref, max_sample) < vref,
{
    let s = sample as int;
    let v = vref as int;
    let m = max_sample as int;
    assert(s * v < m * v) by (nonlinear_arith)
        requires
            0 <= s < m,
            v > 0,
    ;
    assert((s * v) / m < v) by (nonlinear_arith)
        requires
            s * v < m * v,
            m > 0,
    ;
    assert(0 <= (s * v) / m) by (nonlinear_arith)
        requires
            0 <= s,
            0 < v,
            m > 0,
    ;
}

/// Converts samples to millivolts, for one reference voltage and one
/// resolution.
#[derive(Copy, Clone, Debug)]
pub struct SampleToMillivolts {
    vref: u32,
    max_sample: u32,
}

impl SampleToMillivolts {
    #[verifier::type_invariant]
    spec fn in_range(self) -> bool {
        0 < self.max_sample && self.max_sample % 4096 == 0 && self.vref <= 3200
    }

    /// The reference voltage in millivolts.
    pub closed spec fn vref(&self) -> u32 {
        self.vref
    }

    /// The least number that no sample reaches.
    pub closed spec fn max_sample(&self) -> u32 {
        self.max_sample
    }

    /// Converts a sample value to millivolts.
    pub fn convert(&self, sample: u16) -> (millivolts: u16)
        ensures
            millivolts == millivolts_of(sample, self.vref(), self.max_sample()),
    {
        proof {
            use_type_invariant(self);
        }
        millivolts(sample, self.vref, self.max_sample)
    }
}

/// Computes [`millivolts_of`].
fn millivolts(sample: u16, vref: u32, max_sample: u32) -> (mv: u16)
    requires
        0 < max_sample,
        max_sample % 4096 == 0,
        vref <= 3200,
    ensures
        mv == millivolts_of(sample, vref, max_sample),
{
    let s: u32 = sample as u32;
    assert(s * vref <= 65535 * 3200) by (nonlinear_arith)
        requires
            0 <= s <= 65535,
            0 <= vref <= 3200,
    ;
    let product: u32 = s * vref;
    let quotient: u32 = product / max_sample;
    assert(quotient <= 65535) by (nonlinear_arith)
        requires
            quotient == product / max_sample,
            product <= 65535 * 3200,
            max_sample >= 4096,
    ;
    quotient as u16
}

/// Analog to Digital Converter
#[derive(Debug)]
pub struct Adc<AON> {
    /// Current config of the ADC, kept up to date by the various set methods
    config: AdcConfig,
    /// The adc peripheral
    adc_reg: AON,
    /// How far the conversion under way has come.
    stage: Stage,
    /// Whether the wait for the result has yet to see that there is
    /// something to wait for.
    unchecked: bool,
    /// Whether the converter is to be switched off once the result is taken.
    disable_after: bool,
}

/// What a driver holds, but for its register block.
pub struct AdcState {
    pub config: AdcConfig,
    pub stage: Stage,
    pub unchecked: bool,
    pub disable_after: bool,
}

impl<AON> Adc<AON> {
    /// The register block that the driver owns.
    pub closed spec fn peripheral(&self) -> AON {
        self.adc_reg
    }

    /// What the driver holds, but for its register block.
    pub closed spec fn state(&self) -> AdcState {
        AdcState {
            config: self.config,
            stage: self.stage,
            unchecked: self.unchecked,
            disable_after: self.disable_after,
        }
    }

    /// The configuration.
    pub open spec fn config(&self) -> AdcConfig {
        self.state().config
    }

    /// How far the conversion under way has come.
    pub open spec fn stage(&self) -> Stage {
        self.state().stage
    }

    /// The reference voltage in millivolts: that of the configuration.
    pub open spec fn vref(&self) -> u32 {
        u32::from_spec(self.config()@.reference)
    }

    /// The least number that no sample reaches: that of the configured
    /// resolution.
    pub open spec fn max_sample(&self) -> u32 {
        self.config()@.resolution.max_sample()
    }

    /// Switches the converter off, applies the supplied config and
    /// switches the converter on.
    pub fn adc(adc: AON, config: AdcConfig, program: &mut Program) -> (driver: Adc<AON>)
        ensures
            driver.peripheral() == adc,
            driver.state() == (AdcState {
                config,
                stage: Stage::Idle,
                unchecked: false,
                disable_after: false,
            }),
            final(program)@ == old(program)@ + adc_actions(config),
    {
        let mut s = Self {
            config,
            adc_reg: adc,
            stage: Stage::Idle,
            unchecked: false,
            disable_after: false,
        };
        s.disable(program);
        s.apply_config(config, program);
        s.enable(program);
        assert(program@ =~= old(program)@ + adc_actions(config));
        s
    }

    /// Takes the driver apart: gives back the register block.
    pub fn release(self) -> (adc: AON)
        ensures
            adc == self.peripheral(),
    {
        self.adc_reg
    }

    /// Runs calibration. Trimming against the factory reference is not
    /// implemented: nothing is done.
    pub fn calibrate(&mut self)
        ensures
            *final(self) == *old(self),
    {
    }

    /// Applies all fields in AdcConfig
    pub fn apply_config(&mut self, config: AdcConfig, program: &mut Program)
        ensures
            final(self).peripheral() == old(self).peripheral(),
            final(self).state() == (AdcState { config, ..old(self).state() }),
            final(program)@ == old(program)@ + apply_config_actions(config),
    {
        self.set_clock(config.clock, program);
        self.set_clock_source(config.clock_source, program);
        self.set_resolution(config.resolution, program);
        self.set_continuous(config.continuous, program);
        self.set_reference(config.reference, program);
        assert(program@ =~= old(program)@ + apply_config_actions(config));
        assert(self.config == config);
    }

    /// Returns if the adc is enabled. `cmd` is what the command register
    /// reads.
    pub fn is_enabled(&self, cmd: u32) -> (on: bool)
        ensures
            on == enabled(cmd),
    {
        get_bit(cmd, 0)
    }

    /// Enables the adc
    pub fn enable(&mut self, program: &mut Program)
        ensures
            *final(self) == *old(self),
            final(program)@ == old(program)@ + enable_actions(),
    {
        program.modify_fields(GPADC_REG_CMD, Fields::none().with_bit(0, true));
        assert(program@ =~= old(program)@ + enable_actions());
    }

    /// Disables the adc
    pub fn disable(&mut self, program: &mut Program)
        ensures
            *final(self) == *old(self),
            final(program)@ == old(program)@ + disable_actions(),
    {
        program.modify_fields(GPADC_REG_CMD, Fields::none().with_bit(0, false));
        assert(program@ =~= old(program)@ + disable_actions());
    }

    /// Asks for or withdraws the start of a conversion.
    fn set_conv_start(&mut self, start: bool, program: &mut Program)
        ensures
            *final(self) == *old(self),
            final(program)@ == old(program)@ + conv_start_actions(start),
    {
        program.modify_fields(GPADC_REG_CMD, Fields::none().with_bit(1, start));
        assert(program@ =~= old(program)@ + conv_start_actions(start));
    }

    /// Starts conversion sequence. The hardware has yet to acknowledge the
    /// start: [`Adc::start_acknowledged`] tells when it has.
    pub fn start_conversion(&mut self, program: &mut Program)
        ensures
            final(self).peripheral() == old(self).peripheral(),
            final(self).state() == (AdcState {
                stage: Stage::Configuring,
                unchecked: true,
                ..old(self).state()
            }),
            final(program)@ == old(program)@ + start_actions(),
    {
        self.enable(program);
        //stop previous conversion
        self.set_conv_start(false, program);
        self.clear_end_of_conversion_flag(program);
        //Start conversion
        self.set_conv_start(true, program);
        self.stage = Stage::Configuring;
        self.unchecked = true;
        assert(program@ =~= old(program)@ + start_actions());
    }

    /// Tells whether the hardware has acknowledged the start of the
    /// conversion. `cmd` is what the command register reads. Where the
    /// start is not acknowledged, the call is to be repeated with the
    /// register read anew.
    pub fn start_acknowledged(&mut self, cmd: u32) -> (started: bool)
        ensures
            final(self).peripheral() == old(self).peripheral(),
            started == (old(self).stage() == Stage::Configuring && start_requested(cmd)),
            final(self).state() == (if started {
                AdcState { stage: Stage::Converting, ..old(self).state() }
            } else {
                old(self).state()
            }),
    {
        match self.stage {
            Stage::Configuring => {
                if get_bit(cmd, 1) {
                    self.stage = Stage::Converting;
                    true
                } else {
                    false
                }
            },
            _ => false,
        }
    }

    /// Sets the clock for the adc
    pub fn set_clock(&mut self, clock: Clock, program: &mut Program)
        ensures
            final(self).peripheral() == old(self).peripheral(),
            final(self).state().stage == old(self).state().stage,
            final(self).state().unchecked == old(self).state().unchecked,
            final(self).state().disable_after == old(self).state().disable_after,
            final(self).config()@ == (config::AdcConfigView { clock, ..old(self).config()@ }),
            final(program)@ == old(program)@ + clock_actions(clock),
    {
        self.config.clock = clock;
        let code: u8 = clock.into();
        program.modify_fields(GPADC_REG_CONFIG1, Fields::none().with(18, 3, code as u32));
        assert(program@ =~= old(program)@ + clock_actions(clock));
    }

    /// Sets the clock source for the adc
    pub fn set_clock_source(&mut self, clock_source: ClockSource, program: &mut Program)
        ensures
            final(self).peripheral() == old(self).peripheral(),
            final(self).state().stage == old(self).state().stage,
            final(self).state().unchecked == old(self).state().unchecked,
            final(self).state().disable_after == old(self).state().disable_after,
            final(self).config()@ == (config::AdcConfigView {
                clock_source,
                ..old(self).config()@
            }),
            final(program)@ == old(program)@ + clock_source_actions(clock_source),
    {
        self.config.clock_source = clock_source;
        // disable clock to change settings
        program.modify_fields(CGEN_CFG1, Fields::none().with_bit(2, false));
        program.modify_fields(
            GPADC_32M_SRC_CTRL,
            Fields::none().with_bit(7, clock_source.into()).with(0, 6, 0).with_bit(8, true),
        );
        program.modify_fields(CGEN_CFG1, Fields::none().with_bit(2, true));
        assert(program@ =~= old(program)@ + clock_source_actions(clock_source));
    }

    /// Sets the sampling resolution
    pub fn set_resolution(&mut self, resolution: Resolution, program: &mut Program)
        ensures
            final(self).peripheral() == old(self).peripheral(),
            final(self).state().stage == old(self).state().stage,
            final(self).state().unchecked == old(self).state().unchecked,
            final(self).state().disable_after == old(self).state().disable_after,
            final(self).config()@ == (config::AdcConfigView { resolution, ..old(self).config()@ }),
            final(program)@ == old(program)@ + resolution_actions(resolution),
    {
        self.config.resolution = resolution;
        let code: u8 = resolution.into();
        program.modify_fields(GPADC_REG_CONFIG1, Fields::none().with(2, 3, code as u32));
        assert(program@ =~= old(program)@ + resolution_actions(resolution));
    }

    /// Enables and disables continuous mode
    pub fn set_continuous(&mut self, continuous: Continuous, program: &mut Program)
        ensures
            final(self).peripheral() == old(self).peripheral(),
            final(self).state().stage == old(self).state().stage,
            final(self).state().unchecked == old(self).state().unchecked,
            final(self).state().disable_after == old(self).state().disable_after,
            final(self).config()@ == (config::AdcConfigView { continuous, ..old(self).config()@ }),
            final(program)@ == old(program)@ + continuous_actions(continuous),
    {
        self.config.continuous = continuous;
        program.modify_fields(GPADC_REG_CONFIG1, Fields::none().with_bit(1, continuous.into()));
        assert(program@ =~= old(program)@ + continuous_actions(continuous));
    }

    /// Sets ADC Reference
    pub fn set_reference(&mut self, reference: Reference, program: &mut Program)
        ensures
            final(self).peripheral() == old(self).peripheral(),
            final(self).state().stage == old(self).state().stage,
            final(self).state().unchecked == old(self).state().unchecked,
            final(self).state().disable_after == old(self).state().disable_after,
            final(self).config()@ == (config::AdcConfigView { reference, ..old(self).config()@ }),
            final(program)@ == old(program)@ + reference_actions(reference),
    {
        self.config.reference = reference;
        program.modify_fields(GPADC_REG_CONFIG2, Fields::none().with_bit(3, reference.into()));
        assert(program@ =~= old(program)@ + reference_actions(reference));
    }

    /// Empties the result FIFO
    pub fn clear_fifo(&mut self, program: &mut Program)
        ensures
            *final(self) == *old(self),
            final(program)@ == old(program)@ + clear_fifo_actions(),
    {
        program.modify_fields(GPADC_CONFIG, Fields::none().with_bit(1, true));
        assert(program@ =~= old(program)@ + clear_fifo_actions());
    }

    /// Resets the end-of-conversion flag
    pub fn clear_end_of_conversion_flag(&mut self, program: &mut Program)
        ensures
            *final(self) == *old(self),
            final(program)@ == old(program)@ + clear_ready_actions(),
    {
        program.modify_fields(GPADC_CONFIG, Fields::none().with_bit(8, true));
        assert(program@ =~= old(program)@ + clear_ready_actions());
    }

    /// Configure a channel for sampling.
    pub fn configure_channel<CHANNEL: Channel>(&mut self, channel: &CHANNEL, program: &mut Program)
        ensures
            *final(self) == *old(self),
            final(program)@ == old(program)@ + channel_actions(channel.channel_id()),
    {
        let id: u8 = channel.channel();
        program.modify_fields(
            GPADC_REG_CMD,
            Fields::none().with(8, 5, id as u32).with(3, 5, NEGATIVE_CHANNEL).with_bit(13, true),
        );
        assert(program@ =~= old(program)@ + channel_actions(channel.channel_id()));
    }

    /// Returns the sample that a word from the exit of the result FIFO
    /// carries at the configured resolution.
    pub fn current_sample(&self, rdata: u32) -> (sample: u16)
        ensures
            sample == sample_of(rdata, self.config()@.resolution),
    {
        let raw: u16 = (rdata & 0xffff) as u16;
        let shift: u16 = match self.config.resolution {
            Resolution::Twelve2M => 4,
            Resolution::Fourteen125k => 2,
            Resolution::Fourteen31k25 => 2,
            Resolution::Sixteen15k565 => 0,
            Resolution::Sixteen7k8125 => 0,
        };
        raw >> shift
    }

    /// Tells whether a result waits in the FIFO, and if one does, hands out
    /// the go-ahead to read it. The word read goes to
    /// [`Adc::current_sample`]. `gpadc_config` is what the FIFO status
    /// register reads.
    pub fn try_read(&self, gpadc_config: u32) -> (fetch: Option<Fetch>)
        ensures
            fetch is Some <==> fifo_not_empty(gpadc_config),
            fetch is Some ==> fetch->Some_0.register() == GPADC_DMA_RDATA,
    {
        if get_bit(gpadc_config, 2) {
            Some(Fetch::from_register(GPADC_DMA_RDATA))
        } else {
            None
        }
    }

    /// Converts a sample value to millivolts using the reference voltage
    /// and the configured resolution.
    pub fn sample_to_millivolts(&self, sample: u16) -> (millivolts: u16)
        ensures
            millivolts == millivolts_of(sample, self.vref(), self.max_sample()),
            sample == 0 ==> millivolts == 0,
            sample < self.max_sample() ==> millivolts < self.vref(),
    {
        let vref: u32 = self.config.reference.into();
        let max_sample: u32 = max_sample_for(self.config.resolution);
        proof {
            if sample < max_sample {
                lemma_below_full_scale(sample, vref, max_sample);
            }
        }
        millivolts(sample, vref, max_sample)
    }

    /// Make a converter for samples to millivolts
    pub fn make_sample_to_millivolts(&self) -> (converter: SampleToMillivolts)
        ensures
            converter.vref() == self.vref(),
            converter.max_sample() == self.max_sample(),
    {
        SampleToMillivolts {
            vref: self.config.reference.into(),
            max_sample: max_sample_for(self.config.resolution),
        }
    }

    /// Returns the current configuration.
    pub fn current_config(&self) -> (config: AdcConfig)
        ensures
            config == self.config(),
    {
        self.config
    }

    /// Returns how far the conversion under way has come.
    pub fn current_stage(&self) -> (stage: Stage)
        ensures
            stage == self.stage(),
    {
        self.stage
    }

    /// Returns the least number that no sample reaches at the configured
    /// resolution.
    pub fn sample_limit(&self) -> (limit: u32)
        ensures
            limit == self.max_sample(),
    {
        max_sample_for(self.config.resolution)
    }

    /// Returns the reference voltage in millivolts.
    pub fn reference_voltage(&self) -> (millivolts: u32)
        ensures
            millivolts == self.vref(),
    {
        self.config.reference.into()
    }

    /// Tells whether there is anything to wait for: computes
    /// [`conversion_pending`]. `cmd` is what the command register reads,
    /// `gpadc_config` what the FIFO status register reads.
    pub fn has_pending_conversion(&self, cmd: u32, gpadc_config: u32) -> (pending: bool)
        ensures
            pending == conversion_pending(cmd, gpadc_config),
    {
        get_bit(cmd, 1) || get_bit(gpadc_config, 2)
    }

    /// Tells whether the wait for a result has yet to make sure that there
    /// is something to wait for.
    pub fn awaits_check(&self) -> (unchecked: bool)
        ensures
            unchecked == self.state().unchecked,
    {
        self.unchecked
    }

    /// Tells whether the conversion is completed. Where it is not, the
    /// call is to be repeated with the registers read anew. It is the
    /// second of two waits: a conversion that was asked for must have been
    /// acknowledged first ([`Adc::start_acknowledged`]).
    ///
    /// `cmd` is what the command register reads, `gpadc_config` what the
    /// FIFO status register reads. The first call after a start must find
    /// something to wait for: a start asked for, or a result in the FIFO.
    /// Once a result is there, the start is withdrawn.
    pub fn wait_for_conversion_sequence(
        &mut self,
        cmd: u32,
        gpadc_config: u32,
        program: &mut Program,
    ) -> (ready: bool)
        requires
            old(self).stage() != Stage::Configuring,
            old(self).state().unchecked ==> conversion_pending(cmd, gpadc_config),
        ensures
            final(self).peripheral() == old(self).peripheral(),
            ready == fifo_not_empty(gpadc_config),
            final(self).state() == (AdcState {
                stage: if ready {
                    Stage::Ready
                } else {
                    old(self).stage()
                },
                unchecked: false,
                ..old(self).state()
            }),
            final(program)@ == old(program)@ + (if ready {
                conv_start_actions(false)
            } else {
                Seq::<Action>::empty()
            }),
    {
        self.unchecked = false;
        if get_bit(gpadc_config, 2) {
            //Clear the conversion started flag
            self.set_conv_start(false, program);
            self.stage = Stage::Ready;
            true
        } else {
            assert(program@ =~= old(program)@ + Seq::<Action>::empty());
            false
        }
    }

    /// Begins the conversion of a single sample.
    ///
    /// `config1` is what the first configuration register reads. The
    /// conversion goes on with [`Adc::start_acknowledged`],
    /// [`Adc::wait_for_conversion_sequence`] and [`Adc::complete`].
    pub fn convert<PIN: Channel>(&mut self, pin: &PIN, config1: u32, program: &mut Program)
        ensures
            final(self).peripheral() == old(self).peripheral(),
            final(self).state() == (AdcState {
                stage: Stage::Configuring,
                unchecked: true,
                disable_after: false,
                ..old(self).state()
            }),
            final(program)@ == old(program)@ + convert_actions(config1, pin.channel_id()),
    {
        self.begin(pin, config1, false, program);
    }

    /// Begins a conversion, as [`Adc::convert`] does, and notes whether the
    /// converter is to be switched off at its end.
    fn begin<PIN: Channel>(
        &mut self,
        pin: &PIN,
        config1: u32,
        disable_after: bool,
        program: &mut Program,
    )
        ensures
            final(self).peripheral() == old(self).peripheral(),
            final(self).state() == (AdcState {
                stage: Stage::Configuring,
                unchecked: true,
                disable_after,
                ..old(self).state()
            }),
            final(program)@ == old(program)@ + convert_actions(config1, pin.channel_id()),
    {
        if get_bit(config1, 1) {
            self.disable(program);
            program.modify_fields(GPADC_REG_CONFIG1, Fields::none().with_bit(1, false));
            assert(program@ =~= old(program)@ + disable_actions() + continuous_actions(
                Continuous::Single,
            ));
        } else {
            assert(program@ =~= old(program)@ + Seq::<Action>::empty());
        }
        let ghost prepared = program@;
        self.configure_channel(pin, program);
        self.enable(program);
        self.clear_fifo(program);
        self.clear_end_of_conversion_flag(program);
        self.start_conversion(program);
        self.disable_after = disable_after;
        assert(program@ =~= prepared + channel_actions(pin.channel_id()) + enable_actions()
            + clear_fifo_actions() + clear_ready_actions() + start_actions());
        assert(program@ =~= old(program)@ + convert_actions(config1, pin.channel_id()));
    }

    /// Takes the result of the conversion and writes the configuration
    /// anew, since selecting the channel has changed what the converter
    /// was set to. `rdata` is what the exit of the result FIFO reads. The
    /// result must be there: [`Adc::wait_for_conversion_sequence`] has told
    /// so.
    pub fn complete(&mut self, rdata: u32, program: &mut Program) -> (sample: u16)
        requires
            old(self).stage() == Stage::Ready,
        ensures
            final(self).peripheral() == old(self).peripheral(),
            sample == sample_of(rdata, old(self).config()@.resolution),
            final(self).state() == (AdcState {
                stage: Stage::Idle,
                unchecked: false,
                disable_after: false,
                ..old(self).state()
            }),
            final(program)@ == old(program)@ + complete_actions(
                old(self).config(),
                old(self).state().disable_after,
            ),
    {
        let result: u16 = self.current_sample(rdata);
        //Reset the config
        let config = self.config;
        self.apply_config(config, program);
        if self.disable_after {
            self.disable(program);
        }
        self.stage = Stage::Idle;
        self.unchecked = false;
        self.disable_after = false;
        assert(program@ =~= old(program)@ + complete_actions(
            old(self).config(),
            old(self).state().disable_after,
        ));
        result
    }

    /// Begins the conversion of a single sample, with the converter
    /// switched on for it if it is off, and switched off again at the end.
    ///
    /// `cmd` is what the command register reads, `config1` what the first
    /// configuration register reads.
    pub fn read<PIN: Channel>(
        &mut self,
        pin: &PIN,
        cmd: u32,
        config1: u32,
        program: &mut Program,
    )
        ensures
            final(self).peripheral() == old(self).peripheral(),
            final(self).state() == (AdcState {
                stage: Stage::Configuring,
                unchecked: true,
                disable_after: !enabled(cmd),
                ..old(self).state()
            }),
            final(program)@ == old(program)@ + (if enabled(cmd) {
                Seq::<Action>::empty()
            } else {
                enable_actions()
            }) + convert_actions(config1, pin.channel_id()),
    {
        let enabled = self.is_enabled(cmd);
        if !enabled {
            self.enable(program);
        } else {
            assert(program@ =~= old(program)@ + Seq::<Action>::empty());
        }
        self.begin(pin, config1, !enabled, program);
    }
}

/// Computes [`Resolution::max_sample`].
fn max_sample_for(resolution: Resolution) -> (max: u32)
    ensures
        max == resolution.max_sample(),
{
    match resolution {
        Resolution::Twelve2M => 4096,
        Resolution::Fourteen125k => 16384,
        Resolution::Fourteen31k25 => 16384,
        Resolution::Sixteen15k565 => 65536,
        Resolution::Sixteen7k8125 => 65536,
    }
}

} // verus!
