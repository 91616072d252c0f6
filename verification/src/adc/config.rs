//! Contains types related to ADC configuration

use vstd::prelude::*;
use vstd::std_specs::convert::FromSpecImpl;

verus! {

/// Clock config for the ADC
/// Check the datasheet for the maximum speed the ADC supports
#[derive(Copy, Clone, PartialEq, Eq, Debug)]
pub enum Clock {
    /// CLK divided by 1
    Div1,
    /// CLK divided by 4
    Div4,
    /// CLK divided by 8
    Div8,
    /// CLK divided by 12
    Div12,
    /// CLK divided by 16
    Div16,
    /// CLK divided by 20
    Div20,
    /// CLK divided by 24
    Div24,
    /// CLK divided by 32
    Div32,
}

impl From<Clock> for u8 {
    fn from(c: Clock) -> (code: u8) {
        match c {
            Clock::Div1 => 0,
            Clock::Div4 => 1,
            Clock::Div8 => 2,
            Clock::Div12 => 3,
            Clock::Div16 => 4,
            Clock::Div20 => 5,
            Clock::Div24 => 6,
            Clock::Div32 => 7,
        }
    }
}

impl FromSpecImpl<Clock> for u8 {
    open spec fn obeys_from_spec() -> bool {
        true
    }

    /// The number that selects the divider in the clock divider field.
    open spec fn from_spec(c: Clock) -> u8 {
        match c {
            Clock::Div1 => 0,
            Clock::Div4 => 1,
            Clock::Div8 => 2,
            Clock::Div12 => 3,
            Clock::Div16 => 4,
            Clock::Div20 => 5,
            Clock::Div24 => 6,
            Clock::Div32 => 7,
        }
    }
}

/// Clock source of the ADC
#[derive(Copy, Clone, PartialEq, Eq, Debug)]
pub enum ClockSource {
    /// Audio PLL
    AudioPLL,
    /// XCLK 32MHz
    XClk,
}

impl From<ClockSource> for bool {
    fn from(c: ClockSource) -> (bit: bool) {
        match c {
            ClockSource::AudioPLL => false,
            ClockSource::XClk => true,
        }
    }
}

impl FromSpecImpl<ClockSource> for bool {
    open spec fn obeys_from_spec() -> bool {
        true
    }

    /// The clock selection bit: set for the crystal clock.
    open spec fn from_spec(c: ClockSource) -> bool {
        c == ClockSource::XClk
    }
}

/// Reference voltage of the ADC
#[derive(Copy, Clone, PartialEq, Eq, Debug)]
pub enum Reference {
    /// 3.2V
    V3V2,
    /// 2.0V
    V2V0,
}

impl From<Reference> for bool {
    fn from(c: Reference) -> (bit: bool) {
        match c {
            Reference::V3V2 => false,
            Reference::V2V0 => true,
        }
    }
}

impl FromSpecImpl<Reference> for bool {
    open spec fn obeys_from_spec() -> bool {
        true
    }

    /// The reference selection bit: set for 2.0 V.
    open spec fn from_spec(c: Reference) -> bool {
        c == Reference::V2V0
    }
}

impl From<Reference> for u32 {
    fn from(c: Reference) -> (millivolts: u32) {
        match c {
            Reference::V3V2 => 3200,
            Reference::V2V0 => 2000,
        }
    }
}

impl FromSpecImpl<Reference> for u32 {
    open spec fn obeys_from_spec() -> bool {
        true
    }

    /// The reference voltage in millivolts.
    open spec fn from_spec(c: Reference) -> u32 {
        match c {
            Reference::V3V2 => 3200,
            Reference::V2V0 => 2000,
        }
    }
}

/// Resolution to sample at
#[derive(Copy, Clone, PartialEq, Eq, Debug)]
pub enum Resolution {
    /// 12-bit 2MS/s, OSR=1
    Twelve2M,
    /// 14-bit 125kS/s, OSR=16
    Fourteen125k,
    /// 14-bit 31.25kS/s, OSR=64
    Fourteen31k25,
    /// 16-bit 15.625kS/s, OSR=128
    Sixteen15k565,
    /// 16-bit 7.8125kS/s, OSR=256
    Sixteen7k8125,
}

impl From<Resolution> for u8 {
    fn from(r: Resolution) -> (code: u8) {
        match r {
            Resolution::Twelve2M => 0,
            Resolution::Fourteen125k => 1,
            Resolution::Fourteen31k25 => 2,
            Resolution::Sixteen15k565 => 3,
            Resolution::Sixteen7k8125 => 4,
        }
    }
}

impl FromSpecImpl<Resolution> for u8 {
    open spec fn obeys_from_spec() -> bool {
        true
    }

    /// The number that selects the resolution in the resolution field.
    open spec fn from_spec(r: Resolution) -> u8 {
        match r {
            Resolution::Twelve2M => 0,
            Resolution::Fourteen125k => 1,
            Resolution::Fourteen31k25 => 2,
            Resolution::Sixteen15k565 => 3,
            Resolution::Sixteen7k8125 => 4,
        }
    }
}

impl Resolution {
    /// The number of bits of a sample.
    pub open spec fn bits(self) -> u32 {
        match self {
            Resolution::Twelve2M => 12,
            Resolution::Fourteen125k => 14,
            Resolution::Fourteen31k25 => 14,
            Resolution::Sixteen15k565 => 16,
            Resolution::Sixteen7k8125 => 16,
        }
    }

    /// The least number that no sample reaches: two to the power of the
    /// number of bits.
    pub open spec fn max_sample(self) -> u32 {
        match self {
            Resolution::Twelve2M => 4096,
            Resolution::Fourteen125k => 16384,
            Resolution::Fourteen31k25 => 16384,
            Resolution::Sixteen15k565 => 65536,
            Resolution::Sixteen7k8125 => 65536,
        }
    }

    /// The number of places by which a word from the result FIFO is moved
    /// to the right to give a sample: sixteen less the number of bits.
    pub open spec fn shift(self) -> u32 {
        match self {
            Resolution::Twelve2M => 4,
            Resolution::Fourteen125k => 2,
            Resolution::Fourteen31k25 => 2,
            Resolution::Sixteen15k565 => 0,
            Resolution::Sixteen7k8125 => 0,
        }
    }
}

/// The sample limit of a resolution is two to the power of its number of
/// bits, and its shift makes up the difference to sixteen bits.
pub proof fn lemma_resolution_widths(resolution: Resolution)
    ensures
        12 <= resolution.bits() <= 16,
        resolution.max_sample() == 1u32 << resolution.bits(),
        resolution.shift() == 16 - resolution.bits(),
{
    assert(1u32 << 12u32 == 4096) by (bit_vector);
    assert(1u32 << 14u32 == 16384) by (bit_vector);
    assert(1u32 << 16u32 == 65536) by (bit_vector);
}

/// Continuous mode enable/disable
#[derive(Copy, Clone, PartialEq, Eq, Debug)]
pub enum Continuous {
    /// Single mode, continuous disabled
    Single,
    /// Continuous mode enabled
    Continuous,
}

impl From<Continuous> for bool {
    fn from(c: Continuous) -> (bit: bool) {
        match c {
            Continuous::Single => false,
            Continuous::Continuous => true,
        }
    }
}

impl FromSpecImpl<Continuous> for bool {
    open spec fn obeys_from_spec() -> bool {
        true
    }

    /// The continuous conversion bit.
    open spec fn from_spec(c: Continuous) -> bool {
        c == Continuous::Continuous
    }
}

/// Configuration for the adc.
/// There are some additional parameters on the adc peripheral that can be
/// added here when needed but this covers several basic usecases.
#[derive(Copy, Clone, PartialEq, Eq, Debug)]
pub struct AdcConfig {
    pub(crate) clock: Clock,
    pub(crate) clock_source: ClockSource,
    pub(crate) resolution: Resolution,
    pub(crate) continuous: Continuous,
    pub(crate) reference: Reference,
}

/// What a configuration holds.
pub struct AdcConfigView {
    pub clock: Clock,
    pub clock_source: ClockSource,
    pub resolution: Resolution,
    pub continuous: Continuous,
    pub reference: Reference,
}

impl View for AdcConfig {
    type V = AdcConfigView;

    open(crate) spec fn view(&self) -> AdcConfigView {
        AdcConfigView {
            clock: self.clock,
            clock_source: self.clock_source,
            resolution: self.resolution,
            continuous: self.continuous,
            reference: self.reference,
        }
    }
}

impl AdcConfig {
    /// change the clock field
    pub fn clock(self, clock: Clock) -> (config: Self)
        ensures
            config@ == (AdcConfigView { clock, ..self@ }),
    {
        let mut config = self;
        config.clock = clock;
        config
    }

    /// change the clock source field
    pub fn clock_source(self, clock_source: ClockSource) -> (config: Self)
        ensures
            config@ == (AdcConfigView { clock_source, ..self@ }),
    {
        let mut config = self;
        config.clock_source = clock_source;
        config
    }

    /// change the resolution field
    pub fn resolution(self, resolution: Resolution) -> (config: Self)
        ensures
            config@ == (AdcConfigView { resolution, ..self@ }),
    {
        let mut config = self;
        config.resolution = resolution;
        config
    }

    /// change the continuous field
    pub fn continuous(self, continuous: Continuous) -> (config: Self)
        ensures
            config@ == (AdcConfigView { continuous, ..self@ }),
    {
        let mut config = self;
        config.continuous = continuous;
        config
    }

    /// Specify the reference voltage for the ADC.
    pub fn reference(self, reference: Reference) -> (config: Self)
        ensures
            config@ == (AdcConfigView { reference, ..self@ }),
    {
        let mut config = self;
        config.reference = reference;
        config
    }
}

impl Default for AdcConfig {
    fn default() -> (config: Self)
        ensures
            config@ == (AdcConfigView {
                clock: Clock::Div16,
                clock_source: ClockSource::XClk,
                resolution: Resolution::Twelve2M,
                continuous: Continuous::Single,
                reference: Reference::V3V2,
            }),
    {
        Self {
            clock: Clock::Div16,
            clock_source: ClockSource::XClk,
            resolution: Resolution::Twelve2M,
            continuous: Continuous::Single,
            reference: Reference::V3V2,
        }
    }
}

} // verus!
