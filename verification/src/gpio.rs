//! General purpose pins and what they are connected to.
//!
//! A pin is a value. It carries the number of the physical pin and, in its
//! type, the role it plays. A role is entered by a transition that consumes
//! the pin in its old role, appends the multiplexer settings of the new role
//! to a program, and gives the pin back in its new role. There is no other
//! way to come by a pin in a role, so two roles never hold at once, and what
//! belongs to a role is offered on pins in that role only.
//!
//! Not every pin can play every role. Which pin can play which is fixed by
//! the silicon and written down in [`role_allowed`]; a transition into a role
//! that the pin cannot play hands the pin back unchanged.

use crate::bits::get_bit;
use crate::bits::applied;
use crate::bits::bit_is_set;
use crate::bits::extract;
use crate::bits::flag;
use crate::bits::lemma_applied_none;
use crate::bits::lemma_fits;
use crate::bits::lemma_last_field_reads_back;
use crate::bits::lemma_low_masks;
use crate::bits::lemma_other_field_unchanged;
use crate::bits::no_fields;
use crate::bits::with_field;
use crate::bits::with_flag;
use crate::bits::Fields;
use crate::hw::lemma_register_after_push;
use crate::hw::lemma_untouched;
use crate::hw::register_after;
use crate::hw::Action;
use crate::hw::Program;
use crate::system::glb::GPIO_CFGCTL0;
use crate::system::glb::GPIO_CFGCTL32;
use crate::system::glb::GPIO_CFGCTL34;
use crate::system::glb::UART_SIG_SEL_0;
use core::marker::PhantomData;
use vstd::prelude::*;

verus! {

/// Number of pins.
pub const PIN_COUNT: u8 = 32;

/// Number of UART signals, and of the multiplexers that give each a function.
pub const UART_SIGNAL_COUNT: u8 = 8;

/// Pin function: serial peripheral interface.
pub const FUNC_SPI: u32 = 4;

/// Pin function: UART signal.
pub const FUNC_UART: u32 = 7;

/// Pin function: analog.
pub const FUNC_ANALOG: u32 = 10;

/// Pin function: software-controlled input or output.
pub const FUNC_GPIO: u32 = 11;

/// The clock configuration registers of the global register block.
///
/// There is one such value. Handing it to
/// [`ClockConfig::freeze`](crate::clock::ClockConfig::freeze) by `&mut`
/// shows that nothing else is configuring the clocks at that time.
#[derive(Debug)]
pub struct ClkCfg {
    pub(crate) _ownership: (),
}

/// What a pin is used for.
#[derive(Clone, Copy, Debug, PartialEq, Eq)]
pub enum Role {
    /// Input, neither pulled up nor down
    FloatingInput,
    /// Input, pulled up
    PullUpInput,
    /// Input, pulled down
    PullDownInput,
    /// Output, neither pulled up nor down
    FloatingOutput,
    /// Output, pulled up
    PullUpOutput,
    /// Output, pulled down
    PullDownOutput,
    /// Input of the analog to digital converter
    Analog,
    /// The UART signal of the number given
    UartSignal(u8),
    /// SPI data, master out
    SpiMosi,
    /// SPI data, master in
    SpiMiso,
    /// SPI slave select
    SpiSs,
    /// SPI clock
    SpiSclk,
}

/// The channel of the analog to digital converter that a pin is wired to, if
/// it is wired to one.
pub open spec fn adc_channel_of(number: u8) -> Option<u8> {
    if number == 8 {
        Some(0u8)
    } else if number == 15 {
        Some(1u8)
    } else if number == 17 {
        Some(2u8)
    } else if number == 11 {
        Some(3u8)
    } else if number == 12 {
        Some(4u8)
    } else if number == 14 {
        Some(5u8)
    } else if number == 7 {
        Some(6u8)
    } else if number == 9 {
        Some(7u8)
    } else if number == 18 {
        Some(8u8)
    } else if number == 19 {
        Some(9u8)
    } else if number == 20 {
        Some(10u8)
    } else if number == 21 {
        Some(11u8)
    } else {
        None
    }
}

/// Whether the pin of this number can play the role.
///
/// Every pin can be a plain input or output. A pin can be an analog input if
/// it is wired to a converter channel. A pin carries the UART signal whose
/// number is the pin's number modulo eight, and the SPI signal that its
/// number modulo four selects: data out, data in, slave select, clock.
pub open spec fn role_allowed(number: u8, role: Role) -> bool {
    match role {
        Role::Analog => adc_channel_of(number) is Some,
        Role::UartSignal(signal) => number % UART_SIGNAL_COUNT == signal,
        Role::SpiMosi => number % 4 == 0,
        Role::SpiMiso => number % 4 == 1,
        Role::SpiSs => number % 4 == 2,
        Role::SpiSclk => number % 4 == 3,
        _ => true,
    }
}

/// How the pad of a pin is set up.
#[derive(Clone, Copy, Debug, PartialEq, Eq)]
pub struct PinConfig {
    /// The function that the pin is routed to.
    pub func: u32,
    /// Whether the pull-up is on.
    pub pull_up: bool,
    /// Whether the pull-down is on.
    pub pull_down: bool,
    /// Whether the input buffer is on.
    pub input: bool,
    /// Whether the output driver is on.
    pub output: bool,
}

/// The pad setup of a role.
pub open spec fn role_config(role: Role) -> PinConfig {
    match role {
        Role::FloatingInput => PinConfig {
            func: FUNC_GPIO,
            pull_up: false,
            pull_down: false,
            input: true,
            output: false,
        },
        Role::PullUpInput => PinConfig {
            func: FUNC_GPIO,
            pull_up: true,
            pull_down: false,
            input: true,
            output: false,
        },
        Role::PullDownInput => PinConfig {
            func: FUNC_GPIO,
            pull_up: false,
            pull_down: true,
            input: true,
            output: false,
        },
        Role::FloatingOutput => PinConfig {
            func: FUNC_GPIO,
            pull_up: false,
            pull_down: false,
            input: false,
            output: true,
        },
        Role::PullUpOutput => PinConfig {
            func: FUNC_GPIO,
            pull_up: true,
            pull_down: false,
            input: false,
            output: true,
        },
        Role::PullDownOutput => PinConfig {
            func: FUNC_GPIO,
            pull_up: false,
            pull_down: true,
            input: false,
            output: true,
        },
        Role::Analog => PinConfig {
            func: FUNC_ANALOG,
            pull_up: false,
            pull_down: false,
            input: false,
            output: false,
        },
        Role::UartSignal(_) => PinConfig {
            func: FUNC_UART,
            pull_up: true,
            pull_down: false,
            input: true,
            output: false,
        },
        _ => PinConfig {
            func: FUNC_SPI,
            pull_up: true,
            pull_down: false,
            input: true,
            output: false,
        },
    }
}

/// Computes [`role_config`].
pub fn pad_setup(role: Role) -> (config: PinConfig)
    ensures
        config == role_config(role),
{
    match role {
        Role::FloatingInput => PinConfig {
            func: FUNC_GPIO,
            pull_up: false,
            pull_down: false,
            input: true,
            output: false,
        },
        Role::PullUpInput => PinConfig {
            func: FUNC_GPIO,
            pull_up: true,
            pull_down: false,
            input: true,
            output: false,
        },
        Role::PullDownInput => PinConfig {
            func: FUNC_GPIO,
            pull_up: false,
            pull_down: true,
            input: true,
            output: false,
        },
        Role::FloatingOutput => PinConfig {
            func: FUNC_GPIO,
            pull_up: false,
            pull_down: false,
            input: false,
            output: true,
        },
        Role::PullUpOutput => PinConfig {
            func: FUNC_GPIO,
            pull_up: true,
            pull_down: false,
            input: false,
            output: true,
        },
        Role::PullDownOutput => PinConfig {
            func: FUNC_GPIO,
            pull_up: false,
            pull_down: true,
            input: false,
            output: true,
        },
        Role::Analog => PinConfig {
            func: FUNC_ANALOG,
            pull_up: false,
            pull_down: false,
            input: false,
            output: false,
        },
        Role::UartSignal(_) => PinConfig {
            func: FUNC_UART,
            pull_up: true,
            pull_down: false,
            input: true,
            output: false,
        },
        _ => PinConfig {
            func: FUNC_SPI,
            pull_up: true,
            pull_down: false,
            input: true,
            output: false,
        },
    }
}

/// The address of the configuration register of a pin. Each register holds
/// two pins.
pub open spec fn pin_register(number: u8) -> u32 {
    (GPIO_CFGCTL0 + 4 * (number / 2)) as u32
}

/// The lowest bit of the half of its configuration register that belongs to
/// a pin: the lower half for even pins, the upper for odd ones.
pub open spec fn pin_base(number: u8) -> u32 {
    (16 * (number % 2)) as u32
}

/// The fields of its configuration register that a pin's pad setup writes:
/// function, input enable, pull-up, pull-down; no drive strength and no
/// Schmitt trigger.
pub open spec fn pin_fields(number: u8, config: PinConfig) -> Fields {
    let base = pin_base(number);
    let func = with_field(no_fields(), (base + 8) as u32, 5, config.func);
    let input = with_flag(func, base, config.input);
    let pull_up = with_flag(input, (base + 4) as u32, config.pull_up);
    let pull_down = with_flag(pull_up, (base + 5) as u32, config.pull_down);
    let drive = with_field(pull_down, (base + 2) as u32, 2, 0);
    with_flag(drive, (base + 1) as u32, false)
}

/// What a transition of the pin into a role with this pad setup appends to a
/// program: the pin's half of its configuration register, then its output
/// enable.
pub open spec fn pin_actions(number: u8, config: PinConfig) -> Seq<Action> {
    let pad = pin_fields(number, config);
    let enable = with_flag(no_fields(), number as u32, config.output);
    seq![
        Action::Modify { addr: pin_register(number), mask: pad.mask, value: pad.value },
        Action::Modify { addr: GPIO_CFGCTL34, mask: enable.mask, value: enable.value },
    ]
}

/// What setting the output level of a pin appends to a program.
pub open spec fn level_actions(number: u8, high: bool) -> Seq<Action> {
    let level = with_flag(no_fields(), number as u32, high);
    seq![Action::Modify { addr: GPIO_CFGCTL32, mask: level.mask, value: level.value }]
}

/// A transition sets the pin's half of its configuration register to what
/// the role asks for and leaves the other half, which belongs to the
/// neighbouring pin, as it was.
///
/// `before` is what the register holds before the transition, whatever
/// that is.
pub proof fn lemma_transition_sets_pad(number: u8, config: PinConfig, before: u32)
    requires
        number < PIN_COUNT,
        config.func <= 31,
    ensures
        ({
            let after = register_after(pin_actions(number, config), pin_register(number), before);
            let base = pin_base(number);
            let other = (16 - base) as u32;
            &&& extract(after, (base + 8) as u32, 5) == config.func
            &&& bit_is_set(after, base) == config.input
            &&& bit_is_set(after, (base + 4) as u32) == config.pull_up
            &&& bit_is_set(after, (base + 5) as u32) == config.pull_down
            &&& extract(after, (base + 2) as u32, 2) == 0
            &&& !bit_is_set(after, (base + 1) as u32)
            &&& extract(after, other, 16) == extract(before, other, 16)
        }),
{
    let base = pin_base(number);
    let other = (16 - base) as u32;
    let b8 = (base + 8) as u32;
    let b4 = (base + 4) as u32;
    let b5 = (base + 5) as u32;
    let b2 = (base + 2) as u32;
    let b1 = (base + 1) as u32;
    let func = with_field(no_fields(), b8, 5, config.func);
    let input = with_flag(func, base, config.input);
    let pull_up = with_flag(input, b4, config.pull_up);
    let pull_down = with_flag(pull_up, b5, config.pull_down);
    let drive = with_field(pull_down, b2, 2, 0);
    let pad = with_flag(drive, b1, false);
    assert(pad == pin_fields(number, config));
    let enable = with_flag(no_fields(), number as u32, config.output);
    let first = Action::Modify { addr: pin_register(number), mask: pad.mask, value: pad.value };
    let second = Action::Modify { addr: GPIO_CFGCTL34, mask: enable.mask, value: enable.value };
    let none = Seq::<Action>::empty();
    assert(pin_actions(number, config) =~= none.push(first).push(second));
    lemma_register_after_push(none.push(first), second, pin_register(number), before);
    lemma_register_after_push(none, first, pin_register(number), before);
    let after = register_after(pin_actions(number, config), pin_register(number), before);
    assert(after == applied(pad, before));
    lemma_low_masks();
    assert(1u32 & 1 == 1 && 0u32 & 1 == 0 && 0u32 & 3 == 0) by (bit_vector);

    // the Schmitt trigger bit was chosen last
    lemma_last_field_reads_back(drive, b1, 1, 0, before);
    // the drive strength
    lemma_other_field_unchanged(drive, b1, 1, 0, before, b2, 2);
    lemma_last_field_reads_back(pull_down, b2, 2, 0, before);
    // the pull-down
    lemma_other_field_unchanged(drive, b1, 1, 0, before, b5, 1);
    lemma_other_field_unchanged(pull_down, b2, 2, 0, before, b5, 1);
    lemma_last_field_reads_back(pull_up, b5, 1, flag(config.pull_down), before);
    // the pull-up
    lemma_other_field_unchanged(drive, b1, 1, 0, before, b4, 1);
    lemma_other_field_unchanged(pull_down, b2, 2, 0, before, b4, 1);
    lemma_other_field_unchanged(pull_up, b5, 1, flag(config.pull_down), before, b4, 1);
    lemma_last_field_reads_back(input, b4, 1, flag(config.pull_up), before);
    // the input enable
    lemma_other_field_unchanged(drive, b1, 1, 0, before, base, 1);
    lemma_other_field_unchanged(pull_down, b2, 2, 0, before, base, 1);
    lemma_other_field_unchanged(pull_up, b5, 1, flag(config.pull_down), before, base, 1);
    lemma_other_field_unchanged(input, b4, 1, flag(config.pull_up), before, base, 1);
    lemma_last_field_reads_back(func, base, 1, flag(config.input), before);
    // the function
    lemma_other_field_unchanged(drive, b1, 1, 0, before, b8, 5);
    lemma_other_field_unchanged(pull_down, b2, 2, 0, before, b8, 5);
    lemma_other_field_unchanged(pull_up, b5, 1, flag(config.pull_down), before, b8, 5);
    lemma_other_field_unchanged(input, b4, 1, flag(config.pull_up), before, b8, 5);
    lemma_other_field_unchanged(func, base, 1, flag(config.input), before, b8, 5);
    lemma_last_field_reads_back(no_fields(), b8, 5, config.func, before);
    lemma_fits(config.func, 5);
    // the neighbour's half
    lemma_other_field_unchanged(drive, b1, 1, 0, before, other, 16);
    lemma_other_field_unchanged(pull_down, b2, 2, 0, before, other, 16);
    lemma_other_field_unchanged(pull_up, b5, 1, flag(config.pull_down), before, other, 16);
    lemma_other_field_unchanged(input, b4, 1, flag(config.pull_up), before, other, 16);
    lemma_other_field_unchanged(func, base, 1, flag(config.input), before, other, 16);
    lemma_other_field_unchanged(no_fields(), b8, 5, config.func, before, other, 16);
    lemma_applied_none(before);
}

/// A transition switches the output driver of the pin on or off as the
/// role asks for, and leaves the output drivers of all other pins as they
/// were.
pub proof fn lemma_transition_sets_output_enable(
    number: u8,
    config: PinConfig,
    before: u32,
    other: u8,
)
    requires
        number < PIN_COUNT,
        other < PIN_COUNT,
        other != number,
    ensures
        ({
            let after = register_after(pin_actions(number, config), GPIO_CFGCTL34, before);
            &&& bit_is_set(after, number as u32) == config.output
            &&& bit_is_set(after, other as u32) == bit_is_set(before, other as u32)
        }),
{
    let pad = pin_fields(number, config);
    let enable = with_flag(no_fields(), number as u32, config.output);
    let first = Action::Modify { addr: pin_register(number), mask: pad.mask, value: pad.value };
    let second = Action::Modify { addr: GPIO_CFGCTL34, mask: enable.mask, value: enable.value };
    let none = Seq::<Action>::empty();
    assert(pin_actions(number, config) =~= none.push(first).push(second));
    lemma_register_after_push(none.push(first), second, GPIO_CFGCTL34, before);
    lemma_register_after_push(none, first, GPIO_CFGCTL34, before);
    let after = register_after(pin_actions(number, config), GPIO_CFGCTL34, before);
    assert(after == applied(enable, before));
    lemma_low_masks();
    assert(1u32 & 1 == 1 && 0u32 & 1 == 0) by (bit_vector);
    lemma_last_field_reads_back(no_fields(), number as u32, 1, flag(config.output), before);
    lemma_other_field_unchanged(
        no_fields(),
        number as u32,
        1,
        flag(config.output),
        before,
        other as u32,
        1,
    );
    lemma_applied_none(before);
}

/// A transition of one pin leaves the configuration register of every pin
/// that does not share its register as it was.
pub proof fn lemma_transition_keeps_other_registers(
    number: u8,
    config: PinConfig,
    other: u8,
    before: u32,
)
    requires
        number < PIN_COUNT,
        other < PIN_COUNT,
        other / 2 != number / 2,
    ensures
        register_after(pin_actions(number, config), pin_register(other), before) == before,
{
    lemma_untouched(pin_actions(number, config), pin_register(other), before);
}

/// A role, as a type.
pub trait PinMode: Sized {
    /// The role that the type stands for.
    spec fn role() -> Role;
}

/// Neither pulled up nor down (type state)
#[derive(Debug)]
pub struct Floating;

/// Pulled down (type state)
#[derive(Debug)]
pub struct PullDown;

/// Pulled up (type state)
#[derive(Debug)]
pub struct PullUp;

/// Input mode (type state)
#[derive(Debug)]
pub struct Input<MODE> {
    _mode: PhantomData<MODE>,
}

/// Output mode (type state)
#[derive(Debug)]
pub struct Output<MODE> {
    _mode: PhantomData<MODE>,
}

/// Analog input (type state)
#[derive(Debug)]
pub struct Analog;

/// Carrier of the UART signal of number `N` (type state)
#[derive(Debug)]
pub struct Uart<const N: u8>;

/// SPI data, master out (type state)
#[derive(Debug)]
pub struct SpiMosi;

/// SPI data, master in (type state)
#[derive(Debug)]
pub struct SpiMiso;

/// SPI slave select (type state)
#[derive(Debug)]
pub struct SpiSs;

/// SPI clock (type state)
#[derive(Debug)]
pub struct SpiSclk;

impl PinMode for Input<Floating> {
    open spec fn role() -> Role {
        Role::FloatingInput
    }
}

impl PinMode for Input<PullUp> {
    open spec fn role() -> Role {
        Role::PullUpInput
    }
}

impl PinMode for Input<PullDown> {
    open spec fn role() -> Role {
        Role::PullDownInput
    }
}

impl PinMode for Output<Floating> {
    open spec fn role() -> Role {
        Role::FloatingOutput
    }
}

impl PinMode for Output<PullUp> {
    open spec fn role() -> Role {
        Role::PullUpOutput
    }
}

impl PinMode for Output<PullDown> {
    open spec fn role() -> Role {
        Role::PullDownOutput
    }
}

impl PinMode for Analog {
    open spec fn role() -> Role {
        Role::Analog
    }
}

impl<const N: u8> PinMode for Uart<N> {
    open spec fn role() -> Role {
        Role::UartSignal(N)
    }
}

impl PinMode for SpiMosi {
    open spec fn role() -> Role {
        Role::SpiMosi
    }
}

impl PinMode for SpiMiso {
    open spec fn role() -> Role {
        Role::SpiMiso
    }
}

impl PinMode for SpiSs {
    open spec fn role() -> Role {
        Role::SpiSs
    }
}

impl PinMode for SpiSclk {
    open spec fn role() -> Role {
        Role::SpiSclk
    }
}

/// A pin in the role `MODE`.
#[derive(Debug)]
pub struct Pin<MODE: PinMode> {
    number: u8,
    _mode: PhantomData<MODE>,
}

impl<MODE: PinMode> Pin<MODE> {
    #[verifier::type_invariant]
    spec fn wired(self) -> bool {
        self.number < PIN_COUNT && role_allowed(self.number, MODE::role())
    }

    /// The number of the physical pin.
    pub closed spec fn id(&self) -> u8 {
        self.number
    }

    /// The role of the pin.
    pub open spec fn role(&self) -> Role {
        MODE::role()
    }

    /// The number of the physical pin. The pin can play the role it is in.
    pub fn number(&self) -> (n: u8)
        ensures
            n == self.id(),
            n < PIN_COUNT,
            role_allowed(n, self.role()),
    {
        proof {
            use_type_invariant(self);
        }
        self.number
    }

    /// Puts the pin into the role `NEW`, whose pad setup is `config`.
    fn retarget<NEW: PinMode>(self, config: PinConfig, program: &mut Program) -> (pin: Pin<NEW>)
        requires
            role_allowed(self.id(), NEW::role()),
            config == role_config(NEW::role()),
        ensures
            pin.id() == self.id(),
            final(program)@ == old(program)@ + pin_actions(self.id(), config),
    {
        proof {
            use_type_invariant(&self);
        }
        let number: u8 = self.number;
        let base: u32 = 16 * ((number % 2) as u32);
        let pad = Fields::none().with(base + 8, 5, config.func).with_bit(base, config.input).with_bit(
            base + 4,
            config.pull_up,
        ).with_bit(base + 5, config.pull_down).with(base + 2, 2, 0).with_bit(base + 1, false);
        program.modify_fields(GPIO_CFGCTL0 + 4 * ((number / 2) as u32), pad);
        program.modify_fields(GPIO_CFGCTL34, Fields::none().with_bit(number as u32, config.output));
        assert(program@ =~= old(program)@ + pin_actions(self.id(), config));
        Pin { number, _mode: PhantomData }
    }

    /// Configures the pin to operate as a floating input pin.
    pub fn into_floating_input(self, program: &mut Program) -> (pin: Pin<Input<Floating>>)
        ensures
            pin.id() == self.id(),
            final(program)@ == old(program)@ + pin_actions(
                self.id(),
                role_config(Role::FloatingInput),
            ),
    {
        self.retarget(pad_setup(Role::FloatingInput), program)
    }

    /// Configures the pin to operate as a pull-up input pin.
    pub fn into_pull_up_input(self, program: &mut Program) -> (pin: Pin<Input<PullUp>>)
        ensures
            pin.id() == self.id(),
            final(program)@ == old(program)@ + pin_actions(
                self.id(),
                role_config(Role::PullUpInput),
            ),
    {
        self.retarget(pad_setup(Role::PullUpInput), program)
    }

    /// Configures the pin to operate as a pull-down input pin.
    pub fn into_pull_down_input(self, program: &mut Program) -> (pin: Pin<Input<PullDown>>)
        ensures
            pin.id() == self.id(),
            final(program)@ == old(program)@ + pin_actions(
                self.id(),
                role_config(Role::PullDownInput),
            ),
    {
        self.retarget(pad_setup(Role::PullDownInput), program)
    }

    /// Configures the pin to operate as a floating output pin.
    pub fn into_floating_output(self, program: &mut Program) -> (pin: Pin<Output<Floating>>)
        ensures
            pin.id() == self.id(),
            final(program)@ == old(program)@ + pin_actions(
                self.id(),
                role_config(Role::FloatingOutput),
            ),
    {
        self.retarget(pad_setup(Role::FloatingOutput), program)
    }

    /// Configures the pin to operate as a pull-up output pin.
    pub fn into_pull_up_output(self, program: &mut Program) -> (pin: Pin<Output<PullUp>>)
        ensures
            pin.id() == self.id(),
            final(program)@ == old(program)@ + pin_actions(
                self.id(),
                role_config(Role::PullUpOutput),
            ),
    {
        self.retarget(pad_setup(Role::PullUpOutput), program)
    }

    /// Configures the pin to operate as a pull-down output pin.
    pub fn into_pull_down_output(self, program: &mut Program) -> (pin: Pin<Output<PullDown>>)
        ensures
            pin.id() == self.id(),
            final(program)@ == old(program)@ + pin_actions(
                self.id(),
                role_config(Role::PullDownOutput),
            ),
    {
        self.retarget(pad_setup(Role::PullDownOutput), program)
    }

    /// Configures the pin as an input of the analog to digital converter.
    /// A pin that is wired to no converter channel is handed back as it is.
    pub fn into_analog(self, program: &mut Program) -> (r: Result<Pin<Analog>, Pin<MODE>>)
        ensures
            r is Ok <==> role_allowed(self.id(), Role::Analog),
            match r {
                Ok(pin) => pin.id() == self.id() && final(program)@ == old(program)@ + pin_actions(
                    self.id(),
                    role_config(Role::Analog),
                ),
                Err(pin) => pin == self && final(program)@ == old(program)@,
            },
    {
        if can_play(self.number(), Role::Analog) {
            Ok(self.retarget(pad_setup(Role::Analog), program))
        } else {
            Err(self)
        }
    }

    /// Configures the pin to carry the UART signal of number `N`. A pin that
    /// cannot carry that signal is handed back as it is.
    pub fn into_uart_sig<const N: u8>(self, program: &mut Program) -> (r: Result<
        Pin<Uart<N>>,
        Pin<MODE>,
    >)
        ensures
            r is Ok <==> role_allowed(self.id(), Role::UartSignal(N)),
            match r {
                Ok(pin) => pin.id() == self.id() && final(program)@ == old(program)@ + pin_actions(
                    self.id(),
                    role_config(Role::UartSignal(N)),
                ),
                Err(pin) => pin == self && final(program)@ == old(program)@,
            },
    {
        if can_play(self.number(), Role::UartSignal(N)) {
            Ok(self.retarget(pad_setup(Role::UartSignal(N)), program))
        } else {
            Err(self)
        }
    }

    /// Configures the pin to carry UART signal 0.
    pub fn into_uart_sig0(self, program: &mut Program) -> (r: Result<Pin<Uart<0>>, Pin<MODE>>)
        ensures
            r is Ok <==> role_allowed(self.id(), Role::UartSignal(0)),
            match r {
                Ok(pin) => pin.id() == self.id() && final(program)@ == old(program)@ + pin_actions(
                    self.id(),
                    role_config(Role::UartSignal(0)),
                ),
                Err(pin) => pin == self && final(program)@ == old(program)@,
            },
    {
        self.into_uart_sig::<0>(program)
    }

    /// Configures the pin to carry UART signal 1.
    pub fn into_uart_sig1(self, program: &mut Program) -> (r: Result<Pin<Uart<1>>, Pin<MODE>>)
        ensures
            r is Ok <==> role_allowed(self.id(), Role::UartSignal(1)),
            match r {
                Ok(pin) => pin.id() == self.id() && final(program)@ == old(program)@ + pin_actions(
                    self.id(),
                    role_config(Role::UartSignal(1)),
                ),
                Err(pin) => pin == self && final(program)@ == old(program)@,
            },
    {
        self.into_uart_sig::<1>(program)
    }

    /// Configures the pin to carry UART signal 2.
    pub fn into_uart_sig2(self, program: &mut Program) -> (r: Result<Pin<Uart<2>>, Pin<MODE>>)
        ensures
            r is Ok <==> role_allowed(self.id(), Role::UartSignal(2)),
            match r {
                Ok(pin) => pin.id() == self.id() && final(program)@ == old(program)@ + pin_actions(
                    self.id(),
                    role_config(Role::UartSignal(2)),
                ),
                Err(pin) => pin == self && final(program)@ == old(program)@,
            },
    {
        self.into_uart_sig::<2>(program)
    }

    /// Configures the pin to carry UART signal 3.
    pub fn into_uart_sig3(self, program: &mut Program) -> (r: Result<Pin<Uart<3>>, Pin<MODE>>)
        ensures
            r is Ok <==> role_allowed(self.id(), Role::UartSignal(3)),
            match r {
                Ok(pin) => pin.id() == self.id() && final(program)@ == old(program)@ + pin_actions(
                    self.id(),
                    role_config(Role::UartSignal(3)),
                ),
                Err(pin) => pin == self && final(program)@ == old(program)@,
            },
    {
        self.into_uart_sig::<3>(program)
    }

    /// Configures the pin to carry UART signal 4.
    pub fn into_uart_sig4(self, program: &mut Program) -> (r: Result<Pin<Uart<4>>, Pin<MODE>>)
        ensures
            r is Ok <==> role_allowed(self.id(), Role::UartSignal(4)),
            match r {
                Ok(pin) => pin.id() == self.id() && final(program)@ == old(program)@ + pin_actions(
                    self.id(),
                    role_config(Role::UartSignal(4)),
                ),
                Err(pin) => pin == self && final(program)@ == old(program)@,
            },
    {
        self.into_uart_sig::<4>(program)
    }

    /// Configures the pin to carry UART signal 5.
    pub fn into_uart_sig5(self, program: &mut Program) -> (r: Result<Pin<Uart<5>>, Pin<MODE>>)
        ensures
            r is Ok <==> role_allowed(self.id(), Role::UartSignal(5)),
            match r {
                Ok(pin) => pin.id() == self.id() && final(program)@ == old(program)@ + pin_actions(
                    self.id(),
                    role_config(Role::UartSignal(5)),
                ),
                Err(pin) => pin == self && final(program)@ == old(program)@,
            },
    {
        self.into_uart_sig::<5>(program)
    }

    /// Configures the pin to carry UART signal 6.
    pub fn into_uart_sig6(self, program: &mut Program) -> (r: Result<Pin<Uart<6>>, Pin<MODE>>)
        ensures
            r is Ok <==> role_allowed(self.id(), Role::UartSignal(6)),
            match r {
                Ok(pin) => pin.id() == self.id() && final(program)@ == old(program)@ + pin_actions(
                    self.id(),
                    role_config(Role::UartSignal(6)),
                ),
                Err(pin) => pin == self && final(program)@ == old(program)@,
            },
    {
        self.into_uart_sig::<6>(program)
    }

    /// Configures the pin to carry UART signal 7.
    pub fn into_uart_sig7(self, program: &mut Program) -> (r: Result<Pin<Uart<7>>, Pin<MODE>>)
        ensures
            r is Ok <==> role_allowed(self.id(), Role::UartSignal(7)),
            match r {
                Ok(pin) => pin.id() == self.id() && final(program)@ == old(program)@ + pin_actions(
                    self.id(),
                    role_config(Role::UartSignal(7)),
                ),
                Err(pin) => pin == self && final(program)@ == old(program)@,
            },
    {
        self.into_uart_sig::<7>(program)
    }

    /// Configures the pin to carry SPI data out. A pin that cannot carry that
    /// signal is handed back as it is.
    pub fn into_spi_mosi(self, program: &mut Program) -> (r: Result<Pin<SpiMosi>, Pin<MODE>>)
        ensures
            r is Ok <==> role_allowed(self.id(), Role::SpiMosi),
            match r {
                Ok(pin) => pin.id() == self.id() && final(program)@ == old(program)@ + pin_actions(
                    self.id(),
                    role_config(Role::SpiMosi),
                ),
                Err(pin) => pin == self && final(program)@ == old(program)@,
            },
    {
        if can_play(self.number(), Role::SpiMosi) {
            Ok(self.retarget(pad_setup(Role::SpiMosi), program))
        } else {
            Err(self)
        }
    }

    /// Configures the pin to carry SPI data in. A pin that cannot carry that
    /// signal is handed back as it is.
    pub fn into_spi_miso(self, program: &mut Program) -> (r: Result<Pin<SpiMiso>, Pin<MODE>>)
        ensures
            r is Ok <==> role_allowed(self.id(), Role::SpiMiso),
            match r {
                Ok(pin) => pin.id() == self.id() && final(program)@ == old(program)@ + pin_actions(
                    self.id(),
                    role_config(Role::SpiMiso),
                ),
                Err(pin) => pin == self && final(program)@ == old(program)@,
            },
    {
        if can_play(self.number(), Role::SpiMiso) {
            Ok(self.retarget(pad_setup(Role::SpiMiso), program))
        } else {
            Err(self)
        }
    }

    /// Configures the pin to carry SPI slave select. A pin that cannot carry that
    /// signal is handed back as it is.
    pub fn into_spi_ss(self, program: &mut Program) -> (r: Result<Pin<SpiSs>, Pin<MODE>>)
        ensures
            r is Ok <==> role_allowed(self.id(), Role::SpiSs),
            match r {
                Ok(pin) => pin.id() == self.id() && final(program)@ == old(program)@ + pin_actions(
                    self.id(),
                    role_config(Role::SpiSs),
                ),
                Err(pin) => pin == self && final(program)@ == old(program)@,
            },
    {
        if can_play(self.number(), Role::SpiSs) {
            Ok(self.retarget(pad_setup(Role::SpiSs), program))
        } else {
            Err(self)
        }
    }

    /// Configures the pin to carry SPI clock. A pin that cannot carry that
    /// signal is handed back as it is.
    pub fn into_spi_sclk(self, program: &mut Program) -> (r: Result<Pin<SpiSclk>, Pin<MODE>>)
        ensures
            r is Ok <==> role_allowed(self.id(), Role::SpiSclk),
            match r {
                Ok(pin) => pin.id() == self.id() && final(program)@ == old(program)@ + pin_actions(
                    self.id(),
                    role_config(Role::SpiSclk),
                ),
                Err(pin) => pin == self && final(program)@ == old(program)@,
            },
    {
        if can_play(self.number(), Role::SpiSclk) {
            Ok(self.retarget(pad_setup(Role::SpiSclk), program))
        } else {
            Err(self)
        }
    }
}

/// Computes [`role_allowed`].
pub fn can_play(number: u8, role: Role) -> (allowed: bool)
    ensures
        allowed == role_allowed(number, role),
{
    match role {
        Role::Analog => adc_channel(number).is_some(),
        Role::UartSignal(signal) => number % UART_SIGNAL_COUNT == signal,
        Role::SpiMosi => number % 4 == 0,
        Role::SpiMiso => number % 4 == 1,
        Role::SpiSs => number % 4 == 2,
        Role::SpiSclk => number % 4 == 3,
        _ => true,
    }
}

/// Computes [`adc_channel_of`].
pub fn adc_channel(number: u8) -> (channel: Option<u8>)
    ensures
        channel == adc_channel_of(number),
{
    if number == 8 {
        Some(0)
    } else if number == 15 {
        Some(1)
    } else if number == 17 {
        Some(2)
    } else if number == 11 {
        Some(3)
    } else if number == 12 {
        Some(4)
    } else if number == 14 {
        Some(5)
    } else if number == 7 {
        Some(6)
    } else if number == 9 {
        Some(7)
    } else if number == 18 {
        Some(8)
    } else if number == 19 {
        Some(9)
    } else if number == 20 {
        Some(10)
    } else if number == 21 {
        Some(11)
    } else {
        None
    }
}

impl Pin<Analog> {
    /// The converter channel that the pin is wired to.
    pub fn channel(&self) -> (channel: u8)
        ensures
            adc_channel_of(self.id()) == Some(channel),
    {
        let n: u8 = self.number();
        match adc_channel(n) {
            Some(channel) => channel,
            None => 0,
        }
    }
}

impl<MODE> Pin<Input<MODE>> where Input<MODE>: PinMode {
    /// Whether the pin reads high. `levels` is what the input level register
    /// reads.
    pub fn is_high(&self, levels: u32) -> (high: bool)
        ensures
            high == bit_is_set(levels, self.id() as u32),
    {
        get_bit(levels, self.number() as u32)
    }

    /// Whether the pin reads low. `levels` is what the input level register
    /// reads.
    pub fn is_low(&self, levels: u32) -> (low: bool)
        ensures
            low == !bit_is_set(levels, self.id() as u32),
    {
        !get_bit(levels, self.number() as u32)
    }
}

impl<MODE> Pin<Output<MODE>> where Output<MODE>: PinMode {
    /// Drives the pin high.
    pub fn set_high(&mut self, program: &mut Program)
        ensures
            *final(self) == *old(self),
            final(program)@ == old(program)@ + level_actions(old(self).id(), true),
    {
        let n: u8 = self.number();
        program.modify_fields(GPIO_CFGCTL32, Fields::none().with_bit(n as u32, true));
        assert(program@ =~= old(program)@ + level_actions(self.id(), true));
    }

    /// Drives the pin low.
    pub fn set_low(&mut self, program: &mut Program)
        ensures
            *final(self) == *old(self),
            final(program)@ == old(program)@ + level_actions(old(self).id(), false),
    {
        let n: u8 = self.number();
        program.modify_fields(GPIO_CFGCTL32, Fields::none().with_bit(n as u32, false));
        assert(program@ =~= old(program)@ + level_actions(self.id(), false));
    }
}

/// What a UART signal is used for.
#[derive(Clone, Copy, Debug, PartialEq, Eq)]
pub enum UartFunction {
    Uart0Rts,
    Uart0Cts,
    Uart0Tx,
    Uart0Rx,
    Uart1Rts,
    Uart1Cts,
    Uart1Tx,
    Uart1Rx,
}

impl UartFunction {
    /// The number that selects the function in the signal multiplexer.
    pub open spec fn code(self) -> u32 {
        match self {
            UartFunction::Uart0Rts => 0,
            UartFunction::Uart0Cts => 1,
            UartFunction::Uart0Tx => 2,
            UartFunction::Uart0Rx => 3,
            UartFunction::Uart1Rts => 4,
            UartFunction::Uart1Cts => 5,
            UartFunction::Uart1Tx => 6,
            UartFunction::Uart1Rx => 7,
        }
    }

    /// Computes [`Self::code`].
    pub fn to_code(self) -> (code: u32)
        ensures
            code == self.code(),
    {
        match self {
            UartFunction::Uart0Rts => 0,
            UartFunction::Uart0Cts => 1,
            UartFunction::Uart0Tx => 2,
            UartFunction::Uart0Rx => 3,
            UartFunction::Uart1Rts => 4,
            UartFunction::Uart1Cts => 5,
            UartFunction::Uart1Tx => 6,
            UartFunction::Uart1Rx => 7,
        }
    }
}

/// What giving UART signal `signal` a function appends to a program: the
/// signal's four bits of the signal selection register.
pub open spec fn mux_actions(signal: u8, function: UartFunction) -> Seq<Action> {
    let select = with_field(no_fields(), (4 * signal) as u32, 4, function.code());
    seq![Action::Modify { addr: UART_SIG_SEL_0, mask: select.mask, value: select.value }]
}

/// No function selected yet (type state)
#[derive(Debug)]
pub struct Unselected;

/// UART0 RTS (type state)
#[derive(Debug)]
pub struct Uart0Rts;

/// UART0 CTS (type state)
#[derive(Debug)]
pub struct Uart0Cts;

/// UART0 TXD (type state)
#[derive(Debug)]
pub struct Uart0Tx;

/// UART0 RXD (type state)
#[derive(Debug)]
pub struct Uart0Rx;

/// UART1 RTS (type state)
#[derive(Debug)]
pub struct Uart1Rts;

/// UART1 CTS (type state)
#[derive(Debug)]
pub struct Uart1Cts;

/// UART1 TXD (type state)
#[derive(Debug)]
pub struct Uart1Tx;

/// UART1 RXD (type state)
#[derive(Debug)]
pub struct Uart1Rx;

/// The multiplexer that gives UART signal `N` its function, with the
/// function it selects in `MODE`.
#[derive(Debug)]
pub struct UartMux<const N: u8, MODE> {
    _mode: PhantomData<MODE>,
}

impl<const N: u8, MODE> UartMux<N, MODE> {
    #[verifier::type_invariant]
    spec fn exists_in_silicon(self) -> bool {
        N < UART_SIGNAL_COUNT
    }

    /// Selects `function` for the signal.
    fn into_uart_mode<T>(self, function: UartFunction, program: &mut Program) -> (mux: UartMux<N, T>)
        ensures
            final(program)@ == old(program)@ + mux_actions(N, function),
    {
        proof {
            use_type_invariant(&self);
        }
        program.modify_fields(
            UART_SIG_SEL_0,
            Fields::none().with(4 * (N as u32), 4, function.to_code()),
        );
        assert(program@ =~= old(program)@ + mux_actions(N, function));
        UartMux { _mode: PhantomData }
    }

    /// Configures the internal UART signal to UART0 RTS
    pub fn into_uart0_rts(self, program: &mut Program) -> (mux: UartMux<N, Uart0Rts>)
        ensures
            final(program)@ == old(program)@ + mux_actions(N, UartFunction::Uart0Rts),
    {
        self.into_uart_mode(UartFunction::Uart0Rts, program)
    }

    /// Configures the internal UART signal to UART0 CTS
    pub fn into_uart0_cts(self, program: &mut Program) -> (mux: UartMux<N, Uart0Cts>)
        ensures
            final(program)@ == old(program)@ + mux_actions(N, UartFunction::Uart0Cts),
    {
        self.into_uart_mode(UartFunction::Uart0Cts, program)
    }

    /// Configures the internal UART signal to UART0 TX
    pub fn into_uart0_tx(self, program: &mut Program) -> (mux: UartMux<N, Uart0Tx>)
        ensures
            final(program)@ == old(program)@ + mux_actions(N, UartFunction::Uart0Tx),
    {
        self.into_uart_mode(UartFunction::Uart0Tx, program)
    }

    /// Configures the internal UART signal to UART0 RX
    pub fn into_uart0_rx(self, program: &mut Program) -> (mux: UartMux<N, Uart0Rx>)
        ensures
            final(program)@ == old(program)@ + mux_actions(N, UartFunction::Uart0Rx),
    {
        self.into_uart_mode(UartFunction::Uart0Rx, program)
    }

    /// Configures the internal UART signal to UART1 RTS
    pub fn into_uart1_rts(self, program: &mut Program) -> (mux: UartMux<N, Uart1Rts>)
        ensures
            final(program)@ == old(program)@ + mux_actions(N, UartFunction::Uart1Rts),
    {
        self.into_uart_mode(UartFunction::Uart1Rts, program)
    }

    /// Configures the internal UART signal to UART1 CTS
    pub fn into_uart1_cts(self, program: &mut Program) -> (mux: UartMux<N, Uart1Cts>)
        ensures
            final(program)@ == old(program)@ + mux_actions(N, UartFunction::Uart1Cts),
    {
        self.into_uart_mode(UartFunction::Uart1Cts, program)
    }

    /// Configures the internal UART signal to UART1 TX
    pub fn into_uart1_tx(self, program: &mut Program) -> (mux: UartMux<N, Uart1Tx>)
        ensures
            final(program)@ == old(program)@ + mux_actions(N, UartFunction::Uart1Tx),
    {
        self.into_uart_mode(UartFunction::Uart1Tx, program)
    }

    /// Configures the internal UART signal to UART1 RX
    pub fn into_uart1_rx(self, program: &mut Program) -> (mux: UartMux<N, Uart1Rx>)
        ensures
            final(program)@ == old(program)@ + mux_actions(N, UartFunction::Uart1Rx),
    {
        self.into_uart_mode(UartFunction::Uart1Rx, program)
    }
}

/// UART signal 0 (type state)
pub type UartSig0 = Uart<0>;

/// UART multiplexer 0
pub type UartMux0<MODE> = UartMux<0, MODE>;

/// UART signal 1 (type state)
pub type UartSig1 = Uart<1>;

/// UART multiplexer 1
pub type UartMux1<MODE> = UartMux<1, MODE>;

/// UART signal 2 (type state)
pub type UartSig2 = Uart<2>;

/// UART multiplexer 2
pub type UartMux2<MODE> = UartMux<2, MODE>;

/// UART signal 3 (type state)
pub type UartSig3 = Uart<3>;

/// UART multiplexer 3
pub type UartMux3<MODE> = UartMux<3, MODE>;

/// UART signal 4 (type state)
pub type UartSig4 = Uart<4>;

/// UART multiplexer 4
pub type UartMux4<MODE> = UartMux<4, MODE>;

/// UART signal 5 (type state)
pub type UartSig5 = Uart<5>;

/// UART multiplexer 5
pub type UartMux5<MODE> = UartMux<5, MODE>;

/// UART signal 6 (type state)
pub type UartSig6 = Uart<6>;

/// UART multiplexer 6
pub type UartMux6<MODE> = UartMux<6, MODE>;

/// UART signal 7 (type state)
pub type UartSig7 = Uart<7>;

/// UART multiplexer 7
pub type UartMux7<MODE> = UartMux<7, MODE>;


/// The pins, the UART signal multiplexers and the clock configuration of the
/// global register block, each to be owned on its own.
#[derive(Debug)]
pub struct Parts {
    /// Clock configurator registers
    pub clk_cfg: ClkCfg,
    /// Pin 0
    pub pin0: Pin<Input<Floating>>,
    /// Pin 1
    pub pin1: Pin<Input<Floating>>,
    /// Pin 2
    pub pin2: Pin<Input<Floating>>,
    /// Pin 3
    pub pin3: Pin<Input<Floating>>,
    /// Pin 4
    pub pin4: Pin<Input<Floating>>,
    /// Pin 5
    pub pin5: Pin<Input<Floating>>,
    /// Pin 6
    pub pin6: Pin<Input<Floating>>,
    /// Pin 7
    pub pin7: Pin<Input<Floating>>,
    /// Pin 8
    pub pin8: Pin<Input<Floating>>,
    /// Pin 9
    pub pin9: Pin<Input<Floating>>,
    /// Pin 10
    pub pin10: Pin<Input<Floating>>,
    /// Pin 11
    pub pin11: Pin<Input<Floating>>,
    /// Pin 12
    pub pin12: Pin<Input<Floating>>,
    /// Pin 13
    pub pin13: Pin<Input<Floating>>,
    /// Pin 14
    pub pin14: Pin<Input<Floating>>,
    /// Pin 15
    pub pin15: Pin<Input<Floating>>,
    /// Pin 16
    pub pin16: Pin<Input<Floating>>,
    /// Pin 17
    pub pin17: Pin<Input<Floating>>,
    /// Pin 18
    pub pin18: Pin<Input<Floating>>,
    /// Pin 19
    pub pin19: Pin<Input<Floating>>,
    /// Pin 20
    pub pin20: Pin<Input<Floating>>,
    /// Pin 21
    pub pin21: Pin<Input<Floating>>,
    /// Pin 22
    pub pin22: Pin<Input<Floating>>,
    /// Pin 23
    pub pin23: Pin<Input<Floating>>,
    /// Pin 24
    pub pin24: Pin<Input<Floating>>,
    /// Pin 25
    pub pin25: Pin<Input<Floating>>,
    /// Pin 26
    pub pin26: Pin<Input<Floating>>,
    /// Pin 27
    pub pin27: Pin<Input<Floating>>,
    /// Pin 28
    pub pin28: Pin<Input<Floating>>,
    /// Pin 29
    pub pin29: Pin<Input<Floating>>,
    /// Pin 30
    pub pin30: Pin<Input<Floating>>,
    /// Pin 31
    pub pin31: Pin<Input<Floating>>,
    /// UART signal multiplexer 0
    pub uart_mux0: UartMux<0, Unselected>,
    /// UART signal multiplexer 1
    pub uart_mux1: UartMux<1, Unselected>,
    /// UART signal multiplexer 2
    pub uart_mux2: UartMux<2, Unselected>,
    /// UART signal multiplexer 3
    pub uart_mux3: UartMux<3, Unselected>,
    /// UART signal multiplexer 4
    pub uart_mux4: UartMux<4, Unselected>,
    /// UART signal multiplexer 5
    pub uart_mux5: UartMux<5, Unselected>,
    /// UART signal multiplexer 6
    pub uart_mux6: UartMux<6, Unselected>,
    /// UART signal multiplexer 7
    pub uart_mux7: UartMux<7, Unselected>,
}

/// Takes the global register block apart. The block is used up; every pin
/// starts as a floating input.
///
/// `glb` is the handle of the block. The pins are as much one of a kind as
/// the handle is: whoever hands in the only handle gets the only pins.
pub fn split<GLB>(glb: GLB) -> (parts: Parts)
    ensures
        parts.pin0.id() == 0,
        parts.pin1.id() == 1,
        parts.pin2.id() == 2,
        parts.pin3.id() == 3,
        parts.pin4.id() == 4,
        parts.pin5.id() == 5,
        parts.pin6.id() == 6,
        parts.pin7.id() == 7,
        parts.pin8.id() == 8,
        parts.pin9.id() == 9,
        parts.pin10.id() == 10,
        parts.pin11.id() == 11,
        parts.pin12.id() == 12,
        parts.pin13.id() == 13,
        parts.pin14.id() == 14,
        parts.pin15.id() == 15,
        parts.pin16.id() == 16,
        parts.pin17.id() == 17,
        parts.pin18.id() == 18,
        parts.pin19.id() == 19,
        parts.pin20.id() == 20,
        parts.pin21.id() == 21,
        parts.pin22.id() == 22,
        parts.pin23.id() == 23,
        parts.pin24.id() == 24,
        parts.pin25.id() == 25,
        parts.pin26.id() == 26,
        parts.pin27.id() == 27,
        parts.pin28.id() == 28,
        parts.pin29.id() == 29,
        parts.pin30.id() == 30,
        parts.pin31.id() == 31,
{
    Parts {
        clk_cfg: ClkCfg { _ownership: () },
        pin0: Pin { number: 0, _mode: PhantomData },
        pin1: Pin { number: 1, _mode: PhantomData },
        pin2: Pin { number: 2, _mode: PhantomData },
        pin3: Pin { number: 3, _mode: PhantomData },
        pin4: Pin { number: 4, _mode: PhantomData },
        pin5: Pin { number: 5, _mode: PhantomData },
        pin6: Pin { number: 6, _mode: PhantomData },
        pin7: Pin { number: 7, _mode: PhantomData },
        pin8: Pin { number: 8, _mode: PhantomData },
        pin9: Pin { number: 9, _mode: PhantomData },
        pin10: Pin { number: 10, _mode: PhantomData },
        pin11: Pin { number: 11, _mode: PhantomData },
        pin12: Pin { number: 12, _mode: PhantomData },
        pin13: Pin { number: 13, _mode: PhantomData },
        pin14: Pin { number: 14, _mode: PhantomData },
        pin15: Pin { number: 15, _mode: PhantomData },
        pin16: Pin { number: 16, _mode: PhantomData },
        pin17: Pin { number: 17, _mode: PhantomData },
        pin18: Pin { number: 18, _mode: PhantomData },
        pin19: Pin { number: 19, _mode: PhantomData },
        pin20: Pin { number: 20, _mode: PhantomData },
        pin21: Pin { number: 21, _mode: PhantomData },
        pin22: Pin { number: 22, _mode: PhantomData },
        pin23: Pin { number: 23, _mode: PhantomData },
        pin24: Pin { number: 24, _mode: PhantomData },
        pin25: Pin { number: 25, _mode: PhantomData },
        pin26: Pin { number: 26, _mode: PhantomData },
        pin27: Pin { number: 27, _mode: PhantomData },
        pin28: Pin { number: 28, _mode: PhantomData },
        pin29: Pin { number: 29, _mode: PhantomData },
        pin30: Pin { number: 30, _mode: PhantomData },
        pin31: Pin { number: 31, _mode: PhantomData },
        uart_mux0: UartMux { _mode: PhantomData },
        uart_mux1: UartMux { _mode: PhantomData },
        uart_mux2: UartMux { _mode: PhantomData },
        uart_mux3: UartMux { _mode: PhantomData },
        uart_mux4: UartMux { _mode: PhantomData },
        uart_mux5: UartMux { _mode: PhantomData },
        uart_mux6: UartMux { _mode: PhantomData },
        uart_mux7: UartMux { _mode: PhantomData },
    }
}

} // verus!
