//! Interrupt Management
//!
//! Interrupts can be enabled, disabled and cleared. No interrupt of this
//! chip has a number here yet, so for now each of these does nothing.

use crate::clock::CLIC_HART0_ADDR;
use crate::clock::CLIC_INTIE;
use crate::clock::CLIC_INTIP;
use crate::clock::IRQ_NUM_BASE;
use crate::hw::zero_words;
use crate::hw::Action;
use crate::hw::Program;
use vstd::prelude::*;

verus! {

/// Number of words of enable bytes, and of pending bytes, that are zeroed
/// when the interrupts are set up.
pub const CLIC_WORDS: u32 = 16 + 8;

/// Registers saved in trap handler
#[allow(missing_docs)]
#[derive(Debug, Default, Clone, Copy)]
pub struct TrapFrame {
    pub ra: usize,
    pub t0: usize,
    pub t1: usize,
    pub t2: usize,
    pub t3: usize,
    pub t4: usize,
    pub t5: usize,
    pub t6: usize,
    pub a0: usize,
    pub a1: usize,
    pub a2: usize,
    pub a3: usize,
    pub a4: usize,
    pub a5: usize,
    pub a6: usize,
    pub a7: usize,
    pub s0: usize,
    pub s1: usize,
    pub s2: usize,
    pub s3: usize,
    pub s4: usize,
    pub s5: usize,
    pub s6: usize,
    pub s7: usize,
    pub s8: usize,
    pub s9: usize,
    pub s10: usize,
    pub s11: usize,
    pub gp: usize,
    pub tp: usize,
    pub sp: usize,
}

/// Available interrupts
#[derive(Debug, Clone, Copy, PartialEq, Eq)]
pub enum Interrupt {
    /// An interrupt that has no number here
    Unknown,
}

impl Interrupt {
    /// The number of the interrupt in the interrupt controller, if it has
    /// one.
    pub open spec fn irq(&self) -> Option<u32> {
        match self {
            Interrupt::Unknown => None,
        }
    }

    /// Computes [`Self::irq`].
    pub fn to_irq(&self) -> (irq: Option<u32>)
        ensures
            irq == self.irq(),
    {
        match self {
            Interrupt::Unknown => None,
        }
    }

    /// The interrupt of number `irq`.
    pub fn from(irq: u32) -> (interrupt: Interrupt)
        ensures
            interrupt == Interrupt::Unknown,
    {
        Interrupt::Unknown
    }
}

/// What storing `value` in the byte of an interrupt appends to a program:
/// nothing for an interrupt without a number.
pub open spec fn byte_actions(interrupt: Interrupt, table: u32, value: u8) -> Seq<Action> {
    match interrupt.irq() {
        Some(irq) => seq![
            Action::WriteByte { addr: (CLIC_HART0_ADDR + table + irq) as u32, byte: value },
        ],
        None => Seq::<Action>::empty(),
    }
}

/// Stores `value` in the byte of the interrupt in the table at offset
/// `table`.
fn store(interrupt: Interrupt, table: u32, value: u8, program: &mut Program)
    requires
        table <= CLIC_INTIE,
    ensures
        final(program)@ == old(program)@ + byte_actions(interrupt, table, value),
{
    match interrupt.to_irq() {
        Some(irq) => {
            program.push(Action::WriteByte { addr: CLIC_HART0_ADDR + table + irq, byte: value });
        },
        None => {},
    }
    assert(program@ =~= old(program)@ + byte_actions(interrupt, table, value));
}

/// Enable the given interrupt
pub fn enable_interrupt(interrupt: Interrupt, program: &mut Program)
    ensures
        final(program)@ == old(program)@ + byte_actions(interrupt, CLIC_INTIE, 1),
{
    store(interrupt, CLIC_INTIE, 1, program);
}

/// Disable the given interrupt
pub fn disable_interrupt(interrupt: Interrupt, program: &mut Program)
    ensures
        final(program)@ == old(program)@ + byte_actions(interrupt, CLIC_INTIE, 0),
{
    store(interrupt, CLIC_INTIE, 0, program);
}

/// Clear the given interrupt.
/// Usually the interrupt needs to be cleared also on the peripheral level.
pub fn clear_interrupt(interrupt: Interrupt, program: &mut Program)
    ensures
        final(program)@ == old(program)@ + byte_actions(interrupt, CLIC_INTIP, 0),
{
    store(interrupt, CLIC_INTIP, 0, program);
}

/// The trap vector for a handler at address `handler`.
pub open spec fn trap_vector(handler: u32) -> u32 {
    handler | 2
}

/// What [`_setup_interrupts`] appends to a program: with interrupts
/// masked, the trap vector is set, every interrupt is disabled and every
/// pending interrupt cleared.
pub open spec fn setup_actions(handler: u32) -> Seq<Action> {
    seq![Action::DisableInterrupts, Action::SetTrapVector { value: trap_vector(handler) }]
        + zero_words((CLIC_HART0_ADDR + CLIC_INTIE) as u32, CLIC_WORDS as nat) + zero_words(
        (CLIC_HART0_ADDR + CLIC_INTIP) as u32,
        CLIC_WORDS as nat,
    ) + seq![Action::EnableInterrupts]
}

/// Routes traps to the handler at address `handler` and leaves no
/// interrupt enabled or pending.
pub fn _setup_interrupts(handler: u32, program: &mut Program)
    ensures
        final(program)@ == old(program)@ + setup_actions(handler),
{
    program.push(Action::DisableInterrupts);
    program.push(Action::SetTrapVector { value: handler | 2 });
    // disable all interrupts
    program.zero_words(CLIC_HART0_ADDR + CLIC_INTIE, CLIC_WORDS);
    program.zero_words(CLIC_HART0_ADDR + CLIC_INTIP, CLIC_WORDS);
    program.push(Action::EnableInterrupts);
    assert(program@ =~= old(program)@ + setup_actions(handler));
}

/// Who is to handle a trap.
#[derive(Debug, Clone, Copy, PartialEq, Eq)]
pub enum TrapRoute {
    /// The handler of the core: the trap is an exception or a core-local
    /// interrupt.
    Core,
    /// The handler of this interrupt.
    Peripheral(Interrupt),
}

/// Decides who is to handle a trap, from the cause that the processor
/// gives: whether it is an exception, and its code.
pub fn start_trap_rust_hal(is_exception: bool, code: usize) -> (route: TrapRoute)
    ensures
        route == (if is_exception || code < IRQ_NUM_BASE {
            TrapRoute::Core
        } else {
            TrapRoute::Peripheral(Interrupt::Unknown)
        }),
{
    if is_exception {
        TrapRoute::Core
    } else if code < IRQ_NUM_BASE as usize {
        TrapRoute::Core
    } else {
        let number: usize = code & 0xff;
        assert(code & 0xff <= 0xff) by (bit_vector);
        let interrupt_number: u32 = number as u32;
        TrapRoute::Peripheral(Interrupt::from(interrupt_number))
    }
}

} // verus!
