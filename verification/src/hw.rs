//! What a driver asks of the hardware, written down as data.
//!
//! A driver operation appends [`Action`]s to a [`Program`]. Carrying the
//! program out, in order, against the device is all that is left to do. A
//! register is named by its physical address: the base address of its block
//! plus its byte offset inside the block.

use crate::bits::Fields;
use vstd::prelude::*;

verus! {

/// One step against the hardware.
#[derive(Clone, Copy, Debug, PartialEq, Eq)]
pub enum Action {
    /// Store `value` in the register at `addr`.
    Write { addr: u32, value: u32 },
    /// Read the register at `addr`, replace the bits under `mask` by those of
    /// `value`, and store the result.
    Modify { addr: u32, mask: u32, value: u32 },
    /// Store `byte` at `addr`.
    WriteByte { addr: u32, byte: u8 },
    /// Mask interrupts globally.
    DisableInterrupts,
    /// Unmask interrupts globally.
    EnableInterrupts,
    /// Make `value` the trap vector of the processor.
    SetTrapVector { value: u32 },
    /// Call the vendor routine stored in slot `index` of the ROM function
    /// table, with up to two arguments.
    RomCall { index: u32, arg0: u32, arg1: u32 },
}

/// The word a read-modify-write stores, given the word it read.
pub open spec fn modified(before: u32, mask: u32, value: u32) -> u32 {
    (before & !mask) | (value & mask)
}

/// The word that a store of one byte leaves, given the word that was there:
/// `lane` is the position of the byte in the word, the lowest byte first.
pub open spec fn byte_stored(before: u32, lane: u32, value: u8) -> u32
    recommends
        lane < 4,
{
    (before & !(0xffu32 << (8 * lane) as u32)) | ((value as u32) << (8 * lane) as u32)
}

/// The word that the register at `addr` holds after one action, if it held
/// `before`. Only what the action itself stores is followed: an action that
/// is no access to a register is taken to leave the register as it was,
/// whatever a vendor routine or the processor may do to it.
pub open spec fn register_after_action(action: Action, addr: u32, before: u32) -> u32 {
    match action {
        Action::WriteByte { addr: a, byte } => if a - a % 4 == addr {
            byte_stored(before, a % 4, byte)
        } else {
            before
        },
        Action::Write { addr: a, value } => if a == addr {
            value
        } else {
            before
        },
        Action::Modify { addr: a, mask, value } => if a == addr {
            modified(before, mask, value)
        } else {
            before
        },
        _ => before,
    }
}

/// The word that the register at `addr` holds after the actions have been
/// carried out in order, if it held `initial` before the first.
pub open spec fn register_after(actions: Seq<Action>, addr: u32, initial: u32) -> u32
    decreases actions.len(),
{
    if actions.len() == 0 {
        initial
    } else {
        register_after_action(
            actions.last(),
            addr,
            register_after(actions.drop_last(), addr, initial),
        )
    }
}

/// Stores of zero to `count` consecutive words, the first at `base`, in
/// rising order of address.
pub open spec fn zero_words(base: u32, count: nat) -> Seq<Action> {
    Seq::new(count, |i: int| Action::Write { addr: (base + 4 * i) as u32, value: 0 })
}

/// Whether every action is an access to a register.
pub open spec fn registers_only(actions: Seq<Action>) -> bool {
    forall|i: int|
        0 <= i < actions.len() ==> (#[trigger] actions[i] is Write || actions[i] is Modify
            || actions[i] is WriteByte)
}

/// Computes [`byte_stored`].
pub fn store_byte(before: u32, lane: u32, value: u8) -> (after: u32)
    requires
        lane < 4,
    ensures
        after == byte_stored(before, lane, value),
{
    (before & !(0xffu32 << (8 * lane))) | ((value as u32) << (8 * lane))
}

/// Computes [`modified`].
pub fn modify_word(before: u32, mask: u32, value: u32) -> (after: u32)
    ensures
        after == modified(before, mask, value),
{
    (before & !mask) | (value & mask)
}

/// The byte that a word read from the exit of a receive FIFO carries: its
/// lowest eight bits.
pub open spec fn data_byte(word: u32) -> u8 {
    (word & 0xff) as u8
}

/// The go-ahead to take one word out of a receive FIFO.
///
/// A driver hands it out when its status says that a word is waiting. The
/// register to read is [`Fetch::register`]; reading it takes the word out
/// of the FIFO, so it is read once, and the word goes to
/// [`Fetch::complete`].
#[derive(Debug)]
pub struct Fetch {
    addr: u32,
}

impl Fetch {
    /// The address of the register to read.
    pub closed spec fn register(&self) -> u32 {
        self.addr
    }

    /// The go-ahead to read the register at `addr`.
    pub(crate) fn from_register(addr: u32) -> (fetch: Self)
        ensures
            fetch.register() == addr,
    {
        Fetch { addr }
    }

    /// The address of the register to read.
    pub fn addr(&self) -> (addr: u32)
        ensures
            addr == self.register(),
    {
        self.addr
    }

    /// The byte received. `word` is what the register read.
    pub fn complete(self, word: u32) -> (byte: u8)
        ensures
            byte == data_byte(word),
    {
        (word & 0xff) as u8
    }
}

/// An ordered list of actions.
#[derive(Debug)]
pub struct Program {
    actions: Vec<Action>,
}

impl View for Program {
    type V = Seq<Action>;

    closed spec fn view(&self) -> Seq<Action> {
        self.actions@
    }
}

impl Program {
    /// The empty program.
    pub fn new() -> (p: Self)
        ensures
            p@ == Seq::<Action>::empty(),
    {
        Program { actions: Vec::new() }
    }

    /// Appends one action.
    pub fn push(&mut self, action: Action)
        ensures
            final(self)@ == old(self)@.push(action),
    {
        self.actions.push(action);
    }

    /// Appends a store of `value` to the register at `addr`.
    pub fn write(&mut self, addr: u32, value: u32)
        ensures
            final(self)@ == old(self)@.push(Action::Write { addr, value }),
    {
        self.actions.push(Action::Write { addr, value });
    }

    /// Appends a read-modify-write of the register at `addr`.
    pub fn modify(&mut self, addr: u32, mask: u32, value: u32)
        ensures
            final(self)@ == old(self)@.push(Action::Modify { addr, mask, value }),
    {
        self.actions.push(Action::Modify { addr, mask, value });
    }

    /// Appends a store to the register at `addr` of the word that holds the
    /// chosen fields and zero in every other bit.
    pub fn write_fields(&mut self, addr: u32, fields: Fields)
        ensures
            final(self)@ == old(self)@.push(Action::Write { addr, value: fields.value }),
    {
        self.actions.push(Action::Write { addr, value: fields.value });
    }

    /// Appends a read-modify-write of the register at `addr` that sets the
    /// chosen fields and keeps the others.
    pub fn modify_fields(&mut self, addr: u32, fields: Fields)
        ensures
            final(self)@ == old(self)@.push(
                Action::Modify { addr, mask: fields.mask, value: fields.value },
            ),
    {
        self.actions.push(Action::Modify { addr, mask: fields.mask, value: fields.value });
    }

    /// Appends stores of zero to `count` consecutive words, the first at
    /// `base`.
    pub fn zero_words(&mut self, base: u32, count: u32)
        requires
            base + 4 * count <= u32::MAX,
        ensures
            final(self)@ == old(self)@ + zero_words(base, count as nat),
    {
        let mut i: u32 = 0;
        while i < count
            invariant
                i <= count,
                base + 4 * count <= u32::MAX,
                self@ == old(self)@ + zero_words(base, i as nat),
            decreases count - i,
        {
            self.actions.push(Action::Write { addr: base + 4 * i, value: 0 });
            assert(zero_words(base, (i + 1) as nat) =~= zero_words(base, i as nat).push(
                Action::Write { addr: (base + 4 * i) as u32, value: 0 },
            ));
            assert(self@ =~= old(self)@ + zero_words(base, (i + 1) as nat));
            i = i + 1;
        }
    }

    /// The number of actions.
    pub fn len(&self) -> (n: usize)
        ensures
            n == self@.len(),
    {
        self.actions.len()
    }

    /// The action at position `i`, or `None` past the end.
    pub fn get(&self, i: usize) -> (a: Option<Action>)
        ensures
            i < self@.len() ==> a == Some(self@[i as int]),
            i >= self@.len() ==> a is None,
    {
        if i < self.actions.len() {
            Some(self.actions[i])
        } else {
            None
        }
    }

    /// Hands the actions out, in order.
    pub fn into_actions(self) -> (v: Vec<Action>)
        ensures
            v@ == self@,
    {
        self.actions
    }

    /// Hands out the actions gathered so far and starts over with none.
    pub fn take(&mut self) -> (v: Vec<Action>)
        ensures
            v@ == old(self)@,
            final(self)@ == Seq::<Action>::empty(),
    {
        let mut out: Vec<Action> = Vec::new();
        std::mem::swap(&mut self.actions, &mut out);
        out
    }

    /// The word that the register at `addr` holds once the program has run,
    /// if it held `initial` before: computes [`register_after`].
    pub fn readback(&self, addr: u32, initial: u32) -> (word: u32)
        ensures
            word == register_after(self@, addr, initial),
    {
        let mut word: u32 = initial;
        let mut i: usize = 0;
        while i < self.actions.len()
            invariant
                i <= self.actions.len(),
                word == register_after(self.actions@.subrange(0, i as int), addr, initial),
            decreases self.actions.len() - i,
        {
            let action = self.actions[i];
            proof {
                let next = self.actions@.subrange(0, i + 1);
                assert(next.drop_last() =~= self.actions@.subrange(0, i as int));
                assert(next.last() == action);
            }
            match action {
                Action::Write { addr: a, value } => {
                    if a == addr {
                        word = value;
                    }
                },
                Action::Modify { addr: a, mask, value } => {
                    if a == addr {
                        word = modify_word(word, mask, value);
                    }
                },
                Action::WriteByte { addr: a, byte } => {
                    if a - a % 4 == addr {
                        word = store_byte(word, a % 4, byte);
                    }
                },
                _ => {},
            }
            i = i + 1;
        }
        proof {
            assert(self.actions@.subrange(0, i as int) =~= self.actions@);
        }
        word
    }
}

/// The last action of a program works on what the actions before it have
/// left.
pub proof fn lemma_register_after_push(
    actions: Seq<Action>,
    action: Action,
    addr: u32,
    initial: u32,
)
    ensures
        register_after(actions.push(action), addr, initial) == register_after_action(
            action,
            addr,
            register_after(actions, addr, initial),
        ),
{
    assert(actions.push(action).drop_last() =~= actions);
    assert(actions.push(action).last() == action);
}

/// A program that never names a register leaves that register as it was.
pub proof fn lemma_untouched(actions: Seq<Action>, addr: u32, initial: u32)
    requires
        forall|i: int|
            0 <= i < actions.len() ==> match #[trigger] actions[i] {
                Action::Write { addr: a, .. } => a != addr,
                Action::Modify { addr: a, .. } => a != addr,
                Action::WriteByte { addr: a, .. } => a - a % 4 != addr,
                _ => true,
            },
    ensures
        register_after(actions, addr, initial) == initial,
    decreases actions.len(),
{
    if actions.len() > 0 {
        let rest = actions.drop_last();
        assert forall|i: int| 0 <= i < rest.len() implies match #[trigger] rest[i] {
            Action::Write { addr: a, .. } => a != addr,
            Action::Modify { addr: a, .. } => a != addr,
            Action::WriteByte { addr: a, .. } => a - a % 4 != addr,
            _ => true,
        } by {
            assert(rest[i] == actions[i]);
        }
        lemma_untouched(rest, addr, initial);
        assert(actions.last() == actions[actions.len() - 1]);
    }
}

} // verus!
