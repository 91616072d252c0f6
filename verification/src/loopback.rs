//! The UART with its line looped back.
//!
//! With the transmit line wired to the receive line, what the driver puts
//! into the transmit FIFO comes out of the receive FIFO. To the driver the
//! two FIFOs are then one queue: a byte takes a place when it is written
//! and gives it up when it is read. [`Loopback`] is that queue, with the
//! registers through which the driver sees it. It is the yardstick for
//! what the driver does with the FIFOs: what is written is read back in
//! the order in which it was written, nothing is written when no place is
//! free, and nothing is read when nothing waits.

use crate::bits::lemma_extract_insert;
use crate::bits::lemma_insert_keeps_other;
use crate::bits::low_mask;
use crate::bits::no_fields;
use crate::bits::with_field;
use crate::bits::Fields;
use crate::hw::data_byte;
use crate::hw::Action;
use crate::hw::Program;
use crate::uart::rx_pending;
use crate::uart::tx_free;
use crate::uart::Serial;
use crate::uart::UartError;
use crate::uart::UART_FIFO_DEPTH;
use crate::uart::UART_FIFO_WDATA;
use vstd::prelude::*;

verus! {

/// The number of bytes that wait to be read when `len` bytes are under
/// way: all of them, as far as the FIFO has places.
pub open spec fn waiting(len: nat) -> u32 {
    if len <= UART_FIFO_DEPTH {
        len as u32
    } else {
        UART_FIFO_DEPTH
    }
}

/// The FIFO status word of a looped-back UART with `len` bytes under way:
/// they wait to be read, and the other places are free.
pub open spec fn status_word(len: nat) -> u32 {
    with_field(
        with_field(no_fields(), 0, 8, (UART_FIFO_DEPTH - waiting(len)) as u32),
        8,
        8,
        waiting(len),
    ).value
}

/// The status word tells the driver what it stands for.
pub proof fn lemma_status_word(len: nat)
    ensures
        tx_free(status_word(len)) == UART_FIFO_DEPTH - waiting(len),
        rx_pending(status_word(len)) == waiting(len),
{
    let free = (UART_FIFO_DEPTH - waiting(len)) as u32;
    let waiting = waiting(len);
    let first = with_field(no_fields(), 0, 8, free);
    lemma_extract_insert(first.value, 8, 8, waiting);
    lemma_insert_keeps_other(first.value, 8, 8, waiting, 0, 8);
    lemma_extract_insert(0, 0, 8, free);
    assert(low_mask(8) == 0xff) by (bit_vector);
    assert(free & 0xff == free) by (bit_vector)
        requires
            free <= 32,
    ;
    assert(waiting & 0xff == waiting) by (bit_vector)
        requires
            waiting <= 32,
    ;
}

/// What a write of `word` comes to when `queue` is under way: the queue
/// afterwards, and whether the byte was taken.
pub open spec fn write_outcome(queue: Seq<u8>, word: u8) -> (Seq<u8>, bool) {
    if tx_free(status_word(queue.len())) != 0 {
        (queue.push(word), true)
    } else {
        (queue, false)
    }
}

/// What a read comes to when `queue` is under way: the queue afterwards,
/// and the byte read if there was one.
pub open spec fn read_outcome(queue: Seq<u8>) -> (Seq<u8>, Option<u8>) {
    if rx_pending(status_word(queue.len())) != 0 {
        (queue.drop_first(), Some(queue.first()))
    } else {
        (queue, None)
    }
}

/// The queue after `words` have been written one after the other,
/// starting from `queue`. `None` if one of the writes found no free place.
pub open spec fn write_all(queue: Seq<u8>, words: Seq<u8>) -> Option<Seq<u8>>
    decreases words.len(),
{
    if words.len() == 0 {
        Some(queue)
    } else {
        let (next, taken) = write_outcome(queue, words.first());
        if taken {
            write_all(next, words.drop_first())
        } else {
            None
        }
    }
}

/// The bytes that `count` reads one after the other give, starting from
/// `queue`, and the queue that they leave. `None` if one of the reads
/// found nothing waiting.
pub open spec fn read_all(queue: Seq<u8>, count: nat) -> Option<(Seq<u8>, Seq<u8>)>
    decreases count,
{
    if count == 0 {
        Some((Seq::<u8>::empty(), queue))
    } else {
        let (next, byte) = read_outcome(queue);
        match byte {
            Some(b) => match read_all(next, (count - 1) as nat) {
                Some((rest, left)) => Some((seq![b] + rest, left)),
                None => None,
            },
            None => None,
        }
    }
}

/// A write finds no place exactly when the queue is full, and a read finds
/// nothing exactly when it is empty.
pub proof fn lemma_blocks_when_full_or_empty(queue: Seq<u8>, word: u8)
    requires
        queue.len() <= UART_FIFO_DEPTH,
    ensures
        write_outcome(queue, word).1 <==> queue.len() < UART_FIFO_DEPTH,
        read_outcome(queue).1 is Some <==> queue.len() > 0,
{
    lemma_status_word(queue.len());
}

/// Writes that find room append to the queue, in order.
pub proof fn lemma_write_all(queue: Seq<u8>, words: Seq<u8>)
    requires
        queue.len() + words.len() <= UART_FIFO_DEPTH,
    ensures
        write_all(queue, words) == Some(queue + words),
    decreases words.len(),
{
    if words.len() == 0 {
        assert(queue + words =~= queue);
    } else {
        lemma_status_word(queue.len());
        lemma_write_all(queue.push(words.first()), words.drop_first());
        assert(queue.push(words.first()) + words.drop_first() =~= queue + words);
    }
}

/// Reads of what waits take it off the front of the queue, in order.
pub proof fn lemma_read_all(queue: Seq<u8>, count: nat)
    requires
        count <= queue.len() <= UART_FIFO_DEPTH,
    ensures
        read_all(queue, count) == Some(
            (queue.subrange(0, count as int), queue.subrange(count as int, queue.len() as int)),
        ),
    decreases count,
{
    if count == 0 {
        assert(queue.subrange(0, 0) =~= Seq::<u8>::empty());
        assert(queue.subrange(0, queue.len() as int) =~= queue);
    } else {
        lemma_status_word(queue.len());
        let next = queue.drop_first();
        lemma_read_all(next, (count - 1) as nat);
        assert(seq![queue.first()] + next.subrange(0, count - 1) =~= queue.subrange(
            0,
            count as int,
        ));
        assert(next.subrange(count - 1, next.len() as int) =~= queue.subrange(
            count as int,
            queue.len() as int,
        ));
    }
}

/// The FIFO keeps the order: as many bytes as the FIFO has places, written
/// one after the other into an empty FIFO, are all taken, and as many
/// reads give them back in the order in which they were written and leave
/// the FIFO empty.
pub proof fn lemma_fifo_order(words: Seq<u8>)
    requires
        words.len() <= UART_FIFO_DEPTH,
    ensures
        write_all(Seq::<u8>::empty(), words) == Some(words),
        read_all(words, words.len()) == Some((words, Seq::<u8>::empty())),
{
    lemma_write_all(Seq::<u8>::empty(), words);
    assert(Seq::<u8>::empty() + words =~= words);
    lemma_read_all(words, words.len());
    assert(words.subrange(0, words.len() as int) =~= words);
    assert(words.subrange(words.len() as int, words.len() as int) =~= Seq::<u8>::empty());
}

/// A UART with its line looped back: the bytes under way, oldest first.
#[derive(Debug)]
pub struct Loopback {
    queue: Vec<u8>,
}

impl View for Loopback {
    type V = Seq<u8>;

    closed spec fn view(&self) -> Seq<u8> {
        self.queue@
    }
}

impl Loopback {
    /// A looped-back UART with nothing under way.
    pub fn new() -> (device: Self)
        ensures
            device@ == Seq::<u8>::empty(),
    {
        Loopback { queue: Vec::new() }
    }

    /// The number of bytes under way.
    pub fn len(&self) -> (n: usize)
        ensures
            n == self@.len(),
    {
        self.queue.len()
    }

    /// What the FIFO status register reads: computes [`status_word`].
    pub fn fifo_config_1(&self) -> (word: u32)
        ensures
            word == status_word(self@.len()),
    {
        let len: usize = self.queue.len();
        let waiting: u32 = if len <= UART_FIFO_DEPTH as usize {
            len as u32
        } else {
            UART_FIFO_DEPTH
        };
        Fields::none().with(0, 8, UART_FIFO_DEPTH - waiting).with(8, 8, waiting).value
    }

    /// Carries out one action: a store to the entry of the transmit FIFO
    /// puts its byte into the queue if there is a free place; nothing else
    /// reaches the queue.
    pub fn execute(&mut self, action: Action)
        ensures
            final(self)@ == (match action {
                Action::Write { addr, value } => if addr == UART_FIFO_WDATA && old(self)@.len()
                    < UART_FIFO_DEPTH {
                    old(self)@.push(data_byte(value))
                } else {
                    old(self)@
                },
                _ => old(self)@,
            }),
    {
        match action {
            Action::Write { addr, value } => {
                if addr == UART_FIFO_WDATA && self.queue.len() < UART_FIFO_DEPTH as usize {
                    self.queue.push((value & 0xff) as u8);
                }
            },
            _ => {},
        }
    }

    /// What the exit of the receive FIFO reads: the oldest byte, which
    /// leaves the queue. Zero if nothing waits.
    pub fn rdata(&mut self) -> (word: u32)
        ensures
            old(self)@.len() > 0 ==> word == old(self)@.first() as u32 && final(self)@ == old(
                self,
            )@.drop_first(),
            old(self)@.len() == 0 ==> word == 0 && final(self)@ == old(self)@,
    {
        if self.queue.len() > 0 {
            let byte: u8 = self.queue.remove(0);
            assert(self.queue@ =~= old(self)@.drop_first());
            byte as u32
        } else {
            0
        }
    }

    /// Has the driver write one byte: the status is read, the driver
    /// decides, and what it asks for is carried out. Comes to
    /// [`write_outcome`].
    pub fn write<UART, PINS>(&mut self, serial: &mut Serial<UART, PINS>, word: u8) -> (r: Result<
        (),
        nb::Error<UartError>,
    >)
        ensures
            *final(serial) == *old(serial),
            final(self)@ == write_outcome(old(self)@, word).0,
            r == (if write_outcome(old(self)@, word).1 {
                Ok::<(), nb::Error<UartError>>(())
            } else {
                Err::<(), nb::Error<UartError>>(nb::Error::WouldBlock)
            }),
    {
        proof {
            lemma_status_word(self@.len());
        }
        let status: u32 = self.fifo_config_1();
        let mut program = Program::new();
        let r = serial.write(status, word, &mut program);
        match program.get(0) {
            Some(action) => {
                assert(word as u32 & 0xff == word as u32) by (bit_vector);
                self.execute(action);
            },
            None => {},
        }
        r
    }

    /// Has the driver read one byte: the status is read, the driver
    /// decides, and if it gives the go-ahead the exit of the FIFO is read.
    /// Comes to [`read_outcome`].
    pub fn read<UART, PINS>(&mut self, serial: &mut Serial<UART, PINS>) -> (r: Result<
        u8,
        nb::Error<UartError>,
    >)
        ensures
            *final(serial) == *old(serial),
            final(self)@ == read_outcome(old(self)@).0,
            r == (match read_outcome(old(self)@).1 {
                Some(byte) => Ok::<u8, nb::Error<UartError>>(byte),
                None => Err::<u8, nb::Error<UartError>>(nb::Error::WouldBlock),
            }),
    {
        proof {
            lemma_status_word(self@.len());
        }
        let status: u32 = self.fifo_config_1();
        match serial.read(status) {
            Ok(fetch) => {
                let word: u32 = self.rdata();
                assert(word & 0xff == word) by (bit_vector)
                    requires
                        word <= 0xff,
                ;
                Ok(fetch.complete(word))
            },
            Err(e) => Err(e),
        }
    }
}

} // verus!
