//! Single-producer / single-drain flow control over a [`RingBuffer`].
//!
//! The producer fills free space and commits it; the drain reads committed
//! bytes and frees them. Offsets are counted from the start of the stream.
use vstd::prelude::*;

use crate::buffer::{lemma_slots_distinct, AllocationError, RingBuffer};

verus! {

pub struct Queue<W> {
    buffer: RingBuffer,
    write_cursor: u64,
    drain_cursor: u64,
    drain_abandoned: bool,
    producer_waker: Option<W>,
    drain_waker: Option<W>,
    stream: Ghost<Seq<u8>>,
}

/// A fresh queue over `capacity` bytes of storage; a zero capacity is refused.
pub fn queue<W>(capacity: usize) -> (r: Result<Queue<W>, AllocationError>)
    ensures
        capacity == 0 <==> r is Err,
        r matches Ok(q) ==> {
            &&& q.wf()
            &&& q.capacity_spec() == capacity
            &&& q.stream() == Seq::<u8>::empty()
            &&& q.drain_pos() == 0
            &&& !q.is_abandoned()
            &&& q.producer_waiting() is None
            &&& q.drain_waiting() is None
        },
{
    match RingBuffer::allocate(capacity) {
        Err(e) => Err(e),
        Ok(buffer) => Ok(
            Queue {
                buffer,
                write_cursor: 0,
                drain_cursor: 0,
                drain_abandoned: false,
                producer_waker: None,
                drain_waker: None,
                stream: Ghost(Seq::empty()),
            },
        ),
    }
}

impl<W> Queue<W> {
    /// Every byte committed so far, in order.
    pub closed spec fn stream(&self) -> Seq<u8> {
        self.stream@
    }

    /// The write cursor: how many bytes have been committed.
    pub open spec fn write_pos(&self) -> int {
        self.stream().len() as int
    }

    /// The drain cursor: how many bytes the drain has consumed.
    pub closed spec fn drain_pos(&self) -> int {
        self.drain_cursor as int
    }

    pub closed spec fn capacity_spec(&self) -> int {
        self.buffer@.len() as int
    }

    pub closed spec fn is_abandoned(&self) -> bool {
        self.drain_abandoned
    }

    pub closed spec fn producer_waiting(&self) -> Option<W> {
        self.producer_waker
    }

    pub closed spec fn drain_waiting(&self) -> Option<W> {
        self.drain_waker
    }

    /// The oldest offset whose byte is still held in storage.
    pub open spec fn retained_from(&self) -> int {
        if self.write_pos() >= self.capacity_spec() {
            self.write_pos() - self.capacity_spec()
        } else {
            0
        }
    }

    pub closed spec fn wf(&self) -> bool {
        &&& self.buffer@.len() > 0
        &&& self.drain_cursor <= self.write_cursor
        &&& self.write_cursor - self.drain_cursor <= self.buffer@.len()
        &&& self.stream@.len() == self.write_cursor
        &&& forall|p: int|
            self.write_cursor - self.buffer@.len() <= p < self.write_cursor && 0 <= p
                ==> self.buffer@[p % (self.buffer@.len() as int)] == #[trigger] self.stream@[p]
    }

    /// The cursors of a well-formed queue: `drain <= write <= drain + capacity`.
    pub proof fn lemma_cursor_bounds(&self)
        requires
            self.wf(),
        ensures
            self.capacity_spec() > 0,
            0 <= self.drain_pos() <= self.write_pos() <= self.drain_pos() + self.capacity_spec(),
            self.write_pos() <= u64::MAX,
    {
    }

    pub fn capacity(&self) -> (r: usize)
        requires
            self.wf(),
        ensures
            r == self.capacity_spec(),
    {
        self.buffer.capacity()
    }

    pub fn write_cursor(&self) -> (r: u64)
        requires
            self.wf(),
        ensures
            r == self.write_pos(),
    {
        self.write_cursor
    }

    pub fn drain_cursor(&self) -> (r: u64)
        ensures
            r == self.drain_pos(),
    {
        self.drain_cursor
    }

    pub fn drain_abandoned(&self) -> (r: bool)
        ensures
            r == self.is_abandoned(),
    {
        self.drain_abandoned
    }

    /// How many bytes the producer may commit now: `drain + capacity - write`.
    pub fn free_space(&self) -> (r: usize)
        requires
            self.wf(),
        ensures
            r == self.drain_pos() + self.capacity_spec() - self.write_pos(),
    {
        (self.buffer.capacity() as u64 - (self.write_cursor - self.drain_cursor)) as usize
    }

    /// How many committed bytes the drain has not consumed: `write - drain`.
    pub fn readable(&self) -> (r: usize)
        requires
            self.wf(),
        ensures
            r == self.write_pos() - self.drain_pos(),
    {
        let c = self.buffer.capacity();
        let d = self.write_cursor - self.drain_cursor;
        assert(d <= c);
        d as usize
    }

    /// Parks the producer until space is freed.
    pub fn wait_for_space(&mut self, waker: W)
        requires
            old(self).wf(),
        ensures
            final(self).wf(),
            final(self).producer_waiting() == Some(waker),
            final(self).drain_waiting() == old(self).drain_waiting(),
            final(self).stream() == old(self).stream(),
            final(self).drain_pos() == old(self).drain_pos(),
            final(self).capacity_spec() == old(self).capacity_spec(),
            final(self).is_abandoned() == old(self).is_abandoned(),
    {
        self.producer_waker = Some(waker);
    }

    /// Parks the drain until bytes are committed.
    pub fn wait_for_data(&mut self, waker: W)
        requires
            old(self).wf(),
        ensures
            final(self).wf(),
            final(self).drain_waiting() == Some(waker),
            final(self).producer_waiting() == old(self).producer_waiting(),
            final(self).stream() == old(self).stream(),
            final(self).drain_pos() == old(self).drain_pos(),
            final(self).capacity_spec() == old(self).capacity_spec(),
            final(self).is_abandoned() == old(self).is_abandoned(),
    {
        self.drain_waker = Some(waker);
    }

    /// Takes the parked drain, if any, so that it can be woken.
    pub fn take_drain_waker(&mut self) -> (r: Option<W>)
        requires
            old(self).wf(),
        ensures
            final(self).wf(),
            r == old(self).drain_waiting(),
            final(self).drain_waiting() is None,
            final(self).producer_waiting() == old(self).producer_waiting(),
            final(self).stream() == old(self).stream(),
            final(self).drain_pos() == old(self).drain_pos(),
            final(self).capacity_spec() == old(self).capacity_spec(),
            final(self).is_abandoned() == old(self).is_abandoned(),
    {
        self.drain_waker.take()
    }

    /// Commits `bytes` after the write cursor and hands back the parked drain.
    pub fn written(&mut self, bytes: &[u8]) -> (r: Option<W>)
        requires
            old(self).wf(),
            bytes@.len() <= old(self).drain_pos() + old(self).capacity_spec() - old(self).write_pos(),
            old(self).write_pos() + bytes@.len() <= u64::MAX,
        ensures
            final(self).wf(),
            final(self).stream() == old(self).stream() + bytes@,
            final(self).drain_pos() == old(self).drain_pos(),
            final(self).capacity_spec() == old(self).capacity_spec(),
            final(self).is_abandoned() == old(self).is_abandoned(),
            final(self).producer_waiting() == old(self).producer_waiting(),
            final(self).drain_waiting() is None,
            r == old(self).drain_waiting(),
    {
        let ghost start = self.stream@;
        let ghost c = self.buffer@.len() as int;
        let mut i: usize = 0;
        while i < bytes.len()
            invariant
                self.wf(),
                i <= bytes@.len(),
                self.buffer@.len() == c,
                self.stream@ == start + bytes@.subrange(0, i as int),
                self.drain_cursor == old(self).drain_cursor,
                self.drain_abandoned == old(self).drain_abandoned,
                self.producer_waker == old(self).producer_waker,
                self.drain_waker == old(self).drain_waker,
                start == old(self).stream@,
                old(self).write_cursor + bytes@.len() <= u64::MAX,
                old(self).write_cursor - old(self).drain_cursor + bytes@.len() <= c,
                self.write_cursor == old(self).write_cursor + i,
            decreases bytes@.len() - i,
        {
            let b = bytes[i];
            let ghost prev_buf = self.buffer@;
            let ghost prev_stream = self.stream@;
            let w = self.write_cursor;
            self.buffer.store(w, b);
            self.write_cursor = w + 1;
            self.stream = Ghost(prev_stream.push(b));
            proof {
                assert(bytes@.subrange(0, i + 1) =~= bytes@.subrange(0, i as int).push(b));
                assert forall|p: int|
                    self.write_cursor - c <= p < self.write_cursor && 0 <= p implies self.buffer@[p
                    % c] == #[trigger] self.stream@[p] by {
                    if p < w {
                        lemma_slots_distinct(w as int, p, c);
                        assert(prev_stream[p] == prev_buf[p % c]);
                    }
                }
            }
            i = i + 1;
        }
        proof {
            assert(bytes@.subrange(0, bytes@.len() as int) =~= bytes@);
        }
        self.drain_waker.take()
    }

    /// Appends the committed bytes at offsets `[pos, pos + len)` to `out`.
    pub fn buffer_from(&self, pos: u64, len: usize, out: &mut Vec<u8>)
        requires
            self.wf(),
            self.retained_from() <= pos,
            pos + len <= self.write_pos(),
        ensures
            final(out)@ == old(out)@ + self.stream().subrange(pos as int, pos + len),
    {
        let ghost c = self.buffer@.len() as int;
        let mut i: usize = 0;
        while i < len
            invariant
                self.wf(),
                c == self.buffer@.len(),
                i <= len,
                self.retained_from() <= pos,
                pos + len <= self.write_pos(),
                out@ == old(out)@ + self.stream().subrange(pos as int, pos + i),
            decreases len - i,
        {
            let p = pos + i as u64;
            let b = self.buffer.byte_at(p);
            proof {
                assert(self.stream@[p as int] == self.buffer@[p as int % c]);
            }
            out.push(b);
            proof {
                assert(self.stream().subrange(pos as int, pos + i + 1) =~= self.stream().subrange(
                    pos as int,
                    pos + i,
                ).push(b));
            }
            i = i + 1;
        }
    }

    /// Frees the `n` oldest unconsumed bytes and hands back the parked producer.
    pub fn consume(&mut self, n: usize) -> (r: Option<W>)
        requires
            old(self).wf(),
            n <= old(self).write_pos() - old(self).drain_pos(),
        ensures
            final(self).wf(),
            final(self).drain_pos() == old(self).drain_pos() + n,
            final(self).stream() == old(self).stream(),
            final(self).capacity_spec() == old(self).capacity_spec(),
            final(self).is_abandoned() == old(self).is_abandoned(),
            final(self).drain_waiting() == old(self).drain_waiting(),
            final(self).producer_waiting() is None,
            r == old(self).producer_waiting(),
    {
        self.drain_cursor = self.drain_cursor + n as u64;
        self.producer_waker.take()
    }

    /// The drain gave up: the producer must stop committing.
    pub fn abandon_drain(&mut self)
        requires
            old(self).wf(),
        ensures
            final(self).wf(),
            final(self).is_abandoned(),
            final(self).stream() == old(self).stream(),
            final(self).drain_pos() == old(self).drain_pos(),
            final(self).capacity_spec() == old(self).capacity_spec(),
            final(self).drain_waiting() == old(self).drain_waiting(),
            final(self).producer_waiting() == old(self).producer_waiting(),
    {
        self.drain_abandoned = true;
    }
}

} // verus!
