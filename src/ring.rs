//! The state shared by one upload: the queue, how the upload ended, and the
//! wake registry of the live tail readers attached to it.
use vstd::prelude::*;

use crate::buffer::AllocationError;
use crate::queue::{queue, Queue};

verus! {

/// `std::io::ErrorKind` is carried through as an opaque value: the kind of the
/// error that ended the upload, as each reader and the drain report it.
#[verifier::external_type_specification]
#[verifier::external_body]
pub struct ExErrorKind(std::io::ErrorKind);

/// A tail reader fell more than a capacity behind the write cursor: the bytes
/// it has not read yet are no longer held.
#[derive(Debug, Clone, Copy, PartialEq, Eq, Structural)]
pub struct Overrun;

/// What one poll of the drain side yields.
pub enum DrainPoll {
    /// This many bytes were appended to the caller's buffer.
    Data(usize),
    /// Everything was drained and the upload finished.
    Eof,
    /// Everything was drained and the upload failed.
    Failed(std::io::ErrorKind),
    /// Nothing to drain yet; the drain is parked.
    Pending,
}

/// What one poll of a live tail reader yields.
pub enum TailRead {
    /// This many bytes were appended to the caller's buffer.
    Data(usize),
    /// The reader is at the write cursor and the upload finished.
    Eof,
    /// The reader is at the write cursor and the upload failed.
    Failed(std::io::ErrorKind),
    /// The reader lost bytes to wraparound.
    Overrun(Overrun),
    /// The reader is at the write cursor of a running upload; it is parked.
    Pending,
}

/// The live pending wakers of a registry, in the order of their entries.
pub open spec fn pending_wakers<W>(entries: Seq<Option<W>>) -> Seq<W>
    decreases entries.len(),
{
    if entries.len() == 0 {
        Seq::empty()
    } else {
        let rest = pending_wakers(entries.drop_last());
        match entries.last() {
            Some(w) => rest.push(w),
            None => rest,
        }
    }
}

pub struct RingState<W> {
    queue: Queue<W>,
    closed: Option<Option<std::io::ErrorKind>>,
    wakers: Vec<Option<W>>,
}

/// One attachment: a cursor into the stream, independent of the drain.
pub struct RingReader {
    bytes_read: u64,
    waker_id: usize,
}

impl<W> RingState<W> {
    pub closed spec fn queue_spec(&self) -> Queue<W> {
        self.queue
    }

    /// `None` while the producer runs; `Some(None)` after it finished;
    /// `Some(Some(k))` after it failed.
    pub closed spec fn closed_spec(&self) -> Option<Option<std::io::ErrorKind>> {
        self.closed
    }

    pub closed spec fn registry(&self) -> Seq<Option<W>> {
        self.wakers@
    }

    pub open spec fn stream(&self) -> Seq<u8> {
        self.queue_spec().stream()
    }

    pub open spec fn write_pos(&self) -> int {
        self.queue_spec().write_pos()
    }

    pub open spec fn drain_pos(&self) -> int {
        self.queue_spec().drain_pos()
    }

    pub open spec fn capacity_spec(&self) -> int {
        self.queue_spec().capacity_spec()
    }

    pub open spec fn wf(&self) -> bool {
        self.queue_spec().wf()
    }

    /// The shared state of a new upload over `capacity` bytes of storage.
    pub fn new(capacity: usize) -> (r: Result<RingState<W>, AllocationError>)
        ensures
            capacity == 0 <==> r is Err,
            r matches Ok(s) ==> {
                &&& s.wf()
                &&& s.capacity_spec() == capacity
                &&& s.stream() == Seq::<u8>::empty()
                &&& s.drain_pos() == 0
                &&& s.closed_spec() is None
                &&& s.registry() == Seq::<Option<W>>::empty()
                &&& !s.queue_spec().is_abandoned()
                &&& s.queue_spec().producer_waiting() is None
                &&& s.queue_spec().drain_waiting() is None
            },
    {
        match queue(capacity) {
            Err(e) => Err(e),
            Ok(q) => Ok(RingState { queue: q, closed: None, wakers: Vec::new() }),
        }
    }

    pub fn capacity(&self) -> (r: usize)
        requires
            self.wf(),
        ensures
            r == self.capacity_spec(),
    {
        self.queue.capacity()
    }

    pub fn bytes_written(&self) -> (r: u64)
        requires
            self.wf(),
        ensures
            r == self.write_pos(),
    {
        self.queue.write_cursor()
    }

    pub fn bytes_drained(&self) -> (r: u64)
        ensures
            r == self.drain_pos(),
    {
        self.queue.drain_cursor()
    }

    pub fn closed(&self) -> (r: Option<Option<std::io::ErrorKind>>)
        ensures
            r == self.closed_spec(),
    {
        self.closed
    }

    pub fn attachments(&self) -> (r: usize)
        ensures
            r == self.registry().len(),
    {
        self.wakers.len()
    }

    pub fn drain_abandoned(&self) -> (r: bool)
        ensures
            r == self.queue_spec().is_abandoned(),
    {
        self.queue.drain_abandoned()
    }

    /// How many bytes the producer may commit now: `drain + capacity - write`.
    pub fn free_space(&self) -> (r: usize)
        requires
            self.wf(),
        ensures
            r == self.drain_pos() + self.capacity_spec() - self.write_pos(),
    {
        self.queue.free_space()
    }

    /// Parks the producer until the drain frees space.
    pub fn wait_for_space(&mut self, waker: W)
        requires
            old(self).wf(),
        ensures
            final(self).wf(),
            final(self).queue_spec().producer_waiting() == Some(waker),
            final(self).stream() == old(self).stream(),
            final(self).drain_pos() == old(self).drain_pos(),
            final(self).capacity_spec() == old(self).capacity_spec(),
            final(self).closed_spec() == old(self).closed_spec(),
            final(self).registry() == old(self).registry(),
    {
        self.queue.wait_for_space(waker)
    }

    /// The drain gave up before the upload ended: the producer stops.
    pub fn abandon_drain(&mut self)
        requires
            old(self).wf(),
        ensures
            final(self).wf(),
            final(self).queue_spec().is_abandoned(),
            final(self).stream() == old(self).stream(),
            final(self).drain_pos() == old(self).drain_pos(),
            final(self).capacity_spec() == old(self).capacity_spec(),
            final(self).closed_spec() == old(self).closed_spec(),
            final(self).registry() == old(self).registry(),
    {
        self.queue.abandon_drain()
    }

    /// Attaches a new tail reader at offset 0 with an idle registry entry.
    /// Nothing else changes: the producer, the drain and the other readers go on as before.
    pub fn attach(&mut self) -> (r: RingReader)
        ensures
            r.read_pos() == 0,
            r.waker_id_spec() == old(self).registry().len(),
            final(self).registry() == old(self).registry().push(None),
            final(self).queue_spec() == old(self).queue_spec(),
            final(self).closed_spec() == old(self).closed_spec(),
    {
        let waker_id = self.wakers.len();
        self.wakers.push(None);
        RingReader { bytes_read: 0, waker_id }
    }

    /// Takes every pending reader waker, leaving all entries idle.
    pub fn take_reader_wakers(&mut self) -> (r: Vec<W>)
        ensures
            r@ == pending_wakers(old(self).registry()),
            final(self).registry() == Seq::new(old(self).registry().len(), |i: int| None::<W>),
            final(self).queue_spec() == old(self).queue_spec(),
            final(self).closed_spec() == old(self).closed_spec(),
    {
        let mut woken: Vec<W> = Vec::new();
        let n = self.wakers.len();
        let mut i: usize = 0;
        while i < n
            invariant
                n == old(self).wakers@.len(),
                self.wakers@.len() == n,
                i <= n,
                woken@ == pending_wakers(old(self).wakers@.take(i as int)),
                forall|j: int| 0 <= j < i ==> self.wakers@[j] is None,
                forall|j: int| i <= j < n ==> self.wakers@[j] == old(self).wakers@[j],
                self.queue == old(self).queue,
                self.closed == old(self).closed,
            decreases n - i,
        {
            let mut entry: Option<W> = None;
            self.wakers.set_and_swap(i, &mut entry);
            proof {
                let t = old(self).wakers@.take(i + 1);
                assert(t.drop_last() =~= old(self).wakers@.take(i as int));
                assert(t.last() == entry);
            }
            match entry {
                Some(w) => woken.push(w),
                None => {},
            }
            i = i + 1;
        }
        proof {
            assert(old(self).wakers@.take(n as int) =~= old(self).wakers@);
            assert(self.wakers@ =~= Seq::new(n as nat, |i: int| None::<W>));
        }
        woken
    }

    /// Commits `bytes` produced by the upload and hands back the parked drain.
    pub fn commit(&mut self, bytes: &[u8]) -> (r: Option<W>)
        requires
            old(self).wf(),
            old(self).closed_spec() is None,
            bytes@.len() <= old(self).drain_pos() + old(self).capacity_spec() - old(self).write_pos(),
            old(self).write_pos() + bytes@.len() <= u64::MAX,
        ensures
            final(self).wf(),
            final(self).stream() == old(self).stream() + bytes@,
            final(self).drain_pos() == old(self).drain_pos(),
            final(self).capacity_spec() == old(self).capacity_spec(),
            final(self).closed_spec() is None,
            final(self).registry() == old(self).registry(),
            r == old(self).queue_spec().drain_waiting(),
    {
        self.queue.written(bytes)
    }

    /// Records how the upload ended and hands back the parked drain.
    pub fn close(&mut self, error: Option<std::io::ErrorKind>) -> (r: Option<W>)
        requires
            old(self).wf(),
            old(self).closed_spec() is None,
        ensures
            final(self).wf(),
            final(self).closed_spec() == Some(error),
            final(self).stream() == old(self).stream(),
            final(self).drain_pos() == old(self).drain_pos(),
            final(self).capacity_spec() == old(self).capacity_spec(),
            final(self).registry() == old(self).registry(),
            final(self).queue_spec().is_abandoned() == old(self).queue_spec().is_abandoned(),
            r == old(self).queue_spec().drain_waiting(),
    {
        self.closed = Some(error);
        self.queue.take_drain_waker()
    }

    /// One poll of the drain: appends up to `max` undrained bytes to `out`
    /// without consuming them; at the write cursor reports how the upload
    /// ended, or parks `waker` while it runs.
    pub fn poll_fill_buf(&mut self, waker: W, max: usize, out: &mut Vec<u8>) -> (r: DrainPoll)
        requires
            old(self).wf(),
        ensures
            final(self).wf(),
            final(self).stream() == old(self).stream(),
            final(self).drain_pos() == old(self).drain_pos(),
            final(self).capacity_spec() == old(self).capacity_spec(),
            final(self).closed_spec() == old(self).closed_spec(),
            final(self).registry() == old(self).registry(),
            ({
                let avail = old(self).write_pos() - old(self).drain_pos();
                let d = old(self).drain_pos();
                if avail > 0 {
                    let n = if avail < max { avail } else { max as int };
                    &&& r == DrainPoll::Data(n as usize)
                    &&& final(out)@ == old(out)@ + old(self).stream().subrange(d, d + n)
                } else {
                    &&& final(out)@ == old(out)@
                    &&& match old(self).closed_spec() {
                        Some(Some(k)) => r == DrainPoll::Failed(k),
                        Some(None) => r == DrainPoll::Eof,
                        None => r == DrainPoll::Pending,
                    }
                }
            }),
    {
        let avail = self.queue.readable();
        if avail > 0 {
            let n = if avail < max {
                avail
            } else {
                max
            };
            let d = self.queue.drain_cursor();
            proof {
                self.queue.lemma_cursor_bounds();
            }
            self.queue.buffer_from(d, n, out);
            return DrainPoll::Data(n);
        }
        match self.closed {
            Some(Some(k)) => DrainPoll::Failed(k),
            Some(None) => DrainPoll::Eof,
            None => {
                self.queue.wait_for_data(waker);
                DrainPoll::Pending
            },
        }
    }

    /// Frees the `n` oldest undrained bytes and hands back the parked producer.
    pub fn consume(&mut self, n: usize) -> (r: Option<W>)
        requires
            old(self).wf(),
            n <= old(self).write_pos() - old(self).drain_pos(),
        ensures
            final(self).wf(),
            final(self).drain_pos() == old(self).drain_pos() + n,
            final(self).stream() == old(self).stream(),
            final(self).capacity_spec() == old(self).capacity_spec(),
            final(self).closed_spec() == old(self).closed_spec(),
            final(self).registry() == old(self).registry(),
            r == old(self).queue_spec().producer_waiting(),
    {
        self.queue.consume(n)
    }
}

impl RingReader {
    pub closed spec fn read_pos(&self) -> int {
        self.bytes_read as int
    }

    pub closed spec fn waker_id_spec(&self) -> int {
        self.waker_id as int
    }

    pub fn bytes_read(&self) -> (r: u64)
        ensures
            r == self.read_pos(),
    {
        self.bytes_read
    }

    pub fn waker_id(&self) -> (r: usize)
        ensures
            r == self.waker_id_spec(),
    {
        self.waker_id
    }

    /// Moves the cursor past `amount` bytes that were obtained elsewhere.
    pub fn skip(&mut self, amount: u64)
        requires
            old(self).read_pos() + amount <= u64::MAX,
        ensures
            final(self).read_pos() == old(self).read_pos() + amount,
            final(self).waker_id_spec() == old(self).waker_id_spec(),
    {
        self.bytes_read = self.bytes_read + amount;
    }

    /// One poll of this reader: parks `waker` in its registry entry, then
    /// reports an overrun, appends up to `max` visible bytes to `out`, or
    /// reports how the upload ended (parked while it runs).
    pub fn poll_read<W>(&mut self, state: &mut RingState<W>, waker: W, max: usize, out: &mut Vec<u8>) -> (r: TailRead)
        requires
            old(state).wf(),
            old(self).waker_id_spec() < old(state).registry().len(),
        ensures
            final(state).queue_spec() == old(state).queue_spec(),
            final(state).closed_spec() == old(state).closed_spec(),
            final(state).registry() == old(state).registry().update(old(self).waker_id_spec(), Some(waker)),
            final(self).waker_id_spec() == old(self).waker_id_spec(),
            ({
                let w = old(state).write_pos();
                let c = old(self).read_pos();
                if w - c > old(state).capacity_spec() {
                    &&& r == TailRead::Overrun(Overrun)
                    &&& final(self).read_pos() == c
                    &&& final(out)@ == old(out)@
                } else if w > c {
                    let n = if w - c < max { w - c } else { max as int };
                    &&& r == TailRead::Data(n as usize)
                    &&& final(self).read_pos() == c + n
                    &&& final(out)@ == old(out)@ + old(state).stream().subrange(c, c + n)
                } else {
                    &&& final(self).read_pos() == c
                    &&& final(out)@ == old(out)@
                    &&& match old(state).closed_spec() {
                        Some(Some(k)) => r == TailRead::Failed(k),
                        Some(None) => r == TailRead::Eof,
                        None => r == TailRead::Pending,
                    }
                }
            }),
    {
        let mut entry = Some(waker);
        state.wakers.set_and_swap(self.waker_id, &mut entry);
        proof {
            state.queue.lemma_cursor_bounds();
        }
        let written = state.queue.write_cursor();
        let cap = state.queue.capacity() as u64;
        if written > self.bytes_read && written - self.bytes_read > cap {
            return TailRead::Overrun(Overrun);
        }
        if written > self.bytes_read {
            let avail = written - self.bytes_read;
            let n = if avail < max as u64 {
                avail as usize
            } else {
                max
            };
            state.queue.buffer_from(self.bytes_read, n, out);
            self.bytes_read = self.bytes_read + n as u64;
            TailRead::Data(n)
        } else {
            match state.closed {
                Some(Some(k)) => TailRead::Failed(k),
                Some(None) => TailRead::Eof,
                None => TailRead::Pending,
            }
        }
    }
}

} // verus!
