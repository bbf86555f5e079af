//! Reading an upload in flight: from the live buffer while the reader keeps
//! up, and from durable storage for the bytes that wraparound already evicted.
//!
//! The storage read itself runs outside: [`LiveBody::read`] says which range to
//! fetch, and [`LiveBody::storage_read`] takes what came back.
use vstd::prelude::*;

use crate::ring::{Overrun, RingReader, RingState, TailRead};

verus! {

/// What one read of an upload in flight yields.
pub enum LiveRead {
    /// This many live bytes were appended to the caller's buffer.
    Data(usize),
    /// The reader is at the end of a finished upload.
    Eof,
    /// The reader is at the end of an upload that failed.
    Failed(std::io::ErrorKind),
    /// Nothing new yet; the reader is parked.
    Pending,
    /// The live buffer no longer holds these bytes: read up to `len` bytes at
    /// `offset` from durable storage and pass them to [`LiveBody::storage_read`].
    FromStorage { offset: u64, len: usize },
}

/// The body of a response that serves an upload while it is still arriving.
pub struct LiveBody {
    ring_reader: RingReader,
}

impl LiveBody {
    pub closed spec fn reader(&self) -> RingReader {
        self.ring_reader
    }

    /// How many bytes of the upload were served so far.
    pub open spec fn served(&self) -> int {
        self.reader().read_pos()
    }

    pub fn new(ring_reader: RingReader) -> (r: LiveBody)
        ensures
            r.reader() == ring_reader,
    {
        LiveBody { ring_reader }
    }

    pub fn bytes_read(&self) -> (r: u64)
        ensures
            r == self.served(),
    {
        self.ring_reader.bytes_read()
    }

    /// Reads up to `max` bytes into `out`: live bytes when the buffer holds
    /// them, otherwise the storage range that replaces them.
    pub fn read<W>(&mut self, state: &mut RingState<W>, waker: W, max: usize, out: &mut Vec<u8>) -> (r: LiveRead)
        requires
            old(state).wf(),
            old(self).reader().waker_id_spec() < old(state).registry().len(),
        ensures
            final(state).queue_spec() == old(state).queue_spec(),
            final(state).closed_spec() == old(state).closed_spec(),
            final(state).registry() == old(state).registry().update(
                old(self).reader().waker_id_spec(),
                Some(waker),
            ),
            final(self).reader().waker_id_spec() == old(self).reader().waker_id_spec(),
            ({
                let w = old(state).write_pos();
                let c = old(self).served();
                if w - c > old(state).capacity_spec() {
                    &&& r == LiveRead::FromStorage { offset: c as u64, len: max }
                    &&& final(self).served() == c
                    &&& final(out)@ == old(out)@
                } else if w > c {
                    let n = if w - c < max { w - c } else { max as int };
                    &&& r == LiveRead::Data(n as usize)
                    &&& final(self).served() == c + n
                    &&& final(out)@ == old(out)@ + old(state).stream().subrange(c, c + n)
                } else {
                    &&& final(self).served() == c
                    &&& final(out)@ == old(out)@
                    &&& match old(state).closed_spec() {
                        Some(Some(k)) => r == LiveRead::Failed(k),
                        Some(None) => r == LiveRead::Eof,
                        None => r == LiveRead::Pending,
                    }
                }
            }),
    {
        match self.ring_reader.poll_read(state, waker, max, out) {
            TailRead::Data(n) => LiveRead::Data(n),
            TailRead::Eof => LiveRead::Eof,
            TailRead::Failed(k) => LiveRead::Failed(k),
            TailRead::Pending => LiveRead::Pending,
            TailRead::Overrun(Overrun) => LiveRead::FromStorage {
                offset: self.ring_reader.bytes_read(),
                len: max,
            },
        }
    }

    /// Takes the outcome of a storage read at the served offset: the bytes
    /// recovered are appended to `out` and the live cursor skips past them; a
    /// failed read leaves everything as it was.
    pub fn storage_read(&mut self, result: Result<Vec<u8>, std::io::ErrorKind>, out: &mut Vec<u8>) -> (r: Result<usize, std::io::ErrorKind>)
        requires
            result matches Ok(bytes) ==> old(self).served() + bytes@.len() <= u64::MAX,
        ensures
            final(self).reader().waker_id_spec() == old(self).reader().waker_id_spec(),
            match result {
                Ok(bytes) => {
                    &&& r == Ok::<usize, std::io::ErrorKind>(bytes@.len() as usize)
                    &&& final(self).served() == old(self).served() + bytes@.len()
                    &&& final(out)@ == old(out)@ + bytes@
                },
                Err(k) => {
                    &&& r == Err::<usize, std::io::ErrorKind>(k)
                    &&& final(self).served() == old(self).served()
                    &&& final(out)@ == old(out)@
                },
            },
    {
        match result {
            Ok(bytes) => {
                let n = bytes.len();
                self.ring_reader.skip(n as u64);
                let mut i: usize = 0;
                while i < n
                    invariant
                        n == bytes@.len(),
                        i <= n,
                        out@ == old(out)@ + bytes@.subrange(0, i as int),
                    decreases n - i,
                {
                    out.push(bytes[i]);
                    proof {
                        assert(bytes@.subrange(0, i + 1) =~= bytes@.subrange(0, i as int).push(bytes@[i as int]));
                    }
                    i = i + 1;
                }
                proof {
                    assert(bytes@.subrange(0, n as int) =~= bytes@);
                }
                Ok(n)
            },
            Err(k) => Err(k),
        }
    }
}

} // verus!
