//! Properties of the live buffer that span many calls.
//!
//! A tail reader is modelled by the events that reach it: the producer commits
//! bytes, the reader polls the live buffer for up to some number of bytes, or
//! the reader recovers bytes from durable storage. Each event changes the model
//! exactly as the matching call changes the real state:
//! [`RingState::commit`], [`crate::ring::RingReader::poll_read`] and
//! [`crate::fallback::LiveBody::storage_read`] given bytes that storage holds.
use vstd::prelude::*;

use crate::ring::RingState;

verus! {

pub enum TailEvent {
    /// The producer commits these bytes.
    Commit(Seq<u8>),
    /// The reader polls for up to this many bytes.
    Poll(nat),
    /// The reader gets this many bytes at its cursor from durable storage,
    /// which holds only committed bytes.
    Recover(nat),
}

pub struct TailModel {
    /// Every byte committed so far.
    pub stream: Seq<u8>,
    /// The reader's cursor.
    pub cursor: int,
    /// Every byte the reader handed on so far.
    pub out: Seq<u8>,
    /// How many polls reported an overrun.
    pub overruns: nat,
}

pub open spec fn tail_start() -> TailModel {
    TailModel { stream: Seq::empty(), cursor: 0, out: Seq::empty(), overruns: 0 }
}

pub open spec fn tail_apply(m: TailModel, capacity: int, e: TailEvent) -> TailModel {
    let w = m.stream.len() as int;
    let c = m.cursor;
    match e {
        TailEvent::Commit(bytes) => TailModel { stream: m.stream + bytes, ..m },
        TailEvent::Poll(max) => if w - c > capacity {
            TailModel { overruns: m.overruns + 1, ..m }
        } else if w > c {
            let n = if w - c < max { w - c } else { max as int };
            TailModel { cursor: c + n, out: m.out + m.stream.subrange(c, c + n), ..m }
        } else {
            m
        },
        TailEvent::Recover(n) => if c + n <= w {
            TailModel { cursor: c + n, out: m.out + m.stream.subrange(c, c + n), ..m }
        } else {
            m
        },
    }
}

pub open spec fn tail_run(capacity: int, events: Seq<TailEvent>) -> TailModel
    decreases events.len(),
{
    if events.len() == 0 {
        tail_start()
    } else {
        tail_apply(tail_run(capacity, events.drop_last()), capacity, events.last())
    }
}

/// A poll that comes before the producer got a capacity ahead of the reader.
pub open spec fn polled_promptly(capacity: int, events: Seq<TailEvent>) -> bool {
    forall|i: int|
        0 <= i < events.len() && (#[trigger] events[i]) is Poll ==> {
            let m = tail_run(capacity, events.take(i));
            m.stream.len() - m.cursor <= capacity
        }
}

/// The cursors of the shared state satisfy `drain <= write <= drain + capacity`
/// whatever was committed and consumed before: every operation keeps the state
/// well formed.
pub proof fn lemma_cursors_ordered<W>(state: &RingState<W>)
    requires
        state.wf(),
    ensures
        0 <= state.drain_pos() <= state.write_pos() <= state.drain_pos() + state.capacity_spec(),
{
    state.queue_spec().lemma_cursor_bounds();
}

/// Whatever is committed, polled and recovered, a reader has handed on exactly
/// the first `cursor` bytes of the stream, in order, with no gap and no repeat.
pub proof fn lemma_reader_copies_stream(capacity: int, events: Seq<TailEvent>)
    requires
        capacity > 0,
    ensures
        ({
            let m = tail_run(capacity, events);
            &&& 0 <= m.cursor <= m.stream.len()
            &&& m.out == m.stream.take(m.cursor)
        }),
    decreases events.len(),
{
    if events.len() > 0 {
        lemma_reader_copies_stream(capacity, events.drop_last());
        let m = tail_run(capacity, events.drop_last());
        let c = m.cursor;
        let w = m.stream.len() as int;
        match events.last() {
            TailEvent::Commit(bytes) => {
                assert((m.stream + bytes).take(c) =~= m.stream.take(c));
            },
            TailEvent::Poll(max) => {
                if w - c <= capacity && w > c {
                    let n = if w - c < max { w - c } else { max as int };
                    assert(m.stream.take(c) + m.stream.subrange(c, c + n) =~= m.stream.take(c + n));
                }
            },
            TailEvent::Recover(n) => {
                if c + n <= w {
                    assert(m.stream.take(c) + m.stream.subrange(c, c + n as int) =~= m.stream.take(
                        c + n,
                    ));
                }
            },
        }
    }
}

/// A reader that overran rejoins the live buffer once storage supplied the
/// bytes up to a capacity behind the write cursor: with nothing committed in
/// between, its next poll reports no second overrun.
pub proof fn lemma_recovery_rejoins_live(capacity: int, m: TailModel, n: nat, max: nat)
    requires
        capacity > 0,
        0 <= m.cursor,
        m.stream.len() - m.cursor > capacity,
        m.stream.len() - capacity <= m.cursor + n <= m.stream.len(),
    ensures
        tail_apply(tail_apply(m, capacity, TailEvent::Recover(n)), capacity, TailEvent::Poll(max)).overruns
            == m.overruns,
{
}

/// A reader attached before any byte was written and polled before the
/// producer gets a capacity ahead of it never sees an overrun, and hands on an
/// exact copy of the stream up to its cursor.
pub proof fn lemma_prompt_reader_never_overruns(capacity: int, events: Seq<TailEvent>)
    requires
        capacity > 0,
        polled_promptly(capacity, events),
    ensures
        tail_run(capacity, events).overruns == 0,
        tail_run(capacity, events).out == tail_run(capacity, events).stream.take(
            tail_run(capacity, events).cursor,
        ),
    decreases events.len(),
{
    lemma_reader_copies_stream(capacity, events);
    if events.len() > 0 {
        let front = events.drop_last();
        assert forall|i: int| 0 <= i < front.len() && (#[trigger] front[i]) is Poll implies {
            let m = tail_run(capacity, front.take(i));
            m.stream.len() - m.cursor <= capacity
        } by {
            assert(front.take(i) =~= events.take(i));
            assert(events[i] == front[i]);
        }
        lemma_prompt_reader_never_overruns(capacity, front);
        let last = events.len() - 1;
        assert(events.take(last) =~= front);
        assert(events[last] == events.last());
    }
}

} // verus!
