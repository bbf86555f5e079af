//! The decisions of the task that owns one upload: when to pull from the
//! upload source, when to close the stream, and when the whole upload is done.
//!
//! The task itself (polling the source, the drain and the reader tasks, and
//! waking) runs outside; each wakeup hands the outcome of those polls to
//! [`Ring::poll`] and performs the [`Step`] it returns.
use vstd::prelude::*;

use crate::ring::{pending_wakers, RingReader, RingState};

verus! {

/// Where the upload is in its life.
pub enum Phase<R> {
    /// The drain is still writing to durable storage.
    Running,
    /// The drain finished with this result; readers are still attached.
    ConsumerSettled(R),
    /// The result was handed out.
    Terminated,
}

/// What the owning task does after one decision.
pub enum Step<R, W> {
    /// The upload is over with the drain's result.
    Finished(R),
    /// Wake these and wait for the next wakeup.
    Wait(Vec<W>),
    /// Read up to this many bytes (never zero) from the upload source and pass
    /// the outcome to [`Ring::source_ready`].
    Pull(usize),
}

/// The outcome of one read from the upload source.
pub enum SourceRead {
    /// The bytes read; none at all means the upload ended.
    Data(Vec<u8>),
    /// The upload source failed.
    Failed(std::io::ErrorKind),
}

/// The phase change of one wakeup: the drain's outcome in this poll, if it
/// completed, and whether no reader task is left. The second component is the
/// result handed out, if any.
pub open spec fn settle_step<R>(phase: Phase<R>, consumer: Option<R>, readers_idle: bool) -> (
    Phase<R>,
    Option<R>,
) {
    match phase {
        Phase::Running => match consumer {
            Some(r) => if readers_idle {
                (Phase::Terminated, Some(r))
            } else {
                (Phase::ConsumerSettled(r), None)
            },
            None => (Phase::Running, None),
        },
        Phase::ConsumerSettled(r) => if readers_idle {
            (Phase::Terminated, Some(r))
        } else {
            (Phase::ConsumerSettled(r), None)
        },
        Phase::Terminated => (Phase::Terminated, None),
    }
}

/// The result handed out over a sequence of wakeups, each giving the drain's
/// outcome in that poll and whether no reader task was left; `None` if the
/// upload is not over by the end of the sequence.
pub open spec fn drive<R>(phase: Phase<R>, events: Seq<(Option<R>, bool)>) -> Option<R>
    decreases events.len(),
{
    if events.len() == 0 {
        None
    } else {
        let (next, out) = settle_step(phase, events[0].0, events[0].1);
        if out is Some {
            out
        } else {
            drive(next, events.drop_first())
        }
    }
}

pub open spec fn opt_seq<W>(o: Option<W>) -> Seq<W> {
    match o {
        Some(w) => seq![w],
        None => Seq::empty(),
    }
}

/// Whatever the readers do and whenever they finish, the upload's result is the
/// drain's result, handed out at the first wakeup at or after the drain
/// completed on which no reader task is left, and never earlier.
pub proof fn lemma_result_is_drain_result<R>(events: Seq<(Option<R>, bool)>, k: int, r: R)
    requires
        0 <= k < events.len(),
        events[k].0 == Some(r),
        forall|i: int| 0 <= i < events.len() && i != k ==> (#[trigger] events[i]).0 is None,
    ensures
        drive(Phase::Running, events) == (if exists|j: int| k <= j < events.len() && (#[trigger] events[j]).1 {
            Some(r)
        } else {
            None
        }),
    decreases events.len(),
{
    let rest = events.drop_first();
    if k == 0 {
        if !events[0].1 {
            lemma_settled_waits(rest, r);
            if exists|j: int| 0 <= j < events.len() && (#[trigger] events[j]).1 {
                let j = choose|j: int| 0 <= j < events.len() && (#[trigger] events[j]).1;
                assert(rest[j - 1] == events[j]);
            }
            if exists|j: int| 0 <= j < rest.len() && (#[trigger] rest[j]).1 {
                let j = choose|j: int| 0 <= j < rest.len() && (#[trigger] rest[j]).1;
                assert(events[j + 1] == rest[j]);
            }
        }
    } else {
        assert(events[0].0 is None);
        assert forall|i: int| 0 <= i < rest.len() && i != k - 1 implies (#[trigger] rest[i]).0 is None by {
            assert(rest[i] == events[i + 1]);
        }
        assert(rest[k - 1] == events[k]);
        lemma_result_is_drain_result(rest, k - 1, r);
        if exists|j: int| k <= j < events.len() && (#[trigger] events[j]).1 {
            let j = choose|j: int| k <= j < events.len() && (#[trigger] events[j]).1;
            assert(rest[j - 1] == events[j]);
        }
        if exists|j: int| k - 1 <= j < rest.len() && (#[trigger] rest[j]).1 {
            let j = choose|j: int| k - 1 <= j < rest.len() && (#[trigger] rest[j]).1;
            assert(events[j + 1] == rest[j]);
        }
    }
}

/// Once the drain settled with `r`, the result is `r` at the first wakeup with
/// no reader task left.
proof fn lemma_settled_waits<R>(events: Seq<(Option<R>, bool)>, r: R)
    ensures
        drive(Phase::ConsumerSettled(r), events) == (if exists|j: int| 0 <= j < events.len() && (#[trigger] events[j]).1 {
            Some(r)
        } else {
            None
        }),
    decreases events.len(),
{
    if events.len() > 0 {
        let rest = events.drop_first();
        lemma_settled_waits(rest, r);
        if !events[0].1 {
            if exists|j: int| 0 <= j < events.len() && (#[trigger] events[j]).1 {
                let j = choose|j: int| 0 <= j < events.len() && (#[trigger] events[j]).1;
                assert(rest[j - 1] == events[j]);
            }
            if exists|j: int| 0 <= j < rest.len() && (#[trigger] rest[j]).1 {
                let j = choose|j: int| 0 <= j < rest.len() && (#[trigger] rest[j]).1;
                assert(events[j + 1] == rest[j]);
            }
        }
    }
}

pub struct Ring<R> {
    phase: Phase<R>,
    source_active: bool,
}

impl<R> Ring<R> {
    pub closed spec fn phase_spec(&self) -> Phase<R> {
        self.phase
    }

    /// Whether the upload source is still being read.
    pub closed spec fn source_active_spec(&self) -> bool {
        self.source_active
    }

    /// The owner and the shared state agree: the source is read exactly while
    /// the stream is open, and once the drain settled it is read no more.
    pub open spec fn matches<W>(&self, state: &RingState<W>) -> bool {
        &&& state.wf()
        &&& (self.source_active_spec() ==> state.closed_spec() is None)
        &&& (!(self.phase_spec() is Terminated) && state.closed_spec() is None ==> self.source_active_spec())
        &&& (!(self.phase_spec() is Running) ==> !self.source_active_spec())
    }

    /// The owner of a fresh upload: running, with its source still to be read.
    pub fn new() -> (r: Ring<R>)
        ensures
            r.phase_spec() is Running,
            r.source_active_spec(),
    {
        Ring { phase: Phase::Running, source_active: true }
    }

    /// Whether the drain is still running, so that its task is polled.
    pub fn is_running(&self) -> (r: bool)
        ensures
            r == self.phase_spec() is Running,
    {
        match self.phase {
            Phase::Running => true,
            _ => false,
        }
    }

    pub fn is_terminated(&self) -> (r: bool)
        ensures
            r == self.phase_spec() is Terminated,
    {
        match self.phase {
            Phase::Terminated => true,
            _ => false,
        }
    }

    /// Attaches a new tail reader; possible at any time before the upload is over.
    pub fn push<W>(&self, state: &mut RingState<W>) -> (r: RingReader)
        requires
            !(self.phase_spec() is Terminated),
        ensures
            r.read_pos() == 0,
            r.waker_id_spec() == old(state).registry().len(),
            final(state).registry() == old(state).registry().push(None),
            final(state).queue_spec() == old(state).queue_spec(),
            final(state).closed_spec() == old(state).closed_spec(),
    {
        state.attach()
    }

    /// Ends the stream (if the source still ran) and collects whom to wake.
    fn stop_source<W>(&mut self, state: &mut RingState<W>, error: Option<std::io::ErrorKind>) -> (r: Vec<W>)
        requires
            old(state).wf(),
            old(state).closed_spec() is None,
        ensures
            final(self).phase_spec() == old(self).phase_spec(),
            !final(self).source_active_spec(),
            final(state).wf(),
            final(state).closed_spec() == Some(error),
            final(state).stream() == old(state).stream(),
            final(state).drain_pos() == old(state).drain_pos(),
            final(state).capacity_spec() == old(state).capacity_spec(),
            final(state).registry() == Seq::new(old(state).registry().len(), |i: int| None::<W>),
            r@ == opt_seq(old(state).queue_spec().drain_waiting()) + pending_wakers(old(state).registry()),
    {
        self.source_active = false;
        let drain = state.close(error);
        let mut wake: Vec<W> = Vec::new();
        match drain {
            Some(w) => wake.push(w),
            None => {},
        }
        let mut readers = state.take_reader_wakers();
        wake.append(&mut readers);
        proof {
            assert(wake@ =~= opt_seq(old(state).queue_spec().drain_waiting()) + pending_wakers(old(state).registry()));
        }
        wake
    }

    /// One wakeup of the owning task. `consumer` is the drain's result if it
    /// completed in this poll, `readers_idle` whether no reader task is left,
    /// `waker` the task's own waker (parked while the storage is full).
    pub fn poll<W>(&mut self, state: &mut RingState<W>, consumer: Option<R>, readers_idle: bool, waker: W) -> (r: Step<R, W>)
        requires
            old(self).matches(old(state)),
            !(old(self).phase_spec() is Terminated),
            consumer is Some ==> old(self).phase_spec() is Running,
        ensures
            final(self).matches(final(state)),
            final(self).phase_spec() == settle_step(old(self).phase_spec(), consumer, readers_idle).0,
            final(state).stream() == old(state).stream(),
            final(state).drain_pos() == old(state).drain_pos(),
            final(state).capacity_spec() == old(state).capacity_spec(),
            match settle_step(old(self).phase_spec(), consumer, readers_idle).1 {
                Some(x) => r == Step::<R, W>::Finished(x) && final(state).closed_spec() == old(state).closed_spec(),
                None => !(r is Finished),
            },
            // The drain settled while readers remain: the stream ends so that they can finish.
            (old(self).phase_spec() is Running && consumer is Some && !readers_idle) ==> {
                &&& final(state).closed_spec() == (if old(self).source_active_spec() {
                    Some(None::<std::io::ErrorKind>)
                } else {
                    old(state).closed_spec()
                })
                &&& r matches Step::Wait(ws) && ws@ == (if old(self).source_active_spec() {
                    opt_seq(old(state).queue_spec().drain_waiting())
                } else {
                    Seq::empty()
                }) + pending_wakers(old(state).registry())
            },
            // The drain still runs: read the source if it runs and there is room.
            (old(self).phase_spec() is Running && consumer is None) ==> {
                let free = old(state).drain_pos() + old(state).capacity_spec() - old(state).write_pos();
                if !old(self).source_active_spec() {
                    &&& final(state).closed_spec() == old(state).closed_spec()
                    &&& final(state).registry() == old(state).registry()
                    &&& (r matches Step::Wait(ws) && ws@.len() == 0)
                } else if old(state).queue_spec().is_abandoned() {
                    &&& final(state).closed_spec() == Some(None::<std::io::ErrorKind>)
                    &&& r matches Step::Wait(ws) && ws@ == opt_seq(old(state).queue_spec().drain_waiting())
                        + pending_wakers(old(state).registry())
                } else if free == 0 {
                    &&& final(state).queue_spec().producer_waiting() == Some(waker)
                    &&& final(state).closed_spec() is None
                    &&& final(state).registry() == old(state).registry()
                    &&& r matches Step::Wait(ws) && ws@.len() == 0
                } else {
                    &&& final(state).closed_spec() is None
                    &&& final(state).registry() == old(state).registry()
                    &&& final(state).queue_spec() == old(state).queue_spec()
                    &&& r == Step::<R, W>::Pull(free as usize)
                }
            },
            (old(self).phase_spec() is ConsumerSettled && !readers_idle) ==> (r matches Step::Wait(ws) && ws@.len() == 0),
    {
        let mut phase = Phase::Terminated;
        std::mem::swap(&mut phase, &mut self.phase);
        match phase {
            Phase::Running => {
                match consumer {
                    Some(res) => {
                        if readers_idle {
                            self.source_active = false;
                            return Step::Finished(res);
                        }
                        if self.source_active {
                            let wake = self.stop_source(state, None);
                            self.phase = Phase::ConsumerSettled(res);
                            return Step::Wait(wake);
                        }
                        self.phase = Phase::ConsumerSettled(res);
                        return Step::Wait(state.take_reader_wakers());
                    },
                    None => {
                        self.phase = Phase::Running;
                    },
                }
            },
            Phase::ConsumerSettled(res) => {
                if readers_idle {
                    return Step::Finished(res);
                }
                self.phase = Phase::ConsumerSettled(res);
                return Step::Wait(Vec::new());
            },
            Phase::Terminated => {
                return Step::Wait(Vec::new());
            },
        }
        if !self.source_active {
            return Step::Wait(Vec::new());
        }
        if state.drain_abandoned() {
            let wake = self.stop_source(state, None);
            return Step::Wait(wake);
        }
        let free = state.free_space();
        if free == 0 {
            state.wait_for_space(waker);
            return Step::Wait(Vec::new());
        }
        Step::Pull(free)
    }

    /// Hands the outcome of a [`Step::Pull`] to the stream: bytes are committed,
    /// an empty read ends the stream, a failure ends it with that error. The
    /// result is whom to wake: the parked drain and every parked reader.
    pub fn source_ready<W>(&mut self, state: &mut RingState<W>, read: SourceRead) -> (r: Vec<W>)
        requires
            old(self).matches(old(state)),
            old(self).source_active_spec(),
            read matches SourceRead::Data(bytes) ==> {
                &&& bytes@.len() <= old(state).drain_pos() + old(state).capacity_spec() - old(state).write_pos()
                &&& old(state).write_pos() + bytes@.len() <= u64::MAX
            },
        ensures
            final(self).matches(final(state)),
            final(self).phase_spec() == old(self).phase_spec(),
            final(state).drain_pos() == old(state).drain_pos(),
            final(state).capacity_spec() == old(state).capacity_spec(),
            final(state).registry() == Seq::new(old(state).registry().len(), |i: int| None::<W>),
            r@ == opt_seq(old(state).queue_spec().drain_waiting()) + pending_wakers(old(state).registry()),
            match read {
                SourceRead::Data(bytes) => {
                    &&& final(state).stream() == old(state).stream() + bytes@
                    &&& final(state).closed_spec() == (if bytes@.len() == 0 {
                        Some(None::<std::io::ErrorKind>)
                    } else {
                        None
                    })
                },
                SourceRead::Failed(k) => {
                    &&& final(state).stream() == old(state).stream()
                    &&& final(state).closed_spec() == Some(Some(k))
                },
            },
    {
        match read {
            SourceRead::Data(bytes) => {
                if bytes.len() == 0 {
                    proof {
                        assert(old(state).stream() + bytes@ =~= old(state).stream());
                    }
                    return self.stop_source(state, None);
                }
                let drain = state.commit(bytes.as_slice());
                let mut wake: Vec<W> = Vec::new();
                match drain {
                    Some(w) => wake.push(w),
                    None => {},
                }
                let mut readers = state.take_reader_wakers();
                wake.append(&mut readers);
                proof {
                    assert(wake@ =~= opt_seq(old(state).queue_spec().drain_waiting()) + pending_wakers(old(state).registry()));
                }
                wake
            },
            SourceRead::Failed(k) => self.stop_source(state, Some(k)),
        }
    }
}

} // verus!
