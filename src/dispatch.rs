//! The dispatch loop's model: which events it takes in which phase, and what
//! each one does to its record of handled messages.
use vstd::prelude::*;

verus! {

/// Where the dispatch loop stands between two events.
pub enum Phase {
    /// Holding the actor and waiting for the next message.
    Idle,
    /// A handler owns the actor and has not finished yet.
    Busy,
    /// The queue has closed; the actor is gone.
    Stopped,
}

/// What the loop has done so far: its phase, every message that a handler
/// was started on, in order, and how many handlers have finished.
pub struct LoopState<M> {
    pub phase: Phase,
    pub started: Seq<M>,
    pub finished: nat,
}

/// What the loop can observe.
pub enum LoopEvent<M> {
    /// A message came out of the queue.
    Received(M),
    /// The running handler has completed.
    Finished,
    /// The queue is closed and empty.
    Closed,
}

/// The state of a freshly started loop.
pub open spec fn initial<M>() -> LoopState<M> {
    LoopState { phase: Phase::Idle, started: Seq::empty(), finished: 0 }
}

/// Whether the loop takes `e` in state `s`: new messages and closure only
/// while no handler runs, completion only while one does.
pub open spec fn accepts<M>(s: LoopState<M>, e: LoopEvent<M>) -> bool {
    match e {
        LoopEvent::Received(_) => s.phase is Idle,
        LoopEvent::Finished => s.phase is Busy,
        LoopEvent::Closed => s.phase is Idle,
    }
}

/// The state after the loop takes `e` in state `s`.
pub open spec fn next<M>(s: LoopState<M>, e: LoopEvent<M>) -> LoopState<M> {
    match e {
        LoopEvent::Received(m) => LoopState { phase: Phase::Busy, started: s.started.push(m), finished: s.finished },
        LoopEvent::Finished => LoopState { phase: Phase::Idle, started: s.started, finished: s.finished + 1 },
        LoopEvent::Closed => LoopState { phase: Phase::Stopped, started: s.started, finished: s.finished },
    }
}

/// The state after the loop takes the events `evs` one after another from
/// `s`, or `None` if one of them comes when the loop does not take it.
pub open spec fn run<M>(s: LoopState<M>, evs: Seq<LoopEvent<M>>) -> Option<LoopState<M>>
    decreases evs.len(),
{
    if evs.len() == 0 {
        Some(s)
    } else {
        match run(s, evs.drop_last()) {
            Some(t) => if accepts(t, evs.last()) {
                Some(next(t, evs.last()))
            } else {
                None
            },
            None => None,
        }
    }
}

/// The messages among `evs`, in the order in which they were received.
pub open spec fn received<M>(evs: Seq<LoopEvent<M>>) -> Seq<M>
    decreases evs.len(),
{
    if evs.len() == 0 {
        Seq::empty()
    } else {
        match evs.last() {
            LoopEvent::Received(m) => received(evs.drop_last()).push(m),
            _ => received(evs.drop_last()),
        }
    }
}

/// How many handlers are running in state `s`.
pub open spec fn in_flight<M>(s: LoopState<M>) -> nat {
    if s.phase is Busy {
        1
    } else {
        0
    }
}

/// Handlers of one actor never overlap, and each message received is handled
/// exactly once, in the order of arrival: along any run of the loop, the
/// messages started are exactly those received, in order, and all of them but
/// at most one have finished.
pub proof fn lemma_handled_one_at_a_time_in_order<M>(evs: Seq<LoopEvent<M>>)
    requires
        run(initial::<M>(), evs) is Some,
    ensures
        ({
            let s = run(initial::<M>(), evs)->Some_0;
            &&& s.started == received(evs)
            &&& s.started.len() == s.finished + in_flight(s)
            &&& in_flight(s) <= 1
        }),
    decreases evs.len(),
{
    if evs.len() > 0 {
        lemma_handled_one_at_a_time_in_order(evs.drop_last());
    }
}

/// Taking one more event that the loop accepts extends a run by exactly
/// that step: a loop driven through its context's steps is always at the end
/// of some run from its initial state.
pub proof fn lemma_run_extends<M>(evs: Seq<LoopEvent<M>>, e: LoopEvent<M>)
    requires
        run(initial::<M>(), evs) is Some,
        accepts(run(initial::<M>(), evs)->Some_0, e),
    ensures
        run(initial::<M>(), evs.push(e)) == Some(next(run(initial::<M>(), evs)->Some_0, e)),
        received(evs.push(e)) == match e {
            LoopEvent::Received(m) => received(evs).push(m),
            _ => received(evs),
        },
{
    assert(evs.push(e).drop_last() =~= evs);
}

/// Once the loop has stopped it takes no further event: no handler runs on
/// an actor after its queue has closed.
pub proof fn lemma_stopped_is_final<M>(s: LoopState<M>, evs: Seq<LoopEvent<M>>)
    requires
        s.phase is Stopped,
        evs.len() > 0,
    ensures
        run(s, evs) is None,
    decreases evs.len(),
{
    if evs.len() > 1 {
        lemma_stopped_is_final(s, evs.drop_last());
    } else {
        assert(run(s, evs.drop_last()) == Some(s));
    }
}

} // verus!
