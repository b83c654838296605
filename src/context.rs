//! The running context of an actor: it owns the actor between messages,
//! decides each step of the dispatch loop, and hands out the actor's own
//! address without keeping the actor alive.
use vstd::prelude::*;

use crate::addr::Addr;
use crate::channel::{downgrade, open_mailbox, upgrade, SelfSender};
use crate::dispatch::{
    initial, lemma_handled_one_at_a_time_in_order, lemma_run_extends, next, received, run, in_flight,
    LoopEvent, LoopState,
};
use crate::task::HandlerTask;

verus! {

/// What the dispatch loop is to do after taking an event.
#[verifier::reject_recursive_types(M)]
#[verifier::reject_recursive_types(R)]
pub enum Step<A, M, R> {
    /// Run the handler for this work item on this actor, then hand the actor
    /// back with `Context::resume`.
    Run(A, HandlerTask<M, R>),
    /// The queue has closed: drop the actor and end the loop.
    Stop(A),
}

/// The running context of one actor.
#[verifier::reject_recursive_types(M)]
#[verifier::reject_recursive_types(R)]
pub struct Context<A, M, R> {
    /// The actor while no handler runs; `None` while one does, and after stop.
    actor: Option<A>,
    /// A handle to the actor's queue that does not count towards keeping it open.
    sender: SelfSender<HandlerTask<M, R>>,
    state: Ghost<LoopState<M>>,
    /// Every event that the loop has taken, in order.
    trace: Ghost<Seq<LoopEvent<M>>>,
}

impl<A, M, R> View for Context<A, M, R> {
    type V = LoopState<M>;

    closed spec fn view(&self) -> LoopState<M> {
        self.state@
    }
}

impl<A, M, R> Context<A, M, R> {
    /// The actor that the context holds, if no handler has it.
    pub closed spec fn actor(&self) -> Option<A> {
        self.actor
    }

    /// The queue that this context's actor reads: the one that the address
    /// returned by `start` feeds.
    pub closed spec fn queue(&self) -> tokio::sync::mpsc::UnboundedSender<HandlerTask<M, R>> {
        self.sender.origin()
    }

    /// The events that the loop has taken so far, in order.
    pub closed spec fn trace(&self) -> Seq<LoopEvent<M>> {
        self.trace@
    }

    /// The context holds the actor exactly while the loop is idle, and its
    /// state is where its trace of events leads from the initial state.
    pub closed spec fn wf(&self) -> bool {
        &&& (self.state@.phase is Idle) <==> (self.actor is Some)
        &&& run(initial::<M>(), self.trace@) == Some(self.state@)
    }

    /// Whatever a context has gone through, its handlers never overlapped
    /// and it started them on exactly the messages it received, in order.
    pub proof fn lemma_sequential(&self)
        requires
            self.wf(),
        ensures
            self@.started == received(self.trace()),
            self@.started.len() == self@.finished + in_flight(self@),
            in_flight(self@) <= 1,
    {
        lemma_handled_one_at_a_time_in_order(self.trace@);
    }

    /// Creates the queue of a new actor. Returns the context, which holds the
    /// actor, the receiving end that the dispatch loop reads, and the first
    /// address.
    pub fn start(actor: A) -> (r: (Self, tokio::sync::mpsc::UnboundedReceiver<HandlerTask<M, R>>, Addr<M, R>))
        ensures
            r.0.wf(),
            r.0@ == initial::<M>(),
            r.0.trace() == Seq::<LoopEvent<M>>::empty(),
            r.0.actor() == Some(actor),
            r.2.sender() == r.0.queue(),
    {
        let (sender, receiver) = open_mailbox();
        let context = Context {
            actor: Some(actor),
            sender: downgrade(&sender),
            state: Ghost(initial::<M>()),
            trace: Ghost(Seq::empty()),
        };
        (context, receiver, Addr::new(sender))
    }

    /// A new address of the actor, or `None` once no address of it is held
    /// anywhere else: the context never keeps the actor alive by itself.
    pub fn addr(&self) -> (r: Option<Addr<M, R>>)
        ensures
            r matches Some(a) ==> a.sender() == self.queue(),
    {
        match upgrade(&self.sender) {
            Some(sender) => Some(Addr::new(sender)),
            None => None,
        }
    }

    /// Whether the loop is waiting for a message.
    pub fn is_idle(&self) -> (r: bool)
        requires
            self.wf(),
        ensures
            r == (self@.phase is Idle),
            r == (self.actor() is Some),
    {
        self.actor.is_some()
    }

    /// Takes what the queue gave: a work item, or `None` once it is closed and
    /// empty. A work item starts its handler with the actor, which leaves the
    /// context until `resume`; closure stops the loop for good.
    pub fn step(&mut self, event: Option<HandlerTask<M, R>>) -> (r: Step<A, M, R>)
        requires
            old(self).wf(),
            old(self)@.phase is Idle,
        ensures
            final(self).wf(),
            final(self).queue() == old(self).queue(),
            final(self).actor() is None,
            match event {
                Some(task) => {
                    &&& final(self)@ == next(old(self)@, LoopEvent::Received(task.message()))
                    &&& final(self).trace() == old(self).trace().push(LoopEvent::Received(task.message()))
                    &&& r == Step::Run(old(self).actor()->Some_0, task)
                },
                None => {
                    &&& final(self)@ == next(old(self)@, LoopEvent::Closed)
                    &&& final(self).trace() == old(self).trace().push(LoopEvent::Closed)
                    &&& r == Step::<A, M, R>::Stop(old(self).actor()->Some_0)
                },
            },
    {
        let actor = self.actor.take().unwrap();
        match event {
            Some(task) => {
                let ghost e = LoopEvent::Received(task.message());
                proof {
                    lemma_run_extends(self.trace@, e);
                }
                self.state = Ghost(next(self.state@, e));
                self.trace = Ghost(self.trace@.push(e));
                Step::Run(actor, task)
            },
            None => {
                proof {
                    lemma_run_extends(self.trace@, LoopEvent::Closed);
                }
                self.state = Ghost(next(self.state@, LoopEvent::Closed));
                self.trace = Ghost(self.trace@.push(LoopEvent::Closed));
                Step::Stop(actor)
            },
        }
    }

    /// Takes the actor back from a handler that has finished.
    pub fn resume(&mut self, actor: A)
        requires
            old(self).wf(),
            old(self)@.phase is Busy,
        ensures
            final(self).wf(),
            final(self).queue() == old(self).queue(),
            final(self)@ == next(old(self)@, LoopEvent::<M>::Finished),
            final(self).trace() == old(self).trace().push(LoopEvent::Finished),
            final(self).actor() == Some(actor),
    {
        proof {
            lemma_run_extends(self.trace@, LoopEvent::<M>::Finished);
        }
        self.actor = Some(actor);
        self.state = Ghost(next(self.state@, LoopEvent::<M>::Finished));
        self.trace = Ghost(self.trace@.push(LoopEvent::Finished));
    }
}

} // verus!
