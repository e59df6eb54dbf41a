use vstd::prelude::*;

use futures::channel::mpsc::UnboundedReceiver;
use std::sync::atomic::{AtomicBool, Ordering};
use std::sync::{Arc, RwLock};

use crate::handle::write_state;
use crate::lifecycle::ActorState;
use crate::result::ActorResult;

verus! {

/// Where the dispatch loop of an actor stands.
#[derive(Clone, Copy, Debug, PartialEq, Eq, Structural)]
pub enum Phase {
    /// About to look at the system's running flag.
    Polling,
    /// Waiting for the next message.
    Receiving,
    /// A message has been handed to the actor's handler.
    Handling,
    /// The loop has ended; nothing more runs for this actor.
    Done,
}

/// What the dispatch loop learns from outside: the running flag, the next
/// message (`None` once every handle is gone), or what a handler returned.
pub enum LoopEvent<M, E> {
    Poll(bool),
    Receive(Option<M>),
    Handled(ActorResult<E>),
}

/// The dispatch loop as a state machine: the actor's lifecycle state, the
/// loop's phase, every message taken from the channel and every message
/// handed to the handler, in order.
pub struct LoopModel<M> {
    pub state: ActorState,
    pub phase: Phase,
    pub received: Seq<M>,
    pub delivered: Seq<M>,
}

impl<M> LoopModel<M> {
    /// Messages reach the handler in the order they were received, all of
    /// them while the actor is healthy; only a healthy actor is handling.
    pub open spec fn wf(self) -> bool {
        &&& self.delivered.len() <= self.received.len()
        &&& self.delivered == self.received.subrange(0, self.delivered.len() as int)
        &&& self.state == ActorState::Healthy ==> self.delivered == self.received
        &&& self.phase == Phase::Handling ==> self.state == ActorState::Healthy
    }

    /// The loop as it is spawned for an actor whose start hook succeeded.
    pub open spec fn initial() -> LoopModel<M> {
        LoopModel {
            state: ActorState::Healthy,
            phase: Phase::Polling,
            received: Seq::empty(),
            delivered: Seq::empty(),
        }
    }

    /// The running flag was read: go on waiting for a message, or end.
    pub open spec fn poll(self, running: bool) -> LoopModel<M> {
        LoopModel { phase: if running { Phase::Receiving } else { Phase::Done }, ..self }
    }

    /// The message that the handler is given when `msg` arrives.
    pub open spec fn delivery(self, msg: Option<M>) -> Option<M> {
        if msg is Some && self.state == ActorState::Healthy {
            msg
        } else {
            None
        }
    }

    /// A message arrived (`Some`) or the channel closed (`None`). A healthy
    /// actor is handed the message; otherwise the loop ends, and a message
    /// taken from the channel then is dropped.
    pub open spec fn accept(self, msg: Option<M>) -> LoopModel<M> {
        match msg {
            None => LoopModel { phase: Phase::Done, ..self },
            Some(m) => if self.state == ActorState::Healthy {
                LoopModel {
                    phase: Phase::Handling,
                    received: self.received.push(m),
                    delivered: self.delivered.push(m),
                    ..self
                }
            } else {
                LoopModel { phase: Phase::Done, received: self.received.push(m), ..self }
            },
        }
    }

    /// The handler returned `r`: the lifecycle state moves, and the loop goes
    /// back to the running flag.
    pub open spec fn record<E>(self, r: ActorResult<E>) -> LoopModel<M> {
        LoopModel { state: self.state.next(r), phase: Phase::Polling, ..self }
    }

    /// One event, taken where the phase expects it and ignored elsewhere.
    pub open spec fn step<E>(self, e: LoopEvent<M, E>) -> LoopModel<M> {
        match e {
            LoopEvent::Poll(b) => if self.phase == Phase::Polling {
                self.poll(b)
            } else {
                self
            },
            LoopEvent::Receive(msg) => if self.phase == Phase::Receiving {
                self.accept(msg)
            } else {
                self
            },
            LoopEvent::Handled(r) => if self.phase == Phase::Handling {
                self.record(r)
            } else {
                self
            },
        }
    }

    /// A series of events, in order.
    pub open spec fn run<E>(self, es: Seq<LoopEvent<M, E>>) -> LoopModel<M>
        decreases es.len(),
    {
        if es.len() == 0 {
            self
        } else {
            self.step(es[0]).run(es.drop_first())
        }
    }
}

/// Each step keeps the loop well formed, and only extends what was received
/// and what was delivered.
pub proof fn lemma_step_wf<M, E>(m: LoopModel<M>, e: LoopEvent<M, E>)
    requires
        m.wf(),
    ensures
        m.step(e).wf(),
        m.received.is_prefix_of(m.step(e).received),
        m.delivered.is_prefix_of(m.step(e).delivered),
{
    let n = m.step(e);
    assert(m.received.is_prefix_of(n.received));
    assert(m.delivered.is_prefix_of(n.delivered));
    assert(n.delivered =~= n.received.subrange(0, n.delivered.len() as int));
}

/// Messages reach the handler in the order in which the loop took them from
/// the channel, with none skipped and none repeated: after any events, what
/// was delivered is a prefix of what was received, and extends what had been
/// delivered before.
pub proof fn lemma_delivery_in_order<M, E>(m: LoopModel<M>, es: Seq<LoopEvent<M, E>>)
    requires
        m.wf(),
    ensures
        m.run(es).wf(),
        m.run(es).delivered.is_prefix_of(m.run(es).received),
        m.received.is_prefix_of(m.run(es).received),
        m.delivered.is_prefix_of(m.run(es).delivered),
    decreases es.len(),
{
    if es.len() > 0 {
        lemma_step_wf(m, es[0]);
        lemma_delivery_in_order(m.step(es[0]), es.drop_first());
    }
    let r = m.run(es);
    assert(r.delivered.is_prefix_of(r.received));
}

/// A freshly spawned loop is well formed, so everything above holds of it.
pub proof fn lemma_initial_wf<M>()
    ensures
        LoopModel::<M>::initial().wf(),
{
    let m = LoopModel::<M>::initial();
    assert(m.delivered =~= m.received.subrange(0, 0));
}

/// Once the actor is stopped or crashed, the handler is never called again:
/// whatever follows, nothing more is delivered and the state stays.
pub proof fn lemma_terminal_delivers_nothing<M, E>(m: LoopModel<M>, es: Seq<LoopEvent<M, E>>)
    requires
        m.wf(),
        m.state.is_terminal(),
    ensures
        m.run(es).delivered == m.delivered,
        m.run(es).state == m.state,
    decreases es.len(),
{
    if es.len() > 0 {
        lemma_step_wf(m, es[0]);
        lemma_terminal_delivers_nothing(m.step(es[0]), es.drop_first());
    }
}

/// A handler that returns `Crashing` is the last one called: the actor is
/// crashed from then on and nothing more is delivered.
pub proof fn lemma_no_delivery_after_crash<M, E>(
    m: LoopModel<M>,
    r: ActorResult<E>,
    es: Seq<LoopEvent<M, E>>,
)
    requires
        m.wf(),
        m.phase == Phase::Handling,
        r is Err,
    ensures
        m.record(r).state == ActorState::Crashed,
        m.record(r).run(es).state == ActorState::Crashed,
        m.record(r).run(es).delivered == m.delivered,
{
    lemma_step_wf(m, LoopEvent::<M, E>::Handled(r));
    lemma_terminal_delivers_nothing(m.record(r), es);
}

/// A handler that returns `GracefulEnd` is the last one called: the actor is
/// stopped from then on and nothing more is delivered.
pub proof fn lemma_no_delivery_after_graceful_end<M, E>(
    m: LoopModel<M>,
    r: ActorResult<E>,
    es: Seq<LoopEvent<M, E>>,
)
    requires
        m.wf(),
        m.phase == Phase::Handling,
        r == Ok::<crate::result::ActorOk, crate::result::ActorErr<E>>(
            crate::result::ActorOk::GracefulEnd,
        ),
    ensures
        m.record(r).state == ActorState::Stopped,
        m.record(r).run(es).state == ActorState::Stopped,
        m.record(r).run(es).delivered == m.delivered,
{
    lemma_step_wf(m, LoopEvent::<M, E>::Handled(r));
    lemma_terminal_delivers_nothing(m.record(r), es);
}

/// A loop that reads the running flag cleared ends at once: whatever is still
/// in the channel is neither received nor delivered.
pub proof fn lemma_stop_ends_loop<M, E>(m: LoopModel<M>, es: Seq<LoopEvent<M, E>>)
    requires
        m.phase == Phase::Polling,
    ensures
        m.poll(false).phase == Phase::Done,
        m.poll(false).run(es) == m.poll(false),
    decreases es.len(),
{
    if es.len() > 0 {
        lemma_stop_ends_loop(m, es.drop_first());
    }
}

/// The decisions of one actor's dispatch loop. The loop that runs it awaits
/// messages on `inbox` and the actor's handler; this type decides what
/// happens with each, keeps the actor's lifecycle state and publishes every
/// change of it to the cell that the actor's handles read. The loop is the
/// only writer of that cell, so the state kept here is the cell's content.
#[verifier::reject_recursive_types(M)]
pub struct Dispatcher<M> {
    /// The receiving end of the actor's channel.
    pub inbox: UnboundedReceiver<M>,
    cell: Arc<RwLock<ActorState>>,
    running: Arc<AtomicBool>,
    state: ActorState,
    phase: Phase,
    received: Ghost<Seq<M>>,
    delivered: Ghost<Seq<M>>,
}

impl<M> View for Dispatcher<M> {
    type V = LoopModel<M>;

    closed spec fn view(&self) -> LoopModel<M> {
        LoopModel {
            state: self.state,
            phase: self.phase,
            received: self.received@,
            delivered: self.delivered@,
        }
    }
}

impl<M> Dispatcher<M> {
    /// The lifecycle cell that this loop publishes the actor's state to.
    pub closed spec fn cell(&self) -> Arc<RwLock<ActorState>> {
        self.cell
    }

    /// The system's running flag that this loop reads.
    pub closed spec fn running(&self) -> Arc<AtomicBool> {
        self.running
    }

    /// The loop of an actor whose start hook succeeded.
    pub(crate) fn new(
        inbox: UnboundedReceiver<M>,
        cell: Arc<RwLock<ActorState>>,
        running: Arc<AtomicBool>,
    ) -> (r: Dispatcher<M>)
        ensures
            r@ == LoopModel::<M>::initial(),
            r@.wf(),
            r.cell() == cell,
            r.running() == running,
    {
        proof {
            lemma_initial_wf::<M>();
        }
        Dispatcher {
            inbox,
            cell,
            running,
            state: ActorState::Healthy,
            phase: Phase::Polling,
            received: Ghost(Seq::empty()),
            delivered: Ghost(Seq::empty()),
        }
    }

    /// The actor's lifecycle state.
    pub fn state(&self) -> (r: ActorState)
        ensures
            r == self@.state,
    {
        self.state
    }

    /// Where the loop stands.
    pub fn phase(&self) -> (r: Phase)
        ensures
            r == self@.phase,
    {
        self.phase
    }

    /// Takes the running flag as read: `true` to go on waiting for a
    /// message, `false` to end the loop.
    pub fn poll_with(&mut self, running: bool) -> (r: bool)
        requires
            old(self)@.phase == Phase::Polling,
        ensures
            r == running,
            final(self)@ == old(self)@.poll(running),
    {
        if running {
            self.phase = Phase::Receiving;
        } else {
            self.phase = Phase::Done;
        }
        running
    }

    /// Reads the system's running flag and decides on it as `poll_with` does;
    /// the flag may be cleared by another task at any moment.
    pub fn poll(&mut self) -> (r: bool)
        requires
            old(self)@.phase == Phase::Polling,
        ensures
            final(self)@ == old(self)@.poll(r),
    {
        let running = self.running.load(Ordering::Relaxed);
        self.poll_with(running)
    }

    /// Takes what the channel gave: the message to hand to the handler, or
    /// `None` when the loop ends (the channel closed, or the actor is no
    /// longer healthy, and then the message is dropped).
    pub fn accept(&mut self, msg: Option<M>) -> (r: Option<M>)
        requires
            old(self)@.phase == Phase::Receiving,
            old(self)@.wf(),
        ensures
            r == old(self)@.delivery(msg),
            final(self)@ == old(self)@.accept(msg),
            final(self)@.wf(),
    {
        proof {
            lemma_step_wf(self@, LoopEvent::<M, ()>::Receive(msg));
        }
        match msg {
            None => {
                self.phase = Phase::Done;
                None
            },
            Some(m) => {
                proof {
                    self.received@ = self.received@.push(m);
                }
                if self.state.is_healthy() {
                    proof {
                        self.delivered@ = self.delivered@.push(m);
                    }
                    self.phase = Phase::Handling;
                    Some(m)
                } else {
                    self.phase = Phase::Done;
                    None
                }
            },
        }
    }

    /// Takes what the handler returned: the lifecycle state moves as
    /// `ActorState::next` says, a change is published to the actor's handles,
    /// and the loop goes back to the running flag.
    pub fn record<E>(&mut self, r: &ActorResult<E>)
        requires
            old(self)@.phase == Phase::Handling,
            old(self)@.wf(),
        ensures
            final(self)@ == old(self)@.record(*r),
            final(self)@.wf(),
    {
        proof {
            lemma_step_wf(self@, LoopEvent::<M, E>::Handled(*r));
        }
        let next = self.state.after_handle(r);
        if next != self.state {
            write_state(&self.cell, next);
        }
        self.state = next;
        self.phase = Phase::Polling;
    }
}

} // verus!
