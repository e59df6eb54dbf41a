use vstd::prelude::*;

use crate::result::{ActorErr, ActorOk, ActorResult};

verus! {

/// State of the Actor.
#[derive(Clone, Copy, Debug, PartialEq, Eq, Structural)]
pub enum ActorState {
    /// The Actor is healthy, running, and listening.
    Healthy,
    /// The Actor is stopped, and did so without error.
    Stopped,
    /// The Actor is stopped, but did so as the result of
    /// an unrecoverable error.
    Crashed,
}

/// The state that a lifecycle call's result calls for: `Success` keeps the
/// actor healthy, `GracefulEnd` stops it, `Crashing` crashes it.
pub open spec fn outcome_state<E>(r: ActorResult<E>) -> ActorState {
    match r {
        Ok(ActorOk::Success) => ActorState::Healthy,
        Ok(ActorOk::GracefulEnd) => ActorState::Stopped,
        Err(ActorErr::Crashing(_)) => ActorState::Crashed,
    }
}

impl ActorState {
    /// A stopped or crashed actor never becomes healthy again.
    pub open spec fn is_terminal(self) -> bool {
        self != ActorState::Healthy
    }

    /// The state after a lifecycle call returned `r` while in `self`:
    /// only a healthy actor moves, and terminal states are kept.
    pub open spec fn next<E>(self, r: ActorResult<E>) -> ActorState {
        if self == ActorState::Healthy {
            outcome_state(r)
        } else {
            self
        }
    }

    /// The state after a series of lifecycle calls returned `rs`, in order.
    pub open spec fn run<E>(self, rs: Seq<ActorResult<E>>) -> ActorState
        decreases rs.len(),
    {
        if rs.len() == 0 {
            self
        } else {
            self.next(rs[0]).run(rs.drop_first())
        }
    }

    /// What a send observes in this state: a healthy actor takes the message,
    /// any other hands its state back.
    pub open spec fn send_verdict(self) -> Result<(), ActorState> {
        if self == ActorState::Healthy {
            Ok(())
        } else {
            Err(self)
        }
    }

    pub fn is_healthy(&self) -> (r: bool)
        ensures
            r == (*self == ActorState::Healthy),
    {
        match self {
            ActorState::Healthy => true,
            _ => false,
        }
    }

    /// The state an actor starts in and the error to hand to the registering
    /// caller, from what its start hook returned.
    pub fn from_start<E>(started: ActorResult<E>) -> (r: (ActorState, Option<E>))
        ensures
            r.0 == outcome_state(started),
            r.1 == match started {
                Err(ActorErr::Crashing(e)) => Some(e),
                Ok(_) => None::<E>,
            },
    {
        match started {
            Ok(ActorOk::Success) => (ActorState::Healthy, None),
            Ok(ActorOk::GracefulEnd) => (ActorState::Stopped, None),
            Err(ActorErr::Crashing(e)) => (ActorState::Crashed, Some(e)),
        }
    }

    /// The state after a message handler returned `r` while in `self`.
    pub fn after_handle<E>(&self, r: &ActorResult<E>) -> (s: ActorState)
        ensures
            s == self.next(*r),
    {
        if !self.is_healthy() {
            return *self;
        }
        match r {
            Ok(ActorOk::Success) => ActorState::Healthy,
            Ok(ActorOk::GracefulEnd) => ActorState::Stopped,
            Err(ActorErr::Crashing(_)) => ActorState::Crashed,
        }
    }

    /// Whether a message sent in this state is taken: `Ok(())` for a healthy
    /// actor, else `Err` with the state itself.
    pub fn send_verdict_of(&self) -> (r: Result<(), ActorState>)
        ensures
            r == self.send_verdict(),
    {
        if self.is_healthy() {
            Ok(())
        } else {
            Err(*self)
        }
    }
}

/// Once an actor is stopped or crashed, no later lifecycle result moves it.
pub proof fn lemma_terminal_is_final<E>(s: ActorState, rs: Seq<ActorResult<E>>)
    requires
        s.is_terminal(),
    ensures
        s.run(rs) == s,
    decreases rs.len(),
{
    if rs.len() > 0 {
        lemma_terminal_is_final(s.next(rs[0]), rs.drop_first());
    }
}

/// An actor whose start hook ended gracefully or crashed is stopped or crashed
/// respectively, stays so whatever follows, and every send to it is refused
/// with that state.
pub proof fn lemma_failed_start_refuses_forever<E>(started: ActorResult<E>, rs: Seq<ActorResult<E>>)
    requires
        started != Ok::<ActorOk, ActorErr<E>>(ActorOk::Success),
    ensures
        outcome_state(started).run(rs) == outcome_state(started),
        outcome_state(started).run(rs).send_verdict() == Err::<(), ActorState>(outcome_state(started)),
        started is Ok ==> outcome_state(started) == ActorState::Stopped,
        started is Err ==> outcome_state(started) == ActorState::Crashed,
{
    lemma_terminal_is_final(outcome_state(started), rs);
}

/// An actor whose start hook succeeded is healthy, so the first send to it
/// is taken.
pub proof fn lemma_successful_start_accepts<E>(started: ActorResult<E>)
    requires
        started == Ok::<ActorOk, ActorErr<E>>(ActorOk::Success),
    ensures
        outcome_state(started).send_verdict() == Ok::<(), ActorState>(()),
{
}

/// After a handler crashes, the actor stays crashed whatever follows, and
/// every send is refused with `Crashed`.
pub proof fn lemma_crash_is_final<E>(
    s: ActorState,
    r: ActorResult<E>,
    rs: Seq<ActorResult<E>>,
)
    requires
        s == ActorState::Healthy,
        r is Err,
    ensures
        s.next(r) == ActorState::Crashed,
        s.next(r).run(rs) == ActorState::Crashed,
        s.next(r).run(rs).send_verdict() == Err::<(), ActorState>(ActorState::Crashed),
{
    lemma_terminal_is_final(s.next(r), rs);
}

/// After a handler ends gracefully, the actor stays stopped whatever follows,
/// and every send is refused with `Stopped`.
pub proof fn lemma_graceful_end_is_final<E>(
    s: ActorState,
    rs: Seq<ActorResult<E>>,
)
    requires
        s == ActorState::Healthy,
    ensures
        s.next(Ok::<ActorOk, ActorErr<E>>(ActorOk::GracefulEnd)) == ActorState::Stopped,
        s.next(Ok::<ActorOk, ActorErr<E>>(ActorOk::GracefulEnd)).run(rs) == ActorState::Stopped,
        s.next(Ok::<ActorOk, ActorErr<E>>(ActorOk::GracefulEnd)).run(rs).send_verdict()
            == Err::<(), ActorState>(ActorState::Stopped),
{
    lemma_terminal_is_final(s.next(Ok::<ActorOk, ActorErr<E>>(ActorOk::GracefulEnd)), rs);
}

} // verus!
