use vstd::prelude::*;

verus! {

/// What a lifecycle hook of an actor (start, handle, stop) returns.
pub type ActorResult<E> = Result<ActorOk, ActorErr<E>>;

#[derive(Clone, Copy, Debug, PartialEq, Eq, Structural)]
pub enum ActorOk {
    /// The actor is done with the current operation.
    Success,
    /// The actor finished doing what it was supposed to do.
    /// The actor should then be dropped.
    GracefulEnd,
}

/// A failing lifecycle call. A recoverable variant that keeps the actor
/// healthy is reserved for a monitoring layer that does not exist yet.
#[derive(Debug)]
pub enum ActorErr<T> {
    /// The actor has encountered an error that means the actor
    /// is no longer in a functioning state and should be killed.
    Crashing(T),
}

} // verus!
