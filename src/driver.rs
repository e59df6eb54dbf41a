use vstd::prelude::*;

use futures::channel::mpsc::{unbounded, UnboundedReceiver, UnboundedSender};
use std::any::TypeId;
use std::sync::atomic::{AtomicBool, Ordering};
use std::sync::Arc;

use crate::dispatch::{Dispatcher, LoopModel};
use crate::handle::{new_lock, share, ActorRef};
use crate::lifecycle::{outcome_state, ActorState};
use crate::result::{ActorErr, ActorOk, ActorResult};
use crate::utils::SnowflakeProducer;

verus! {

/// Relies on `futures::channel::mpsc::unbounded`: a fresh unbounded channel,
/// its sending and its receiving end.
#[verifier::external_body]
fn channel<M>() -> (r: (UnboundedSender<M>, UnboundedReceiver<M>)) {
    unbounded::<M>()
}

/// The driver that registers actors: it hands out identifiers and owns the
/// system's running flag, which every dispatch loop shares. Loops are spawned
/// on the host's Tokio runtime.
pub struct TokioActorDriver {
    snowflakes: SnowflakeProducer,
    is_running: Arc<AtomicBool>,
}

impl TokioActorDriver {
    /// The system's running flag.
    pub closed spec fn running(&self) -> Arc<AtomicBool> {
        self.is_running
    }

    /// A running driver with a fresh identifier producer.
    pub fn new() -> (r: TokioActorDriver) {
        TokioActorDriver {
            snowflakes: SnowflakeProducer::new(),
            is_running: Arc::new(AtomicBool::new(true)),
        }
    }

    /// Registers an actor whose start hook returned `started`: a fresh
    /// identifier and channel, the handle, the start error if the actor
    /// crashed, and a dispatch loop to spawn exactly when the actor is
    /// healthy. A stopped or crashed actor gets no loop, and its handle
    /// refuses every message from the start.
    pub fn register_started<M, E>(&self, started: ActorResult<E>, type_id: TypeId) -> (r: (
        ActorRef<M>,
        Option<E>,
        Option<Dispatcher<M>>,
    ))
        ensures
            r.1 == match started {
                Err(ActorErr::Crashing(e)) => Some(e),
                Ok(_) => None::<E>,
            },
            r.0.registered_state() == outcome_state(started),
            r.0.tag() == type_id,
            r.1 is Some <==> r.0.registered_state() == ActorState::Crashed,
            r.2 is Some <==> started == Ok::<ActorOk, ActorErr<E>>(ActorOk::Success),
            r.2 is Some ==> r.2->Some_0@ == LoopModel::<M>::initial(),
            r.2 is Some ==> r.2->Some_0.cell() == r.0.cell(),
            r.2 is Some ==> r.2->Some_0.running() == self.running(),
    {
        let id = self.snowflakes.produce();
        let (tx, rx) = channel::<M>();
        let (state, err) = ActorState::from_start(started);
        let cell = Arc::new(new_lock(state));
        let handle = ActorRef::new(id, type_id, tx, share(&cell), Ghost(state));
        if state.is_healthy() {
            let dispatcher = Dispatcher::new(rx, cell, share(&self.is_running));
            (handle, err, Some(dispatcher))
        } else {
            (handle, err, None)
        }
    }

    /// The system's running flag, shared.
    pub fn is_running(&self) -> (r: Arc<AtomicBool>)
        ensures
            r == self.running(),
    {
        share(&self.is_running)
    }

    /// Clears the running flag. Every dispatch loop ends the next time it
    /// reads the flag; none is waited for, and no actor's stop hook is called.
    pub fn stop(&self) {
        self.is_running.store(false, Ordering::Release);
    }
}

impl Default for TokioActorDriver {
    fn default() -> (r: TokioActorDriver) {
        TokioActorDriver::new()
    }
}

} // verus!
