use vstd::prelude::*;

use futures::channel::mpsc::{UnboundedReceiver, UnboundedSender};
use std::any::TypeId;
use std::sync::{Arc, RwLock, RwLockReadGuard};

use crate::lifecycle::ActorState;
use vstd::std_specs::cmp::PartialEqSpec;

verus! {

#[verifier::external_type_specification]
#[verifier::external_body]
#[verifier::reject_recursive_types(T)]
pub struct ExUnboundedSender<T>(UnboundedSender<T>);

#[verifier::external_type_specification]
#[verifier::external_body]
#[verifier::reject_recursive_types(T)]
pub struct ExUnboundedReceiver<T>(UnboundedReceiver<T>);

#[verifier::external_type_specification]
#[verifier::external_body]
#[verifier::reject_recursive_types(T)]
pub struct ExRwLock<T: ?Sized>(RwLock<T>);

#[verifier::external_type_specification]
#[verifier::external_body]
#[verifier::reject_recursive_types(T)]
pub struct ExRwLockReadGuard<'a, T: ?Sized>(RwLockReadGuard<'a, T>);

#[verifier::external_type_specification]
#[verifier::external_body]
pub struct ExTypeId(TypeId);

/// Relies on `Arc::clone`: another pointer to the same allocation.
#[verifier::external_body]
pub(crate) fn share<T>(a: &Arc<T>) -> (r: Arc<T>)
    ensures
        r == *a,
{
    a.clone()
}

/// Relies on `RwLock::new`: a lock that holds `s`.
#[verifier::external_body]
pub(crate) fn new_lock(s: ActorState) -> (r: RwLock<ActorState>) {
    RwLock::new(s)
}

/// Relies on `RwLock::read`: shared access to the cell, held until the guard
/// is dropped, so that the dispatch loop cannot write meanwhile. A poisoned
/// lock still holds a whole state, since no writer can panic while holding it.
#[verifier::external_body]
fn lock_shared<'a>(cell: &'a Arc<RwLock<ActorState>>) -> (r: RwLockReadGuard<'a, ActorState>) {
    match cell.read() {
        Ok(g) => g,
        Err(p) => p.into_inner(),
    }
}

/// Relies on `RwLockReadGuard`'s `Deref`: the state that the guard holds.
#[verifier::external_body]
fn guarded_state(g: &RwLockReadGuard<ActorState>) -> (r: ActorState) {
    **g
}

/// Relies on `RwLock::write`: puts `s` in the lock.
#[verifier::external_body]
pub(crate) fn write_state(cell: &Arc<RwLock<ActorState>>, s: ActorState) {
    match cell.write() {
        Ok(mut g) => *g = s,
        Err(p) => *p.into_inner() = s,
    }
}

/// Relies on `UnboundedSender::unbounded_send`: `true` when the message was
/// queued, `false` when the receiving end is gone; whether it is depends on
/// the dispatch loop, which runs elsewhere.
#[verifier::external_body]
fn enqueue<M>(tx: &UnboundedSender<M>, msg: M) -> (r: bool) {
    match tx.unbounded_send(msg) {
        Ok(()) => true,
        Err(_) => false,
    }
}

/// This is the reference that should be cloned and passed around.
/// Anything that needs to send to an actor should have a clone of
/// the corresponding `ActorRef`. All clones share one channel and one
/// lifecycle cell, and compare equal by their identifier alone.
#[verifier::reject_recursive_types(M)]
pub struct ActorRef<M> {
    id: u64,
    type_id: TypeId,
    tx: Arc<UnboundedSender<M>>,
    state: Arc<RwLock<ActorState>>,
    registered: Ghost<ActorState>,
}

impl<M> ActorRef<M> {
    /// The identifier that equality goes by.
    pub closed spec fn ident(&self) -> u64 {
        self.id
    }

    /// The tag of the actor type that this handle was registered for.
    pub closed spec fn tag(&self) -> TypeId {
        self.type_id
    }

    /// The sending end of the actor's channel, shared by all clones.
    pub closed spec fn sender(&self) -> Arc<UnboundedSender<M>> {
        self.tx
    }

    /// The lifecycle cell, shared by all clones and the dispatch loop.
    pub closed spec fn cell(&self) -> Arc<RwLock<ActorState>> {
        self.state
    }

    /// The state the actor was in when it was registered, which its cell
    /// was made with. Only a dispatch loop writes the cell afterwards.
    pub closed spec fn registered_state(&self) -> ActorState {
        self.registered@
    }

    pub(crate) fn new(
        id: u64,
        type_id: TypeId,
        tx: UnboundedSender<M>,
        state: Arc<RwLock<ActorState>>,
        registered: Ghost<ActorState>,
    ) -> (r: ActorRef<M>)
        ensures
            r.ident() == id,
            r.tag() == type_id,
            r.cell() == state,
            r.registered_state() == registered@,
    {
        ActorRef { id, type_id, tx: Arc::new(tx), state, registered }
    }

    /// The tag of the actor type that this handle was registered for.
    pub fn type_id(&self) -> (r: TypeId)
        ensures
            r == self.tag(),
    {
        self.type_id
    }

    /// The lifecycle state as it stands now; the dispatch loop may change it
    /// at any moment, from healthy to stopped or crashed.
    pub fn state(&self) -> (r: ActorState) {
        let guard = lock_shared(&self.state);
        guarded_state(&guard)
    }

    /// Sends a message to the actor. The lifecycle cell is read, and the
    /// state read decides as `ActorState::send_verdict_of` does: a stopped or
    /// crashed actor refuses the message with that state, and the message is
    /// dropped; a healthy actor has it queued and `Ok(())` comes back.
    /// A healthy actor whose channel no longer has a receiving end is one
    /// whose dispatch loop ended without a state change (the system was
    /// stopped, or the host runtime dropped the loop). That breaks the
    /// runtime's own invariant; since this function does not panic, it
    /// reports the actor as `Stopped` and drops the message. A refusal is
    /// never `Healthy`. The cell stays read-locked until the message is
    /// queued, so the dispatch loop cannot change the state in between.
    pub fn send(&self, msg: M) -> (r: Result<(), ActorState>)
        ensures
            r is Err ==> r->Err_0.is_terminal(),
    {
        let guard = lock_shared(&self.state);
        let s = guarded_state(&guard);
        let r = match s.send_verdict_of() {
            Err(refused) => Err(refused),
            Ok(()) => {
                if enqueue(&self.tx, msg) {
                    Ok(())
                } else {
                    Err(ActorState::Stopped)
                }
            },
        };
        r
    }
}

impl<M> Clone for ActorRef<M> {
    fn clone(&self) -> (r: Self)
        ensures
            r == *self,
    {
        ActorRef {
            id: self.id,
            type_id: self.type_id,
            tx: share(&self.tx),
            state: share(&self.state),
            registered: self.registered,
        }
    }
}

impl<M> PartialEq for ActorRef<M> {
    fn eq(&self, other: &Self) -> (r: bool) {
        self.id == other.id
    }
}

impl<M> vstd::std_specs::cmp::PartialEqSpecImpl for ActorRef<M> {
    open spec fn obeys_eq_spec() -> bool {
        true
    }

    open spec fn eq_spec(&self, other: &Self) -> bool {
        self.ident() == other.ident()
    }
}

impl<M> Eq for ActorRef<M> {

}

/// Handles with one identifier, such as a handle and its clones, compare
/// equal; handles with distinct identifiers never do.
pub proof fn lemma_eq_by_ident<M>(a: ActorRef<M>, b: ActorRef<M>)
    ensures
        a.eq_spec(&b) <==> a.ident() == b.ident(),
{
}

} // verus!
