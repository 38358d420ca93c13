//! The per-request session: the transaction handle together with the
//! non-blocking lock that serializes access to it.
//!
//! At run time one request's handle sits behind a shared, reference-counted
//! mutual-exclusion lock whose acquisition never blocks: a second consumer
//! that tries to take the transaction while a first one holds it must fail
//! fast with [`Error::OverlappingExtractors`], not queue behind it. The lock
//! serializes every use of the handle, so each request's history is one
//! sequence of the steps below, in some order. `Session` is that serialized
//! protocol with the lock made explicit as a boolean: each method performs
//! one step and its contract states the step's transition exactly, and the
//! lemmas at the bottom state the request-level guarantees that every such
//! history enjoys.
//!
//! The steps mirror the run-time protocol one for one. An extractor performs
//! [`Session::try_acquire`]; when that asks for a transaction to be begun,
//! the driver is called outside this crate and the outcome is reported back
//! with [`Session::start`] (begun) or [`Session::release`] (failed, guard
//! dropped). The handler works on the transaction through
//! [`Session::current_mut`] and drops its guard ([`Session::release`]).
//! After the inner service has answered, the middleware performs
//! [`Session::finish`] with the response's status code and then commits, or
//! drops, whatever [`TxFate`] hands it.

use vstd::prelude::*;

use crate::Error;
use crate::extension::AcquirePlan;
use crate::extension::LazyTransaction;
use crate::extension::LazyTransactionState;
use crate::extension::ResolveAction;
use crate::extension::lifecycle_rank;
use crate::extension::resolve_transition;
use crate::layer::commit_status;
use crate::layer::should_commit;

verus! {

/// What the middleware leaves its caller to do with the request's
/// transaction once [`Session::finish`] has run.
pub enum TxFate<T> {
    /// A transaction was open and the response was a success: commit this.
    Commit(T),
    /// Resolution ran and found nothing open: no database operation is owed.
    NoCommit,
    /// The session was left untouched — the response was an error, or a
    /// straggling holder still had the lock. An open transaction inside it
    /// rolls back when the request is dropped, uncommitted.
    LeftToDrop,
}

/// The observable state of a session: whether the lock is held, and the
/// handle's lifecycle state.
pub struct SessionView<P, T> {
    pub locked: bool,
    pub state: LazyTransactionState<P, T>,
}

/// One request's transaction slot: the handle guarded by the non-blocking
/// lock.
pub struct Session<P, T> {
    locked: bool,
    handle: LazyTransaction<P, T>,
}

impl<P, T> View for Session<P, T> {
    type V = SessionView<P, T>;

    closed spec fn view(&self) -> SessionView<P, T> {
        SessionView { locked: self.locked, state: self.handle.state() }
    }
}

/// What an acquisition attempt does to a session. A holder of the lock — or
/// a handle whose request already resolved it — makes the attempt fail with
/// the overlapping-use error and changes nothing; otherwise the lock is
/// taken and the plan says whether a transaction must still be begun.
pub open spec fn try_acquire_transition<P, T>(s: SessionView<P, T>) -> (SessionView<P, T>, Result<
    AcquirePlan,
    Error,
>) {
    if s.locked {
        (s, Err(Error::OverlappingExtractors))
    } else {
        match s.state {
            LazyTransactionState::Resolved => (s, Err(Error::OverlappingExtractors)),
            LazyTransactionState::Unacquired(_) => (
                SessionView { locked: true, state: s.state },
                Ok(AcquirePlan::Start),
            ),
            LazyTransactionState::Acquired(_) => (
                SessionView { locked: true, state: s.state },
                Ok(AcquirePlan::AlreadyStarted),
            ),
        }
    }
}

/// Dropping a guard: the lock is released, the handle untouched.
pub open spec fn release_transition<P, T>(s: SessionView<P, T>) -> SessionView<P, T> {
    SessionView { locked: false, state: s.state }
}

/// Reporting a freshly begun transaction: the handle becomes `Acquired`.
pub open spec fn start_transition<P, T>(s: SessionView<P, T>, tx: T) -> SessionView<P, T> {
    SessionView { locked: s.locked, state: LazyTransactionState::Acquired(tx) }
}

/// What the middleware's resolution does, given the response's status code.
/// On a client- or server-error status, or while a straggler still holds the
/// lock, the session is left untouched; otherwise the handle is resolved and
/// an open transaction is handed out for committing.
pub open spec fn finish_transition<P, T>(s: SessionView<P, T>, status: u16) -> (SessionView<P, T>, TxFate<
    T,
>) {
    if !commit_status(status) || s.locked {
        (s, TxFate::LeftToDrop)
    } else {
        let (after, action) = resolve_transition(s.state);
        (
            SessionView { locked: false, state: after },
            match action {
                ResolveAction::Commit(tx) => TxFate::Commit(tx),
                ResolveAction::Done => TxFate::NoCommit,
            },
        )
    }
}

impl<P, T> Session<P, T> {
    /// A fresh session for one request: lock free, no connection taken from
    /// the pool until the first acquisition asks for one.
    pub fn new(pool: P) -> (s: Self)
        ensures
            s@ == (SessionView {
                locked: false,
                state: LazyTransactionState::<P, T>::Unacquired(pool),
            }),
    {
        Session { locked: false, handle: LazyTransaction::new(pool) }
    }

    /// One acquisition attempt: take the lock without blocking, then make
    /// sure a transaction is under way. Fails fast with the overlapping-use
    /// error — leaving the session as it was — when the lock is already held
    /// or the handle was already resolved.
    pub fn try_acquire(&mut self) -> (r: Result<AcquirePlan, Error>)
        ensures
            (final(self)@, r) == try_acquire_transition(old(self)@),
    {
        if self.locked {
            return Err(Error::OverlappingExtractors);
        }
        match self.handle.acquire_plan() {
            AcquirePlan::Rejected => Err(Error::OverlappingExtractors),
            AcquirePlan::Start => {
                self.locked = true;
                Ok(AcquirePlan::Start)
            },
            AcquirePlan::AlreadyStarted => {
                self.locked = true;
                Ok(AcquirePlan::AlreadyStarted)
            },
        }
    }

    /// The pool to begin the first transaction on, when an acquisition
    /// returned [`AcquirePlan::Start`].
    pub fn pool(&self) -> (p: &P)
        requires
            self@.state is Unacquired,
        ensures
            *p == self@.state->Unacquired_0,
    {
        self.handle.pool()
    }

    /// Reports the transaction that was begun on the pool. From here on
    /// every acquisition of this request sees this one transaction, until
    /// resolution.
    pub fn start(&mut self, tx: T)
        requires
            old(self)@.locked,
            old(self)@.state is Unacquired,
        ensures
            final(self)@ == start_transition(old(self)@, tx),
    {
        self.handle.start(tx);
    }

    /// Dropping a guard — after normal use, or because beginning the
    /// transaction failed: the lock is released, the handle untouched.
    pub fn release(&mut self)
        ensures
            final(self)@ == release_transition(old(self)@),
    {
        self.locked = false;
    }

    /// The open transaction, for the holder of the lock.
    pub fn current(&self) -> (tx: &T)
        requires
            self@.locked,
            self@.state is Acquired,
        ensures
            *tx == self@.state->Acquired_0,
    {
        self.handle.as_ref()
    }

    /// The open transaction, mutably, for the holder of the lock to run
    /// statements on.
    pub fn current_mut(&mut self) -> (tx: &mut T)
        requires
            old(self)@.locked,
            old(self)@.state is Acquired,
        ensures
            *tx == old(self)@.state->Acquired_0,
            final(self)@ == (SessionView {
                locked: old(self)@.locked,
                state: LazyTransactionState::<P, T>::Acquired(*final(tx)),
            }),
    {
        self.handle.as_mut()
    }

    /// The middleware's resolution, run once the inner service has answered:
    /// on a success status the handle is resolved and an open transaction is
    /// handed back for committing; on an error status — or if a straggler
    /// still holds the lock — nothing is touched, and an open transaction
    /// rolls back when the request is dropped.
    pub fn finish(&mut self, status: u16) -> (f: TxFate<T>)
        ensures
            (final(self)@, f) == finish_transition(old(self)@, status),
    {
        if should_commit(status) && !self.locked {
            match self.handle.resolve() {
                ResolveAction::Commit(tx) => TxFate::Commit(tx),
                ResolveAction::Done => TxFate::NoCommit,
            }
        } else {
            TxFate::LeftToDrop
        }
    }
}

/// The steps handler code can take on a session between its acquisitions:
/// further acquisition attempts and guard drops.
pub enum HandlerEvent {
    TryAcquire,
    Release,
}

/// Where a session stands after one handler step.
pub open spec fn handler_step<P, T>(s: SessionView<P, T>, e: HandlerEvent) -> SessionView<P, T> {
    match e {
        HandlerEvent::TryAcquire => try_acquire_transition(s).0,
        HandlerEvent::Release => release_transition(s),
    }
}

/// Where a session stands after a sequence of handler steps.
pub open spec fn handler_run<P, T>(s: SessionView<P, T>, evs: Seq<HandlerEvent>) -> SessionView<
    P,
    T,
>
    decreases evs.len(),
{
    if evs.len() == 0 {
        s
    } else {
        handler_run(handler_step(s, evs[0]), evs.drop_first())
    }
}

/// Every acquisition of one request sees the same transaction: once a
/// session holds an open transaction, no sequence of acquisition attempts
/// and guard drops changes it — each later acquisition finds the handle
/// `Acquired` with the very transaction it was started with.
pub proof fn lemma_same_transaction_throughout<P, T>(
    s: SessionView<P, T>,
    evs: Seq<HandlerEvent>,
)
    requires
        s.state is Acquired,
    ensures
        handler_run(s, evs).state == s.state,
    decreases evs.len(),
{
    if evs.len() > 0 {
        lemma_same_transaction_throughout(handler_step(s, evs[0]), evs.drop_first());
    }
}

/// Acquiring while the lock is held fails fast with the overlapping-use
/// error and changes nothing — it never blocks and never observes, let alone
/// disturbs, the transaction of the holder.
pub proof fn lemma_overlapping_acquire_fails<P, T>(s: SessionView<P, T>)
    requires
        s.locked,
    ensures
        try_acquire_transition(s) == (s, Err::<AcquirePlan, Error>(Error::OverlappingExtractors)),
{
}

/// A request that never acquires the transaction never owes the pool a
/// connection: only an acquisition attempt ever asks for a transaction to be
/// begun, and resolving a still-`Unacquired` session commits nothing and
/// performs no database operation.
pub proof fn lemma_untouched_request_needs_no_connection<P, T>(s: SessionView<P, T>, status: u16)
    requires
        s.state is Unacquired,
    ensures
        finish_transition(s, status).1 !is Commit,
        finish_transition(s, status).0.state !is Acquired,
{
}

/// A request that ends in a success status with a transaction open — and no
/// straggling lock holder — has that very transaction committed, and its
/// handle resolved.
pub proof fn lemma_success_commits<P, T>(s: SessionView<P, T>, status: u16)
    requires
        commit_status(status),
        !s.locked,
        s.state is Acquired,
    ensures
        finish_transition(s, status).1 == TxFate::Commit(s.state->Acquired_0),
        finish_transition(s, status).0.state is Resolved,
{
}

/// A request that ends in a client- or server-error status never has its
/// transaction committed: the middleware touches nothing, and the open
/// transaction rolls back when the request is dropped.
pub proof fn lemma_error_status_never_commits<P, T>(s: SessionView<P, T>, status: u16)
    requires
        !commit_status(status),
    ensures
        finish_transition(s, status).1 == TxFate::<T>::LeftToDrop,
        finish_transition(s, status).0 == s,
{
}

/// The lifecycle only moves forward. Acquisition attempts and guard drops
/// leave the handle's state where it was; reporting a begun transaction moves
/// `Unacquired` to `Acquired`; resolution moves everything towards
/// `Resolved`. No step of the protocol re-enters an earlier state.
pub proof fn lemma_lifecycle_moves_forward<P, T>(s: SessionView<P, T>, tx: T, status: u16)
    ensures
        lifecycle_rank(try_acquire_transition(s).0.state) == lifecycle_rank(s.state),
        lifecycle_rank(release_transition(s).state) == lifecycle_rank(s.state),
        s.state is Unacquired ==> lifecycle_rank(start_transition(s, tx).state) == 1,
        lifecycle_rank(finish_transition(s, status).0.state) >= lifecycle_rank(s.state),
{
}

} // verus!

