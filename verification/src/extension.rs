//! The per-request transaction handle: a lazily started database transaction
//! that moves through three states, forward only.
//!
//! `LazyTransaction` is generic over the pool type `P` and the live
//! transaction type `T`. The handle itself never talks to the database: every
//! step that needs the driver (beginning a transaction, committing one) is
//! returned to the caller as a value — the pool to begin on, or the open
//! transaction to commit — and the caller reports the outcome back. The state
//! machine, and everything the rest of the crate relies on about it, is
//! verified here.

use vstd::prelude::*;

verus! {

/// The lifecycle of one request's transaction.
///
/// Transitions only move forward: `Unacquired -> Acquired -> Resolved`, or
/// `Unacquired -> Resolved` when the transaction is never used. No operation
/// re-enters an earlier state.
pub enum LazyTransactionState<P, T> {
    /// No connection has been taken from the pool yet; the pool is kept so a
    /// transaction can be begun on first use.
    Unacquired(P),
    /// An open transaction, owned exclusively by this handle.
    Acquired(T),
    /// Terminal: the transaction was committed, handed out for dropping, or
    /// never started.
    Resolved,
}

/// What an acquisition attempt must do next, given the current state.
pub enum AcquirePlan {
    /// The handle is `Unacquired`: begin a transaction on the pool, then
    /// report the new transaction with [`LazyTransaction::start`].
    Start,
    /// The handle is `Acquired`: nothing to do, the open transaction is
    /// already there.
    AlreadyStarted,
    /// The handle is `Resolved`: it belongs to a request that already
    /// finished, so acquiring it again is a usage error.
    Rejected,
}

/// What resolution found: either an open transaction that the caller must now
/// commit, or nothing to do.
pub enum ResolveAction<T> {
    /// The handle held an open transaction; commit it.
    Commit(T),
    /// The handle was never started, or was already resolved: no database
    /// operation is owed.
    Done,
}

/// The lazily started, exactly-once-resolved transaction handle of one
/// request.
pub struct LazyTransaction<P, T> {
    state: LazyTransactionState<P, T>,
}

impl<P, T> LazyTransaction<P, T> {
    /// The current lifecycle state.
    pub closed spec fn state(self) -> LazyTransactionState<P, T> {
        self.state
    }

    pub open spec fn is_unacquired(self) -> bool {
        self.state() is Unacquired
    }

    pub open spec fn is_acquired(self) -> bool {
        self.state() is Acquired
    }

    pub open spec fn is_resolved(self) -> bool {
        self.state() is Resolved
    }

    /// The pool a transaction would be begun on.
    pub open spec fn pool_of(self) -> P
        recommends
            self.is_unacquired(),
    {
        self.state()->Unacquired_0
    }

    /// The open transaction.
    pub open spec fn tx_of(self) -> T
        recommends
            self.is_acquired(),
    {
        self.state()->Acquired_0
    }

    /// A fresh handle: no connection is taken from the pool until the first
    /// acquisition asks for one.
    pub fn new(pool: P) -> (t: Self)
        ensures
            t.state() == LazyTransactionState::<P, T>::Unacquired(pool),
    {
        LazyTransaction { state: LazyTransactionState::Unacquired(pool) }
    }

    /// The open transaction. The caller must have acquired first; the state
    /// machine makes any other state unreachable here.
    pub fn as_ref(&self) -> (tx: &T)
        requires
            self.is_acquired(),
        ensures
            *tx == self.tx_of(),
    {
        match &self.state {
            LazyTransactionState::Acquired(tx) => tx,
            _ => vstd::pervasive::unreached(),
        }
    }

    /// The open transaction, mutably, for running statements on it. The
    /// handle stays `Acquired` and afterwards holds whatever the caller left
    /// behind the returned reference.
    pub fn as_mut(&mut self) -> (tx: &mut T)
        requires
            old(self).is_acquired(),
        ensures
            *tx == old(self).tx_of(),
            final(self).state() == LazyTransactionState::<P, T>::Acquired(*final(tx)),
    {
        match &mut self.state {
            LazyTransactionState::Acquired(tx) => tx,
            _ => vstd::pervasive::unreached(),
        }
    }

    /// Decides what an acquisition has to do, without doing it: begin on the
    /// pool, reuse the open transaction, or reject a handle that its request
    /// already resolved.
    pub fn acquire_plan(&self) -> (p: AcquirePlan)
        ensures
            p is Start <==> self.is_unacquired(),
            p is AlreadyStarted <==> self.is_acquired(),
            p is Rejected <==> self.is_resolved(),
    {
        match &self.state {
            LazyTransactionState::Unacquired(_) => AcquirePlan::Start,
            LazyTransactionState::Acquired(_) => AcquirePlan::AlreadyStarted,
            LazyTransactionState::Resolved => AcquirePlan::Rejected,
        }
    }

    /// The pool to begin the first transaction on.
    pub fn pool(&self) -> (p: &P)
        requires
            self.is_unacquired(),
        ensures
            *p == self.pool_of(),
    {
        match &self.state {
            LazyTransactionState::Unacquired(pool) => pool,
            _ => vstd::pervasive::unreached(),
        }
    }

    /// Records the transaction that was just begun on the pool. From here on
    /// every acquisition sees this one transaction, until resolution.
    pub fn start(&mut self, tx: T)
        requires
            old(self).is_unacquired(),
        ensures
            final(self).state() == LazyTransactionState::<P, T>::Acquired(tx),
    {
        self.state = LazyTransactionState::Acquired(tx);
    }

    /// Resolves the handle: it becomes `Resolved` whatever it was, and the
    /// open transaction, if any, is handed back for the caller to commit.
    /// Resolving a never-started or already-resolved handle is not an error
    /// and owes no database operation.
    pub fn resolve(&mut self) -> (a: ResolveAction<T>)
        ensures
            (final(self).state(), a) == resolve_transition(old(self).state()),
    {
        let mut taken = LazyTransactionState::Resolved;
        core::mem::swap(&mut self.state, &mut taken);
        match taken {
            LazyTransactionState::Acquired(tx) => ResolveAction::Commit(tx),
            _ => ResolveAction::Done,
        }
    }

    /// Like [`Self::resolve`], for callers that have already established that
    /// a transaction must exist: takes the open transaction out for
    /// committing, leaving the handle `Resolved`.
    pub fn commit(&mut self) -> (tx: T)
        requires
            old(self).is_acquired(),
        ensures
            final(self).is_resolved(),
            tx == old(self).tx_of(),
    {
        let mut taken = LazyTransactionState::Resolved;
        core::mem::swap(&mut self.state, &mut taken);
        match taken {
            LazyTransactionState::Acquired(tx) => tx,
            _ => vstd::pervasive::unreached(),
        }
    }
}

/// What resolving does to a handle in the given state: the state after, and
/// what is handed back to the caller — the open transaction to commit, or
/// nothing. [`LazyTransaction::resolve`] performs exactly this transition.
pub open spec fn resolve_transition<P, T>(s: LazyTransactionState<P, T>) -> (LazyTransactionState<
    P,
    T,
>, ResolveAction<T>) {
    (
        LazyTransactionState::Resolved,
        match s {
            LazyTransactionState::Acquired(tx) => ResolveAction::Commit(tx),
            _ => ResolveAction::Done,
        },
    )
}

/// Resolving a handle that never started a transaction succeeds trivially:
/// no database operation is owed, and the handle is closed.
pub proof fn lemma_resolve_unacquired_is_trivial<P, T>(s: LazyTransactionState<P, T>)
    requires
        s is Unacquired,
    ensures
        resolve_transition(s).1 == ResolveAction::<T>::Done,
        resolve_transition(s).0 is Resolved,
{
}

/// Resolution is idempotent: whatever the first resolution did, a second one
/// finds nothing left to commit and leaves the handle `Resolved`.
pub proof fn lemma_resolve_idempotent<P, T>(s: LazyTransactionState<P, T>)
    ensures
        resolve_transition(resolve_transition(s).0).1 == ResolveAction::<T>::Done,
        resolve_transition(resolve_transition(s).0).0 is Resolved,
{
}

/// The forward-only lifecycle: resolution never re-enters `Unacquired` or
/// `Acquired`, so a resolved handle rejects every later acquisition.
pub proof fn lemma_resolved_is_terminal<P, T>(s: LazyTransactionState<P, T>)
    ensures
        resolve_transition(s).0 !is Unacquired,
        resolve_transition(s).0 !is Acquired,
{
}

/// Where a state stands along the forward-only lifecycle order
/// `Unacquired -> Acquired -> Resolved`.
pub open spec fn lifecycle_rank<P, T>(s: LazyTransactionState<P, T>) -> int {
    match s {
        LazyTransactionState::Unacquired(_) => 0,
        LazyTransactionState::Acquired(_) => 1,
        LazyTransactionState::Resolved => 2,
    }
}

} // verus!
