//! Request-scoped, lazily started database transactions.
//!
//! A request handler may ask for "the transaction of this request" any number
//! of times, including none, and always sees the same open transaction; it is
//! begun on first use and resolved exactly once when the request finishes —
//! committed when the response status is a success, left to roll back on drop
//! otherwise.
//!
//! This crate holds the verified core of that design: the three-state
//! transaction handle ([`extension::LazyTransaction`]), the per-request
//! session protocol with its non-blocking lock ([`session::Session`]), and
//! the middleware's commit-or-roll-back decision ([`layer::should_commit`]).
//! Every step that needs the driver or the HTTP runtime — beginning a
//! transaction on the pool, committing one, the locking primitive itself —
//! is pushed to the caller as a value and reported back as an event, so the
//! lifecycle logic is verified for every outcome of the outside work.

use vstd::prelude::*;

pub mod extension;
pub mod layer;
pub mod session;

verus! {

/// A recoverable misuse of the request-scoped transaction: two call sites
/// tried to hold it at once, or it was used after its request resolved it.
/// It is surfaced immediately and never retried — overlap signals a bug in
/// handler code, not a database failure.
#[derive(Debug, Clone, Copy, PartialEq, Eq, Structural)]
pub enum Error {
    OverlappingExtractors,
}

} // verus!
