//! The middleware's resolution decision.
//!
//! Once the inner handler chain has produced a response, the middleware looks
//! at nothing but the response's status code to choose between committing the
//! request's transaction and leaving it to roll back when dropped. That
//! choice is the whole of the middleware's own logic; the functions here
//! state it exactly.

use vstd::prelude::*;

verus! {

/// True of the status codes after which the middleware commits: everything
/// that is neither a client error (400-499) nor a server error (500-599).
pub open spec fn commit_status(status: u16) -> bool {
    !(400 <= status && status < 600)
}

/// Decides, from the response status alone, whether the middleware commits
/// the request's transaction or leaves it to roll back when dropped.
pub fn should_commit(status: u16) -> (r: bool)
    ensures
        r == commit_status(status),
{
    !(400 <= status && status < 600)
}

} // verus!
