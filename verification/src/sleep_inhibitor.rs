//! The capability surface both inhibition strategies implement.

use vstd::prelude::*;
use crate::errors::InhibitError;

verus! {

/// One inhibit / uninhibit cycle against a power manager. A strategy holds
/// at most one lease at a time; `held` is its abstract state. Failures come
/// back as values — the orchestrator alone decides to terminate on them.
pub trait SleepInhibitor {
    /// Whether this strategy currently holds a lease.
    spec fn held(&self) -> bool;

    /// Requests a lease. On success a lease is held; a failed request
    /// leaves the strategy as it was.
    fn inhibit(&mut self, application: &str, reason: &str) -> (r: Result<(), InhibitError>)
        ensures
            r is Ok ==> final(self).held(),
            r is Err ==> final(self).held() == old(self).held(),
    ;

    /// Releases the held lease. With no lease held this fails fast with
    /// `PreconditionError` and touches nothing, so that programming errors
    /// surface during the construction-time self-test. With a lease held,
    /// only the release itself can fail, and a failed release keeps the
    /// lease: the strategy never pretends to have released.
    fn uninhibit(&mut self) -> (r: Result<(), InhibitError>)
        ensures
            !old(self).held() ==> r == Err::<(), InhibitError>(InhibitError::Precondition)
                && final(self).held() == old(self).held(),
            old(self).held() && r is Err ==> r != Err::<(), InhibitError>(
                InhibitError::Precondition,
            ),
            r is Err ==> final(self).held() == old(self).held(),
            r is Ok ==> !final(self).held() && old(self).held(),
    ;
}

} // verus!
