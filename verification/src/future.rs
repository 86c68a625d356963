//! The pollable-computation contract: the single-result interface that a
//! channel's halves satisfy so they compose with timers, executors and other
//! combinators. Adapter impls that merely forward through ownership wrappers
//! are deliberately absent; the contract is the interface itself.

use vstd::prelude::*;

use crate::task::Poll;
use crate::task::WakeHandle;

verus! {

/// A value representing work in progress, advanced by repeated non-blocking
/// polls. Suspension is signaled, not implemented: a `Pending` result means
/// the caller's scheduler parks the task until the handle given to the poll
/// is invoked, after which the computation must be polled again to progress.
pub trait Future {
    type Output;

    /// Polls once, given a resumption handle to notify on progress: either a
    /// final value, or not yet.
    fn poll(&mut self, handle: WakeHandle) -> Poll<Self::Output>;
}

/// The "terminated" refinement: a query for whether polling again can still
/// be productive. Once it answers false, polling again is a caller error,
/// not a silent no-op.
pub trait FusedFuture: Future {
    /// True once the computation should no longer be polled.
    fn is_terminated(&self) -> bool;
}

/// Seals the fallible refinement to computations whose result really is a
/// success/error union.
pub trait Sealed {}

/// The fallible refinement: projects a computation whose result is a
/// success/error union into a contract with separate success and error
/// types, without changing polling semantics.
pub trait TryFuture: Future + Sealed {
    type Ok;
    type Error;

    /// Polls once, with the result split into its success and error sides.
    fn try_poll(&mut self, handle: WakeHandle) -> Poll<Result<Self::Ok, Self::Error>>;
}

} // verus!
