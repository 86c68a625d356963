//! The pollable-sequence contract: the streaming plural of the pollable
//! computation. Each poll yields the next item, the end of the sequence, or
//! not yet, under the same re-poll-after-notify discipline. Forwarding
//! adapter impls are deliberately absent, as in the single-result contract.

use vstd::prelude::*;

use crate::task::Poll;
use crate::task::WakeHandle;

verus! {

/// A sequence of values produced over time, advanced by repeated
/// non-blocking polls.
pub trait Stream {
    type Item;

    /// Polls once for the next item: `Ready(Some(item))` for the next item,
    /// `Ready(None)` once no more items will come, or `Pending` with the
    /// guarantee that the stream will be polled again after `handle` is
    /// invoked.
    fn poll_next(&mut self, handle: WakeHandle) -> Poll<Option<Self::Item>>;

    /// A non-binding estimate of the remaining length, purely as a hint: a
    /// lower bound and an optional upper bound.
    fn size_hint(&self) -> (usize, Option<usize>) {
        (0, None)
    }
}

/// The "terminated" refinement for sequences; see the single-result form.
pub trait FusedStream: Stream {
    /// True once the stream should no longer be polled.
    fn is_terminated(&self) -> bool;
}

/// Seals the fallible refinement to streams whose items really are
/// success/error unions.
pub trait Sealed {}

/// The fallible refinement for sequences: items split into their success and
/// error sides, without changing polling semantics.
pub trait TryStream: Stream + Sealed {
    type Ok;
    type Error;

    /// Polls once for the next item, split into success and error sides.
    fn try_poll_next(&mut self, handle: WakeHandle) -> Poll<Option<Result<Self::Ok, Self::Error>>>;
}

} // verus!
