//! Cooperative-scheduling primitives: a one-shot signaling channel with
//! cancellation, a single-slot wake-registration mailbox, and the minimal
//! exclusive-access cell the channel uses to protect its payload slot.
//!
//! Every operation is a non-blocking step on explicit shared state; a step
//! that would resume a suspended task hands the pending wake handle back to
//! the caller's scheduler instead of invoking it.

pub mod future;
pub mod lock;
pub mod oneshot;
pub mod stream;
pub mod task;
