//! Wake notification: resumption handles, poll results, and a single-slot
//! wake-registration mailbox.
//!
//! The mailbox coordinates a consumer that registers interest with a producer
//! that delivers a wake. Registration is split into its two observable
//! transitions (`register_begin`, `register_commit`) so that a wake delivery
//! landing between them can be reasoned about: such a wake is never lost, it
//! is deferred to the registrant, whose commit retrieves the handle.

use vstd::prelude::*;

verus! {

/// An opaque, copyable resumption token. Invoking it (a scheduler concern,
/// outside this crate) asks for the task that issued it to be polled again.
#[derive(Clone, Copy, PartialEq, Eq, Structural, Debug)]
pub struct WakeHandle {
    pub token: u64,
}

/// The result of polling once: a final value, or not yet, with the contract
/// that the poll must be retried after the registered handle is invoked.
#[derive(Clone, Copy, PartialEq, Eq, Debug)]
pub enum Poll<T> {
    Ready(T),
    Pending,
}

/// Idle: no transition is in flight; the slot may hold a registered handle.
pub const WAITING: usize = 0;

/// A registration is in flight: the registrant owns the slot.
pub const REGISTERING: usize = 0b01;

/// A wake delivery is in flight, or arrived during a registration when
/// combined with `REGISTERING`.
pub const WAKING: usize = 0b10;

/// Both at once: a wake arrived while a registration was in flight; the
/// registrant must deliver it on commit.
pub const REGISTERING_WAKING: usize = 0b11;

/// The abstract state of an [`AtomicWaker`]: the transition flags and the
/// handle slot.
pub ghost struct WakerView {
    pub state: usize,
    pub waker: Option<WakeHandle>,
}

impl WakerView {
    /// The state field only ever holds the two transition flags.
    pub open spec fn wf(self) -> bool {
        self.state == WAITING || self.state == REGISTERING || self.state == WAKING
            || self.state == REGISTERING_WAKING
    }
}

/// Outcome of the first registration transition.
#[derive(Clone, Copy, PartialEq, Eq, Debug)]
pub enum RegisterBegin {
    /// The slot was idle: the handle is stored and the registrant must call
    /// `register_commit` to either confirm it or learn of a deferred wake.
    Stored,
    /// A wake delivery is in flight: the caller's handle is handed straight
    /// back to be invoked now, and nothing is stored.
    Wake(WakeHandle),
    /// Another registration is in flight. Registrations must not be issued
    /// concurrently; the misuse is a no-op, never a corruption.
    Ignored,
}

/// First registration transition: claim the slot if idle, report an in-flight
/// wake as "already woken", ignore a competing registration.
pub open spec fn register_begin_step(s: WakerView, h: WakeHandle) -> (WakerView, RegisterBegin) {
    if s.state == WAITING {
        ((WakerView { state: REGISTERING, waker: Some(h) }), RegisterBegin::Stored)
    } else if s.state == WAKING {
        (s, RegisterBegin::Wake(h))
    } else {
        (s, RegisterBegin::Ignored)
    }
}

/// Second registration transition: with no interference the stored handle
/// stays registered; if a wake arrived meanwhile, the registrant takes the
/// handle back to invoke it, so the wake is not left for a future caller.
pub open spec fn register_commit_step(s: WakerView) -> (WakerView, Option<WakeHandle>) {
    if s.state == REGISTERING {
        ((WakerView { state: WAITING, waker: s.waker }), None::<WakeHandle>)
    } else {
        ((WakerView { state: WAITING, waker: None }), s.waker)
    }
}

/// A whole uninterrupted registration: both transitions back to back.
pub open spec fn register_step(s: WakerView, h: WakeHandle) -> (WakerView, Option<WakeHandle>) {
    if s.state == WAITING {
        ((WakerView { state: WAITING, waker: Some(h) }), None::<WakeHandle>)
    } else if s.state == WAKING {
        (s, Some(h))
    } else {
        (s, None::<WakeHandle>)
    }
}

/// Claiming the registered handle: an idle slot is drained; a slot with a
/// registration in flight is flagged so the registrant delivers the wake; a
/// slot with a delivery already in flight yields nothing (at-most-once).
pub open spec fn take_step(s: WakerView) -> (WakerView, Option<WakeHandle>) {
    if s.state == WAITING {
        ((WakerView { state: WAITING, waker: None }), s.waker)
    } else if s.state == REGISTERING {
        ((WakerView { state: REGISTERING_WAKING, waker: s.waker }), None::<WakeHandle>)
    } else {
        (s, None::<WakeHandle>)
    }
}

/// A lock-free single-slot mailbox holding at most one pending resumption
/// handle. Consumers register interest before checking for the event they
/// await; producers deliver a wake after making the event observable. A wake
/// delivered before any registration is a no-op.
pub struct AtomicWaker {
    state: usize,
    waker: Option<WakeHandle>,
}

impl View for AtomicWaker {
    type V = WakerView;

    closed spec fn view(&self) -> WakerView {
        WakerView { state: self.state, waker: self.waker }
    }
}

impl AtomicWaker {
    /// Creates an idle mailbox with an empty slot.
    pub fn new() -> (w: AtomicWaker)
        ensures
            w@ == (WakerView { state: WAITING, waker: None::<WakeHandle> }),
    {
        AtomicWaker { state: WAITING, waker: None }
    }

    /// First registration transition; see [`register_begin_step`]. On
    /// [`RegisterBegin::Stored`] the registrant must follow up with
    /// [`Self::register_commit`]; on [`RegisterBegin::Wake`] it must invoke
    /// the returned handle immediately.
    pub fn register_begin(&mut self, handle: WakeHandle) -> (r: RegisterBegin)
        requires
            old(self)@.wf(),
        ensures
            final(self)@.wf(),
            (final(self)@, r) == register_begin_step(old(self)@, handle),
    {
        if self.state == WAITING {
            self.waker = Some(handle);
            self.state = REGISTERING;
            RegisterBegin::Stored
        } else if self.state == WAKING {
            RegisterBegin::Wake(handle)
        } else {
            RegisterBegin::Ignored
        }
    }

    /// Second registration transition; see [`register_commit_step`]. Only the
    /// registrant that observed [`RegisterBegin::Stored`] calls this. A
    /// returned handle is a wake that arrived during the registration; the
    /// caller must invoke it, so it is delivered rather than lost.
    pub fn register_commit(&mut self) -> (r: Option<WakeHandle>)
        requires
            old(self)@.state == REGISTERING || old(self)@.state == REGISTERING_WAKING,
        ensures
            final(self)@.wf(),
            (final(self)@, r) == register_commit_step(old(self)@),
    {
        if self.state == REGISTERING {
            self.state = WAITING;
            None
        } else {
            let w = self.waker;
            self.waker = None;
            self.state = WAITING;
            w
        }
    }

    /// A whole uninterrupted registration: stores `handle` as the pending
    /// resumption target, or returns it when a wake delivery is already in
    /// flight, in which case the caller invokes it immediately.
    pub fn register(&mut self, handle: WakeHandle) -> (r: Option<WakeHandle>)
        requires
            old(self)@.wf(),
        ensures
            final(self)@.wf(),
            (final(self)@, r) == register_step(old(self)@, handle),
    {
        match self.register_begin(handle) {
            RegisterBegin::Stored => self.register_commit(),
            RegisterBegin::Wake(h) => Some(h),
            RegisterBegin::Ignored => None,
        }
    }

    /// Claims and removes the registered handle, if any; see [`take_step`].
    /// Used when the caller will invoke the handle itself.
    pub fn take(&mut self) -> (r: Option<WakeHandle>)
        requires
            old(self)@.wf(),
        ensures
            final(self)@.wf(),
            (final(self)@, r) == take_step(old(self)@),
    {
        if self.state == WAITING {
            let w = self.waker;
            self.waker = None;
            w
        } else if self.state == REGISTERING {
            self.state = REGISTERING_WAKING;
            None
        } else {
            None
        }
    }

    /// Delivers the currently registered handle at most once: the slot is
    /// drained and the handle, if any, is returned for the caller's scheduler
    /// to invoke.
    pub fn wake(&mut self) -> (r: Option<WakeHandle>)
        requires
            old(self)@.wf(),
        ensures
            final(self)@.wf(),
            (final(self)@, r) == take_step(old(self)@),
    {
        self.take()
    }
}

impl Default for AtomicWaker {
    fn default() -> (w: AtomicWaker)
        ensures
            w@ == (WakerView { state: WAITING, waker: None::<WakeHandle> }),
    {
        AtomicWaker::new()
    }
}

/// Waking with nothing registered is a no-op: nothing is delivered and the
/// mailbox is unchanged.
pub proof fn lemma_wake_empty_is_noop(s: WakerView)
    requires
        s.state == WAITING,
        s.waker is None,
    ensures
        take_step(s) == (s, None::<WakeHandle>),
{
}

/// Two wake deliveries in a row deliver the registered handle at most once:
/// whatever the first delivery did, the second finds nothing to deliver.
pub proof fn lemma_wake_at_most_once(s: WakerView)
    ensures
        take_step(take_step(s).0).1 is None,
{
}

/// A wake that lands between the two registration transitions is never lost:
/// the delivery itself finds nothing, the combined state defers it to the
/// registrant, and the registrant's commit retrieves exactly the handle it
/// had stored, leaving the mailbox idle.
pub proof fn lemma_wake_during_registration_not_lost(s: WakerView, h: WakeHandle)
    requires
        s.state == WAITING,
    ensures
        ({
            let (s1, begun) = register_begin_step(s, h);
            let (s2, delivered) = take_step(s1);
            begun == RegisterBegin::Stored && delivered is None
                && register_commit_step(s2).1 == Some(h)
                && register_commit_step(s2).0 == (WakerView {
                state: WAITING,
                waker: None::<WakeHandle>,
            })
        }),
{
}

} // verus!
