//! A channel for sending a single value between cooperative tasks.
//!
//! This is a single-producer, single-consumer one-shot channel with
//! cancellation. Both handles act on one shared state block, passed
//! explicitly to each operation; shared-allocation identity is modeled by the
//! `id` the block and its handles are stamped with. An operation that
//! completes the channel hands any pending resumption handle back to the
//! caller's scheduler instead of invoking it, and each terminal transition
//! has its own wake routing: retiring the sender wakes the consumer side,
//! retiring the receiver wakes the producer side, so neither wake can be
//! misdelivered.

use core::marker::PhantomData;

use vstd::prelude::*;

use crate::lock::Lock;
use crate::task::Poll;
use crate::task::WakeHandle;

verus! {

/// The zero-information marker a receiver observes when the sending half
/// went away without a value: "peer is gone", as opposed to "no value yet".
#[derive(Clone, Copy, PartialEq, Eq, Structural, Debug)]
pub struct Canceled;

/// The abstract state of a channel's shared block: the terminal flag, the
/// in-flight value, and the two wake slots. `rx_task` holds the consumer's
/// resumption handle while it awaits the value; `tx_task` holds the
/// producer's while it awaits cancellation notice.
pub ghost struct ChannelView<T> {
    pub id: u64,
    pub complete: bool,
    pub data: Option<T>,
    pub rx_task: Option<WakeHandle>,
    pub tx_task: Option<WakeHandle>,
}

/// The state a newly created channel starts in: not complete, no value, no
/// registered wake on either side.
pub open spec fn fresh_view<T>(id: u64) -> ChannelView<T> {
    ChannelView { id: id, complete: false, data: None, rx_task: None, tx_task: None }
}

/// Storing the value: fails on a channel that already reached a terminal
/// condition, handing the value back; otherwise the payload slot holds it.
pub open spec fn send_step<T>(s: ChannelView<T>, t: T) -> (ChannelView<T>, Result<(), T>) {
    if s.complete {
        (s, Err(t))
    } else {
        ((ChannelView { data: Some(t), ..s }), Ok(()))
    }
}

/// Polling for cancellation: resolves at once on a complete channel;
/// otherwise the producer's handle is registered and the poll is pending.
pub open spec fn poll_canceled_step<T>(s: ChannelView<T>, h: WakeHandle) -> (
    ChannelView<T>,
    Poll<()>,
) {
    if s.complete {
        (s, Poll::Ready(()))
    } else {
        ((ChannelView { tx_task: Some(h), ..s }), Poll::Pending)
    }
}

/// The sender's terminal transition: the channel completes, the consumer-side
/// wake is claimed for delivery, and the producer-side slot is drained so its
/// handle can never be delivered twice.
pub open spec fn drop_tx_step<T>(s: ChannelView<T>) -> (ChannelView<T>, Option<WakeHandle>) {
    ((ChannelView { complete: true, rx_task: None, tx_task: None, ..s }), s.rx_task)
}

/// The receiver's terminal transition: the channel completes and the
/// producer-side wake is claimed for delivery, resolving a pending
/// cancellation poll.
pub open spec fn close_rx_step<T>(s: ChannelView<T>) -> (ChannelView<T>, Option<WakeHandle>) {
    ((ChannelView { complete: true, tx_task: None, ..s }), s.tx_task)
}

/// Claiming the value without registering interest: nothing yet on an
/// incomplete channel; on a complete one, the value if it is present, else
/// the cancellation marker.
pub open spec fn try_recv_step<T>(s: ChannelView<T>) -> (
    ChannelView<T>,
    Result<Option<T>, Canceled>,
) {
    if s.complete {
        match s.data {
            Some(v) => ((ChannelView { data: None, ..s }), Ok(Some(v))),
            None => (s, Err(Canceled)),
        }
    } else {
        (s, Ok(None))
    }
}

/// The receiver's poll: on a complete channel, the value exactly once, then
/// the cancellation marker; on an incomplete one, the consumer's handle is
/// registered and the poll is pending.
pub open spec fn recv_step<T>(s: ChannelView<T>, h: WakeHandle) -> (
    ChannelView<T>,
    Poll<Result<T, Canceled>>,
) {
    if s.complete {
        match s.data {
            Some(v) => ((ChannelView { data: None, ..s }), Poll::Ready(Ok(v))),
            None => (s, Poll::Ready(Err(Canceled))),
        }
    } else {
        ((ChannelView { rx_task: Some(h), ..s }), Poll::Pending)
    }
}

/// What `Sender::send` does as a whole: store the value, then retire the
/// handle, which completes the channel and claims the consumer-side wake.
pub open spec fn sender_send_step<T>(s: ChannelView<T>, t: T) -> (
    ChannelView<T>,
    Result<(), T>,
    Option<WakeHandle>,
) {
    let (s1, r) = send_step(s, t);
    let (s2, w) = drop_tx_step(s1);
    (s2, r, w)
}

/// The shared state block of one channel, jointly acted on by the sender and
/// the receiver handles stamped with the same identity.
pub struct Inner<T> {
    id: u64,
    complete: bool,
    data: Lock<Option<T>>,
    rx_task: Lock<Option<WakeHandle>>,
    tx_task: Lock<Option<WakeHandle>>,
}

impl<T> View for Inner<T> {
    type V = ChannelView<T>;

    closed spec fn view(&self) -> ChannelView<T> {
        ChannelView {
            id: self.id,
            complete: self.complete,
            data: self.data@.value,
            rx_task: self.rx_task@.value,
            tx_task: self.tx_task@.value,
        }
    }
}

impl<T> Inner<T> {
    /// Between operations, no acquisition is live on any of the three
    /// protected slots: every operation acquires and releases within its own
    /// step, on every exit path.
    pub closed spec fn wf(&self) -> bool {
        !self.data@.locked && !self.rx_task@.locked && !self.tx_task@.locked
    }

    /// Creates the shared block of a fresh channel with identity `id`.
    pub fn new(id: u64) -> (inner: Inner<T>)
        ensures
            inner.wf(),
            inner@ == fresh_view::<T>(id),
    {
        Inner {
            id: id,
            complete: false,
            data: Lock::new(None),
            rx_task: Lock::new(None),
            tx_task: Lock::new(None),
        }
    }

    /// Stores `t` as the channel's one value, or hands it back if the channel
    /// already reached a terminal condition, so no value is silently
    /// stranded. Does not wake the receiver: that is the retirement of the
    /// sending handle, which follows every send.
    pub fn send(&mut self, t: T) -> (r: Result<(), T>)
        requires
            old(self).wf(),
            !old(self)@.complete ==> old(self)@.data is None,
        ensures
            final(self).wf(),
            (final(self)@, r) == send_step(old(self)@, t),
    {
        if self.complete {
            return Err(t);
        }
        if self.data.try_lock() {
            let prev = self.data.replace(Some(t));
            assert(prev is None);
            self.data.release();
            // A terminal condition reached after the store but before this
            // recheck would strand the value: reclaim it and report failure.
            if self.complete {
                if self.data.try_lock() {
                    let reclaimed = self.data.replace(None);
                    self.data.release();
                    if let Some(t) = reclaimed {
                        return Err(t);
                    }
                }
            }
            Ok(())
        } else {
            Err(t)
        }
    }

    /// Resolves at once if the channel is complete; otherwise registers the
    /// producer's resumption handle and rechecks completeness, so a terminal
    /// transition between the first check and the registration is not missed.
    pub fn poll_canceled(&mut self, handle: WakeHandle) -> (r: Poll<()>)
        requires
            old(self).wf(),
        ensures
            final(self).wf(),
            (final(self)@, r) == poll_canceled_step(old(self)@, handle),
    {
        if self.complete {
            return Poll::Ready(());
        }
        if self.tx_task.try_lock() {
            let _prev = self.tx_task.replace(Some(handle));
            self.tx_task.release();
        } else {
            return Poll::Ready(());
        }
        if self.complete {
            Poll::Ready(())
        } else {
            Poll::Pending
        }
    }

    /// Non-blocking snapshot of the terminal flag.
    pub fn is_canceled(&self) -> (r: bool)
        ensures
            r == self@.complete,
    {
        self.complete
    }

    /// The sender's terminal transition: marks the channel complete, claims
    /// the consumer-side wake for the caller to deliver, and drains the
    /// producer-side slot so its handle can never be delivered afterwards.
    pub fn drop_tx(&mut self) -> (wake: Option<WakeHandle>)
        requires
            old(self).wf(),
        ensures
            final(self).wf(),
            (final(self)@, wake) == drop_tx_step(old(self)@),
    {
        self.complete = true;
        let mut to_wake: Option<WakeHandle> = None;
        if self.rx_task.try_lock() {
            to_wake = self.rx_task.replace(None);
            self.rx_task.release();
        }
        if self.tx_task.try_lock() {
            let _dropped = self.tx_task.replace(None);
            self.tx_task.release();
        }
        to_wake
    }

    /// The receiver's terminal transition: marks the channel complete and
    /// claims the producer-side wake for the caller to deliver, so a pending
    /// cancellation poll resolves.
    pub fn close_rx(&mut self) -> (wake: Option<WakeHandle>)
        requires
            old(self).wf(),
        ensures
            final(self).wf(),
            (final(self)@, wake) == close_rx_step(old(self)@),
    {
        self.complete = true;
        if self.tx_task.try_lock() {
            let task = self.tx_task.replace(None);
            self.tx_task.release();
            task
        } else {
            None
        }
    }

    /// Claims the value if the channel is complete and still holds it;
    /// reports cancellation if it is complete without one; reports "no value
    /// yet" otherwise.
    pub fn try_recv(&mut self) -> (r: Result<Option<T>, Canceled>)
        requires
            old(self).wf(),
        ensures
            final(self).wf(),
            (final(self)@, r) == try_recv_step(old(self)@),
    {
        if self.complete {
            if self.data.try_lock() {
                let data = self.data.replace(None);
                self.data.release();
                if let Some(v) = data {
                    return Ok(Some(v));
                }
            }
            Err(Canceled)
        } else {
            Ok(None)
        }
    }

    /// The consumer's poll: registers `handle` and suspends while the channel
    /// is incomplete; once complete, yields the value exactly once and the
    /// cancellation marker from then on.
    pub fn recv(&mut self, handle: WakeHandle) -> (r: Poll<Result<T, Canceled>>)
        requires
            old(self).wf(),
        ensures
            final(self).wf(),
            (final(self)@, r) == recv_step(old(self)@, handle),
    {
        let mut done = false;
        if self.complete {
            done = true;
        } else {
            if self.rx_task.try_lock() {
                let _prev = self.rx_task.replace(Some(handle));
                self.rx_task.release();
            } else {
                done = true;
            }
        }
        if done || self.complete {
            if self.data.try_lock() {
                let data = self.data.replace(None);
                self.data.release();
                if let Some(v) = data {
                    return Poll::Ready(Ok(v));
                }
            }
            Poll::Ready(Err(Canceled))
        } else {
            Poll::Pending
        }
    }
}

/// The sending half of a channel. Exactly one exists per channel; sending or
/// retiring it consumes it, so at most one value is ever sent.
pub struct Sender<T> {
    id: u64,
    _marker: PhantomData<T>,
}

/// The receiving half of a channel. Exactly one exists per channel.
pub struct Receiver<T> {
    id: u64,
    _marker: PhantomData<T>,
}

/// A pollable "await cancellation" view over a sender, usable without
/// consuming the sender it was made from.
pub struct Cancellation<T> {
    id: u64,
    _marker: PhantomData<T>,
}

/// Two handles are connected when they carry the identity of one shared
/// state block.
pub open spec fn connected<T>(s: Sender<T>, r: Receiver<T>) -> bool {
    s.chan_id() == r.chan_id()
}

/// Creates a linked sender/receiver pair and their shared state block.
/// `id` stands for the identity of the fresh shared allocation, which has to
/// be explicit here; give each channel its own.
pub fn channel<T>(id: u64) -> (r: (Sender<T>, Receiver<T>, Inner<T>))
    ensures
        r.2.wf(),
        r.2@ == fresh_view::<T>(id),
        r.0.chan_id() == id,
        r.1.chan_id() == id,
{
    let inner = Inner::new(id);
    let receiver = Receiver { id: id, _marker: PhantomData };
    let sender = Sender { id: id, _marker: PhantomData };
    (sender, receiver, inner)
}

impl<T> Sender<T> {
    /// The identity of the shared state block this handle belongs to.
    pub closed spec fn chan_id(&self) -> u64 {
        self.id
    }

    /// Sends `t` and retires this handle: the value is stored (or handed
    /// back if the channel already reached a terminal condition), the channel
    /// completes, and any consumer-side wake is returned for the caller's
    /// scheduler to invoke.
    pub fn send(self, t: T, inner: &mut Inner<T>) -> (r: (Result<(), T>, Option<WakeHandle>))
        requires
            self.chan_id() == old(inner)@.id,
            old(inner).wf(),
            !old(inner)@.complete ==> old(inner)@.data is None,
        ensures
            final(inner).wf(),
            (final(inner)@, r.0, r.1) == sender_send_step(old(inner)@, t),
    {
        let result = inner.send(t);
        let wake = inner.drop_tx();
        (result, wake)
    }

    /// Polls whether the receiving half is gone; Pending registers `handle`
    /// to be woken by the receiver's terminal transition.
    pub fn poll_canceled(&self, inner: &mut Inner<T>, handle: WakeHandle) -> (r: Poll<()>)
        requires
            self.chan_id() == old(inner)@.id,
            old(inner).wf(),
        ensures
            final(inner).wf(),
            (final(inner)@, r) == poll_canceled_step(old(inner)@, handle),
    {
        inner.poll_canceled(handle)
    }

    /// A pollable-computation view of "await cancellation" that leaves the
    /// sender usable.
    pub fn cancellation(&self) -> (c: Cancellation<T>)
        ensures
            c.chan_id() == self.chan_id(),
    {
        Cancellation { id: self.id, _marker: PhantomData }
    }

    /// Non-blocking snapshot: has the channel reached a terminal condition?
    pub fn is_canceled(&self, inner: &Inner<T>) -> (r: bool)
        requires
            self.chan_id() == inner@.id,
        ensures
            r == inner@.complete,
    {
        inner.is_canceled()
    }

    /// Whether both handles came from the same `channel` call, that is,
    /// share one state block.
    pub fn is_connected_to(&self, receiver: &Receiver<T>) -> (r: bool)
        ensures
            r == connected(*self, *receiver),
    {
        self.id == receiver.id
    }

    /// Retires the sending half without a value: the sender's terminal
    /// transition. Returns the consumer-side wake to invoke, so a receiver
    /// suspended on its poll resumes and observes cancellation.
    pub fn disconnect(self, inner: &mut Inner<T>) -> (wake: Option<WakeHandle>)
        requires
            self.chan_id() == old(inner)@.id,
            old(inner).wf(),
        ensures
            final(inner).wf(),
            (final(inner)@, wake) == drop_tx_step(old(inner)@),
    {
        inner.drop_tx()
    }
}

impl<T> Receiver<T> {
    /// The identity of the shared state block this handle belongs to.
    pub closed spec fn chan_id(&self) -> u64 {
        self.id
    }

    /// Polls for the value: Ready with the value once it was sent, Ready with
    /// the cancellation marker once the sender is gone without one, or
    /// Pending with `handle` registered for the wake that completion
    /// delivers.
    pub fn poll(&self, inner: &mut Inner<T>, handle: WakeHandle) -> (r: Poll<Result<T, Canceled>>)
        requires
            self.chan_id() == old(inner)@.id,
            old(inner).wf(),
        ensures
            final(inner).wf(),
            (final(inner)@, r) == recv_step(old(inner)@, handle),
    {
        inner.recv(handle)
    }

    /// Claims the value if one is ready, without registering interest.
    pub fn try_recv(&self, inner: &mut Inner<T>) -> (r: Result<Option<T>, Canceled>)
        requires
            self.chan_id() == old(inner)@.id,
            old(inner).wf(),
        ensures
            final(inner).wf(),
            (final(inner)@, r) == try_recv_step(old(inner)@),
    {
        inner.try_recv()
    }

    /// Retires the receiving half: the receiver's terminal transition.
    /// Returns the producer-side wake to invoke, so a sender suspended on its
    /// cancellation poll resolves.
    pub fn close(self, inner: &mut Inner<T>) -> (wake: Option<WakeHandle>)
        requires
            self.chan_id() == old(inner)@.id,
            old(inner).wf(),
        ensures
            final(inner).wf(),
            (final(inner)@, wake) == close_rx_step(old(inner)@),
    {
        inner.close_rx()
    }
}

impl<T> Cancellation<T> {
    /// The identity of the shared state block this view belongs to.
    pub closed spec fn chan_id(&self) -> u64 {
        self.id
    }

    /// Polls the cancellation of the sender this view was made from.
    pub fn poll(&self, inner: &mut Inner<T>, handle: WakeHandle) -> (r: Poll<()>)
        requires
            self.chan_id() == old(inner)@.id,
            old(inner).wf(),
        ensures
            final(inner).wf(),
            (final(inner)@, r) == poll_canceled_step(old(inner)@, handle),
    {
        inner.poll_canceled(handle)
    }
}

/// A value sent before any terminal event is observed by the receiver
/// exactly once: the send succeeds, the next poll yields exactly that value,
/// and every later poll yields the cancellation marker, never the value
/// again.
pub proof fn lemma_value_delivered_exactly_once<T>(
    s: ChannelView<T>,
    v: T,
    h1: WakeHandle,
    h2: WakeHandle,
)
    requires
        !s.complete,
        s.data is None,
    ensures
        ({
            let (s1, sent, _wake) = sender_send_step(s, v);
            let (s2, first) = recv_step(s1, h1);
            let (s3, second) = recv_step(s2, h2);
            sent == Ok::<(), T>(()) && first == Poll::Ready(Ok::<T, Canceled>(v)) && second
                == Poll::Ready(Err::<T, Canceled>(Canceled))
        }),
{
}

/// A second send on the same channel fails and hands its argument back
/// unchanged: the channel carries at most one value.
pub proof fn lemma_second_send_fails<T>(s: ChannelView<T>, v: T, w: T)
    requires
        !s.complete,
        s.data is None,
    ensures
        ({
            let (s1, _sent, _wake) = sender_send_step(s, v);
            send_step(s1, w) == (s1, Err::<(), T>(w))
        }),
{
}

/// Retiring the sender before any send makes the receiver's very next poll
/// observe the cancellation marker: never a value, and not Pending.
pub proof fn lemma_sender_drop_cancels<T>(s: ChannelView<T>, h: WakeHandle)
    requires
        s.data is None,
    ensures
        ({
            let (s1, _wake) = drop_tx_step(s);
            recv_step(s1, h).1 == Poll::Ready(Err::<T, Canceled>(Canceled))
        }),
{
}

/// Retiring the receiver makes a later cancellation poll on the sender
/// resolve Ready at once, and the canceled snapshot report true.
pub proof fn lemma_receiver_drop_resolves_cancellation<T>(s: ChannelView<T>, h: WakeHandle)
    ensures
        ({
            let (s1, _wake) = close_rx_step(s);
            s1.complete && poll_canceled_step(s1, h) == (s1, Poll::<()>::Ready(()))
        }),
{
}

/// Handles produced by one `channel` call report connected; handles from two
/// calls made with distinct identities never do.
pub proof fn lemma_connected_iff_same_channel<T>(
    id_a: u64,
    id_b: u64,
    sa: Sender<T>,
    ra: Receiver<T>,
    sb: Sender<T>,
    rb: Receiver<T>,
)
    requires
        sa.chan_id() == id_a,
        ra.chan_id() == id_a,
        sb.chan_id() == id_b,
        rb.chan_id() == id_b,
        id_a != id_b,
    ensures
        connected(sa, ra),
        connected(sb, rb),
        !connected(sa, rb),
        !connected(sb, ra),
{
}

/// Completion is terminal: no operation makes a complete channel incomplete
/// again.
pub proof fn lemma_complete_is_terminal<T>(s: ChannelView<T>, t: T, h: WakeHandle)
    requires
        s.complete,
    ensures
        send_step(s, t).0.complete,
        poll_canceled_step(s, h).0.complete,
        drop_tx_step(s).0.complete,
        close_rx_step(s).0.complete,
        try_recv_step(s).0.complete,
        recv_step(s, h).0.complete,
{
}

} // verus!
