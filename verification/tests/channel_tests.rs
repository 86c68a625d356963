use futures_kernel::oneshot::channel;
use futures_kernel::oneshot::Canceled;
use futures_kernel::task::Poll;
use futures_kernel::task::WakeHandle;

#[test]
fn send_then_poll_delivers_value() {
    let (sender, receiver, mut inner) = channel::<i32>(1);
    let (result, wake) = sender.send(5, &mut inner);
    assert_eq!(result, Ok(()));
    assert_eq!(wake, None);
    assert_eq!(
        receiver.poll(&mut inner, WakeHandle { token: 1 }),
        Poll::Ready(Ok(5))
    );
    // a further send on the already-consumed sender's channel fails and
    // hands the argument back unchanged
    assert_eq!(inner.send(6), Err(6));
}

#[test]
fn value_is_delivered_exactly_once() {
    let (sender, receiver, mut inner) = channel::<i32>(1);
    let (result, _wake) = sender.send(5, &mut inner);
    assert_eq!(result, Ok(()));
    assert_eq!(
        receiver.poll(&mut inner, WakeHandle { token: 1 }),
        Poll::Ready(Ok(5))
    );
    assert_eq!(
        receiver.poll(&mut inner, WakeHandle { token: 2 }),
        Poll::Ready(Err(Canceled))
    );
}

#[test]
fn sender_drop_yields_cancellation_not_pending() {
    let (sender, receiver, mut inner) = channel::<i32>(1);
    let wake = sender.disconnect(&mut inner);
    assert_eq!(wake, None);
    assert_eq!(
        receiver.poll(&mut inner, WakeHandle { token: 1 }),
        Poll::Ready(Err(Canceled))
    );
}

#[test]
fn receiver_close_resolves_cancellation() {
    let (sender, receiver, mut inner) = channel::<i32>(1);
    assert!(!sender.is_canceled(&inner));
    assert_eq!(
        sender.poll_canceled(&mut inner, WakeHandle { token: 7 }),
        Poll::Pending
    );
    let wake = receiver.close(&mut inner);
    assert_eq!(wake, Some(WakeHandle { token: 7 }));
    assert!(sender.is_canceled(&inner));
    assert_eq!(
        sender.poll_canceled(&mut inner, WakeHandle { token: 8 }),
        Poll::Ready(())
    );
}

#[test]
fn handles_of_one_channel_report_connected() {
    let (s1, r1, _i1) = channel::<u8>(1);
    let (s2, r2, _i2) = channel::<u8>(2);
    assert!(s1.is_connected_to(&r1));
    assert!(s2.is_connected_to(&r2));
    assert!(!s1.is_connected_to(&r2));
    assert!(!s2.is_connected_to(&r1));
}

#[test]
fn pending_poll_is_woken_by_send() {
    let (sender, receiver, mut inner) = channel::<String>(3);
    assert_eq!(
        receiver.poll(&mut inner, WakeHandle { token: 11 }),
        Poll::Pending
    );
    let (result, wake) = sender.send(String::from("hi"), &mut inner);
    assert_eq!(result, Ok(()));
    // the consumer's registered handle is claimed for delivery
    assert_eq!(wake, Some(WakeHandle { token: 11 }));
    assert_eq!(
        receiver.poll(&mut inner, WakeHandle { token: 12 }),
        Poll::Ready(Ok(String::from("hi")))
    );
}

#[test]
fn send_after_receiver_closed_returns_value() {
    let (sender, receiver, mut inner) = channel::<i32>(6);
    let wake = receiver.close(&mut inner);
    assert_eq!(wake, None);
    let (result, wake) = sender.send(42, &mut inner);
    assert_eq!(result, Err(42));
    assert_eq!(wake, None);
}

#[test]
fn try_recv_reports_each_stage() {
    let (sender, receiver, mut inner) = channel::<i32>(4);
    assert_eq!(receiver.try_recv(&mut inner), Ok(None));
    let (result, _wake) = sender.send(9, &mut inner);
    assert_eq!(result, Ok(()));
    assert_eq!(receiver.try_recv(&mut inner), Ok(Some(9)));
    assert_eq!(receiver.try_recv(&mut inner), Err(Canceled));
}

#[test]
fn cancellation_view_polls_without_consuming_sender() {
    let (sender, receiver, mut inner) = channel::<i32>(5);
    let cancellation = sender.cancellation();
    assert_eq!(
        cancellation.poll(&mut inner, WakeHandle { token: 21 }),
        Poll::Pending
    );
    let wake = receiver.close(&mut inner);
    assert_eq!(wake, Some(WakeHandle { token: 21 }));
    assert_eq!(
        cancellation.poll(&mut inner, WakeHandle { token: 22 }),
        Poll::Ready(())
    );
    // the sender stayed usable beside its cancellation view
    assert!(sender.is_canceled(&inner));
}
