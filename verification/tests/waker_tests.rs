use futures_kernel::task::AtomicWaker;
use futures_kernel::task::RegisterBegin;
use futures_kernel::task::WakeHandle;

#[test]
fn wake_with_nothing_registered_is_noop() {
    let mut w = AtomicWaker::new();
    assert_eq!(w.wake(), None);
    assert_eq!(w.wake(), None);
}

#[test]
fn wake_delivers_at_most_once() {
    let mut w = AtomicWaker::new();
    assert_eq!(w.register(WakeHandle { token: 1 }), None);
    assert_eq!(w.wake(), Some(WakeHandle { token: 1 }));
    assert_eq!(w.wake(), None);
}

#[test]
fn register_replaces_previous_handle() {
    let mut w = AtomicWaker::new();
    assert_eq!(w.register(WakeHandle { token: 1 }), None);
    assert_eq!(w.register(WakeHandle { token: 2 }), None);
    assert_eq!(w.take(), Some(WakeHandle { token: 2 }));
    assert_eq!(w.take(), None);
}

#[test]
fn wake_during_registration_is_deferred_to_registrant() {
    let mut w = AtomicWaker::new();
    assert_eq!(w.register_begin(WakeHandle { token: 5 }), RegisterBegin::Stored);
    // a wake delivery lands while the registration is in flight: it finds
    // nothing to deliver itself
    assert_eq!(w.take(), None);
    // ... and the registrant retrieves the handle on commit, to invoke it
    assert_eq!(w.register_commit(), Some(WakeHandle { token: 5 }));
    assert_eq!(w.wake(), None);
}

#[test]
fn competing_registration_is_ignored() {
    let mut w = AtomicWaker::new();
    assert_eq!(w.register_begin(WakeHandle { token: 1 }), RegisterBegin::Stored);
    assert_eq!(w.register_begin(WakeHandle { token: 2 }), RegisterBegin::Ignored);
    assert_eq!(w.register_commit(), None);
    assert_eq!(w.wake(), Some(WakeHandle { token: 1 }));
}

#[test]
fn default_is_idle() {
    let mut w = AtomicWaker::default();
    assert_eq!(w.take(), None);
}
