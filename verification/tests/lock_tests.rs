use futures_kernel::lock::Lock;

#[test]
fn smoke() {
    let mut a = Lock::new(1);
    assert!(a.try_lock());
    assert!(!a.try_lock());
    assert_eq!(*a.read(), 1);
    a.replace(2);
    a.release();
    assert!(a.try_lock());
    assert_eq!(*a.read(), 2);
    a.release();
    assert!(a.try_lock());
    assert_eq!(*a.read(), 2);
    a.release();
}

#[test]
fn contended_acquisition_fails_until_release() {
    let mut l = Lock::new(7);
    assert!(l.try_lock());
    assert!(!l.try_lock());
    assert!(!l.try_lock());
    l.release();
    assert!(l.try_lock());
    assert_eq!(l.replace(8), 7);
    assert_eq!(*l.read(), 8);
    l.release();
}
