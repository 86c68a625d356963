//! A minimal exclusive-access cell: one busy flag guarding one interior value.
//!
//! Acquisition never blocks. A contended attempt fails immediately and the
//! caller treats the resource as unavailable for this attempt; it does not
//! spin or retry.

use vstd::prelude::*;

verus! {

/// The abstract state of a [`Lock`]: the busy flag and the guarded value.
pub ghost struct LockView<T> {
    pub locked: bool,
    pub value: T,
}

/// A minimal mutual-exclusion primitive over a single busy flag and one
/// interior value. At most one live acquisition exists at a time; holding
/// the lock is what licenses reading or replacing the value.
pub struct Lock<T> {
    locked: bool,
    data: T,
}

impl<T> View for Lock<T> {
    type V = LockView<T>;

    closed spec fn view(&self) -> LockView<T> {
        LockView { locked: self.locked, value: self.data }
    }
}

/// One acquisition attempt: a held lock stays held and the attempt fails;
/// a free lock becomes held and the attempt succeeds.
pub open spec fn try_lock_step<T>(s: LockView<T>) -> (LockView<T>, bool) {
    if s.locked {
        (s, false)
    } else {
        ((LockView { locked: true, ..s }), true)
    }
}

/// A release: the busy flag is cleared unconditionally; the value stays.
pub open spec fn release_step<T>(s: LockView<T>) -> LockView<T> {
    LockView { locked: false, ..s }
}

impl<T> Lock<T> {
    /// Creates an unlocked cell holding `t`.
    pub fn new(t: T) -> (l: Lock<T>)
        ensures
            l@ == (LockView { locked: false, value: t }),
    {
        Lock { locked: false, data: t }
    }

    /// Tests and sets the busy flag, returning whether the lock was acquired.
    /// Failure is not an error: the resource is simply unavailable this
    /// attempt.
    pub fn try_lock(&mut self) -> (acquired: bool)
        ensures
            (final(self)@, acquired) == try_lock_step(old(self)@),
    {
        if self.locked {
            false
        } else {
            self.locked = true;
            true
        }
    }

    /// Clears the busy flag, making the next acquisition attempt succeed.
    /// Plays the part of a guard's release on scope exit, which runs exactly
    /// once per successful acquisition.
    pub fn release(&mut self)
        requires
            old(self)@.locked,
        ensures
            final(self)@ == release_step(old(self)@),
    {
        self.locked = false;
    }

    /// Reads the guarded value. Callers must hold the lock.
    pub fn read(&self) -> (r: &T)
        requires
            self@.locked,
        ensures
            *r == self@.value,
    {
        &self.data
    }

    /// Replaces the guarded value, returning the previous one. Callers must
    /// hold the lock.
    pub fn replace(&mut self, t: T) -> (r: T)
        requires
            old(self)@.locked,
        ensures
            final(self)@ == (LockView { locked: true, value: t }),
            r == old(self)@.value,
    {
        let mut t = t;
        core::mem::swap(&mut self.data, &mut t);
        t
    }
}

/// Mutual exclusion: while the lock is held, a further acquisition attempt
/// fails and changes nothing, so two live acquisitions never coexist.
pub proof fn lemma_mutual_exclusion<T>(s: LockView<T>)
    requires
        s.locked,
    ensures
        !try_lock_step(s).1,
        try_lock_step(s).0 == s,
{
}

/// After a release, the next acquisition attempt succeeds and sees the value
/// the holder left behind.
pub proof fn lemma_release_then_acquire<T>(s: LockView<T>)
    ensures
        try_lock_step(release_step(s)).1,
        try_lock_step(release_step(s)).0.value == s.value,
{
}

} // verus!
