//! A spin lock that can also be tried without waiting.
//!
//! Trying the lock never waits, so it is safe in a signal handler, as long
//! as what runs under the lock is safe there too.

use std::sync::atomic::AtomicBool;
use std::sync::atomic::Ordering;

use vstd::prelude::*;

verus! {

/// A lock that is taken by spinning, or tried without waiting.
pub struct SignalSafeSpinlock {
    state: AtomicBool,
}

/// Holds the lock. The lock is released when the guard goes away, also where
/// what ran under the lock did not return.
pub struct SpinLockGuard<'a> {
    lock: &'a AtomicBool,
}

impl<'a> Drop for SpinLockGuard<'a> {
    fn drop(&mut self)
        opens_invariants none
        no_unwind
    {
        release(self.lock);
    }
}

/// Releases the lock, with `AtomicBool::store` and release ordering.
///
/// The store panics for the acquiring orderings only, so this one returns.
#[verifier::external_body]
fn release(state: &AtomicBool)
    opens_invariants none
    no_unwind
{
    state.store(false, Ordering::Release);
}

/// Waits until the lock is free and takes it, with
/// `AtomicBool::compare_exchange` and `std::hint::spin_loop`.
///
/// The wait ends when whoever holds the lock releases it, so it has no
/// bound and nothing is promised of it.
#[verifier::external_body]
fn spin_until_taken(state: &AtomicBool) {
    while state.compare_exchange(false, true, Ordering::Acquire, Ordering::Relaxed).is_err() {
        std::hint::spin_loop();
    }
}

/// What follows an attempt to take the lock. Where the lock was taken,
/// runs `f` under it, releases it and hands the result of `f` on; where it
/// was not taken, `f` does not run and there is no result.
fn run_if_taken<F, R>(state: &AtomicBool, taken: bool, f: F) -> (answer: Option<R>) where
    F: FnOnce() -> R,

    requires
        f.requires(()),
    ensures
        taken ==> answer is Some && f.ensures((), answer->Some_0),
        !taken ==> answer is None,
{
    if taken {
        let _guard = SpinLockGuard { lock: state };
        Some(f())
    } else {
        None
    }
}

impl SignalSafeSpinlock {
    /// A lock that nobody holds.
    pub fn new() -> SignalSafeSpinlock {
        SignalSafeSpinlock { state: AtomicBool::new(false) }
    }

    /// Runs `f` under the lock and hands its result on. Where somebody else
    /// holds the lock, waits until it is free.
    pub fn with_lock<F, R>(&self, f: F) -> (result: R) where F: FnOnce() -> R
        requires
            f.requires(()),
        ensures
            f.ensures((), result),
    {
        spin_until_taken(&self.state);
        let _guard = SpinLockGuard { lock: &self.state };
        f()
    }

    /// Runs `f` under the lock and hands its result on, unless somebody else
    /// holds the lock: then `f` does not run and there is no result. This
    /// never waits.
    ///
    /// Whether the lock is free is for the moment of the attempt to say, so
    /// the contract speaks of every answer: a result that is there is a
    /// result of `f`.
    pub fn try_with_lock<F, R>(&self, f: F) -> (result: Option<R>) where F: FnOnce() -> R
        requires
            f.requires(()),
        ensures
            result matches Some(value) ==> f.ensures((), value),
    {
        let taken = self.state.compare_exchange(
            false,
            true,
            Ordering::Acquire,
            Ordering::Relaxed,
        ).is_ok();
        run_if_taken(&self.state, taken, f)
    }
}

} // verus!
