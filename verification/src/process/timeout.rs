//! The supervisors that want to be woken on a cadence.
//!
//! A supervisor that waits for its child sees nothing while the child is
//! busy. So that limits are still checked, a ticker interrupts every
//! registered supervisor thread once a tick. A supervisor registers only
//! where one of its probes needs it, and leaves the registry when its run
//! is over.

use linear_map::set::LinearSet;
use vstd::prelude::*;

verus! {

/// The length of one tick, in milliseconds.
pub const TIMEOUT_TICK_MILLIS: u64 = 1;

/// `linear_map::set::LinearSet`: a set that keeps its items in a vector and
/// finds them by comparing one after the other.
#[verifier::external_type_specification]
#[verifier::external_body]
#[verifier::reject_recursive_types(T)]
pub struct ExLinearSet<T>(LinearSet<T>);

/// The thread ids that a `LinearSet` holds.
pub uninterp spec fn linear_set_items(set: LinearSet<i32>) -> Set<i32>;

/// `LinearSet::new` makes a set that holds nothing.
#[verifier::external_body]
fn linear_set_new() -> (set: LinearSet<i32>)
    ensures
        linear_set_items(set) == Set::<i32>::empty(),
{
    LinearSet::new()
}

/// `LinearSet::insert` adds the value to the set, and returns whether the
/// set did not hold it before.
#[verifier::external_body]
fn linear_set_insert(set: &mut LinearSet<i32>, value: i32) -> (added: bool)
    ensures
        linear_set_items(*final(set)) == linear_set_items(*old(set)).insert(value),
        added == !linear_set_items(*old(set)).contains(value),
{
    set.insert(value)
}

/// `LinearSet::remove` takes the value out of the set, and returns whether
/// the set held it.
#[verifier::external_body]
fn linear_set_remove(set: &mut LinearSet<i32>, value: i32) -> (removed: bool)
    ensures
        linear_set_items(*final(set)) == linear_set_items(*old(set)).remove(value),
        removed == linear_set_items(*old(set)).contains(value),
{
    set.remove(&value)
}

/// `LinearSet::iter` visits every item of the set once, in an order that is
/// not fixed.
#[verifier::external_body]
fn linear_set_to_vec(set: &LinearSet<i32>) -> (items: Vec<i32>)
    ensures
        items@.to_set() == linear_set_items(*set),
        items@.no_duplicates(),
{
    set.iter().map(|item| *item).collect()
}

/// The threads that the ticker interrupts. Its view is the set of their
/// ids.
pub struct TimeoutRegistry {
    threads: LinearSet<i32>,
}

impl View for TimeoutRegistry {
    type V = Set<i32>;

    closed spec fn view(&self) -> Set<i32> {
        linear_set_items(self.threads)
    }
}

impl TimeoutRegistry {
    /// A registry without threads.
    pub fn new() -> (registry: TimeoutRegistry)
        ensures
            registry@ == Set::<i32>::empty(),
    {
        TimeoutRegistry { threads: linear_set_new() }
    }

    /// Registers the thread `tid`. A thread that is registered already
    /// stays registered once.
    pub fn add_timeout_thread(&mut self, tid: i32)
        ensures
            final(self)@ == old(self)@.insert(tid),
    {
        let _ = linear_set_insert(&mut self.threads, tid);
    }

    /// Whether the thread `tid` is registered.
    pub fn is_registered(&self, tid: i32) -> (registered: bool)
        ensures
            registered == self@.contains(tid),
    {
        let threads = linear_set_to_vec(&self.threads);
        let mut i: usize = 0;
        while i < threads.len()
            invariant
                i <= threads@.len(),
                threads@.to_set() == self@,
                forall|j: int| 0 <= j < i ==> threads@[j] != tid,
            decreases threads@.len() - i,
        {
            if threads[i] == tid {
                assert(threads@.to_set().contains(threads@[i as int]));
                return true;
            }
            i += 1;
        }
        assert(!threads@.to_set().contains(tid));
        false
    }

    /// Takes the thread `tid` out of the registry. Only a registered thread
    /// leaves.
    pub fn remove_timeout_thread(&mut self, tid: i32)
        requires
            old(self)@.contains(tid),
        ensures
            final(self)@ == old(self)@.remove(tid),
    {
        let _ = linear_set_remove(&mut self.threads, tid);
    }

    /// The threads to interrupt at a tick: every registered thread, once.
    pub fn threads_to_signal(&self) -> (threads: Vec<i32>)
        ensures
            threads@.to_set() == self@,
            threads@.no_duplicates(),
    {
        linear_set_to_vec(&self.threads)
    }
}

/// A supervisor that registers for its run and leaves afterwards leaves the
/// registry as it found it, where it was not registered before; and while
/// it is registered, the ticker interrupts it.
pub proof fn lemma_register_then_leave(threads: Set<i32>, tid: i32)
    requires
        !threads.contains(tid),
    ensures
        threads.insert(tid).contains(tid),
        threads.insert(tid).remove(tid) == threads,
{
    assert(threads.insert(tid).remove(tid) =~= threads);
}

} // verus!
