use vstd::prelude::*;
use core::sync::atomic::{AtomicUsize, Ordering};
use std::sync::Arc;

verus! {

/// One step of the counter's compare-and-update: admit a new migration only
/// while the count is below the cap.
pub fn gate_step(count: usize, max_count: usize) -> (r: Option<usize>)
    ensures
        r == (if count < max_count {
            Some((count + 1) as usize)
        } else {
            None::<usize>
        }),
{
    if count < max_count {
        Some(count + 1)
    } else {
        None
    }
}

/// Relies on std's AtomicUsize::fetch_update: applies [`gate_step`]
/// atomically and reports whether the update went through.  The counter is
/// shared between threads, so nothing can be promised of the value observed.
#[verifier::external_body]
fn counter_try_step(counter: &Arc<AtomicUsize>, max_count: usize) -> (r: bool) {
    counter
        .fetch_update(Ordering::SeqCst, Ordering::Relaxed, |c| gate_step(c, max_count))
        .is_ok()
}

/// Relies on std's Arc::clone: the clone is a handle to the same counter.
#[verifier::external_body]
fn counter_share(counter: &Arc<AtomicUsize>) -> (r: Arc<AtomicUsize>)
    ensures
        r == *counter,
{
    Arc::clone(counter)
}

/// The process-wide atomic counter of peers currently mid-migration.
///
/// A migration increments it exactly once when it starts (and only below the
/// configured cap) and decrements it exactly once when it completes, so its
/// value is the number of peers in the `Migrating` state; see the protocol
/// lemmas for the invariant.
pub struct RescheduleGate {
    counter: Arc<AtomicUsize>,
}

impl Clone for RescheduleGate {
    fn clone(&self) -> (r: Self)
        ensures
            r == *self,
    {
        RescheduleGate { counter: counter_share(&self.counter) }
    }
}

impl RescheduleGate {
    /// A fresh gate with no migrations in flight.
    pub fn new() -> (g: RescheduleGate) {
        RescheduleGate { counter: Arc::new(AtomicUsize::new(0)) }
    }

    /// Try to start a migration: atomically increment the counter if it is
    /// below `max_count`.  Returns whether the slot was taken.  Other threads
    /// share the counter, so no outcome is promised.
    pub fn try_start(&self, max_count: usize) -> (granted: bool) {
        counter_try_step(&self.counter, max_count)
    }

    /// A migration completed: release its slot unconditionally.
    pub fn end(&self) {
        self.counter.fetch_sub(1, Ordering::SeqCst);
    }

    /// The count of migrations in flight at the moment of the read.
    pub fn load(&self) -> (c: usize) {
        self.counter.load(Ordering::SeqCst)
    }

    /// Overwrite the count.  Meant for harnesses that drive the counter into a
    /// chosen state; the router itself never calls it.
    pub fn set(&self, count: usize) {
        self.counter.store(count, Ordering::SeqCst);
    }
}

} // verus!
