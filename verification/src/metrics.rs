use vstd::prelude::*;
use core::sync::atomic::{AtomicI64, AtomicU64, Ordering};
use std::sync::Arc;

verus! {

/// Relies on std's Arc::clone: the clone is a handle to the same counter.
#[verifier::external_body]
fn metric_share(counter: &Arc<AtomicU64>) -> (r: Arc<AtomicU64>)
    ensures
        r == *counter,
{
    Arc::clone(counter)
}

/// Relies on std's Arc::clone: the clone is a handle to the same gauge.
#[verifier::external_body]
fn gauge_share(gauge: &Arc<AtomicI64>) -> (r: Arc<AtomicI64>)
    ensures
        r == *gauge,
{
    Arc::clone(gauge)
}

/// Counters and gauges the router emits while it works.  Durations are
/// observed by the enclosing process; here only counts are kept.  Clones
/// share the same underlying cells, so every context cloned from one sink
/// reports into the same figures.
pub struct RaftMetrics {
    /// Count of sends that fell back to the blocking handoff.
    write_block_wait: Arc<AtomicU64>,
    /// Count of handoffs that found the worker's channel closed.
    send_disconnected: Arc<AtomicU64>,
    /// Published as `store_io_reschedule_pending_tasks_total`: messages
    /// currently parked in routers' buffers (+1 on append, -len on drain).
    reschedule_pending_tasks: Arc<AtomicI64>,
    /// Published as `store_io_reschedule_peer_total`: peers currently
    /// mid-migration (+1 on start, -1 on completion).
    reschedule_peer: Arc<AtomicI64>,
}

impl Clone for RaftMetrics {
    fn clone(&self) -> (r: Self)
        ensures
            r == *self,
    {
        RaftMetrics {
            write_block_wait: metric_share(&self.write_block_wait),
            send_disconnected: metric_share(&self.send_disconnected),
            reschedule_pending_tasks: gauge_share(&self.reschedule_pending_tasks),
            reschedule_peer: gauge_share(&self.reschedule_peer),
        }
    }
}

impl RaftMetrics {
    /// Fresh counters and gauges, all zero.
    pub fn new() -> (m: RaftMetrics) {
        RaftMetrics {
            write_block_wait: Arc::new(AtomicU64::new(0)),
            send_disconnected: Arc::new(AtomicU64::new(0)),
            reschedule_pending_tasks: Arc::new(AtomicI64::new(0)),
            reschedule_peer: Arc::new(AtomicI64::new(0)),
        }
    }

    /// One more send fell back to the blocking handoff.
    pub fn observe_write_block_wait(&self) {
        self.write_block_wait.fetch_add(1, Ordering::Relaxed);
    }

    /// How many sends have fallen back to the blocking handoff, at the
    /// moment of the read.
    pub fn write_block_wait_count(&self) -> (c: u64) {
        self.write_block_wait.load(Ordering::Relaxed)
    }

    /// One more handoff found the worker's channel closed.
    pub fn observe_send_disconnected(&self) {
        self.send_disconnected.fetch_add(1, Ordering::Relaxed);
    }

    /// How many handoffs found the worker's channel closed, at the moment
    /// of the read.
    pub fn send_disconnected_count(&self) -> (c: u64) {
        self.send_disconnected.load(Ordering::Relaxed)
    }

    /// One more message was parked in a router's buffer.
    pub fn inc_reschedule_pending_tasks(&self) {
        self.reschedule_pending_tasks.fetch_add(1, Ordering::Relaxed);
    }

    /// A drain released `n` parked messages at once.
    pub fn sub_reschedule_pending_tasks(&self, n: usize) {
        self.reschedule_pending_tasks.fetch_sub(#[verifier::truncate] (n as i64), Ordering::Relaxed);
    }

    /// Messages currently parked across the routers reporting here, at the
    /// moment of the read.
    pub fn reschedule_pending_tasks(&self) -> (c: i64) {
        self.reschedule_pending_tasks.load(Ordering::Relaxed)
    }

    /// A migration started.
    pub fn inc_reschedule_peer(&self) {
        self.reschedule_peer.fetch_add(1, Ordering::Relaxed);
    }

    /// A migration completed.
    pub fn dec_reschedule_peer(&self) {
        self.reschedule_peer.fetch_sub(1, Ordering::Relaxed);
    }

    /// Peers currently mid-migration among the routers reporting here, at
    /// the moment of the read.
    pub fn reschedule_peer(&self) -> (c: i64) {
        self.reschedule_peer.load(Ordering::Relaxed)
    }
}

} // verus!
