use vstd::prelude::*;

verus! {

/// Configuration snapshot the router consults on every operation.
///
/// Durations are wall-clock milliseconds.
#[derive(Clone, Copy, Debug)]
pub struct Config {
    /// Advisory worker-pool size; the effective size of one operation is the
    /// minimum of this and the consumer's cached view of the pool.
    pub store_io_pool_size: usize,
    /// Capacity bound the workers use when they create their channels.
    pub store_io_notify_capacity: usize,
    /// Cap on the number of peers that may be mid-migration at once;
    /// zero disables migration entirely.
    pub io_reschedule_concurrent_max_count: usize,
    /// Minimum cool-down between migration considerations of one peer,
    /// in milliseconds.
    pub io_reschedule_hotpot_duration: u64,
}

impl Config {
    pub fn new() -> (c: Config)
        ensures
            c.store_io_pool_size == 2,
            c.store_io_notify_capacity == 4096,
            c.io_reschedule_concurrent_max_count == 0,
            c.io_reschedule_hotpot_duration == 3_600_000,
    {
        Config {
            store_io_pool_size: 2,
            store_io_notify_capacity: 4096,
            io_reschedule_concurrent_max_count: 0,
            io_reschedule_hotpot_duration: 3_600_000,
        }
    }
}

} // verus!
