use vstd::prelude::*;
use vstd::rwlock::RwLock;
use std::sync::Arc;
use crate::gate::RescheduleGate;
use crate::slot::WorkerSlot;

verus! {

/// The ordered sequence of worker endpoints, replaced wholesale on resize and
/// never mutated in place.
#[verifier::reject_recursive_types(M)]
pub struct SharedSenders<M>(pub Vec<WorkerSlot<M>>);

impl<M> Default for SharedSenders<M> {
    fn default() -> (r: Self)
        ensures
            r.0@.len() == 0,
    {
        SharedSenders(Vec::new())
    }
}

impl<M> Clone for SharedSenders<M> {
    fn clone(&self) -> (r: Self)
        ensures
            r.0@ == self.0@,
    {
        SharedSenders(self.get())
    }
}

impl<M> SharedSenders<M> {
    /// A copy of the endpoints; each element is another endpoint of the same
    /// worker's channel.
    pub fn get(&self) -> (r: Vec<WorkerSlot<M>>)
        ensures
            r@ == self.0@,
    {
        let mut r: Vec<WorkerSlot<M>> = Vec::new();
        let n = self.0.len();
        let mut i: usize = 0;
        while i < n
            invariant
                i <= n,
                n == self.0@.len(),
                r@ =~= self.0@.subrange(0, i as int),
            decreases n - i,
        {
            r.push(self.0[i].clone());
            i = i + 1;
        }
        proof {
            assert(r@ =~= self.0@);
        }
        r
    }

    /// Replace the endpoints wholesale.
    pub fn set(&mut self, senders: Vec<WorkerSlot<M>>)
        ensures
            final(self).0 == senders,
    {
        self.0 = senders;
    }
}

/// One published state of the pool: the endpoints and the version they were
/// published at.
#[verifier::reject_recursive_types(M)]
struct PoolEpoch<M> {
    version: u64,
    senders: SharedSenders<M>,
}

/// Relies on std's Arc::clone: the clone is a handle to the same lock.
#[verifier::external_body]
fn pool_share<M>(
    inner: &Arc<RwLock<PoolEpoch<M>, spec_fn(PoolEpoch<M>) -> bool>>,
) -> (r: Arc<RwLock<PoolEpoch<M>, spec_fn(PoolEpoch<M>) -> bool>>)
    ensures
        r == *inner,
{
    Arc::clone(inner)
}

/// The controller-published pool.  Readers poll it with a version cursor and
/// observe each replacement in its entirety, never a torn mix.
#[verifier::reject_recursive_types(M)]
pub struct VersionedPool<M> {
    inner: Arc<RwLock<PoolEpoch<M>, spec_fn(PoolEpoch<M>) -> bool>>,
}

impl<M> VersionedPool<M> {
    /// The lock never constrains what it stores: any epoch may be published.
    #[verifier::type_invariant]
    spec fn unconstrained(self) -> bool {
        forall|e: PoolEpoch<M>| self.inner.inv(e)
    }
}

impl<M> Clone for VersionedPool<M> {
    fn clone(&self) -> (r: Self)
        ensures
            r == *self,
    {
        proof {
            use_type_invariant(self);
        }
        VersionedPool { inner: pool_share(&self.inner) }
    }
}

impl<M> VersionedPool<M> {
    /// Publish an initial pool at version zero.
    pub fn new(initial: SharedSenders<M>) -> (p: VersionedPool<M>) {
        let epoch = PoolEpoch { version: 0, senders: initial };
        let lock = RwLock::new(epoch, Ghost(|e: PoolEpoch<M>| true));
        let p = VersionedPool { inner: Arc::new(lock) };
        proof {
            assert(forall|e: PoolEpoch<M>| p.inner.inv(e));
        }
        p
    }

    /// Controller side: replace the pool wholesale and advance the version.
    pub fn publish(&self, senders: SharedSenders<M>) {
        proof {
            use_type_invariant(self);
        }
        let (epoch, write_handle) = self.inner.acquire_write();
        let version = if epoch.version == u64::MAX {
            epoch.version
        } else {
            epoch.version + 1
        };
        write_handle.release_write(PoolEpoch { version, senders });
    }

    /// The pool as currently published, with its version.
    pub fn snapshot(&self) -> (r: (u64, Vec<WorkerSlot<M>>)) {
        let read_handle = self.inner.acquire_read();
        let epoch = read_handle.borrow();
        let version = epoch.version;
        let senders = epoch.senders.get();
        read_handle.release_read();
        (version, senders)
    }

    /// Reader side: the latest pool, if anything was published past the
    /// caller's cursor; otherwise nothing, wait-free in the steady state.
    pub fn poll(&self, cursor: u64) -> (r: Option<(u64, Vec<WorkerSlot<M>>)>)
        ensures
            r matches Some(p) ==> p.0 != cursor,
    {
        let read_handle = self.inner.acquire_read();
        let epoch = read_handle.borrow();
        let r = if epoch.version != cursor {
            Some((epoch.version, epoch.senders.get()))
        } else {
            None
        };
        read_handle.release_read();
        r
    }
}

/// A consumer's view of the pool: a version cursor, a cached snapshot of the
/// endpoints, and a handle to the process-wide migration gate.  Refreshed at
/// a safepoint so worker indices stay valid for the whole of one operation.
#[verifier::reject_recursive_types(M)]
pub struct WriteSenders<M> {
    /// The publisher this view was taken from.
    pub pool: VersionedPool<M>,
    /// Version of the snapshot held in `cached_senders`.
    pub version_cursor: u64,
    /// The snapshot of the pool observed at `version_cursor`.
    pub cached_senders: Vec<WorkerSlot<M>>,
    /// Count of peers currently mid-migration, shared process-wide.
    pub io_reschedule_concurrent_count: RescheduleGate,
}

impl<M> Clone for WriteSenders<M> {
    fn clone(&self) -> (r: Self)
        ensures
            r.pool == self.pool,
            r.version_cursor == self.version_cursor,
            r.cached_senders@ == self.cached_senders@,
            r.io_reschedule_concurrent_count == self.io_reschedule_concurrent_count,
    {
        let mut cached: Vec<WorkerSlot<M>> = Vec::new();
        let n = self.cached_senders.len();
        let mut i: usize = 0;
        while i < n
            invariant
                i <= n,
                n == self.cached_senders@.len(),
                cached@ =~= self.cached_senders@.subrange(0, i as int),
            decreases n - i,
        {
            cached.push(self.cached_senders[i].clone());
            i = i + 1;
        }
        proof {
            assert(cached@ =~= self.cached_senders@);
        }
        WriteSenders {
            pool: self.pool.clone(),
            version_cursor: self.version_cursor,
            cached_senders: cached,
            io_reschedule_concurrent_count: self.io_reschedule_concurrent_count.clone(),
        }
    }
}

impl<M> WriteSenders<M> {
    /// A fresh view of `pool`: the cursor and snapshot are taken from the
    /// currently published epoch, and the migration counter starts a new
    /// shared cell at zero.  Clones of this view share that counter; an
    /// unrelated `new` does not.
    pub fn new(pool: VersionedPool<M>) -> (s: WriteSenders<M>)
        ensures
            s.pool == pool,
    {
        let (version_cursor, cached_senders) = pool.snapshot();
        WriteSenders {
            pool,
            version_cursor,
            cached_senders,
            io_reschedule_concurrent_count: RescheduleGate::new(),
        }
    }

    /// Whether the cached view holds no workers.
    pub fn is_empty(&self) -> (r: bool)
        ensures
            r == (self.cached_senders@.len() == 0),
    {
        self.cached_senders.len() == 0
    }

    /// Number of workers in the cached view.
    pub fn size(&self) -> (n: usize)
        ensures
            n == self.cached_senders@.len(),
    {
        self.cached_senders.len()
    }

    /// Adopt the latest published pool if the cursor is stale.  Called at a
    /// safepoint, never mid-operation.  The snapshot changes only together
    /// with the cursor, and then to a whole published pool, never a torn mix.
    pub fn refresh(&mut self)
        ensures
            final(self).pool == old(self).pool,
            final(self).io_reschedule_concurrent_count
                == old(self).io_reschedule_concurrent_count,
            final(self).version_cursor == old(self).version_cursor
                ==> final(self).cached_senders@ == old(self).cached_senders@,
    {
        match self.pool.poll(self.version_cursor) {
            Some((version, senders)) => {
                self.version_cursor = version;
                self.cached_senders = senders;
            },
            None => {},
        }
    }

    /// The endpoint of worker `id` in the cached view.
    pub fn index(&self, id: usize) -> (r: &WorkerSlot<M>)
        requires
            id < self.cached_senders@.len(),
        ensures
            *r == self.cached_senders@[id as int],
    {
        &self.cached_senders[id]
    }
}

} // verus!
