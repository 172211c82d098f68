use vstd::prelude::*;
use crate::config::Config;
use crate::metrics::RaftMetrics;
use crate::pool::WriteSenders;
use crate::slot::{next_token, SlotSendError};

verus! {

/// How long a peer backs off after a refused migration attempt, in
/// milliseconds.
pub const RETRY_SCHEDULE_MS: u64 = 10;

/// `a + b`, stopped at the top of the range.
pub open spec fn sat_add(a: u64, b: u64) -> u64 {
    if a + b > u64::MAX {
        u64::MAX
    } else {
        (a + b) as u64
    }
}

/// Executable twin of [`sat_add`].
fn sat_add_exec(a: u64, b: u64) -> (r: u64)
    ensures
        r == sat_add(a, b),
{
    if a <= u64::MAX - b {
        a + b
    } else {
        u64::MAX
    }
}

/// The pool size one operation works with: the cached view may lag a
/// reloaded configuration, so the smaller of the two bounds every index.
pub open spec fn spec_effective_size<M>(senders: WriteSenders<M>, config: Config) -> int {
    if senders.cached_senders@.len() < config.store_io_pool_size {
        senders.cached_senders@.len() as int
    } else {
        config.store_io_pool_size as int
    }
}

/// The worker that receives a handoff when the router's selection is `id`
/// and the cached pool is `senders`: the selection, re-clamped to the pool.
pub open spec fn spec_target<M>(id: usize, senders: WriteSenders<M>) -> usize
    recommends
        0 < senders.cached_senders@.len(),
{
    (id as int % senders.cached_senders@.len() as int) as usize
}

/// Relies on rand::random: a draw from the thread-local generator; nothing
/// is promised of the value.
pub assume_specification<T>[ rand::random::<T> ]() -> (r: T)
    where
        rand::distributions::Standard: rand::distributions::Distribution<T>,
;

/// A uniformly random worker id below `bound`.  Relies on rand::random for
/// the draw; nothing is promised of which id comes out.
fn draw_writer_id(bound: usize) -> (r: usize)
    requires
        0 < bound,
    ensures
        r < bound,
{
    let x = rand::random::<usize>();
    x % bound
}

/// Relies on std's SystemTime::now: a coarse wall-clock reading, as whole
/// milliseconds.  The clock is outside the program, so nothing is promised
/// of the value.
#[verifier::external_body]
fn now_coarse_ms() -> u64 {
    match std::time::SystemTime::now().duration_since(std::time::UNIX_EPOCH) {
        Ok(d) => d.as_millis() as u64,
        Err(_) => 0,
    }
}

/// What the router should do with one message, once the nondeterministic
/// inputs (clock, draw) are fixed.
#[derive(Clone, Copy, Debug)]
pub enum RouteDecision {
    /// Forward to the currently selected worker.
    Deliver,
    /// A migration is in flight: park the message in the buffer.
    Buffer,
    /// A distinct candidate is chosen and the cool-down has passed: ask the
    /// gate whether a migration may start.
    TryGate,
}

/// The capability a router consumes on each operation: a consumer's view of
/// the sender pool, a configuration snapshot and a metrics sink.
pub trait WriteRouterContext<M> {
    /// The view of the pool this context hands out.
    spec fn spec_senders(&self) -> WriteSenders<M>;

    /// The configuration snapshot this context hands out.
    spec fn spec_config(&self) -> Config;

    fn write_senders(&self) -> (r: &WriteSenders<M>)
        ensures
            *r == self.spec_senders(),
    ;

    fn config(&self) -> (r: &Config)
        ensures
            *r == self.spec_config(),
    ;

    /// The metrics sink this context hands out.
    spec fn spec_metrics(&self) -> RaftMetrics;

    fn raft_metrics(&self) -> (r: &RaftMetrics)
        ensures
            *r == self.spec_metrics(),
    ;
}

/// A plain context: a pool view and a configuration, owned together.
#[verifier::reject_recursive_types(M)]
pub struct RouterContext<M> {
    pub senders: WriteSenders<M>,
    pub config: Config,
    pub raft_metrics: RaftMetrics,
}

impl<M> WriteRouterContext<M> for RouterContext<M> {
    open spec fn spec_senders(&self) -> WriteSenders<M> {
        self.senders
    }

    open spec fn spec_config(&self) -> Config {
        self.config
    }

    fn write_senders(&self) -> (r: &WriteSenders<M>) {
        &self.senders
    }

    fn config(&self) -> (r: &Config) {
        &self.config
    }

    open spec fn spec_metrics(&self) -> RaftMetrics {
        self.raft_metrics
    }

    fn raft_metrics(&self) -> (r: &RaftMetrics) {
        &self.raft_metrics
    }
}

/// A router for one peer: decides which worker each write message goes to,
/// and buffers messages while the peer migrates to a new worker.
#[verifier::reject_recursive_types(M)]
pub struct WriteRouter<M> {
    /// Human-readable peer identifier, for diagnostics.
    pub tag: String,
    /// Currently selected worker id.
    pub writer_id: usize,
    /// Earliest wall time (ms) at which this peer may consider migrating.
    pub next_retry_time: u64,
    /// Target worker of the migration in flight, if any.
    pub next_writer_id: Option<usize>,
    /// Sequence number whose persistence completes the migration in flight;
    /// `Some` exactly while a migration is in flight.
    pub last_unpersisted: Option<u64>,
    /// Messages parked during the migration, in production order.
    pub pending_write_msgs: Vec<M>,
    /// Priority token of the last message handed to a worker, the lower
    /// bound for the next handoff.
    pub last_msg_priority: Option<u64>,
    /// Every message this router accepted, in production order.
    pub accepted: Ghost<Seq<M>>,
    /// Every message this router handed on to a worker, in handoff order,
    /// paired with the worker that received it.
    pub routed: Ghost<Seq<(usize, M)>>,
}

impl<M> WriteRouter<M> {
    /// A migration is in flight: messages are being buffered until the peer
    /// reports the threshold sequence number durable.
    pub open spec fn migrating(self) -> bool {
        self.last_unpersisted is Some
    }

    /// The handed-on messages alone, in handoff order.
    pub open spec fn routed_msgs(self) -> Seq<M> {
        self.routed@.map_values(|p: (usize, M)| p.1)
    }

    /// Per-peer order: what went to the workers, followed by what is parked,
    /// is exactly what the peer produced, in order.
    pub open spec fn order_preserved(self) -> bool {
        self.routed_msgs() + self.pending_write_msgs@ == self.accepted@
    }

    /// Well-formedness: order is preserved; a migration in flight has a
    /// target distinct from the current worker; the buffer is empty outside
    /// a migration.
    pub open spec fn wf(self) -> bool {
        &&& self.order_preserved()
        &&& (self.migrating() ==> self.next_writer_id is Some)
        &&& (self.next_writer_id matches Some(w) ==> w != self.writer_id)
        &&& (!self.migrating() ==> self.pending_write_msgs@.len() == 0)
    }

    /// A fresh router: worker zero, no migration, empty buffer; the first
    /// message with no outstanding write picks the first real worker.
    pub fn new(tag: String) -> (r: WriteRouter<M>)
        ensures
            r.wf(),
            r.tag == tag,
            r.writer_id == 0,
            r.next_writer_id is None,
            r.last_unpersisted is None,
            r.pending_write_msgs@.len() == 0,
            r.last_msg_priority is None,
            r.accepted@ == Seq::<M>::empty(),
            r.routed@ == Seq::<(usize, M)>::empty(),
    {
        WriteRouter {
            tag,
            writer_id: 0,
            next_retry_time: now_coarse_ms(),
            next_writer_id: None,
            last_unpersisted: None,
            pending_write_msgs: Vec::new(),
            last_msg_priority: None,
            accepted: Ghost(Seq::empty()),
            routed: Ghost(Seq::empty()),
        }
    }

    /// The deterministic part of the routing decision, with the clock
    /// reading and the random draw fixed as arguments.
    pub fn consider(
        &mut self,
        last_unpersisted: Option<u64>,
        effective_size: usize,
        max_count: usize,
        hotpot_ms: u64,
        now_ms: u64,
        drawn_id: usize,
    ) -> (d: RouteDecision)
        requires
            old(self).wf(),
            0 < effective_size,
            drawn_id < effective_size,
        ensures
            final(self).wf(),
            final(self).tag == old(self).tag,
            final(self).pending_write_msgs == old(self).pending_write_msgs,
            final(self).accepted == old(self).accepted,
            final(self).routed == old(self).routed,
            final(self).last_msg_priority == old(self).last_msg_priority,
            final(self).last_unpersisted == old(self).last_unpersisted,
            last_unpersisted is Some ==> final(self).writer_id == old(self).writer_id,
            (d == RouteDecision::Buffer) <==> old(self).migrating(),
            old(self).migrating() ==> *final(self) == *old(self),
            !old(self).migrating() && last_unpersisted is None ==> {
                &&& d == RouteDecision::Deliver
                &&& final(self).writer_id == drawn_id
                &&& final(self).next_writer_id is None
                &&& final(self).next_retry_time == sat_add(now_ms, hotpot_ms)
            },
            !old(self).migrating() && last_unpersisted is Some && max_count == 0
                ==> d == RouteDecision::Deliver && *final(self) == *old(self),
            !old(self).migrating() && last_unpersisted is Some && max_count > 0
                && now_ms <= old(self).next_retry_time
                ==> d == RouteDecision::Deliver && *final(self) == *old(self),
            !old(self).migrating() && last_unpersisted is Some && max_count > 0
                && now_ms > old(self).next_retry_time && old(self).next_writer_id is None
                && drawn_id == old(self).writer_id
                ==> d == RouteDecision::Deliver && *final(self) == (WriteRouter {
                    next_retry_time: sat_add(now_ms, hotpot_ms),
                    ..*old(self)
                }),
            !old(self).migrating() && last_unpersisted is Some && max_count > 0
                && now_ms > old(self).next_retry_time && old(self).next_writer_id is None
                && drawn_id != old(self).writer_id
                ==> d == RouteDecision::TryGate && *final(self) == (WriteRouter {
                    next_writer_id: Some(drawn_id),
                    ..*old(self)
                }),
            !old(self).migrating() && last_unpersisted is Some && max_count > 0
                && now_ms > old(self).next_retry_time && old(self).next_writer_id is Some
                ==> d == RouteDecision::TryGate && *final(self) == *old(self),
            d == RouteDecision::TryGate ==> {
                &&& last_unpersisted is Some
                &&& !final(self).migrating()
                &&& final(self).next_writer_id is Some
                &&& max_count > 0
                &&& now_ms > old(self).next_retry_time
                &&& final(self).next_retry_time == old(self).next_retry_time
            },
            final(self).next_retry_time == old(self).next_retry_time
                || final(self).next_retry_time == sat_add(now_ms, hotpot_ms),
    {
        // A migration in flight: every later message waits for the drain.
        if self.last_unpersisted.is_some() {
            return RouteDecision::Buffer;
        }
        if last_unpersisted.is_none() {
            // No outstanding write: the peer is causally free, pick anew.
            self.writer_id = drawn_id;
            self.next_retry_time = sat_add_exec(now_ms, hotpot_ms);
            self.next_writer_id = None;
            return RouteDecision::Deliver;
        }
        if max_count == 0 {
            // Migration disabled.
            return RouteDecision::Deliver;
        }
        if now_ms <= self.next_retry_time {
            // Still cooling down.
            return RouteDecision::Deliver;
        }
        if self.next_writer_id.is_none() {
            if drawn_id == self.writer_id {
                // Self-select: prefer staying put, restart the cool-down.
                self.next_retry_time = sat_add_exec(now_ms, hotpot_ms);
                return RouteDecision::Deliver;
            }
            self.next_writer_id = Some(drawn_id);
        }
        RouteDecision::TryGate
    }

    /// Fold the counter's answer into the state: a granted slot starts the
    /// migration (the message will be the first parked one); a refusal backs
    /// off briefly and keeps the candidate for the next attempt.
    pub fn resolve_gate(
        &mut self,
        last_unpersisted: Option<u64>,
        now_ms: u64,
        granted: bool,
    ) -> (deliver: bool)
        requires
            old(self).wf(),
            !old(self).migrating(),
            old(self).next_writer_id is Some,
            last_unpersisted is Some,
        ensures
            final(self).wf(),
            final(self).tag == old(self).tag,
            final(self).pending_write_msgs == old(self).pending_write_msgs,
            final(self).accepted == old(self).accepted,
            final(self).routed == old(self).routed,
            final(self).last_msg_priority == old(self).last_msg_priority,
            final(self).writer_id == old(self).writer_id,
            final(self).next_writer_id == old(self).next_writer_id,
            granted ==> !deliver && final(self).last_unpersisted == last_unpersisted
                && final(self).next_retry_time == old(self).next_retry_time,
            !granted ==> deliver && final(self).last_unpersisted is None
                && final(self).next_retry_time == sat_add(now_ms, RETRY_SCHEDULE_MS),
            final(self).next_retry_time == old(self).next_retry_time
                || final(self).next_retry_time == sat_add(now_ms, RETRY_SCHEDULE_MS),
    {
        if granted {
            self.last_unpersisted = last_unpersisted;
            false
        } else {
            self.next_retry_time = sat_add_exec(now_ms, RETRY_SCHEDULE_MS);
            true
        }
    }

    /// Adopt the migration target as the current worker and restart the
    /// cool-down; the caller drains the buffer next.
    pub fn finish_migration(&mut self, now_ms: u64, hotpot_ms: u64)
        requires
            old(self).wf(),
            old(self).migrating(),
        ensures
            final(self).tag == old(self).tag,
            final(self).pending_write_msgs == old(self).pending_write_msgs,
            final(self).accepted == old(self).accepted,
            final(self).routed == old(self).routed,
            final(self).last_msg_priority == old(self).last_msg_priority,
            final(self).writer_id == old(self).next_writer_id->Some_0,
            final(self).next_writer_id is None,
            final(self).last_unpersisted is None,
            final(self).next_retry_time == sat_add(now_ms, hotpot_ms),
            final(self).order_preserved(),
    {
        let w = self.next_writer_id.unwrap();
        self.writer_id = w;
        self.next_writer_id = None;
        self.last_unpersisted = None;
        self.next_retry_time = sat_add_exec(now_ms, hotpot_ms);
    }

    /// Whether a message may go straight to a worker (`true`) or must wait
    /// in the buffer (`false`).  Reads the clock, draws a candidate and, when
    /// a migration could start, consults the shared counter.
    fn should_send<C: WriteRouterContext<M>>(
        &mut self,
        ctx: &C,
        last_unpersisted: Option<u64>,
    ) -> (deliver: bool)
        requires
            old(self).wf(),
            0 < spec_effective_size(ctx.spec_senders(), ctx.spec_config()),
        ensures
            final(self).wf(),
            final(self).tag == old(self).tag,
            final(self).pending_write_msgs == old(self).pending_write_msgs,
            final(self).accepted == old(self).accepted,
            final(self).routed == old(self).routed,
            final(self).last_msg_priority == old(self).last_msg_priority,
            last_unpersisted is Some ==> final(self).writer_id == old(self).writer_id,
            old(self).migrating() ==> !deliver && *final(self) == *old(self),
            deliver ==> !final(self).migrating(),
            !deliver && !old(self).migrating() ==> last_unpersisted is Some
                && final(self).last_unpersisted == last_unpersisted
                && final(self).next_writer_id is Some,
            !old(self).migrating() && last_unpersisted is None ==> deliver
                && final(self).next_writer_id is None
                && final(self).writer_id
                    < spec_effective_size(ctx.spec_senders(), ctx.spec_config()),
            !old(self).migrating() && last_unpersisted is Some
                && ctx.spec_config().io_reschedule_concurrent_max_count == 0
                ==> deliver && *final(self) == *old(self),
            last_unpersisted is Some && old(self).next_writer_id is Some
                ==> final(self).next_writer_id == old(self).next_writer_id,
    {
        if self.last_unpersisted.is_some() {
            return false;
        }
        let senders = ctx.write_senders();
        let cfg = ctx.config();
        let pool_n = senders.size();
        let advisory = cfg.store_io_pool_size;
        let effective = if pool_n < advisory {
            pool_n
        } else {
            advisory
        };
        let now_ms = now_coarse_ms();
        let drawn_id = draw_writer_id(effective);
        match self.consider(
            last_unpersisted,
            effective,
            cfg.io_reschedule_concurrent_max_count,
            cfg.io_reschedule_hotpot_duration,
            now_ms,
            drawn_id,
        ) {
            RouteDecision::Deliver => true,
            RouteDecision::Buffer => false,
            RouteDecision::TryGate => {
                let granted = senders
                    .io_reschedule_concurrent_count
                    .try_start(cfg.io_reschedule_concurrent_max_count);
                if granted {
                    ctx.raft_metrics().inc_reschedule_peer();
                }
                self.resolve_gate(last_unpersisted, now_ms, granted)
            },
        }
    }

    /// Hand one message to the selected worker: account it in the routed
    /// ledger, try the non-blocking handoff, fall back to the blocking one
    /// under backpressure.  A closed channel means the workers are already
    /// gone in shutdown; the message is dropped with them.
    fn send<C: WriteRouterContext<M>>(&mut self, ctx: &C, msg: M)
        requires
            0 < ctx.spec_senders().cached_senders@.len(),
        ensures
            final(self).tag == old(self).tag,
            final(self).writer_id == old(self).writer_id,
            final(self).next_writer_id == old(self).next_writer_id,
            final(self).last_unpersisted == old(self).last_unpersisted,
            final(self).next_retry_time == old(self).next_retry_time,
            final(self).pending_write_msgs == old(self).pending_write_msgs,
            final(self).accepted == old(self).accepted,
            final(self).routed@ == old(self).routed@.push(
                (spec_target(old(self).writer_id, ctx.spec_senders()), msg),
            ),
            final(self).routed_msgs() == old(self).routed_msgs().push(msg),
            final(self).last_msg_priority == old(self).last_msg_priority
                || final(self).last_msg_priority
                    == Some(next_token(old(self).last_msg_priority)),
    {
        let senders = ctx.write_senders();
        let n = senders.size();
        // Re-clamp: the cached pool may have shrunk since this id was drawn.
        let id = self.writer_id % n;
        let slot = senders.index(id);
        proof {
            self.routed@ = self.routed@.push((id, msg));
            assert(self.routed@.map_values(|p: (usize, M)| p.1)
                =~= old(self).routed@.map_values(|p: (usize, M)| p.1).push(msg));
        }
        match slot.try_send(msg, self.last_msg_priority) {
            Ok(token) => {
                self.last_msg_priority = Some(token);
            },
            Err(SlotSendError::Full(m)) => {
                // Backpressure: block until the worker takes it, and count
                // the wait.
                match slot.send(m, self.last_msg_priority) {
                    Ok(_) => {},
                    Err(_) => {
                        ctx.raft_metrics().observe_send_disconnected();
                    },
                }
                ctx.raft_metrics().observe_write_block_wait();
            },
            Err(SlotSendError::Disconnected) => {
                ctx.raft_metrics().observe_send_disconnected();
            },
        }
    }

    /// Send a write message to a worker, or park it in the buffer while a
    /// migration is in flight.  `last_unpersisted` is `None` exactly when the
    /// peer has no outstanding write.
    pub fn send_write_msg<C: WriteRouterContext<M>>(
        &mut self,
        ctx: &mut C,
        last_unpersisted: Option<u64>,
        msg: M,
    )
        requires
            old(self).wf(),
            0 < spec_effective_size(old(ctx).spec_senders(), old(ctx).spec_config()),
        ensures
            *final(ctx) == *old(ctx),
            final(self).wf(),
            final(self).tag == old(self).tag,
            final(self).accepted@ == old(self).accepted@.push(msg),
            old(self).migrating() ==> final(self).routed == old(self).routed
                && final(self).pending_write_msgs@
                    == old(self).pending_write_msgs@.push(msg)
                && final(self).writer_id == old(self).writer_id
                && final(self).next_writer_id == old(self).next_writer_id
                && final(self).last_unpersisted == old(self).last_unpersisted
                && final(self).next_retry_time == old(self).next_retry_time,
            last_unpersisted is Some ==> final(self).writer_id == old(self).writer_id,
            last_unpersisted is Some && old(self).next_writer_id is Some
                ==> final(self).next_writer_id == old(self).next_writer_id,
            old(self).migrating() && last_unpersisted is Some
                ==> final(self).last_msg_priority == old(self).last_msg_priority,
            last_unpersisted is None && final(self).migrating()
                ==> final(self).last_msg_priority is None,
            !old(self).migrating() && last_unpersisted is None ==> !final(self).migrating()
                && final(self).routed@ == old(self).routed@.push(
                    (spec_target(final(self).writer_id, old(ctx).spec_senders()), msg),
                )
                && final(self).next_writer_id is None
                && final(self).writer_id
                    < spec_effective_size(old(ctx).spec_senders(), old(ctx).spec_config())
                && (final(self).last_msg_priority is None
                    || final(self).last_msg_priority == Some(0u64)),
            !old(self).migrating() && last_unpersisted is Some
                && old(ctx).spec_config().io_reschedule_concurrent_max_count == 0
                ==> !final(self).migrating()
                && final(self).routed@ == old(self).routed@.push(
                    (spec_target(old(self).writer_id, old(ctx).spec_senders()), msg),
                )
                && final(self).writer_id == old(self).writer_id
                && final(self).next_writer_id == old(self).next_writer_id
                && final(self).next_retry_time == old(self).next_retry_time,
            !final(self).migrating() ==> final(self).routed@ == old(self).routed@.push(
                    (spec_target(final(self).writer_id, old(ctx).spec_senders()), msg),
                )
                && final(self).pending_write_msgs@ == old(self).pending_write_msgs@,
            final(self).migrating() && !old(self).migrating()
                ==> final(self).last_unpersisted == last_unpersisted
                && final(self).pending_write_msgs@
                    == old(self).pending_write_msgs@.push(msg)
                && final(self).routed == old(self).routed
                && final(self).next_writer_id is Some,
    {
        if last_unpersisted.is_none() {
            // No outstanding write: a new causal chain needs no priority bound.
            self.last_msg_priority = None;
        }
        let deliver = self.should_send(&*ctx, last_unpersisted);
        self.accepted = Ghost(self.accepted@.push(msg));
        if deliver {
            self.send(&*ctx, msg);
        } else {
            ctx.raft_metrics().inc_reschedule_pending_tasks();
            self.pending_write_msgs.push(msg);
        }
    }

    /// The peer reports `persisted_number` durable.  If a migration is in
    /// flight and its threshold is reached, release the counter, adopt the new
    /// worker and drain the buffer to it in order; otherwise do nothing.
    pub fn check_new_persisted<C: WriteRouterContext<M>>(
        &mut self,
        ctx: &mut C,
        persisted_number: u64,
    )
        requires
            old(self).wf(),
            old(self).migrating() && persisted_number >= old(self).last_unpersisted->Some_0
                ==> 0 < spec_effective_size(old(ctx).spec_senders(), old(ctx).spec_config()),
        ensures
            *final(ctx) == *old(ctx),
            final(self).wf(),
            final(self).tag == old(self).tag,
            final(self).accepted == old(self).accepted,
            old(self).last_msg_priority is Some ==> final(self).last_msg_priority is Some
                && old(self).last_msg_priority->Some_0
                    <= final(self).last_msg_priority->Some_0,
            !old(self).migrating() ==> *final(self) == *old(self),
            old(self).migrating() && persisted_number < old(self).last_unpersisted->Some_0
                ==> *final(self) == *old(self),
            old(self).migrating() && persisted_number >= old(self).last_unpersisted->Some_0
                ==> final(self).writer_id == old(self).next_writer_id->Some_0
                && final(self).next_writer_id is None
                && !final(self).migrating()
                && final(self).pending_write_msgs@.len() == 0
                && final(self).routed@ == old(self).routed@
                    + old(self).pending_write_msgs@.map_values(
                    |m: M| (spec_target(old(self).next_writer_id->Some_0,
                            old(ctx).spec_senders()), m),
                ),
    {
        let proceed = match self.last_unpersisted {
            None => false,
            Some(lu) => persisted_number >= lu,
        };
        if !proceed {
            return;
        }
        // The threshold is durable: messages routed to the previous worker
        // can no longer be reordered behind the buffered ones.  The peer is
        // destroyed only after all its writes persist, so a destroyed peer
        // never leaves the counter incremented.
        ctx.write_senders().io_reschedule_concurrent_count.end();
        ctx.raft_metrics().dec_reschedule_peer();
        let now_ms = now_coarse_ms();
        let hotpot_ms = ctx.config().io_reschedule_hotpot_duration;
        self.finish_migration(now_ms, hotpot_ms);
        let n_parked = self.pending_write_msgs.len();
        ctx.raft_metrics().sub_reschedule_pending_tasks(n_parked);
        let ghost mid = *self;
        let ghost tgt = spec_target(mid.writer_id, old(ctx).spec_senders());
        let ghost mut drained: Seq<M> = Seq::empty();
        while self.pending_write_msgs.len() > 0
            invariant
                *ctx == *old(ctx),
                0 < ctx.spec_senders().cached_senders@.len(),
                self.tag == mid.tag,
                self.writer_id == mid.writer_id,
                self.next_writer_id == mid.next_writer_id,
                self.last_unpersisted == mid.last_unpersisted,
                self.next_retry_time == mid.next_retry_time,
                self.accepted == mid.accepted,
                !self.migrating(),
                self.next_writer_id is None,
                mid.last_msg_priority is Some ==> self.last_msg_priority is Some
                    && mid.last_msg_priority->Some_0 <= self.last_msg_priority->Some_0,
                tgt == spec_target(mid.writer_id, ctx.spec_senders()),
                mid.pending_write_msgs@ == drained + self.pending_write_msgs@,
                self.routed@ == mid.routed@ + drained.map_values((|m: M| (tgt, m))),
                self.routed_msgs() + self.pending_write_msgs@
                    == mid.routed_msgs() + mid.pending_write_msgs@,
            decreases self.pending_write_msgs@.len(),
        {
            let m = self.pending_write_msgs.remove(0);
            self.send(&*ctx, m);
            proof {
                let drained2 = drained.push(m);
                assert(drained2.map_values((|m2: M| (tgt, m2)))
                    =~= drained.map_values((|m2: M| (tgt, m2))).push((tgt, m)));
                assert(mid.pending_write_msgs@ =~= drained2 + self.pending_write_msgs@);
                assert(self.routed@ =~= mid.routed@ + drained2.map_values((|m2: M| (tgt, m2))));
                drained = drained2;
                assert(self.routed_msgs() + self.pending_write_msgs@
                    =~= mid.routed_msgs() + mid.pending_write_msgs@);
            }
        }
        proof {
            assert(drained =~= mid.pending_write_msgs@);
            assert(self.routed@ == mid.routed@
                + mid.pending_write_msgs@.map_values((|m2: M| (tgt, m2))));
            assert(mid.pending_write_msgs@.map_values((|m2: M| (tgt, m2)))
                =~= old(self).pending_write_msgs@.map_values(
                |m: M| (spec_target(old(self).next_writer_id->Some_0,
                        old(ctx).spec_senders()), m),
            ));
            assert(self.routed_msgs() + self.pending_write_msgs@ == self.accepted@);
        }
    }
}

/// Per-peer order: for a well-formed router, the messages handed to workers,
/// followed by the parked ones, are exactly the messages the peer produced,
/// in production order — the router neither loses, duplicates nor reorders a
/// message.
pub proof fn lemma_per_peer_order<M>(r: WriteRouter<M>)
    requires
        r.wf(),
    ensures
        r.routed_msgs() + r.pending_write_msgs@ == r.accepted@,
{
}

/// Cool-down, preservation: a retry-time reset taken at a later clock
/// reading never shortens a cool-down that an earlier reading established.
pub proof fn lemma_cooldown_preserved(t1: u64, hotpot_ms: u64, now_ms: u64)
    requires
        t1 <= now_ms,
    ensures
        sat_add(t1, hotpot_ms) <= sat_add(now_ms, hotpot_ms),
{
}

/// Cool-down, refusal: the short back-off after a refused attempt never
/// shortens a standing cool-down either, because an attempt is made only
/// strictly past the retry time.
pub proof fn lemma_cooldown_refusal(deadline: u64, backoff_ms: u64, retry_time: u64, now_ms: u64)
    requires
        deadline <= retry_time,
        retry_time < now_ms,
    ensures
        deadline <= sat_add(now_ms, backoff_ms),
{
}

/// Cool-down: completing a migration at wall time `t1` sets the retry time
/// to `t1 + hotpot`, and every later reset only moves it further out; a new
/// migration of the same peer is considered only at a reading `now` strictly
/// past the retry time.  So, with a monotone clock and no saturation, more
/// than the hotpot duration passes between two consecutive migrations of one
/// peer.
pub proof fn lemma_cooldown(t1: u64, hotpot_ms: u64, retry_time: u64, now_ms: u64)
    requires
        sat_add(t1, hotpot_ms) <= retry_time,
        retry_time < now_ms,
        t1 + hotpot_ms <= u64::MAX,
    ensures
        hotpot_ms < now_ms - t1,
{
}

} // verus!
