//! Per-peer routing of write batches to a pool of I/O workers.
//!
//! Each replicated peer owns a `WriteRouter`, a small state machine that
//! picks the worker its write batches go to, occasionally migrates the peer
//! to a different worker to spread load, and buffers messages during a
//! migration so that per-peer ordering survives the move.  A process-wide
//! `RescheduleGate` bounds how many peers may migrate at once, and a
//! versioned `VersionedPool` lets a controller resize the worker pool while
//! consumers keep a cached snapshot.

mod config;
mod gate;
mod metrics;
mod pool;
mod protocol;
mod router;
mod slot;

pub use config::Config;
pub use gate::RescheduleGate;
pub use metrics::RaftMetrics;
pub use pool::{SharedSenders, VersionedPool, WriteSenders};
pub use protocol::{end_step, gate_inv, lemma_end_preserves_inv, lemma_gate_cap, lemma_gate_conservation, lemma_start_preserves_inv, start_step, GateProtocol};
pub use router::{
    lemma_cooldown, lemma_cooldown_preserved, lemma_cooldown_refusal, lemma_per_peer_order, sat_add,
    spec_effective_size, spec_target, RouteDecision, RouterContext, WriteRouter, WriteRouterContext,
    RETRY_SCHEDULE_MS,
};
pub use slot::{next_token, SlotSendError, WorkerSlot};
