use vstd::prelude::*;

verus! {

/// A worker's inbound channel endpoint comes from crossbeam; Verus treats a
/// value of it as opaque.
#[verifier::external_type_specification]
#[verifier::external_body]
#[verifier::reject_recursive_types(T)]
pub struct ExSender<T>(crossbeam::channel::Sender<T>);

/// The two ways a non-blocking handoff to a worker can fail.
#[derive(Debug)]
pub enum SlotSendError<M> {
    /// The worker's channel is at capacity; the message comes back so the
    /// caller can fall back to a blocking handoff.
    Full(M),
    /// The worker's channel is closed.  Workers outlive peers in normal
    /// operation, so this is seen only while the process shuts down.
    Disconnected,
}

/// Relies on crossbeam_channel::Sender::try_send: a full channel hands the
/// message back unchanged; a closed one reports disconnection.
#[verifier::external_body]
fn channel_try_send<M>(sender: &crossbeam::channel::Sender<M>, msg: M) -> (r: Result<(), SlotSendError<M>>)
    ensures
        r matches Err(SlotSendError::Full(m)) ==> m == msg,
{
    match sender.try_send(msg) {
        Ok(()) => Ok(()),
        Err(crossbeam::channel::TrySendError::Full(m)) => Err(SlotSendError::Full(m)),
        Err(crossbeam::channel::TrySendError::Disconnected(_)) => Err(SlotSendError::Disconnected),
    }
}

/// Relies on crossbeam_channel::Sender::send: blocks until the message is
/// enqueued, and hands it back only when the channel is closed.
#[verifier::external_body]
fn channel_send<M>(sender: &crossbeam::channel::Sender<M>, msg: M) -> (r: Result<(), M>)
    ensures
        r matches Err(m) ==> m == msg,
{
    match sender.send(msg) {
        Ok(()) => Ok(()),
        Err(crossbeam::channel::SendError(m)) => Err(m),
    }
}

/// Relies on crossbeam_channel::Sender::clone: the clone is another endpoint
/// of the same channel.
#[verifier::external_body]
fn channel_clone<M>(sender: &crossbeam::channel::Sender<M>) -> (r: crossbeam::channel::Sender<M>)
    ensures
        r == *sender,
{
    sender.clone()
}

/// The priority token handed out for a message sent after `bound`: the
/// smallest token strictly above the bound, or the bound itself at the top of
/// the range.  A fresh causal chain (no bound) starts at zero.
pub open spec fn next_token(bound: Option<u64>) -> u64 {
    match bound {
        Option::None => 0,
        Option::Some(b) => if b == u64::MAX {
            b
        } else {
            (b + 1) as u64
        },
    }
}

/// One I/O worker's inbound endpoint, together with the priority handshake
/// the router uses to keep one peer's messages in order at the worker.
///
/// The slot does no resource accounting of its own: the channel it wraps has
/// no per-message quota to charge a cost against.
#[verifier::reject_recursive_types(M)]
pub struct WorkerSlot<M> {
    sender: crossbeam::channel::Sender<M>,
}

impl<M> Clone for WorkerSlot<M> {
    fn clone(&self) -> (r: Self)
        ensures
            r == *self,
    {
        WorkerSlot { sender: channel_clone(&self.sender) }
    }
}

impl<M> WorkerSlot<M> {
    /// Wrap a worker's channel endpoint.
    pub fn new(sender: crossbeam::channel::Sender<M>) -> (s: WorkerSlot<M>) {
        WorkerSlot { sender }
    }

    /// Non-blocking handoff.  On success the returned priority token is never
    /// below the supplied lower bound, so a peer that chains tokens sees its
    /// messages processed monotonically at the worker.
    pub fn try_send(&self, msg: M, lower_bound: Option<u64>) -> (r: Result<u64, SlotSendError<M>>)
        ensures
            r matches Ok(t) ==> t == next_token(lower_bound)
                && (lower_bound matches Some(b) ==> t >= b),
            r matches Err(SlotSendError::Full(m)) ==> m == msg,
    {
        match channel_try_send(&self.sender, msg) {
            Ok(()) => Ok(compute_next_token(lower_bound)),
            Err(e) => Err(e),
        }
    }

    /// Blocking handoff, used as the fallback under backpressure.  Returns the
    /// message only if the channel is closed.
    pub fn send(&self, msg: M, lower_bound: Option<u64>) -> (r: Result<u64, M>)
        ensures
            r matches Ok(t) ==> t == next_token(lower_bound)
                && (lower_bound matches Some(b) ==> t >= b),
            r matches Err(m) ==> m == msg,
    {
        match channel_send(&self.sender, msg) {
            Ok(()) => Ok(compute_next_token(lower_bound)),
            Err(m) => Err(m),
        }
    }
}

/// Executable twin of [`next_token`].
fn compute_next_token(bound: Option<u64>) -> (t: u64)
    ensures
        t == next_token(bound),
{
    match bound {
        Option::None => 0,
        Option::Some(b) => if b == u64::MAX {
            b
        } else {
            b + 1
        },
    }
}

} // verus!
