use vstd::prelude::*;

verus! {

/// Abstract view of the migration protocol across the whole process: the set
/// of peers whose router is in the `Migrating` state, and the value of the
/// shared gate counter.
pub struct GateProtocol {
    /// Peers currently mid-migration.
    pub migrating: Set<int>,
    /// The counter's value.
    pub gate: int,
}

/// The protocol invariant: the counter holds exactly the number of migrating peers and
/// never exceeds the configured cap.
pub open spec fn gate_inv(p: GateProtocol, max_count: int) -> bool {
    &&& p.migrating.finite()
    &&& p.gate == p.migrating.len()
    &&& p.gate <= max_count
}

/// A successful try-start by `peer`: the counter's compare-and-update admitted
/// it (so the counter was below the cap) and incremented the counter as the
/// peer entered `Migrating`.
pub open spec fn start_step(pre: GateProtocol, post: GateProtocol, peer: int, max_count: int) -> bool {
    &&& !pre.migrating.contains(peer)
    &&& pre.gate < max_count
    &&& post.migrating == pre.migrating.insert(peer)
    &&& post.gate == pre.gate + 1
}

/// A migration completion by `peer`: the unconditional decrement as the peer
/// leaves `Migrating`.
pub open spec fn end_step(pre: GateProtocol, post: GateProtocol, peer: int) -> bool {
    &&& pre.migrating.contains(peer)
    &&& post.migrating == pre.migrating.remove(peer)
    &&& post.gate == pre.gate - 1
}

/// Starting a migration preserves the invariant: each peer increments the
/// gate exactly once on entering `Migrating`, and only below the cap.
pub proof fn lemma_start_preserves_inv(
    pre: GateProtocol,
    post: GateProtocol,
    peer: int,
    max_count: int,
)
    requires
        gate_inv(pre, max_count),
        start_step(pre, post, peer, max_count),
    ensures
        gate_inv(post, max_count),
{
    broadcast use vstd::set::axiom_set_insert_len;

}

/// Completing a migration preserves the invariant: each peer decrements the
/// gate exactly once on leaving `Migrating`.
pub proof fn lemma_end_preserves_inv(
    pre: GateProtocol,
    post: GateProtocol,
    peer: int,
    max_count: int,
)
    requires
        gate_inv(pre, max_count),
        end_step(pre, post, peer),
    ensures
        gate_inv(post, max_count),
{
    broadcast use vstd::set::axiom_set_remove_len;

}

/// Gate cap: under the invariant, the number of routers in the `Migrating`
/// state never exceeds the configured cap.
pub proof fn lemma_gate_cap(p: GateProtocol, max_count: int)
    requires
        gate_inv(p, max_count),
    ensures
        p.migrating.len() <= max_count,
{
}

/// Gate conservation: under the invariant, increments minus decrements — the
/// counter's value — equals the number of routers in the `Migrating` state,
/// and in particular returns to zero when every migration has completed.
pub proof fn lemma_gate_conservation(p: GateProtocol, max_count: int)
    requires
        gate_inv(p, max_count),
    ensures
        p.gate == p.migrating.len(),
        p.migrating.len() == 0 ==> p.gate == 0,
{
}

} // verus!
