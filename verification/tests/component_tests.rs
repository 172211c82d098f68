use crossbeam::channel::bounded;
use write_router::{
    Config, RaftMetrics, RescheduleGate, RouterContext, SharedSenders, SlotSendError, VersionedPool,
    WorkerSlot, WriteRouter, WriteSenders,
};

#[test]
fn test_config_defaults() {
    let c = Config::new();
    assert_eq!(c.store_io_pool_size, 2);
    assert_eq!(c.store_io_notify_capacity, 4096);
    assert_eq!(c.io_reschedule_concurrent_max_count, 0);
    assert_eq!(c.io_reschedule_hotpot_duration, 3_600_000);
}

#[test]
fn test_gate_counts_migrations() {
    let gate = RescheduleGate::new();
    assert_eq!(gate.load(), 0);
    assert!(gate.try_start(2));
    assert_eq!(gate.load(), 1);
    assert!(gate.try_start(2));
    assert_eq!(gate.load(), 2);
    // At the cap: a third migration is refused and the count stays put.
    assert!(!gate.try_start(2));
    assert_eq!(gate.load(), 2);
    gate.end();
    assert_eq!(gate.load(), 1);
    assert!(gate.try_start(2));
    assert_eq!(gate.load(), 2);
    gate.end();
    gate.end();
    assert_eq!(gate.load(), 0);
    // A cap of zero disables migration outright.
    assert!(!gate.try_start(0));
    assert_eq!(gate.load(), 0);
    // Clones share the same counter.
    let other = gate.clone();
    other.set(7);
    assert_eq!(gate.load(), 7);
}

fn make_slots(n: usize, cap: usize) -> (Vec<WorkerSlot<u32>>, Vec<crossbeam::channel::Receiver<u32>>) {
    let mut slots = vec![];
    let mut rxs = vec![];
    for _ in 0..n {
        let (tx, rx) = bounded(cap);
        slots.push(WorkerSlot::new(tx));
        rxs.push(rx);
    }
    (slots, rxs)
}

#[test]
fn test_slot_token_chain_and_payload() {
    let (tx, rx) = bounded(4);
    let slot: WorkerSlot<u32> = WorkerSlot::new(tx);
    // A fresh chain starts at token zero; each later handoff moves past the bound.
    let t0 = slot.try_send(7, None).unwrap();
    assert_eq!(t0, 0);
    let t1 = slot.try_send(8, Some(t0)).unwrap();
    assert_eq!(t1, 1);
    let t2 = slot.send(9, Some(5)).unwrap();
    assert_eq!(t2, 6);
    assert_eq!(rx.try_recv(), Ok(7));
    assert_eq!(rx.try_recv(), Ok(8));
    assert_eq!(rx.try_recv(), Ok(9));
    assert!(rx.try_recv().is_err());
}

#[test]
fn test_slot_full_returns_message() {
    let (tx, rx) = bounded(1);
    let slot: WorkerSlot<u32> = WorkerSlot::new(tx);
    assert!(slot.try_send(1, None).is_ok());
    match slot.try_send(2, None) {
        Err(SlotSendError::Full(m)) => assert_eq!(m, 2),
        _ => panic!("expected the full channel to hand the message back"),
    }
    assert_eq!(rx.try_recv(), Ok(1));
}

#[test]
fn test_slot_disconnected() {
    let (tx, rx) = bounded(1);
    let slot: WorkerSlot<u32> = WorkerSlot::new(tx);
    drop(rx);
    match slot.try_send(3, None) {
        Err(SlotSendError::Disconnected) => {}
        _ => panic!("expected a closed channel to report disconnection"),
    }
}

#[test]
fn test_pool_publish_and_refresh() {
    let (slots, _rxs) = make_slots(2, 4);
    let pool = VersionedPool::new(SharedSenders(slots));
    let mut view = WriteSenders::new(pool.clone());
    assert!(!view.is_empty());
    assert_eq!(view.size(), 2);

    // Nothing new published: refresh keeps the snapshot.
    view.refresh();
    assert_eq!(view.size(), 2);

    // The controller grows the pool; the view sees it only on refresh.
    let (slots3, _rxs3) = make_slots(3, 4);
    pool.publish(SharedSenders(slots3));
    assert_eq!(view.size(), 2);
    view.refresh();
    assert_eq!(view.size(), 3);

    // Shrink back to an empty pool.
    pool.publish(SharedSenders(vec![]));
    view.refresh();
    assert!(view.is_empty());
    assert_eq!(view.size(), 0);

    let snapshot = pool.snapshot();
    assert_eq!(snapshot.1.len(), 0);
}

#[test]
fn test_shared_senders_get_set() {
    let (slots, _rxs) = make_slots(2, 4);
    let mut shared: SharedSenders<u32> = SharedSenders::default();
    assert_eq!(shared.get().len(), 0);
    shared.set(slots);
    assert_eq!(shared.get().len(), 2);
    let copy = shared.clone();
    assert_eq!(copy.get().len(), 2);
}

#[test]
fn test_router_initial_state() {
    let r: WriteRouter<u32> = WriteRouter::new("peer-1".to_string());
    assert_eq!(r.tag, "peer-1");
    assert_eq!(r.writer_id, 0);
    assert_eq!(r.next_writer_id, None);
    assert_eq!(r.last_unpersisted, None);
    assert!(r.pending_write_msgs.is_empty());
    assert_eq!(r.last_msg_priority, None);
}

#[test]
fn test_router_priority_chain() {
    let mut config = Config::new();
    config.io_reschedule_concurrent_max_count = 0;
    config.store_io_pool_size = 2;
    let (slots, rxs) = make_slots(2, 8);
    let pool = VersionedPool::new(SharedSenders(slots));
    let mut ctx = RouterContext {
        senders: WriteSenders::new(pool),
        config,
        raft_metrics: RaftMetrics::new(),
    };
    let mut r = WriteRouter::new("p".to_string());
    // A fresh chain resets the bound, so the first token is zero.
    r.send_write_msg(&mut ctx, None, 100);
    assert_eq!(r.last_msg_priority, Some(0));
    // Later messages of the chain get increasing tokens.
    r.send_write_msg(&mut ctx, Some(1), 101);
    assert_eq!(r.last_msg_priority, Some(1));
    r.send_write_msg(&mut ctx, Some(2), 102);
    assert_eq!(r.last_msg_priority, Some(2));
    let w = r.writer_id;
    assert!(w < 2);
    assert_eq!(rxs[w].try_recv(), Ok(100));
    assert_eq!(rxs[w].try_recv(), Ok(101));
    assert_eq!(rxs[w].try_recv(), Ok(102));
}

#[test]
fn test_router_survives_disconnected_workers() {
    let mut config = Config::new();
    config.io_reschedule_concurrent_max_count = 0;
    config.store_io_pool_size = 1;
    let (slots, rxs) = make_slots(1, 4);
    let pool = VersionedPool::new(SharedSenders(slots));
    let mut ctx = RouterContext {
        senders: WriteSenders::new(pool),
        config,
        raft_metrics: RaftMetrics::new(),
    };
    drop(rxs);
    let mut r = WriteRouter::new("p".to_string());
    // The workers are gone, as in shutdown: the message is dropped quietly,
    // and the drop is counted.
    r.send_write_msg(&mut ctx, None, 1u32);
    assert_eq!(r.last_msg_priority, None);
    assert_eq!(ctx.raft_metrics.send_disconnected_count(), 1);
}

#[test]
fn test_metrics_block_wait_counter() {
    let m = RaftMetrics::new();
    assert_eq!(m.write_block_wait_count(), 0);
    m.observe_write_block_wait();
    m.observe_write_block_wait();
    assert_eq!(m.write_block_wait_count(), 2);
    // Clones share the same counter.
    let c = m.clone();
    c.observe_write_block_wait();
    assert_eq!(m.write_block_wait_count(), 3);
}

#[test]
fn test_metrics_gauges() {
    let m = RaftMetrics::new();
    assert_eq!(m.reschedule_pending_tasks(), 0);
    assert_eq!(m.reschedule_peer(), 0);
    assert_eq!(m.send_disconnected_count(), 0);
    m.inc_reschedule_pending_tasks();
    m.inc_reschedule_pending_tasks();
    m.inc_reschedule_pending_tasks();
    m.sub_reschedule_pending_tasks(2);
    assert_eq!(m.reschedule_pending_tasks(), 1);
    m.inc_reschedule_peer();
    m.inc_reschedule_peer();
    m.dec_reschedule_peer();
    assert_eq!(m.reschedule_peer(), 1);
    m.observe_send_disconnected();
    assert_eq!(m.send_disconnected_count(), 1);
    // Clones report into the same figures.
    let c = m.clone();
    c.inc_reschedule_peer();
    assert_eq!(m.reschedule_peer(), 2);
}

#[test]
fn test_router_reclamps_after_pool_shrink() {
    let mut config = Config::new();
    config.io_reschedule_concurrent_max_count = 0;
    config.store_io_pool_size = 8;
    let (slots, rxs) = make_slots(2, 4);
    let pool = VersionedPool::new(SharedSenders(slots));
    let mut ctx = RouterContext {
        senders: WriteSenders::new(pool),
        config,
        raft_metrics: RaftMetrics::new(),
    };
    let mut r = WriteRouter::new("p".to_string());
    // A selection left over from a larger pool is re-clamped on handoff.
    r.writer_id = 5;
    r.send_write_msg(&mut ctx, Some(1), 9u32);
    assert_eq!(r.writer_id, 5);
    assert_eq!(rxs[5 % 2].try_recv(), Ok(9));
    assert!(rxs[0].try_recv().is_err());
}
