use crossbeam::channel::{bounded, Receiver};
use std::time::{Duration, Instant};
use write_router::{
    Config, RaftMetrics, RouterContext, SharedSenders, VersionedPool, WorkerSlot, WriteRouter, WriteSenders,
    RETRY_SCHEDULE_MS,
};

enum WriteMsg {
    Shutdown,
}

struct TestWriteRouter {
    receivers: Vec<Receiver<WriteMsg>>,
    ctx: RouterContext<WriteMsg>,
}

impl TestWriteRouter {
    fn new(config: Config) -> Self {
        let (mut receivers, mut senders) = (vec![], vec![]);
        for _ in 0..config.store_io_pool_size {
            let (tx, rx) = bounded(config.store_io_notify_capacity);
            receivers.push(rx);
            senders.push(WorkerSlot::new(tx));
        }
        let pool = VersionedPool::new(SharedSenders(senders));
        Self {
            receivers,
            ctx: RouterContext {
                senders: WriteSenders::new(pool),
                config,
                raft_metrics: RaftMetrics::new(),
            },
        }
    }

    fn must_same_msg_count(&self, id: usize, mut count: usize) {
        while self.receivers[id].try_recv().is_ok() {
            if count == 0 {
                panic!("msg count is smaller");
            }
            count -= 1;
        }
        if count != 0 {
            panic!("msg count is larger, {} left", count);
        }
    }

    fn must_same_reschedule_count(&self, count: usize) {
        let cnt = self.ctx.senders.io_reschedule_concurrent_count.load();
        if cnt != count {
            panic!("reschedule count not same, {} != {}", cnt, count);
        }
    }
}

fn pause_ms(ms: u64) {
    let start = Instant::now();
    while start.elapsed() < Duration::from_millis(ms) {
        std::hint::spin_loop();
    }
}

#[test]
fn test_write_router_no_schedule() {
    let mut config = Config::new();
    config.io_reschedule_concurrent_max_count = 0;
    config.io_reschedule_hotpot_duration = 1;
    config.store_io_pool_size = 4;
    let mut t = TestWriteRouter::new(config);
    let mut r = WriteRouter::new("1".to_string());
    r.send_write_msg(&mut t.ctx, None, WriteMsg::Shutdown);
    let writer_id = r.writer_id;
    for _ in 1..10 {
        r.send_write_msg(&mut t.ctx, Some(10), WriteMsg::Shutdown);
        pause_ms(10);
    }
    assert_eq!(writer_id, r.writer_id);
    t.must_same_msg_count(writer_id, 10);
    t.must_same_reschedule_count(0);
    assert_eq!(t.ctx.raft_metrics.reschedule_peer(), 0);
    assert_eq!(t.ctx.raft_metrics.reschedule_pending_tasks(), 0);
}

#[test]
fn test_write_router_schedule() {
    let mut config = Config::new();
    config.io_reschedule_concurrent_max_count = 4;
    config.io_reschedule_hotpot_duration = 5;
    config.store_io_pool_size = 4;
    let mut t = TestWriteRouter::new(config);
    let mut r = WriteRouter::new("1".to_string());

    let last_time = r.next_retry_time;
    pause_ms(10);
    // `writer_id` will be chosen randomly due to `last_unpersisted` is None
    r.send_write_msg(&mut t.ctx, None, WriteMsg::Shutdown);
    assert!(r.next_retry_time > last_time);
    assert_eq!(r.next_writer_id, None);
    assert_eq!(r.last_unpersisted, None);
    assert!(r.pending_write_msgs.is_empty());
    t.must_same_msg_count(r.writer_id, 1);
    t.must_same_reschedule_count(0);

    pause_ms(10);
    // Should reschedule due to `last_unpersisted` is not None.
    // However it's possible that it will not scheduled due to random
    // so using loop here.
    let writer_id = r.writer_id;
    let timer = Instant::now();
    loop {
        r.send_write_msg(&mut t.ctx, Some(10), WriteMsg::Shutdown);
        if let Some(id) = r.next_writer_id {
            assert!(writer_id != id);
            assert_eq!(r.last_unpersisted, Some(10));
            assert_eq!(r.pending_write_msgs.len(), 1);
            t.must_same_msg_count(r.writer_id, 0);
            t.must_same_reschedule_count(1);
            assert_eq!(t.ctx.raft_metrics.reschedule_peer(), 1);
            assert_eq!(t.ctx.raft_metrics.reschedule_pending_tasks(), 1);
            break;
        }

        t.must_same_msg_count(r.writer_id, 1);

        if timer.elapsed() > Duration::from_secs(5) {
            panic!("not schedule after 5 seconds")
        }
        pause_ms(10);
    }

    r.send_write_msg(&mut t.ctx, Some(20), WriteMsg::Shutdown);
    assert!(r.next_writer_id.is_some());
    // `last_unpersisted` should not change
    assert_eq!(r.last_unpersisted, Some(10));
    assert_eq!(r.pending_write_msgs.len(), 2);
    t.must_same_msg_count(r.writer_id, 0);
    t.must_same_reschedule_count(1);
    assert_eq!(t.ctx.raft_metrics.reschedule_pending_tasks(), 2);

    // No effect due to 9 < `last_unpersisted`(10)
    r.check_new_persisted(&mut t.ctx, 9);
    assert!(r.next_writer_id.is_some());
    assert_eq!(r.last_unpersisted, Some(10));
    assert_eq!(r.pending_write_msgs.len(), 2);
    t.must_same_msg_count(r.writer_id, 0);
    t.must_same_reschedule_count(1);

    // Should reschedule and send msg
    r.check_new_persisted(&mut t.ctx, 10);
    assert_eq!(r.next_writer_id, None);
    assert_eq!(r.last_unpersisted, None);
    assert!(r.pending_write_msgs.is_empty());
    t.must_same_msg_count(r.writer_id, 2);
    t.must_same_reschedule_count(0);
    assert_eq!(t.ctx.raft_metrics.reschedule_peer(), 0);
    assert_eq!(t.ctx.raft_metrics.reschedule_pending_tasks(), 0);

    pause_ms(10);
    t.ctx.senders.io_reschedule_concurrent_count.set(4);
    // Should retry reschedule next time because the limitation of concurrent count.
    // However it's possible that it will not scheduled due to random
    // so using loop here.
    let timer = Instant::now();
    loop {
        r.send_write_msg(&mut t.ctx, Some(30), WriteMsg::Shutdown);
        t.must_same_msg_count(r.writer_id, 1);
        if r.next_writer_id.is_some() {
            assert_eq!(r.last_unpersisted, None);
            assert!(r.pending_write_msgs.is_empty());
            t.must_same_reschedule_count(4);
            break;
        }

        if timer.elapsed() > Duration::from_secs(5) {
            panic!("not retry schedule after 5 seconds")
        }
        pause_ms(10);
    }

    t.ctx.senders.io_reschedule_concurrent_count.set(3);
    pause_ms(RETRY_SCHEDULE_MS + 2);
    // Should reschedule now
    r.send_write_msg(&mut t.ctx, Some(40), WriteMsg::Shutdown);
    assert!(r.next_writer_id.is_some());
    assert_eq!(r.last_unpersisted, Some(40));
    t.must_same_msg_count(r.writer_id, 0);
    t.must_same_reschedule_count(4);
}
