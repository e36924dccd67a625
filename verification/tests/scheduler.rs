use kit_ilias_downloader::queue::{Queue, RateLimiter};

#[test]
fn dynamic_task_graph_reaches_quiescence_within_the_bound() {
    // A root unit synchronously submits 50 further units; the
    // crawl reaches quiescence and the instrumented permit counter never
    // exceeds the configured parallelism.
    let jobs = 4usize;
    let mut q = Queue::set_parallel_jobs(jobs);
    let mut max_running = 0usize;

    q.spawn();
    assert!(q.get_ticket());
    max_running = max_running.max(q.running());
    // The root unit, while running, submits its 50 children.
    for _ in 0..50 {
        q.spawn();
    }
    q.release_ticket(true);

    // Drain: keep starting units up to the permit bound and finishing them.
    loop {
        let mut started_any = false;
        while q.get_ticket() {
            started_any = true;
            max_running = max_running.max(q.running());
        }
        assert!(q.running() <= jobs);
        if q.running() == 0 {
            break;
        }
        q.release_ticket(true);
        if !started_any && q.running() == 0 && q.queued() == 0 {
            break;
        }
    }
    assert!(q.is_quiescent());
    assert!(max_running <= jobs);
    assert_eq!(max_running, jobs);
    let (completed, failed) = q.finished();
    assert_eq!(completed, 51);
    assert_eq!(failed, 0);
}

#[test]
fn permit_pool_saturates_at_the_configured_parallelism() {
    let mut q = Queue::set_parallel_jobs(2);
    for _ in 0..5 {
        q.spawn();
    }
    assert!(q.get_ticket());
    assert!(q.get_ticket());
    assert!(!q.get_ticket());
    assert_eq!(q.running(), 2);
    assert_eq!(q.queued(), 3);
    q.release_ticket(false);
    assert!(q.get_ticket());
    assert_eq!(q.running(), 2);
}

#[test]
fn failed_units_release_their_permit_and_do_not_stop_the_crawl() {
    let mut q = Queue::set_parallel_jobs(1);
    q.spawn();
    q.spawn();
    assert!(q.get_ticket());
    q.release_ticket(false);
    assert!(q.get_ticket());
    q.release_ticket(true);
    assert!(q.is_quiescent());
    let (completed, failed) = q.finished();
    assert_eq!(completed, 1);
    assert_eq!(failed, 1);
}

#[test]
fn empty_queue_is_quiescent_and_starts_nothing() {
    let mut q = Queue::set_parallel_jobs(3);
    assert!(q.is_quiescent());
    assert!(!q.get_ticket());
    assert!(q.is_quiescent());
}

#[test]
fn accumulated_burst_is_spent_immediately() {
    // At one permit per tick, three idle ticks let three
    // back-to-back fetches pass at once; the fourth must wait for the next
    // tick.
    let mut rl = RateLimiter::set_download_rate(60);
    assert!(!rl.get_request_ticket());
    rl.tick();
    rl.tick();
    rl.tick();
    assert!(rl.get_request_ticket());
    assert!(rl.get_request_ticket());
    assert!(rl.get_request_ticket());
    assert!(!rl.get_request_ticket());
    rl.tick();
    assert!(rl.get_request_ticket());
}

#[test]
fn rate_limiter_accumulates_without_a_cap() {
    let mut rl = RateLimiter::set_download_rate(8);
    for _ in 0..1000 {
        rl.tick();
    }
    for _ in 0..1000 {
        assert!(rl.get_request_ticket());
    }
    assert!(!rl.get_request_ticket());
}
