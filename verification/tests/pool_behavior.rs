use worker_pool::pool::SubmitError;
use worker_pool::pool::ThreadPool;
use worker_pool::pool::Worker;
use worker_pool::pool::WorkerState;
use worker_pool::queue::RecvOutcome;
use worker_pool::queue::SendOutcome;
use worker_pool::queue::WorkQueue;

#[test]
fn pool_delivers_submitted_item() {
    let (pool, receivers) = ThreadPool::<u64>::new(1);
    let mut worker = Worker::new(0);
    assert_eq!(worker.worker_id(), 0);
    assert_eq!(worker.current_state(), WorkerState::Running);

    assert!(pool.execute(7).is_ok());
    let job = worker.next_job(&receivers[0]);
    assert_eq!(job, Some(7));
    worker.finish_item(true);
    assert_eq!(worker.current_state(), WorkerState::Running);
}

#[test]
fn pool_worker_stops_on_shutdown() {
    let (mut pool, receivers) = ThreadPool::<u64>::new(1);
    let mut worker = Worker::new(0);

    assert!(pool.execute(42).is_ok());
    pool.shutdown();
    assert_eq!(worker.next_job(&receivers[0]), Some(42));
    assert_eq!(worker.current_state(), WorkerState::Running);
    assert_eq!(worker.next_job(&receivers[0]), None);
    assert_eq!(worker.current_state(), WorkerState::Stopped);
}

#[test]
fn pool_refuses_submission_after_shutdown() {
    let (mut pool, _receivers) = ThreadPool::<u64>::new(2);
    pool.shutdown();
    match pool.execute(9) {
        Err(SubmitError::ChannelClosed(back)) => assert_eq!(back, 9),
        Ok(()) => panic!("a shut-down pool accepted an item"),
    }
}

#[test]
fn pool_hands_item_back_when_workers_are_gone() {
    let (pool, receivers) = ThreadPool::<u64>::new(1);
    drop(receivers);
    match pool.execute(3) {
        Err(SubmitError::ChannelClosed(back)) => assert_eq!(back, 3),
        Ok(()) => panic!("a pool without workers accepted an item"),
    }
}

#[test]
fn worker_stops_at_once_when_nothing_was_queued() {
    let mut q = WorkQueue::<u64>::new(4);
    q.close();
    let mut worker = Worker::new(0);
    assert_eq!(worker.take_step(&mut q), None);
    assert_eq!(worker.current_state(), WorkerState::Stopped);
}

#[test]
fn pool_shutdown_twice_is_harmless() {
    let (mut pool, _receivers) = ThreadPool::<u64>::new(3);
    pool.shutdown();
    pool.shutdown();
    assert!(pool.claim_join(0));
    assert!(!pool.claim_join(0));
    assert!(pool.claim_join(1));
    assert!(pool.claim_join(2));
    assert!(!pool.claim_join(2));
}

#[test]
fn pool_worker_survives_failing_item() {
    // A failing item on a one-worker pool must not stop later items from
    // running on the same worker.
    let (pool, receivers) = ThreadPool::<u64>::new(1);
    let mut worker = Worker::new(0);

    assert!(pool.execute(1).is_ok());
    assert_eq!(worker.next_job(&receivers[0]), Some(1));
    worker.finish_item(false);
    assert_eq!(worker.current_state(), WorkerState::Running);

    assert!(pool.execute(2).is_ok());
    assert_eq!(worker.next_job(&receivers[0]), Some(2));
    worker.finish_item(true);
    assert_eq!(worker.current_state(), WorkerState::Running);
}

#[test]
fn queue_is_fifo_for_one_worker() {
    let mut q = WorkQueue::<u64>::new(8);
    let mut worker = Worker::new(0);
    for id in [10, 20, 30] {
        assert!(matches!(q.send(id), SendOutcome::Accepted));
    }
    assert_eq!(worker.take_step(&mut q), Some(10));
    assert_eq!(worker.take_step(&mut q), Some(20));
    assert_eq!(worker.take_step(&mut q), Some(30));
    assert_eq!(worker.take_step(&mut q), None);
    assert_eq!(worker.current_state(), WorkerState::Running);
}

#[test]
fn queue_backpressure_hands_item_back() {
    let mut q = WorkQueue::<u64>::new(1);
    assert!(matches!(q.send(1), SendOutcome::Accepted));
    match q.send(2) {
        SendOutcome::Full(back) => assert_eq!(back, 2),
        _ => panic!("a full queue accepted a second item"),
    }
}

#[test]
fn queue_close_is_idempotent_and_refuses_sends() {
    let mut q = WorkQueue::<u64>::new(4);
    assert!(matches!(q.send(5), SendOutcome::Accepted));
    q.close();
    assert!(q.check_closed());
    q.close();
    assert!(q.check_closed());
    match q.send(6) {
        SendOutcome::Closed(back) => assert_eq!(back, 6),
        _ => panic!("a closed queue accepted an item"),
    }
    // The queued item is still delivered before the closed signal.
    match q.receive() {
        RecvOutcome::Item(item) => assert_eq!(item, 5),
        _ => panic!("the backlog was dropped on close"),
    }
    assert!(matches!(q.receive(), RecvOutcome::Disconnected));
}

#[test]
fn queue_open_and_empty_reports_empty() {
    let mut q = WorkQueue::<u64>::new(2);
    assert!(matches!(q.receive(), RecvOutcome::Empty));
}

#[test]
fn drain_finishes_backlog_before_returning() {
    // Shutdown with fifty items still queued: the drain hands out all fifty,
    // in order, before the closed signal is seen.
    let mut q = WorkQueue::<u64>::new(50);
    for id in 0..50 {
        assert!(matches!(q.send(id), SendOutcome::Accepted));
    }
    q.close();
    let items = q.drain();
    assert_eq!(items.len(), 50);
    for (i, item) in items.iter().enumerate() {
        assert_eq!(*item, i as u64);
    }
    assert!(matches!(q.receive(), RecvOutcome::Disconnected));
}

#[test]
fn workers_drain_small_pool_exactly_once() {
    // Two model workers, five items: every item runs exactly once.
    let mut q = WorkQueue::<u64>::new(5);
    let mut w0 = Worker::new(0);
    let mut w1 = Worker::new(1);
    for id in 0..5 {
        assert!(matches!(q.send(id), SendOutcome::Accepted));
    }
    q.close();
    let mut executed: Vec<u64> = Vec::new();
    loop {
        let before = executed.len();
        if w0.current_state() != WorkerState::Stopped {
            if let Some(job) = w0.take_step(&mut q) {
                executed.push(job);
            }
        }
        if w1.current_state() != WorkerState::Stopped {
            if let Some(job) = w1.take_step(&mut q) {
                executed.push(job);
            }
        }
        if w0.current_state() == WorkerState::Stopped
            && w1.current_state() == WorkerState::Stopped
        {
            break;
        }
        let _ = before;
    }
    assert_eq!(executed, vec![0, 1, 2, 3, 4]);
}

#[test]
fn stress_many_items_never_lost_or_duplicated() {
    // Four workers, ten thousand items, a channel far smaller than either:
    // every id comes out exactly once, and in submission order.
    let worker_count = 4;
    let total: u64 = 10_000;
    let mut q = WorkQueue::<u64>::new(16);
    let mut workers: Vec<Worker> = (0..worker_count).map(Worker::new).collect();
    let mut executed: Vec<u64> = Vec::new();
    let mut next_worker = 0;
    for id in 0..total {
        loop {
            match q.send(id) {
                SendOutcome::Accepted => break,
                SendOutcome::Full(back) => {
                    assert_eq!(back, id);
                    if let Some(job) = workers[next_worker].take_step(&mut q) {
                        executed.push(job);
                    }
                    next_worker = (next_worker + 1) % worker_count;
                }
                SendOutcome::Closed(_) => panic!("the queue closed by itself"),
            }
        }
    }
    q.close();
    let mut stopped = 0;
    while stopped < worker_count {
        for w in workers.iter_mut() {
            if w.current_state() == WorkerState::Stopped {
                continue;
            }
            match w.take_step(&mut q) {
                Some(job) => executed.push(job),
                None => {
                    if w.current_state() == WorkerState::Stopped {
                        stopped += 1;
                    }
                }
            }
        }
    }
    assert_eq!(executed.len(), total as usize);
    let mut unique = executed.clone();
    unique.sort();
    unique.dedup();
    assert_eq!(unique.len(), total as usize);
    for (i, id) in executed.iter().enumerate() {
        assert_eq!(*id, i as u64);
    }
}
