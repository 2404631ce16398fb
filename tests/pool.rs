use hellohello::error::PoolError;
use hellohello::pool::{JobOutcome, Pool, Step, WorkerState};
use hellohello::queue::{Dequeued, JobQueue};

type Job = Box<dyn FnOnce(&mut Vec<u32>) -> Result<(), String>>;

fn record(id: u32) -> Job {
    Box::new(move |log: &mut Vec<u32>| {
        log.push(id);
        Ok(())
    })
}

fn failing() -> Job {
    Box::new(|_: &mut Vec<u32>| Err(String::from("job failed")))
}

/// Lets worker `w` take one step: runs whatever it is handed, reports back.
/// Returns what the worker was told.
fn step(pool: &mut Pool<Job>, w: usize, log: &mut Vec<u32>) -> &'static str {
    assert_eq!(pool.worker_state(w), WorkerState::Idle);
    match pool.next_job(w) {
        Step::Run(job) => {
            let outcome = match job(log) {
                Ok(()) => JobOutcome::Completed,
                Err(_) => JobOutcome::Failed,
            };
            let _ = pool.job_done(w, outcome);
            "run"
        }
        Step::Wait => "wait",
        Step::Stop => "stop",
    }
}

/// Shuts the pool down and lets the workers, in turn, drain it until all stop.
fn shut_down_and_drain(pool: &mut Pool<Job>, log: &mut Vec<u32>) {
    pool.shutdown();
    let mut guard = 0;
    while !pool.is_terminated() {
        for w in 0..pool.worker_count() {
            if pool.worker_state(w) == WorkerState::Idle {
                step(pool, w, log);
            }
        }
        guard += 1;
        assert!(guard < 100_000);
    }
}

#[test]
fn zero_workers_is_invalid_configuration() {
    let r = Pool::<Job>::new(0);
    assert!(matches!(r, Err(PoolError::InvalidConfiguration)));
}

#[test]
fn new_pool_has_idle_workers() {
    let pool = Pool::<Job>::new(4).unwrap();
    assert_eq!(pool.worker_count(), 4);
    for w in 0..4 {
        assert_eq!(pool.worker_state(w), WorkerState::Idle);
    }
    assert!(!pool.is_closed());
    assert_eq!(pool.pending_count(), 0);
    assert!(!pool.is_terminated());
}

#[test]
fn every_job_is_invoked_exactly_once() {
    let mut pool = Pool::<Job>::new(4).unwrap();
    let mut log = Vec::new();
    for id in 0..100u32 {
        assert!(pool.submit(record(id)).is_ok());
        // Workers take turns unevenly while jobs keep coming.
        if id % 3 == 0 {
            step(&mut pool, (id as usize / 3) % 4, &mut log);
        }
    }
    shut_down_and_drain(&mut pool, &mut log);
    assert_eq!(log.len(), 100);
    let mut seen = vec![0u32; 100];
    for id in &log {
        seen[*id as usize] += 1;
    }
    assert!(seen.iter().all(|&n| n == 1));
}

#[test]
fn jobs_are_handed_out_in_submission_order() {
    let mut pool = Pool::<Job>::new(2).unwrap();
    let mut log = Vec::new();
    for id in 0..6u32 {
        pool.submit(record(id)).unwrap();
    }
    step(&mut pool, 1, &mut log);
    step(&mut pool, 0, &mut log);
    step(&mut pool, 1, &mut log);
    assert_eq!(log, vec![0, 1, 2]);
    assert_eq!(pool.pending_count(), 3);
}

#[test]
fn submit_after_shutdown_is_closed_and_never_runs() {
    let mut pool = Pool::<Job>::new(2).unwrap();
    let mut log = Vec::new();
    pool.submit(record(1)).unwrap();
    pool.shutdown();
    assert!(pool.is_closed());
    let r = pool.submit(record(2));
    assert!(matches!(r, Err(PoolError::Closed)));
    assert_eq!(pool.pending_count(), 1);
    shut_down_and_drain(&mut pool, &mut log);
    assert_eq!(log, vec![1]);
}

#[test]
fn failed_job_does_not_stop_later_jobs() {
    let mut pool = Pool::<Job>::new(1).unwrap();
    let mut log = Vec::new();
    pool.submit(record(1)).unwrap();
    pool.submit(failing()).unwrap();
    pool.submit(record(3)).unwrap();
    assert_eq!(step(&mut pool, 0, &mut log), "run");
    match pool.next_job(0) {
        Step::Run(job) => {
            assert!(job(&mut log).is_err());
            let r = pool.job_done(0, JobOutcome::Failed);
            assert!(matches!(r, Err(PoolError::JobFailure)));
        }
        _ => panic!("the failing job was not handed out"),
    }
    assert_eq!(pool.worker_state(0), WorkerState::Idle);
    assert_eq!(step(&mut pool, 0, &mut log), "run");
    assert_eq!(log, vec![1, 3]);
}

#[test]
fn completed_job_reports_ok() {
    let mut pool = Pool::<u32>::new(1).unwrap();
    pool.submit(5).unwrap();
    assert!(matches!(pool.next_job(0), Step::Run(5)));
    assert_eq!(pool.worker_state(0), WorkerState::Busy);
    assert!(pool.job_done(0, JobOutcome::Completed).is_ok());
    assert_eq!(pool.worker_state(0), WorkerState::Idle);
}

#[test]
fn shutdown_waits_for_running_job() {
    let mut pool = Pool::<u32>::new(2).unwrap();
    pool.submit(7).unwrap();
    assert!(matches!(pool.next_job(0), Step::Run(7)));
    pool.shutdown();
    // The other worker is told to stop; the busy one is not interrupted.
    assert!(matches!(pool.next_job(1), Step::Stop));
    assert_eq!(pool.worker_state(0), WorkerState::Busy);
    assert!(!pool.is_terminated());
    pool.job_done(0, JobOutcome::Completed).unwrap();
    assert!(!pool.is_terminated());
    assert!(matches!(pool.next_job(0), Step::Stop));
    assert!(pool.is_terminated());
}

#[test]
fn idle_worker_waits_while_open() {
    let mut pool = Pool::<u32>::new(3).unwrap();
    assert!(matches!(pool.next_job(2), Step::Wait));
    assert_eq!(pool.worker_state(2), WorkerState::Idle);
}

#[test]
fn queued_jobs_are_drained_after_shutdown() {
    let mut pool = Pool::<u32>::new(1).unwrap();
    pool.submit(1).unwrap();
    pool.submit(2).unwrap();
    pool.shutdown();
    assert!(matches!(pool.next_job(0), Step::Run(1)));
    pool.job_done(0, JobOutcome::Completed).unwrap();
    assert!(matches!(pool.next_job(0), Step::Run(2)));
    pool.job_done(0, JobOutcome::Completed).unwrap();
    assert!(matches!(pool.next_job(0), Step::Stop));
    assert!(pool.is_terminated());
}

#[test]
fn interleaved_producers_lose_and_duplicate_nothing() {
    // Ten producers of fifty jobs each, their submissions interleaved with
    // requests from four workers.
    let mut pool = Pool::<Job>::new(4).unwrap();
    let mut log = Vec::new();
    let mut next = [0u32; 10];
    let mut turn = 0usize;
    while next.iter().any(|&n| n < 50) {
        let producer = (turn * 7) % 10;
        if next[producer] < 50 {
            let id = producer as u32 * 50 + next[producer];
            pool.submit(record(id)).unwrap();
            next[producer] += 1;
        }
        if turn % 2 == 0 {
            step(&mut pool, turn % 4, &mut log);
        }
        turn += 1;
    }
    shut_down_and_drain(&mut pool, &mut log);
    assert_eq!(log.len(), 500);
    let mut sorted = log.clone();
    sorted.sort();
    sorted.dedup();
    assert_eq!(sorted.len(), 500);
}

#[test]
fn queue_is_first_in_first_out() {
    let mut q = JobQueue::<u32>::new();
    assert!(q.enqueue(1).is_ok());
    assert!(q.enqueue(2).is_ok());
    assert_eq!(q.len(), 2);
    assert!(matches!(q.dequeue(), Dequeued::Job(1)));
    assert!(matches!(q.dequeue(), Dequeued::Job(2)));
    assert!(matches!(q.dequeue(), Dequeued::Empty));
}

#[test]
fn closed_queue_delivers_then_reports_closed() {
    let mut q = JobQueue::<u32>::new();
    q.enqueue(9).unwrap();
    q.close();
    assert!(q.is_closed());
    assert!(matches!(q.enqueue(10), Err(PoolError::Closed)));
    assert_eq!(q.len(), 1);
    assert!(matches!(q.dequeue(), Dequeued::Job(9)));
    assert!(matches!(q.dequeue(), Dequeued::Closed));
    assert!(matches!(q.dequeue(), Dequeued::Closed));
}
