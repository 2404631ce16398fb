use vstd::prelude::*;

use crate::error::PoolError;
use crate::queue::{Dequeued, JobQueue, QueueView};

verus! {

/// Where a worker stands.
#[derive(Clone, Copy, Debug, PartialEq, Eq, Structural)]
pub enum WorkerState {
    /// Running, with no job in hand: it asks for the next one.
    Idle,
    /// Running a job it was handed.
    Busy,
    /// Told that no job will ever come again; it has left its loop.
    Stopped,
}

/// How a job that a worker ran came to its end.
#[derive(Clone, Copy, Debug, PartialEq, Eq, Structural)]
pub enum JobOutcome {
    Completed,
    Failed,
}

/// What a worker that asks for work is to do next.
#[derive(Debug)]
pub enum Step<J> {
    /// Run this job, then report back.
    Run(J),
    /// Nothing to run yet: wait until a job is submitted or the pool shuts down.
    Wait,
    /// The pool has shut down and every job was handed out: leave the loop.
    Stop,
}

/// The abstract state of a pool: its queue and where each worker stands.
pub struct PoolView<J> {
    pub queue: QueueView<J>,
    pub workers: Seq<WorkerState>,
}

/// One thing that can happen to a pool; each matches one operation of `Pool`.
pub enum Event<J> {
    Submit(J),
    /// The worker with this number asks for work.
    Next(nat),
    /// The worker with this number is back from its job, with its outcome.
    Done(nat, JobOutcome),
    Shutdown,
}

impl<J> PoolView<J> {
    /// The queue is consistent, there is at least one worker, and a worker
    /// has stopped only once the queue was closed and drained.
    pub open spec fn wf(self) -> bool {
        &&& self.queue.wf()
        &&& self.workers.len() > 0
        &&& forall|i: int|
            0 <= i < self.workers.len() && #[trigger] self.workers[i] == WorkerState::Stopped
                ==> self.queue.closed && self.queue.pending.len() == 0
    }

    pub open spec fn initial(size: nat) -> PoolView<J> {
        PoolView {
            queue: QueueView::initial(),
            workers: Seq::new(size, |i: int| WorkerState::Idle),
        }
    }

    /// Every worker has left its loop: shutdown is complete.
    pub open spec fn terminated(self) -> bool {
        forall|i: int| 0 <= i < self.workers.len() ==> #[trigger] self.workers[i] == WorkerState::Stopped
    }

    pub open spec fn submit_result(self) -> Result<(), PoolError> {
        self.queue.enqueue_result()
    }

    pub open spec fn after_submit(self, job: J) -> PoolView<J> {
        PoolView { queue: self.queue.after_enqueue(job), ..self }
    }

    pub open spec fn next_result(self) -> Step<J> {
        match self.queue.dequeue_result() {
            Dequeued::Job(job) => Step::Run(job),
            Dequeued::Empty => Step::Wait,
            Dequeued::Closed => Step::Stop,
        }
    }

    pub open spec fn after_next(self, worker: int) -> PoolView<J> {
        let state = match self.queue.dequeue_result() {
            Dequeued::Job(_) => WorkerState::Busy,
            Dequeued::Empty => WorkerState::Idle,
            Dequeued::Closed => WorkerState::Stopped,
        };
        PoolView { queue: self.queue.after_dequeue(), workers: self.workers.update(worker, state) }
    }

    pub open spec fn done_result(outcome: JobOutcome) -> Result<(), PoolError> {
        match outcome {
            JobOutcome::Completed => Ok(()),
            JobOutcome::Failed => Err(PoolError::JobFailure),
        }
    }

    /// The worker is free again, whatever the job's outcome.
    pub open spec fn after_done(self, worker: int) -> PoolView<J> {
        PoolView { workers: self.workers.update(worker, WorkerState::Idle), ..self }
    }

    pub open spec fn after_shutdown(self) -> PoolView<J> {
        PoolView { queue: self.queue.after_close(), ..self }
    }

    pub open spec fn enabled(self, e: Event<J>) -> bool {
        match e {
            Event::Next(w) => w < self.workers.len() && self.workers[w as int] == WorkerState::Idle,
            Event::Done(w, _) => w < self.workers.len() && self.workers[w as int] == WorkerState::Busy,
            _ => true,
        }
    }

    pub open spec fn apply(self, e: Event<J>) -> PoolView<J> {
        match e {
            Event::Submit(job) => self.after_submit(job),
            Event::Next(w) => self.after_next(w as int),
            Event::Done(w, _) => self.after_done(w as int),
            Event::Shutdown => self.after_shutdown(),
        }
    }
}

/// A pool of a fixed number of workers fed from one job queue.
///
/// Workers are numbered from zero. Each one, while running, asks for work
/// with `next_job`, runs what it is handed, and reports back with `job_done`.
/// After `shutdown` no job is accepted; those already queued are still
/// handed out, and then each worker that asks is told to stop.
pub struct Pool<J> {
    queue: JobQueue<J>,
    workers: Vec<WorkerState>,
}

impl<J> View for Pool<J> {
    type V = PoolView<J>;

    closed spec fn view(&self) -> PoolView<J> {
        PoolView { queue: self.queue@, workers: self.workers@ }
    }
}

impl<J> Pool<J> {
    pub open spec fn wf(&self) -> bool {
        self@.wf()
    }

    /// A pool of `size` idle workers and an empty, open queue; with
    /// `size == 0`, `InvalidConfiguration`.
    pub fn new(size: usize) -> (r: Result<Pool<J>, PoolError>)
        ensures
            size == 0 <==> r is Err,
            r matches Err(e) ==> e == PoolError::InvalidConfiguration,
            r matches Ok(p) ==> p.wf() && p@ == PoolView::<J>::initial(size as nat),
    {
        if size == 0 {
            return Err(PoolError::InvalidConfiguration);
        }
        let mut workers: Vec<WorkerState> = Vec::with_capacity(size);
        let mut i: usize = 0;
        while i < size
            invariant
                i <= size,
                workers@ == Seq::new(i as nat, |k: int| WorkerState::Idle),
            decreases size - i,
        {
            workers.push(WorkerState::Idle);
            i = i + 1;
            assert(workers@ =~= Seq::new(i as nat, |k: int| WorkerState::Idle));
        }
        let pool = Pool { queue: JobQueue::new(), workers };
        assert(pool@.workers.len() == size);
        Ok(pool)
    }

    /// How many workers the pool was made with.
    pub fn worker_count(&self) -> (r: usize)
        ensures
            r == self@.workers.len(),
    {
        self.workers.len()
    }

    pub fn worker_state(&self, worker: usize) -> (r: WorkerState)
        requires
            worker < self@.workers.len(),
        ensures
            r == self@.workers[worker as int],
    {
        self.workers[worker]
    }

    /// Whether shutdown has begun.
    pub fn is_closed(&self) -> (r: bool)
        ensures
            r == self@.queue.closed,
    {
        self.queue.is_closed()
    }

    /// How many submitted jobs no worker has taken yet.
    pub fn pending_count(&self) -> (r: usize)
        ensures
            r == self@.queue.pending.len(),
    {
        self.queue.len()
    }

    /// Queues `job` for some worker; after shutdown has begun it is refused
    /// with `Closed` and the pool is left as it was.
    pub fn submit(&mut self, job: J) -> (r: Result<(), PoolError>)
        requires
            old(self).wf(),
        ensures
            final(self).wf(),
            r == old(self)@.submit_result(),
            final(self)@ == old(self)@.after_submit(job),
    {
        self.queue.enqueue(job)
    }

    /// Worker `worker`, idle, asks for work: it is handed the oldest waiting
    /// job, told to wait, or, once the pool is shut down and drained, told to
    /// stop.
    pub fn next_job(&mut self, worker: usize) -> (r: Step<J>)
        requires
            old(self).wf(),
            worker < old(self)@.workers.len(),
            old(self)@.workers[worker as int] == WorkerState::Idle,
        ensures
            final(self).wf(),
            r == old(self)@.next_result(),
            final(self)@ == old(self)@.after_next(worker as int),
    {
        let ghost before = self@;
        let r = match self.queue.dequeue() {
            Dequeued::Job(job) => {
                self.workers.set(worker, WorkerState::Busy);
                Step::Run(job)
            },
            Dequeued::Empty => Step::Wait,
            Dequeued::Closed => {
                self.workers.set(worker, WorkerState::Stopped);
                Step::Stop
            },
        };
        assert(self@.workers =~= before.after_next(worker as int).workers);
        r
    }

    /// Worker `worker` is back from its job and is idle again, whatever came of
    /// the job; a failed one is reported as `JobFailure`.
    pub fn job_done(&mut self, worker: usize, outcome: JobOutcome) -> (r: Result<(), PoolError>)
        requires
            old(self).wf(),
            worker < old(self)@.workers.len(),
            old(self)@.workers[worker as int] == WorkerState::Busy,
        ensures
            final(self).wf(),
            r == PoolView::<J>::done_result(outcome),
            final(self)@ == old(self)@.after_done(worker as int),
    {
        self.workers.set(worker, WorkerState::Idle);
        match outcome {
            JobOutcome::Completed => Ok(()),
            JobOutcome::Failed => Err(PoolError::JobFailure),
        }
    }

    /// Begins shutdown: no job is accepted from now on.
    pub fn shutdown(&mut self)
        requires
            old(self).wf(),
        ensures
            final(self).wf(),
            final(self)@ == old(self)@.after_shutdown(),
    {
        self.queue.close();
    }

    /// Whether every worker has stopped.
    pub fn is_terminated(&self) -> (r: bool)
        requires
            self.wf(),
        ensures
            r == self@.terminated(),
    {
        let mut i: usize = 0;
        while i < self.workers.len()
            invariant
                i <= self@.workers.len(),
                forall|k: int| 0 <= k < i ==> #[trigger] self@.workers[k] == WorkerState::Stopped,
            decreases self@.workers.len() - i,
        {
            if self.workers[i] != WorkerState::Stopped {
                return false;
            }
            i = i + 1;
        }
        true
    }
}

} // verus!
