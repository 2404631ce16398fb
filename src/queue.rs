use std::collections::VecDeque;
use vstd::prelude::*;

use crate::error::PoolError;

verus! {

/// What a request for the next job hands back.
#[derive(Debug)]
pub enum Dequeued<J> {
    /// The oldest job that was waiting; it is now the caller's.
    Job(J),
    /// Nothing is waiting and the queue is still open: wait, then ask again.
    Empty,
    /// The queue is closed and drained: nothing will ever be delivered again.
    Closed,
}

/// The abstract state of a job queue.
///
/// Besides what is waiting and whether the queue is closed, it records every
/// job ever accepted and every job ever handed out, in order.
pub struct QueueView<J> {
    pub pending: Seq<J>,
    pub closed: bool,
    pub enqueued: Seq<J>,
    pub delivered: Seq<J>,
}

impl<J> QueueView<J> {
    /// Every accepted job has either been handed out exactly once, or is still
    /// waiting, and the two parts keep the order of acceptance.
    pub open spec fn wf(self) -> bool {
        self.enqueued == self.delivered + self.pending
    }

    pub open spec fn initial() -> QueueView<J> {
        QueueView {
            pending: Seq::empty(),
            closed: false,
            enqueued: Seq::empty(),
            delivered: Seq::empty(),
        }
    }

    pub open spec fn enqueue_result(self) -> Result<(), PoolError> {
        if self.closed {
            Err(PoolError::Closed)
        } else {
            Ok(())
        }
    }

    pub open spec fn after_enqueue(self, job: J) -> QueueView<J> {
        if self.closed {
            self
        } else {
            QueueView {
                pending: self.pending.push(job),
                enqueued: self.enqueued.push(job),
                ..self
            }
        }
    }

    pub open spec fn dequeue_result(self) -> Dequeued<J> {
        if self.pending.len() > 0 {
            Dequeued::Job(self.pending[0])
        } else if self.closed {
            Dequeued::Closed
        } else {
            Dequeued::Empty
        }
    }

    pub open spec fn after_dequeue(self) -> QueueView<J> {
        if self.pending.len() > 0 {
            QueueView {
                pending: self.pending.drop_first(),
                delivered: self.delivered.push(self.pending[0]),
                ..self
            }
        } else {
            self
        }
    }

    pub open spec fn after_close(self) -> QueueView<J> {
        QueueView { closed: true, ..self }
    }
}

/// A first-in, first-out queue of jobs that can be closed.
///
/// Closing stops new jobs from coming in; jobs already waiting are still
/// handed out, after which every request is told that the queue is closed.
pub struct JobQueue<J> {
    items: VecDeque<J>,
    closed: bool,
    enqueued: Ghost<Seq<J>>,
    delivered: Ghost<Seq<J>>,
}

impl<J> View for JobQueue<J> {
    type V = QueueView<J>;

    closed spec fn view(&self) -> QueueView<J> {
        QueueView {
            pending: self.items@,
            closed: self.closed,
            enqueued: self.enqueued@,
            delivered: self.delivered@,
        }
    }
}

impl<J> JobQueue<J> {
    pub open spec fn wf(&self) -> bool {
        self@.wf()
    }

    /// An open queue with nothing in it.
    pub fn new() -> (q: JobQueue<J>)
        ensures
            q.wf(),
            q@ == QueueView::<J>::initial(),
    {
        JobQueue {
            items: VecDeque::new(),
            closed: false,
            enqueued: Ghost(Seq::empty()),
            delivered: Ghost(Seq::empty()),
        }
    }

    /// Appends `job` at the back, unless the queue is closed, in which case
    /// the job is refused with `Closed` and the queue is left as it was.
    pub fn enqueue(&mut self, job: J) -> (r: Result<(), PoolError>)
        requires
            old(self).wf(),
        ensures
            final(self).wf(),
            r == old(self)@.enqueue_result(),
            final(self)@ == old(self)@.after_enqueue(job),
    {
        if self.closed {
            Err(PoolError::Closed)
        } else {
            let ghost before = self@;
            self.enqueued = Ghost(self.enqueued@.push(job));
            self.items.push_back(job);
            assert(self@.enqueued =~= self@.delivered + self@.pending);
            assert(self@ == before.after_enqueue(job));
            Ok(())
        }
    }

    /// Takes the job at the front. With nothing waiting, says whether to wait
    /// (`Empty`, the queue is open) or to give up (`Closed`).
    pub fn dequeue(&mut self) -> (r: Dequeued<J>)
        requires
            old(self).wf(),
        ensures
            final(self).wf(),
            r == old(self)@.dequeue_result(),
            final(self)@ == old(self)@.after_dequeue(),
    {
        let ghost before = self@;
        match self.items.pop_front() {
            Some(job) => {
                self.delivered = Ghost(self.delivered@.push(job));
                assert(self@.enqueued =~= self@.delivered + self@.pending);
                assert(self@ == before.after_dequeue());
                Dequeued::Job(job)
            },
            None => {
                if self.closed {
                    Dequeued::Closed
                } else {
                    Dequeued::Empty
                }
            },
        }
    }

    /// Closes the queue. What is waiting stays there, to be handed out.
    pub fn close(&mut self)
        requires
            old(self).wf(),
        ensures
            final(self).wf(),
            final(self)@ == old(self)@.after_close(),
    {
        self.closed = true;
    }

    pub fn is_closed(&self) -> (r: bool)
        ensures
            r == self@.closed,
    {
        self.closed
    }

    /// How many jobs are waiting.
    pub fn len(&self) -> (r: usize)
        ensures
            r == self@.pending.len(),
    {
        self.items.len()
    }
}

} // verus!
