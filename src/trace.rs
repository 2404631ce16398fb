//! Runs of a pool: sequences of events, and what holds of every run however
//! submissions, requests for work and shutdown interleave.
use vstd::prelude::*;

use crate::error::PoolError;
use crate::pool::{Event, JobOutcome, PoolView, Step, WorkerState};

verus! {

/// The state reached from `p` by applying `events` in order.
pub open spec fn run<J>(p: PoolView<J>, events: Seq<Event<J>>) -> PoolView<J>
    decreases events.len(),
{
    if events.len() == 0 {
        p
    } else {
        run(p.apply(events[0]), events.drop_first())
    }
}

/// Each event of `events` can happen in the state in which it comes.
pub open spec fn valid_run<J>(p: PoolView<J>, events: Seq<Event<J>>) -> bool
    decreases events.len(),
{
    events.len() == 0 || (p.enabled(events[0]) && valid_run(p.apply(events[0]), events.drop_first()))
}

/// The jobs that the pool accepts along `events`, in the order of submission.
pub open spec fn accepted<J>(p: PoolView<J>, events: Seq<Event<J>>) -> Seq<J>
    decreases events.len(),
{
    if events.len() == 0 {
        Seq::empty()
    } else {
        let rest = accepted(p.apply(events[0]), events.drop_first());
        match events[0] {
            Event::Submit(job) => if p.queue.closed {
                rest
            } else {
                seq![job] + rest
            },
            _ => rest,
        }
    }
}

/// `e` is worker `w` reporting back from its job.
pub open spec fn is_report_of<J>(e: Event<J>, w: nat) -> bool {
    e matches Event::Done(v, _) && v == w
}

/// Some event of `events` is worker `w` reporting back from its job.
pub open spec fn reports_back<J>(events: Seq<Event<J>>, w: nat) -> bool {
    exists|i: int| 0 <= i < events.len() && is_report_of(#[trigger] events[i], w)
}

/// Every event that can happen keeps a pool well formed.
pub proof fn lemma_apply_keeps_wf<J>(p: PoolView<J>, e: Event<J>)
    requires
        p.wf(),
        p.enabled(e),
    ensures
        p.apply(e).wf(),
        p.apply(e).workers.len() == p.workers.len(),
        p.queue.closed ==> p.apply(e).queue.closed,
{
    let q = p.apply(e);
    match e {
        Event::Submit(job) => {
            assert(q.queue.enqueued =~= q.queue.delivered + q.queue.pending);
        },
        Event::Next(w) => {
            if p.queue.pending.len() > 0 {
                assert(q.queue.enqueued =~= q.queue.delivered + q.queue.pending);
            }
            assert forall|i: int|
                0 <= i < q.workers.len() && #[trigger] q.workers[i] == WorkerState::Stopped
                implies q.queue.closed && q.queue.pending.len() == 0 by {
                if i != w {
                    assert(p.workers[i] == WorkerState::Stopped);
                }
            }
        },
        Event::Done(w, _) => {
            assert forall|i: int|
                0 <= i < q.workers.len() && #[trigger] q.workers[i] == WorkerState::Stopped
                implies q.queue.closed && q.queue.pending.len() == 0 by {
                assert(p.workers[i] == WorkerState::Stopped);
            }
        },
        Event::Shutdown => {},
    }
}

/// Along a run, the pool stays well formed, keeps its workers, and its record
/// of accepted jobs grows by exactly the jobs accepted along the way.
pub proof fn lemma_run_records_accepted<J>(p: PoolView<J>, events: Seq<Event<J>>)
    requires
        p.wf(),
        valid_run(p, events),
    ensures
        run(p, events).wf(),
        run(p, events).workers.len() == p.workers.len(),
        run(p, events).queue.enqueued == p.queue.enqueued + accepted(p, events),
        p.queue.closed ==> run(p, events).queue.closed,
    decreases events.len(),
{
    if events.len() == 0 {
        assert(p.queue.enqueued + accepted(p, events) =~= p.queue.enqueued);
    } else {
        let q = p.apply(events[0]);
        let rest = events.drop_first();
        lemma_apply_keeps_wf(p, events[0]);
        lemma_run_records_accepted(q, rest);
        match events[0] {
            Event::Submit(job) => {
                if !p.queue.closed {
                    assert(q.queue.enqueued + accepted(q, rest) =~= p.queue.enqueued + (seq![job]
                        + accepted(q, rest)));
                }
            },
            _ => {},
        }
    }
}

/// However submissions and requests for work interleave, once every worker of
/// a fresh pool has stopped, the jobs handed out to workers are exactly the
/// jobs the pool accepted: each one once, none lost, none twice, in the order
/// of submission.
pub proof fn lemma_every_accepted_job_runs_once<J>(size: nat, events: Seq<Event<J>>)
    requires
        size > 0,
        valid_run(PoolView::<J>::initial(size), events),
        run(PoolView::<J>::initial(size), events).terminated(),
    ensures
        run(PoolView::<J>::initial(size), events).queue.delivered
            == accepted(PoolView::<J>::initial(size), events),
{
    let p = PoolView::<J>::initial(size);
    let q = run(p, events);
    lemma_run_records_accepted(p, events);
    assert(q.workers[0] == WorkerState::Stopped);
    assert(q.queue.delivered =~= q.queue.enqueued);
    assert(p.queue.enqueued + accepted(p, events) =~= accepted(p, events));
}

/// Once shutdown has begun, a submission is refused with `Closed` and changes
/// nothing; along any later run no job is accepted, so every job handed out
/// from then on was submitted before shutdown.
pub proof fn lemma_nothing_accepted_after_shutdown<J>(p: PoolView<J>, events: Seq<Event<J>>)
    requires
        p.wf(),
        p.queue.closed,
        valid_run(p, events),
    ensures
        forall|job: J| #[trigger] p.after_submit(job) == p,
        p.submit_result() == Err::<(), PoolError>(PoolError::Closed),
        accepted(p, events) == Seq::<J>::empty(),
        run(p, events).queue.enqueued == p.queue.enqueued,
        run(p, events).queue.delivered == p.queue.enqueued.take(
            run(p, events).queue.delivered.len() as int,
        ),
    decreases events.len(),
{
    lemma_run_records_accepted(p, events);
    if events.len() > 0 {
        lemma_apply_keeps_wf(p, events[0]);
        lemma_nothing_accepted_after_shutdown(p.apply(events[0]), events.drop_first());
    }
    assert(p.queue.enqueued + accepted(p, events) =~= p.queue.enqueued);
    let q = run(p, events);
    assert(q.queue.delivered =~= q.queue.enqueued.take(q.queue.delivered.len() as int));
}

/// A job that fails leaves the pool exactly as one that completes: its worker
/// is idle again and, if a job is waiting, the next request is handed it.
pub proof fn lemma_failed_job_is_contained<J>(p: PoolView<J>, w: nat)
    requires
        p.wf(),
        w < p.workers.len(),
        p.workers[w as int] == WorkerState::Busy,
    ensures
        p.apply(Event::Done(w, JobOutcome::Failed)) == p.apply(Event::Done(w, JobOutcome::Completed)),
        p.apply(Event::Done(w, JobOutcome::Failed)).wf(),
        p.apply(Event::Done(w, JobOutcome::Failed)).workers[w as int] == WorkerState::Idle,
        p.apply(Event::Done(w, JobOutcome::Failed)).queue == p.queue,
        p.queue.pending.len() > 0 ==> p.apply(Event::Done(w, JobOutcome::Failed)).next_result()
            == Step::Run(p.queue.pending[0]),
{
    lemma_apply_keeps_wf(p, Event::Done(w, JobOutcome::Failed));
}

/// A worker running a job stays busy, and the pool does not finish shutting
/// down, until that worker reports back, whatever else happens meanwhile.
pub proof fn lemma_shutdown_waits_for_running_job<J>(p: PoolView<J>, w: nat, events: Seq<Event<J>>)
    requires
        p.wf(),
        w < p.workers.len(),
        p.workers[w as int] == WorkerState::Busy,
        valid_run(p, events),
        !reports_back(events, w),
    ensures
        run(p, events).workers[w as int] == WorkerState::Busy,
        !run(p, events).terminated(),
    decreases events.len(),
{
    if events.len() > 0 {
        let q = p.apply(events[0]);
        let rest = events.drop_first();
        lemma_apply_keeps_wf(p, events[0]);
        assert(!is_report_of(events[0], w));
        assert(q.workers[w as int] == WorkerState::Busy);
        assert forall|i: int| 0 <= i < rest.len() implies !is_report_of(#[trigger] rest[i], w) by {
            assert(rest[i] == events[i + 1]);
        }
        lemma_shutdown_waits_for_running_job(q, w, rest);
    }
}

} // verus!
