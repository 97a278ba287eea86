//! The queue discipline of a pool, as a sequential model.
//!
//! The threads themselves are not verified. What is proved here is what the
//! order of the queue alone guarantees, whichever worker takes each message:
//! the model lets any running worker take the oldest message, one at a time,
//! as the lock on the receiving end does. A turn of the model stands for one
//! call of [`crate::worker::WorkerLoop::step`], with a job that returns.
//!
//! [`crate::pool::ThreadPool::shutdown`] takes the pool by value, so no job is
//! queued after the first termination signal. The model has the same rule.
use vstd::prelude::*;
use vstd::set_lib::lemma_int_range;
use vstd::set_lib::lemma_subset_equality;
use vstd::set_lib::set_int_range;
use crate::job::Job;
use crate::message::Control;
use crate::message::Message;

verus! {

/// The messages that end a pool of `size` workers: one termination signal for
/// each worker, addressed to none of them in particular.
pub open spec fn teardown_signals(size: nat) -> Seq<Message> {
    Seq::new(size, |i: int| Message::Terminate)
}

/// The messages that carry `jobs` to the workers, in the order of the jobs.
pub open spec fn job_messages(jobs: Seq<Job>) -> Seq<Message> {
    Seq::new(jobs.len(), |i: int| Message::NewJob(jobs[i]))
}

/// What can happen to a pool.
pub enum Event {
    /// A job is queued.
    Submit(Job),
    /// The pool is shut down: the termination signals are queued.
    Shutdown,
    /// The worker of this number takes its turn.
    Turn(int),
}

/// A pool between two events.
pub struct PoolModel {
    /// The number of workers that the pool was created with.
    pub size: nat,
    /// The pool has not been shut down.
    pub open: bool,
    /// The jobs that were queued, oldest first.
    pub submitted: Seq<Job>,
    /// The messages in the queue, oldest first.
    pub pending: Seq<Message>,
    /// The numbers of the workers that have not taken a termination signal.
    pub running: Set<int>,
    /// The jobs that were taken from the queue and run, in the order in which
    /// they were taken.
    pub ran: Seq<Job>,
}

impl PoolModel {
    /// A pool of `size` workers as it is created: every worker is running, and
    /// the queue is empty.
    pub open spec fn created(size: nat) -> PoolModel {
        PoolModel {
            size,
            open: true,
            submitted: Seq::empty(),
            pending: Seq::empty(),
            running: set_int_range(0, size as int),
            ran: Seq::empty(),
        }
    }

    /// `job` is queued behind the messages that wait. A pool that was shut down
    /// is gone and queues nothing.
    pub open spec fn submit(self, job: Job) -> PoolModel {
        if self.open {
            PoolModel {
                submitted: self.submitted.push(job),
                pending: self.pending.push(Message::NewJob(job)),
                ..self
            }
        } else {
            self
        }
    }

    /// The pool is shut down: one termination signal for each of its workers
    /// is queued behind the messages that wait. This happens once.
    pub open spec fn shut_down(self) -> PoolModel {
        if self.open {
            PoolModel {
                open: false,
                pending: self.pending + teardown_signals(self.size),
                ..self
            }
        } else {
            self
        }
    }

    /// One turn of `worker`. A worker that has stopped does nothing, and a
    /// running worker that finds the queue empty waits. Otherwise the worker
    /// takes the oldest message: it runs the job, or it stops on a
    /// termination signal.
    pub open spec fn serve(self, worker: int) -> PoolModel {
        if self.running.contains(worker) && self.pending.len() > 0 {
            let message = self.pending.first();
            PoolModel {
                pending: self.pending.drop_first(),
                running: if message.control() == Control::Stop {
                    self.running.remove(worker)
                } else {
                    self.running
                },
                ran: if let Message::NewJob(job) = message {
                    self.ran.push(job)
                } else {
                    self.ran
                },
                ..self
            }
        } else {
            self
        }
    }

    /// The pool after `event`.
    pub open spec fn apply(self, event: Event) -> PoolModel {
        match event {
            Event::Submit(job) => self.submit(job),
            Event::Shutdown => self.shut_down(),
            Event::Turn(worker) => self.serve(worker),
        }
    }

    /// The pool after `events`, oldest first.
    pub open spec fn after(self, events: Seq<Event>) -> PoolModel
        decreases events.len(),
    {
        if events.len() == 0 {
            self
        } else {
            self.after(events.drop_last()).apply(events.last())
        }
    }

    /// What holds of a pool at every moment of its life. The jobs run so far
    /// are the oldest of the queued ones, and the others wait in the queue in
    /// their order. Until the pool is shut down every worker runs; from then on
    /// the queue ends with one termination signal for each running worker, and
    /// no worker has stopped while a job was waiting.
    pub open spec fn orderly(self) -> bool {
        let waiting = job_messages(self.submitted.skip(self.ran.len() as int));
        &&& self.ran.len() <= self.submitted.len()
        &&& self.ran == self.submitted.take(self.ran.len() as int)
        &&& self.running.finite()
        &&& self.running.len() <= self.size
        &&& forall|worker: int| self.running.contains(worker) ==> 0 <= worker < self.size
        &&& if self.open {
            &&& self.running.len() == self.size
            &&& self.pending == waiting
        } else {
            &&& self.running.len() < self.size ==> self.ran.len() == self.submitted.len()
            &&& self.pending == waiting + teardown_signals(self.running.len())
        }
    }
}

proof fn lemma_created_is_orderly(size: nat)
    ensures
        PoolModel::created(size).orderly(),
{
    let pool = PoolModel::created(size);
    lemma_int_range(0, size as int);
    assert(pool.ran =~= pool.submitted.take(0));
    assert(pool.pending =~= job_messages(pool.submitted.skip(0)));
}

proof fn lemma_submit_keeps_orderly(pool: PoolModel, job: Job)
    requires
        pool.orderly(),
    ensures
        pool.submit(job).orderly(),
{
    if pool.open {
        let next = pool.submit(job);
        let done = pool.ran.len() as int;
        assert(next.ran =~= next.submitted.take(done));
        assert(next.pending =~= job_messages(next.submitted.skip(done)));
    }
}

proof fn lemma_shut_down_keeps_orderly(pool: PoolModel)
    requires
        pool.orderly(),
    ensures
        pool.shut_down().orderly(),
{
}

proof fn lemma_serve_keeps_orderly(pool: PoolModel, worker: int)
    requires
        pool.orderly(),
    ensures
        pool.serve(worker).orderly(),
{
    if pool.running.contains(worker) && pool.pending.len() > 0 {
        let next = pool.serve(worker);
        let done = pool.ran.len() as int;
        let waiting = job_messages(pool.submitted.skip(done));
        if done < pool.submitted.len() {
            assert(pool.pending.first() == waiting[0]);
            assert(pool.pending.first() == Message::NewJob(pool.submitted[done]));
            assert(next.ran =~= pool.submitted.take(done + 1));
            if pool.open {
                assert(next.pending =~= job_messages(pool.submitted.skip(done + 1)));
            } else {
                assert(next.pending =~= job_messages(pool.submitted.skip(done + 1))
                    + teardown_signals(pool.running.len()));
            }
        } else {
            assert(waiting.len() == 0);
            assert(!pool.open);
            assert(pool.pending.first() == teardown_signals(pool.running.len())[0]);
            assert(next.pending =~= job_messages(pool.submitted.skip(done)) + teardown_signals(
                next.running.len(),
            ));
        }
    }
}

proof fn lemma_after_is_orderly(size: nat, events: Seq<Event>)
    ensures
        PoolModel::created(size).after(events).orderly(),
        PoolModel::created(size).after(events).size == size,
    decreases events.len(),
{
    if events.len() == 0 {
        lemma_created_is_orderly(size);
    } else {
        lemma_after_is_orderly(size, events.drop_last());
        let before = PoolModel::created(size).after(events.drop_last());
        match events.last() {
            Event::Submit(job) => lemma_submit_keeps_orderly(before, job),
            Event::Shutdown => lemma_shut_down_keeps_orderly(before),
            Event::Turn(worker) => lemma_serve_keeps_orderly(before, worker),
        }
    }
}

/// Whatever happens to a pool, in whatever order, the jobs that have been run
/// are the oldest of the queued jobs, each once and in the order in which they
/// were queued: no job is run twice, and none is run before an older one was
/// taken.
pub proof fn lemma_jobs_run_once_in_order(size: nat, events: Seq<Event>)
    ensures
        ({
            let pool = PoolModel::created(size).after(events);
            &&& pool.ran.len() <= pool.submitted.len()
            &&& forall|i: int| 0 <= i < pool.ran.len() ==> pool.ran[i] == pool.submitted[i]
        }),
{
    lemma_after_is_orderly(size, events);
}

/// Until a pool is shut down, all of its workers run: none stops before the
/// first termination signal is queued.
pub proof fn lemma_workers_run_until_shutdown(size: nat, events: Seq<Event>)
    requires
        PoolModel::created(size).after(events).open,
    ensures
        PoolModel::created(size).after(events).running == set_int_range(0, size as int),
{
    lemma_after_is_orderly(size, events);
    lemma_int_range(0, size as int);
    lemma_subset_equality(
        PoolModel::created(size).after(events).running,
        set_int_range(0, size as int),
    );
}

/// Shutdown drains the queue. Whatever the order of events, once every worker
/// of a pool has stopped, the pool was shut down, every job that was queued
/// has been run exactly once, and the queue is empty: each worker took exactly
/// one of the termination signals.
pub proof fn lemma_shutdown_drains(size: nat, events: Seq<Event>)
    requires
        size > 0,
        PoolModel::created(size).after(events).running.is_empty(),
    ensures
        !PoolModel::created(size).after(events).open,
        PoolModel::created(size).after(events).ran == PoolModel::created(size).after(
            events,
        ).submitted,
        PoolModel::created(size).after(events).pending.len() == 0,
{
    lemma_after_is_orderly(size, events);
    let end = PoolModel::created(size).after(events);
    assert(end.running.len() == 0);
    assert(end.ran =~= end.submitted);
}

/// No worker is left waiting for a signal that never comes. Once a pool is
/// shut down, the queue holds at least one message for each running worker, so
/// a running worker's turn always takes a message, and when the queue is empty
/// every worker has stopped.
pub proof fn lemma_signal_for_each_running_worker(size: nat, events: Seq<Event>)
    requires
        !PoolModel::created(size).after(events).open,
    ensures
        ({
            let pool = PoolModel::created(size).after(events);
            &&& pool.running.finite()
            &&& pool.running.len() <= pool.pending.len()
            &&& pool.pending.len() == 0 ==> pool.running.is_empty()
            &&& forall|worker: int| #[trigger]
                pool.running.contains(worker) ==> pool.serve(worker).pending.len() + 1
                    == pool.pending.len()
        }),
{
    lemma_after_is_orderly(size, events);
    let pool = PoolModel::created(size).after(events);
    if pool.pending.len() == 0 {
        assert(pool.running.len() == 0);
    }
}

} // verus!
