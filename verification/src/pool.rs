//! The pool: a fixed set of workers and the sending end of their queue.
use vstd::prelude::*;
use std::sync::mpsc::SendError;
use std::sync::mpsc::Sender;
use crate::error::ThreadPoolError;
use crate::job::Job;
use crate::message::Message;
use crate::protocol::teardown_signals;
use crate::queue::open_queue;
use crate::queue::enqueue;
use crate::queue::reports;
use crate::queue::SharedReceiver;
use crate::worker::Worker;
use crate::worker::WorkerLoop;

verus! {

/// A pool of workers that run the jobs handed to [`ThreadPool::execute`].
///
/// The number of workers is fixed when the pool is created. `H` is the type of
/// the handle by which a worker's thread is joined; the pool stores the
/// handles and gives them back from [`ThreadPool::shutdown`].
pub struct ThreadPool<H> {
    workers: Vec<Worker<H>>,
    sender: Sender<Message>,
}

impl<H> View for ThreadPool<H> {
    type V = Seq<Worker<H>>;

    /// The pool's workers, in the order in which they were started.
    closed spec fn view(&self) -> Seq<Worker<H>> {
        self.workers@
    }
}

impl<H> ThreadPool<H> {
    /// A pool is never empty, its workers are numbered from 0 in order, and
    /// each still holds the handle of its thread.
    #[verifier::type_invariant]
    spec fn well_formed(&self) -> bool {
        &&& self.workers@.len() > 0
        &&& forall|i: int|
            0 <= i < self.workers@.len() ==> {
                &&& (#[trigger] self.workers@[i]).spec_id() == i
                &&& self.workers@[i].thread() is Some
            }
    }

    /// Worker `i` of the pool has number `i`, and the handle it holds is what
    /// `spawn` returned for its loop on `queue`; so for every worker.
    pub open spec fn staffed_by<S: Fn(WorkerLoop) -> H>(
        &self,
        spawn: &S,
        queue: SharedReceiver,
    ) -> bool {
        forall|i: int|
            0 <= i < self@.len() ==> {
                &&& (#[trigger] self@[i]).spec_id() == i
                &&& self@[i].started_by(spawn, queue)
            }
    }

    /// Creates a pool of `size` workers. A pool of no workers is refused with
    /// `SizeLteZero`, and then nothing is created. Otherwise a queue is
    /// created, and `spawn` is called once for each worker, in order, with the
    /// worker's loop on that one queue; it starts the thread that runs the loop
    /// and returns the thread's handle.
    pub fn new<S>(size: usize, spawn: S) -> (created: Result<ThreadPool<H>, ThreadPoolError>)
        where
            S: Fn(WorkerLoop) -> H,
        requires
            forall|task: WorkerLoop|
                task.spec_id() < size && !task.spec_is_stopped() ==> call_requires(spawn, (task,)),
        ensures
            match created {
                Ok(pool) => {
                    &&& size > 0
                    &&& pool@.len() == size
                    &&& exists|queue: SharedReceiver| #[trigger] pool.staffed_by(&spawn, queue)
                },
                Err(error) => size == 0 && error is SizeLteZero,
            },
    {
        if size == 0 {
            return Err(ThreadPoolError::SizeLteZero);
        }
        let (sender, receiver) = open_queue();
        let mut workers: Vec<Worker<H>> = Vec::new();
        let mut id: usize = 0;
        while id < size
            invariant
                id <= size,
                workers@.len() == id,
                forall|task: WorkerLoop|
                    task.spec_id() < size && !task.spec_is_stopped() ==> call_requires(
                        spawn,
                        (task,),
                    ),
                forall|i: int|
                    0 <= i < id ==> {
                        &&& (#[trigger] workers@[i]).spec_id() == i
                        &&& workers@[i].started_by(&spawn, receiver)
                    },
            decreases size - id,
        {
            let worker = Worker::new(id, receiver.clone(), &spawn);
            workers.push(worker);
            id += 1;
        }
        let pool = ThreadPool { workers, sender };
        assert(pool.staffed_by(&spawn, receiver));
        Ok(pool)
    }

    /// The number of workers, which never changes.
    pub fn size(&self) -> (size: usize)
        ensures
            size == self@.len(),
            size > 0,
    {
        proof {
            use_type_invariant(self);
        }
        self.workers.len()
    }

    /// Queues `f` as a job for whichever worker takes it first, and returns
    /// without waiting for a worker. `Ok` means that the job is in the queue,
    /// not that it has run. The queue refuses the job only when every worker's
    /// handle to it is gone. The result is the [`report`](crate::queue::report)
    /// of the channel's answer to the send: `Ok`, or a `Failure` whose text is
    /// `"Failure: "` followed by the channel's description of the refusal.
    pub fn execute<F>(&self, f: F) -> (queued: Result<(), ThreadPoolError>)
        where
            F: FnOnce() + Send + 'static,
        requires
            call_requires(f, ()),
        ensures
            exists|answer: Result<(), SendError<Message>>| #[trigger] reports(answer, queued),
            queued matches Err(error) ==> error.is_refusal(),
    {
        enqueue(&self.sender, Message::NewJob(Job::new(f)))
    }

    /// The messages that [`ThreadPool::shutdown`] queues: one termination
    /// signal for each worker.
    pub fn termination_signals(&self) -> (signals: Vec<Message>)
        ensures
            signals@ == teardown_signals(self@.len()),
    {
        let mut signals: Vec<Message> = Vec::new();
        let mut count: usize = 0;
        while count < self.workers.len()
            invariant
                count <= self.workers@.len(),
                signals@ == teardown_signals(count as nat),
            decreases self.workers@.len() - count,
        {
            signals.push(Message::Terminate);
            count += 1;
        }
        signals
    }

    /// Ends the pool. Queues the [`ThreadPool::termination_signals`], behind
    /// every job queued before, and then takes the handle of every worker's
    /// thread out of the pool, in the workers' order, for the caller to join.
    /// If the queue refuses a signal, no handle is taken and the refusal is
    /// returned.
    pub fn shutdown(self) -> (threads: Result<Vec<H>, ThreadPoolError>)
        ensures
            threads matches Ok(handles) ==> {
                &&& handles@.len() == self@.len()
                &&& forall|i: int|
                    0 <= i < self@.len() ==> (#[trigger] self@[i]).thread() == Some(handles@[i])
            },
            threads matches Err(error) ==> error.is_refusal(),
    {
        proof {
            use_type_invariant(&self);
        }
        let signals = self.termination_signals();
        for signal in signals {
            match enqueue(&self.sender, signal) {
                Ok(()) => {},
                Err(error) => {
                    return Err(error);
                },
            }
        }
        let mut workers = self.workers;
        let mut handles: Vec<H> = Vec::new();
        let mut next: usize = 0;
        while next < workers.len()
            invariant
                next <= workers@.len(),
                workers@.len() == self@.len(),
                handles@.len() == next,
                forall|i: int| 0 <= i < next ==> (#[trigger] self@[i]).thread() == Some(handles@[i]),
                forall|i: int| next <= i < workers@.len() ==> workers@[i] == self@[i],
                forall|i: int| 0 <= i < self@.len() ==> (#[trigger] self@[i]).thread() is Some,
            decreases workers@.len() - next,
        {
            match workers[next].take_thread() {
                Some(thread) => {
                    handles.push(thread);
                },
                None => {},
            }
            next += 1;
        }
        Ok(handles)
    }
}

} // verus!
