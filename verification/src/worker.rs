//! Workers: the loop that each worker's thread runs, and the record that the
//! pool keeps of each worker.
use vstd::prelude::*;
use crate::message::Control;
use crate::queue::SharedReceiver;

verus! {

/// The state of one worker's loop, owned by the worker's thread: the worker's
/// number, its handle to the queue, and whether it has been told to stop.
///
/// The thread calls [`WorkerLoop::step`] until it returns `Stop`.
pub struct WorkerLoop {
    id: usize,
    receiver: SharedReceiver,
    stopped: bool,
}

impl WorkerLoop {
    /// The worker's number.
    pub closed spec fn spec_id(&self) -> usize {
        self.id
    }

    /// The queue that the worker takes its messages from.
    pub closed spec fn queue(&self) -> SharedReceiver {
        self.receiver
    }

    /// The worker has taken a termination signal.
    pub closed spec fn spec_is_stopped(&self) -> bool {
        self.stopped
    }

    /// The loop of worker `id` on `queue`, before its first step.
    pub open spec fn fresh(&self, id: usize, queue: SharedReceiver) -> bool {
        &&& self.spec_id() == id
        &&& self.queue() == queue
        &&& !self.spec_is_stopped()
    }

    /// The loop state of worker `id`, which takes its messages from `receiver`.
    pub(crate) fn new(id: usize, receiver: SharedReceiver) -> (worker: WorkerLoop)
        ensures
            worker.fresh(id, receiver),
    {
        WorkerLoop { id, receiver, stopped: false }
    }

    /// The worker's number.
    #[verifier::when_used_as_spec(spec_id)]
    pub fn id(&self) -> (id: usize)
        ensures
            id == self.spec_id(),
    {
        self.id
    }

    /// Whether the worker has taken a termination signal.
    #[verifier::when_used_as_spec(spec_is_stopped)]
    pub fn is_stopped(&self) -> (stopped: bool)
        ensures
            stopped == self.spec_is_stopped(),
    {
        self.stopped
    }

    /// One turn of the worker's loop. A stopped worker takes nothing from the
    /// queue and reports `Stop` again. A running worker takes the next message,
    /// waiting for one if need be, frees the lock and then handles the message:
    /// it runs a job and stays in the loop, or it stops on a termination
    /// signal. `None` means that no message could be taken; the worker is then
    /// left as it was.
    pub fn step(&mut self) -> (control: Option<Control>)
        ensures
            final(self).spec_id() == old(self).spec_id(),
            final(self).queue() == old(self).queue(),
            old(self).spec_is_stopped() ==> control == Some(Control::Stop),
            final(self).spec_is_stopped() <==> control == Some(Control::Stop),
    {
        if self.stopped {
            return Some(Control::Stop);
        }
        match self.receiver.receive() {
            Some(message) => {
                let control = message.dispatch();
                match control {
                    Control::Stop => {
                        self.stopped = true;
                    },
                    Control::Continue => {},
                }
                Some(control)
            },
            None => None,
        }
    }
}

/// The pool's record of one worker: its number, and the handle of its thread
/// until that handle is taken out to be joined.
pub struct Worker<H> {
    id: usize,
    thread: Option<H>,
}

impl<H> Worker<H> {
    /// The worker's number.
    pub closed spec fn spec_id(&self) -> usize {
        self.id
    }

    /// The handle of the worker's thread, or `None` once it was taken out.
    pub closed spec fn thread(&self) -> Option<H> {
        self.thread
    }

    /// Starts worker `id` on the queue behind `receiver`: prepares the worker's
    /// loop, has `spawn` start a thread for it, and keeps the handle that
    /// `spawn` returns.
    pub(crate) fn new<S>(id: usize, receiver: SharedReceiver, spawn: &S) -> (worker: Worker<H>)
        where
            S: Fn(WorkerLoop) -> H,
        requires
            forall|task: WorkerLoop| task.fresh(id, receiver) ==> call_requires(*spawn, (task,)),
        ensures
            worker.spec_id() == id,
            worker.started_by(spawn, receiver),
    {
        let task = WorkerLoop::new(id, receiver);
        let thread = spawn(task);
        Worker { id, thread: Some(thread) }
    }

    /// The worker still holds the handle of its thread, and that handle is what
    /// `spawn` returned for the worker's loop on `queue`.
    pub open spec fn started_by<S: Fn(WorkerLoop) -> H>(
        &self,
        spawn: &S,
        queue: SharedReceiver,
    ) -> bool {
        self.thread() matches Some(thread) && exists|task: WorkerLoop|
            #![trigger task.fresh(self.spec_id(), queue)]
            task.fresh(self.spec_id(), queue) && call_ensures(*spawn, (task,), thread)
    }

    /// Takes the handle of the worker's thread out of the record, leaving
    /// `None`: a handle can be taken, and so joined, once.
    pub(crate) fn take_thread(&mut self) -> (thread: Option<H>)
        ensures
            thread == old(self).thread(),
            final(self).thread() is None,
            final(self).spec_id() == old(self).spec_id(),
    {
        self.thread.take()
    }
}

} // verus!
