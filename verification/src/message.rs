//! The messages carried by the queue, and what a worker does with each.
use vstd::prelude::*;
use crate::job::Job;

verus! {

/// What travels on the queue from the pool to its workers.
pub enum Message {
    /// A job for whichever worker takes the message.
    NewJob(Job),
    /// The signal that ends the loop of the one worker that takes it.
    Terminate,
}

/// What a worker does after it has handled a message.
#[derive(Clone, Copy, Debug, PartialEq, Eq, Structural)]
pub enum Control {
    /// Go on and take the next message.
    Continue,
    /// Leave the loop: the worker's thread ends.
    Stop,
}

impl Message {
    /// How the worker that takes this message goes on: a job leaves it in its
    /// loop, a termination signal ends the loop.
    pub open spec fn control(&self) -> Control {
        match self {
            Message::NewJob(_) => Control::Continue,
            Message::Terminate => Control::Stop,
        }
    }

    /// Handles one message that a worker has taken from the queue: runs the job
    /// it carries, once, or reports the termination signal.
    pub fn dispatch(self) -> (control: Control)
        ensures
            control == self.control(),
            self matches Message::NewJob(job) ==> job.ran(),
    {
        match self {
            Message::NewJob(job) => {
                job.run();
                Control::Continue
            },
            Message::Terminate => Control::Stop,
        }
    }
}

} // verus!
