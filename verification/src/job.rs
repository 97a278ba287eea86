//! Jobs: single-use units of work that a worker runs on its own thread.
use vstd::prelude::*;

verus! {

/// A callable that can be run once from inside a box, whatever its concrete
/// type. A job holds one as a trait object.
pub trait FnBox: Send {
    /// The callable may be invoked.
    spec fn callable(&self) -> bool;

    /// The callable was invoked and has returned.
    spec fn returned(&self) -> bool;

    /// Invokes the callable, consuming it.
    fn call_box(self: Box<Self>)
        requires
            self.callable(),
        ensures
            self.returned(),
    ;
}

impl<F: FnOnce() + Send> FnBox for F {
    open spec fn callable(&self) -> bool {
        call_requires(*self, ())
    }

    open spec fn returned(&self) -> bool {
        call_ensures(*self, (), ())
    }

    fn call_box(self: Box<F>) {
        (*self)()
    }
}

/// A unit of work: a boxed callable that is moved to a worker and run there
/// exactly once. It takes no argument and gives nothing back.
pub struct Job {
    task: Box<dyn FnBox>,
}

impl Job {
    /// Every job can be run: its callable's precondition holds.
    #[verifier::type_invariant]
    spec fn runnable(&self) -> bool {
        self.task.callable()
    }

    /// The job's callable was invoked and has returned.
    pub closed spec fn ran(&self) -> bool {
        self.task.returned()
    }

    /// Boxes `f` as a job. The job has run when `f` has returned.
    pub fn new<F>(f: F) -> (job: Job)
        where
            F: FnOnce() + Send + 'static,
        requires
            call_requires(f, ()),
        ensures
            job.ran() <==> call_ensures(f, (), ()),
    {
        Job { task: Box::new(f) }
    }

    /// Runs the job. Taking the job by value, this is its only run.
    pub fn run(self)
        ensures
            self.ran(),
    {
        proof {
            use_type_invariant(&self);
        }
        self.task.call_box();
    }
}

} // verus!
