//! A fixed-size pool of worker threads fed from one shared FIFO queue.
//!
//! The pool hands jobs to a queue; each worker repeatedly takes the next
//! message under a lock, releases the lock and runs the job, until it takes a
//! termination signal. Creating and joining operating-system threads is left
//! to the embedding program: the pool is generic in the thread handle and is
//! given a function that starts a thread for a prepared [`WorkerLoop`].
pub mod error;
pub mod job;
pub mod message;
pub mod pool;
pub mod protocol;
pub mod queue;
pub mod worker;

pub use error::ThreadPoolError;
pub use job::Job;
pub use message::Control;
pub use message::Message;
pub use pool::ThreadPool;
pub use queue::SharedReceiver;
pub use worker::Worker;
pub use worker::WorkerLoop;
