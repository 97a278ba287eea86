//! The queue between a pool and its workers: a channel of the standard
//! library whose receiving end is shared by all workers behind a lock.
//!
//! The channel and the lock are not verified. Each use of them goes through
//! one of the declarations of this file, and the comment above each says what
//! is taken on trust.
use vstd::prelude::*;
use vstd::string::to_string_from_display_ensures;
use std::sync::mpsc::Receiver;
use std::sync::mpsc::RecvError;
use std::sync::mpsc::SendError;
use std::sync::mpsc::Sender;
use std::sync::Arc;
use std::sync::LockResult;
use std::sync::Mutex;
use std::sync::MutexGuard;
use std::sync::PoisonError;
use crate::error::failure_text;
use crate::error::ThreadPoolError;
use crate::message::Message;

verus! {

/// `std::sync::mpsc::Sender`, the sending end of a channel. Opaque.
#[verifier::external_type_specification]
#[verifier::external_body]
#[verifier::reject_recursive_types(T)]
pub struct ExSender<T>(Sender<T>);

/// `std::sync::mpsc::Receiver`, the receiving end of a channel. Opaque.
#[verifier::external_type_specification]
#[verifier::external_body]
#[verifier::reject_recursive_types(T)]
pub struct ExReceiver<T>(Receiver<T>);

/// `std::sync::mpsc::SendError`, returned by a send on a channel whose
/// receiving end is gone. Opaque.
#[verifier::external_type_specification]
#[verifier::external_body]
#[verifier::reject_recursive_types(T)]
pub struct ExSendError<T>(SendError<T>);

/// `std::sync::mpsc::RecvError`, returned by a receive on an empty channel
/// whose sending ends are all gone. Opaque.
#[verifier::external_type_specification]
#[verifier::external_body]
pub struct ExRecvError(RecvError);

/// `std::sync::Mutex`. Opaque: nothing is said of the value it guards.
#[verifier::external_type_specification]
#[verifier::external_body]
#[verifier::reject_recursive_types(T)]
pub struct ExMutex<T: ?Sized>(Mutex<T>);

/// `std::sync::MutexGuard`, which holds a `Mutex` locked until it is dropped.
/// Opaque.
#[verifier::external_type_specification]
#[verifier::external_body]
#[verifier::reject_recursive_types(T)]
pub struct ExMutexGuard<'a, T: ?Sized + 'a>(MutexGuard<'a, T>);

/// `std::sync::PoisonError`, returned when a lock is taken after a thread
/// panicked while holding it. Opaque.
#[verifier::external_type_specification]
#[verifier::external_body]
#[verifier::reject_recursive_types(T)]
pub struct ExPoisonError<T>(PoisonError<T>);

/// `std::sync::mpsc::channel` creates a channel and returns its two ends.
/// Nothing is claimed of them.
pub assume_specification<T>[ std::sync::mpsc::channel::<T> ]() -> (ends: (Sender<T>, Receiver<T>));

/// `Sender::send` hands a value to the channel without waiting for a receiver,
/// or gives it back in an error when the receiving end is gone. Which of the
/// two happens depends on the other threads, so nothing is claimed of the
/// result.
pub assume_specification<T>[ Sender::<T>::send ](sender: &Sender<T>, t: T) -> (sent: Result<
    (),
    SendError<T>,
>);

/// `Mutex::new` puts a value behind a new, unlocked lock. Nothing is claimed of
/// the lock.
pub assume_specification<T>[ Mutex::<T>::new ](t: T) -> (lock: Mutex<T>);

/// Calls `Mutex::lock`, which waits until the lock is free and returns a guard,
/// or an error if the lock is poisoned. Nothing is claimed of the result.
/// `Mutex::lock` may panic when the calling thread already holds the lock; the
/// one caller, [`SharedReceiver::receive`], holds no guard when it calls and
/// gives the guard it gets away before it returns.
#[verifier::external_body]
fn acquire<'a>(lock: &'a Mutex<Receiver<Message>>) -> (guard: LockResult<
    MutexGuard<'a, Receiver<Message>>,
>) {
    lock.lock()
}

/// Calls `Receiver::recv` on the guarded receiving end, which waits for the
/// next message in sending order, or returns an error once the channel is empty
/// and every sending end is gone. The guard is dropped on return, which frees
/// the lock. Which message arrives depends on the other threads, so nothing is
/// claimed of the result.
#[verifier::external_body]
fn take_next(guard: MutexGuard<'_, Receiver<Message>>) -> (next: Result<Message, RecvError>) {
    guard.recv()
}

/// Calls `Arc::clone`, which returns another pointer to the same allocation:
/// the copy stands for the same lock as the pointer it was cloned from.
#[verifier::external_body]
fn same_lock(lock: &Arc<Mutex<Receiver<Message>>>) -> (copy: Arc<Mutex<Receiver<Message>>>)
    ensures
        copy == *lock,
{
    Arc::clone(lock)
}

/// The receiving end of a pool's queue, as each of its workers holds it: all
/// copies stand for the same queue, and a lock lets one worker at a time take
/// a message from it.
pub struct SharedReceiver {
    lock: Arc<Mutex<Receiver<Message>>>,
}

impl Clone for SharedReceiver {
    /// Another handle to the same queue.
    fn clone(&self) -> (copy: Self)
        ensures
            copy == *self,
    {
        SharedReceiver { lock: same_lock(&self.lock) }
    }
}

impl SharedReceiver {
    /// Takes the next message from the queue, waiting for the lock and then for
    /// a message. The lock is held for the receive step only and is free again
    /// when this returns. `None` means that no message can be taken: the lock
    /// is poisoned, or the queue is empty and its sending end is gone. Which
    /// message arrives, if any, depends on the other threads, so nothing is
    /// promised of the result.
    pub(crate) fn receive(&self) -> (next: Option<Message>) {
        match acquire(&self.lock) {
            Ok(guard) => match take_next(guard) {
                Ok(message) => Some(message),
                Err(_) => None,
            },
            Err(_) => None,
        }
    }
}

/// Creates a queue and returns its sending end and its shared receiving end.
/// Both are opaque, so nothing is promised of them.
pub(crate) fn open_queue() -> (ends: (Sender<Message>, SharedReceiver)) {
    let (sender, receiver) = std::sync::mpsc::channel();
    (sender, SharedReceiver { lock: Arc::new(Mutex::new(receiver)) })
}

/// `error` is what the pool reports for a send that the channel refused with
/// `refused`: a `Failure` whose text is [`failure_text`] of the description
/// that `refused` displays.
pub open spec fn reports_refusal(refused: SendError<Message>, error: ThreadPoolError) -> bool {
    error matches ThreadPoolError::Failure(text) && exists|description: String|
        {
            &&& #[trigger] to_string_from_display_ensures::<SendError<Message>>(
                &refused,
                description,
            )
            &&& text@ == failure_text(description@)
        }
}

/// `sent` is what the pool reports for the channel's `answer` to a send:
/// success for an accepted message, and for a refused one the refusal with the
/// channel's description of it.
pub open spec fn reports(
    answer: Result<(), SendError<Message>>,
    sent: Result<(), ThreadPoolError>,
) -> bool {
    match answer {
        Ok(()) => sent is Ok,
        Err(refused) => sent matches Err(error) && reports_refusal(refused, error),
    }
}

/// Turns the channel's answer to a send into the pool's: `Ok` stays `Ok`, and
/// a refusal becomes a `Failure` that carries the channel's description of it.
pub fn report(answer: Result<(), SendError<Message>>) -> (sent: Result<(), ThreadPoolError>)
    ensures
        reports(answer, sent),
        sent matches Err(error) ==> error.is_refusal(),
{
    match answer {
        Ok(()) => Ok(()),
        Err(refused) => {
            let description = refused.to_string();
            Err(ThreadPoolError::failure(description))
        },
    }
}

/// Hands `message` to the queue. It does not wait for a worker: the message is
/// buffered until one takes it. The queue refuses the message only when its
/// receiving end is gone. The result is the [`report`] of the channel's answer,
/// which depends on the other threads.
pub(crate) fn enqueue(sender: &Sender<Message>, message: Message) -> (sent: Result<
    (),
    ThreadPoolError,
>)
    ensures
        exists|answer: Result<(), SendError<Message>>| #[trigger] reports(answer, sent),
        sent matches Err(error) ==> error.is_refusal(),
{
    report(sender.send(message))
}

} // verus!
