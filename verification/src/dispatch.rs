//! The dispatch channel: a FIFO queue of messages from the pool to its
//! workers, built on the standard library's multi-producer single-consumer
//! channel. The channel itself is unverified; every item that touches it is
//! trusted and documented as such, and all decisions taken on what comes out
//! of it are made by verified code.

use vstd::prelude::*;

verus! {

/// A type-erased, single-invocation unit of work: a boxed `FnOnce` closure
/// together with whatever it captured. The pool never inspects a job's
/// internals; it only hands it to exactly one worker, which invokes it once.
/// The boxed trait object is beyond the verifier, so the whole struct is
/// opaque and its two operations below are trusted.
#[verifier::external_body]
pub struct Job {
    run: Box<dyn FnOnce() + Send + 'static>,
}

/// What travels on the dispatch channel: either a job to run, or the signal
/// that tells the receiving worker to exit its loop.
pub enum Message {
    RunJob(Job),
    Shutdown,
}

/// The sending half of the standard library's mpsc channel, opaque to the
/// verifier.
#[verifier::external_type_specification]
#[verifier::external_body]
#[verifier::reject_recursive_types(T)]
pub struct ExSender<T>(std::sync::mpsc::Sender<T>);

/// The receiving half of the standard library's mpsc channel, opaque to the
/// verifier.
#[verifier::external_type_specification]
#[verifier::external_body]
#[verifier::reject_recursive_types(T)]
pub struct ExReceiver<T>(std::sync::mpsc::Receiver<T>);

/// Relies on std::sync::mpsc::channel: returns the two endpoints of a fresh
/// unbounded FIFO queue. Every message sent on the first endpoint is delivered
/// to the second exactly once, in send order; nothing of that can be stated
/// here over these opaque endpoints, so all verified reasoning is over the
/// messages a worker actually receives.
#[verifier::external_body]
pub(crate) fn new_channel() -> (std::sync::mpsc::Sender<Message>, std::sync::mpsc::Receiver<Message>) {
    std::sync::mpsc::channel()
}

/// Relies on std::sync::mpsc::Sender::send: enqueues the message without
/// blocking. It fails only when every receiving handle is gone; the pool
/// prevents that by keeping one handle to the receiving endpoint alive for
/// its whole lifetime, and treats a failure as a fatal programming error: the
/// call panics.
#[verifier::external_body]
pub(crate) fn send_message(sender: &std::sync::mpsc::Sender<Message>, message: Message) {
    sender.send(message).unwrap();
}

/// The standard library's mutual-exclusion lock, opaque to the verifier.
#[verifier::external_type_specification]
#[verifier::external_body]
#[verifier::reject_recursive_types(T)]
pub struct ExMutex<T: ?Sized>(std::sync::Mutex<T>);

/// The guard that holds the standard library's mutual-exclusion lock until it
/// is dropped, opaque to the verifier.
#[verifier::external_type_specification]
#[verifier::external_body]
#[verifier::reject_recursive_types(T)]
pub struct ExMutexGuard<'a, T: ?Sized + 'a>(std::sync::MutexGuard<'a, T>);

/// A handle to the receiving endpoint of the dispatch channel, shared by all
/// workers of one pool: the single receiver, under the mutual-exclusion lock
/// that serializes dequeueing, behind a shared-ownership pointer so that every
/// worker thread can hold it.
pub type SharedReceiver = std::sync::Arc<
    std::sync::Mutex<std::sync::mpsc::Receiver<Message>>,
>;

/// Relies on std::sync::Mutex::new: puts the receiving endpoint under a fresh
/// mutual-exclusion lock, so that exactly one worker at a time can dequeue.
#[verifier::external_body]
pub(crate) fn guard_endpoint(receiver: std::sync::mpsc::Receiver<Message>) -> std::sync::Mutex<
    std::sync::mpsc::Receiver<Message>,
> {
    std::sync::Mutex::new(receiver)
}

/// Relies on Arc::clone: returns one more handle to the same shared receiving
/// endpoint.
#[verifier::external_body]
pub(crate) fn share_receiver(receiver: &SharedReceiver) -> (shared: SharedReceiver)
    ensures
        shared == *receiver,
{
    std::sync::Arc::clone(receiver)
}

/// Relies on std::sync::Mutex::lock: blocks until the calling worker holds
/// exclusive access to the shared receiving endpoint, which lasts until the
/// returned guard is dropped. It panics only if another holder of the lock
/// panicked while holding it; a worker holds the lock only while it dequeues,
/// and jobs run outside the lock, so that arises only when a pool was dropped
/// without teardown, where the blocked worker threads are leaked anyway.
#[verifier::external_body]
pub(crate) fn lock_endpoint<'a>(receiver: &'a SharedReceiver) -> std::sync::MutexGuard<
    'a,
    std::sync::mpsc::Receiver<Message>,
> {
    receiver.lock().unwrap()
}

/// Relies on std::sync::mpsc::Receiver::recv, called on the endpoint whose
/// lock the guard holds: blocks until a message is queued, then removes and
/// returns exactly one. Which message comes out is decided by the channel, so
/// nothing is stated of the result; the worker's verified loop handles every
/// possible message. It panics only when the sending endpoint is gone with
/// nothing queued, which kills the calling worker's thread; the pool prevents
/// that by holding the sender for its whole lifetime.
#[verifier::external_body]
pub(crate) fn receive_message(
    endpoint: &std::sync::MutexGuard<'_, std::sync::mpsc::Receiver<Message>>,
) -> Message {
    endpoint.recv().unwrap()
}

impl Job {
    /// Relies on Box::new and the unsizing coercion to `dyn FnOnce`: wraps a
    /// caller's closure as a type-erased job. The closure must be callable,
    /// which is what the pool's submission contract passes down to here.
    #[verifier::external_body]
    pub(crate) fn new<F: FnOnce() + Send + 'static>(f: F) -> Job
        requires
            f.requires(()),
    {
        Job { run: Box::new(f) }
    }

    /// Relies on FnOnce::call_once through the box: invokes the job. The job
    /// is arbitrary caller code, so nothing is stated of it; if it panics, the
    /// panic propagates and kills the calling worker's thread, which the pool
    /// neither detects nor repairs.
    #[verifier::external_body]
    pub(crate) fn run(self) {
        (self.run)()
    }
}

} // verus!
