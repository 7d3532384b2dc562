//! The pool's lifecycle: worker creation, job handoff and coordinated
//! shutdown. The workers share the single receiving endpoint of the dispatch
//! channel under a mutual-exclusion lock, so exactly one worker at a time
//! removes the next message.
//!
//! Starting and joining native threads cannot stand in this library, so the
//! pool is parametric in the handle type `H` of a started worker thread: the
//! owner supplies a `spawner` that starts one thread running [`worker_loop`]
//! and returns its handle, and a `joiner` that blocks on such a handle until
//! the thread has exited. Everything else of the lifecycle — how many workers
//! are created, what each is given, the order of signals and joins at
//! teardown — is verified here.

use std::io::Write;
use vstd::prelude::*;

use crate::dispatch::Job;
use crate::dispatch::Message;
use crate::dispatch::SharedReceiver;
use crate::dispatch::guard_endpoint;
use crate::dispatch::lock_endpoint;
use crate::dispatch::new_channel;
use crate::dispatch::receive_message;
use crate::dispatch::send_message;
use crate::dispatch::share_receiver;

verus! {

/// What a worker does with one dequeued message: run the delivered job and
/// stay running, or exit its loop.
pub enum Step {
    Run(Job),
    Exit,
}

/// The worker state machine's one transition: a worker runs exactly the job
/// that a message delivered, and exits exactly on the shutdown signal.
pub fn decide(message: Message) -> (step: Step)
    ensures
        match message {
            Message::RunJob(job) => step == Step::Run(job),
            Message::Shutdown => step == Step::Exit,
        },
{
    match message {
        Message::RunJob(job) => Step::Run(job),
        Message::Shutdown => Step::Exit,
    }
}

/// One worker's loop, run on that worker's own thread: acquire exclusive
/// access to the shared receiving endpoint, block for the next message,
/// release access, then either run the received job and continue, or exit on
/// the shutdown signal. The loop carries a step budget only so that its
/// termination is provable; no execution comes near exhausting it, and a
/// worker's real exit is the shutdown signal.
pub fn worker_loop(receiver: SharedReceiver) {
    let mut budget: u64 = u64::MAX;
    while 0 < budget
        decreases budget,
    {
        budget = budget - 1;
        let message = {
            let endpoint = lock_endpoint(&receiver);
            receive_message(&endpoint)
        };
        match decide(message) {
            Step::Run(job) => job.run(),
            Step::Exit => {
                return ;
            },
        }
    }
}

/// One worker's record: its ordinal index and, while the worker is not yet
/// retired, the handle of the one thread that runs its loop.
struct Worker<H> {
    id: usize,
    thread: Option<H>,
}

/// The thread handles of the still-attached workers among `workers`, in
/// creation order.
spec fn handles_of<H>(workers: Seq<Worker<H>>) -> Seq<H>
    decreases workers.len(),
{
    if workers.len() == 0 {
        Seq::empty()
    } else {
        let rest = handles_of(workers.drop_last());
        match workers.last().thread {
            Some(h) => rest.push(h),
            None => rest,
        }
    }
}

/// Among workers that all hold a handle, there are as many handles as
/// workers.
proof fn lemma_handles_of_all_attached<H>(workers: Seq<Worker<H>>)
    requires
        forall|i: int| 0 <= i < workers.len() ==> (#[trigger] workers[i]).thread is Some,
    ensures
        handles_of(workers).len() == workers.len(),
    decreases workers.len(),
{
    if workers.len() > 0 {
        lemma_handles_of_all_attached(workers.drop_last());
    }
}

/// Among workers that hold no handle, there is no handle.
proof fn lemma_handles_of_all_retired<H>(workers: Seq<Worker<H>>)
    requires
        forall|i: int| 0 <= i < workers.len() ==> ((#[trigger] workers[i]).thread is None),
    ensures
        handles_of(workers).len() == 0,
    decreases workers.len(),
{
    if workers.len() > 0 {
        lemma_handles_of_all_retired(workers.drop_last());
    }
}

/// A fixed-size worker pool. It owns the fixed set of workers and the sending
/// endpoint of the dispatch channel; a job submitted through
/// [`Self::execute`] is dequeued and run by exactly one worker.
///
/// The pool does not tear itself down when it goes out of scope: the owner is
/// contractually required to call [`Self::shutdown`] when done, and omitting
/// that call leaks the worker threads.
pub struct ThreadPool<H> {
    workers: Vec<Worker<H>>,
    sender: std::sync::mpsc::Sender<Message>,
    shared: SharedReceiver,
}

impl<H> ThreadPool<H> {
    /// The fixed number of workers, chosen at construction and never mutated
    /// afterwards: no function of the pool adds or removes a worker record.
    pub closed spec fn size(&self) -> nat {
        self.workers@.len()
    }

    /// The ordinal index of the worker at position `i` in creation order.
    pub closed spec fn ordinal_at(&self, i: int) -> usize {
        self.workers@[i].id
    }

    /// Whether the worker at position `i` still owns its thread handle, that
    /// is, has been started and not yet joined and retired.
    pub closed spec fn attached_at(&self, i: int) -> bool {
        self.workers@[i].thread is Some
    }

    /// The pool's one shared receiving endpoint: every worker dequeues from
    /// this endpoint and from no other.
    pub closed spec fn endpoint(&self) -> SharedReceiver {
        self.shared
    }

    /// The thread handles of the still-attached workers, in creation order:
    /// what teardown owes one shutdown signal and one join each.
    pub closed spec fn attached_handles(&self) -> Seq<H> {
        handles_of(self.workers@)
    }

    /// Well-formed: the workers carry the ordinal indices 0, 1, ... in
    /// creation order.
    pub open spec fn wf(&self) -> bool {
        forall|i: int| 0 <= i < self.size() ==> #[trigger] self.ordinal_at(i) == i
    }

    /// Every worker still owns its thread handle: none has been joined.
    pub open spec fn all_attached(&self) -> bool {
        forall|i: int| 0 <= i < self.size() ==> #[trigger] self.attached_at(i)
    }

    /// Every worker has been joined and retired: the pool owns no thread
    /// handle any more.
    pub open spec fn all_retired(&self) -> bool {
        forall|i: int| 0 <= i < self.size() ==> !(#[trigger] self.attached_at(i))
    }

    /// Creates a pool of exactly `size` workers, all sharing one receiving
    /// endpoint of a fresh dispatch channel, with the sending endpoint
    /// retained by the pool. No jobs are queued yet.
    ///
    /// The `spawner` is called exactly once per worker, in ordinal order, and
    /// must start one thread running [`worker_loop`] on the given receiver
    /// handle and return that thread's handle.
    ///
    /// A size of zero is a precondition violation, not a recoverable error;
    /// [`Self::try_new`] rejects it dynamically instead.
    pub fn new<S: Fn(usize, SharedReceiver) -> H>(size: usize, spawner: S) -> (pool: ThreadPool<
        H,
    >)
        requires
            1 <= size,
            forall|id: usize, r: SharedReceiver|
                id < size ==> #[trigger] spawner.requires((id, r)),
        ensures
            pool.wf(),
            pool.size() == size,
            pool.all_attached(),
    {
        let (sender, receiver) = new_channel();
        let shared: SharedReceiver = std::sync::Arc::new(guard_endpoint(receiver));
        let mut workers: Vec<Worker<H>> = Vec::with_capacity(size);
        let mut id: usize = 0;
        while id < size
            invariant
                id <= size,
                workers@.len() == id,
                forall|i: int| 0 <= i < id ==> (#[trigger] workers@[i]).id == i,
                forall|i: int| 0 <= i < id ==> (#[trigger] workers@[i]).thread is Some,
                forall|idv: usize, r: SharedReceiver|
                    idv < size ==> #[trigger] spawner.requires((idv, r)),
            decreases size - id,
        {
            let handle = spawner(id, share_receiver(&shared));
            workers.push(Worker { id, thread: Some(handle) });
            id = id + 1;
        }
        ThreadPool { workers, sender, shared }
    }

    /// Creates a pool like [`Self::new`], but checks the size dynamically:
    /// returns a pool exactly when `size` is at least one, and `None` exactly
    /// when `size` is zero, in which case no worker is created and the
    /// spawner is never called.
    pub fn try_new<S: Fn(usize, SharedReceiver) -> H>(size: usize, spawner: S) -> (pool: Option<
        ThreadPool<H>,
    >)
        requires
            forall|id: usize, r: SharedReceiver|
                id < size ==> #[trigger] spawner.requires((id, r)),
        ensures
            pool is Some <==> 1 <= size,
            pool matches Some(p) ==> p.wf() && p.size() == size && p.all_attached(),
    {
        if size >= 1 {
            Some(ThreadPool::new(size, spawner))
        } else {
            None
        }
    }

    /// The fixed number of workers.
    pub fn num_workers(&self) -> (n: usize)
        ensures
            n == self.size(),
    {
        self.workers.len()
    }

    /// One more handle to the pool's one shared receiving endpoint, as handed
    /// to every worker.
    pub fn receiver_handle(&self) -> (handle: SharedReceiver)
        ensures
            handle == self.endpoint(),
    {
        share_receiver(&self.shared)
    }

    /// Submits a unit of work. The job is wrapped as a message and enqueued
    /// on the dispatch channel without blocking; exactly one worker
    /// eventually dequeues and runs it, with no guarantee of which worker or
    /// of when. The closure must be callable. Submitting to a pool that was
    /// already shut down is a programming error: the job is queued but no
    /// worker is left to run it.
    pub fn execute<F: FnOnce() + Send + 'static>(&self, f: F)
        requires
            f.requires(()),
    {
        let job = Job::new(f);
        send_message(&self.sender, Message::RunJob(job));
    }

    /// The batch of shutdown signals that one teardown enqueues: one signal
    /// for every worker that still owns its thread, and nothing else.
    fn shutdown_batch(&self) -> (batch: Vec<Message>)
        ensures
            batch@.len() == self.attached_handles().len(),
            forall|k: int| 0 <= k < batch@.len() ==> batch@[k] is Shutdown,
    {
        let mut batch: Vec<Message> = Vec::new();
        let n = self.workers.len();
        let mut i: usize = 0;
        while i < n
            invariant
                n == self.workers@.len(),
                i <= n,
                batch@.len() == handles_of(self.workers@.take(i as int)).len(),
                forall|k: int| 0 <= k < batch@.len() ==> batch@[k] is Shutdown,
            decreases n - i,
        {
            proof {
                let pre = self.workers@.take(i as int);
                let post = self.workers@.take(i as int + 1);
                assert(post.drop_last() =~= pre);
                assert(post.last() == self.workers@[i as int]);
            }
            if self.workers[i].thread.is_some() {
                batch.push(Message::Shutdown);
            }
            i = i + 1;
        }
        proof {
            assert(self.workers@.take(n as int) =~= self.workers@);
        }
        batch
    }

    /// Tears the pool down: first enqueues one shutdown signal per worker
    /// that still owns its thread ([`Self::shutdown_batch`] states the
    /// count), then retires the workers in creation order, handing each
    /// still-owned thread handle to the `joiner` exactly once, which must
    /// block until that thread has exited. Every signal is enqueued before
    /// any join is attempted, so a worker still waiting on a queued job
    /// cannot deadlock the join.
    ///
    /// The returned vector holds the joiner's answers, one per handle handed
    /// over, in creation order of the workers they came from; since the
    /// result type is opaque here, each answer can only come from one call of
    /// the joiner on that worker's handle. Afterwards every worker is
    /// retired; the worker records remain for bookkeeping, so the pool's size
    /// and ordinals are unchanged. Tearing down an already torn-down pool
    /// sends nothing, joins nothing, and returns no answers.
    pub fn shutdown<R, J: Fn(H) -> R>(&mut self, joiner: J) -> (results: Vec<R>)
        requires
            forall|h: H| #[trigger] joiner.requires((h,)),
        ensures
            final(self).size() == old(self).size(),
            forall|i: int|
                0 <= i < final(self).size() ==> #[trigger] final(self).ordinal_at(i) == old(
                    self,
                ).ordinal_at(i),
            old(self).wf() ==> final(self).wf(),
            final(self).all_retired(),
            final(self).endpoint() == old(self).endpoint(),
            results@.len() == old(self).attached_handles().len(),
            forall|k: int|
                0 <= k < results@.len() ==> joiner.ensures(
                    (old(self).attached_handles()[k],),
                    #[trigger] results@[k],
                ),
    {
        let mut batch = self.shutdown_batch();
        while batch.len() > 0
            decreases batch@.len(),
        {
            match batch.pop() {
                Some(message) => send_message(&self.sender, message),
                None => {},
            }
        }
        let mut results: Vec<R> = Vec::new();
        let n = self.workers.len();
        let mut j: usize = 0;
        while j < n
            invariant
                n == self.workers@.len(),
                n == old(self).workers@.len(),
                j <= n,
                self.shared == old(self).shared,
                forall|k: int| j <= k < n ==> self.workers@[k] == old(self).workers@[k],
                forall|k: int|
                    0 <= k < n ==> (#[trigger] self.workers@[k]).id == old(self).workers@[k].id,
                forall|k: int| 0 <= k < j ==> (#[trigger] self.workers@[k]).thread is None,
                results@.len() == handles_of(old(self).workers@.take(j as int)).len(),
                forall|k: int|
                    0 <= k < results@.len() ==> joiner.ensures(
                        (handles_of(old(self).workers@.take(j as int))[k],),
                        #[trigger] results@[k],
                    ),
                forall|h: H| #[trigger] joiner.requires((h,)),
            decreases n - j,
        {
            proof {
                let pre = old(self).workers@.take(j as int);
                let post = old(self).workers@.take(j as int + 1);
                assert(post.drop_last() =~= pre);
                assert(post.last() == old(self).workers@[j as int]);
            }
            let handle = self.workers[j].thread.take();
            match handle {
                Some(h) => {
                    note_shutdown(self.workers[j].id);
                    let answer = joiner(h);
                    results.push(answer);
                },
                None => {},
            }
            j = j + 1;
        }
        proof {
            assert(old(self).workers@.take(n as int) =~= old(self).workers@);
            assert forall|k: int|
                0 <= k < self.size() implies #[trigger] self.ordinal_at(k) == old(
                self,
            ).ordinal_at(k) by {
                assert(self.workers@[k].id == old(self).workers@[k].id);
            }
        }
        results
    }

    /// In a pool whose workers all hold their thread handles, as after
    /// construction, teardown owes as many joins as the pool has workers.
    pub proof fn lemma_all_attached_handle_count(&self)
        requires
            self.all_attached(),
        ensures
            self.attached_handles().len() == self.size(),
    {
        assert forall|i: int|
            0 <= i < self.workers@.len() implies (#[trigger] self.workers@[i]).thread is Some by {
            assert(self.attached_at(i));
        }
        lemma_handles_of_all_attached(self.workers@);
    }

    /// In a pool whose workers are all retired, as after a teardown, another
    /// teardown owes no join at all.
    pub proof fn lemma_all_retired_handle_count(&self)
        requires
            self.all_retired(),
        ensures
            self.attached_handles().len() == 0,
    {
        assert forall|i: int|
            0 <= i < self.workers@.len() implies (#[trigger] self.workers@[i]).thread is None by {
            assert(!self.attached_at(i));
        }
        lemma_handles_of_all_retired(self.workers@);
    }

    /// In a well-formed pool, distinct workers carry distinct ordinals: the
    /// ordinal identifies the worker.
    pub proof fn lemma_ordinals_distinct(&self)
        requires
            self.wf(),
        ensures
            forall|i: int, j: int|
                0 <= i < self.size() && 0 <= j < self.size() && i != j ==> self.ordinal_at(i)
                    != self.ordinal_at(j),
    {
    }
}

/// Relies on std::io::Stdout::write_fmt through the writeln macro: emits the
/// human-readable notice that a worker is being shut down. Purely
/// observational; a failure to write is ignored.
#[verifier::external_body]
fn note_shutdown(id: usize) {
    let _ = writeln!(std::io::stdout(), "Shutting down worker {}", id);
}

} // verus!
