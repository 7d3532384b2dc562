//! Tests drive the pool single-threaded: jobs and shutdown signals are
//! queued first, then a worker's loop is run on the test's own thread, once
//! per worker, exactly as a started worker thread would run it.

use std::sync::Arc;
use std::sync::Mutex;

use threadpool::Message;
use threadpool::SharedReceiver;
use threadpool::Step;
use threadpool::ThreadPool;
use threadpool::decide;
use threadpool::worker_loop;

fn no_thread(_id: usize, _receiver: SharedReceiver) {}

#[test]
fn pool_has_exactly_n_workers() {
    for n in [1usize, 2, 4, 64] {
        let pool = ThreadPool::<()>::new(n, no_thread);
        assert_eq!(pool.num_workers(), n);
    }
}

#[test]
fn zero_size_pool_is_refused() {
    let pool = ThreadPool::<()>::try_new(0, no_thread);
    assert!(pool.is_none());
}

#[test]
fn positive_size_pool_is_built() {
    let pool = ThreadPool::<()>::try_new(4, no_thread);
    assert!(pool.is_some());
    assert_eq!(pool.unwrap().num_workers(), 4);
}

#[test]
fn two_jobs_run_in_submission_order() {
    let mut pool = ThreadPool::<()>::new(1, no_thread);
    let order: Arc<Mutex<Vec<u32>>> = Arc::new(Mutex::new(Vec::new()));
    let first = Arc::clone(&order);
    pool.execute(move || first.lock().unwrap().push(1));
    let second = Arc::clone(&order);
    pool.execute(move || second.lock().unwrap().push(2));
    let receiver = pool.receiver_handle();
    pool.shutdown(|_handle| {});
    worker_loop(receiver);
    assert_eq!(*order.lock().unwrap(), vec![1, 2]);
}

#[test]
fn every_job_runs_exactly_once() {
    let mut pool = ThreadPool::<()>::new(2, no_thread);
    let seen: Arc<Mutex<Vec<usize>>> = Arc::new(Mutex::new(Vec::new()));
    let m: usize = 10;
    for i in 0..m {
        let handle = Arc::clone(&seen);
        pool.execute(move || handle.lock().unwrap().push(i));
    }
    let receiver = pool.receiver_handle();
    pool.shutdown(|_handle| {});
    // One loop per worker, as the two worker threads would run them: the
    // first consumes every job and one shutdown signal, the second consumes
    // the other shutdown signal.
    worker_loop(pool.receiver_handle());
    worker_loop(receiver);
    let seen = seen.lock().unwrap();
    assert_eq!(seen.len(), m);
    for i in 0..m {
        assert_eq!(seen.iter().filter(|&&x| x == i).count(), 1);
    }
}

#[test]
fn counter_reaches_m_after_teardown() {
    let mut pool = ThreadPool::<()>::new(3, no_thread);
    let counter: Arc<Mutex<usize>> = Arc::new(Mutex::new(0));
    let m: usize = 25;
    for _ in 0..m {
        let handle = Arc::clone(&counter);
        pool.execute(move || *handle.lock().unwrap() += 1);
    }
    let receiver = pool.receiver_handle();
    pool.shutdown(|_handle| {});
    worker_loop(pool.receiver_handle());
    worker_loop(pool.receiver_handle());
    worker_loop(receiver);
    assert_eq!(*counter.lock().unwrap(), m);
}

#[test]
fn shutdown_twice_sends_one_signal_per_worker() {
    let mut pool = ThreadPool::<()>::new(1, no_thread);
    let receiver = pool.receiver_handle();
    pool.shutdown(|_handle| {});
    pool.shutdown(|_handle| {});
    // Exactly one shutdown signal was queued for the one worker; its loop
    // consumes it and returns instead of blocking for more.
    worker_loop(receiver);
}

#[test]
fn shutdown_hands_every_handle_to_the_joiner() {
    let mut pool = ThreadPool::<u32>::new(3, |id: usize, _receiver| id as u32);
    // The joiner's answers come back one per worker, in creation order.
    let joined = pool.shutdown(|handle| handle);
    assert_eq!(joined, vec![0, 1, 2]);
    // A second teardown finds no attached worker and owes no join.
    let again = pool.shutdown(|handle| handle);
    assert!(again.is_empty());
}

#[test]
fn shutdown_signal_makes_a_worker_exit() {
    let step = decide(Message::Shutdown);
    assert!(matches!(step, Step::Exit));
}

#[test]
fn submitted_job_is_delivered_and_run() {
    // If submission dropped the job, or a worker's decision dropped instead of
    // running it, the flag would stay unset.
    let mut pool = ThreadPool::<()>::new(1, no_thread);
    let ran: Arc<Mutex<bool>> = Arc::new(Mutex::new(false));
    let handle = Arc::clone(&ran);
    pool.execute(move || *handle.lock().unwrap() = true);
    let receiver = pool.receiver_handle();
    pool.shutdown(|_handle| {});
    worker_loop(receiver);
    assert!(*ran.lock().unwrap());
}
