use std::future::Future;
use std::pin::Pin;
use std::sync::atomic::{AtomicBool, AtomicUsize, Ordering};
use std::sync::Arc;
use std::task::{Context, Poll, Wake, Waker};

use atomiclock_async::{AtomicLockAsync, Guard, LockFuture, LockWarnFuture};

struct Flag {
    woken: AtomicBool,
    count: AtomicUsize,
}

impl Wake for Flag {
    fn wake(self: Arc<Self>) {
        self.wake_by_ref();
    }

    fn wake_by_ref(self: &Arc<Self>) {
        self.woken.store(true, Ordering::SeqCst);
        self.count.fetch_add(1, Ordering::SeqCst);
    }
}

fn flag() -> (Arc<Flag>, Waker) {
    let f = Arc::new(Flag { woken: AtomicBool::new(false), count: AtomicUsize::new(0) });
    let w = Waker::from(f.clone());
    (f, w)
}

fn poll_once<'a>(fut: &mut LockFuture<'a, u32>, waker: &Waker) -> Poll<Guard<'a, u32>> {
    let mut cx = Context::from_waker(waker);
    Pin::new(fut).poll(&mut cx)
}

fn poll_warn<'a>(fut: &mut LockWarnFuture<'a, u32>, waker: &Waker) -> Poll<Guard<'a, u32>> {
    let mut cx = Context::from_waker(waker);
    Pin::new(fut).poll(&mut cx)
}

#[test]
fn try_lock_on_locked_handle_returns_none() {
    let h = AtomicLockAsync::new(0u32);
    let g = h.lock_if_available().expect("free lock");
    assert!(h.lock_if_available().is_none());
    assert!(h.lock_if_available().is_none());
    g.unlock();
    assert!(h.lock_if_available().is_some());
}

#[test]
fn uncontended_lock_is_ready_at_once() {
    let h = AtomicLockAsync::new(7u32);
    let (f, w) = flag();
    let mut fut = h.lock();
    match poll_once(&mut fut, &w) {
        Poll::Ready(g) => {
            assert_eq!(*g, 7);
            g.unlock();
        }
        Poll::Pending => panic!("free lock must be acquired on the first poll"),
    }
    assert!(!f.woken.load(Ordering::SeqCst));
}

#[test]
fn waiter_resumes_after_release_and_sees_update() {
    let h = AtomicLockAsync::new(0u32);
    let mut a = h.lock_if_available().expect("task A acquires");
    *a += 1;
    let (fb, wb) = flag();
    let mut b = h.lock();
    assert!(poll_once(&mut b, &wb).is_pending());
    assert!(!fb.woken.load(Ordering::SeqCst));
    a.unlock();
    assert!(fb.woken.load(Ordering::SeqCst));
    match poll_once(&mut b, &wb) {
        Poll::Ready(mut g) => {
            assert_eq!(*g, 1);
            *g += 1;
            g.unlock();
        }
        Poll::Pending => panic!("task B must acquire after A's release"),
    }
    drop(b);
    assert_eq!(h.into_inner(), 2);
}

#[test]
fn ten_tasks_each_increment_once() {
    let h = AtomicLockAsync::new(0u32);
    let holder = h.lock_if_available().expect("free lock");
    let mut tasks: Vec<(LockFuture<'_, u32>, Arc<Flag>, Waker, bool)> = Vec::new();
    for _ in 0..10 {
        let (f, w) = flag();
        tasks.push((h.lock(), f, w, false));
    }
    for t in tasks.iter_mut() {
        assert!(poll_once(&mut t.0, &t.2).is_pending());
    }
    holder.unlock();
    let mut rounds = 0;
    while tasks.iter().any(|t| !t.3) {
        rounds += 1;
        assert!(rounds <= 100, "tasks must all complete");
        for t in tasks.iter_mut() {
            if t.3 {
                continue;
            }
            if let Poll::Ready(mut g) = poll_once(&mut t.0, &t.2) {
                *g += 1;
                g.unlock();
                t.3 = true;
            }
        }
    }
    drop(tasks);
    assert_eq!(h.into_inner(), 10);
}

#[test]
fn repeated_contention_rebinds_without_new_entry() {
    let h = AtomicLockAsync::new(0u32);
    let holder = h.lock_if_available().expect("free lock");
    let (f1, w1) = flag();
    let (f2, w2) = flag();
    let (f3, w3) = flag();
    let mut fut = h.lock();
    assert!(poll_once(&mut fut, &w1).is_pending());
    assert!(poll_once(&mut fut, &w2).is_pending());
    assert!(poll_once(&mut fut, &w3).is_pending());
    holder.unlock();
    // One registry entry, bound to the latest waker: woken exactly once.
    assert_eq!(f3.count.load(Ordering::SeqCst), 1);
    assert!(!f1.woken.load(Ordering::SeqCst));
    assert!(!f2.woken.load(Ordering::SeqCst));
    // The registry was drained: a second release wakes nobody.
    let g = h.lock_if_available().expect("free after release");
    g.unlock();
    assert_eq!(f3.count.load(Ordering::SeqCst), 1);
    assert!(poll_once(&mut fut, &w3).is_ready());
}

#[test]
fn waking_abandoned_request_is_harmless() {
    let h = AtomicLockAsync::new(3u32);
    let holder = h.lock_if_available().expect("free lock");
    let (f, w) = flag();
    let mut fut = h.lock();
    assert!(poll_once(&mut fut, &w).is_pending());
    drop(fut);
    holder.unlock();
    assert!(f.woken.load(Ordering::SeqCst));
    let g = h.lock_if_available().expect("cell free after release");
    assert_eq!(*g, 3);
    g.unlock();
    assert_eq!(h.into_inner(), 3);
}

#[test]
fn waking_completed_request_is_harmless() {
    let h = AtomicLockAsync::new(0u32);
    let holder = h.lock_if_available().expect("free lock");
    let (fa, wa) = flag();
    let (fb, wb) = flag();
    let mut a = h.lock();
    let mut b = h.lock();
    assert!(poll_once(&mut a, &wa).is_pending());
    assert!(poll_once(&mut b, &wb).is_pending());
    holder.unlock();
    assert!(fa.woken.load(Ordering::SeqCst));
    assert!(fb.woken.load(Ordering::SeqCst));
    let ga = match poll_once(&mut a, &wa) {
        Poll::Ready(g) => g,
        Poll::Pending => panic!("first woken request acquires"),
    };
    assert!(poll_once(&mut b, &wb).is_pending());
    ga.unlock();
    // B lost the race after being drained; its re-poll put it back, so this
    // release wakes it again. A's completed handle is not woken again.
    assert_eq!(fb.count.load(Ordering::SeqCst), 2);
    assert_eq!(fa.count.load(Ordering::SeqCst), 1);
    assert!(poll_once(&mut b, &wb).is_ready());
}

#[test]
fn dropped_guard_frees_the_cell() {
    let h = AtomicLockAsync::new(1u32);
    {
        let mut g = h.lock_if_available().expect("free lock");
        *g.as_mut() += 4;
        assert_eq!(*g.as_ref(), 5);
    }
    assert!(h.lock_if_available().is_some());
    assert_eq!(h.into_inner(), 5);
}

#[test]
fn guard_reports_its_lock() {
    let h = AtomicLockAsync::new(0u32);
    let g = h.lock_if_available().expect("free lock");
    assert!(std::ptr::eq(g.lock(), &h));
    g.unlock();
}

#[test]
fn lock_warn_acquires_like_lock() {
    let h = AtomicLockAsync::new(0u32);
    let holder = h.lock_if_available().expect("free lock");
    let (f, w) = flag();
    let mut fut = h.lock_warn();
    assert!(poll_warn(&mut fut, &w).is_pending());
    assert!(poll_warn(&mut fut, &w).is_pending());
    holder.unlock();
    assert!(f.woken.load(Ordering::SeqCst));
    match poll_warn(&mut fut, &w) {
        Poll::Ready(mut g) => {
            *g += 1;
            g.unlock();
        }
        Poll::Pending => panic!("must acquire after release"),
    }
    drop(fut);
    assert_eq!(h.into_inner(), 1);
}

#[test]
fn default_and_from_build_a_free_lock() {
    let d: AtomicLockAsync<u32> = AtomicLockAsync::default();
    assert!(d.lock_if_available().is_some());
    assert_eq!(d.into_inner(), 0);
    let f = AtomicLockAsync::from(9u32);
    assert_eq!(f.into_inner(), 9);
}

#[test]
fn lock_warn_keeps_one_interval_over_repeated_polls() {
    let h = AtomicLockAsync::new(0u32);
    let holder = h.lock_if_available().expect("free lock");
    let (_f, w) = flag();
    let mut fut = h.lock_warn();
    for _ in 0..3 {
        assert!(poll_warn(&mut fut, &w).is_pending());
    }
    holder.unlock();
    assert!(poll_warn(&mut fut, &w).is_ready());
}
