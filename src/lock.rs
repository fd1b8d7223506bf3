//! The lock handle, its access guard, and the acquisition requests.

use vstd::prelude::*;
use std::sync::Arc;
use atomic_waker::AtomicWaker;
use atomiclock::Guard as CellAccess;
use crate::outside::{begin_perfwarn, release_cell};
use crate::protocol::{PollAction, RequestState, inserts, poll_action, poll_next, poll_transition};

verus! {

/// The label of the performance warning that `lock_warn` brackets a wait with.
pub const LOCK_WARN_LABEL: &'static str = "AtomicLockAsync::lock";

/// A mutex whose contended acquisition suspends the task instead of the thread.
///
/// It holds the value in an exclusive cell and keeps, under a spinlock, the
/// wake handles of the requests that are waiting for it.
#[verifier::reject_recursive_types(T)]
pub struct AtomicLockAsync<T> {
    cell: atomiclock::AtomicLock<T>,
    wakelist: atomiclock_spinlock::Lock<Vec<Arc<AtomicWaker>>>,
}

/// Exclusive access to the value of an `AtomicLockAsync`.
///
/// `unlock` ends the access in two phases: it releases the cell, and only
/// then wakes every waiting request, so a woken request finds the cell free.
/// A guard that is merely dropped releases the cell but wakes nobody.
#[verifier::reject_recursive_types(T)]
pub struct Guard<'a, T> {
    access: CellAccess<'a, T>,
    lock: &'a AtomicLockAsync<T>,
}

/// A pending acquisition of an `AtomicLockAsync`.
///
/// Nothing happens until it is polled. Its wake handle is made lazily, on the
/// first contended poll, and reused by every later one. It is inserted in the
/// registry then, and again only when a release has drained it since, so the
/// registry never holds it twice.
#[verifier::reject_recursive_types(T)]
#[must_use]
pub struct LockFuture<'a, T> {
    lock: &'a AtomicLockAsync<T>,
    registered_waker: Option<Arc<AtomicWaker>>,
    inserted: Ghost<nat>,
    last: Ghost<PollAction>,
}

/// An acquisition that brackets its wait with a performance warning.
#[verifier::reject_recursive_types(T)]
#[must_use]
pub struct LockWarnFuture<'a, T> {
    underlying_future: LockFuture<'a, T>,
    perfwarn_interval: Option<logwise::interval::PerfwarnInterval>,
    opened_count: Ghost<nat>,
}

impl<T> AtomicLockAsync<T> {
    /// Creates a lock around `t`, free and with nobody waiting.
    pub fn new(t: T) -> Self {
        AtomicLockAsync {
            cell: atomiclock::AtomicLock::new(t),
            wakelist: atomiclock_spinlock::Lock::new(Vec::new()),
        }
    }

    /// Takes the lock if it is free, without suspending; `None` if it is held.
    pub fn lock_if_available(&self) -> (r: Option<Guard<'_, T>>)
        ensures
            r matches Some(g) ==> g.owner() == *self,
    {
        match self.cell.lock() {
            Some(access) => Some(Guard { access, lock: self }),
            None => None,
        }
    }

    /// A request for the lock; it does nothing until polled.
    pub fn lock(&self) -> (r: LockFuture<'_, T>)
        ensures
            r.owner() == *self,
            r.state() == RequestState::Fresh,
            r.handle().is_none(),
            r.insertions() == 0,
            r.wf(),
    {
        LockFuture { lock: self, registered_waker: None, inserted: Ghost(0), last: Ghost(PollAction::Finish) }
    }

    /// Like `lock`, but the wait is bracketed by a performance warning.
    pub fn lock_warn(&self) -> (r: LockWarnFuture<'_, T>)
        ensures
            r.inner().owner() == *self,
            r.inner().state() == RequestState::Fresh,
            r.inner().insertions() == 0,
            r.inner().wf(),
            r.warning() is None,
            r.opened() == 0,
    {
        LockWarnFuture {
            underlying_future: self.lock(),
            perfwarn_interval: None,
            opened_count: Ghost(0),
        }
    }

    /// Consumes the lock, returning the value it protects.
    pub fn into_inner(self) -> T {
        self.cell.into_inner()
    }

    /// Adds a wake handle to the registry, under the registry's spinlock.
    fn register_waiter(&self, waker: Arc<AtomicWaker>) {
        let mut reg = self.wakelist.spin_lock_warn();
        let list = reg.get_mut();
        list.push(waker);
    }

    /// Drains the registry under its spinlock and wakes every handle that was
    /// in it; the registry is empty afterwards.
    fn wake_waiters(&self) {
        let mut reg = self.wakelist.spin_lock_warn();
        let list = reg.get_mut();
        while list.len() > 0
            decreases list.len(),
        {
            let waker = list.pop().unwrap();
            waker.wake();
        }
    }
}

impl<'a, T> Guard<'a, T> {
    /// The lock this guard was taken from.
    pub closed spec fn owner(&self) -> AtomicLockAsync<T> {
        *self.lock
    }

    /// Accesses the underlying lock.
    pub fn lock(&self) -> (r: &AtomicLockAsync<T>)
        ensures
            *r == self.owner(),
    {
        self.lock
    }

    /// Ends the access: first releases the cell, then drains the registry
    /// and wakes every request that was waiting.
    pub fn unlock(self) {
        let Guard { access, lock } = self;
        release_cell(access);
        lock.wake_waiters();
    }
}

impl<'a, T> AsRef<T> for Guard<'a, T> {
    fn as_ref(&self) -> &T {
        std::ops::Deref::deref(&self.access)
    }
}

impl<'a, T> AsMut<T> for Guard<'a, T> {
    fn as_mut(&mut self) -> &mut T {
        std::ops::DerefMut::deref_mut(&mut self.access)
    }
}

impl<'a, T> std::ops::Deref for Guard<'a, T> {
    type Target = T;

    fn deref(&self) -> &T {
        std::ops::Deref::deref(&self.access)
    }
}

impl<'a, T> std::ops::DerefMut for Guard<'a, T> {
    fn deref_mut(&mut self) -> &mut T {
        std::ops::DerefMut::deref_mut(&mut self.access)
    }
}

impl<'a, T> LockFuture<'a, T> {
    /// The lock this request is for.
    pub closed spec fn owner(&self) -> AtomicLockAsync<T> {
        *self.lock
    }

    /// The wake handle this request has registered, if any.
    pub closed spec fn handle(&self) -> Option<Arc<AtomicWaker>> {
        self.registered_waker
    }

    /// How many entries this request has inserted in the registry.
    pub closed spec fn insertions(&self) -> nat {
        self.inserted@
    }

    /// Where the request stands between polls.
    pub open spec fn state(&self) -> RequestState {
        if self.handle().is_some() {
            RequestState::Registered
        } else {
            RequestState::Fresh
        }
    }

    /// What the latest poll did.
    pub closed spec fn last_action(&self) -> PollAction {
        self.last@
    }

    /// A request has inserted registry entries exactly when it holds a handle.
    pub open spec fn wf(&self) -> bool {
        self.insertions() == 0 <==> self.handle().is_none()
    }

    #[verifier::type_invariant]
    spec fn handle_iff_inserted(&self) -> bool {
        self.wf()
    }

    fn current_state(&self) -> (r: RequestState)
        ensures
            r == self.state(),
    {
        match self.registered_waker {
            Some(_) => RequestState::Registered,
            None => RequestState::Fresh,
        }
    }

    /// Whether the handle is still in the registry. A release pops each
    /// handle before it wakes it, and waking takes the bound waker out; this
    /// request binds a waker on every contended poll. So a handle that still
    /// holds a waker has not been drained. Taking the waker unbinds it; the
    /// caller binds the current one right after.
    fn still_queued(&self) -> bool {
        match &self.registered_waker {
            Some(handle) => handle.take().is_some(),
            None => false,
        }
    }

    /// One poll: attempt the cell; on success hand out the guard. Otherwise
    /// bind the request's wake handle to `waker`, making it on the first
    /// contention; insert it in the registry on the first contention and
    /// whenever a release has drained it since; and stay pending.
    pub fn poll_with(&mut self, waker: &std::task::Waker) -> (r: Option<Guard<'a, T>>)
        ensures
            final(self).wf(),
            final(self).owner() == old(self).owner(),
            r matches Some(g) ==> g.owner() == old(self).owner(),
            exists|queued: bool|
                final(self).last_action() == #[trigger] poll_action(old(self).state(), r is Some, queued),
            r is None ==> final(self).state() == poll_next(old(self).state(), false),
            r is Some ==> final(self).handle() == old(self).handle(),
            old(self).handle() is Some ==> final(self).handle() == old(self).handle(),
            final(self).insertions() == old(self).insertions()
                + (if inserts(final(self).last_action()) { 1nat } else { 0nat }),
    {
        proof { use_type_invariant(&*self); }
        let attempt = self.lock.cell.lock();
        let acquired = attempt.is_some();
        let queued = if acquired { true } else { self.still_queued() };
        let (_, action) = poll_transition(self.current_state(), acquired, queued);
        self.last = Ghost(action);
        match attempt {
            Some(access) => Some(Guard { access, lock: self.lock }),
            None => {
                match action {
                    PollAction::RegisterNew => {
                        let handle = Arc::new(AtomicWaker::new());
                        handle.register(waker);
                        self.lock.register_waiter(handle.clone());
                        *self = LockFuture {
                            lock: self.lock,
                            registered_waker: Some(handle),
                            inserted: Ghost(self.inserted@ + 1),
                            last: self.last,
                        };
                    },
                    PollAction::Reinsert => {
                        if let Some(handle) = &self.registered_waker {
                            let entry = handle.clone();
                            entry.register(waker);
                            self.lock.register_waiter(entry);
                        }
                        self.inserted = Ghost(self.inserted@ + 1);
                    },
                    _ => {
                        if let Some(handle) = &self.registered_waker {
                            handle.register(waker);
                        }
                    },
                }
                None
            },
        }
    }
}

impl<'a, T> LockWarnFuture<'a, T> {
    /// The wrapped request.
    pub closed spec fn inner(&self) -> LockFuture<'a, T> {
        self.underlying_future
    }

    /// The open performance-warning interval, if any.
    pub closed spec fn warning(&self) -> Option<logwise::interval::PerfwarnInterval> {
        self.perfwarn_interval
    }

    /// How many warning intervals this request has opened.
    pub closed spec fn opened(&self) -> nat {
        self.opened_count@
    }

    /// One poll of the wrapped request. The warning interval is opened on the
    /// first poll, kept (never reopened) while the request is pending, and
    /// closed once, when the guard is handed out.
    pub fn poll_with(&mut self, waker: &std::task::Waker) -> (r: Option<Guard<'a, T>>)
        ensures
            final(self).inner().wf(),
            final(self).inner().owner() == old(self).inner().owner(),
            r matches Some(g) ==> g.owner() == old(self).inner().owner(),
            exists|queued: bool|
                final(self).inner().last_action() == #[trigger] poll_action(
                    old(self).inner().state(),
                    r is Some,
                    queued,
                ),
            r is None ==> final(self).inner().state() == poll_next(old(self).inner().state(), false),
            r is Some ==> final(self).inner().handle() == old(self).inner().handle(),
            old(self).inner().handle() is Some ==> final(self).inner().handle() == old(
                self,
            ).inner().handle(),
            final(self).inner().insertions() == old(self).inner().insertions() + (if inserts(
                final(self).inner().last_action(),
            ) {
                1nat
            } else {
                0nat
            }),
            r is Some ==> final(self).warning() is None,
            r is None ==> final(self).warning() is Some,
            r is None && old(self).warning() is Some ==> final(self).warning() == old(self).warning(),
            final(self).opened() == old(self).opened() + (if old(self).warning() is None {
                1nat
            } else {
                0nat
            }),
    {
        if self.perfwarn_interval.is_none() {
            self.perfwarn_interval = Some(begin_perfwarn(LOCK_WARN_LABEL));
            self.opened_count = Ghost(self.opened_count@ + 1);
        }
        proof { use_type_invariant(&self.underlying_future); }
        let r = self.underlying_future.poll_with(waker);
        if r.is_some() {
            self.perfwarn_interval = None;
        }
        r
    }
}

/// Relies on std's `Pin::get_mut`: a request holds no self-reference, so it
/// is `Unpin` (a bound Verus does not read) and the pin gives up the
/// mutable reference it wraps.
#[verifier::external_body]
fn unpin_request<'a, 'b, T>(p: std::pin::Pin<&'b mut LockFuture<'a, T>>) -> &'b mut LockFuture<'a, T> {
    p.get_mut()
}

/// Relies on std's `Pin::get_mut`, as `unpin_request` does.
#[verifier::external_body]
fn unpin_warn_request<'a, 'b, T>(p: std::pin::Pin<&'b mut LockWarnFuture<'a, T>>) -> &'b mut LockWarnFuture<'a, T> {
    p.get_mut()
}

/// A finished poll is `Ready` with its guard; an unfinished one is `Pending`.
fn to_poll<'a, T>(r: Option<Guard<'a, T>>) -> (p: std::task::Poll<Guard<'a, T>>)
    ensures
        r is Some <==> p is Ready,
{
    match r {
        Some(guard) => std::task::Poll::Ready(guard),
        None => std::task::Poll::Pending,
    }
}

impl<'a, T> std::future::Future for LockFuture<'a, T> {
    type Output = Guard<'a, T>;

    fn poll(self: std::pin::Pin<&mut Self>, cx: &mut std::task::Context<'_>) -> std::task::Poll<Guard<'a, T>> {
        let request = unpin_request(self);
        let waker = cx.waker();
        to_poll(request.poll_with(waker))
    }
}

impl<'a, T> std::future::Future for LockWarnFuture<'a, T> {
    type Output = Guard<'a, T>;

    fn poll(self: std::pin::Pin<&mut Self>, cx: &mut std::task::Context<'_>) -> std::task::Poll<Guard<'a, T>> {
        let request = unpin_warn_request(self);
        let waker = cx.waker();
        to_poll(request.poll_with(waker))
    }
}

impl<T: Default> Default for AtomicLockAsync<T> {
    fn default() -> Self {
        AtomicLockAsync::new(T::default())
    }
}

impl<T> From<T> for AtomicLockAsync<T> {
    fn from(t: T) -> Self {
        AtomicLockAsync::new(t)
    }
}

/// The lock's state is not visible to specifications, so `from` promises
/// nothing beyond a lock around the value.
impl<T> vstd::std_specs::convert::FromSpecImpl<T> for AtomicLockAsync<T> {
    open spec fn obeys_from_spec() -> bool {
        false
    }

    open spec fn from_spec(v: T) -> Self {
        arbitrary()
    }
}

} // verus!
