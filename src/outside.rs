//! Declarations of the outside types this library holds, and the contracts
//! of the outside functions it calls.

use vstd::prelude::*;
use atomic_waker::AtomicWaker;
use atomiclock::Guard as CellAccess;
use atomiclock_spinlock::Guard as SpinAccess;

verus! {

#[verifier::external_type_specification]
#[verifier::external_body]
#[verifier::reject_recursive_types(T)]
pub struct ExAtomicLock<T>(atomiclock::AtomicLock<T>);

#[verifier::external_type_specification]
#[verifier::external_body]
#[verifier::reject_recursive_types(T)]
pub struct ExCellGuard<'a, T>(CellAccess<'a, T>);

#[verifier::external_type_specification]
#[verifier::external_body]
#[verifier::reject_recursive_types(T)]
pub struct ExSpinLock<T>(atomiclock_spinlock::Lock<T>);

#[verifier::external_type_specification]
#[verifier::external_body]
#[verifier::reject_recursive_types(T)]
pub struct ExSpinGuard<'a, T>(SpinAccess<'a, T>);

#[verifier::external_type_specification]
#[verifier::external_body]
pub struct ExAtomicWaker(AtomicWaker);

#[verifier::external_type_specification]
#[verifier::external_body]
pub struct ExWaker(std::task::Waker);

#[verifier::external_type_specification]
#[verifier::external_body]
pub struct ExContext<'a>(std::task::Context<'a>);

#[verifier::external_type_specification]
#[verifier::external_body]
#[verifier::reject_recursive_types(Ptr)]
pub struct ExPin<Ptr>(std::pin::Pin<Ptr>);

#[verifier::external_type_specification]
#[verifier::reject_recursive_types(T)]
pub struct ExPoll<T>(std::task::Poll<T>);

#[verifier::external_type_specification]
#[verifier::external_body]
pub struct ExPerfwarnInterval(logwise::interval::PerfwarnInterval);

/// atomiclock's `AtomicLock::new`: an unlocked cell around `data`.
pub assume_specification<T>[ atomiclock::AtomicLock::<T>::new ](data: T) -> atomiclock::AtomicLock<T>;

/// atomiclock's `AtomicLock::lock`: one weak compare-exchange on the lock
/// flag; a guard if it succeeded, nothing otherwise. It fails while the lock
/// is held and may also fail spuriously, so nothing is promised of the outcome.
pub assume_specification<T>[ atomiclock::AtomicLock::<T>::lock ](l: &atomiclock::AtomicLock<T>) -> Option<CellAccess<'_, T>>;

/// atomiclock's `AtomicLock::into_inner`: moves the protected value out.
pub assume_specification<T>[ atomiclock::AtomicLock::<T>::into_inner ](l: atomiclock::AtomicLock<T>) -> T;

/// atomiclock's `Deref` for its guard: the protected value.
pub assume_specification<'a, 'b, T>[ <CellAccess<'a, T> as std::ops::Deref>::deref ](g: &'b CellAccess<'a, T>) -> &'b T;

/// atomiclock's `DerefMut` for its guard: the protected value, mutably.
pub assume_specification<'a, 'b, T>[ <CellAccess<'a, T> as std::ops::DerefMut>::deref_mut ](g: &'b mut CellAccess<'a, T>) -> &'b mut T;

/// atomiclock_spinlock's `Lock::new`: an unlocked spinlock around `data`.
pub assume_specification<T>[ atomiclock_spinlock::Lock::<T>::new ](data: T) -> atomiclock_spinlock::Lock<T>;

/// atomiclock_spinlock's `Lock::spin_lock_warn`: spins until the lock is
/// taken, then hands out its guard.
pub assume_specification<T>[ atomiclock_spinlock::Lock::<T>::spin_lock_warn ](l: &atomiclock_spinlock::Lock<T>) -> SpinAccess<'_, T>;

/// atomiclock_spinlock's `Guard::get_mut`: the data behind the held spinlock.
pub assume_specification<'a, 'b, T>[ SpinAccess::<'a, T>::get_mut ](g: &'b mut SpinAccess<'a, T>) -> &'b mut T;

/// std's `Context::waker`: the waker of the task being polled.
pub assume_specification<'a>[ std::task::Context::<'a>::waker ](cx: &std::task::Context<'a>) -> &'a std::task::Waker;

/// atomic_waker's `AtomicWaker::new`: a handle with no waker bound.
pub assume_specification[ AtomicWaker::new ]() -> AtomicWaker;

/// atomic_waker's `AtomicWaker::register`: binds the handle to `waker`,
/// replacing any earlier binding.
pub assume_specification[ AtomicWaker::register ](w: &AtomicWaker, waker: &std::task::Waker);

/// atomic_waker's `AtomicWaker::take`: takes out the bound waker, if any,
/// without waking it. It may also give nothing while another thread wakes
/// or registers at the same moment, so nothing is promised of the outcome.
pub assume_specification[ AtomicWaker::take ](w: &AtomicWaker) -> Option<std::task::Waker>;

/// atomic_waker's `AtomicWaker::wake`: wakes the bound waker, if any; on a
/// handle with none bound it does nothing.
pub assume_specification[ AtomicWaker::wake ](w: &AtomicWaker);

/// Relies on atomiclock's `Drop` for its guard: dropping the access unlocks
/// the cell, with a release store of the lock flag.
#[verifier::external_body]
pub(crate) fn release_cell<T>(access: CellAccess<'_, T>) {
    drop(access)
}

/// Relies on logwise's `perfwarn_begin_pre` and `perfwarn_begin_post`, the two
/// halves of its `perfwarn_begin` macro: logs the start of a performance
/// warning and opens its interval, which logs the end when dropped.
#[verifier::external_body]
pub(crate) fn begin_perfwarn(label: &'static str) -> logwise::interval::PerfwarnInterval {
    logwise::hidden::perfwarn_begin_post(logwise::hidden::perfwarn_begin_pre(label, 0, 0), label)
}

} // verus!
