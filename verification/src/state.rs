//! The shared state container: the one value every callback reads and
//! mutates, behind an exclusive-access discipline.
//!
//! Exactly one callback body executes against the contained value at a time.
//! The dispatcher acquires the container before invoking a callback and
//! releases it on every exit path, including callback failure, so the lock is
//! free again before the next event is taken; no driving loop retains it
//! across a suspension point it does not own end to end.

use vstd::prelude::*;

verus! {

/// Construction interface shared by every mutex-like container the runtime
/// can put its state behind.
pub trait MutexInterface<T>: Sized {
    /// Wraps a value in a fresh, unlocked container.
    fn create(value: T) -> Self;
}

/// The lock-protected holder of the single application-state instance
/// visible to all callbacks.
pub struct SharedState<T> {
    value: T,
    locked: bool,
}

impl<T> SharedState<T> {
    /// The contained application state.
    pub closed spec fn value(self) -> T {
        self.value
    }

    /// Whether a callback currently holds exclusive access.
    pub closed spec fn locked(self) -> bool {
        self.locked
    }

    /// Takes exclusive access. The caller must know the container is free:
    /// only one callback executes against the state at a time.
    pub fn acquire(&mut self)
        requires
            !old(self).locked(),
        ensures
            final(self).locked(),
            final(self).value() == old(self).value(),
    {
        self.locked = true;
    }

    /// Returns exclusive access; runs on every exit path of a dispatch, a
    /// failed callback included.
    pub fn release(&mut self)
        requires
            old(self).locked(),
        ensures
            !final(self).locked(),
            final(self).value() == old(self).value(),
    {
        self.locked = false;
    }

    /// Mutable access to the contained value, for the one callback that holds
    /// the lock.
    pub fn get_mut(&mut self) -> (r: &mut T)
        requires
            old(self).locked(),
        ensures
            *r == old(self).value(),
            final(self).value() == *final(r),
            final(self).locked(),
    {
        &mut self.value
    }

    /// Shared read access to the contained value, for inspection between
    /// events while no callback holds the lock.
    pub fn get(&self) -> (r: &T)
        requires
            !self.locked(),
        ensures
            *r == self.value(),
    {
        &self.value
    }
}

impl<T> MutexInterface<T> for SharedState<T> {
    fn create(value: T) -> (r: Self)
        ensures
            r.value() == value,
            !r.locked(),
    {
        SharedState { value, locked: false }
    }
}

} // verus!
