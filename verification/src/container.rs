//! A reference-counted container whose single value is only ever read or
//! replaced inside an exclusive critical section.
//!
//! A [`SharedContainer`] owns one logical value of type `T` behind a verified
//! reader-writer lock. Any number of handles may refer to the same container;
//! [`SharedContainer::clone_handle`] produces a new handle without copying the
//! value. Exclusive access is only available through
//! [`SharedContainer::with_exclusive_access`], which passes the value to a
//! closure and stores what the closure returns, so no access outside a
//! critical section is possible by construction. A critical section that ends
//! abnormally leaves a poison mark behind; later critical sections then fail
//! with [`AccessOutcome::PoisonedLock`] until the poison is cleared
//! explicitly. A container created by
//! [`SharedContainer::create_poison_free`] admits only infallible critical
//! sections, and its lock invariant rules the poison mark out for the whole
//! life of the container: on such a container every access is proved to be
//! applied.

use vstd::prelude::*;
use vstd::rwlock::{RwLock, RwLockPredicate};
use std::sync::Arc;

verus! {

/// What a container's lock protects: either a healthy value, or the mark
/// left behind when a critical section ended abnormally while holding the
/// lock.
pub(crate) enum Slot<T> {
    Healthy(T),
    Poisoned,
}

/// Lock predicate for a container: a healthy value must satisfy the
/// invariant the container was created with, and the poison mark is
/// admissible only in containers whose critical sections are allowed to
/// fail. A container created for infallible sections can never hold the
/// mark, at birth or later.
#[verifier::reject_recursive_types(T)]
pub(crate) struct ContainerPred<T> {
    pub(crate) holds: Ghost<spec_fn(T) -> bool>,
    pub(crate) poison_allowed: Ghost<bool>,
}

impl<T> RwLockPredicate<Slot<T>> for ContainerPred<T> {
    closed spec fn inv(self, s: Slot<T>) -> bool {
        match s {
            Slot::Healthy(t) => (self.holds@)(t),
            Slot::Poisoned => self.poison_allowed@,
        }
    }
}

/// How a call to [`SharedContainer::with_exclusive_access`] ended.
#[derive(Debug, PartialEq, Eq)]
pub enum AccessOutcome<E> {
    /// The critical section ran to completion and its result was stored.
    Applied,
    /// The critical section failed; its value was discarded and the
    /// container is now poisoned.
    Faulted(E),
    /// A previous critical section on this container failed abnormally; the
    /// closure was never run and the container is unchanged.
    PoisonedLock,
}

/// Why [`SharedContainer::read_unsynchronized`] could not produce a value.
#[derive(Debug, PartialEq, Eq)]
pub enum ReadError {
    /// Other handles to the container still exist, so the caller is not the
    /// sole remaining holder.
    OtherHoldersRemain,
    /// The container was poisoned by a failed critical section.
    Poisoned,
}

/// An ownership handle to a single shared value of type `T`.
///
/// All handles obtained by [`SharedContainer::clone_handle`] refer to the
/// same underlying value; the storage is freed when the last handle is
/// dropped.
#[verifier::reject_recursive_types(T)]
pub struct SharedContainer<T> {
    inner: Arc<RwLock<Slot<T>, ContainerPred<T>>>,
}

impl<T> SharedContainer<T> {
    /// Whether the value `t` satisfies the invariant this container was
    /// created with; only such values can ever be stored in it.
    pub closed spec fn accepts(&self, t: T) -> bool {
        (*self.inner).inv(Slot::Healthy(t))
    }

    /// Whether this container admits the poison mark at all. A container
    /// created for infallible critical sections does not: it is healthy at
    /// birth and stays healthy, so access through it can never report
    /// [`AccessOutcome::PoisonedLock`].
    pub closed spec fn may_poison(&self) -> bool {
        (*self.inner).inv(Slot::Poisoned)
    }

    /// Allocates a value and its lock, with an invariant that every stored
    /// value must satisfy; never fails. Critical sections on the container
    /// may fail, so it can become poisoned.
    pub fn create_with_invariant(value: T, inv: Ghost<spec_fn(T) -> bool>) -> (c: Self)
        requires
            (inv@)(value),
        ensures
            forall|t: T| #[trigger] c.accepts(t) == (inv@)(t),
            c.may_poison(),
    {
        let pred = Ghost(ContainerPred { holds: inv, poison_allowed: Ghost(true) });
        let lock = RwLock::new(Slot::Healthy(value), pred);
        SharedContainer { inner: Arc::new(lock) }
    }

    /// Allocates a value and its lock for critical sections that cannot
    /// fail; never fails. The container starts healthy and can never become
    /// poisoned: the lock's own invariant rules the poison mark out, so it
    /// cannot be stored at creation or at any release.
    pub fn create_poison_free(value: T, inv: Ghost<spec_fn(T) -> bool>) -> (c: Self)
        requires
            (inv@)(value),
        ensures
            forall|t: T| #[trigger] c.accepts(t) == (inv@)(t),
            !c.may_poison(),
    {
        let pred = Ghost(ContainerPred { holds: inv, poison_allowed: Ghost(false) });
        let lock = RwLock::new(Slot::Healthy(value), pred);
        SharedContainer { inner: Arc::new(lock) }
    }

    /// Allocates a value and its lock; never fails. The container accepts
    /// every value of `T`, and may become poisoned by a failed critical
    /// section.
    pub fn create(value: T) -> (c: Self)
        ensures
            forall|t: T| c.accepts(t),
            c.may_poison(),
    {
        Self::create_with_invariant(value, Ghost(|t: T| true))
    }

    /// Returns a new ownership handle referring to the same underlying
    /// value; never fails, and does not copy the value.
    pub fn clone_handle(&self) -> (r: Self)
        ensures
            r == *self,
    {
        SharedContainer { inner: self.inner.clone() }
    }

    /// Blocks until no other holder is inside a critical section on this
    /// container, then runs `f` with exclusive access to the value and
    /// stores the value `f` returns.
    ///
    /// If `f` fails, the value is discarded and the container is poisoned.
    /// If a previous critical section already poisoned the container, `f` is
    /// never run and the call reports [`AccessOutcome::PoisonedLock`];
    /// clearing the poison takes an explicit
    /// [`SharedContainer::force_clear_poison`].
    pub fn with_exclusive_access<E, F: FnOnce(T) -> Result<T, E>>(&self, f: F) -> (r:
        AccessOutcome<E>)
        requires
            forall|t: T| self.accepts(t) ==> #[trigger] f.requires((t,)),
            forall|t: T, out: Result<T, E>|
                f.ensures((t, ), out) ==> (out matches Ok(u) ==> self.accepts(u)),
            !self.may_poison() ==> forall|t: T, out: Result<T, E>|
                #[trigger] f.ensures((t, ), out) ==> out is Ok,
        ensures
            r matches AccessOutcome::Faulted(e) ==> exists|t: T|
                #[trigger] self.accepts(t) && f.ensures((t, ), Err(e)),
            r is Applied ==> exists|t: T, u: T|
                self.accepts(t) && #[trigger] f.ensures((t, ), Ok(u)) && self.accepts(u),
            !self.may_poison() ==> r is Applied,
    {
        let (slot, write_handle) = self.inner.acquire_write();
        match slot {
            Slot::Poisoned => {
                write_handle.release_write(Slot::Poisoned);
                AccessOutcome::PoisonedLock
            },
            Slot::Healthy(t) => {
                match f(t) {
                    Ok(u) => {
                        write_handle.release_write(Slot::Healthy(u));
                        AccessOutcome::Applied
                    },
                    Err(e) => {
                        write_handle.release_write(Slot::Poisoned);
                        AccessOutcome::Faulted(e)
                    },
                }
            },
        }
    }

    /// Installs `replacement` if the container is poisoned, clearing the
    /// poison; reports whether it was poisoned. The caller vouches for the
    /// replacement by proving it satisfies the container's invariant. On a
    /// container that cannot be poisoned there is never anything to clear.
    pub fn force_clear_poison(&self, replacement: T) -> (was_poisoned: bool)
        requires
            self.accepts(replacement),
        ensures
            !self.may_poison() ==> !was_poisoned,
    {
        let (slot, write_handle) = self.inner.acquire_write();
        match slot {
            Slot::Poisoned => {
                write_handle.release_write(Slot::Healthy(replacement));
                true
            },
            Slot::Healthy(t) => {
                write_handle.release_write(Slot::Healthy(t));
                false
            },
        }
    }

    /// Consumes this handle and returns the current value without taking
    /// the lock. This succeeds exactly when this handle is the sole
    /// remaining holder and the container is not poisoned; any value it
    /// returns satisfies the container's invariant, and on a container that
    /// cannot be poisoned the only possible failure is that other holders
    /// remain.
    pub fn read_unsynchronized(self) -> (r: Result<T, ReadError>)
        ensures
            r matches Ok(t) ==> self.accepts(t),
            !self.may_poison() ==> !(r matches Err(e) && e == ReadError::Poisoned),
    {
        match arc_try_unwrap(self.inner) {
            Ok(lock) => match lock.into_inner() {
                Slot::Healthy(t) => Ok(t),
                Slot::Poisoned => Err(ReadError::Poisoned),
            },
            Err(_) => Err(ReadError::OtherHoldersRemain),
        }
    }
}

/// Relies on std's `Arc::try_unwrap`: it returns the inner value when the
/// argument is the sole remaining handle to the allocation, and gives the
/// argument back unchanged otherwise.
#[verifier::external_body]
fn arc_try_unwrap<T>(a: Arc<T>) -> (r: Result<T, Arc<T>>)
    ensures
        match r {
            Ok(v) => v == a,
            Err(e) => e == a,
        },
{
    Arc::try_unwrap(a)
}

} // verus!
