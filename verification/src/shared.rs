//! The shared cell: the container every composite runtime value sits behind,
//! enforcing the dynamic borrow rules — any number of concurrent immutable
//! borrows, or exactly one mutable borrow, never both.
//!
//! A borrow is represented by a guard token; handing the token back releases
//! the borrow. The `owned` flavors are the guards the host-interop layer
//! holds across a host function call; they obey the same counting rules.

use crate::error::BorrowError;
use vstd::prelude::*;

verus! {

/// A guard for a shared (immutable) borrow tied to the caller's scope.
#[derive(Debug)]
pub struct Ref;

/// A guard for an exclusive (mutable) borrow tied to the caller's scope.
#[derive(Debug)]
pub struct Mut;

/// A guard for a shared borrow that may outlive the caller's frame.
#[derive(Debug)]
pub struct OwnedRef;

/// A guard for an exclusive borrow that may outlive the caller's frame.
#[derive(Debug)]
pub struct OwnedMut;

/// A container with dynamic borrow counting.
///
/// The cell holds two counters: the number of outstanding shared borrows and
/// whether an exclusive borrow is outstanding. Every operation preserves the
/// discipline stated by [`Shared::wf`], and an attempt that would violate it
/// fails with [`BorrowError`] instead of blocking.
#[derive(Clone, Debug)]
pub struct Shared<T> {
    value: T,
    shared: usize,
    exclusive: bool,
}

/// A cell is structurally larger than the payload it holds, which lets
/// recursion descend from a value into a cell's payload.
pub broadcast proof fn lemma_shared_payload_decreases<T>(c: Shared<T>)
    ensures
        #[trigger] (decreases_to!(c => c.payload())),
{
    assert(decreases_to!(c => c.value));
}

impl<T> Shared<T> {
    /// The payload the cell holds.
    pub closed spec fn payload(self) -> T {
        self.value
    }

    /// The number of outstanding shared borrows.
    pub closed spec fn shared_count(self) -> nat {
        self.shared as nat
    }

    /// Whether an exclusive borrow is outstanding.
    pub closed spec fn is_exclusive(self) -> bool {
        self.exclusive
    }

    /// The borrow discipline: an exclusive borrow excludes all shared ones.
    pub open spec fn wf(self) -> bool {
        self.is_exclusive() ==> self.shared_count() == 0
    }

    /// Whether the cell is as freshly constructed: no borrows outstanding.
    pub open spec fn is_fresh(self) -> bool {
        self.shared_count() == 0 && !self.is_exclusive()
    }

    /// Construct a cell around a payload, with no borrows outstanding.
    pub fn new(value: T) -> (c: Shared<T>)
        ensures
            c.payload() == value,
            c.shared_count() == 0,
            !c.is_exclusive(),
            c.wf(),
    {
        Shared { value, shared: 0, exclusive: false }
    }

    /// Take a shared borrow tied to the caller's scope.
    ///
    /// Succeeds exactly when no exclusive borrow is outstanding and the
    /// counter can still grow; the payload is untouched either way.
    pub fn borrow_ref(&mut self) -> (r: Result<Ref, BorrowError>)
        ensures
            final(self).payload() == old(self).payload(),
            final(self).is_exclusive() == old(self).is_exclusive(),
            r matches Ok(_) <==> !old(self).is_exclusive() && old(self).shared_count()
                < usize::MAX,
            r matches Ok(_) ==> final(self).shared_count() == old(self).shared_count() + 1,
            r matches Err(_) ==> *final(self) == *old(self),
            old(self).wf() ==> final(self).wf(),
    {
        if self.exclusive || self.shared == usize::MAX {
            Err(BorrowError)
        } else {
            self.shared = self.shared + 1;
            Ok(Ref)
        }
    }

    /// Take an exclusive borrow tied to the caller's scope.
    ///
    /// Succeeds exactly when no borrow of either kind is outstanding; the
    /// payload is untouched either way.
    pub fn borrow_mut(&mut self) -> (r: Result<Mut, BorrowError>)
        ensures
            final(self).payload() == old(self).payload(),
            final(self).shared_count() == old(self).shared_count(),
            r matches Ok(_) <==> !old(self).is_exclusive() && old(self).shared_count() == 0,
            r matches Ok(_) ==> final(self).is_exclusive(),
            r matches Err(_) ==> *final(self) == *old(self),
            old(self).wf() ==> final(self).wf(),
    {
        if self.exclusive || self.shared > 0 {
            Err(BorrowError)
        } else {
            self.exclusive = true;
            Ok(Mut)
        }
    }

    /// Take a shared borrow whose guard may outlive the caller's frame.
    pub fn owned_ref(&mut self) -> (r: Result<OwnedRef, BorrowError>)
        ensures
            final(self).payload() == old(self).payload(),
            final(self).is_exclusive() == old(self).is_exclusive(),
            r matches Ok(_) <==> !old(self).is_exclusive() && old(self).shared_count()
                < usize::MAX,
            r matches Ok(_) ==> final(self).shared_count() == old(self).shared_count() + 1,
            r matches Err(_) ==> *final(self) == *old(self),
            old(self).wf() ==> final(self).wf(),
    {
        match self.borrow_ref() {
            Ok(_) => Ok(OwnedRef),
            Err(e) => Err(e),
        }
    }

    /// Take an exclusive borrow whose guard may outlive the caller's frame.
    pub fn owned_mut(&mut self) -> (r: Result<OwnedMut, BorrowError>)
        ensures
            final(self).payload() == old(self).payload(),
            final(self).shared_count() == old(self).shared_count(),
            r matches Ok(_) <==> !old(self).is_exclusive() && old(self).shared_count() == 0,
            r matches Ok(_) ==> final(self).is_exclusive(),
            r matches Err(_) ==> *final(self) == *old(self),
            old(self).wf() ==> final(self).wf(),
    {
        match self.borrow_mut() {
            Ok(_) => Ok(OwnedMut),
            Err(e) => Err(e),
        }
    }

    /// Release a shared borrow by handing its guard back.
    pub fn release_ref(&mut self, guard: Ref)
        requires
            old(self).shared_count() > 0,
        ensures
            final(self).payload() == old(self).payload(),
            final(self).shared_count() == old(self).shared_count() - 1,
            final(self).is_exclusive() == old(self).is_exclusive(),
            old(self).wf() ==> final(self).wf(),
    {
        let Ref = guard;
        self.shared = self.shared - 1;
    }

    /// Release an exclusive borrow by handing its guard back.
    pub fn release_mut(&mut self, guard: Mut)
        requires
            old(self).is_exclusive(),
        ensures
            final(self).payload() == old(self).payload(),
            final(self).shared_count() == old(self).shared_count(),
            !final(self).is_exclusive(),
            final(self).wf(),
    {
        let Mut = guard;
        self.exclusive = false;
    }

    /// Release a shared borrow held across a host call.
    pub fn release_owned_ref(&mut self, guard: OwnedRef)
        requires
            old(self).shared_count() > 0,
        ensures
            final(self).payload() == old(self).payload(),
            final(self).shared_count() == old(self).shared_count() - 1,
            final(self).is_exclusive() == old(self).is_exclusive(),
            old(self).wf() ==> final(self).wf(),
    {
        let OwnedRef = guard;
        self.shared = self.shared - 1;
    }

    /// Release an exclusive borrow held across a host call.
    pub fn release_owned_mut(&mut self, guard: OwnedMut)
        requires
            old(self).is_exclusive(),
        ensures
            final(self).payload() == old(self).payload(),
            final(self).shared_count() == old(self).shared_count(),
            !final(self).is_exclusive(),
            final(self).wf(),
    {
        let OwnedMut = guard;
        self.exclusive = false;
    }

    /// Read the payload. Fails with [`BorrowError`] exactly when an exclusive
    /// borrow is outstanding.
    pub fn try_read(&self) -> (r: Result<&T, BorrowError>)
        ensures
            r matches Ok(v) ==> !self.is_exclusive() && *v == self.payload(),
            r matches Err(_) <==> self.is_exclusive(),
    {
        if self.exclusive {
            Err(BorrowError)
        } else {
            Ok(&self.value)
        }
    }

    /// Write access to the payload while an exclusive borrow is held.
    pub fn get_mut(&mut self) -> (r: &mut T)
        requires
            old(self).is_exclusive(),
        ensures
            *r == old(self).payload(),
            final(self).payload() == *final(r),
            final(self).shared_count() == old(self).shared_count(),
            final(self).is_exclusive(),
    {
        &mut self.value
    }

    /// Move the payload out, consuming the cell. Fails with [`BorrowError`]
    /// exactly when any borrow is outstanding.
    pub fn take(self) -> (r: Result<T, BorrowError>)
        ensures
            r matches Ok(v) ==> v == self.payload(),
            r matches Ok(_) <==> !self.is_exclusive() && self.shared_count() == 0,
    {
        if self.exclusive || self.shared > 0 {
            Err(BorrowError)
        } else {
            Ok(self.value)
        }
    }
}

} // verus!
