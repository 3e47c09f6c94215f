//! An owning handle to a single heap-allocated value, backed by fallible
//! reservation: the storage is obtained with `Vec::try_reserve_exact`, which
//! reports failure as a value instead of aborting.

use vstd::prelude::*;

verus! {

/// Relies on `Vec::try_reserve_exact`: reserves capacity for exactly one
/// more element, returning `Err` instead of aborting when the allocator
/// cannot serve the request; the vector's contents are unchanged either way.
#[verifier::external_body]
pub(crate) fn try_reserve_one<T>(v: &mut Vec<T>) -> (r: Result<(), ()>)
    ensures
        final(v)@ == old(v)@,
{
    match v.try_reserve_exact(1) {
        Ok(()) => Ok(()),
        Err(_) => Err(()),
    }
}

/// An owned, fully initialized value on the heap: the success-path result of
/// a fallible allocation. Dropping the handle drops the value and frees the
/// allocation.
pub struct HeapBox<T> {
    inner: Vec<T>,
}

impl<T> View for HeapBox<T> {
    type V = T;

    /// The value the handle owns.
    closed spec fn view(&self) -> T {
        self.inner@[0]
    }
}

impl<T> HeapBox<T> {
    #[verifier::type_invariant]
    spec fn inv(self) -> bool {
        self.inner@.len() == 1
    }

    /// Wraps storage that holds exactly the one value.
    pub(crate) fn from_vec(inner: Vec<T>) -> (r: HeapBox<T>)
        requires
            inner@.len() == 1,
        ensures
            r@ == inner@[0],
    {
        HeapBox { inner }
    }

    /// Borrow the heap-allocated value.
    pub fn get(&self) -> (r: &T)
        ensures
            *r == self@,
    {
        proof {
            use_type_invariant(self);
        }
        &self.inner[0]
    }

    /// Move the value back out of the heap, freeing the allocation.
    pub fn into_inner(self) -> (r: T)
        ensures
            r == self@,
    {
        proof {
            use_type_invariant(&self);
        }
        let HeapBox { mut inner } = self;
        inner.pop().unwrap()
    }
}

} // verus!
