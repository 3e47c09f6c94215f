//! Fallible heap allocation for a single boxed value.
//!
//! [`new`] tries to move a value to the heap and, when the allocator cannot
//! serve the request, hands the value back on the stack instead of aborting.
//! [`or_drop`] does the same but discards the value on failure, returning the
//! compact [`Error`], which fits in a single machine word.

use vstd::prelude::*;
use vstd::layout::size_of;

mod err;
mod heap;
mod meta;
pub mod render;

pub use err::Error;
pub use err::ErrorWith;
pub use err::lemma_layout_idempotent;
pub use heap::HeapBox;
pub use meta::Layout;
pub use render::render_message;

verus! {

/// Attempt to move `x` to a heap allocation, returning a wrapped `x` on
/// failure: the payload comes back exactly as it went in.
pub fn new<T>(x: T) -> (r: Result<HeapBox<T>, ErrorWith<T>>)
    ensures
        r matches Ok(b) ==> b@ == x,
        r matches Err(e) ==> e.0 == x,
        size_of::<T>() == 0 ==> r is Ok,
{
    match imp(x) {
        Ok(it) => Ok(it),
        Err(returned) => Err(ErrorWith(returned)),
    }
}

/// Attempt to move `x` to a heap allocation, immediately dropping `x` on
/// failure and returning a compact [`Error`] that still describes the
/// request.
pub fn or_drop<T>(x: T) -> (r: Result<HeapBox<T>, Error>)
    ensures
        r matches Ok(b) ==> b@ == x,
        r matches Err(e) ==> e@.size as nat == size_of::<T>() && e@.align as nat
            == vstd::layout::align_of::<T>() && e@.wf(),
        size_of::<T>() == 0 ==> r is Ok,
{
    match new(x) {
        Ok(it) => Ok(it),
        Err(e) => Err(e.without_payload()),
    }
}

/// The allocation routine. A zero-sized value needs no allocator call at
/// all; otherwise storage for exactly one value is reserved fallibly, and
/// only on success is `x` moved into it.
fn imp<T>(x: T) -> (r: Result<HeapBox<T>, T>)
    ensures
        r matches Ok(b) ==> b@ == x,
        r matches Err(y) ==> y == x,
        size_of::<T>() == 0 ==> r is Ok,
{
    let mut v: Vec<T> = Vec::new();
    if core::mem::size_of::<T>() == 0 {
        v.push(x);
        Ok(HeapBox::from_vec(v))
    } else {
        match heap::try_reserve_one(&mut v) {
            Ok(()) => {
                v.push(x);
                Ok(HeapBox::from_vec(v))
            },
            Err(_) => Err(x),
        }
    }
}

} // verus!
