//! Per-type allocation metadata, reachable through a single-word accessor.
//!
//! A failed allocation is described by the layout it asked for. A `Layout` is
//! two machine words, so an error does not store one directly: it stores one
//! pointer to a monomorphized function that recomputes the layout on demand.
//! The pointer itself is opaque to the verifier; a ghost record beside it
//! states what every call of that function returns.

use vstd::prelude::*;
use vstd::layout::{size_of, align_of, valid_layout, layout_for_type_is_valid};

verus! {

/// The size and alignment that an allocation request asked for.
#[derive(Clone, Copy, PartialEq, Eq, Structural, Debug)]
pub struct Layout {
    pub size: usize,
    pub align: usize,
}

impl Layout {
    /// A layout the platform could actually allocate: the alignment is a
    /// nonzero power of two and the size, rounded up to it, fits an `isize`.
    pub open spec fn wf(self) -> bool {
        &&& valid_layout(self.size, self.align)
        &&& self.align != 0
        &&& self.size % self.align == 0
    }
}

/// A pointer to a monomorphized layout function.
///
/// The verifier does not support function-pointer types, so the pointer is
/// held behind this opaque single-field struct and is only ever created by
/// [`layout_fn_for`] and called by [`call_meta`].
#[verifier::external_body]
struct LayoutFn {
    f: fn() -> Layout,
}

/// A single-word metadata accessor paired with a ghost record of what it
/// returns. The pointer is the only field with a machine representation;
/// the model is erased at runtime.
pub struct MetaFn {
    ptr: LayoutFn,
    model: Ghost<Layout>,
}

impl MetaFn {
    /// What every call of the stored function returns.
    pub closed spec fn model(self) -> Layout {
        self.model@
    }

    /// Builds the accessor for `T`, recording in the ghost model exactly what
    /// `layout_of::<T>` reports.
    pub fn new_for<T>() -> (r: MetaFn)
        ensures
            r.model().size as nat == size_of::<T>(),
            r.model().align as nat == align_of::<T>(),
            r.model().wf(),
    {
        let l = layout_of::<T>();
        MetaFn { ptr: layout_fn_for::<T>(), model: Ghost(l) }
    }
}

/// The layout function for `T`: recomputes the layout on demand, so that
/// nothing but a pointer to it needs to be stored.
pub fn layout_of<T>() -> (r: Layout)
    ensures
        r.size as nat == size_of::<T>(),
        r.align as nat == align_of::<T>(),
        r.wf(),
{
    layout_for_type_is_valid::<T>();
    Layout { size: core::mem::size_of::<T>(), align: core::mem::align_of::<T>() }
}

/// Relies on Rust function items coercing to function pointers without
/// allocation: the result holds a pointer to `layout_of::<T>` and nothing
/// else.
#[verifier::external_body]
fn layout_fn_for<T>() -> (r: LayoutFn) {
    LayoutFn { f: layout_of::<T> }
}

/// Calls the stored layout function. Relies on the pointer having been made
/// by [`layout_fn_for`] for the same type the model was recorded from, and on
/// `core::mem::size_of` and `core::mem::align_of` returning the same values
/// on every call within one running program: the result equals the ghost
/// model.
#[verifier::external_body]
pub fn call_meta(m: &MetaFn) -> (r: Layout)
    ensures
        r == m.model(),
{
    (m.ptr.f)()
}

} // verus!
