//! The two shapes of an allocation failure: with and without the payload.

use vstd::prelude::*;
use vstd::layout::{size_of, align_of};
use crate::meta::{Layout, MetaFn, call_meta, layout_of};

verus! {

/// An allocation failure stripped of its payload.
///
/// Designed to be small and propagatable: the only field with a machine
/// representation is a single-word metadata accessor, so the whole struct is
/// the size of one `usize`.
pub struct Error {
    meta: MetaFn,
}

impl View for Error {
    type V = Layout;

    /// The layout of the allocation that failed.
    closed spec fn view(&self) -> Layout {
        self.meta.model()
    }
}

impl Error {
    #[verifier::type_invariant]
    spec fn inv(self) -> bool {
        self.meta.model().wf()
    }

    /// The [`Layout`] that corresponds to the failed allocation.
    pub fn layout(&self) -> (r: Layout)
        ensures
            r == self@,
            r.wf(),
    {
        proof {
            use_type_invariant(self);
        }
        call_meta(&self.meta)
    }

    /// Report the failed request to the global allocator's failure routine,
    /// which aborts the process. Intended for callers that decide, after
    /// inspecting the error, that the condition is unrecoverable.
    pub fn handle(self) {
        let l = self.layout();
        abort_alloc(l);
    }
}

/// Law: asking an error for its layout gives one identical result every
/// time — any two values that meet the contract of [`Error::layout`] for the
/// same error are equal.
pub proof fn lemma_layout_idempotent(e: &Error, a: Layout, b: Layout)
    requires
        a == e@,
        b == e@,
    ensures
        a == b,
{
}

/// Relies on `std::alloc::handle_alloc_error`: prints a diagnostic for the
/// failed request and aborts the process. It never returns, so nothing can be
/// observed of it; the `requires` keeps the layout conversion from failing.
#[verifier::external_body]
fn abort_alloc(l: Layout)
    requires
        l.wf(),
{
    if let Ok(layout) = core::alloc::Layout::from_size_align(l.size, l.align) {
        std::alloc::handle_alloc_error(layout);
    }
}

/// An allocation failure that still owns the value which could not be moved
/// to the heap. The payload is returned to the caller exactly as it was.
#[derive(Debug)]
pub struct ErrorWith<T>(pub T);

impl<T> ErrorWith<T> {
    /// The layout that the failed allocation asked for.
    pub fn layout(&self) -> (r: Layout)
        ensures
            r.size as nat == size_of::<T>(),
            r.align as nat == align_of::<T>(),
            r.wf(),
    {
        layout_of::<T>()
    }

    /// Drop the payload, keeping only the compact description of the failure.
    /// Moves one word and runs the payload's own destructor: no allocation
    /// takes place.
    pub fn without_payload(self) -> (r: Error)
        ensures
            r@.size as nat == size_of::<T>(),
            r@.align as nat == align_of::<T>(),
            r@.wf(),
    {
        Error { meta: MetaFn::new_for::<T>() }
    }
}

} // verus!
