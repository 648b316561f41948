//! The layer that flushes the changes made to the draw target on request.

use vstd::prelude::*;

use super::Wrapper;

verus! {

/// Wrapper with a function item for backends to call, flushing the changes made to the draw target
/// on request, which is needed for certain display device drivers.
#[derive(Debug)]
pub struct FlushWrapper<B, F> {
    backend: B,
    flush_fn: F,
}

impl<B, F> FlushWrapper<B, F> {
    /// The wrapped backend.
    pub closed spec fn backend(&self) -> B {
        self.backend
    }

    /// The function item that flushes the draw target.
    pub closed spec fn flush_fn(&self) -> F {
        self.flush_fn
    }

    /// Creates a new wrapper around the specified backend, configuring the specified function item
    /// as the one to invoke when the backend is flushed. All other methods call the backend as if
    /// there was no wrapper around it.
    pub fn new(backend: B, flush_fn: F) -> (r: Self)
        ensures
            r.backend() == backend,
            r.flush_fn() == flush_fn,
    {
        FlushWrapper { backend, flush_fn }
    }

    /// Returns the backend and the function item, both with exclusive access, so that the backend
    /// can hand its draw target to the function item.
    pub fn parts_mut(&mut self) -> (r: (&mut B, &mut F))
        ensures
            *r.0 == old(self).backend(),
            *r.1 == old(self).flush_fn(),
            final(self).backend() == *final(r.0),
            final(self).flush_fn() == *final(r.1),
    {
        (&mut self.backend, &mut self.flush_fn)
    }
}

impl<B, F> Wrapper for FlushWrapper<B, F> {
    type Inner = B;

    fn inner(&self) -> (r: &B)
        ensures
            *r == self.backend(),
    {
        &self.backend
    }

    fn inner_mut(&mut self) -> (r: &mut B)
        ensures
            *r == old(self).backend(),
            final(self).backend() == *final(r),
            final(self).flush_fn() == old(self).flush_fn(),
    {
        &mut self.backend
    }

    fn into_inner(self) -> (r: B)
        ensures
            r == self.backend(),
    {
        self.backend
    }
}

} // verus!
