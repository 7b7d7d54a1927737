//! A middleware layer that logs each invocation around an inner service.

use vstd::prelude::*;

verus! {

/// Layer that wraps a service in a [`LoggingService`].
pub struct LoggingLayer;

/// Service that logs the request id of each invocation, then the completion
/// of the invocation, around the inner service.
pub struct LoggingService<S> {
    inner: S,
}

impl LoggingLayer {
    /// Wraps `inner` in a logging service.
    pub fn layer<S>(&self, inner: S) -> (r: LoggingService<S>)
        ensures
            r.spec_inner() == inner,
    {
        LoggingService { inner }
    }
}

impl<S> LoggingService<S> {
    /// The wrapped service.
    pub closed spec fn spec_inner(&self) -> S {
        self.inner
    }

    /// The wrapped service, to be called for the invocation.
    pub fn inner_mut(&mut self) -> (r: &mut S)
        ensures
            *r == old(self).spec_inner(),
            final(self).spec_inner() == *final(r),
    {
        &mut self.inner
    }
}

} // verus!
