//! Streams: ordered execution queues bound to a context.

use vstd::prelude::*;
use super::{CuStatus, Cuda, CudaResult};
use crate::diag::Diagnostic;

verus! {

/// A stream, owned by its creator. It is created only through the bracket in
/// [`crate::cuda::context`], while its parent context is current; it is
/// destroyed independently of the context.
pub struct CuStream<'a> {
    pub(crate) lib: &'a Cuda,
    pub(crate) inner: u64,
}

impl<'a> CuStream<'a> {
    /// The raw native handle, in specifications.
    pub closed spec fn spec_handle(self) -> u64 {
        self.inner
    }

    pub(crate) fn from_raw(lib: &'a Cuda, inner: u64) -> (s: Self)
        ensures
            s.spec_handle() == inner,
    {
        CuStream { lib, inner }
    }

    /// The raw native handle, as further calls take it.
    pub fn handle(&self) -> (h: u64)
        ensures
            h == self.spec_handle(),
    {
        self.inner
    }

    /// Gives up ownership for destruction, exactly once: the embedding code
    /// passes [`StreamDestroy::handle`] to the driver's destroy entry point
    /// and reports the status to [`StreamDestroy::on_destroyed`]. The parent
    /// context need not be current for this call.
    pub fn teardown(self) -> (d: StreamDestroy)
        ensures
            d.spec_handle() == self.spec_handle(),
    {
        StreamDestroy { handle: self.inner }
    }
}

/// A stream handle awaiting its destroy call. Destruction failure is a logged
/// diagnostic, never an error to the caller.
pub struct StreamDestroy {
    handle: u64,
}

impl StreamDestroy {
    /// The handle to destroy, in specifications.
    pub closed spec fn spec_handle(self) -> u64 {
        self.handle
    }

    /// The handle to pass to the driver's destroy entry point.
    pub fn handle(&self) -> (h: u64)
        ensures
            h == self.spec_handle(),
    {
        self.handle
    }

    /// Consumes the destroy status: a failure yields a diagnostic record for
    /// the log and nothing else.
    pub fn on_destroyed(self, status: CuStatus) -> (d: Option<Diagnostic>)
        ensures
            d is Some <==> !status.is_success(),
            d matches Some(x) ==> x == Diagnostic::StreamDestroyFailed,
    {
        if status.ok() {
            None
        } else {
            Some(Diagnostic::StreamDestroyFailed)
        }
    }
}

} // verus!
