//! Contexts: the unit of GPU resource ownership, and the push / create / pop
//! bracket that stream creation must follow.
//!
//! The driver models "current context" as implicit, mutable, thread-local
//! state. Creating a stream requires pushing its owning context, creating,
//! and popping again — and the pop must happen even when creation fails, or
//! the thread-local state leaks across the failure boundary. The typestate
//! values here make that order the only one that can be driven: the create
//! step is reachable only from a successful push, and the only way to an
//! outcome leads through the pop step.

use vstd::prelude::*;
use super::{CuStatus, Cuda, CudaResult};
use super::stream::CuStream;
use crate::diag::Diagnostic;

verus! {

/// Stream-creation flag word selecting the default (implicitly ordered)
/// behaviour.
pub const CU_STREAM_DEFAULT: u32 = 0;

/// Stream-creation flag word selecting non-blocking behaviour.
pub const CU_STREAM_NON_BLOCKING: u32 = 1;

/// The flag word stream creation passes to the driver.
pub open spec fn spec_stream_flags(non_blocking: bool) -> u32 {
    if non_blocking {
        CU_STREAM_NON_BLOCKING
    } else {
        CU_STREAM_DEFAULT
    }
}

/// What the create step yields: the new stream handle, or the raw status the
/// driver failed with.
pub open spec fn spec_create_outcome(status: CuStatus, handle: u64) -> Result<u64, CuStatus> {
    if status.is_success() {
        Ok(handle)
    } else {
        Err(status)
    }
}

/// What the bracket surfaces after the pop: a pop failure takes precedence,
/// otherwise the create step's own outcome stands.
pub open spec fn spec_pop_outcome(created: Result<u64, CuStatus>, pop: CuStatus) -> Result<
    u64,
    CuStatus,
> {
    if !pop.is_success() {
        Err(pop)
    } else {
        created
    }
}

/// The whole bracket, as a function of the three statuses the driver returns
/// and the handle it writes: push failure aborts before creation; any later
/// path runs through the pop.
pub open spec fn spec_stream_bracket(
    push: CuStatus,
    create: CuStatus,
    handle: u64,
    pop: CuStatus,
) -> Result<u64, CuStatus> {
    if !push.is_success() {
        Err(push)
    } else {
        spec_pop_outcome(spec_create_outcome(create, handle), pop)
    }
}

/// A context: a GPU resource-management scope, owned exclusively by its
/// creator. Its native handle is never null — checked at construction, kept
/// as a type invariant.
pub struct CuContext<'a> {
    pub(crate) lib: &'a Cuda,
    pub(crate) inner: u64,
}

impl<'a> CuContext<'a> {
    /// The context's native handle is never null.
    #[verifier::type_invariant]
    pub closed spec fn wf(self) -> bool {
        self.inner != 0
    }

    /// The raw native handle, in specifications.
    pub closed spec fn spec_handle(self) -> u64 {
        self.inner
    }

    pub(crate) fn from_raw(lib: &'a Cuda, inner: u64) -> (c: Self)
        requires
            inner != 0,
        ensures
            c.spec_handle() == inner,
    {
        CuContext { lib, inner }
    }

    /// The raw native handle, as further driver and encoder calls take it.
    pub fn handle(&self) -> (h: u64)
        ensures
            h == self.spec_handle(),
            h != 0,
    {
        proof {
            use_type_invariant(self);
        }
        self.inner
    }

    /// Interprets an API-version query on this context: `version` is the
    /// driver's out-parameter.
    pub fn get_api_version(&self, status: CuStatus, version: u32) -> (r: Result<u32, CuStatus>)
        ensures
            r is Ok <==> status.is_success(),
            r matches Ok(v) ==> v == version,
            r matches Err(e) ==> e == status,
    {
        status.result(version)
    }

    /// Begins the stream-creation bracket. The embedding code must push this
    /// context onto the thread's current-context stack ([`StreamPush::target`])
    /// and report the driver's answer to [`StreamPush::on_pushed`].
    pub fn new_stream(&self, non_blocking: bool) -> (p: StreamPush<'a>)
        ensures
            p.spec_target() == self.spec_handle(),
            p.spec_flags() == spec_stream_flags(non_blocking),
    {
        StreamPush {
            lib: self.lib,
            ctx: self.handle(),
            flags: if non_blocking {
                CU_STREAM_NON_BLOCKING
            } else {
                CU_STREAM_DEFAULT
            },
        }
    }

    /// Gives up ownership for destruction, exactly once: the embedding code
    /// passes [`ContextDestroy::handle`] to the driver's destroy entry point
    /// and reports the status to [`ContextDestroy::on_destroyed`].
    pub fn teardown(self) -> (d: ContextDestroy)
        ensures
            d.spec_handle() == self.spec_handle(),
    {
        proof {
            use_type_invariant(&self);
        }
        ContextDestroy { handle: self.inner }
    }
}

/// First bracket step: the context is about to be pushed current.
pub struct StreamPush<'a> {
    lib: &'a Cuda,
    ctx: u64,
    flags: u32,
}

impl<'a> StreamPush<'a> {
    /// The handle to push, in specifications.
    pub closed spec fn spec_target(self) -> u64 {
        self.ctx
    }

    /// The flag word the later create step will use.
    pub closed spec fn spec_flags(self) -> u32 {
        self.flags
    }

    /// The context handle to pass to the driver's push-current entry point.
    pub fn target(&self) -> (h: u64)
        ensures
            h == self.spec_target(),
    {
        self.ctx
    }

    /// Consumes the push status. Only a successful push reaches the create
    /// step; a failed push aborts the bracket before anything needs cleanup.
    pub fn on_pushed(self, status: CuStatus) -> (r: Result<StreamCreate<'a>, CuStatus>)
        ensures
            r is Ok <==> status.is_success(),
            r matches Ok(c) ==> c.spec_flags() == self.spec_flags(),
            r matches Err(e) ==> e == status,
    {
        if status.ok() {
            Ok(StreamCreate { lib: self.lib, flags: self.flags })
        } else {
            Err(status)
        }
    }
}

/// Second bracket step, reachable only from a successful push: the stream is
/// about to be created while the context is current.
pub struct StreamCreate<'a> {
    lib: &'a Cuda,
    flags: u32,
}

impl<'a> StreamCreate<'a> {
    /// The flag word for the create call, in specifications.
    pub closed spec fn spec_flags(self) -> u32 {
        self.flags
    }

    /// The flag word to pass to the driver's stream-create entry point.
    pub fn flags(&self) -> (f: u32)
        ensures
            f == self.spec_flags(),
    {
        self.flags
    }

    /// Consumes the create status and the handle the driver wrote. Whether
    /// creation succeeded or not, the bracket continues to the pop step:
    /// cleanup of the thread-local current-context state happens on the
    /// failure path too.
    pub fn on_created(self, status: CuStatus, handle: u64) -> (p: StreamPop<'a>)
        ensures
            p.spec_created() == spec_create_outcome(status, handle),
    {
        StreamPop { lib: self.lib, created: status.result(handle) }
    }
}

/// Final bracket step: the context must be popped again before any outcome is
/// surfaced.
pub struct StreamPop<'a> {
    lib: &'a Cuda,
    created: Result<u64, CuStatus>,
}

impl<'a> StreamPop<'a> {
    /// What the create step yielded, in specifications.
    pub closed spec fn spec_created(self) -> Result<u64, CuStatus> {
        self.created
    }

    /// Consumes the pop status and surfaces the bracket's outcome: a pop
    /// failure takes precedence, otherwise the create step's outcome stands.
    pub fn on_popped(self, status: CuStatus) -> (r: Result<CuStream<'a>, CuStatus>)
        ensures
            r is Ok <==> spec_pop_outcome(self.spec_created(), status) is Ok,
            r matches Ok(s) ==> s.spec_handle() == spec_pop_outcome(
                self.spec_created(),
                status,
            )->Ok_0,
            r matches Err(e) ==> e == spec_pop_outcome(self.spec_created(), status)->Err_0,
    {
        if status.ok() {
            match self.created {
                Ok(handle) => Ok(CuStream::from_raw(self.lib, handle)),
                Err(e) => Err(e),
            }
        } else {
            Err(status)
        }
    }
}

/// A context handle awaiting its destroy call. Destruction failure is a
/// logged diagnostic, never an error to the caller.
pub struct ContextDestroy {
    handle: u64,
}

impl ContextDestroy {
    /// The handle to destroy, in specifications.
    pub closed spec fn spec_handle(self) -> u64 {
        self.handle
    }

    /// The handle to pass to the driver's destroy entry point.
    pub fn handle(&self) -> (h: u64)
        ensures
            h == self.spec_handle(),
    {
        self.handle
    }

    /// Consumes the destroy status: a failure yields a diagnostic record for
    /// the log and nothing else.
    pub fn on_destroyed(self, status: CuStatus) -> (d: Option<Diagnostic>)
        ensures
            d is Some <==> !status.is_success(),
            d matches Some(x) ==> x == Diagnostic::ContextDestroyFailed,
    {
        if status.ok() {
            None
        } else {
            Some(Diagnostic::ContextDestroyFailed)
        }
    }
}

/// The bracket's outcome, for every combination of driver answers: it is a
/// success exactly when push, create and pop all succeeded, and it then
/// carries the created handle. A push failure surfaces as-is and nothing else
/// runs; after a successful push, a pop failure takes precedence over the
/// create outcome.
pub proof fn lemma_stream_bracket(push: CuStatus, create: CuStatus, handle: u64, pop: CuStatus)
    ensures
        spec_stream_bracket(push, create, handle, pop) is Ok <==> (push.is_success()
            && create.is_success() && pop.is_success()),
        spec_stream_bracket(push, create, handle, pop) matches Ok(h) ==> h == handle,
        !push.is_success() ==> spec_stream_bracket(push, create, handle, pop) == Err::<
            u64,
            CuStatus,
        >(push),
        push.is_success() && !pop.is_success() ==> spec_stream_bracket(push, create, handle, pop)
            == Err::<u64, CuStatus>(pop),
        push.is_success() && pop.is_success() && !create.is_success() ==> spec_stream_bracket(
            push,
            create,
            handle,
            pop,
        ) == Err::<u64, CuStatus>(create),
{
}

} // verus!
