//! Device-driver subsystem: status normalization, device enumeration,
//! contexts and streams.

use vstd::prelude::*;

pub mod context;
pub mod device;
pub mod stream;

use self::context::CuContext;
use self::device::CuDevice;

verus! {

/// The driver's success sentinel: every other code is a failure.
pub const CUDA_SUCCESS: u32 = 0;

/// A raw status code returned by a driver entry point. Never stored by the
/// wrappers; always consumed at the call site into a `Result`.
#[derive(Clone, Copy, PartialEq, Eq, Structural, Debug, Hash)]
pub struct CuStatus(pub u32);

impl CuStatus {
    /// Whether this code is the driver's success sentinel.
    pub open spec fn is_success(self) -> bool {
        self.0 == CUDA_SUCCESS
    }
}

/// The uniform three-operation contract every driver status code is consumed
/// through: a success test, a unit outcome, and a value-carrying outcome that
/// preserves the raw code on failure.
pub trait CudaResult: Sized {
    /// What counts as success for this code domain.
    spec fn spec_success(self) -> bool;

    /// True iff the code equals the success sentinel.
    fn ok(&self) -> (r: bool)
        ensures
            r == self.spec_success(),
    ;

    /// A unit outcome: `Ok(())` on success, the raw code otherwise.
    fn err(&self) -> (r: Result<(), Self>)
        ensures
            r is Ok <==> self.spec_success(),
            r matches Err(e) ==> e == *self,
    ;

    /// A value-carrying outcome: the supplied value on success, the raw code
    /// otherwise. No information is discarded on failure.
    fn result<T>(&self, value: T) -> (r: Result<T, Self>)
        ensures
            self.spec_success() ==> (r matches Ok(v) && v == value),
            !self.spec_success() ==> (r matches Err(e) && e == *self),
    ;
}

impl CudaResult for CuStatus {
    open spec fn spec_success(self) -> bool {
        self.is_success()
    }

    fn ok(&self) -> bool {
        self.0 == CUDA_SUCCESS
    }

    fn err(&self) -> (r: Result<(), Self>) {
        if self.0 == CUDA_SUCCESS {
            Ok(())
        } else {
            Err(*self)
        }
    }

    fn result<T>(&self, value: T) -> (r: Result<T, Self>) {
        if self.0 == CUDA_SUCCESS {
            Ok(value)
        } else {
            Err(*self)
        }
    }
}

/// A witness that the driver library was loaded and its full entry-point
/// table resolved. Loading is unverifiable I/O: the embedding code constructs
/// this only after a successful load (which fails when the library or a
/// required symbol is missing) and keeps it alive for as long as any device,
/// context or stream derived through it — each derived wrapper borrows it, so
/// the library cannot be dropped out from under them.
pub struct Cuda {}

impl Cuda {
    /// A handle for a loaded, fully resolved driver table.
    pub fn new() -> Cuda {
        Cuda {  }
    }

    /// Interprets the once-per-process driver initialization: `status` is what
    /// the init entry point returned for the caller's flag word.
    pub fn init(&self, status: CuStatus) -> (r: Result<(), CuStatus>)
        ensures
            r is Ok <==> status.is_success(),
            r matches Err(e) ==> e == status,
    {
        status.err()
    }

    /// Interprets a device-count query: `count` is the driver's out-parameter.
    pub fn device_count(&self, status: CuStatus, count: i32) -> (r: Result<i32, CuStatus>)
        ensures
            r is Ok <==> status.is_success(),
            r matches Ok(v) ==> v == count,
            r matches Err(e) ==> e == status,
    {
        status.result(count)
    }

    /// Interprets an ordinal lookup: the embedding code passed an ordinal to
    /// the device-get entry point and got back `status` and the device
    /// identifier `handle`. On success the returned device borrows this
    /// driver table.
    pub fn new_device<'a>(&'a self, status: CuStatus, handle: i32) -> (r: Result<
        CuDevice<'a>,
        CuStatus,
    >)
        ensures
            r is Ok <==> status.is_success(),
            r matches Ok(d) ==> d.spec_handle() == handle,
            r matches Err(e) ==> e == status,
    {
        if status.ok() {
            Ok(CuDevice::from_raw(self, handle))
        } else {
            Err(status)
        }
    }

    /// Interprets context creation for a device: `handle` is the native
    /// context handle the driver wrote. A successful creation never yields a
    /// null handle — the driver writes one before reporting success, and the
    /// embedding code must not report success otherwise (the original binding
    /// treats that combination as a programming error and aborts).
    pub fn new_context<'a>(&'a self, status: CuStatus, handle: u64) -> (r: Result<
        CuContext<'a>,
        CuStatus,
    >)
        requires
            status.is_success() ==> handle != 0,
        ensures
            r is Ok <==> status.is_success(),
            r matches Ok(c) ==> c.spec_handle() == handle && c.spec_handle() != 0,
            r matches Err(e) ==> e == status,
    {
        if status.ok() {
            Ok(CuContext::from_raw(self, handle))
        } else {
            Err(status)
        }
    }
}

} // verus!
