//! Image-processing subsystem: status normalization and the NV12-to-packed
//! color-conversion façade.

use vstd::prelude::*;

pub mod color;

verus! {

/// The image-processing library's success sentinel. Error codes are negative,
/// warnings positive; this layer treats everything but the sentinel as failure.
pub const NPP_SUCCESS: i32 = 0;

/// A raw status code returned by an image-processing entry point.
#[derive(Clone, Copy, PartialEq, Eq, Structural, Debug, Hash)]
pub struct NppStatus(pub i32);

impl NppStatus {
    /// Whether this code is the image-processing library's success sentinel.
    pub open spec fn is_success(self) -> bool {
        self.0 == NPP_SUCCESS
    }
}

/// The uniform three-operation contract every image-processing status code is
/// consumed through.
pub trait NppResult: Sized {
    /// What counts as success for this code domain.
    spec fn spec_success(self) -> bool;

    /// True iff the code equals the success sentinel.
    fn ok(&self) -> (r: bool)
        ensures
            r == self.spec_success(),
    ;

    /// A unit outcome: `Ok(())` on success, the raw code otherwise.
    fn err(&self) -> (r: Result<(), Self>)
        ensures
            r is Ok <==> self.spec_success(),
            r matches Err(e) ==> e == *self,
    ;

    /// A value-carrying outcome: the supplied value on success, the raw code
    /// otherwise.
    fn result<T>(&self, value: T) -> (r: Result<T, Self>)
        ensures
            self.spec_success() ==> (r matches Ok(v) && v == value),
            !self.spec_success() ==> (r matches Err(e) && e == *self),
    ;
}

impl NppResult for NppStatus {
    open spec fn spec_success(self) -> bool {
        self.is_success()
    }

    fn ok(&self) -> bool {
        self.0 == NPP_SUCCESS
    }

    fn err(&self) -> (r: Result<(), Self>) {
        if self.0 == NPP_SUCCESS {
            Ok(())
        } else {
            Err(*self)
        }
    }

    fn result<T>(&self, value: T) -> (r: Result<T, Self>) {
        if self.0 == NPP_SUCCESS {
            Ok(value)
        } else {
            Err(*self)
        }
    }
}

} // verus!
