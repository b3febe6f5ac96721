//! Devices: opaque integer identifiers naming a physical GPU.

use vstd::prelude::*;
use super::{CuStatus, Cuda, CudaResult};

verus! {

/// A compute device, obtained by ordinal lookup through [`Cuda::new_device`].
/// It owns no native resource; it carries a back-reference to the loaded
/// driver table, so it cannot outlive it.
#[derive(Clone, Copy)]
pub struct CuDevice<'a> {
    pub(crate) lib: &'a Cuda,
    pub(crate) inner: i32,
}

impl<'a> CuDevice<'a> {
    /// The raw device identifier, in specifications.
    pub closed spec fn spec_handle(self) -> i32 {
        self.inner
    }

    pub(crate) fn from_raw(lib: &'a Cuda, inner: i32) -> (d: Self)
        ensures
            d.spec_handle() == inner,
    {
        CuDevice { lib, inner }
    }

    /// The raw device identifier, as the driver's further entry points
    /// (attribute, name, memory queries) take it.
    pub fn handle(&self) -> (h: i32)
        ensures
            h == self.spec_handle(),
    {
        self.inner
    }

    /// Interprets an attribute query: the embedding code passed an attribute
    /// kind and this device's identifier to the driver and got back `status`
    /// and the out-parameter `value`.
    pub fn get_attribute(&self, status: CuStatus, value: i32) -> (r: Result<i32, CuStatus>)
        ensures
            r is Ok <==> status.is_success(),
            r matches Ok(v) ==> v == value,
            r matches Err(e) ==> e == status,
    {
        status.result(value)
    }

    /// The zeroed byte buffer a name query is issued with; the driver writes
    /// a nul-terminated identifier string into it.
    pub fn name_buffer() -> (v: Vec<u8>)
        ensures
            v@.len() == 256,
            forall|i: int| 0 <= i < v@.len() ==> v@[i] == 0u8,
    {
        let mut v: Vec<u8> = Vec::new();
        let mut n: usize = 0;
        while n < 256
            invariant
                n == v@.len(),
                n <= 256,
                forall|i: int| 0 <= i < v@.len() ==> v@[i] == 0u8,
            decreases 256 - n,
        {
            v.push(0u8);
            n = n + 1;
        }
        v
    }

    /// Interprets a name query: on success the buffer the driver filled is
    /// handed back unchanged for decoding by the embedding code.
    pub fn get_name(&self, status: CuStatus, name: Vec<u8>) -> (r: Result<Vec<u8>, CuStatus>)
        ensures
            r is Ok <==> status.is_success(),
            r matches Ok(v) ==> v@ == name@,
            r matches Err(e) ==> e == status,
    {
        status.result(name)
    }

    /// Interprets a total-memory query: `bytes` is the driver's out-parameter.
    pub fn get_total_mem(&self, status: CuStatus, bytes: u64) -> (r: Result<u64, CuStatus>)
        ensures
            r is Ok <==> status.is_success(),
            r matches Ok(v) ==> v == bytes,
            r matches Err(e) ==> e == status,
    {
        status.result(bytes)
    }
}

} // verus!
