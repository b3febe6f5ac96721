//! Encoder subsystem: status normalization, the versioned configuration
//! records an encode session is opened with, and the session lifecycle.

use vstd::prelude::*;
use crate::cuda::context::CuContext;
use crate::diag::Diagnostic;

verus! {

/// The encoder library's success sentinel.
pub const NV_ENC_SUCCESS: u32 = 0;

/// A raw status code returned by an encoder entry point.
#[derive(Clone, Copy, PartialEq, Eq, Structural, Debug, Hash)]
pub struct EncStatus(pub u32);

impl EncStatus {
    /// Whether this code is the encoder library's success sentinel.
    pub open spec fn is_success(self) -> bool {
        self.0 == NV_ENC_SUCCESS
    }
}

/// The uniform three-operation contract every encoder status code is consumed
/// through; the shape is shared with the other subsystems, the code domain is
/// not.
pub trait EncodeResult: Sized {
    /// What counts as success for this code domain.
    spec fn spec_success(self) -> bool;

    /// True iff the code equals the success sentinel.
    fn ok(&self) -> (r: bool)
        ensures
            r == self.spec_success(),
    ;

    /// A unit outcome: `Ok(())` on success, the raw code otherwise.
    fn err(&self) -> (r: Result<(), Self>)
        ensures
            r is Ok <==> self.spec_success(),
            r matches Err(e) ==> e == *self,
    ;

    /// A value-carrying outcome: the supplied value on success, the raw code
    /// otherwise.
    fn result<T>(&self, value: T) -> (r: Result<T, Self>)
        ensures
            self.spec_success() ==> (r matches Ok(v) && v == value),
            !self.spec_success() ==> (r matches Err(e) && e == *self),
    ;
}

impl EncodeResult for EncStatus {
    open spec fn spec_success(self) -> bool {
        self.is_success()
    }

    fn ok(&self) -> bool {
        self.0 == NV_ENC_SUCCESS
    }

    fn err(&self) -> (r: Result<(), Self>) {
        if self.0 == NV_ENC_SUCCESS {
            Ok(())
        } else {
            Err(*self)
        }
    }

    fn result<T>(&self, value: T) -> (r: Result<T, Self>) {
        if self.0 == NV_ENC_SUCCESS {
            Ok(value)
        } else {
            Err(*self)
        }
    }
}

/// Major version of the encoder API this binding targets.
pub const NVENCAPI_MAJOR_VERSION: u32 = 11;

/// Minor version of the encoder API this binding targets.
pub const NVENCAPI_MINOR_VERSION: u32 = 0;

/// The API version tag passed inside every versioned record: the major
/// version in the low bits, the minor version in the top byte.
pub const NVENCAPI_VERSION: u32 = NVENCAPI_MAJOR_VERSION | (NVENCAPI_MINOR_VERSION << 24);

/// The version tag of the session-open parameter record: the API version,
/// the record's own revision in bits 16..23, and a fixed 0x7 marker in the
/// top nibble.
pub const NV_ENC_OPEN_ENCODE_SESSION_EX_PARAMS_VER: u32 = NVENCAPI_VERSION | (1u32 << 16) | (
0x7u32 << 28);

/// The version tag of the function-list record filled by the encoder
/// library's instance-creation entry point.
pub const NV_ENCODE_API_FUNCTION_LIST_VER: u32 = NVENCAPI_VERSION | (2u32 << 16) | (0x7u32
    << 28);

/// Device-type tag saying the target device is given as a GPU context handle.
pub const NV_ENC_DEVICE_TYPE_CUDA: u32 = 1;

/// The version tags are compile-time-fixed words; these are their exact
/// values for the SDK revision this binding targets.
pub proof fn lemma_version_tags()
    ensures
        NVENCAPI_VERSION == 0xBu32,
        NV_ENC_OPEN_ENCODE_SESSION_EX_PARAMS_VER == 0x7001000Bu32,
        NV_ENCODE_API_FUNCTION_LIST_VER == 0x7002000Bu32,
{
    assert(11u32 | (0u32 << 24) == 0xBu32) by (bit_vector);
    assert((11u32 | (0u32 << 24)) | (1u32 << 16) | (0x7u32 << 28) == 0x7001000Bu32)
        by (bit_vector);
    assert((11u32 | (0u32 << 24)) | (2u32 << 16) | (0x7u32 << 28) == 0x7002000Bu32)
        by (bit_vector);
}

/// An encoder-subsystem failure: either a required entry point is absent from
/// the loaded function table (an environment or version-mismatch error, not a
/// transient one), or a call reported a non-success status, preserved raw.
#[derive(Clone, Copy, PartialEq, Eq, Structural, Debug)]
pub enum EncoderError {
    /// The entry point needed for the requested operation is not resolved in
    /// the loaded function table.
    Unsupported,
    /// An entry point ran and reported this non-success status.
    Status(EncStatus),
}

/// Which of the encoder function-table entry points used by this layer were
/// resolved when the instance was created. Every call is guarded by the
/// corresponding flag: an absent entry point surfaces as
/// [`EncoderError::Unsupported`] instead of a call through an absent pointer.
#[derive(Clone, Copy, PartialEq, Eq, Structural, Debug)]
pub struct EncodeApi {
    /// The session-open entry point is resolved.
    pub open_encode_session_ex: bool,
    /// The capability-count entry point of the GUID enumeration is resolved.
    pub get_encode_guid_count: bool,
    /// The buffer-filling entry point of the GUID enumeration is resolved.
    pub get_encode_guids: bool,
    /// The session-destroy entry point is resolved.
    pub destroy_encoder: bool,
}

/// A 128-bit identifier naming a supported encoding capability or profile,
/// held as plain integers (the last eight bytes packed into one word).
#[derive(Clone, Copy, PartialEq, Eq, Structural, Debug)]
pub struct Guid {
    pub data1: u32,
    pub data2: u16,
    pub data3: u16,
    pub data4: u64,
}

impl Guid {
    /// Whether every part of the identifier is zero, as the query buffer is
    /// initialized before the filling phase.
    pub open spec fn is_zero(self) -> bool {
        self.data1 == 0 && self.data2 == 0 && self.data3 == 0 && self.data4 == 0
    }

    /// The zero identifier.
    pub fn zeroed() -> (g: Guid)
        ensures
            g.is_zero(),
    {
        Guid { data1: 0, data2: 0, data3: 0, data4: 0 }
    }
}

/// The fixed-layout configuration record a session is opened with. The
/// reserved tail of the native record is all zeroes and carries no
/// information, so it is not modelled.
#[derive(Clone, Copy, PartialEq, Eq, Structural, Debug)]
pub struct OpenSessionParams {
    /// Version tag of the record itself.
    pub version: u32,
    /// Device-type tag; always the GPU-context kind here.
    pub device_type: u32,
    /// The native handle of the context the session is bound to.
    pub device: u64,
    /// The API version the client was built against.
    pub api_version: u32,
}

/// The one configuration record this layer ever opens a session with for a
/// given context handle.
pub open spec fn spec_session_params(device: u64) -> OpenSessionParams {
    OpenSessionParams {
        version: NV_ENC_OPEN_ENCODE_SESSION_EX_PARAMS_VER,
        device_type: NV_ENC_DEVICE_TYPE_CUDA,
        device,
        api_version: NVENCAPI_VERSION,
    }
}

/// A witness that the encoder library was loaded and its instance created:
/// the instance-creation entry point filled a function list (requested with
/// [`NV_ENCODE_API_FUNCTION_LIST_VER`]) and reported success. `api` records
/// which entry points the library resolved in that list.
pub struct Encode {
    api: EncodeApi,
}

impl Encode {
    /// Which entry points the loaded function table resolved.
    pub closed spec fn spec_api(self) -> EncodeApi {
        self.api
    }

    /// Interprets instance creation: `status` is what the instance-creation
    /// entry point returned, `api` which entry points it resolved.
    pub fn new(status: EncStatus, api: EncodeApi) -> (r: Result<Encode, EncStatus>)
        ensures
            r is Ok <==> status.is_success(),
            r matches Ok(e) ==> e.spec_api() == api,
            r matches Err(x) ==> x == status,
    {
        if status.ok() {
            Ok(Encode { api })
        } else {
            Err(status)
        }
    }

    /// Begins opening an encode session against a context. Fails up front
    /// when the session-open entry point is absent; otherwise yields the exact
    /// parameter record to pass, binding the session to the context's handle.
    /// The context is borrowed: it must outlive the session.
    pub fn new_encoder<'a>(&'a self, ctx: &CuContext) -> (r: Result<SessionOpen<'a>, EncoderError>)
        ensures
            r is Ok <==> self.spec_api().open_encode_session_ex,
            r matches Ok(s) ==> s.spec_params() == spec_session_params(ctx.spec_handle())
                && s.spec_api() == self.spec_api(),
            r matches Err(e) ==> e == EncoderError::Unsupported,
    {
        if self.api.open_encode_session_ex {
            Ok(
                SessionOpen {
                    lib: self,
                    params: OpenSessionParams {
                        version: NV_ENC_OPEN_ENCODE_SESSION_EX_PARAMS_VER,
                        device_type: NV_ENC_DEVICE_TYPE_CUDA,
                        device: ctx.handle(),
                        api_version: NVENCAPI_VERSION,
                    },
                },
            )
        } else {
            Err(EncoderError::Unsupported)
        }
    }
}

/// An open-session call in flight: the embedding code passes
/// [`SessionOpen::params`] to the session-open entry point and reports the
/// status and the session handle it wrote.
pub struct SessionOpen<'a> {
    lib: &'a Encode,
    params: OpenSessionParams,
}

impl<'a> SessionOpen<'a> {
    /// The parameter record of this call, in specifications.
    pub closed spec fn spec_params(self) -> OpenSessionParams {
        self.params
    }

    /// Which entry points the function table resolved, in specifications.
    pub closed spec fn spec_api(self) -> EncodeApi {
        self.lib.api
    }

    /// The parameter record to pass to the session-open entry point.
    pub fn params(&self) -> (p: OpenSessionParams)
        ensures
            p == self.spec_params(),
    {
        self.params
    }

    /// Consumes the call's status and the session handle the library wrote.
    pub fn on_opened(self, status: EncStatus, handle: u64) -> (r: Result<
        Encoder<'a>,
        EncoderError,
    >)
        ensures
            r is Ok <==> status.is_success(),
            r matches Ok(e) ==> e.spec_handle() == handle && e.spec_params() == self.spec_params()
                && e.spec_api() == self.spec_api(),
            r matches Err(x) ==> x == EncoderError::Status(status),
    {
        if status.ok() {
            Ok(Encoder { lib: self.lib, params: self.params, inner: handle })
        } else {
            Err(EncoderError::Status(status))
        }
    }
}

/// A configured hardware encoder instance, bound to the context recorded in
/// its parameter record; that context must remain valid for the session's
/// whole lifetime.
pub struct Encoder<'a> {
    lib: &'a Encode,
    params: OpenSessionParams,
    inner: u64,
}

impl<'a> Encoder<'a> {
    /// The native session handle, in specifications.
    pub closed spec fn spec_handle(self) -> u64 {
        self.inner
    }

    /// The parameter record the session was opened with, in specifications.
    pub closed spec fn spec_params(self) -> OpenSessionParams {
        self.params
    }

    /// Which entry points the function table resolved, in specifications.
    pub closed spec fn spec_api(self) -> EncodeApi {
        self.lib.api
    }

    /// The native session handle, as the capability entry points take it.
    pub fn handle(&self) -> (h: u64)
        ensures
            h == self.spec_handle(),
    {
        self.inner
    }

    /// Begins the two-phase query for the supported capability GUIDs. Fails
    /// with the documented unsupported-operation condition — rather than a
    /// call through an absent pointer — unless both entry points of the
    /// enumeration are resolved.
    pub fn supported_guids(&self) -> (r: Result<GuidCountQuery, EncoderError>)
        ensures
            r is Ok <==> (self.spec_api().get_encode_guid_count
                && self.spec_api().get_encode_guids),
            r matches Err(e) ==> e == EncoderError::Unsupported,
    {
        if self.lib.api.get_encode_guid_count && self.lib.api.get_encode_guids {
            Ok(GuidCountQuery {})
        } else {
            Err(EncoderError::Unsupported)
        }
    }

    /// Gives up ownership for destruction, exactly once: the embedding code
    /// passes [`EncoderDestroy::handle`] to the destroy entry point and
    /// reports the status to [`EncoderDestroy::on_destroyed`]. An absent
    /// destroy entry point yields a diagnostic — teardown never fails outward.
    pub fn teardown(self) -> (r: Result<EncoderDestroy, Diagnostic>)
        ensures
            r is Ok <==> self.spec_api().destroy_encoder,
            r matches Ok(d) ==> d.spec_handle() == self.spec_handle(),
            r matches Err(x) ==> x == Diagnostic::EncoderDestroyUnsupported,
    {
        if self.lib.api.destroy_encoder {
            Ok(EncoderDestroy { handle: self.inner })
        } else {
            Err(Diagnostic::EncoderDestroyUnsupported)
        }
    }
}

/// Count phase of the capability enumeration: the embedding code passes the
/// session handle to the count entry point and reports its status and the
/// count it wrote.
pub struct GuidCountQuery {}

impl GuidCountQuery {
    /// Consumes the count phase's outcome. On success it yields the zeroed
    /// buffer the filling phase must be issued with — sized exactly to the
    /// reported count — and the token that interprets that phase.
    pub fn on_count(self, status: EncStatus, count: u32) -> (r: Result<
        (Vec<Guid>, GuidFill),
        EncoderError,
    >)
        ensures
            r is Ok <==> status.is_success(),
            r matches Ok(p) ==> p.0@.len() == count && p.1.spec_expected() == count && (forall|
                i: int,
            |
                0 <= i < p.0@.len() ==> p.0@[i].is_zero()),
            r matches Err(e) ==> e == EncoderError::Status(status),
    {
        if status.ok() {
            let mut buffer: Vec<Guid> = Vec::new();
            let mut n: u32 = 0;
            while n < count
                invariant
                    n <= count,
                    buffer@.len() == n,
                    forall|i: int| 0 <= i < buffer@.len() ==> buffer@[i].is_zero(),
                decreases count - n,
            {
                buffer.push(Guid::zeroed());
                n = n + 1;
            }
            Ok((buffer, GuidFill { expected: count }))
        } else {
            Err(EncoderError::Status(status))
        }
    }
}

/// Filling phase of the capability enumeration: the embedding code hands the
/// buffer and its length to the filling entry point and reports the status
/// and the buffer as the library left it.
pub struct GuidFill {
    expected: u32,
}

impl GuidFill {
    /// The count the count phase reported, in specifications.
    pub closed spec fn spec_expected(self) -> u32 {
        self.expected
    }

    /// Consumes the filling phase's outcome: on success, the filled sequence
    /// is surfaced unchanged, and its length equals the count the count-only
    /// phase reported.
    pub fn on_filled(self, status: EncStatus, guids: Vec<Guid>) -> (r: Result<
        Vec<Guid>,
        EncoderError,
    >)
        requires
            guids@.len() == self.spec_expected(),
        ensures
            r is Ok <==> status.is_success(),
            r matches Ok(g) ==> g@ == guids@ && g@.len() == self.spec_expected(),
            r matches Err(e) ==> e == EncoderError::Status(status),
    {
        if status.ok() {
            Ok(guids)
        } else {
            Err(EncoderError::Status(status))
        }
    }
}

/// A session handle awaiting its destroy call. Destruction failure is a
/// logged diagnostic, never an error to the caller.
pub struct EncoderDestroy {
    handle: u64,
}

impl EncoderDestroy {
    /// The handle to destroy, in specifications.
    pub closed spec fn spec_handle(self) -> u64 {
        self.handle
    }

    /// The handle to pass to the destroy entry point.
    pub fn handle(&self) -> (h: u64)
        ensures
            h == self.spec_handle(),
    {
        self.handle
    }

    /// Consumes the destroy status: a failure yields a diagnostic record for
    /// the log and nothing else.
    pub fn on_destroyed(self, status: EncStatus) -> (d: Option<Diagnostic>)
        ensures
            d is Some <==> !status.is_success(),
            d matches Some(x) ==> x == Diagnostic::EncoderDestroyFailed,
    {
        if status.ok() {
            None
        } else {
            Some(Diagnostic::EncoderDestroyFailed)
        }
    }
}

} // verus!
