//! Safety-oriented model of a binding layer over a vendor GPU media-codec SDK.
//!
//! The vendor SDK is a handle-based C ABI, loaded at runtime: a device-driver
//! library, an encoder library and an image-processing library, each exposing a
//! table of entry points that return raw integer status codes. This crate holds
//! the part of such a binding that can be stated and checked as logic:
//!
//! * the uniform normalization of raw status codes into `Result` outcomes
//!   ([`cuda::CudaResult`], [`encode::EncodeResult`], [`npp::NppResult`]);
//! * the ownership and ordering discipline around the driver's implicit
//!   "current context" state (the push / create / pop bracket that stream
//!   creation must follow on every path, including failure paths);
//! * the fixed configuration records and version tags an encode session is
//!   opened with, the entry-point-presence checks that guard every encoder
//!   call, and the two-phase shape of capability enumeration;
//! * the plane geometry of the NV12-to-packed-RGB conversion and the decision
//!   when the image library's implicit current stream must be switched;
//! * teardown outcomes, which never propagate an error and instead yield a
//!   [`diag::Diagnostic`] for the embedding code's log.
//!
//! The raw calls themselves (dynamic-library loading, the C entry points) are
//! unverifiable I/O against closed vendor code; an embedding crate performs
//! them and feeds each returned status and out-parameter into the typestate
//! values defined here, which force the documented call order and interpret
//! every outcome exactly.

pub mod cuda;
pub mod diag;
pub mod encode;
pub mod npp;
