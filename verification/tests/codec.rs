//! Encoder-subsystem tests: instance creation, the versioned session-open
//! record, the entry-point-presence guards and the two-phase GUID query,
//! driven with simulated library answers.

use nvidia_video_codec::cuda::{CuStatus, Cuda};
use nvidia_video_codec::diag::Diagnostic;
use nvidia_video_codec::encode::{
    EncStatus, Encode, EncodeApi, EncodeResult, EncoderError, Guid, NVENCAPI_VERSION,
    NV_ENCODE_API_FUNCTION_LIST_VER, NV_ENC_DEVICE_TYPE_CUDA,
    NV_ENC_OPEN_ENCODE_SESSION_EX_PARAMS_VER, NV_ENC_SUCCESS,
};

fn full_api() -> EncodeApi {
    EncodeApi {
        open_encode_session_ex: true,
        get_encode_guid_count: true,
        get_encode_guids: true,
        destroy_encoder: true,
    }
}

#[test]
fn encode_status_ops() {
    assert!(EncStatus(NV_ENC_SUCCESS).ok());
    assert!(!EncStatus(8).ok());
    assert_eq!(EncStatus(0).err(), Ok(()));
    assert_eq!(EncStatus(15).err(), Err(EncStatus(15)));
    assert_eq!(EncStatus(0).result(7u32), Ok(7u32));
    assert_eq!(EncStatus(21).result(7u32), Err(EncStatus(21)));
}

#[test]
fn version_tags() {
    assert_eq!(NVENCAPI_VERSION, 0xB);
    assert_eq!(NV_ENC_OPEN_ENCODE_SESSION_EX_PARAMS_VER, 0x7001_000B);
    assert_eq!(NV_ENCODE_API_FUNCTION_LIST_VER, 0x7002_000B);
    assert_eq!(NV_ENC_DEVICE_TYPE_CUDA, 1);
}

#[test]
fn instance_creation() {
    assert!(Encode::new(EncStatus(0), full_api()).is_ok());
    let r = Encode::new(EncStatus(2), full_api());
    assert_eq!(r.err(), Some(EncStatus(2)));
}

#[test]
fn session_params_record() {
    let cuda = Cuda::new();
    let ctx = cuda.new_context(CuStatus(0), 0x1234).unwrap();
    let encode = Encode::new(EncStatus(0), full_api()).unwrap();
    let open = encode.new_encoder(&ctx).unwrap();
    let params = open.params();
    assert_eq!(params.version, 0x7001_000B);
    assert_eq!(params.device_type, NV_ENC_DEVICE_TYPE_CUDA);
    assert_eq!(params.device, 0x1234);
    assert_eq!(params.api_version, NVENCAPI_VERSION);
}

#[test]
fn session_open_absent_entry_point() {
    let cuda = Cuda::new();
    let ctx = cuda.new_context(CuStatus(0), 5).unwrap();
    let api = EncodeApi { open_encode_session_ex: false, ..full_api() };
    let encode = Encode::new(EncStatus(0), api).unwrap();
    let r = encode.new_encoder(&ctx);
    assert!(matches!(r, Err(EncoderError::Unsupported)));
}

#[test]
fn session_open_failure_keeps_status() {
    let cuda = Cuda::new();
    let ctx = cuda.new_context(CuStatus(0), 5).unwrap();
    let encode = Encode::new(EncStatus(0), full_api()).unwrap();
    let open = encode.new_encoder(&ctx).unwrap();
    let r = open.on_opened(EncStatus(10), 0);
    assert!(matches!(r, Err(EncoderError::Status(EncStatus(10)))));
}

#[test]
fn encoder_create() {
    let cuda = Cuda::new();
    cuda.init(CuStatus(0)).unwrap();
    let dev = cuda.new_device(CuStatus(0), 0).unwrap();
    let _ = dev;
    let ctx = cuda.new_context(CuStatus(0), 0xABC).unwrap();
    let encode = Encode::new(EncStatus(0), full_api()).unwrap();
    let open = encode.new_encoder(&ctx).unwrap();
    let encoder = open.on_opened(EncStatus(0), 900).unwrap();
    assert_eq!(encoder.handle(), 900);

    // Two-phase capability query.
    let query = encoder.supported_guids().unwrap();
    let (buffer, fill) = query.on_count(EncStatus(0), 3).unwrap();
    assert_eq!(buffer.len(), 3);
    assert!(buffer.iter().all(|g| *g == Guid { data1: 0, data2: 0, data3: 0, data4: 0 }));
    // What the library would have written into the buffer.
    let mut written = buffer;
    for (k, g) in written.iter_mut().enumerate() {
        g.data1 = 0x6BC8_2762 + k as u32;
        g.data4 = 0xBF9A_F8F5 + k as u64;
    }
    let guids = fill.on_filled(EncStatus(0), written).unwrap();
    assert_eq!(guids.len(), 3);
    assert!(guids.iter().all(|g| g.data1 != 0));
}

#[test]
fn guid_query_absent_entry_points() {
    let cuda = Cuda::new();
    let ctx = cuda.new_context(CuStatus(0), 5).unwrap();
    for api in [
        EncodeApi { get_encode_guid_count: false, ..full_api() },
        EncodeApi { get_encode_guids: false, ..full_api() },
        EncodeApi { get_encode_guid_count: false, get_encode_guids: false, ..full_api() },
    ] {
        let encode = Encode::new(EncStatus(0), api).unwrap();
        let open = encode.new_encoder(&ctx).unwrap();
        let encoder = open.on_opened(EncStatus(0), 900).unwrap();
        let r = encoder.supported_guids();
        assert!(matches!(r, Err(EncoderError::Unsupported)));
    }
}

#[test]
fn guid_query_phase_failures_keep_status() {
    let cuda = Cuda::new();
    let ctx = cuda.new_context(CuStatus(0), 5).unwrap();
    let encode = Encode::new(EncStatus(0), full_api()).unwrap();
    let encoder = encode.new_encoder(&ctx).unwrap().on_opened(EncStatus(0), 900).unwrap();
    let query = encoder.supported_guids().unwrap();
    assert!(matches!(
        query.on_count(EncStatus(4), 0),
        Err(EncoderError::Status(EncStatus(4)))
    ));
    let query = encoder.supported_guids().unwrap();
    let (buffer, fill) = query.on_count(EncStatus(0), 2).unwrap();
    assert!(matches!(
        fill.on_filled(EncStatus(6), buffer),
        Err(EncoderError::Status(EncStatus(6)))
    ));
}

#[test]
fn guid_count_zero() {
    let cuda = Cuda::new();
    let ctx = cuda.new_context(CuStatus(0), 5).unwrap();
    let encode = Encode::new(EncStatus(0), full_api()).unwrap();
    let encoder = encode.new_encoder(&ctx).unwrap().on_opened(EncStatus(0), 900).unwrap();
    let (buffer, fill) = encoder.supported_guids().unwrap().on_count(EncStatus(0), 0).unwrap();
    assert!(buffer.is_empty());
    let guids = fill.on_filled(EncStatus(0), buffer).unwrap();
    assert!(guids.is_empty());
}

#[test]
fn encoder_teardown() {
    let cuda = Cuda::new();
    let ctx = cuda.new_context(CuStatus(0), 5).unwrap();
    let encode = Encode::new(EncStatus(0), full_api()).unwrap();
    let encoder = encode.new_encoder(&ctx).unwrap().on_opened(EncStatus(0), 900).unwrap();
    let destroy = encoder.teardown().unwrap();
    assert_eq!(destroy.handle(), 900);
    assert_eq!(destroy.on_destroyed(EncStatus(0)), None);

    let encoder = encode.new_encoder(&ctx).unwrap().on_opened(EncStatus(0), 901).unwrap();
    let destroy = encoder.teardown().unwrap();
    assert_eq!(destroy.on_destroyed(EncStatus(3)), Some(Diagnostic::EncoderDestroyFailed));

    let api = EncodeApi { destroy_encoder: false, ..full_api() };
    let encode = Encode::new(EncStatus(0), api).unwrap();
    let encoder = encode.new_encoder(&ctx).unwrap().on_opened(EncStatus(0), 902).unwrap();
    let r = encoder.teardown();
    assert!(matches!(r, Err(Diagnostic::EncoderDestroyUnsupported)));
    assert_eq!(
        Diagnostic::EncoderDestroyUnsupported.message(),
        "Encoder destroy entry point not supported."
    );
}
