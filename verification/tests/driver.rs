//! Driver-subsystem tests: status normalization, device enumeration, context
//! creation and the stream-creation bracket, driven with simulated driver
//! answers.

use nvidia_video_codec::cuda::context::{ContextDestroy, CU_STREAM_DEFAULT, CU_STREAM_NON_BLOCKING};
use nvidia_video_codec::cuda::device::CuDevice;
use nvidia_video_codec::cuda::{CuStatus, Cuda, CudaResult, CUDA_SUCCESS};
use nvidia_video_codec::diag::Diagnostic;

#[test]
fn cuda_status_ok() {
    assert!(CuStatus(CUDA_SUCCESS).ok());
    assert!(!CuStatus(1).ok());
    assert!(!CuStatus(999).ok());
}

#[test]
fn cuda_status_err() {
    assert_eq!(CuStatus(0).err(), Ok(()));
    assert_eq!(CuStatus(3).err(), Err(CuStatus(3)));
}

#[test]
fn cuda_status_result() {
    assert_eq!(CuStatus(0).result(41), Ok(41));
    assert_eq!(CuStatus(100).result(41), Err(CuStatus(100)));
    assert_eq!(CuStatus(0).result("ctx"), Ok("ctx"));
}

#[test]
fn init_outcomes() {
    let cuda = Cuda::new();
    assert_eq!(cuda.init(CuStatus(0)), Ok(()));
    assert_eq!(cuda.init(CuStatus(2)), Err(CuStatus(2)));
}

#[test]
fn device_count_outcomes() {
    let cuda = Cuda::new();
    assert_eq!(cuda.device_count(CuStatus(0), 2), Ok(2));
    assert_eq!(cuda.device_count(CuStatus(7), 0), Err(CuStatus(7)));
}

#[test]
fn create_context() {
    let cuda = Cuda::new();
    cuda.init(CuStatus(0)).unwrap();
    let count = cuda.device_count(CuStatus(0), 1).unwrap();
    assert_ne!(count, 0);
    let dev = cuda.new_device(CuStatus(0), 0).unwrap();
    assert_eq!(dev.handle(), 0);
    let ctx = cuda.new_context(CuStatus(0), 0xDEAD_BEEF).unwrap();
    assert_ne!(ctx.handle(), 0);
}

#[test]
fn context_creation_failure_keeps_code() {
    let cuda = Cuda::new();
    let r = cuda.new_context(CuStatus(201), 0);
    assert_eq!(r.err().map(|e| e.0), Some(201));
}

#[test]
fn device_enum() {
    let cuda = Cuda::new();
    cuda.init(CuStatus(0)).unwrap();
    let count = cuda.device_count(CuStatus(0), 2).unwrap();
    for i in 0..count {
        let dev = cuda.new_device(CuStatus(0), i).unwrap();
        // What the driver would have written into the query buffer.
        let mut written = CuDevice::name_buffer();
        assert_eq!(written.len(), 256);
        assert!(written.iter().all(|b| *b == 0));
        for (k, b) in b"Simulated Adapter".iter().enumerate() {
            written[k] = *b;
        }
        let name = dev.get_name(CuStatus(0), written).unwrap();
        assert!(!name.is_empty());
        let mem = dev.get_total_mem(CuStatus(0), 8u64 << 30).unwrap();
        assert!(mem > 0);
        let attr = dev.get_attribute(CuStatus(0), 86).unwrap();
        assert_eq!(attr, 86);
    }
}

#[test]
fn device_query_failures_keep_code() {
    let cuda = Cuda::new();
    let dev = cuda.new_device(CuStatus(0), 1).unwrap();
    assert_eq!(dev.get_name(CuStatus(4), CuDevice::name_buffer()), Err(CuStatus(4)));
    assert_eq!(dev.get_total_mem(CuStatus(5), 0), Err(CuStatus(5)));
    assert_eq!(dev.get_attribute(CuStatus(6), 0), Err(CuStatus(6)));
}

#[test]
fn api_version_outcomes() {
    let cuda = Cuda::new();
    let ctx = cuda.new_context(CuStatus(0), 11).unwrap();
    assert_eq!(ctx.get_api_version(CuStatus(0), 12040), Ok(12040));
    assert_eq!(ctx.get_api_version(CuStatus(3), 0), Err(CuStatus(3)));
}

#[test]
fn stream_flag_words() {
    assert_eq!(CU_STREAM_DEFAULT, 0);
    assert_eq!(CU_STREAM_NON_BLOCKING, 1);
    let cuda = Cuda::new();
    let ctx = cuda.new_context(CuStatus(0), 21).unwrap();
    assert_eq!(ctx.new_stream(false).target(), 21);
    let push = ctx.new_stream(true);
    let create = push.on_pushed(CuStatus(0)).unwrap();
    assert_eq!(create.flags(), CU_STREAM_NON_BLOCKING);
    let push = ctx.new_stream(false);
    let create = push.on_pushed(CuStatus(0)).unwrap();
    assert_eq!(create.flags(), CU_STREAM_DEFAULT);
}

#[test]
fn stream_bracket_success_both_flags() {
    let cuda = Cuda::new();
    let ctx = cuda.new_context(CuStatus(0), 33).unwrap();
    for non_blocking in [false, true] {
        let push = ctx.new_stream(non_blocking);
        let create = push.on_pushed(CuStatus(0)).unwrap();
        let pop = create.on_created(CuStatus(0), 501);
        let stream = pop.on_popped(CuStatus(0)).unwrap();
        assert_eq!(stream.handle(), 501);
        // Destruction never propagates an error outward.
        let destroy = stream.teardown();
        assert_eq!(destroy.handle(), 501);
        assert_eq!(destroy.on_destroyed(CuStatus(0)), None);
    }
}

#[test]
fn stream_bracket_push_failure_aborts() {
    let cuda = Cuda::new();
    let ctx = cuda.new_context(CuStatus(0), 33).unwrap();
    let push = ctx.new_stream(true);
    let r = push.on_pushed(CuStatus(205));
    assert_eq!(r.err().map(|e| e.0), Some(205));
}

#[test]
fn stream_bracket_create_failure_still_pops() {
    let cuda = Cuda::new();
    let ctx = cuda.new_context(CuStatus(0), 33).unwrap();
    let push = ctx.new_stream(true);
    let create = push.on_pushed(CuStatus(0)).unwrap();
    // Creation fails; the typestate still leads through the pop step before
    // any error can be surfaced.
    let pop = create.on_created(CuStatus(2), 0);
    let r = pop.on_popped(CuStatus(0));
    assert_eq!(r.err().map(|e| e.0), Some(2));
}

#[test]
fn stream_bracket_pop_failure_takes_precedence() {
    let cuda = Cuda::new();
    let ctx = cuda.new_context(CuStatus(0), 33).unwrap();
    let push = ctx.new_stream(false);
    let create = push.on_pushed(CuStatus(0)).unwrap();
    let pop = create.on_created(CuStatus(2), 0);
    let r = pop.on_popped(CuStatus(9));
    assert_eq!(r.err().map(|e| e.0), Some(9));
}

#[test]
fn teardown_diagnostics() {
    let cuda = Cuda::new();
    let ctx = cuda.new_context(CuStatus(0), 44).unwrap();
    let destroy: ContextDestroy = ctx.teardown();
    assert_eq!(destroy.on_destroyed(CuStatus(1)), Some(Diagnostic::ContextDestroyFailed));
    let ctx = cuda.new_context(CuStatus(0), 45).unwrap();
    assert_eq!(ctx.teardown().on_destroyed(CuStatus(0)), None);
    assert_eq!(
        Diagnostic::ContextDestroyFailed.message(),
        "Failed to destroy cuda context."
    );
    assert_eq!(Diagnostic::StreamDestroyFailed.message(), "Failed to destroy cuda stream.");
}

#[test]
fn end_to_end() {
    // Load driver library, init, enumerate, open device 0, create a context,
    // create a non-blocking stream, drop the stream, drop the context: no
    // error surfaces to the caller at any step; destructor failures would
    // only appear as diagnostics.
    let cuda = Cuda::new();
    cuda.init(CuStatus(0)).unwrap();
    let count = cuda.device_count(CuStatus(0), 1).unwrap();
    assert!(count > 0);
    let dev = cuda.new_device(CuStatus(0), 0).unwrap();
    let _ = dev;
    let ctx = cuda.new_context(CuStatus(0), 7001).unwrap();
    let push = ctx.new_stream(true);
    let create = push.on_pushed(CuStatus(0)).unwrap();
    let pop = create.on_created(CuStatus(0), 8002);
    let stream = pop.on_popped(CuStatus(0)).unwrap();
    assert_eq!(stream.teardown().on_destroyed(CuStatus(0)), None);
    assert_eq!(ctx.teardown().on_destroyed(CuStatus(0)), None);
}
