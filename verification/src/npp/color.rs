//! The color-conversion façade: NV12 frames to packed 24-bit RGB or BGR.
//!
//! An NV12 frame is two planes behind one base pointer: the luma plane at
//! offset zero and the interleaved-chroma plane at offset `pitch * height`.
//! The image-processing library executes a conversion against an implicit
//! global "current stream": when the caller supplies a stream that differs
//! from the current one, the global must be switched first, and the numeric
//! stream-context record is then queried fresh for the conversion call. The
//! typestate values here compute the plane geometry, decide the switch, and
//! force that order.

use vstd::prelude::*;
use super::NppStatus;
use crate::cuda::stream::CuStream;

verus! {

/// The packed channel order a conversion produces.
#[derive(Clone, Copy, PartialEq, Eq, Structural, Debug)]
pub enum ChannelOrder {
    Rgb,
    Bgr,
}

/// The exact arguments of a conversion call, fully computed: the two source
/// plane pointers, the pitches, the region of interest and the channel order.
#[derive(Clone, Copy, PartialEq, Eq, Structural, Debug)]
pub struct ConvertArgs {
    /// Device pointer of the luma plane: the frame's base pointer.
    pub luma: u64,
    /// Device pointer of the chroma plane: the base pointer plus exactly
    /// `pitch * height`.
    pub chroma: u64,
    /// Bytes per source row, shared by both planes.
    pub src_pitch: i32,
    /// Device pointer of the packed destination image.
    pub dest: u64,
    /// Bytes per destination row.
    pub dest_pitch: i32,
    /// Region-of-interest width in pixels.
    pub width: u32,
    /// Region-of-interest height in pixels.
    pub height: u32,
    /// Channel order of the destination.
    pub order: ChannelOrder,
}

/// The arguments a conversion of the given frame resolves to.
pub open spec fn spec_convert_args(
    ptr: u64,
    width: u32,
    height: u32,
    pitch: i32,
    dest_ptr: u64,
    dest_pitch: i32,
    order: ChannelOrder,
) -> ConvertArgs {
    ConvertArgs {
        luma: ptr,
        chroma: (ptr + pitch * height) as u64,
        src_pitch: pitch,
        dest: dest_ptr,
        dest_pitch,
        width,
        height,
        order,
    }
}

/// How a conversion begins: a zero-sized region succeeds at once with no call
/// made and no memory touched; otherwise the flow either synchronizes the
/// library's current stream first or goes straight to the stream-context
/// fetch.
pub enum ConvertStart {
    /// `width == 0` or `height == 0`: nothing to convert.
    Trivial,
    /// A stream was supplied: the current global stream must be compared
    /// against it before anything else.
    SyncStream(StreamSync),
    /// No stream was supplied: the ambient current stream stands.
    Fetch(ContextFetch),
}

/// Begins an NV12-to-RGB24 conversion of the frame at `ptr`.
pub fn nv12_to_rgb24(
    ptr: u64,
    width: u32,
    height: u32,
    pitch: i32,
    dest_ptr: u64,
    dest_pitch: i32,
    stream: Option<&CuStream>,
) -> (r: ConvertStart)
    requires
        pitch >= 0,
        ptr + pitch * height <= u64::MAX,
    ensures
        r is Trivial <==> (width == 0 || height == 0),
        r is SyncStream <==> (width != 0 && height != 0 && stream is Some),
        r is Fetch <==> (width != 0 && height != 0 && stream is None),
        r matches ConvertStart::SyncStream(s) ==> (stream matches Some(st) && s.spec_target()
            == st.spec_handle() && s.spec_args() == spec_convert_args(
            ptr,
            width,
            height,
            pitch,
            dest_ptr,
            dest_pitch,
            ChannelOrder::Rgb,
        ) && s.spec_args().chroma == ptr + pitch * height),
        r matches ConvertStart::Fetch(f) ==> f.spec_args() == spec_convert_args(
            ptr,
            width,
            height,
            pitch,
            dest_ptr,
            dest_pitch,
            ChannelOrder::Rgb,
        ) && f.spec_args().chroma == ptr + pitch * height,
{
    convert_begin(ptr, width, height, pitch, dest_ptr, dest_pitch, stream, ChannelOrder::Rgb)
}

/// Begins an NV12-to-BGR24 conversion of the frame at `ptr`.
pub fn nv12_to_bgr24(
    ptr: u64,
    width: u32,
    height: u32,
    pitch: i32,
    dest_ptr: u64,
    dest_pitch: i32,
    stream: Option<&CuStream>,
) -> (r: ConvertStart)
    requires
        pitch >= 0,
        ptr + pitch * height <= u64::MAX,
    ensures
        r is Trivial <==> (width == 0 || height == 0),
        r is SyncStream <==> (width != 0 && height != 0 && stream is Some),
        r is Fetch <==> (width != 0 && height != 0 && stream is None),
        r matches ConvertStart::SyncStream(s) ==> (stream matches Some(st) && s.spec_target()
            == st.spec_handle() && s.spec_args() == spec_convert_args(
            ptr,
            width,
            height,
            pitch,
            dest_ptr,
            dest_pitch,
            ChannelOrder::Bgr,
        ) && s.spec_args().chroma == ptr + pitch * height),
        r matches ConvertStart::Fetch(f) ==> f.spec_args() == spec_convert_args(
            ptr,
            width,
            height,
            pitch,
            dest_ptr,
            dest_pitch,
            ChannelOrder::Bgr,
        ) && f.spec_args().chroma == ptr + pitch * height,
{
    convert_begin(ptr, width, height, pitch, dest_ptr, dest_pitch, stream, ChannelOrder::Bgr)
}

fn convert_begin(
    ptr: u64,
    width: u32,
    height: u32,
    pitch: i32,
    dest_ptr: u64,
    dest_pitch: i32,
    stream: Option<&CuStream>,
    order: ChannelOrder,
) -> (r: ConvertStart)
    requires
        pitch >= 0,
        ptr + pitch * height <= u64::MAX,
    ensures
        r is Trivial <==> (width == 0 || height == 0),
        r is SyncStream <==> (width != 0 && height != 0 && stream is Some),
        r is Fetch <==> (width != 0 && height != 0 && stream is None),
        r matches ConvertStart::SyncStream(s) ==> (stream matches Some(st) && s.spec_target()
            == st.spec_handle() && s.spec_args() == spec_convert_args(
            ptr,
            width,
            height,
            pitch,
            dest_ptr,
            dest_pitch,
            order,
        )),
        r matches ConvertStart::Fetch(f) ==> f.spec_args() == spec_convert_args(
            ptr,
            width,
            height,
            pitch,
            dest_ptr,
            dest_pitch,
            order,
        ),
{
    if width == 0 || height == 0 {
        return ConvertStart::Trivial;
    }
    let chroma: u64 = ptr + (pitch as u64) * (height as u64);
    let args = ConvertArgs {
        luma: ptr,
        chroma,
        src_pitch: pitch,
        dest: dest_ptr,
        dest_pitch,
        width,
        height,
        order,
    };
    match stream {
        Some(st) => ConvertStart::SyncStream(StreamSync { target: st.handle(), args }),
        None => ConvertStart::Fetch(ContextFetch { args }),
    }
}

/// Current-stream comparison step: the embedding code queries the library's
/// current global stream and reports it to [`StreamSync::on_current`].
pub struct StreamSync {
    target: u64,
    args: ConvertArgs,
}

/// What the comparison decided: switch the global current stream first, or
/// keep it and fetch the stream context straight away.
pub enum StreamSyncStep {
    Switch(StreamSet),
    Keep(ContextFetch),
}

impl StreamSync {
    /// The supplied stream's handle, in specifications.
    pub closed spec fn spec_target(self) -> u64 {
        self.target
    }

    /// The conversion arguments carried through, in specifications.
    pub closed spec fn spec_args(self) -> ConvertArgs {
        self.args
    }

    /// Decides the switch: the global current stream is changed exactly when
    /// it differs from the supplied stream.
    pub fn on_current(self, current: u64) -> (r: StreamSyncStep)
        ensures
            r is Switch <==> current != self.spec_target(),
            r matches StreamSyncStep::Switch(s) ==> s.spec_target() == self.spec_target()
                && s.spec_args() == self.spec_args(),
            r matches StreamSyncStep::Keep(f) ==> f.spec_args() == self.spec_args(),
    {
        if current != self.target {
            StreamSyncStep::Switch(StreamSet { target: self.target, args: self.args })
        } else {
            StreamSyncStep::Keep(ContextFetch { args: self.args })
        }
    }
}

/// Stream-switch step: the embedding code passes [`StreamSet::target`] to the
/// set-current-stream entry point before anything else of the conversion
/// runs. The set call's own status is deliberately not consulted: the
/// comparison is made afresh on every call, so a failed switch surfaces as a
/// stream-context or conversion failure immediately after.
pub struct StreamSet {
    target: u64,
    args: ConvertArgs,
}

impl StreamSet {
    /// The stream handle to make current, in specifications.
    pub closed spec fn spec_target(self) -> u64 {
        self.target
    }

    /// The conversion arguments carried through, in specifications.
    pub closed spec fn spec_args(self) -> ConvertArgs {
        self.args
    }

    /// The stream handle to pass to the set-current-stream entry point.
    pub fn target(&self) -> (h: u64)
        ensures
            h == self.spec_target(),
    {
        self.target
    }

    /// Records that the switch was issued; the flow continues with the
    /// stream-context fetch.
    pub fn on_set(self) -> (f: ContextFetch)
        ensures
            f.spec_args() == self.spec_args(),
    {
        ContextFetch { args: self.args }
    }
}

/// Stream-context fetch step: the conversion call takes an explicit snapshot
/// of the current stream's numeric context, queried fresh on every call; the
/// embedding code reports the query's status to
/// [`ContextFetch::on_stream_context`].
pub struct ContextFetch {
    args: ConvertArgs,
}

impl ContextFetch {
    /// The conversion arguments carried through, in specifications.
    pub closed spec fn spec_args(self) -> ConvertArgs {
        self.args
    }

    /// Consumes the fetch status: a failure surfaces as-is and the conversion
    /// is never issued.
    pub fn on_stream_context(self, status: NppStatus) -> (r: Result<ConvertCall, NppStatus>)
        ensures
            r is Ok <==> status.is_success(),
            r matches Ok(c) ==> c.spec_args() == self.spec_args(),
            r matches Err(e) ==> e == status,
    {
        if status.0 == super::NPP_SUCCESS {
            Ok(ConvertCall { args: self.args })
        } else {
            Err(status)
        }
    }
}

/// The conversion call itself: the embedding code issues the entry point
/// matching [`ConvertArgs::order`] with exactly these arguments and the
/// fetched stream context, and reports the status.
pub struct ConvertCall {
    args: ConvertArgs,
}

impl ConvertCall {
    /// The call's arguments, in specifications.
    pub closed spec fn spec_args(self) -> ConvertArgs {
        self.args
    }

    /// The fully computed arguments to issue the conversion with.
    pub fn args(&self) -> (a: ConvertArgs)
        ensures
            a == self.spec_args(),
    {
        self.args
    }

    /// Consumes the conversion's status into the façade's outcome.
    pub fn on_converted(self, status: NppStatus) -> (r: Result<(), NppStatus>)
        ensures
            r is Ok <==> status.is_success(),
            r matches Err(e) ==> e == status,
    {
        if status.0 == super::NPP_SUCCESS {
            Ok(())
        } else {
            Err(status)
        }
    }
}

} // verus!
