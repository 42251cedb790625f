//! A pure-value model of the native engine's documented behavior, one record
//! per kind of native object.
//!
//! The engine itself is an opaque library behind a C ABI; nothing here calls
//! it. These records and operations state, over plain values, what its
//! documentation promises of the handles the wrapper manages — that a
//! release happens at most once because ownership moves into it, that a stop
//! request is accepted in every phase, and how a data callback's return
//! value drives the drain rule — so those rules can be proved about and
//! tested against the same contracts the unverified boundary relies on.
//! The model collapses an asynchronously signaled transition into the
//! accepted request that causes it.

use vstd::prelude::*;

use crate::ffi;

verus! {

/// The phase of a native stream over its life. The engine signals entry
/// into every phase after the first through the asynchronous state callback.
#[derive(PartialEq, Eq, Clone, Debug, Copy, Structural)]
pub enum StreamPhase {
    /// Initialized, not yet started.
    Created,
    /// Producing or consuming audio.
    Started,
    /// Stopped.
    Stopped,
    /// Every frame the data callback handed over was played.
    Drained,
    /// The stream failed.
    Error,
}

/// Model of a native backend connection: the identifier of the backend it
/// was opened on, as the native memory holds it.
#[derive(PartialEq, Eq, Clone, Debug)]
pub struct NativeContext {
    /// The backend identifier bytes, an ASCII name by the native contract.
    pub backend_id: Vec<u8>,
}

/// Model of a native stream: its phase and the playback position in frames.
#[derive(PartialEq, Eq, Clone, Debug, Copy, Structural)]
pub struct NativeStream {
    /// The phase the stream is in.
    pub phase: StreamPhase,
    /// How many frames the stream has played.
    pub position: u64,
}

/// Model of a native resampler: the latency in frames it adds.
#[derive(PartialEq, Eq, Clone, Debug, Copy, Structural)]
pub struct NativeResampler {
    /// The latency this resampler adds, in frames.
    pub latency_frames: u32,
}

/// Model of a native mixer: the conversion it was created for.
#[derive(PartialEq, Eq, Clone, Debug, Copy, Structural)]
pub struct NativeMixer {
    /// The sample format code of the frames mixed.
    pub format: ffi::cubeb_sample_format,
    /// The channel count mixed from.
    pub in_channels: u32,
    /// The channel layout code mixed from.
    pub in_layout: ffi::cubeb_channel_layout,
    /// The channel count mixed to.
    pub out_channels: u32,
    /// The channel layout code mixed to.
    pub out_layout: ffi::cubeb_channel_layout,
}

/// Releases a backend connection. Taking the connection by value is the
/// release discipline itself: the release call happens exactly once, and no
/// operation can reach the connection afterwards. The owner must release
/// every stream and device collection of this connection first; their
/// borrows of the wrapper enforce that ordering structurally.
pub fn cubeb_destroy(context: NativeContext) {
}

/// A start request: accepted in every phase, whereupon the engine brings
/// the stream into the started phase and says so through the state
/// callback. The playback position is kept.
pub fn cubeb_stream_start(stream: &mut NativeStream) -> (r: ffi::cubeb_error_code)
    ensures
        r == ffi::CUBEB_OK,
        final(stream).phase == StreamPhase::Started,
        final(stream).position == old(stream).position,
{
    stream.phase = StreamPhase::Started;
    ffi::CUBEB_OK
}

/// A stop request: accepted in every phase — before the first start as
/// well, without requiring that the stream ever ran. The playback position
/// is kept.
pub fn cubeb_stream_stop(stream: &mut NativeStream) -> (r: ffi::cubeb_error_code)
    ensures
        r == ffi::CUBEB_OK,
        final(stream).phase == StreamPhase::Stopped,
        final(stream).position == old(stream).position,
{
    stream.phase = StreamPhase::Stopped;
    ffi::CUBEB_OK
}

/// What one data callback return does to a started stream, the drain rule of
/// the native contract: handing back every requested frame keeps the stream
/// started, handing back fewer — zero included — drains it, and a negative
/// answer fails it. The frames handed back are added to the position.
pub fn apply_data_callback_result(stream: &mut NativeStream, requested: usize, returned: i64) -> (r:
    StreamPhase)
    requires
        old(stream).phase == StreamPhase::Started,
        requested as int <= i64::MAX as int,
        returned as int <= requested as int,
        returned >= 0 ==> old(stream).position + returned <= u64::MAX,
    ensures
        final(stream).phase == r,
        returned == requested as i64 ==> r == StreamPhase::Started,
        0 <= returned < requested as i64 ==> r == StreamPhase::Drained,
        returned < 0 ==> r == StreamPhase::Error,
        returned >= 0 ==> final(stream).position == old(stream).position + returned,
        returned < 0 ==> final(stream).position == old(stream).position,
{
    if returned < 0 {
        stream.phase = StreamPhase::Error;
    } else {
        stream.position = stream.position + (returned as u64);
        if returned < requested as i64 {
            stream.phase = StreamPhase::Drained;
        }
    }
    stream.phase
}

/// Destroys a stream. Taking the stream by value makes the destroy call
/// happen at most once; after it returns, the engine guarantees that no
/// further callback runs, so the callback object may be freed.
pub fn cubeb_stream_destroy(stream: NativeStream) {
}

/// The latency a resampler adds, in frames.
pub fn cubeb_resampler_latency(resampler: &NativeResampler) -> (r: u32)
    ensures
        r == resampler.latency_frames,
{
    resampler.latency_frames
}

/// Destroys a resampler; ownership moves in, so at most once.
pub fn cubeb_resampler_destroy(resampler: NativeResampler) {
}

/// Creates a mixer for the given conversion; the mixer keeps exactly what it
/// was created for.
pub fn cubeb_mixer_create(
    format: ffi::cubeb_sample_format,
    in_channels: u32,
    in_layout: ffi::cubeb_channel_layout,
    out_channels: u32,
    out_layout: ffi::cubeb_channel_layout,
) -> (m: NativeMixer)
    ensures
        m.format == format,
        m.in_channels == in_channels,
        m.in_layout == in_layout,
        m.out_channels == out_channels,
        m.out_layout == out_layout,
{
    NativeMixer { format, in_channels, in_layout, out_channels, out_layout }
}

/// Destroys a mixer; ownership moves in, so at most once.
pub fn cubeb_mixer_destroy(mixer: NativeMixer) {
}

} // verus!
