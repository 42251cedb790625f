//! The modeled native-engine rules: stop before start, the drain rule of the
//! data callback, and the at-most-once release of every handle kind.

use cubeb::engine::apply_data_callback_result;
use cubeb::engine::cubeb_destroy;
use cubeb::engine::cubeb_mixer_create;
use cubeb::engine::cubeb_mixer_destroy;
use cubeb::engine::cubeb_resampler_destroy;
use cubeb::engine::cubeb_resampler_latency;
use cubeb::engine::cubeb_stream_destroy;
use cubeb::engine::cubeb_stream_start;
use cubeb::engine::cubeb_stream_stop;
use cubeb::engine::NativeContext;
use cubeb::engine::NativeMixer;
use cubeb::engine::NativeResampler;
use cubeb::engine::NativeStream;
use cubeb::ffi;
use cubeb::StreamPhase;

#[test]
fn stop_before_start_succeeds() {
    // A stop request is accepted on a stream that never ran.
    let mut stream = NativeStream { phase: StreamPhase::Created, position: 0 };
    assert_eq!(cubeb_stream_stop(&mut stream), ffi::CUBEB_OK);
    assert_eq!(stream.phase, StreamPhase::Stopped);
    assert_eq!(cubeb_stream_start(&mut stream), ffi::CUBEB_OK);
    assert_eq!(stream.phase, StreamPhase::Started);
    cubeb_stream_destroy(stream);
}

#[test]
fn full_data_callback_return_does_not_drain() {
    let mut stream = NativeStream { phase: StreamPhase::Created, position: 0 };
    cubeb_stream_start(&mut stream);
    // Handing back every requested frame keeps the stream started.
    let phase = apply_data_callback_result(&mut stream, 4096, 4096);
    assert_eq!(phase, StreamPhase::Started);
    assert_ne!(phase, StreamPhase::Drained);
    assert_eq!(stream.position, 4096);
}

#[test]
fn zero_data_callback_return_drains() {
    let mut stream = NativeStream { phase: StreamPhase::Created, position: 0 };
    cubeb_stream_start(&mut stream);
    apply_data_callback_result(&mut stream, 4096, 4096);
    let phase = apply_data_callback_result(&mut stream, 4096, 0);
    assert_eq!(phase, StreamPhase::Drained);
    assert_eq!(stream.position, 4096);
}

#[test]
fn negative_data_callback_return_fails_the_stream() {
    let mut stream = NativeStream { phase: StreamPhase::Created, position: 7 };
    cubeb_stream_start(&mut stream);
    let phase = apply_data_callback_result(&mut stream, 4096, -1);
    assert_eq!(phase, StreamPhase::Error);
    assert_eq!(stream.position, 7);
}

#[test]
fn duplex_callback_drain_scenario() {
    // A duplex stream: 16-bit native endian, 44100 Hz, one channel, mono
    // layout on both sides. Handing back the full buffer never drains;
    // handing back zero drains.
    let params = cubeb::StreamParamsBuilder::new()
        .format(cubeb::SampleFormat::S16NE)
        .rate(44100)
        .channels(1)
        .layout(cubeb::ChannelLayout::Mono)
        .take();
    let opts = cubeb::StreamInitOptionsBuilder::new()
        .input_stream_param(&params)
        .output_stream_param(&params)
        .take();
    assert_eq!(opts.input_stream_params.unwrap().rate(), 44100);
    assert_eq!(opts.output_stream_params.unwrap().channels(), 1);

    let mut stream = NativeStream { phase: StreamPhase::Created, position: 0 };
    cubeb_stream_start(&mut stream);
    assert_eq!(apply_data_callback_result(&mut stream, 441, 441), StreamPhase::Started);
    assert_eq!(apply_data_callback_result(&mut stream, 441, 0), StreamPhase::Drained);
}

#[test]
fn context_release_consumes_the_handle() {
    // The release takes the connection by value: a second release of the
    // same connection does not compile.
    let context = NativeContext { backend_id: b"pulse".to_vec() };
    cubeb_destroy(context);
}

#[test]
fn resampler_reports_its_latency_and_releases_once() {
    let resampler = NativeResampler { latency_frames: 23 };
    assert_eq!(cubeb_resampler_latency(&resampler), 23);
    cubeb_resampler_destroy(resampler);
}

#[test]
fn mixer_keeps_what_it_was_created_for() {
    let mixer: NativeMixer = cubeb_mixer_create(
        ffi::CUBEB_SAMPLE_FLOAT32LE,
        6,
        ffi::CUBEB_LAYOUT_3F2_LFE,
        2,
        ffi::CUBEB_LAYOUT_STEREO,
    );
    assert_eq!(mixer.format, ffi::CUBEB_SAMPLE_FLOAT32LE);
    assert_eq!(mixer.in_channels, 6);
    assert_eq!(mixer.in_layout, ffi::CUBEB_LAYOUT_3F2_LFE);
    assert_eq!(mixer.out_channels, 2);
    assert_eq!(mixer.out_layout, ffi::CUBEB_LAYOUT_STEREO);
    cubeb_mixer_destroy(mixer);
}
