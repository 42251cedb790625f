//! Code translation, conversion and the remaining value types: stream
//! states, log levels, preference flags, stream-init options.

use cubeb::convert;
use cubeb::ffi;
use cubeb::Binding;
use cubeb::ChannelLayout;
use cubeb::DeviceId;
use cubeb::LogLevel;
use cubeb::SampleFormat;
use cubeb::State;
use cubeb::StreamInitOptionsBuilder;
use cubeb::StreamParamsBuilder;
use cubeb::StreamPrefs;

#[test]
fn state_codes_round_trip() {
    for state in [State::Started, State::Stopped, State::Drained, State::Error] {
        assert_eq!(State::from_raw(state.to_raw()), Some(state));
    }
    assert_eq!(State::from_raw(ffi::CUBEB_STATE_STARTED), Some(State::Started));
    assert_eq!(State::from_raw(9), None);
}

#[test]
fn log_level_codes_round_trip() {
    for level in [LogLevel::Disabled, LogLevel::Normal, LogLevel::Verbose] {
        assert_eq!(LogLevel::from_raw(level.to_raw()), Some(level));
    }
    assert_eq!(LogLevel::from_raw(5), None);
}

#[test]
fn sample_format_codes_reject_unknown() {
    assert_eq!(SampleFormat::from_raw(ffi::CUBEB_SAMPLE_FLOAT32BE), Some(SampleFormat::Float32BE));
    assert_eq!(SampleFormat::from_raw(200), None);
}

#[test]
fn convert_yields_the_abi_codes() {
    let layout_code: u32 = convert(&ChannelLayout::Layout3F2Lfe);
    assert_eq!(layout_code, ffi::CUBEB_LAYOUT_3F2_LFE);
    let state_code: u32 = convert(&State::Drained);
    assert_eq!(state_code, ffi::CUBEB_STATE_DRAINED);
    let level_code: u32 = convert(&LogLevel::Verbose);
    assert_eq!(level_code, ffi::CUBEB_LOG_VERBOSE);
    let format_code: u32 = convert(&SampleFormat::S16BE);
    assert_eq!(format_code, ffi::CUBEB_SAMPLE_S16BE);
    // A native-endian request converts to the code of the byte order of this
    // machine.
    let little = u16::from_ne_bytes([1, 0]) == 1;
    let ne_code: u32 = convert(&SampleFormat::S16NE);
    assert_eq!(
        ne_code,
        if little {
            ffi::CUBEB_SAMPLE_S16LE
        } else {
            ffi::CUBEB_SAMPLE_S16BE
        }
    );
}

#[test]
fn resolve_against_both_byte_orders() {
    assert_eq!(SampleFormat::S16NE.resolve(true), SampleFormat::S16LE);
    assert_eq!(SampleFormat::S16NE.resolve(false), SampleFormat::S16BE);
    assert_eq!(SampleFormat::Float32NE.resolve(true), SampleFormat::Float32LE);
    assert_eq!(SampleFormat::Float32NE.resolve(false), SampleFormat::Float32BE);
    assert_eq!(SampleFormat::Float32BE.resolve(true), SampleFormat::Float32BE);
}

#[test]
fn build_for_byte_order_is_exact() {
    let b = StreamParamsBuilder::new().format(SampleFormat::S16NE).rate(44100).channels(1).layout(
        ChannelLayout::Mono,
    );
    let little = b.build_for_byte_order(true);
    assert_eq!(little.format(), SampleFormat::S16LE);
    assert_eq!(little.rate(), 44100);
    assert_eq!(little.channels(), 1);
    assert_eq!(little.layout(), ChannelLayout::Mono);
    let big = b.build_for_byte_order(false);
    assert_eq!(big.format(), SampleFormat::S16BE);
}

#[test]
fn builder_reflects_the_latest_setter_calls() {
    let b = StreamParamsBuilder::new().rate(44100);
    let first = b.take();
    assert_eq!(first.rate(), 44100);
    let b = b.rate(48000);
    let second = b.take();
    assert_eq!(second.rate(), 48000);
}

#[test]
fn stream_prefs_bits() {
    assert_eq!(StreamPrefs::none().bits(), ffi::CUBEB_STREAM_PREF_NONE);
    assert_eq!(StreamPrefs::loopback().bits(), ffi::CUBEB_STREAM_PREF_LOOPBACK);
    let both = StreamPrefs::loopback().union(StreamPrefs::voice());
    assert!(both.contains(StreamPrefs::loopback()));
    assert!(both.contains(StreamPrefs::voice()));
    assert!(!both.contains(StreamPrefs::disable_device_switching()));
    // Unknown bits are dropped on the way in.
    assert_eq!(StreamPrefs::from_bits_truncate(0xFF).bits(), 0x07);
}

#[test]
fn init_options_builder_sets_each_option() {
    let params = StreamParamsBuilder::new().rate(44100).channels(1).take();
    let opts = StreamInitOptionsBuilder::new()
        .stream_name("Voice".to_string())
        .input_device(DeviceId::from_raw(0x11))
        .input_stream_param(&params)
        .output_device(DeviceId::from_raw(0x22))
        .output_stream_param(&params)
        .latency(110)
        .take();
    assert_eq!(opts.stream_name, Some("Voice".to_string()));
    assert_eq!(opts.input_device.raw(), 0x11);
    assert_eq!(opts.input_stream_params.unwrap().rate(), 44100);
    assert_eq!(opts.output_device.raw(), 0x22);
    assert_eq!(opts.output_stream_params.unwrap().channels(), 1);
    assert_eq!(opts.latency_frames, 110);
}

#[test]
fn init_options_default_names_nothing() {
    let opts = cubeb::StreamInitOptions::new();
    assert_eq!(opts.stream_name, None);
    assert_eq!(opts.input_device.raw(), 0);
    assert!(opts.input_stream_params.is_none());
    assert_eq!(opts.output_device.raw(), 0);
    assert!(opts.output_stream_params.is_none());
    assert_eq!(opts.latency_frames, 0);
}
