//! The stream-parameter record, built from raw ABI records and through the
//! builder, read back both as typed values and as the raw record.

use cubeb::ffi;
use cubeb::Binding;
use cubeb::ChannelLayout;
use cubeb::SampleFormat;
use cubeb::StreamParams;
use cubeb::StreamParamsBuilder;

#[test]
fn stream_params_raw_channels() {
    let mut raw = ffi::cubeb_stream_params { format: 0, rate: 0, channels: 0, layout: 0, prefs: 0 };
    raw.channels = 2;
    let params = StreamParams::from_raw(raw);
    assert_eq!(params.channels(), 2);
}

#[test]
fn stream_params_raw_format() {
    let mut raw = ffi::cubeb_stream_params { format: 0, rate: 0, channels: 0, layout: 0, prefs: 0 };
    let cases = [
        (ffi::CUBEB_SAMPLE_S16LE, SampleFormat::S16LE),
        (ffi::CUBEB_SAMPLE_S16BE, SampleFormat::S16BE),
        (ffi::CUBEB_SAMPLE_FLOAT32LE, SampleFormat::Float32LE),
        (ffi::CUBEB_SAMPLE_FLOAT32BE, SampleFormat::Float32BE),
    ];
    for (code, format) in cases {
        raw.format = code;
        let params = StreamParams::from_raw(raw);
        assert_eq!(params.format(), format);
    }
}

#[test]
fn stream_params_raw_format_native_endian() {
    let little = u16::from_ne_bytes([1, 0]) == 1;
    let mut raw = ffi::cubeb_stream_params { format: 0, rate: 0, channels: 0, layout: 0, prefs: 0 };
    raw.format = if little {
        ffi::CUBEB_SAMPLE_S16LE
    } else {
        ffi::CUBEB_SAMPLE_S16BE
    };
    let params = StreamParams::from_raw(raw);
    assert_eq!(
        params.format(),
        if little {
            SampleFormat::S16LE
        } else {
            SampleFormat::S16BE
        }
    );

    raw.format = if little {
        ffi::CUBEB_SAMPLE_FLOAT32LE
    } else {
        ffi::CUBEB_SAMPLE_FLOAT32BE
    };
    let params = StreamParams::from_raw(raw);
    assert_eq!(
        params.format(),
        if little {
            SampleFormat::Float32LE
        } else {
            SampleFormat::Float32BE
        }
    );
}

#[test]
fn stream_params_raw_layout() {
    let mut raw = ffi::cubeb_stream_params { format: 0, rate: 0, channels: 0, layout: 0, prefs: 0 };
    let cases = [
        (ffi::CUBEB_LAYOUT_UNDEFINED, ChannelLayout::Undefined),
        (ffi::CUBEB_LAYOUT_DUAL_MONO, ChannelLayout::DualMono),
        (ffi::CUBEB_LAYOUT_DUAL_MONO_LFE, ChannelLayout::DualMonoLfe),
        (ffi::CUBEB_LAYOUT_MONO, ChannelLayout::Mono),
        (ffi::CUBEB_LAYOUT_MONO_LFE, ChannelLayout::MonoLfe),
        (ffi::CUBEB_LAYOUT_STEREO, ChannelLayout::Stereo),
        (ffi::CUBEB_LAYOUT_STEREO_LFE, ChannelLayout::StereoLfe),
        (ffi::CUBEB_LAYOUT_3F, ChannelLayout::Layout3F),
        (ffi::CUBEB_LAYOUT_3F_LFE, ChannelLayout::Layout3FLfe),
        (ffi::CUBEB_LAYOUT_2F1, ChannelLayout::Layout2F1),
        (ffi::CUBEB_LAYOUT_2F1_LFE, ChannelLayout::Layout2F1Lfe),
        (ffi::CUBEB_LAYOUT_3F1, ChannelLayout::Layout3F1),
        (ffi::CUBEB_LAYOUT_3F1_LFE, ChannelLayout::Layout3F1Lfe),
        (ffi::CUBEB_LAYOUT_2F2, ChannelLayout::Layout2F2),
        (ffi::CUBEB_LAYOUT_2F2_LFE, ChannelLayout::Layout2F2Lfe),
        (ffi::CUBEB_LAYOUT_3F2, ChannelLayout::Layout3F2),
        (ffi::CUBEB_LAYOUT_3F2_LFE, ChannelLayout::Layout3F2Lfe),
        (ffi::CUBEB_LAYOUT_3F3R_LFE, ChannelLayout::Layout3F3RLfe),
        (ffi::CUBEB_LAYOUT_3F4_LFE, ChannelLayout::Layout3F4Lfe),
    ];
    for (code, layout) in cases {
        raw.layout = code;
        let params = StreamParams::from_raw(raw);
        assert_eq!(params.layout(), layout);
    }
}

#[test]
fn stream_params_raw_rate() {
    let mut raw = ffi::cubeb_stream_params { format: 0, rate: 0, channels: 0, layout: 0, prefs: 0 };
    raw.rate = 44100;
    let params = StreamParams::from_raw(raw);
    assert_eq!(params.rate(), 44100);
}

#[test]
fn stream_stream_params_builder_channels() {
    let params = StreamParamsBuilder::new().channels(2).take();
    assert_eq!(params.channels(), 2);
}

#[test]
fn stream_stream_params_builder_format() {
    let params = StreamParamsBuilder::new().format(SampleFormat::S16LE).take();
    assert_eq!(params.format(), SampleFormat::S16LE);
    let params = StreamParamsBuilder::new().format(SampleFormat::S16BE).take();
    assert_eq!(params.format(), SampleFormat::S16BE);
    let params = StreamParamsBuilder::new().format(SampleFormat::Float32LE).take();
    assert_eq!(params.format(), SampleFormat::Float32LE);
    let params = StreamParamsBuilder::new().format(SampleFormat::Float32BE).take();
    assert_eq!(params.format(), SampleFormat::Float32BE);
}

#[test]
fn stream_stream_params_builder_format_native_endian() {
    let little = u16::from_ne_bytes([1, 0]) == 1;
    let params = StreamParamsBuilder::new().format(SampleFormat::S16NE).take();
    assert_eq!(
        params.format(),
        if little {
            SampleFormat::S16LE
        } else {
            SampleFormat::S16BE
        }
    );

    let params = StreamParamsBuilder::new().format(SampleFormat::Float32NE).take();
    assert_eq!(
        params.format(),
        if little {
            SampleFormat::Float32LE
        } else {
            SampleFormat::Float32BE
        }
    );
}

#[test]
fn stream_stream_params_builder_layout() {
    let layouts = [
        ChannelLayout::Undefined,
        ChannelLayout::DualMono,
        ChannelLayout::DualMonoLfe,
        ChannelLayout::Mono,
        ChannelLayout::MonoLfe,
        ChannelLayout::Stereo,
        ChannelLayout::StereoLfe,
        ChannelLayout::Layout3F,
        ChannelLayout::Layout3FLfe,
        ChannelLayout::Layout2F1,
        ChannelLayout::Layout2F1Lfe,
        ChannelLayout::Layout3F1,
        ChannelLayout::Layout3F1Lfe,
        ChannelLayout::Layout2F2,
        ChannelLayout::Layout2F2Lfe,
        ChannelLayout::Layout3F2,
        ChannelLayout::Layout3F3RLfe,
        ChannelLayout::Layout3F4Lfe,
    ];
    for layout in layouts {
        let params = StreamParamsBuilder::new().layout(layout).take();
        assert_eq!(params.layout(), layout);
    }
}

#[test]
fn stream_stream_params_builder_rate() {
    let params = StreamParamsBuilder::new().rate(44100).take();
    assert_eq!(params.rate(), 44100);
}

#[test]
fn stream_stream_params_builder_to_raw_channels() {
    let params = StreamParamsBuilder::new().channels(2).take();
    let raw = params.raw();
    assert_eq!(raw.channels, 2);
}

#[test]
fn stream_stream_params_builder_to_raw_format() {
    let params = StreamParamsBuilder::new().format(SampleFormat::S16LE).take();
    assert_eq!(params.raw().format, ffi::CUBEB_SAMPLE_S16LE);
    let params = StreamParamsBuilder::new().format(SampleFormat::S16BE).take();
    assert_eq!(params.raw().format, ffi::CUBEB_SAMPLE_S16BE);
    let params = StreamParamsBuilder::new().format(SampleFormat::Float32LE).take();
    assert_eq!(params.raw().format, ffi::CUBEB_SAMPLE_FLOAT32LE);
    let params = StreamParamsBuilder::new().format(SampleFormat::Float32BE).take();
    assert_eq!(params.raw().format, ffi::CUBEB_SAMPLE_FLOAT32BE);
}

#[test]
fn stream_stream_params_builder_format_to_raw_native_endian() {
    let little = u16::from_ne_bytes([1, 0]) == 1;
    let params = StreamParamsBuilder::new().format(SampleFormat::S16NE).take();
    assert_eq!(
        params.raw().format,
        if little {
            ffi::CUBEB_SAMPLE_S16LE
        } else {
            ffi::CUBEB_SAMPLE_S16BE
        }
    );

    let params = StreamParamsBuilder::new().format(SampleFormat::Float32NE).take();
    assert_eq!(
        params.raw().format,
        if little {
            ffi::CUBEB_SAMPLE_FLOAT32LE
        } else {
            ffi::CUBEB_SAMPLE_FLOAT32BE
        }
    );
}

#[test]
fn stream_stream_params_builder_to_raw_layout() {
    let cases = [
        (ChannelLayout::Undefined, ffi::CUBEB_LAYOUT_UNDEFINED),
        (ChannelLayout::DualMono, ffi::CUBEB_LAYOUT_DUAL_MONO),
        (ChannelLayout::DualMonoLfe, ffi::CUBEB_LAYOUT_DUAL_MONO_LFE),
        (ChannelLayout::Mono, ffi::CUBEB_LAYOUT_MONO),
        (ChannelLayout::MonoLfe, ffi::CUBEB_LAYOUT_MONO_LFE),
        (ChannelLayout::Stereo, ffi::CUBEB_LAYOUT_STEREO),
        (ChannelLayout::StereoLfe, ffi::CUBEB_LAYOUT_STEREO_LFE),
        (ChannelLayout::Layout3F, ffi::CUBEB_LAYOUT_3F),
        (ChannelLayout::Layout3FLfe, ffi::CUBEB_LAYOUT_3F_LFE),
        (ChannelLayout::Layout2F1, ffi::CUBEB_LAYOUT_2F1),
        (ChannelLayout::Layout2F1Lfe, ffi::CUBEB_LAYOUT_2F1_LFE),
        (ChannelLayout::Layout3F1, ffi::CUBEB_LAYOUT_3F1),
        (ChannelLayout::Layout3F1Lfe, ffi::CUBEB_LAYOUT_3F1_LFE),
        (ChannelLayout::Layout2F2, ffi::CUBEB_LAYOUT_2F2),
        (ChannelLayout::Layout2F2Lfe, ffi::CUBEB_LAYOUT_2F2_LFE),
        (ChannelLayout::Layout3F2, ffi::CUBEB_LAYOUT_3F2),
        (ChannelLayout::Layout3F2Lfe, ffi::CUBEB_LAYOUT_3F2_LFE),
        (ChannelLayout::Layout3F3RLfe, ffi::CUBEB_LAYOUT_3F3R_LFE),
        (ChannelLayout::Layout3F4Lfe, ffi::CUBEB_LAYOUT_3F4_LFE),
    ];
    for (layout, code) in cases {
        let params = StreamParamsBuilder::new().layout(layout).take();
        assert_eq!(params.raw().layout, code);
    }
}

#[test]
fn stream_stream_params_builder_to_raw_rate() {
    let params = StreamParamsBuilder::new().rate(44100).take();
    assert_eq!(params.raw().rate, 44100);
}
