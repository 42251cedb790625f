//! The native library's ABI codes, restated as plain constants, and
//! plain-value mirrors of its fixed-layout records.
//!
//! Nothing here touches the native library: these are the integer codes and
//! field layouts that its published header fixes, which the translation
//! layer of this crate speaks about. The unverified surroundings convert
//! between these mirrors and the actual C records field by field.

use vstd::prelude::*;

verus! {

pub type cubeb_sample_format = u32;

pub const CUBEB_SAMPLE_S16LE: cubeb_sample_format = 0;

pub const CUBEB_SAMPLE_S16BE: cubeb_sample_format = 1;

pub const CUBEB_SAMPLE_FLOAT32LE: cubeb_sample_format = 2;

pub const CUBEB_SAMPLE_FLOAT32BE: cubeb_sample_format = 3;

pub type cubeb_channel_layout = u32;

pub const CUBEB_LAYOUT_UNDEFINED: cubeb_channel_layout = 0;

pub const CUBEB_LAYOUT_DUAL_MONO: cubeb_channel_layout = 1;

pub const CUBEB_LAYOUT_DUAL_MONO_LFE: cubeb_channel_layout = 2;

pub const CUBEB_LAYOUT_MONO: cubeb_channel_layout = 3;

pub const CUBEB_LAYOUT_MONO_LFE: cubeb_channel_layout = 4;

pub const CUBEB_LAYOUT_STEREO: cubeb_channel_layout = 5;

pub const CUBEB_LAYOUT_STEREO_LFE: cubeb_channel_layout = 6;

pub const CUBEB_LAYOUT_3F: cubeb_channel_layout = 7;

pub const CUBEB_LAYOUT_3F_LFE: cubeb_channel_layout = 8;

pub const CUBEB_LAYOUT_2F1: cubeb_channel_layout = 9;

pub const CUBEB_LAYOUT_2F1_LFE: cubeb_channel_layout = 10;

pub const CUBEB_LAYOUT_3F1: cubeb_channel_layout = 11;

pub const CUBEB_LAYOUT_3F1_LFE: cubeb_channel_layout = 12;

pub const CUBEB_LAYOUT_2F2: cubeb_channel_layout = 13;

pub const CUBEB_LAYOUT_2F2_LFE: cubeb_channel_layout = 14;

pub const CUBEB_LAYOUT_3F2: cubeb_channel_layout = 15;

pub const CUBEB_LAYOUT_3F2_LFE: cubeb_channel_layout = 16;

pub const CUBEB_LAYOUT_3F3R_LFE: cubeb_channel_layout = 17;

pub const CUBEB_LAYOUT_3F4_LFE: cubeb_channel_layout = 18;

pub const CUBEB_LAYOUT_MAX: cubeb_channel_layout = 19;

pub type cubeb_state = u32;

pub const CUBEB_STATE_STARTED: cubeb_state = 0;

pub const CUBEB_STATE_STOPPED: cubeb_state = 1;

pub const CUBEB_STATE_DRAINED: cubeb_state = 2;

pub const CUBEB_STATE_ERROR: cubeb_state = 3;

pub type cubeb_error_code = i32;

pub const CUBEB_OK: cubeb_error_code = 0;

pub const CUBEB_ERROR: cubeb_error_code = -1;

pub const CUBEB_ERROR_INVALID_FORMAT: cubeb_error_code = -2;

pub const CUBEB_ERROR_INVALID_PARAMETER: cubeb_error_code = -3;

pub const CUBEB_ERROR_NOT_SUPPORTED: cubeb_error_code = -4;

pub const CUBEB_ERROR_DEVICE_UNAVAILABLE: cubeb_error_code = -5;

pub type cubeb_log_level = u32;

pub const CUBEB_LOG_DISABLED: cubeb_log_level = 0;

pub const CUBEB_LOG_NORMAL: cubeb_log_level = 1;

pub const CUBEB_LOG_VERBOSE: cubeb_log_level = 2;

pub type cubeb_device_type = u32;

pub const CUBEB_DEVICE_TYPE_UNKNOWN: cubeb_device_type = 0;

pub const CUBEB_DEVICE_TYPE_INPUT: cubeb_device_type = 1;

pub const CUBEB_DEVICE_TYPE_OUTPUT: cubeb_device_type = 2;

pub type cubeb_device_state = u32;

pub const CUBEB_DEVICE_STATE_DISABLED: cubeb_device_state = 0;

pub const CUBEB_DEVICE_STATE_UNPLUGGED: cubeb_device_state = 1;

pub const CUBEB_DEVICE_STATE_ENABLED: cubeb_device_state = 2;

pub type cubeb_device_fmt = u32;

pub const CUBEB_DEVICE_FMT_S16LE: cubeb_device_fmt = 0x0010;

pub const CUBEB_DEVICE_FMT_S16BE: cubeb_device_fmt = 0x0020;

pub const CUBEB_DEVICE_FMT_F32LE: cubeb_device_fmt = 0x1000;

pub const CUBEB_DEVICE_FMT_F32BE: cubeb_device_fmt = 0x2000;

pub const CUBEB_DEVICE_FMT_ALL: cubeb_device_fmt = CUBEB_DEVICE_FMT_S16LE | CUBEB_DEVICE_FMT_S16BE
    | CUBEB_DEVICE_FMT_F32LE | CUBEB_DEVICE_FMT_F32BE;

pub type cubeb_device_pref = u32;

pub const CUBEB_DEVICE_PREF_NONE: cubeb_device_pref = 0x00;

pub const CUBEB_DEVICE_PREF_MULTIMEDIA: cubeb_device_pref = 0x01;

pub const CUBEB_DEVICE_PREF_VOICE: cubeb_device_pref = 0x02;

pub const CUBEB_DEVICE_PREF_NOTIFICATION: cubeb_device_pref = 0x04;

pub const CUBEB_DEVICE_PREF_ALL: cubeb_device_pref = 0x0F;

pub type cubeb_stream_prefs = u32;

pub const CUBEB_STREAM_PREF_NONE: cubeb_stream_prefs = 0x00;

pub const CUBEB_STREAM_PREF_LOOPBACK: cubeb_stream_prefs = 0x01;

pub const CUBEB_STREAM_PREF_DISABLE_DEVICE_SWITCHING: cubeb_stream_prefs = 0x02;

pub const CUBEB_STREAM_PREF_VOICE: cubeb_stream_prefs = 0x04;

/// Mirror of the native stream-parameter record: field for field the
/// published layout (sample format code, rate in Hz, channel count, channel
/// layout code, preference bits).
///
/// A native-endian format request never reaches this record: the builder
/// resolves it to a concrete byte order first, so `format` always holds one
/// of the four concrete codes when the record was built by this library.
#[derive(Clone, Copy, Debug, PartialEq, Eq, Structural)]
pub struct cubeb_stream_params {
    pub format: cubeb_sample_format,
    pub rate: u32,
    pub channels: u32,
    pub layout: cubeb_channel_layout,
    pub prefs: cubeb_stream_prefs,
}

} // verus!
