//! Plain-value model of device identity and device descriptors.
//!
//! The native library reports devices through fixed-layout records whose
//! string fields may be null and whose enum and flag fields carry integer
//! codes. A [`DeviceInfo`] holds those reported values as plain data — the
//! strings as optional byte vectors, exactly as the native memory held them
//! — and its getters perform the validated translation: UTF-8 that fails to
//! decode is reported as absent rather than failing, and an integer outside
//! a closed set is a native contract violation that the well-formedness
//! predicate rules out.

use vstd::prelude::*;

use crate::ffi;
use crate::util::Binding;
use crate::util::utf8_chars;
use crate::util::decode_utf8_opt;

verus! {

/// Device identifier handle: the address value the native library uses to
/// name a device. A zero address is the null identifier, which selects the
/// default device.
#[derive(PartialEq, Eq, Clone, Debug, Copy, Structural)]
pub struct DeviceId {
    handle: usize,
}

impl Binding for DeviceId {
    type Raw = usize;

    closed spec fn raw_spec(&self) -> usize {
        self.handle
    }

    fn from_raw(raw: usize) -> (b: DeviceId) {
        DeviceId { handle: raw }
    }

    fn raw(&self) -> (r: usize) {
        self.handle
    }
}

impl Default for DeviceId {
    /// The null identifier: the default device.
    fn default() -> (d: DeviceId)
        ensures
            d.raw_spec() == 0usize,
    {
        DeviceId { handle: 0 }
    }
}

/// Whether a device is an input or an output, a bitset since a request may
/// name both.
#[derive(PartialEq, Eq, Clone, Debug, Copy, Structural)]
pub struct DeviceType {
    bits: ffi::cubeb_device_type,
}

impl DeviceType {
    /// The bits a device type may hold.
    pub open spec fn spec_known_bits() -> ffi::cubeb_device_type {
        ffi::CUBEB_DEVICE_TYPE_INPUT | ffi::CUBEB_DEVICE_TYPE_OUTPUT
    }

    /// The raw bits of this type.
    pub closed spec fn spec_bits(self) -> ffi::cubeb_device_type {
        self.bits
    }

    /// Neither input nor output.
    pub fn unknown() -> (r: DeviceType)
        ensures
            r.spec_bits() == ffi::CUBEB_DEVICE_TYPE_UNKNOWN,
    {
        DeviceType { bits: ffi::CUBEB_DEVICE_TYPE_UNKNOWN }
    }

    /// An input device.
    pub fn input() -> (r: DeviceType)
        ensures
            r.spec_bits() == ffi::CUBEB_DEVICE_TYPE_INPUT,
    {
        DeviceType { bits: ffi::CUBEB_DEVICE_TYPE_INPUT }
    }

    /// An output device.
    pub fn output() -> (r: DeviceType)
        ensures
            r.spec_bits() == ffi::CUBEB_DEVICE_TYPE_OUTPUT,
    {
        DeviceType { bits: ffi::CUBEB_DEVICE_TYPE_OUTPUT }
    }

    /// The raw bits.
    pub fn bits(self) -> (r: ffi::cubeb_device_type)
        ensures
            r == self.spec_bits(),
    {
        self.bits
    }

    /// A device type from raw bits, with every unknown bit dropped.
    pub fn from_bits_truncate(bits: ffi::cubeb_device_type) -> (r: DeviceType)
        ensures
            r.spec_bits() == bits & Self::spec_known_bits(),
    {
        DeviceType { bits: bits & (ffi::CUBEB_DEVICE_TYPE_INPUT | ffi::CUBEB_DEVICE_TYPE_OUTPUT) }
    }

    /// The union of two device types.
    pub fn union(self, other: DeviceType) -> (r: DeviceType)
        ensures
            r.spec_bits() == self.spec_bits() | other.spec_bits(),
    {
        DeviceType { bits: self.bits | other.bits }
    }

    /// Whether every bit of `other` is set in `self`.
    pub fn contains(self, other: DeviceType) -> (r: bool)
        ensures
            r == (self.spec_bits() & other.spec_bits() == other.spec_bits()),
    {
        self.bits & other.bits == other.bits
    }
}

/// State of a device: disabled, unplugged or enabled.
#[derive(PartialEq, Eq, Clone, Debug, Copy, Structural)]
pub enum DeviceState {
    /// The device is present but disabled.
    Disabled,
    /// The device is known but not plugged in.
    Unplugged,
    /// The device is ready for use.
    Enabled,
}

impl DeviceState {
    /// The native ABI code of this state.
    pub open spec fn spec_to_raw(self) -> ffi::cubeb_device_state {
        match self {
            DeviceState::Disabled => ffi::CUBEB_DEVICE_STATE_DISABLED,
            DeviceState::Unplugged => ffi::CUBEB_DEVICE_STATE_UNPLUGGED,
            DeviceState::Enabled => ffi::CUBEB_DEVICE_STATE_ENABLED,
        }
    }

    /// The state a native ABI code denotes, absent for an unrecognized
    /// code.
    pub open spec fn spec_from_raw(code: ffi::cubeb_device_state) -> Option<DeviceState> {
        if code == ffi::CUBEB_DEVICE_STATE_DISABLED {
            Some(DeviceState::Disabled)
        } else if code == ffi::CUBEB_DEVICE_STATE_UNPLUGGED {
            Some(DeviceState::Unplugged)
        } else if code == ffi::CUBEB_DEVICE_STATE_ENABLED {
            Some(DeviceState::Enabled)
        } else {
            None
        }
    }

    /// The native ABI code of this state.
    pub fn to_raw(self) -> (code: ffi::cubeb_device_state)
        ensures
            code == self.spec_to_raw(),
            Self::spec_from_raw(code) == Some(self),
    {
        match self {
            DeviceState::Disabled => ffi::CUBEB_DEVICE_STATE_DISABLED,
            DeviceState::Unplugged => ffi::CUBEB_DEVICE_STATE_UNPLUGGED,
            DeviceState::Enabled => ffi::CUBEB_DEVICE_STATE_ENABLED,
        }
    }

    /// Translates a native ABI code, reporting an unrecognized code as
    /// absent.
    pub fn from_raw(code: ffi::cubeb_device_state) -> (r: Option<DeviceState>)
        ensures
            r == Self::spec_from_raw(code),
    {
        if code == ffi::CUBEB_DEVICE_STATE_DISABLED {
            Some(DeviceState::Disabled)
        } else if code == ffi::CUBEB_DEVICE_STATE_UNPLUGGED {
            Some(DeviceState::Unplugged)
        } else if code == ffi::CUBEB_DEVICE_STATE_ENABLED {
            Some(DeviceState::Enabled)
        } else {
            None
        }
    }
}

/// The sample formats a device supports, a bitset over the native format
/// bits.
#[derive(PartialEq, Eq, Clone, Debug, Copy, Structural)]
pub struct DeviceFormat {
    bits: ffi::cubeb_device_fmt,
}

impl DeviceFormat {
    /// The bits a device format set may hold.
    pub open spec fn spec_known_bits() -> ffi::cubeb_device_fmt {
        ffi::CUBEB_DEVICE_FMT_ALL
    }

    /// The raw bits of this format set.
    pub closed spec fn spec_bits(self) -> ffi::cubeb_device_fmt {
        self.bits
    }

    /// 16-bit signed integer, little endian.
    pub fn s16le() -> (r: DeviceFormat)
        ensures
            r.spec_bits() == ffi::CUBEB_DEVICE_FMT_S16LE,
    {
        DeviceFormat { bits: ffi::CUBEB_DEVICE_FMT_S16LE }
    }

    /// 16-bit signed integer, big endian.
    pub fn s16be() -> (r: DeviceFormat)
        ensures
            r.spec_bits() == ffi::CUBEB_DEVICE_FMT_S16BE,
    {
        DeviceFormat { bits: ffi::CUBEB_DEVICE_FMT_S16BE }
    }

    /// 32-bit float, little endian.
    pub fn f32le() -> (r: DeviceFormat)
        ensures
            r.spec_bits() == ffi::CUBEB_DEVICE_FMT_F32LE,
    {
        DeviceFormat { bits: ffi::CUBEB_DEVICE_FMT_F32LE }
    }

    /// 32-bit float, big endian.
    pub fn f32be() -> (r: DeviceFormat)
        ensures
            r.spec_bits() == ffi::CUBEB_DEVICE_FMT_F32BE,
    {
        DeviceFormat { bits: ffi::CUBEB_DEVICE_FMT_F32BE }
    }

    /// The raw bits.
    pub fn bits(self) -> (r: ffi::cubeb_device_fmt)
        ensures
            r == self.spec_bits(),
    {
        self.bits
    }

    /// A format set from raw bits: present exactly when no unknown bit is
    /// set.
    pub fn from_bits(bits: ffi::cubeb_device_fmt) -> (r: Option<DeviceFormat>)
        ensures
            r is Some <==> bits & !Self::spec_known_bits() == 0,
            r matches Some(f) ==> f.spec_bits() == bits,
    {
        if bits & !ffi::CUBEB_DEVICE_FMT_ALL == 0 {
            Some(DeviceFormat { bits })
        } else {
            None
        }
    }

    /// Whether every format of `other` is supported in `self`.
    pub fn contains(self, other: DeviceFormat) -> (r: bool)
        ensures
            r == (self.spec_bits() & other.spec_bits() == other.spec_bits()),
    {
        self.bits & other.bits == other.bits
    }
}

/// The roles a device is preferred for, a bitset over the native preference
/// bits.
#[derive(PartialEq, Eq, Clone, Debug, Copy, Structural)]
pub struct DevicePref {
    bits: ffi::cubeb_device_pref,
}

impl DevicePref {
    /// The bits a preference set may hold.
    pub open spec fn spec_known_bits() -> ffi::cubeb_device_pref {
        ffi::CUBEB_DEVICE_PREF_ALL
    }

    /// The raw bits of this preference set.
    pub closed spec fn spec_bits(self) -> ffi::cubeb_device_pref {
        self.bits
    }

    /// Not preferred for any role.
    pub fn none() -> (r: DevicePref)
        ensures
            r.spec_bits() == ffi::CUBEB_DEVICE_PREF_NONE,
    {
        DevicePref { bits: ffi::CUBEB_DEVICE_PREF_NONE }
    }

    /// Preferred for multimedia.
    pub fn multimedia() -> (r: DevicePref)
        ensures
            r.spec_bits() == ffi::CUBEB_DEVICE_PREF_MULTIMEDIA,
    {
        DevicePref { bits: ffi::CUBEB_DEVICE_PREF_MULTIMEDIA }
    }

    /// Preferred for voice.
    pub fn voice() -> (r: DevicePref)
        ensures
            r.spec_bits() == ffi::CUBEB_DEVICE_PREF_VOICE,
    {
        DevicePref { bits: ffi::CUBEB_DEVICE_PREF_VOICE }
    }

    /// Preferred for notifications.
    pub fn notification() -> (r: DevicePref)
        ensures
            r.spec_bits() == ffi::CUBEB_DEVICE_PREF_NOTIFICATION,
    {
        DevicePref { bits: ffi::CUBEB_DEVICE_PREF_NOTIFICATION }
    }

    /// Preferred for every role.
    pub fn all() -> (r: DevicePref)
        ensures
            r.spec_bits() == ffi::CUBEB_DEVICE_PREF_ALL,
    {
        DevicePref { bits: ffi::CUBEB_DEVICE_PREF_ALL }
    }

    /// The raw bits.
    pub fn bits(self) -> (r: ffi::cubeb_device_pref)
        ensures
            r == self.spec_bits(),
    {
        self.bits
    }

    /// A preference set from raw bits: present exactly when no unknown bit
    /// is set.
    pub fn from_bits(bits: ffi::cubeb_device_pref) -> (r: Option<DevicePref>)
        ensures
            r is Some <==> bits & !Self::spec_known_bits() == 0,
            r matches Some(p) ==> p.spec_bits() == bits,
    {
        if bits & !ffi::CUBEB_DEVICE_PREF_ALL == 0 {
            Some(DevicePref { bits })
        } else {
            None
        }
    }

    /// Whether every role of `other` is preferred in `self`.
    pub fn contains(self, other: DevicePref) -> (r: bool)
        ensures
            r == (self.spec_bits() & other.spec_bits() == other.spec_bits()),
    {
        self.bits & other.bits == other.bits
    }
}

/// What the current-device query of a stream reports: the names of the
/// devices the stream runs on, as the bytes the native memory held. Either
/// side may be absent when the stream has no device on it.
#[derive(PartialEq, Eq, Clone, Debug)]
pub struct Device {
    /// The output device's name bytes, absent without an output device.
    pub output_name: Option<Vec<u8>>,
    /// The input device's name bytes, absent without an input device.
    pub input_name: Option<Vec<u8>>,
}

impl Device {
    /// The output device's name, absent when there is no output device or
    /// the native library reported bytes that are not valid UTF-8.
    pub fn output_name(&self) -> (r: Option<String>)
        ensures
            r is Some <==> (self.output_name matches Some(b) && utf8_chars(b@) is Some),
            r matches Some(s) ==> Some(s@) == utf8_chars(self.output_name->0@),
    {
        decode_utf8_opt(&self.output_name)
    }

    /// The input device's name, absent when there is no input device or the
    /// native library reported bytes that are not valid UTF-8.
    pub fn input_name(&self) -> (r: Option<String>)
        ensures
            r is Some <==> (self.input_name matches Some(b) && utf8_chars(b@) is Some),
            r matches Some(s) ==> Some(s@) == utf8_chars(self.input_name->0@),
    {
        decode_utf8_opt(&self.input_name)
    }
}

/// The characteristics of one input or output device, exactly as the native
/// enumeration reported them: plain integers for the codes and flag sets,
/// and the optional strings as the bytes the native memory held, decoded
/// only when read.
#[derive(PartialEq, Eq, Clone, Debug)]
pub struct DeviceInfo {
    /// Device identifier handle.
    pub devid: DeviceId,
    /// Device identifier bytes, which a UI might present.
    pub device_id: Option<Vec<u8>>,
    /// Friendly device name bytes, which a UI might present.
    pub friendly_name: Option<Vec<u8>>,
    /// Group identifier bytes: two devices of one physical device share it.
    pub group_id: Option<Vec<u8>>,
    /// Vendor name bytes.
    pub vendor_name: Option<Vec<u8>>,
    /// Raw device type bits.
    pub device_type: ffi::cubeb_device_type,
    /// Raw device state code.
    pub state: ffi::cubeb_device_state,
    /// Raw preference bits.
    pub preferred: ffi::cubeb_device_pref,
    /// Raw supported-format bits.
    pub format: ffi::cubeb_device_fmt,
    /// Raw default-format bits.
    pub default_format: ffi::cubeb_device_fmt,
    /// Highest channel count the device supports.
    pub max_channels: u32,
    /// Default or preferred sample rate.
    pub default_rate: u32,
    /// Highest sample rate the device supports.
    pub max_rate: u32,
    /// Lowest sample rate the device supports.
    pub min_rate: u32,
    /// Lowest possible latency in frames.
    pub latency_lo: u32,
    /// Highest possible latency in frames.
    pub latency_hi: u32,
}

impl DeviceInfo {
    /// The record is well-formed: its state code is a recognized one and its
    /// flag fields hold no unknown bit. The native contract guarantees this
    /// of every record an enumeration fills in.
    pub open spec fn wf(self) -> bool {
        &&& DeviceState::spec_from_raw(self.state) is Some
        &&& self.preferred & !DevicePref::spec_known_bits() == 0
        &&& self.format & !DeviceFormat::spec_known_bits() == 0
        &&& self.default_format & !DeviceFormat::spec_known_bits() == 0
    }

    /// Device identifier handle.
    pub fn devid(&self) -> (r: DeviceId)
        ensures
            r == self.devid,
    {
        self.devid
    }

    /// Device identifier, absent when the native library reported none or
    /// reported bytes that are not valid UTF-8.
    pub fn device_id(&self) -> (r: Option<String>)
        ensures
            r is Some <==> (self.device_id matches Some(b) && utf8_chars(b@) is Some),
            r matches Some(s) ==> Some(s@) == utf8_chars(self.device_id->0@),
    {
        decode_utf8_opt(&self.device_id)
    }

    /// Friendly device name, absent when the native library reported none or
    /// reported bytes that are not valid UTF-8.
    pub fn friendly_name(&self) -> (r: Option<String>)
        ensures
            r is Some <==> (self.friendly_name matches Some(b) && utf8_chars(b@) is Some),
            r matches Some(s) ==> Some(s@) == utf8_chars(self.friendly_name->0@),
    {
        decode_utf8_opt(&self.friendly_name)
    }

    /// Group identifier, absent when the native library reported none or
    /// reported bytes that are not valid UTF-8. Two devices share it when
    /// they belong to one physical device, a headset and its microphone say.
    pub fn group_id(&self) -> (r: Option<String>)
        ensures
            r is Some <==> (self.group_id matches Some(b) && utf8_chars(b@) is Some),
            r matches Some(s) ==> Some(s@) == utf8_chars(self.group_id->0@),
    {
        decode_utf8_opt(&self.group_id)
    }

    /// Vendor name, absent when the native library reported none or reported
    /// bytes that are not valid UTF-8.
    pub fn vendor_name(&self) -> (r: Option<String>)
        ensures
            r is Some <==> (self.vendor_name matches Some(b) && utf8_chars(b@) is Some),
            r matches Some(s) ==> Some(s@) == utf8_chars(self.vendor_name->0@),
    {
        decode_utf8_opt(&self.vendor_name)
    }

    /// Type of device (input, output or both), with unknown bits dropped.
    pub fn device_type(&self) -> (r: DeviceType)
        ensures
            r.spec_bits() == self.device_type & DeviceType::spec_known_bits(),
    {
        DeviceType::from_bits_truncate(self.device_type)
    }

    /// State of the device: disabled, unplugged or enabled.
    pub fn state(&self) -> (r: DeviceState)
        requires
            DeviceState::spec_from_raw(self.state) is Some,
        ensures
            Some(r) == DeviceState::spec_from_raw(self.state),
    {
        match DeviceState::from_raw(self.state) {
            Some(s) => s,
            None => unreached(),
        }
    }

    /// The roles this device is preferred for.
    pub fn preferred(&self) -> (r: DevicePref)
        requires
            self.preferred & !DevicePref::spec_known_bits() == 0,
        ensures
            r.spec_bits() == self.preferred,
    {
        match DevicePref::from_bits(self.preferred) {
            Some(p) => p,
            None => unreached(),
        }
    }

    /// The sample formats this device supports.
    pub fn format(&self) -> (r: DeviceFormat)
        requires
            self.format & !DeviceFormat::spec_known_bits() == 0,
        ensures
            r.spec_bits() == self.format,
    {
        match DeviceFormat::from_bits(self.format) {
            Some(f) => f,
            None => unreached(),
        }
    }

    /// The default sample format of this device.
    pub fn default_format(&self) -> (r: DeviceFormat)
        requires
            self.default_format & !DeviceFormat::spec_known_bits() == 0,
        ensures
            r.spec_bits() == self.default_format,
    {
        match DeviceFormat::from_bits(self.default_format) {
            Some(f) => f,
            None => unreached(),
        }
    }

    /// Highest channel count the device supports.
    pub fn max_channels(&self) -> (r: u32)
        ensures
            r == self.max_channels,
    {
        self.max_channels
    }

    /// Default or preferred sample rate.
    pub fn default_rate(&self) -> (r: u32)
        ensures
            r == self.default_rate,
    {
        self.default_rate
    }

    /// Highest sample rate the device supports.
    pub fn max_rate(&self) -> (r: u32)
        ensures
            r == self.max_rate,
    {
        self.max_rate
    }

    /// Lowest sample rate the device supports.
    pub fn min_rate(&self) -> (r: u32)
        ensures
            r == self.min_rate,
    {
        self.min_rate
    }

    /// Lowest possible latency in frames.
    pub fn latency_lo(&self) -> (r: u32)
        ensures
            r == self.latency_lo,
    {
        self.latency_lo
    }

    /// Highest possible latency in frames.
    pub fn latency_hi(&self) -> (r: u32)
        ensures
            r == self.latency_hi,
    {
        self.latency_hi
    }
}

} // verus!
