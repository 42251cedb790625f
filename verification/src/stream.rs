//! Stream-side value types: the stream state, the preference flags, the
//! immutable parameter record, and the options a stream is initialized with.
//!
//! The native stream object itself lives behind the C ABI and is driven by
//! unverified surroundings; everything here is the plain-value logic those
//! surroundings rely on, above all the exact code translation for the
//! asynchronous state callback and the validated parameter record. The
//! lifecycle rules a stream obeys are stated in [`crate::engine`].

use vstd::prelude::*;

use crate::channel::ChannelLayout;
use crate::device::DeviceId;
use crate::ffi;
use crate::format::SampleFormat;
use crate::util::Binding;

verus! {

/// Stream state as the asynchronous state callback reports it.
#[derive(PartialEq, Eq, Clone, Debug, Copy, Structural)]
pub enum State {
    /// The stream produces or consumes audio.
    Started,
    /// The stream is stopped.
    Stopped,
    /// The stream played every frame the data callback handed it.
    Drained,
    /// The stream failed.
    Error,
}

impl State {
    /// The native ABI code of this state.
    pub open spec fn spec_to_raw(self) -> ffi::cubeb_state {
        match self {
            State::Started => ffi::CUBEB_STATE_STARTED,
            State::Stopped => ffi::CUBEB_STATE_STOPPED,
            State::Drained => ffi::CUBEB_STATE_DRAINED,
            State::Error => ffi::CUBEB_STATE_ERROR,
        }
    }

    /// The state a native ABI code denotes, absent for an unrecognized
    /// code. The native contract guarantees only known codes, so an absent
    /// answer is a contract violation the boundary treats as fatal.
    pub open spec fn spec_from_raw(code: ffi::cubeb_state) -> Option<State> {
        if code == ffi::CUBEB_STATE_STARTED {
            Some(State::Started)
        } else if code == ffi::CUBEB_STATE_STOPPED {
            Some(State::Stopped)
        } else if code == ffi::CUBEB_STATE_DRAINED {
            Some(State::Drained)
        } else if code == ffi::CUBEB_STATE_ERROR {
            Some(State::Error)
        } else {
            None
        }
    }

    /// The native ABI code of this state.
    pub fn to_raw(self) -> (code: ffi::cubeb_state)
        ensures
            code == self.spec_to_raw(),
            Self::spec_from_raw(code) == Some(self),
    {
        match self {
            State::Started => ffi::CUBEB_STATE_STARTED,
            State::Stopped => ffi::CUBEB_STATE_STOPPED,
            State::Drained => ffi::CUBEB_STATE_DRAINED,
            State::Error => ffi::CUBEB_STATE_ERROR,
        }
    }

    /// Translates a native state code, reporting an unrecognized code as
    /// absent rather than inventing a state.
    pub fn from_raw(code: ffi::cubeb_state) -> (r: Option<State>)
        ensures
            r == Self::spec_from_raw(code),
    {
        if code == ffi::CUBEB_STATE_STARTED {
            Some(State::Started)
        } else if code == ffi::CUBEB_STATE_STOPPED {
            Some(State::Stopped)
        } else if code == ffi::CUBEB_STATE_DRAINED {
            Some(State::Drained)
        } else if code == ffi::CUBEB_STATE_ERROR {
            Some(State::Error)
        } else {
            None
        }
    }
}

/// Stream preference flags, a bitset over the native preference bits.
#[derive(PartialEq, Eq, Clone, Debug, Copy, Structural)]
pub struct StreamPrefs {
    bits: ffi::cubeb_stream_prefs,
}

impl StreamPrefs {
    /// The bits a preference set may hold.
    pub open spec fn spec_known_bits() -> ffi::cubeb_stream_prefs {
        ffi::CUBEB_STREAM_PREF_LOOPBACK | ffi::CUBEB_STREAM_PREF_DISABLE_DEVICE_SWITCHING
            | ffi::CUBEB_STREAM_PREF_VOICE
    }

    /// The raw bits of this preference set.
    pub closed spec fn spec_bits(self) -> ffi::cubeb_stream_prefs {
        self.bits
    }

    /// No preference.
    pub fn none() -> (r: StreamPrefs)
        ensures
            r.spec_bits() == ffi::CUBEB_STREAM_PREF_NONE,
    {
        StreamPrefs { bits: ffi::CUBEB_STREAM_PREF_NONE }
    }

    /// Loopback: the stream captures what the output device plays.
    pub fn loopback() -> (r: StreamPrefs)
        ensures
            r.spec_bits() == ffi::CUBEB_STREAM_PREF_LOOPBACK,
    {
        StreamPrefs { bits: ffi::CUBEB_STREAM_PREF_LOOPBACK }
    }

    /// The stream must not follow the system default device when it changes.
    pub fn disable_device_switching() -> (r: StreamPrefs)
        ensures
            r.spec_bits() == ffi::CUBEB_STREAM_PREF_DISABLE_DEVICE_SWITCHING,
    {
        StreamPrefs { bits: ffi::CUBEB_STREAM_PREF_DISABLE_DEVICE_SWITCHING }
    }

    /// The stream carries voice; the backend may process it accordingly.
    pub fn voice() -> (r: StreamPrefs)
        ensures
            r.spec_bits() == ffi::CUBEB_STREAM_PREF_VOICE,
    {
        StreamPrefs { bits: ffi::CUBEB_STREAM_PREF_VOICE }
    }

    /// The raw preference bits.
    pub fn bits(self) -> (r: ffi::cubeb_stream_prefs)
        ensures
            r == self.spec_bits(),
    {
        self.bits
    }

    /// A preference set from raw bits, with every unknown bit dropped.
    pub fn from_bits_truncate(bits: ffi::cubeb_stream_prefs) -> (r: StreamPrefs)
        ensures
            r.spec_bits() == bits & Self::spec_known_bits(),
    {
        StreamPrefs {
            bits: bits & (ffi::CUBEB_STREAM_PREF_LOOPBACK
                | ffi::CUBEB_STREAM_PREF_DISABLE_DEVICE_SWITCHING | ffi::CUBEB_STREAM_PREF_VOICE),
        }
    }

    /// The union of two preference sets.
    pub fn union(self, other: StreamPrefs) -> (r: StreamPrefs)
        ensures
            r.spec_bits() == self.spec_bits() | other.spec_bits(),
    {
        StreamPrefs { bits: self.bits | other.bits }
    }

    /// Whether every preference of `other` is set in `self`.
    pub fn contains(self, other: StreamPrefs) -> (r: bool)
        ensures
            r == (self.spec_bits() & other.spec_bits() == other.spec_bits()),
    {
        self.bits & other.bits == other.bits
    }
}

/// An immutable, validated stream parameter record: the native record plus
/// the promise that its format and layout codes are recognized ones.
///
/// Built by [`crate::builders::StreamParamsBuilder`], which resolves any
/// native-endian format request to a concrete byte order at build time.
#[derive(Clone, Copy, Debug, PartialEq, Eq, Structural)]
pub struct StreamParams {
    raw: ffi::cubeb_stream_params,
}

impl StreamParams {
    /// The parameter record is well-formed: its format and layout codes are
    /// recognized, so reading them back cannot fail.
    pub open spec fn wf(self) -> bool {
        SampleFormat::spec_from_raw(self.raw_spec().format) is Some
            && ChannelLayout::spec_from_raw(self.raw_spec().layout) is Some
    }

    /// The sample format of this record.
    pub fn format(&self) -> (f: SampleFormat)
        requires
            SampleFormat::spec_from_raw(self.raw_spec().format) is Some,
        ensures
            Some(f) == SampleFormat::spec_from_raw(self.raw_spec().format),
            !f.is_native_endian(),
    {
        match SampleFormat::from_raw(self.raw.format) {
            Some(f) => f,
            None => unreached(),
        }
    }

    /// The sample rate in Hz.
    pub fn rate(&self) -> (r: u32)
        ensures
            r == self.raw_spec().rate,
    {
        self.raw.rate
    }

    /// The channel count.
    pub fn channels(&self) -> (c: u32)
        ensures
            c == self.raw_spec().channels,
    {
        self.raw.channels
    }

    /// The channel layout of this record.
    pub fn layout(&self) -> (l: ChannelLayout)
        requires
            ChannelLayout::spec_from_raw(self.raw_spec().layout) is Some,
        ensures
            Some(l) == ChannelLayout::spec_from_raw(self.raw_spec().layout),
    {
        match ChannelLayout::from_raw(self.raw.layout) {
            Some(l) => l,
            None => unreached(),
        }
    }

    /// The preference flags of this record, with unknown bits dropped.
    pub fn prefs(&self) -> (p: StreamPrefs)
        ensures
            p.spec_bits() == self.raw_spec().prefs & StreamPrefs::spec_known_bits(),
    {
        StreamPrefs::from_bits_truncate(self.raw.prefs)
    }
}

impl Binding for StreamParams {
    type Raw = ffi::cubeb_stream_params;

    closed spec fn raw_spec(&self) -> ffi::cubeb_stream_params {
        self.raw
    }

    fn from_raw(raw: ffi::cubeb_stream_params) -> (b: StreamParams) {
        StreamParams { raw }
    }

    fn raw(&self) -> (r: ffi::cubeb_stream_params) {
        self.raw
    }
}

/// Everything a stream is initialized with: an optional stream name, the
/// input and output devices (the null identifier selects the default
/// device), the parameter record of each side that is wanted, and the
/// requested latency. A side without parameters is not opened.
#[derive(Debug)]
pub struct StreamInitOptions {
    /// The stream name, shown by some backends in system mixers.
    pub stream_name: Option<String>,
    /// The input device, the default one when null.
    pub input_device: DeviceId,
    /// The input side's parameters; no input side when absent.
    pub input_stream_params: Option<StreamParams>,
    /// The output device, the default one when null.
    pub output_device: DeviceId,
    /// The output side's parameters; no output side when absent.
    pub output_stream_params: Option<StreamParams>,
    /// The requested latency in frames.
    pub latency_frames: u32,
}

impl StreamInitOptions {
    /// Options that name nothing: no stream name, both devices the default
    /// one, no parameters on either side, zero latency.
    pub fn new() -> (o: StreamInitOptions)
        ensures
            o.stream_name is None,
            o.input_device.raw_spec() == 0usize,
            o.input_stream_params is None,
            o.output_device.raw_spec() == 0usize,
            o.output_stream_params is None,
            o.latency_frames == 0u32,
    {
        StreamInitOptions {
            stream_name: None,
            input_device: DeviceId::default(),
            input_stream_params: None,
            output_device: DeviceId::default(),
            output_stream_params: None,
            latency_frames: 0,
        }
    }
}

impl Default for StreamInitOptions {
    /// The same defaults as [`StreamInitOptions::new`].
    fn default() -> (o: StreamInitOptions)
        ensures
            o.stream_name is None,
            o.input_device.raw_spec() == 0usize,
            o.input_stream_params is None,
            o.output_device.raw_spec() == 0usize,
            o.output_stream_params is None,
            o.latency_frames == 0u32,
    {
        StreamInitOptions::new()
    }
}

/// Fluent configuration of [`StreamInitOptions`].
#[derive(Debug)]
pub struct StreamInitOptionsBuilder {
    opts: StreamInitOptions,
}

impl StreamInitOptionsBuilder {
    /// The options as configured so far.
    pub closed spec fn opts_spec(self) -> StreamInitOptions {
        self.opts
    }

    /// A builder holding the defaults of [`StreamInitOptions::new`].
    pub fn new() -> (b: StreamInitOptionsBuilder)
        ensures
            b.opts_spec().stream_name is None,
            b.opts_spec().input_device.raw_spec() == 0usize,
            b.opts_spec().input_stream_params is None,
            b.opts_spec().output_device.raw_spec() == 0usize,
            b.opts_spec().output_stream_params is None,
            b.opts_spec().latency_frames == 0u32,
    {
        StreamInitOptionsBuilder { opts: StreamInitOptions::new() }
    }

    /// Names the stream and keeps every other option.
    pub fn stream_name(self, name: String) -> (b: StreamInitOptionsBuilder)
        ensures
            b.opts_spec().stream_name matches Some(n) && n@ == name@,
            b.opts_spec().input_device == self.opts_spec().input_device,
            b.opts_spec().input_stream_params == self.opts_spec().input_stream_params,
            b.opts_spec().output_device == self.opts_spec().output_device,
            b.opts_spec().output_stream_params == self.opts_spec().output_stream_params,
            b.opts_spec().latency_frames == self.opts_spec().latency_frames,
    {
        let mut opts = self.opts;
        opts.stream_name = Some(name);
        StreamInitOptionsBuilder { opts }
    }

    /// Selects the input device and keeps every other option.
    pub fn input_device(self, id: DeviceId) -> (b: StreamInitOptionsBuilder)
        ensures
            b.opts_spec().input_device == id,
            b.opts_spec().stream_name == self.opts_spec().stream_name,
            b.opts_spec().input_stream_params == self.opts_spec().input_stream_params,
            b.opts_spec().output_device == self.opts_spec().output_device,
            b.opts_spec().output_stream_params == self.opts_spec().output_stream_params,
            b.opts_spec().latency_frames == self.opts_spec().latency_frames,
    {
        let mut opts = self.opts;
        opts.input_device = id;
        StreamInitOptionsBuilder { opts }
    }

    /// Sets the input side's parameters and keeps every other option.
    pub fn input_stream_param(self, param: &StreamParams) -> (b: StreamInitOptionsBuilder)
        ensures
            b.opts_spec().input_stream_params == Some(*param),
            b.opts_spec().stream_name == self.opts_spec().stream_name,
            b.opts_spec().input_device == self.opts_spec().input_device,
            b.opts_spec().output_device == self.opts_spec().output_device,
            b.opts_spec().output_stream_params == self.opts_spec().output_stream_params,
            b.opts_spec().latency_frames == self.opts_spec().latency_frames,
    {
        let mut opts = self.opts;
        opts.input_stream_params = Some(*param);
        StreamInitOptionsBuilder { opts }
    }

    /// Selects the output device and keeps every other option.
    pub fn output_device(self, id: DeviceId) -> (b: StreamInitOptionsBuilder)
        ensures
            b.opts_spec().output_device == id,
            b.opts_spec().stream_name == self.opts_spec().stream_name,
            b.opts_spec().input_device == self.opts_spec().input_device,
            b.opts_spec().input_stream_params == self.opts_spec().input_stream_params,
            b.opts_spec().output_stream_params == self.opts_spec().output_stream_params,
            b.opts_spec().latency_frames == self.opts_spec().latency_frames,
    {
        let mut opts = self.opts;
        opts.output_device = id;
        StreamInitOptionsBuilder { opts }
    }

    /// Sets the output side's parameters and keeps every other option.
    pub fn output_stream_param(self, param: &StreamParams) -> (b: StreamInitOptionsBuilder)
        ensures
            b.opts_spec().output_stream_params == Some(*param),
            b.opts_spec().stream_name == self.opts_spec().stream_name,
            b.opts_spec().input_device == self.opts_spec().input_device,
            b.opts_spec().input_stream_params == self.opts_spec().input_stream_params,
            b.opts_spec().output_device == self.opts_spec().output_device,
            b.opts_spec().latency_frames == self.opts_spec().latency_frames,
    {
        let mut opts = self.opts;
        opts.output_stream_params = Some(*param);
        StreamInitOptionsBuilder { opts }
    }

    /// Sets the requested latency in frames and keeps every other option.
    pub fn latency(self, latency: u32) -> (b: StreamInitOptionsBuilder)
        ensures
            b.opts_spec().latency_frames == latency,
            b.opts_spec().stream_name == self.opts_spec().stream_name,
            b.opts_spec().input_device == self.opts_spec().input_device,
            b.opts_spec().input_stream_params == self.opts_spec().input_stream_params,
            b.opts_spec().output_device == self.opts_spec().output_device,
            b.opts_spec().output_stream_params == self.opts_spec().output_stream_params,
    {
        let mut opts = self.opts;
        opts.latency_frames = latency;
        StreamInitOptionsBuilder { opts }
    }

    /// Hands the configured options out, consuming the builder.
    pub fn take(self) -> (o: StreamInitOptions)
        ensures
            o == self.opts_spec(),
    {
        self.opts
    }
}

} // verus!
