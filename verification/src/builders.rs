//! The fluent builder of immutable stream parameter records.
//!
//! Defaults are a native-endian 16-bit format, zero rate and channels, the
//! undefined layout and no preferences. Each setter replaces exactly one
//! field, so building after further setter calls reflects the latest ones;
//! the builder stays usable after a build. Building resolves a native-endian
//! format request to the concrete byte order of the running machine — at
//! build time, never at use time — so the record never carries an ambiguous
//! format code.

use vstd::prelude::*;

use crate::channel::ChannelLayout;
use crate::ffi;
use crate::format::SampleFormat;
use crate::format::host_is_little_endian;
use crate::stream::StreamParams;
use crate::stream::StreamPrefs;
use crate::util::Binding;

verus! {

/// Fluent configuration of a [`StreamParams`] record.
#[derive(Clone, Copy, Debug)]
pub struct StreamParamsBuilder {
    format: SampleFormat,
    rate: u32,
    channels: u32,
    layout: ChannelLayout,
    prefs: StreamPrefs,
}

/// The record that building `b` yields on a machine of the given byte
/// order: every field as configured, with the format request resolved to a
/// concrete byte order and turned into its ABI code.
pub open spec fn spec_built(b: StreamParamsBuilder, little_endian: bool) -> ffi::cubeb_stream_params {
    ffi::cubeb_stream_params {
        format: b.spec_format().spec_resolve(little_endian).spec_to_raw(),
        rate: b.spec_rate(),
        channels: b.spec_channels(),
        layout: b.spec_layout().spec_to_raw(),
        prefs: b.spec_prefs().spec_bits(),
    }
}

impl StreamParamsBuilder {
    /// The configured sample format, possibly still a native-endian request.
    pub closed spec fn spec_format(self) -> SampleFormat {
        self.format
    }

    /// The configured sample rate in Hz.
    pub closed spec fn spec_rate(self) -> u32 {
        self.rate
    }

    /// The configured channel count.
    pub closed spec fn spec_channels(self) -> u32 {
        self.channels
    }

    /// The configured channel layout.
    pub closed spec fn spec_layout(self) -> ChannelLayout {
        self.layout
    }

    /// The configured preference flags.
    pub closed spec fn spec_prefs(self) -> StreamPrefs {
        self.prefs
    }

    /// A builder holding the defaults: native-endian 16-bit format, zero
    /// rate and channels, undefined layout, no preferences.
    pub fn new() -> (b: StreamParamsBuilder)
        ensures
            b.spec_format() == SampleFormat::S16NE,
            b.spec_rate() == 0u32,
            b.spec_channels() == 0u32,
            b.spec_layout() == ChannelLayout::Undefined,
            b.spec_prefs().spec_bits() == ffi::CUBEB_STREAM_PREF_NONE,
    {
        StreamParamsBuilder {
            format: SampleFormat::S16NE,
            rate: 0,
            channels: 0,
            layout: ChannelLayout::Undefined,
            prefs: StreamPrefs::none(),
        }
    }

    /// Replaces the sample format and keeps every other field.
    pub fn format(self, format: SampleFormat) -> (b: StreamParamsBuilder)
        ensures
            b.spec_format() == format,
            b.spec_rate() == self.spec_rate(),
            b.spec_channels() == self.spec_channels(),
            b.spec_layout() == self.spec_layout(),
            b.spec_prefs() == self.spec_prefs(),
    {
        StreamParamsBuilder { format, ..self }
    }

    /// Replaces the sample rate and keeps every other field.
    pub fn rate(self, rate: u32) -> (b: StreamParamsBuilder)
        ensures
            b.spec_rate() == rate,
            b.spec_format() == self.spec_format(),
            b.spec_channels() == self.spec_channels(),
            b.spec_layout() == self.spec_layout(),
            b.spec_prefs() == self.spec_prefs(),
    {
        StreamParamsBuilder { rate, ..self }
    }

    /// Replaces the channel count and keeps every other field.
    pub fn channels(self, channels: u32) -> (b: StreamParamsBuilder)
        ensures
            b.spec_channels() == channels,
            b.spec_format() == self.spec_format(),
            b.spec_rate() == self.spec_rate(),
            b.spec_layout() == self.spec_layout(),
            b.spec_prefs() == self.spec_prefs(),
    {
        StreamParamsBuilder { channels, ..self }
    }

    /// Replaces the channel layout and keeps every other field.
    pub fn layout(self, layout: ChannelLayout) -> (b: StreamParamsBuilder)
        ensures
            b.spec_layout() == layout,
            b.spec_format() == self.spec_format(),
            b.spec_rate() == self.spec_rate(),
            b.spec_channels() == self.spec_channels(),
            b.spec_prefs() == self.spec_prefs(),
    {
        StreamParamsBuilder { layout, ..self }
    }

    /// Replaces the preference flags and keeps every other field.
    pub fn prefs(self, prefs: StreamPrefs) -> (b: StreamParamsBuilder)
        ensures
            b.spec_prefs() == prefs,
            b.spec_format() == self.spec_format(),
            b.spec_rate() == self.spec_rate(),
            b.spec_channels() == self.spec_channels(),
            b.spec_layout() == self.spec_layout(),
    {
        StreamParamsBuilder { prefs, ..self }
    }

    /// Builds the record for a machine of the given byte order: every field
    /// exactly as configured, the format resolved to that byte order.
    pub fn build_for_byte_order(&self, little_endian: bool) -> (p: StreamParams)
        ensures
            p.raw_spec() == spec_built(*self, little_endian),
            p.wf(),
    {
        let format = self.format.resolve(little_endian);
        let params = StreamParams::from_raw(
            ffi::cubeb_stream_params {
                format: format.to_raw(),
                rate: self.rate,
                channels: self.channels,
                layout: self.layout.to_raw(),
                prefs: self.prefs.bits(),
            },
        );
        params
    }

    /// Builds the immutable record, resolving a native-endian format request
    /// against the byte order of the running machine. The builder is kept as
    /// it is, so it can be adjusted and built again.
    pub fn take(&self) -> (p: StreamParams)
        ensures
            p.raw_spec() == spec_built(*self, true) || p.raw_spec() == spec_built(*self, false),
            !self.spec_format().is_native_endian() ==> p.raw_spec() == spec_built(*self, true)
                && p.raw_spec() == spec_built(*self, false),
            p.wf(),
    {
        self.build_for_byte_order(host_is_little_endian())
    }
}

impl Default for StreamParamsBuilder {
    /// The same defaults as [`StreamParamsBuilder::new`].
    fn default() -> (b: StreamParamsBuilder)
        ensures
            b.spec_format() == SampleFormat::S16NE,
            b.spec_rate() == 0u32,
            b.spec_channels() == 0u32,
            b.spec_layout() == ChannelLayout::Undefined,
            b.spec_prefs().spec_bits() == ffi::CUBEB_STREAM_PREF_NONE,
    {
        StreamParamsBuilder::new()
    }
}

/// Law: the format a built record reads back is the configured one, except
/// that a native-endian request reads back as the concrete variant matching
/// the byte order it was built for.
pub proof fn lemma_built_format_round_trip(b: StreamParamsBuilder, little_endian: bool)
    ensures
        SampleFormat::spec_from_raw(spec_built(b, little_endian).format) == Some(
            b.spec_format().spec_resolve(little_endian),
        ),
        !b.spec_format().is_native_endian() ==> SampleFormat::spec_from_raw(
            spec_built(b, little_endian).format,
        ) == Some(b.spec_format()),
{
}

/// Law: the layout a built record reads back is exactly the configured one,
/// whatever the byte order.
pub proof fn lemma_built_layout_round_trip(b: StreamParamsBuilder, little_endian: bool)
    ensures
        ChannelLayout::spec_from_raw(spec_built(b, little_endian).layout) == Some(b.spec_layout()),
{
}

/// Law: building preserves the configured rate and channel count exactly,
/// whatever the byte order.
pub proof fn lemma_built_rate_and_channels_preserved(b: StreamParamsBuilder, little_endian: bool)
    ensures
        spec_built(b, little_endian).rate == b.spec_rate(),
        spec_built(b, little_endian).channels == b.spec_channels(),
{
}

} // verus!
