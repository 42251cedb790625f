//! Channel layouts and their translation to the native ABI codes.
//!
//! The layouts form a closed set fixed by the native library's header; the
//! mapping between the enum and the integer codes is exhaustive and
//! bijective in both directions. An integer outside the known set never
//! becomes a layout: the translation reports it as absent, and the boundary
//! treats it as a contract violation of the native library.

use vstd::prelude::*;

use crate::ffi;

verus! {

/// SMPTE channel layout.
#[derive(PartialEq, Eq, Clone, Debug, Copy, Structural)]
pub enum ChannelLayout {
    /// Indicates that the layout is undefined.
    Undefined,
    DualMono,
    DualMonoLfe,
    Mono,
    MonoLfe,
    Stereo,
    StereoLfe,
    Layout3F,
    Layout3FLfe,
    Layout2F1,
    Layout2F1Lfe,
    Layout3F1,
    Layout3F1Lfe,
    Layout2F2,
    Layout2F2Lfe,
    Layout3F2,
    Layout3F2Lfe,
    Layout3F3RLfe,
    Layout3F4Lfe,
}

impl ChannelLayout {
    /// The native ABI code of this layout.
    pub open spec fn spec_to_raw(self) -> ffi::cubeb_channel_layout {
        match self {
            ChannelLayout::Undefined => ffi::CUBEB_LAYOUT_UNDEFINED,
            ChannelLayout::DualMono => ffi::CUBEB_LAYOUT_DUAL_MONO,
            ChannelLayout::DualMonoLfe => ffi::CUBEB_LAYOUT_DUAL_MONO_LFE,
            ChannelLayout::Mono => ffi::CUBEB_LAYOUT_MONO,
            ChannelLayout::MonoLfe => ffi::CUBEB_LAYOUT_MONO_LFE,
            ChannelLayout::Stereo => ffi::CUBEB_LAYOUT_STEREO,
            ChannelLayout::StereoLfe => ffi::CUBEB_LAYOUT_STEREO_LFE,
            ChannelLayout::Layout3F => ffi::CUBEB_LAYOUT_3F,
            ChannelLayout::Layout3FLfe => ffi::CUBEB_LAYOUT_3F_LFE,
            ChannelLayout::Layout2F1 => ffi::CUBEB_LAYOUT_2F1,
            ChannelLayout::Layout2F1Lfe => ffi::CUBEB_LAYOUT_2F1_LFE,
            ChannelLayout::Layout3F1 => ffi::CUBEB_LAYOUT_3F1,
            ChannelLayout::Layout3F1Lfe => ffi::CUBEB_LAYOUT_3F1_LFE,
            ChannelLayout::Layout2F2 => ffi::CUBEB_LAYOUT_2F2,
            ChannelLayout::Layout2F2Lfe => ffi::CUBEB_LAYOUT_2F2_LFE,
            ChannelLayout::Layout3F2 => ffi::CUBEB_LAYOUT_3F2,
            ChannelLayout::Layout3F2Lfe => ffi::CUBEB_LAYOUT_3F2_LFE,
            ChannelLayout::Layout3F3RLfe => ffi::CUBEB_LAYOUT_3F3R_LFE,
            ChannelLayout::Layout3F4Lfe => ffi::CUBEB_LAYOUT_3F4_LFE,
        }
    }

    /// The layout a native ABI code denotes, absent for an unrecognized
    /// code.
    pub open spec fn spec_from_raw(code: ffi::cubeb_channel_layout) -> Option<ChannelLayout> {
        if code == ffi::CUBEB_LAYOUT_UNDEFINED {
            Some(ChannelLayout::Undefined)
        } else if code == ffi::CUBEB_LAYOUT_DUAL_MONO {
            Some(ChannelLayout::DualMono)
        } else if code == ffi::CUBEB_LAYOUT_DUAL_MONO_LFE {
            Some(ChannelLayout::DualMonoLfe)
        } else if code == ffi::CUBEB_LAYOUT_MONO {
            Some(ChannelLayout::Mono)
        } else if code == ffi::CUBEB_LAYOUT_MONO_LFE {
            Some(ChannelLayout::MonoLfe)
        } else if code == ffi::CUBEB_LAYOUT_STEREO {
            Some(ChannelLayout::Stereo)
        } else if code == ffi::CUBEB_LAYOUT_STEREO_LFE {
            Some(ChannelLayout::StereoLfe)
        } else if code == ffi::CUBEB_LAYOUT_3F {
            Some(ChannelLayout::Layout3F)
        } else if code == ffi::CUBEB_LAYOUT_3F_LFE {
            Some(ChannelLayout::Layout3FLfe)
        } else if code == ffi::CUBEB_LAYOUT_2F1 {
            Some(ChannelLayout::Layout2F1)
        } else if code == ffi::CUBEB_LAYOUT_2F1_LFE {
            Some(ChannelLayout::Layout2F1Lfe)
        } else if code == ffi::CUBEB_LAYOUT_3F1 {
            Some(ChannelLayout::Layout3F1)
        } else if code == ffi::CUBEB_LAYOUT_3F1_LFE {
            Some(ChannelLayout::Layout3F1Lfe)
        } else if code == ffi::CUBEB_LAYOUT_2F2 {
            Some(ChannelLayout::Layout2F2)
        } else if code == ffi::CUBEB_LAYOUT_2F2_LFE {
            Some(ChannelLayout::Layout2F2Lfe)
        } else if code == ffi::CUBEB_LAYOUT_3F2 {
            Some(ChannelLayout::Layout3F2)
        } else if code == ffi::CUBEB_LAYOUT_3F2_LFE {
            Some(ChannelLayout::Layout3F2Lfe)
        } else if code == ffi::CUBEB_LAYOUT_3F3R_LFE {
            Some(ChannelLayout::Layout3F3RLfe)
        } else if code == ffi::CUBEB_LAYOUT_3F4_LFE {
            Some(ChannelLayout::Layout3F4Lfe)
        } else {
            None
        }
    }

    /// The native ABI code of this layout.
    pub fn to_raw(self) -> (code: ffi::cubeb_channel_layout)
        ensures
            code == self.spec_to_raw(),
            Self::spec_from_raw(code) == Some(self),
    {
        match self {
            ChannelLayout::Undefined => ffi::CUBEB_LAYOUT_UNDEFINED,
            ChannelLayout::DualMono => ffi::CUBEB_LAYOUT_DUAL_MONO,
            ChannelLayout::DualMonoLfe => ffi::CUBEB_LAYOUT_DUAL_MONO_LFE,
            ChannelLayout::Mono => ffi::CUBEB_LAYOUT_MONO,
            ChannelLayout::MonoLfe => ffi::CUBEB_LAYOUT_MONO_LFE,
            ChannelLayout::Stereo => ffi::CUBEB_LAYOUT_STEREO,
            ChannelLayout::StereoLfe => ffi::CUBEB_LAYOUT_STEREO_LFE,
            ChannelLayout::Layout3F => ffi::CUBEB_LAYOUT_3F,
            ChannelLayout::Layout3FLfe => ffi::CUBEB_LAYOUT_3F_LFE,
            ChannelLayout::Layout2F1 => ffi::CUBEB_LAYOUT_2F1,
            ChannelLayout::Layout2F1Lfe => ffi::CUBEB_LAYOUT_2F1_LFE,
            ChannelLayout::Layout3F1 => ffi::CUBEB_LAYOUT_3F1,
            ChannelLayout::Layout3F1Lfe => ffi::CUBEB_LAYOUT_3F1_LFE,
            ChannelLayout::Layout2F2 => ffi::CUBEB_LAYOUT_2F2,
            ChannelLayout::Layout2F2Lfe => ffi::CUBEB_LAYOUT_2F2_LFE,
            ChannelLayout::Layout3F2 => ffi::CUBEB_LAYOUT_3F2,
            ChannelLayout::Layout3F2Lfe => ffi::CUBEB_LAYOUT_3F2_LFE,
            ChannelLayout::Layout3F3RLfe => ffi::CUBEB_LAYOUT_3F3R_LFE,
            ChannelLayout::Layout3F4Lfe => ffi::CUBEB_LAYOUT_3F4_LFE,
        }
    }

    /// Translates a native ABI code, reporting an unrecognized code as
    /// absent rather than inventing a layout.
    pub fn from_raw(code: ffi::cubeb_channel_layout) -> (r: Option<ChannelLayout>)
        ensures
            r == Self::spec_from_raw(code),
    {
        if code == ffi::CUBEB_LAYOUT_UNDEFINED {
            Some(ChannelLayout::Undefined)
        } else if code == ffi::CUBEB_LAYOUT_DUAL_MONO {
            Some(ChannelLayout::DualMono)
        } else if code == ffi::CUBEB_LAYOUT_DUAL_MONO_LFE {
            Some(ChannelLayout::DualMonoLfe)
        } else if code == ffi::CUBEB_LAYOUT_MONO {
            Some(ChannelLayout::Mono)
        } else if code == ffi::CUBEB_LAYOUT_MONO_LFE {
            Some(ChannelLayout::MonoLfe)
        } else if code == ffi::CUBEB_LAYOUT_STEREO {
            Some(ChannelLayout::Stereo)
        } else if code == ffi::CUBEB_LAYOUT_STEREO_LFE {
            Some(ChannelLayout::StereoLfe)
        } else if code == ffi::CUBEB_LAYOUT_3F {
            Some(ChannelLayout::Layout3F)
        } else if code == ffi::CUBEB_LAYOUT_3F_LFE {
            Some(ChannelLayout::Layout3FLfe)
        } else if code == ffi::CUBEB_LAYOUT_2F1 {
            Some(ChannelLayout::Layout2F1)
        } else if code == ffi::CUBEB_LAYOUT_2F1_LFE {
            Some(ChannelLayout::Layout2F1Lfe)
        } else if code == ffi::CUBEB_LAYOUT_3F1 {
            Some(ChannelLayout::Layout3F1)
        } else if code == ffi::CUBEB_LAYOUT_3F1_LFE {
            Some(ChannelLayout::Layout3F1Lfe)
        } else if code == ffi::CUBEB_LAYOUT_2F2 {
            Some(ChannelLayout::Layout2F2)
        } else if code == ffi::CUBEB_LAYOUT_2F2_LFE {
            Some(ChannelLayout::Layout2F2Lfe)
        } else if code == ffi::CUBEB_LAYOUT_3F2 {
            Some(ChannelLayout::Layout3F2)
        } else if code == ffi::CUBEB_LAYOUT_3F2_LFE {
            Some(ChannelLayout::Layout3F2Lfe)
        } else if code == ffi::CUBEB_LAYOUT_3F3R_LFE {
            Some(ChannelLayout::Layout3F3RLfe)
        } else if code == ffi::CUBEB_LAYOUT_3F4_LFE {
            Some(ChannelLayout::Layout3F4Lfe)
        } else {
            None
        }
    }
}

/// Law: the layout mapping is bijective on the known set. Every layout's
/// code translates back to that layout, and every recognized code translates
/// to the layout that owns it.
pub proof fn lemma_layout_code_round_trip(l: ChannelLayout, code: ffi::cubeb_channel_layout)
    ensures
        ChannelLayout::spec_from_raw(l.spec_to_raw()) == Some(l),
        ChannelLayout::spec_from_raw(code) matches Some(back) ==> back.spec_to_raw() == code,
{
}

} // verus!
