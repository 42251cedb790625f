//! Sample formats and their translation to the native ABI codes.
//!
//! The native library knows four concrete formats — 16-bit signed integer
//! and 32-bit float, each in little- and big-endian byte order — and this
//! crate additionally offers the two native-endian requests, which stand for
//! whichever concrete byte order the running machine uses. A native-endian
//! request is resolved to a concrete format the moment stream parameters are
//! built, never later, so no ambiguous format code ever crosses the ABI.

use vstd::prelude::*;

use crate::ffi;

verus! {

/// Sample format enumeration.
#[derive(PartialEq, Eq, Clone, Debug, Copy, Structural)]
pub enum SampleFormat {
    /// 16-bit signed integer, little endian.
    S16LE,
    /// 16-bit signed integer, big endian.
    S16BE,
    /// 32-bit float, little endian.
    Float32LE,
    /// 32-bit float, big endian.
    Float32BE,
    /// 16-bit signed integer in the byte order of the running machine.
    S16NE,
    /// 32-bit float in the byte order of the running machine.
    Float32NE,
}

impl SampleFormat {
    /// Whether this format is a native-endian request, which stands for a
    /// concrete byte order only once resolved against the running machine.
    pub open spec fn is_native_endian(self) -> bool {
        self == SampleFormat::S16NE || self == SampleFormat::Float32NE
    }

    /// What a format request means on a machine of the given byte order: a
    /// concrete format stands for itself, a native-endian request for the
    /// matching concrete variant.
    pub open spec fn spec_resolve(self, little_endian: bool) -> SampleFormat {
        match self {
            SampleFormat::S16NE => if little_endian {
                SampleFormat::S16LE
            } else {
                SampleFormat::S16BE
            },
            SampleFormat::Float32NE => if little_endian {
                SampleFormat::Float32LE
            } else {
                SampleFormat::Float32BE
            },
            concrete => concrete,
        }
    }

    /// The native ABI code of a concrete format. A native-endian request has
    /// no code of its own; it must be resolved first.
    pub open spec fn spec_to_raw(self) -> ffi::cubeb_sample_format
        recommends
            !self.is_native_endian(),
    {
        match self {
            SampleFormat::S16LE => ffi::CUBEB_SAMPLE_S16LE,
            SampleFormat::S16BE => ffi::CUBEB_SAMPLE_S16BE,
            SampleFormat::Float32LE => ffi::CUBEB_SAMPLE_FLOAT32LE,
            SampleFormat::Float32BE => ffi::CUBEB_SAMPLE_FLOAT32BE,
            SampleFormat::S16NE => ffi::CUBEB_SAMPLE_S16LE,
            SampleFormat::Float32NE => ffi::CUBEB_SAMPLE_FLOAT32LE,
        }
    }

    /// The format a native ABI code denotes, absent for an unrecognized
    /// code. The concrete formats and the codes are in bijection; no code
    /// denotes a native-endian request.
    pub open spec fn spec_from_raw(code: ffi::cubeb_sample_format) -> Option<SampleFormat> {
        if code == ffi::CUBEB_SAMPLE_S16LE {
            Some(SampleFormat::S16LE)
        } else if code == ffi::CUBEB_SAMPLE_S16BE {
            Some(SampleFormat::S16BE)
        } else if code == ffi::CUBEB_SAMPLE_FLOAT32LE {
            Some(SampleFormat::Float32LE)
        } else if code == ffi::CUBEB_SAMPLE_FLOAT32BE {
            Some(SampleFormat::Float32BE)
        } else {
            None
        }
    }

    /// Resolves this format against the given byte order, turning a
    /// native-endian request into the matching concrete format.
    pub fn resolve(self, little_endian: bool) -> (r: SampleFormat)
        ensures
            r == self.spec_resolve(little_endian),
            !r.is_native_endian(),
    {
        match self {
            SampleFormat::S16NE => if little_endian {
                SampleFormat::S16LE
            } else {
                SampleFormat::S16BE
            },
            SampleFormat::Float32NE => if little_endian {
                SampleFormat::Float32LE
            } else {
                SampleFormat::Float32BE
            },
            concrete => concrete,
        }
    }

    /// Resolves this format against the byte order of the running machine:
    /// what the native-endian requests stand for here and now.
    pub fn resolve_native(self) -> (r: SampleFormat)
        ensures
            r == self.spec_resolve(true) || r == self.spec_resolve(false),
            !r.is_native_endian(),
    {
        self.resolve(host_is_little_endian())
    }

    /// The native ABI code of this concrete format.
    pub fn to_raw(self) -> (code: ffi::cubeb_sample_format)
        requires
            !self.is_native_endian(),
        ensures
            code == self.spec_to_raw(),
            Self::spec_from_raw(code) == Some(self),
    {
        match self {
            SampleFormat::S16LE => ffi::CUBEB_SAMPLE_S16LE,
            SampleFormat::S16BE => ffi::CUBEB_SAMPLE_S16BE,
            SampleFormat::Float32LE => ffi::CUBEB_SAMPLE_FLOAT32LE,
            SampleFormat::Float32BE => ffi::CUBEB_SAMPLE_FLOAT32BE,
            SampleFormat::S16NE => ffi::CUBEB_SAMPLE_S16LE,
            SampleFormat::Float32NE => ffi::CUBEB_SAMPLE_FLOAT32LE,
        }
    }

    /// Translates a native ABI code, reporting an unrecognized code as
    /// absent rather than inventing a format.
    pub fn from_raw(code: ffi::cubeb_sample_format) -> (r: Option<SampleFormat>)
        ensures
            r == Self::spec_from_raw(code),
    {
        if code == ffi::CUBEB_SAMPLE_S16LE {
            Some(SampleFormat::S16LE)
        } else if code == ffi::CUBEB_SAMPLE_S16BE {
            Some(SampleFormat::S16BE)
        } else if code == ffi::CUBEB_SAMPLE_FLOAT32LE {
            Some(SampleFormat::Float32LE)
        } else if code == ffi::CUBEB_SAMPLE_FLOAT32BE {
            Some(SampleFormat::Float32BE)
        } else {
            None
        }
    }
}

/// Relies on `u16::from_ne_bytes` (core): assembling the bytes `[1, 0]` in
/// the machine's native byte order yields `1` on a little-endian machine and
/// `256` on a big-endian one; no other value can come back.
#[verifier::external_body]
fn native_order_probe() -> (r: u16)
    ensures
        r == 1 || r == 256,
{
    u16::from_ne_bytes([1u8, 0u8])
}

/// Whether the running machine is little-endian. The answer is a fact about
/// the machine, so nothing more can be pinned down about it here; every
/// contract that depends on it speaks about both outcomes.
pub fn host_is_little_endian() -> bool {
    native_order_probe() == 1
}

} // verus!
