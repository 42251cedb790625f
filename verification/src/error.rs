//! Translation of the native library's signed status codes into a closed set
//! of error kinds, and back into the native sign convention.
//!
//! The native calls report a status as a signed integer: zero for success
//! and a small negative code for each failure. An [`Error`] normalizes such
//! a code by negation and keeps it; [`Error::code`] maps the kept code onto
//! the five recoverable kinds, sending every unrecognized code to the
//! generic kind rather than failing, and [`Error::raw_code`] turns it back
//! into the native sign convention. The mapping is total: no status value
//! reachable from the native boundary can make it panic.

use vstd::prelude::*;

use crate::ffi;

verus! {

/// The usual result type of every fallible operation of this library.
pub type Result<T> = core::result::Result<T, Error>;

/// The closed set of recoverable error kinds the native library reports.
#[derive(Clone, Copy, Debug, PartialEq, Eq, Structural)]
pub enum ErrorCode {
    /// Generic error, also the kind of every unrecognized code.
    Error,
    /// The requested sample format is invalid.
    InvalidFormat,
    /// A parameter of the call is invalid.
    InvalidParameter,
    /// The operation is not supported on this backend.
    NotSupported,
    /// The requested device is unavailable.
    DeviceUnavailable,
}

/// A failure reported by the native library: one signed status code, kept in
/// normalized (negated) form, so the five known failure codes are kept as
/// `1` through `5`.
#[derive(Clone, Copy, Debug, PartialEq, Eq, Structural)]
pub struct Error {
    code: i32,
}

/// The normalized form of a native status code: its negation, except that
/// the one unrepresentable magnitude normalizes to the generic error.
pub open spec fn spec_normalize_code(raw: int) -> int {
    if raw == i32::MIN as int {
        -(ffi::CUBEB_ERROR as int)
    } else {
        -raw
    }
}

/// The kind a normalized code maps to: the five known codes exactly, every
/// other value the generic kind.
pub open spec fn spec_kind_of(code: int) -> ErrorCode {
    if code == -(ffi::CUBEB_ERROR_INVALID_FORMAT as int) {
        ErrorCode::InvalidFormat
    } else if code == -(ffi::CUBEB_ERROR_INVALID_PARAMETER as int) {
        ErrorCode::InvalidParameter
    } else if code == -(ffi::CUBEB_ERROR_NOT_SUPPORTED as int) {
        ErrorCode::NotSupported
    } else if code == -(ffi::CUBEB_ERROR_DEVICE_UNAVAILABLE as int) {
        ErrorCode::DeviceUnavailable
    } else {
        ErrorCode::Error
    }
}

/// The native sign convention of a normalized code: the negation where the
/// code is the success sentinel or one of the five known failures, the
/// generic error code everywhere else.
pub open spec fn spec_raw_code_of(code: int) -> int {
    if code == -(ffi::CUBEB_OK as int) {
        ffi::CUBEB_OK as int
    } else if code == -(ffi::CUBEB_ERROR as int) {
        ffi::CUBEB_ERROR as int
    } else if code == -(ffi::CUBEB_ERROR_INVALID_FORMAT as int) {
        ffi::CUBEB_ERROR_INVALID_FORMAT as int
    } else if code == -(ffi::CUBEB_ERROR_INVALID_PARAMETER as int) {
        ffi::CUBEB_ERROR_INVALID_PARAMETER as int
    } else if code == -(ffi::CUBEB_ERROR_NOT_SUPPORTED as int) {
        ffi::CUBEB_ERROR_NOT_SUPPORTED as int
    } else if code == -(ffi::CUBEB_ERROR_DEVICE_UNAVAILABLE as int) {
        ffi::CUBEB_ERROR_DEVICE_UNAVAILABLE as int
    } else {
        ffi::CUBEB_ERROR as int
    }
}

impl Error {
    /// The normalized status code this error holds.
    pub closed spec fn spec_code(self) -> int {
        self.code as int
    }

    /// Builds an error from a status code as the native library reported it,
    /// keeping the code in normalized form. Total: every `i32` is accepted.
    pub fn from_raw(code: i32) -> (e: Error)
        ensures
            e.spec_code() == spec_normalize_code(code as int),
    {
        if code == i32::MIN {
            Error { code: -ffi::CUBEB_ERROR }
        } else {
            Error { code: -code }
        }
    }

    /// Translates a native status code: the zero success sentinel yields
    /// success, every other code yields the error that holds its normalized
    /// form.
    pub fn wrap(code: i32) -> (r: Result<()>)
        ensures
            code == 0 <==> r is Ok,
            r is Err ==> r->Err_0.spec_code() == spec_normalize_code(code as int),
    {
        if code == 0 {
            Ok(())
        } else {
            Err(Error::from_raw(code))
        }
    }

    /// The kind of this error: an exact match on the kept code, with every
    /// unrecognized code reported as the generic kind.
    pub fn code(&self) -> (k: ErrorCode)
        ensures
            k == spec_kind_of(self.spec_code()),
    {
        if self.code == -ffi::CUBEB_ERROR_INVALID_FORMAT {
            ErrorCode::InvalidFormat
        } else if self.code == -ffi::CUBEB_ERROR_INVALID_PARAMETER {
            ErrorCode::InvalidParameter
        } else if self.code == -ffi::CUBEB_ERROR_NOT_SUPPORTED {
            ErrorCode::NotSupported
        } else if self.code == -ffi::CUBEB_ERROR_DEVICE_UNAVAILABLE {
            ErrorCode::DeviceUnavailable
        } else {
            ErrorCode::Error
        }
    }

    /// The kept code turned back into the native sign convention: the code
    /// that [`Error::from_raw`] received where it was a known one, the
    /// generic error code everywhere else.
    pub fn raw_code(&self) -> (r: ffi::cubeb_error_code)
        ensures
            r as int == spec_raw_code_of(self.spec_code()),
    {
        if self.code == -ffi::CUBEB_OK {
            ffi::CUBEB_OK
        } else if self.code == -ffi::CUBEB_ERROR {
            ffi::CUBEB_ERROR
        } else if self.code == -ffi::CUBEB_ERROR_INVALID_FORMAT {
            ffi::CUBEB_ERROR_INVALID_FORMAT
        } else if self.code == -ffi::CUBEB_ERROR_INVALID_PARAMETER {
            ffi::CUBEB_ERROR_INVALID_PARAMETER
        } else if self.code == -ffi::CUBEB_ERROR_NOT_SUPPORTED {
            ffi::CUBEB_ERROR_NOT_SUPPORTED
        } else if self.code == -ffi::CUBEB_ERROR_DEVICE_UNAVAILABLE {
            ffi::CUBEB_ERROR_DEVICE_UNAVAILABLE
        } else {
            ffi::CUBEB_ERROR
        }
    }

    /// A short description of this error's kind.
    pub fn description(&self) -> (s: &'static str)
        ensures
            spec_kind_of(self.spec_code()) == ErrorCode::Error ==> s@ == "Error"@,
            spec_kind_of(self.spec_code()) == ErrorCode::InvalidFormat ==> s@ == "Invalid format"@,
            spec_kind_of(self.spec_code()) == ErrorCode::InvalidParameter ==> s@
                == "Invalid parameter"@,
            spec_kind_of(self.spec_code()) == ErrorCode::NotSupported ==> s@ == "Not supported"@,
            spec_kind_of(self.spec_code()) == ErrorCode::DeviceUnavailable ==> s@
                == "Device unavailable"@,
    {
        match self.code() {
            ErrorCode::Error => "Error",
            ErrorCode::InvalidFormat => "Invalid format",
            ErrorCode::InvalidParameter => "Invalid parameter",
            ErrorCode::NotSupported => "Not supported",
            ErrorCode::DeviceUnavailable => "Device unavailable",
        }
    }
}

impl From<Error> for i32 {
    /// The error under the native sign convention, for handing back to a
    /// native caller.
    fn from(e: Error) -> (r: i32)
        ensures
            r as int == spec_raw_code_of(e.spec_code()),
    {
        e.raw_code()
    }
}

impl vstd::std_specs::convert::FromSpecImpl<Error> for i32 {
    open spec fn obeys_from_spec() -> bool {
        true
    }

    open spec fn from_spec(e: Error) -> i32 {
        spec_raw_code_of(e.spec_code()) as i32
    }
}

/// Law: a native failure code round-trips through the wrapper. Every code an
/// error can be built from — the five known failures — comes back unchanged
/// from [`Error::raw_code`], so an error can be re-exported to a native
/// caller under the original sign convention.
pub proof fn lemma_error_code_round_trip(raw: int)
    requires
        raw == ffi::CUBEB_ERROR as int || raw == ffi::CUBEB_ERROR_INVALID_FORMAT as int || raw
            == ffi::CUBEB_ERROR_INVALID_PARAMETER as int || raw == ffi::CUBEB_ERROR_NOT_SUPPORTED
            as int || raw == ffi::CUBEB_ERROR_DEVICE_UNAVAILABLE as int,
    ensures
        spec_raw_code_of(spec_normalize_code(raw)) == raw,
{
}

/// Law: normalization loses no kind. For every native status code, the kind
/// that the stored error reports is the kind of the normalized code, and the
/// five known failure codes each reach their own kind.
pub proof fn lemma_known_codes_keep_their_kind()
    ensures
        spec_kind_of(spec_normalize_code(ffi::CUBEB_ERROR as int)) == ErrorCode::Error,
        spec_kind_of(spec_normalize_code(ffi::CUBEB_ERROR_INVALID_FORMAT as int))
            == ErrorCode::InvalidFormat,
        spec_kind_of(spec_normalize_code(ffi::CUBEB_ERROR_INVALID_PARAMETER as int))
            == ErrorCode::InvalidParameter,
        spec_kind_of(spec_normalize_code(ffi::CUBEB_ERROR_NOT_SUPPORTED as int))
            == ErrorCode::NotSupported,
        spec_kind_of(spec_normalize_code(ffi::CUBEB_ERROR_DEVICE_UNAVAILABLE as int))
            == ErrorCode::DeviceUnavailable,
{
}

} // verus!
