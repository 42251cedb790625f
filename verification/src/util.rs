//! Handle bindings — the capability that converts between a native handle
//! value and the safe wrapper type that owns it — and the validated UTF-8
//! decoding of byte fields the native library reports.
//!
//! A native handle is modeled as its plain address value. Constructing a
//! wrapper from a handle promises nothing about the handle itself — the
//! caller vouches for it — but the conversion is exact in both directions,
//! and the nullable variant yields a wrapper exactly when the handle is not
//! null, without ever implying a transfer of ownership.

use vstd::prelude::*;

verus! {

/// What decoding a byte sequence as UTF-8 yields: the character sequence
/// when the bytes are valid UTF-8, nothing otherwise. The decoding is a
/// function of the bytes alone; this name stands for the result of
/// `core::str::from_utf8` without restating the UTF-8 tables.
pub uninterp spec fn utf8_chars(bytes: Seq<u8>) -> Option<Seq<char>>;

/// Relies on `core::str::from_utf8`: it returns the decoded string exactly
/// when the bytes are valid UTF-8, and an error otherwise; the result
/// depends on the bytes alone.
#[verifier::external_body]
pub(crate) fn decode_utf8(bytes: &Vec<u8>) -> (r: Option<String>)
    ensures
        r is Some <==> utf8_chars(bytes@) is Some,
        r matches Some(s) ==> Some(s@) == utf8_chars(bytes@),
{
    match core::str::from_utf8(bytes.as_slice()) {
        Ok(s) => Some(s.to_owned()),
        Err(_) => None,
    }
}

/// Decodes an optional byte field as UTF-8: absent when the field is absent
/// or its bytes are not valid UTF-8.
pub(crate) fn decode_utf8_opt(bytes: &Option<Vec<u8>>) -> (r: Option<String>)
    ensures
        r is Some <==> (bytes matches Some(b) && utf8_chars(b@) is Some),
        r matches Some(s) ==> Some(s@) == utf8_chars(bytes->0@),
{
    match bytes {
        Some(b) => decode_utf8(b),
        None => None,
    }
}

/// A handle value that may be null.
pub trait IsNullPtr {
    /// Whether this value is the null handle.
    spec fn is_null_spec(&self) -> bool;

    /// Reports whether this value is the null handle.
    fn is_ptr_null(&self) -> (r: bool)
        ensures
            r == self.is_null_spec(),
    ;
}

/// A native handle address: no address is the null handle but zero.
impl IsNullPtr for usize {
    open spec fn is_null_spec(&self) -> bool {
        *self == 0
    }

    fn is_ptr_null(&self) -> (r: bool) {
        *self == 0
    }
}

/// The two-way conversion between a wrapper type and the native value it
/// stands for.
pub trait Binding: Sized {
    /// The native value this wrapper stands for.
    type Raw;

    /// The native value this wrapper holds.
    spec fn raw_spec(&self) -> Self::Raw;

    /// Wraps a native value. The caller vouches that the value is a valid,
    /// uniquely owned handle; the conversion itself only stores it.
    fn from_raw(raw: Self::Raw) -> (b: Self)
        ensures
            b.raw_spec() == raw,
    ;

    /// The native value back out of the wrapper, read-only.
    fn raw(&self) -> (r: Self::Raw)
        ensures
            r == self.raw_spec(),
    ;

    /// Wraps a possibly-null native value: absent exactly when the value is
    /// the null handle. Ownership is never implied by this conversion.
    fn from_raw_opt(raw: Self::Raw) -> (r: Option<Self>) where Self::Raw: IsNullPtr
        ensures
            r is Some <==> !raw.is_null_spec(),
            r matches Some(b) ==> b.raw_spec() == raw,
    {
        if raw.is_ptr_null() {
            None
        } else {
            Some(Self::from_raw(raw))
        }
    }
}

} // verus!
