//! The conversion capability that carries this library's enum values onto
//! the plain integer codes the native ABI takes.
//!
//! Each implementing type states in `convert_ens` exactly which codes its
//! conversion may yield; for every mapping but the sample formats that
//! relation pins the code down completely. Sample formats keep both byte
//! orders open, because a native-endian request resolves against the running
//! machine.

use vstd::prelude::*;

use crate::channel::ChannelLayout;
use crate::format::SampleFormat;
use crate::log::LogLevel;
use crate::stream::State;

verus! {

/// Conversion of a value of this library into what the native ABI takes.
pub trait Convert<T> {
    /// The relation between a value and the converted forms it may take.
    spec fn convert_ens(&self, r: T) -> bool;

    /// Converts this value, yielding one of the forms `convert_ens` allows.
    fn convert(&self) -> (r: T)
        ensures
            self.convert_ens(r),
    ;
}

/// Converts a value through its [`Convert`] capability.
pub fn convert<T, U: Convert<T>>(u: &U) -> (r: T)
    ensures
        u.convert_ens(r),
{
    u.convert()
}

impl Convert<u32> for SampleFormat {
    /// A concrete format converts to its own code; a native-endian request
    /// converts to the code of one of its two concrete forms, whichever
    /// matches the running machine.
    open spec fn convert_ens(&self, r: u32) -> bool {
        r == self.spec_resolve(true).spec_to_raw() || r == self.spec_resolve(false).spec_to_raw()
    }

    fn convert(&self) -> (r: u32) {
        self.resolve_native().to_raw()
    }
}

impl Convert<u32> for ChannelLayout {
    open spec fn convert_ens(&self, r: u32) -> bool {
        r == self.spec_to_raw()
    }

    fn convert(&self) -> (r: u32) {
        self.to_raw()
    }
}

impl Convert<u32> for State {
    open spec fn convert_ens(&self, r: u32) -> bool {
        r == self.spec_to_raw()
    }

    fn convert(&self) -> (r: u32) {
        self.to_raw()
    }
}

impl Convert<u32> for LogLevel {
    open spec fn convert_ens(&self, r: u32) -> bool {
        r == self.spec_to_raw()
    }

    fn convert(&self) -> (r: u32) {
        self.to_raw()
    }
}

} // verus!
