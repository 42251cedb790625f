//! The device collection: the descriptors one enumeration call reported,
//! with an explicit, at-most-once release.
//!
//! The native library owns the memory behind an enumeration and demands one
//! matching release call per successful enumeration. This type makes that
//! obligation structural: releasing consumes the collection, so a second
//! release of the same enumeration, or a read after the release, does not
//! get past the compiler. The unverified boundary converts the native
//! records into plain [`DeviceInfo`] values when the collection is built and
//! issues the native release call; what is verified here is the read API and
//! the ownership discipline.

use vstd::prelude::*;

use crate::device::DeviceInfo;

verus! {

/// The devices one enumeration reported, read-only and index-accessible.
#[derive(Debug)]
pub struct DeviceCollection {
    devices: Vec<DeviceInfo>,
}

impl DeviceCollection {
    /// The descriptors this collection holds, in enumeration order.
    pub closed spec fn devices_spec(&self) -> Seq<DeviceInfo> {
        self.devices@
    }

    /// A collection over the given descriptors. An enumeration that found no
    /// device yields a collection of length zero.
    pub fn new(devices: Vec<DeviceInfo>) -> (c: DeviceCollection)
        ensures
            c.devices_spec() == devices@,
    {
        DeviceCollection { devices }
    }

    /// How many devices the enumeration reported.
    pub fn len(&self) -> (n: usize)
        ensures
            n == self.devices_spec().len(),
    {
        self.devices.len()
    }

    /// Whether the enumeration reported no device.
    pub fn is_empty(&self) -> (r: bool)
        ensures
            r == (self.devices_spec().len() == 0),
    {
        self.devices.len() == 0
    }

    /// The descriptor at the given position, absent exactly when the
    /// position is out of range.
    pub fn get(&self, i: usize) -> (r: Option<&DeviceInfo>)
        ensures
            r is Some <==> i < self.devices_spec().len(),
            r matches Some(d) ==> *d == self.devices_spec()[i as int],
    {
        if i < self.devices.len() {
            Some(&self.devices[i])
        } else {
            None
        }
    }

    /// Releases the collection. Taking the collection by value is what makes
    /// the native release discipline structural: the release happens at most
    /// once per enumeration, and no descriptor borrowed from the collection
    /// can be read afterwards. It succeeds on every collection, a zero-length
    /// one included.
    pub fn destroy(self) {
    }
}

} // verus!
