//! Device descriptors and device collections: validated reading of what an
//! enumeration reported, and the at-most-once release discipline.

use cubeb::ffi;
use cubeb::Binding;
use cubeb::DeviceCollection;
use cubeb::DeviceFormat;
use cubeb::DeviceId;
use cubeb::DeviceInfo;
use cubeb::DevicePref;
use cubeb::DeviceState;
use cubeb::DeviceType;

fn reported(name: Option<Vec<u8>>) -> DeviceInfo {
    DeviceInfo {
        devid: DeviceId::from_raw(0x1000),
        device_id: Some(b"default-device".to_vec()),
        friendly_name: name,
        group_id: None,
        vendor_name: Some(b"acme".to_vec()),
        device_type: ffi::CUBEB_DEVICE_TYPE_OUTPUT,
        state: ffi::CUBEB_DEVICE_STATE_ENABLED,
        preferred: ffi::CUBEB_DEVICE_PREF_MULTIMEDIA,
        format: ffi::CUBEB_DEVICE_FMT_S16LE | ffi::CUBEB_DEVICE_FMT_F32LE,
        default_format: ffi::CUBEB_DEVICE_FMT_F32LE,
        max_channels: 2,
        default_rate: 48000,
        max_rate: 96000,
        min_rate: 8000,
        latency_lo: 128,
        latency_hi: 4096,
    }
}

#[test]
fn device_info_reads_back_what_was_reported() {
    let d = reported(Some(b"Speakers".to_vec()));
    assert_eq!(d.devid(), DeviceId::from_raw(0x1000));
    assert_eq!(d.device_id(), Some("default-device".to_string()));
    assert_eq!(d.friendly_name(), Some("Speakers".to_string()));
    assert_eq!(d.group_id(), None);
    assert_eq!(d.vendor_name(), Some("acme".to_string()));
    assert_eq!(d.device_type(), DeviceType::output());
    assert_eq!(d.state(), DeviceState::Enabled);
    assert_eq!(d.preferred(), DevicePref::multimedia());
    assert!(d.format().contains(DeviceFormat::s16le()));
    assert!(d.format().contains(DeviceFormat::f32le()));
    assert!(!d.format().contains(DeviceFormat::s16be()));
    assert_eq!(d.default_format(), DeviceFormat::from_bits(ffi::CUBEB_DEVICE_FMT_F32LE).unwrap());
    assert_eq!(d.max_channels(), 2);
    assert_eq!(d.default_rate(), 48000);
    assert_eq!(d.max_rate(), 96000);
    assert_eq!(d.min_rate(), 8000);
    assert_eq!(d.latency_lo(), 128);
    assert_eq!(d.latency_hi(), 4096);
}

#[test]
fn invalid_utf8_name_is_reported_absent() {
    // 0xff can begin no UTF-8 sequence: the name must come back absent, the
    // valid fields untouched.
    let d = reported(Some(vec![0xff, 0xfe, b'x']));
    assert_eq!(d.friendly_name(), None);
    assert_eq!(d.vendor_name(), Some("acme".to_string()));
}

#[test]
fn absent_name_stays_absent() {
    let d = reported(None);
    assert_eq!(d.friendly_name(), None);
}

#[test]
fn device_type_from_bits_truncate_drops_unknown_bits() {
    let t = DeviceType::from_bits_truncate(
        ffi::CUBEB_DEVICE_TYPE_INPUT | ffi::CUBEB_DEVICE_TYPE_OUTPUT | 0x80,
    );
    assert_eq!(t, DeviceType::input().union(DeviceType::output()));
    assert_eq!(t.bits(), ffi::CUBEB_DEVICE_TYPE_INPUT | ffi::CUBEB_DEVICE_TYPE_OUTPUT);
}

#[test]
fn device_format_from_bits_rejects_unknown_bits() {
    assert!(DeviceFormat::from_bits(ffi::CUBEB_DEVICE_FMT_S16LE).is_some());
    assert!(DeviceFormat::from_bits(0x0040).is_none());
    assert!(DevicePref::from_bits(ffi::CUBEB_DEVICE_PREF_ALL).is_some());
    assert!(DevicePref::from_bits(0x10).is_none());
}

#[test]
fn device_state_codes_round_trip() {
    for state in [DeviceState::Disabled, DeviceState::Unplugged, DeviceState::Enabled] {
        assert_eq!(DeviceState::from_raw(state.to_raw()), Some(state));
    }
    assert_eq!(DeviceState::from_raw(17), None);
}

#[test]
fn device_id_null_is_the_default_device() {
    let id = DeviceId::default();
    assert_eq!(id.raw(), 0);
    let other: Option<DeviceId> = DeviceId::from_raw_opt(0);
    assert!(other.is_none());
    let real: Option<DeviceId> = DeviceId::from_raw_opt(0x2000);
    assert_eq!(real.unwrap().raw(), 0x2000);
}

#[test]
fn empty_collection_has_length_zero_and_destroys() {
    // An enumeration that found no device of the asked type yields a
    // zero-length collection whose release still succeeds.
    let coll = DeviceCollection::new(Vec::new());
    assert_eq!(coll.len(), 0);
    assert!(coll.is_empty());
    assert!(coll.get(0).is_none());
    coll.destroy();
}

#[test]
fn collection_is_read_only_and_released_once() {
    // Release consumes the collection: reading happens before, the release
    // happens exactly once, and the borrow checker refuses anything after.
    let coll = DeviceCollection::new(vec![reported(Some(b"Speakers".to_vec()))]);
    assert_eq!(coll.len(), 1);
    let first = coll.get(0).unwrap();
    assert_eq!(first.friendly_name(), Some("Speakers".to_string()));
    assert!(coll.get(1).is_none());
    coll.destroy();
}
