use crosscode::device::{
    get_provider, list_devices, refresh_idevice, AttachedDevice, DeviceInfo, ProbedDevice,
};
use crosscode::error::DeviceError;
use crosscode::probe::{expect_string, expect_unsigned, PropertyValue};

fn probed(uuid: &str, id: u32, name: Result<PropertyValue, DeviceError>) -> ProbedDevice {
    ProbedDevice { uuid: uuid.to_string(), id, name }
}

fn info(uuid: &str) -> DeviceInfo {
    DeviceInfo { name: "Phone".to_string(), id: 1, uuid: uuid.to_string() }
}

#[test]
fn probed_name_is_kept() {
    let d = DeviceInfo::from_probe(probed("abc", 3, Ok(PropertyValue::Text("My iPhone".to_string()))));
    assert_eq!(d.name, "My iPhone");
    assert_eq!(d.id, 3);
    assert_eq!(d.uuid, "abc");
}

#[test]
fn failed_probe_falls_back_to_unknown_device() {
    let d = DeviceInfo::from_probe(probed(
        "abc",
        3,
        Err(DeviceError::ConnectionFailed("lockdown".to_string())),
    ));
    assert_eq!(d.name, "Unknown Device");
    let d = DeviceInfo::from_probe(probed("abc", 3, Ok(PropertyValue::Unsigned(7))));
    assert_eq!(d.name, "Unknown Device");
}

#[test]
fn every_attached_device_is_listed_when_all_probes_fail() {
    let devices = list_devices(vec![
        probed("a", 1, Err(DeviceError::ConnectionFailed("x".to_string()))),
        probed("b", 2, Ok(PropertyValue::Other)),
        probed("c", 3, Err(DeviceError::UnexpectedValueType("DeviceName".to_string()))),
    ]);
    assert_eq!(devices.len(), 3);
    for (d, uuid) in devices.iter().zip(["a", "b", "c"]) {
        assert_eq!(d.name, "Unknown Device");
        assert_eq!(d.uuid, uuid);
    }
}

#[test]
fn listing_keeps_enumeration_order() {
    let devices = list_devices(vec![
        probed("a", 1, Ok(PropertyValue::Text("First".to_string()))),
        probed("b", 2, Err(DeviceError::ConnectionFailed("x".to_string()))),
    ]);
    assert_eq!(devices[0].name, "First");
    assert_eq!(devices[1].name, "Unknown Device");
    assert_eq!(devices[1].id, 2);
}

#[test]
fn unreachable_daemon_publishes_no_devices() {
    let devices = refresh_idevice(Err(DeviceError::ConnectionFailed("usbmuxd".to_string())));
    assert!(devices.is_empty());
    let devices = refresh_idevice(Ok(vec![probed("a", 1, Ok(PropertyValue::Other))]));
    assert_eq!(devices.len(), 1);
}

#[test]
fn resolves_attached_device_by_uuid() {
    let attached = vec![
        AttachedDevice { uuid: "a".to_string(), id: 1 },
        AttachedDevice { uuid: "b".to_string(), id: 5 },
    ];
    assert_eq!(get_provider(&attached, &info("b")), Ok(1));
}

#[test]
fn detached_device_is_not_found() {
    let attached = vec![AttachedDevice { uuid: "a".to_string(), id: 1 }];
    assert_eq!(
        get_provider(&attached, &info("zzz")),
        Err(DeviceError::DeviceNotFound("zzz".to_string()))
    );
    assert_eq!(
        get_provider(&Vec::new(), &info("a")),
        Err(DeviceError::DeviceNotFound("a".to_string()))
    );
}

#[test]
fn property_shapes_are_checked() {
    assert_eq!(
        expect_string("ProductVersion", PropertyValue::Text("17.0".to_string())),
        Ok("17.0".to_string())
    );
    assert_eq!(
        expect_string("ProductVersion", PropertyValue::Unsigned(17)),
        Err(DeviceError::UnexpectedValueType("ProductVersion".to_string()))
    );
    assert_eq!(expect_unsigned("UniqueChipID", PropertyValue::Unsigned(42)), Ok(42));
    assert_eq!(
        expect_unsigned("UniqueChipID", PropertyValue::Other),
        Err(DeviceError::UnexpectedValueType("UniqueChipID".to_string()))
    );
}
