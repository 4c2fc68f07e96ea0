use esperto_wiimote::matcher::{device_role, is_wiimote, DeviceMatcher, DeviceRole};

#[test]
fn roles_by_device_name() {
    assert_eq!(device_role(&"Nintendo Wii Remote".to_string()), Some(DeviceRole::Keys));
    assert_eq!(device_role(&"Nintendo Wii Remote IR".to_string()), Some(DeviceRole::Ir));
    assert_eq!(device_role(&"Nintendo Wii Remote Accelerometer".to_string()), Some(DeviceRole::Accel));
    assert_eq!(device_role(&"Nintendo Wii Remote Nunchuk".to_string()), None);
    assert_eq!(device_role(&"".to_string()), None);
}

#[test]
fn wiimote_ids() {
    assert!(is_wiimote(&"057e".to_string(), &"0306".to_string()));
    assert!(is_wiimote(&"057e".to_string(), &"0330".to_string()));
    assert!(!is_wiimote(&"057e".to_string(), &"2009".to_string()));
    assert!(!is_wiimote(&"046d".to_string(), &"0306".to_string()));
}

#[test]
fn remote_is_ready_after_three_devices() {
    let mut m: DeviceMatcher<u32> = DeviceMatcher::new();
    assert!(m.update(1, DeviceRole::Ir, "hid-a".to_string()).is_none());
    assert!(m.update(2, DeviceRole::Keys, "hid-b".to_string()).is_none());
    assert!(m.update(3, DeviceRole::Accel, "hid-a".to_string()).is_none());
    let ready = m.update(4, DeviceRole::Keys, "hid-a".to_string());
    assert_eq!(ready, Some(("hid-a".to_string(), 4, 1, 3)));
    assert!(m.update(5, DeviceRole::Ir, "hid-b".to_string()).is_none());
    assert_eq!(m.update(6, DeviceRole::Accel, "hid-b".to_string()), Some(("hid-b".to_string(), 2, 5, 6)));
}

#[test]
fn device_found_again_replaces_earlier_one() {
    let mut m: DeviceMatcher<u32> = DeviceMatcher::new();
    assert!(m.update(1, DeviceRole::Keys, "x".to_string()).is_none());
    assert!(m.update(2, DeviceRole::Keys, "x".to_string()).is_none());
    assert!(m.update(3, DeviceRole::Ir, "x".to_string()).is_none());
    assert_eq!(m.update(4, DeviceRole::Accel, "x".to_string()), Some(("x".to_string(), 2, 3, 4)));
    assert!(m.update(5, DeviceRole::Accel, "x".to_string()).is_none());
}
