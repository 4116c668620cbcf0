use golem_frontend::devices::{DeviceError, DeviceKind, DeviceRegistry, DEVICE_SLOT_COUNT};

#[test]
fn add_then_remove_leaves_slot_empty() {
    for id in 0..DEVICE_SLOT_COUNT {
        let mut reg = DeviceRegistry::new();
        assert_eq!(reg.on_device_added(DeviceKind::Joystick, id, 77), Ok(None));
        assert_eq!(reg.slot(DeviceKind::Joystick, id), Some(77));
        assert_eq!(reg.on_device_removed(DeviceKind::Joystick, id), Ok(Some(77)));
        assert_eq!(reg.slot(DeviceKind::Joystick, id), None);
    }
}

#[test]
fn out_of_range_add_is_rejected() {
    let mut reg = DeviceRegistry::new();
    let r = reg.on_device_added(DeviceKind::Joystick, DEVICE_SLOT_COUNT, 1);
    assert_eq!(r, Err(DeviceError::SlotOutOfRange { raw_id: DEVICE_SLOT_COUNT }));
    let r = reg.on_device_added(DeviceKind::Gamepad, 1000, 1);
    assert_eq!(r, Err(DeviceError::SlotOutOfRange { raw_id: 1000 }));
    for id in 0..DEVICE_SLOT_COUNT {
        assert_eq!(reg.slot(DeviceKind::Joystick, id), None);
        assert_eq!(reg.slot(DeviceKind::Gamepad, id), None);
    }
}

#[test]
fn out_of_range_remove_is_rejected() {
    let mut reg = DeviceRegistry::new();
    let r = reg.on_device_removed(DeviceKind::Gamepad, DEVICE_SLOT_COUNT);
    assert_eq!(r, Err(DeviceError::SlotOutOfRange { raw_id: DEVICE_SLOT_COUNT }));
}

#[test]
fn readd_replaces_and_releases_prior_handle_once() {
    let mut reg = DeviceRegistry::new();
    assert_eq!(reg.on_device_added(DeviceKind::Gamepad, 3, 10), Ok(None));
    // Adding over the occupied slot hands the prior handle back exactly once.
    assert_eq!(reg.on_device_added(DeviceKind::Gamepad, 3, 11), Ok(Some(10)));
    // Only the new handle is live.
    assert_eq!(reg.slot(DeviceKind::Gamepad, 3), Some(11));
    // A further remove yields the new handle, not the replaced one again.
    assert_eq!(reg.on_device_removed(DeviceKind::Gamepad, 3), Ok(Some(11)));
    assert_eq!(reg.slot(DeviceKind::Gamepad, 3), None);
}

#[test]
fn joystick_hot_plug_balanced_add_remove_emits_no_warning() {
    let mut reg = DeviceRegistry::new();
    assert_eq!(reg.slot(DeviceKind::Joystick, 5), None);
    // Balanced add then remove: neither reports an anomaly.
    assert_eq!(reg.on_device_added(DeviceKind::Joystick, 5, 500), Ok(None));
    assert_eq!(reg.on_device_removed(DeviceKind::Joystick, 5), Ok(Some(500)));
    assert_eq!(reg.slot(DeviceKind::Joystick, 5), None);
}

#[test]
fn gamepad_remove_without_add_is_recoverable_anomaly() {
    let mut reg = DeviceRegistry::new();
    assert_eq!(reg.slot(DeviceKind::Gamepad, 7), None);
    // Remove without a prior add: the operation succeeds and reports the
    // anomaly (no handle to hand back); the slot stays empty.
    assert_eq!(reg.on_device_removed(DeviceKind::Gamepad, 7), Ok(None));
    assert_eq!(reg.slot(DeviceKind::Gamepad, 7), None);
}

#[test]
fn device_classes_are_tracked_independently() {
    let mut reg = DeviceRegistry::new();
    assert_eq!(reg.on_device_added(DeviceKind::Joystick, 2, 1), Ok(None));
    assert_eq!(reg.slot(DeviceKind::Gamepad, 2), None);
    assert_eq!(reg.on_device_added(DeviceKind::Gamepad, 2, 9), Ok(None));
    assert_eq!(reg.on_device_removed(DeviceKind::Joystick, 2), Ok(Some(1)));
    assert_eq!(reg.slot(DeviceKind::Gamepad, 2), Some(9));
}
