use wallguard_server::device::{
    authorization_step, device_settings, ensure_device_exists_and_authorized,
    must_reject_authorization, AuthorizationStep, Device, DeviceSettings,
};
use wallguard_server::token::ControlError;

fn device(authorized: bool) -> Device {
    Device {
        id: String::from("D1"),
        uuid: String::from("U1"),
        authorized,
        sysconf_monitoring: true,
        traffic_monitoring: false,
        telemetry_monitoring: true,
    }
}

#[test]
fn only_known_authorized_devices_may_send_data() {
    let d = ensure_device_exists_and_authorized(Some(device(true))).ok().unwrap();
    assert_eq!(d.id, "D1");
    assert_eq!(
        ensure_device_exists_and_authorized(Some(device(false))).err(),
        Some(ControlError::DeviceNotAuthorized)
    );
    assert_eq!(
        ensure_device_exists_and_authorized(None).err(),
        Some(ControlError::DeviceDoesNotExist)
    );
    assert_eq!(ControlError::DeviceDoesNotExist.message(), "Device does not exists");
    assert_eq!(ControlError::DeviceNotAuthorized.message(), "Device is not authrozied");
}

#[test]
fn settings_come_from_the_device() {
    assert_eq!(
        device_settings(Some(device(false))),
        Ok(DeviceSettings {
            config_monitoring: true,
            traffic_monitoring: false,
            telemetry_monitoring: true,
        })
    );
    assert_eq!(device_settings(None), Err(ControlError::DeviceNotFound));
    assert_eq!(ControlError::DeviceNotFound.message(), "Device not found");
}

#[test]
fn connected_or_pending_devices_are_rejected() {
    assert!(must_reject_authorization(true, false));
    assert!(must_reject_authorization(false, true));
    assert!(must_reject_authorization(true, true));
    assert!(!must_reject_authorization(false, false));
}

#[test]
fn authorization_steps() {
    match authorization_step("U9", None) {
        AuthorizationStep::CreateAndAwait(d) => {
            assert_eq!(d.uuid, "U9");
            assert!(!d.authorized);
            assert_eq!(d.id, "");
        }
        _ => panic!("a new device is recorded"),
    }
    assert!(matches!(authorization_step("U1", Some(device(false))), AuthorizationStep::Await));
    assert!(matches!(authorization_step("U1", Some(device(true))), AuthorizationStep::Approve));
}
