//! The decisions that the control service takes on a device: whether it may
//! send data, what settings it is given, and how its request for
//! authorization is answered.
use crate::text::owned;
use crate::token::ControlError;
use vstd::prelude::*;

verus! {

/// What the datastore holds of a device.
pub struct Device {
    pub id: String,
    pub uuid: String,
    pub authorized: bool,
    pub sysconf_monitoring: bool,
    pub traffic_monitoring: bool,
    pub telemetry_monitoring: bool,
}

pub struct DeviceView {
    pub id: Seq<char>,
    pub uuid: Seq<char>,
    pub authorized: bool,
    pub sysconf_monitoring: bool,
    pub traffic_monitoring: bool,
    pub telemetry_monitoring: bool,
}

impl View for Device {
    type V = DeviceView;

    open spec fn view(&self) -> DeviceView {
        DeviceView {
            id: self.id@,
            uuid: self.uuid@,
            authorized: self.authorized,
            sysconf_monitoring: self.sysconf_monitoring,
            traffic_monitoring: self.traffic_monitoring,
            telemetry_monitoring: self.telemetry_monitoring,
        }
    }
}

/// A device that is not authorized yet and has no other setting.
pub open spec fn unauthorized_device_of(uuid: Seq<char>) -> DeviceView {
    DeviceView {
        id: Seq::empty(),
        uuid,
        authorized: false,
        sysconf_monitoring: false,
        traffic_monitoring: false,
        telemetry_monitoring: false,
    }
}

impl Device {
    /// The record of a device seen for the first time: not authorized.
    pub fn unauthorized(uuid: String) -> (r: Device)
        ensures
            r@ == unauthorized_device_of(uuid@),
    {
        Device {
            id: String::new(),
            uuid,
            authorized: false,
            sysconf_monitoring: false,
            traffic_monitoring: false,
            telemetry_monitoring: false,
        }
    }
}

/// A device may send data only where the datastore knows it and it is
/// authorized.
pub fn ensure_device_exists_and_authorized(device: Option<Device>) -> (r: Result<
    Device,
    ControlError,
>)
    ensures
        match device {
            None => r == Err::<Device, ControlError>(ControlError::DeviceDoesNotExist),
            Some(d) => if d.authorized {
                r matches Ok(x) && x@ == d@
            } else {
                r == Err::<Device, ControlError>(ControlError::DeviceNotAuthorized)
            },
        },
{
    match device {
        None => Err(ControlError::DeviceDoesNotExist),
        Some(d) => {
            if !d.authorized {
                Err(ControlError::DeviceNotAuthorized)
            } else {
                Ok(d)
            }
        },
    }
}

/// The monitoring settings that a device is told to apply.
#[derive(Debug, Clone, Copy, PartialEq, Eq, Structural)]
pub struct DeviceSettings {
    pub config_monitoring: bool,
    pub traffic_monitoring: bool,
    pub telemetry_monitoring: bool,
}

/// The settings of a device, as the datastore holds them; a device that it
/// does not know gets none.
pub fn device_settings(device: Option<Device>) -> (r: Result<DeviceSettings, ControlError>)
    ensures
        match device {
            None => r == Err::<DeviceSettings, ControlError>(ControlError::DeviceNotFound),
            Some(d) => r == Ok::<DeviceSettings, ControlError>(
                DeviceSettings {
                    config_monitoring: d.sysconf_monitoring,
                    traffic_monitoring: d.traffic_monitoring,
                    telemetry_monitoring: d.telemetry_monitoring,
                },
            ),
        },
{
    match device {
        None => Err(ControlError::DeviceNotFound),
        Some(d) => Ok(
            DeviceSettings {
                config_monitoring: d.sysconf_monitoring,
                traffic_monitoring: d.traffic_monitoring,
                telemetry_monitoring: d.telemetry_monitoring,
            },
        ),
    }
}

/// A device that is connected, or whose authorization is pending, is
/// refused a new authorization at once.
pub fn must_reject_authorization(is_connected: bool, is_authorizing: bool) -> (r: bool)
    ensures
        r == (is_connected || is_authorizing),
{
    is_connected || is_authorizing
}

/// How a request for authorization proceeds once the datastore was asked
/// for the device.
pub enum AuthorizationStep {
    /// The device is new: record it, not authorized, then wait for an
    /// operator's decision.
    CreateAndAwait(Device),
    /// The device is known and not authorized: wait for an operator's
    /// decision.
    Await,
    /// The device is authorized: approve it at once.
    Approve,
}

/// Decides a request for authorization of the device `device_uuid`.
pub fn authorization_step(device_uuid: &str, device: Option<Device>) -> (r: AuthorizationStep)
    ensures
        match device {
            None => r matches AuthorizationStep::CreateAndAwait(d) && d@ == unauthorized_device_of(
                device_uuid@,
            ),
            Some(d) => if d.authorized {
                r is Approve
            } else {
                r is Await
            },
        },
{
    match device {
        None => AuthorizationStep::CreateAndAwait(Device::unauthorized(owned(device_uuid))),
        Some(d) => {
            if !d.authorized {
                AuthorizationStep::Await
            } else {
                AuthorizationStep::Approve
            }
        },
    }
}

} // verus!
