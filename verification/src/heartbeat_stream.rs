//! The decisions of the heartbeat stream that the server keeps open with
//! each connected device.
use crate::responses::LatestDeviceInfo;
use crate::status::DeviceStatus;
use crate::token::{jwt_claims, read_token, stream_device_id};
use vstd::prelude::*;

verus! {

/// Seconds between two heartbeats that nobody forced.
pub const HEARTBEAT_INTERVAL_SECS: u64 = 10;

/// Which kinds of remote access the tunnel has a profile for, for a device.
#[derive(Debug, Clone, Copy, PartialEq, Eq, Structural)]
pub struct RemoteAccessFlags {
    pub shell: bool,
    pub ui: bool,
    pub ssh: bool,
}

/// What a device is told at each heartbeat.
pub struct HeartbeatReply {
    pub token: String,
    pub status: DeviceStatus,
    pub remote_shell_enabled: bool,
    pub remote_ui_enabled: bool,
    pub remote_ssh_enabled: bool,
    pub is_monitoring_enabled: bool,
    pub is_remote_access_enabled: bool,
}

/// The device that a round of the stream speaks for: the device of the
/// token's account. `None`, and the round is skipped, where the token cannot
/// be decoded or its account is no device.
pub fn round_device(token: &str) -> (r: Option<String>)
    ensures
        r.deep_view() == match jwt_claims(token@) {
            Some(c) => c.device_id,
            None => None,
        },
{
    match read_token(token) {
        Ok(claims) => stream_device_id(&claims),
        Err(_) => None,
    }
}

/// The reply of a heartbeat: the token, what the datastore holds of the
/// device, and what the tunnel has for it.
pub fn heartbeat_reply(token: String, info: LatestDeviceInfo, flags: RemoteAccessFlags) -> (r:
    HeartbeatReply)
    ensures
        r.token@ == token@,
        r.status == info.status,
        r.is_monitoring_enabled == info.is_monitoring_enabled,
        r.is_remote_access_enabled == info.is_remote_access_enabled,
        r.remote_shell_enabled == flags.shell,
        r.remote_ui_enabled == flags.ui,
        r.remote_ssh_enabled == flags.ssh,
{
    HeartbeatReply {
        token,
        status: info.status,
        remote_shell_enabled: flags.shell,
        remote_ui_enabled: flags.ui,
        remote_ssh_enabled: flags.ssh,
        is_monitoring_enabled: info.is_monitoring_enabled,
        is_remote_access_enabled: info.is_remote_access_enabled,
    }
}

/// What the stream does once a reply was handed to the device's channel.
pub enum StreamStep {
    /// The reply went out: tell whoever forced the heartbeat, then wait for
    /// the next one.
    NotifyAndContinue,
    /// The device is gone: drop it from the registry and end the stream.
    DisconnectAndStop(String),
}

/// Decides the next step of the stream after a send.
pub fn after_reply(sent: bool, device_id: String) -> (r: StreamStep)
    ensures
        sent ==> r is NotifyAndContinue,
        !sent ==> (r matches StreamStep::DisconnectAndStop(d) && d@ == device_id@),
{
    if sent {
        StreamStep::NotifyAndContinue
    } else {
        StreamStep::DisconnectAndStop(device_id)
    }
}

} // verus!
