use wallguard_server::heartbeat_stream::{
    after_reply, heartbeat_reply, round_device, RemoteAccessFlags, StreamStep,
    HEARTBEAT_INTERVAL_SECS,
};
use wallguard_server::responses::LatestDeviceInfo;
use wallguard_server::status::DeviceStatus;
use wallguard_server::token::{read_token, stream_device_id, ControlError};

const DEVICE_PAYLOAD: &str = "eyJhY2NvdW50Ijp7InByb2ZpbGUiOnt9LCJjb250YWN0Ijp7fSwiZGV2aWNlIjp7ImlkIjoiREVWMSIsImNvZGUiOiJEVjAxIiwiY2F0ZWdvcmllcyI6WyJEZXZpY2UiXSwic3RhdHVzIjoiQWN0aXZlIiwib3JnYW5pemF0aW9uX2lkIjoiT1JHMSIsInRpbWVzdGFtcCI6bnVsbH0sIm9yZ2FuaXphdGlvbiI6eyJpZCI6Ik9SRzEiLCJuYW1lIjoib3JnIiwiY29kZSI6Ik9SMSIsImNhdGVnb3JpZXMiOltdLCJzdGF0dXMiOiJBY3RpdmUiLCJvcmdhbml6YXRpb25faWQiOiJPUkcxIiwicGFyZW50X29yZ2FuaXphdGlvbl9pZCI6bnVsbH0sImlkIjoiQUNDMSIsImFjY291bnRfaWQiOiJhY2MiLCJvcmdhbml6YXRpb25faWQiOiJPUkcxIiwiYWNjb3VudF9vcmdhbml6YXRpb25faWQiOm51bGwsImFjY291bnRfc3RhdHVzIjoiQWN0aXZlIiwicm9sZV9pZCI6bnVsbH0sImlhdCI6MTAwMCwiZXhwIjoyMDAwfQ";
const USER_PAYLOAD: &str = "eyJhY2NvdW50Ijp7InByb2ZpbGUiOnt9LCJjb250YWN0Ijp7fSwiZGV2aWNlIjpudWxsLCJvcmdhbml6YXRpb24iOnsiaWQiOiJPUkcxIiwibmFtZSI6Im9yZyIsImNvZGUiOiJPUjEiLCJjYXRlZ29yaWVzIjpbXSwic3RhdHVzIjoiQWN0aXZlIiwib3JnYW5pemF0aW9uX2lkIjoiT1JHMSIsInBhcmVudF9vcmdhbml6YXRpb25faWQiOm51bGx9LCJpZCI6IkFDQzEiLCJhY2NvdW50X2lkIjoiYWNjIiwib3JnYW5pemF0aW9uX2lkIjoiT1JHMSIsImFjY291bnRfb3JnYW5pemF0aW9uX2lkIjpudWxsLCJhY2NvdW50X3N0YXR1cyI6IkFjdGl2ZSIsInJvbGVfaWQiOm51bGx9LCJpYXQiOjEwMDAsImV4cCI6MjAwMH0";

fn token_of(payload: &str) -> String {
    format!("hdr.{payload}.sig")
}

#[test]
fn token_claims_are_read() {
    let jwt = token_of(DEVICE_PAYLOAD);
    let claims = read_token(&jwt).ok().unwrap();
    assert_eq!(claims.jwt, jwt);
    assert_eq!(claims.account_id, "ACC1");
    assert_eq!(claims.device_id, Some(String::from("DEV1")));
    assert_eq!(claims.iat, 1000);
    assert_eq!(claims.exp, 2000);
    assert_eq!(stream_device_id(&claims), Some(String::from("DEV1")));
}

#[test]
fn token_of_a_user_has_no_device() {
    let claims = read_token(&token_of(USER_PAYLOAD)).ok().unwrap();
    assert_eq!(claims.device_id, None);
    assert_eq!(round_device(&token_of(USER_PAYLOAD)), None);
}

#[test]
fn malformed_tokens() {
    assert_eq!(read_token("abc").err(), Some(ControlError::MalformedToken));
    assert_eq!(read_token("a.b").err(), Some(ControlError::MalformedToken));
    assert_eq!(read_token("a.b.c.d").err(), Some(ControlError::MalformedToken));
    assert_eq!(read_token("a.!!!.c").err(), Some(ControlError::MalformedToken));
    assert_eq!(read_token("a.e30.c").err(), Some(ControlError::MalformedToken));
    assert_eq!(ControlError::MalformedToken.message(), "Malformed JWT token");
}

#[test]
fn round_device_of_a_device_token() {
    assert_eq!(round_device(&token_of(DEVICE_PAYLOAD)), Some(String::from("DEV1")));
    assert_eq!(round_device("garbage"), None);
}

#[test]
fn reply_carries_info_and_flags() {
    let info = LatestDeviceInfo {
        status: DeviceStatus::DsActive,
        is_remote_access_enabled: true,
        is_monitoring_enabled: false,
    };
    let flags = RemoteAccessFlags { shell: true, ui: false, ssh: true };
    let r = heartbeat_reply(String::from("tok"), info, flags);
    assert_eq!(r.token, "tok");
    assert_eq!(r.status, DeviceStatus::DsActive);
    assert!(r.is_remote_access_enabled);
    assert!(!r.is_monitoring_enabled);
    assert!(r.remote_shell_enabled);
    assert!(!r.remote_ui_enabled);
    assert!(r.remote_ssh_enabled);
}

#[test]
fn failed_send_stops_the_stream() {
    assert!(matches!(after_reply(true, String::from("d")), StreamStep::NotifyAndContinue));
    match after_reply(false, String::from("d")) {
        StreamStep::DisconnectAndStop(d) => assert_eq!(d, "d"),
        _ => panic!("expected a disconnection"),
    }
    assert_eq!(HEARTBEAT_INTERVAL_SECS, 10);
}
