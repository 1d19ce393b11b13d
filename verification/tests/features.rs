use wallguard_server::features::{
    connections_request, device_info_request, device_setup_request, first_record,
    heartbeat_request, heartbeat_request_at, insert_kind, ip_info_lookup_request,
    ip_info_request_at, is_ip_info_stored, log_request, login_request,
    new_remote_session_request, new_ssh_keypair_request, ssh_keypair_request,
    terminate_all_active_sessions_request, terminate_remote_session_request, InsertKind, IpInfo,
};
use wallguard_server::json::JsonValue;
use wallguard_server::requests::ResponseData;

fn field(text: &str, key: &str) -> Option<String> {
    let v = JsonValue::parse(text).unwrap();
    v.get(key).and_then(|x| x.as_str()).cloned()
}

#[test]
fn heartbeat_record_at_a_time() {
    let r = heartbeat_request_at("D1", "2024-01-01T00:00:00+00:00");
    assert_eq!(r.params.unwrap().table, "device_heartbeats");
    let q = r.query.unwrap();
    assert_eq!(q.pluck, "");
    assert_eq!(q.durability, "soft");
    let b = r.body.unwrap();
    assert_eq!(b.entity_prefix, "HB");
    assert_eq!(field(&b.record, "device_id"), Some(String::from("D1")));
    assert_eq!(field(&b.record, "timestamp"), Some(String::from("2024-01-01T00:00:00+00:00")));
}

#[test]
fn heartbeat_record_now_has_a_timestamp() {
    let r = heartbeat_request("D1").unwrap();
    let b = r.body.unwrap();
    let ts = field(&b.record, "timestamp").unwrap();
    assert!(ts.len() >= 20);
    assert_eq!(field(&b.record, "device_id"), Some(String::from("D1")));
}

#[test]
fn device_requests() {
    let r = device_info_request("D1");
    let p = r.params.unwrap();
    assert_eq!(p.id, "D1");
    assert_eq!(p.table, "devices");
    assert_eq!(r.query.unwrap().pluck, "status,is_monitoring_enabled,is_remote_access_enabled");
    let u = device_setup_request("D1", "1.0", "UUID", "10.0.0.1");
    assert_eq!(u.query.unwrap().pluck, "id,code");
    assert_eq!(field(&u.body, "system_id"), Some(String::from("UUID")));
    assert_eq!(field(&u.body, "status"), Some(String::from("Active")));
    let body = JsonValue::parse(&u.body).unwrap();
    assert_eq!(body.get("is_connection_established").and_then(|x| x.as_bool()), Some(true));
}

#[test]
fn remote_session_requests() {
    let r = new_remote_session_request("D1", "ssh", "S1");
    let b = r.body.unwrap();
    assert_eq!(b.entity_prefix, "RAS");
    assert_eq!(field(&b.record, "remote_access_status"), Some(String::from("active")));
    assert_eq!(field(&b.record, "remote_access_session"), Some(String::from("S1")));
    let t = terminate_remote_session_request("D1", "ssh");
    let tb = t.body.unwrap();
    assert_eq!(tb.advance_filters.len(), 3);
    assert_eq!(tb.advance_filters[0].field, "remote_access_type");
    assert_eq!(tb.advance_filters[0].values, "[\"ssh\"]");
    assert_eq!(tb.advance_filters[1].operator, "and");
    assert_eq!(tb.advance_filters[2].values, "[\"D1\"]");
    assert_eq!(field(&tb.updates, "remote_access_status"), Some(String::from("terminated")));
    let all = terminate_all_active_sessions_request();
    let ab = all.body.unwrap();
    assert_eq!(ab.advance_filters.len(), 1);
    assert_eq!(ab.advance_filters[0].values, "[\"active\"]");
}

#[test]
fn ssh_keypair_requests() {
    let r = ssh_keypair_request("D1");
    let b = r.body.unwrap();
    assert_eq!(b.pluck, vec!["public_key", "private_key", "passphrase"]);
    assert_eq!(b.limit, 1);
    let keypair = JsonValue::parse("{\"public_key\":\"pk\"}").unwrap();
    let c = new_ssh_keypair_request(keypair, "D1");
    let cb = c.body.unwrap();
    assert_eq!(field(&cb.record, "device_id"), Some(String::from("D1")));
    assert_eq!(field(&cb.record, "public_key"), Some(String::from("pk")));
}

#[test]
fn first_record_of_answers() {
    let r = first_record("[{\"a\":\"b\"},{\"c\":1}]").unwrap();
    assert_eq!(r.get("a").and_then(|x| x.as_str()).cloned(), Some(String::from("b")));
    assert!(first_record("[]").is_none());
    assert!(first_record("{}").is_none());
    assert!(first_record("x").is_none());
}

#[test]
fn ip_info_requests() {
    let info = IpInfo {
        country: Some(String::from("DE")),
        asn: None,
        org: None,
        continent_code: None,
        city: None,
        region: None,
        postal: None,
        timezone: None,
    };
    let r = ip_info_request_at("T", "1.2.3.4", &info);
    let b = r.body.unwrap();
    assert_eq!(b.entity_prefix, "IP");
    assert_eq!(field(&b.record, "country"), Some(String::from("DE")));
    let v = JsonValue::parse(&b.record).unwrap();
    assert!(matches!(v.get("asn"), Some(JsonValue::Null)));
    let l = ip_info_lookup_request("1.2.3.4");
    assert_eq!(l.body.unwrap().advance_filters[0].values, "[\"1.2.3.4\"]");
    let stored = ResponseData { count: 1, data: String::new(), encoding: String::new() };
    let missing = ResponseData { count: 0, data: String::new(), encoding: String::new() };
    assert!(is_ip_info_stored(&stored));
    assert!(!is_ip_info_stored(&missing));
}

#[test]
fn other_requests() {
    let l = login_request(String::from("id"), String::from("secret"));
    let d = l.body.unwrap().data.unwrap();
    assert_eq!(d.account_id, "id");
    assert!(l.params.is_none());
    let c = connections_request(String::from("[]"));
    assert_eq!(c.params.unwrap().table, "connections");
    let g = log_request(String::from("{}"));
    assert_eq!(g.body.unwrap().entity_prefix, "LO");
    assert_eq!(insert_kind(0), InsertKind::Nothing);
    assert_eq!(insert_kind(1), InsertKind::Single);
    assert_eq!(insert_kind(2), InsertKind::Batch);
}

#[test]
fn ssh_keypair_is_read_from_the_first_record() {
    let k = wallguard_server::features::ssh_keypair_from_answer(
        "[{\"public_key\":\"pub\",\"private_key\":\"priv\",\"passphrase\":\"pp\",\"id\":\"K1\"}]",
    )
    .unwrap();
    assert_eq!(k.public_key, "pub");
    assert_eq!(k.private_key, "priv");
    assert_eq!(k.passphrase, "pp");
    assert!(!wallguard_server::features::needs_ssh_keypair(&Some(k)));
}

#[test]
fn ssh_keypair_is_none_unless_a_key_pair() {
    let ssh_keypair_from_answer = wallguard_server::features::ssh_keypair_from_answer;
    let needs_ssh_keypair = wallguard_server::features::needs_ssh_keypair;
    assert!(ssh_keypair_from_answer("[7]").is_none());
    assert!(ssh_keypair_from_answer("[{}]").is_none());
    assert!(ssh_keypair_from_answer("[{\"public_key\":\"a\",\"private_key\":\"b\"}]").is_none());
    assert!(ssh_keypair_from_answer(
        "[{\"public_key\":\"a\",\"private_key\":\"b\",\"passphrase\":1}]"
    )
    .is_none());
    assert!(ssh_keypair_from_answer("[]").is_none());
    assert!(ssh_keypair_from_answer("nope").is_none());
    assert!(needs_ssh_keypair(&None));
}

#[test]
fn ssh_keypair_record_round_trip() {
    let k = wallguard_server::features::SshKeypair {
        public_key: String::from("pub"),
        private_key: String::from("priv"),
        passphrase: String::from("pp"),
    };
    let c = new_ssh_keypair_request(k.record(), "D7");
    let record = c.body.unwrap().record;
    assert_eq!(field(&record, "device_id"), Some(String::from("D7")));
    let again = wallguard_server::features::ssh_keypair_from_answer(&format!("[{record}]")).unwrap();
    assert_eq!(again.private_key, "priv");
}

fn is_rfc3339_utc(t: &str) -> bool {
    let b: Vec<char> = t.chars().collect();
    let digit = |i: usize| b.get(i).map_or(false, |c| c.is_ascii_digit());
    b.len() >= 25
        && (0..4).all(digit)
        && b[4] == '-'
        && b[7] == '-'
        && b[10] == 'T'
        && b[13] == ':'
        && b[16] == ':'
        && t.ends_with("+00:00")
}

#[test]
fn heartbeat_timestamp_is_rfc3339_utc() {
    let r = heartbeat_request("D1").unwrap();
    let ts = field(&r.body.unwrap().record, "timestamp").unwrap();
    assert!(is_rfc3339_utc(&ts), "{ts}");
}

#[test]
fn ip_info_timestamp_is_rfc3339_utc() {
    let info = IpInfo {
        country: None,
        asn: None,
        org: None,
        continent_code: None,
        city: None,
        region: None,
        postal: None,
        timezone: None,
    };
    let r = wallguard_server::features::ip_info_request("1.2.3.4", &info).unwrap();
    let ts = field(&r.body.unwrap().record, "timestamp").unwrap();
    assert!(is_rfc3339_utc(&ts), "{ts}");
}
