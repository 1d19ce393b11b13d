use wallguard_server::config_data::{plan_snapshot, snapshot_action, DeviceConfiguration, SnapshotAction};
use wallguard_server::config_upload::{choose_upload_path, plan_upload, ClientConfiguration, UploadPath};
use wallguard_server::digest::digest;
use wallguard_server::responses::LatestConfigInfo;

fn config(raw: &str) -> ClientConfiguration {
    ClientConfiguration {
        raw_content: String::from(raw),
        hostname: String::from("fw1"),
        rules: Vec::new(),
        aliases: Vec::new(),
        interfaces: Vec::new(),
    }
}

#[test]
fn digest_is_md5_in_lowercase_hex() {
    assert_eq!(digest(""), "d41d8cd98f00b204e9800998ecf8427e");
    assert_eq!(digest("abc"), "900150983cd24fb0d6963f7d28e17f72");
    assert_eq!(digest("abc").len(), 32);
}

#[test]
fn same_digest_refreshes_the_latest() {
    let latest = LatestConfigInfo { id: String::from("C1"), digest: String::from("d"), version: 4 };
    match choose_upload_path(Some(latest), "d") {
        UploadPath::RefreshExisting { config_id, new_version } => {
            assert_eq!(config_id, "C1");
            assert_eq!(new_version, 5);
        }
        _ => panic!("expected a refresh"),
    }
    let latest = LatestConfigInfo { id: String::from("C1"), digest: String::from("d"), version: 4 };
    assert!(matches!(choose_upload_path(Some(latest), "e"), UploadPath::InsertNew));
    assert!(matches!(choose_upload_path(None, "e"), UploadPath::InsertNew));
}

#[test]
fn upload_plan_computes_the_digest() {
    let c = config("abc");
    let latest = LatestConfigInfo {
        id: String::from("C1"),
        digest: String::from("900150983cd24fb0d6963f7d28e17f72"),
        version: 1,
    };
    match plan_upload(Some(latest), &c) {
        Some(UploadPath::RefreshExisting { config_id, new_version }) => {
            assert_eq!(config_id, "C1");
            assert_eq!(new_version, 2);
        }
        _ => panic!("expected a refresh"),
    }
    let other = LatestConfigInfo { id: String::from("C1"), digest: String::from("x"), version: 1 };
    assert!(matches!(plan_upload(Some(other), &c), Some(UploadPath::InsertNew)));
    let full = LatestConfigInfo {
        id: String::from("C1"),
        digest: String::from("900150983cd24fb0d6963f7d28e17f72"),
        version: i64::MAX,
    };
    assert!(plan_upload(Some(full), &c).is_none());
}

fn stored(digest: &str, version: i64) -> DeviceConfiguration {
    DeviceConfiguration {
        id: String::from("CFG1"),
        device_id: String::from("D1"),
        digest: String::from(digest),
        hostname: String::from("old"),
        raw_content: String::from("old content"),
        version,
    }
}

#[test]
fn snapshot_of_the_same_configuration_is_one_version_on() {
    let c = config("abc");
    match plan_snapshot(Some(stored("900150983cd24fb0d6963f7d28e17f72", 3)), "D1", &c) {
        Some(SnapshotAction::Update(u)) => {
            assert_eq!(u.id, "CFG1");
            assert_eq!(u.version, 4);
            assert_eq!(u.raw_content, "old content");
        }
        _ => panic!("expected an update"),
    }
}

#[test]
fn snapshot_of_a_changed_configuration_is_new() {
    let c = config("abc");
    match plan_snapshot(Some(stored("ffff", 3)), "D1", &c) {
        Some(SnapshotAction::Insert(n)) => {
            assert_eq!(n.device_id, "D1");
            assert_eq!(n.digest, "900150983cd24fb0d6963f7d28e17f72");
            assert_eq!(n.hostname, "fw1");
            assert_eq!(n.raw_content, "abc");
            assert_eq!(n.version, 0);
        }
        _ => panic!("expected an insertion"),
    }
    match plan_snapshot(None, "D2", &c) {
        Some(SnapshotAction::Insert(n)) => assert_eq!(n.device_id, "D2"),
        _ => panic!("expected an insertion"),
    }
    match snapshot_action(None, "D3", &c, "given") {
        SnapshotAction::Insert(n) => assert_eq!(n.digest, "given"),
        _ => panic!("expected an insertion"),
    }
}

#[test]
fn snapshot_whose_version_cannot_grow() {
    let c = config("abc");
    assert!(plan_snapshot(Some(stored("900150983cd24fb0d6963f7d28e17f72", i64::MAX)), "D1", &c).is_none());
}

#[test]
fn new_configuration_record_carries_the_md5_digest() {
    let r = wallguard_server::config_upload::create_configuration_request("D1", &config("abc"));
    assert_eq!(r.query.as_ref().unwrap().pluck, "id");
    let body = r.body.unwrap();
    assert_eq!(body.entity_prefix, "CFG");
    let v = wallguard_server::json::JsonValue::parse(&body.record).unwrap();
    let text = |k: &str| v.get(k).and_then(|x| x.as_str()).cloned();
    assert_eq!(text("digest"), Some(String::from("900150983cd24fb0d6963f7d28e17f72")));
    assert_eq!(text("raw_content"), Some(String::from("abc")));
    assert_eq!(text("device_id"), Some(String::from("D1")));
    assert_eq!(v.get("config_version").and_then(|x| x.as_i64()), Some(1));
}
