use wallguard_server::interfaces::InterfaceInsertionResult;
use wallguard_server::json::JsonValue;
use wallguard_server::records::{decorate_records, single_value_list_string};
use wallguard_server::requests::ResponseData;
use wallguard_server::responses::{
    parse_configuraion_id, parse_device_status, parse_remote_access_enabled,
    parse_webgui_protocol, LatestConfigInfo, LatestDeviceInfo, ResponseError, ResponseField,
};
use wallguard_server::status::DeviceStatus;

fn data(text: &str) -> ResponseData {
    ResponseData { count: 1, data: String::from(text), encoding: String::new() }
}

fn text_of(v: &JsonValue, key: &str) -> Option<String> {
    v.get(key).and_then(|x| x.as_str()).cloned()
}

#[test]
fn parse_and_write_round_trip() {
    let v = JsonValue::parse("{\"a\":\"x\",\"n\":-3,\"l\":[true,null]}").unwrap();
    assert_eq!(text_of(&v, "a"), Some(String::from("x")));
    assert_eq!(v.get("n").and_then(|x| x.as_i64()), Some(-3));
    let again = JsonValue::parse(&v.to_text()).unwrap();
    assert_eq!(again.to_text(), v.to_text());
    assert!(JsonValue::parse("{not json").is_none());
}

#[test]
fn set_then_get() {
    let mut v = JsonValue::parse("{\"a\":\"x\",\"b\":\"y\"}").unwrap();
    v.set("a", JsonValue::text("z"));
    assert_eq!(text_of(&v, "a"), Some(String::from("z")));
    assert_eq!(text_of(&v, "b"), Some(String::from("y")));
    let mut n = JsonValue::Null;
    n.set("k", JsonValue::integer(5));
    assert_eq!(n.get("k").and_then(|x| x.as_i64()), Some(5));
    assert_eq!(n.to_text(), "{\"k\":5}");
}

#[test]
fn single_value_lists() {
    assert_eq!(single_value_list_string("dev"), "[\"dev\"]");
}

#[test]
fn records_get_the_configuration_id() {
    let mut records = vec![
        JsonValue::parse("{\"name\":\"r1\"}").unwrap(),
        JsonValue::Null,
    ];
    decorate_records(&mut records, "CFG", "device_rule_status", Some("Applied"));
    for r in &records {
        assert_eq!(text_of(r, "device_configuration_id"), Some(String::from("CFG")));
        assert_eq!(text_of(r, "device_rule_status"), Some(String::from("Applied")));
    }
    assert_eq!(text_of(&records[0], "name"), Some(String::from("r1")));
    let mut plain = vec![JsonValue::parse("{}").unwrap()];
    decorate_records(&mut plain, "CFG", "ignored", None);
    assert!(plain[0].get("ignored").is_none());
}

#[test]
fn latest_config_info_is_read() {
    let info = LatestConfigInfo::from_response_data(&data(
        "[{\"id\":\"C1\",\"digest\":\"abc\",\"config_version\":7}]",
    ))
    .ok()
    .unwrap();
    assert_eq!(info.id, "C1");
    assert_eq!(info.digest, "abc");
    assert_eq!(info.version, 7);
}

#[test]
fn latest_config_info_errors() {
    assert_eq!(
        LatestConfigInfo::from_response_data(&data("nope")).err(),
        Some(ResponseError::NotJson)
    );
    assert_eq!(
        LatestConfigInfo::from_response_data(&data("[]")).err(),
        Some(ResponseError::NoRecord)
    );
    assert_eq!(
        LatestConfigInfo::from_response_data(&data("[{\"id\":\"C1\",\"config_version\":7}]")).err(),
        Some(ResponseError::MissingField(ResponseField::Digest))
    );
    assert_eq!(
        LatestConfigInfo::from_response_data(&data(
            "[{\"id\":\"C1\",\"digest\":\"d\",\"config_version\":\"7\"}]"
        ))
        .err(),
        Some(ResponseError::MissingField(ResponseField::ConfigVersion))
    );
}

#[test]
fn latest_device_info_is_read() {
    let info = LatestDeviceInfo::from_response_data(&data(
        "[{\"status\":\"Active\",\"is_monitoring_enabled\":true,\"is_remote_access_enabled\":false}]",
    ))
    .ok()
    .unwrap();
    assert_eq!(info.status, DeviceStatus::DsActive);
    assert!(info.is_monitoring_enabled);
    assert!(!info.is_remote_access_enabled);
    assert_eq!(
        LatestDeviceInfo::from_response_data(&data("[{\"status\":\"Active\"}]")).err(),
        Some(ResponseError::MissingField(ResponseField::IsMonitoringEnabled))
    );
}

#[test]
fn single_fields_of_the_first_record() {
    assert_eq!(parse_configuraion_id(&data("[{\"id\":\"X\"}]")), Ok(String::from("X")));
    assert_eq!(
        parse_configuraion_id(&data("{\"id\":\"X\"}")),
        Err(ResponseError::NoRecord)
    );
    assert_eq!(
        parse_webgui_protocol("[{\"device_gui_protocol\":\"https\"}]"),
        Ok(String::from("https"))
    );
    assert_eq!(parse_remote_access_enabled("[{\"is_remote_access_enabled\":true}]"), Ok(true));
    assert_eq!(parse_device_status("[{\"status\":\"Draft\"}]"), Ok(DeviceStatus::DsDraft));
    assert_eq!(parse_device_status("[1]"), Err(ResponseError::NoRecord));
}

#[test]
fn interface_ids_by_device() {
    let v = JsonValue::parse(
        "[{\"id\":\"I1\",\"device\":\"em0\"},{\"id\":\"I2\",\"device\":\"em1\"},{\"id\":\"I3\"},{\"id\":\"I4\",\"device\":\"em0\"}]",
    )
    .unwrap();
    let ids = InterfaceInsertionResult::from_json(&v);
    assert_eq!(ids.get_id_by_device("em1").map(|s| s.as_str()), Some("I2"));
    assert_eq!(ids.get_id_by_device("em0").map(|s| s.as_str()), Some("I4"));
    assert!(ids.get_id_by_device("em9").is_none());
    let none = InterfaceInsertionResult::from_json(&JsonValue::Null);
    assert!(none.get_id_by_device("em0").is_none());
}

#[test]
fn interface_id_is_the_last_record_with_text_fields() {
    let data = ResponseData {
        count: 3,
        data: String::from(
            "[{\"id\":\"I1\",\"device\":\"em0\"},{\"id\":5,\"device\":\"em0\"},{\"device\":\"em0\"},7]",
        ),
        encoding: String::new(),
    };
    let ids = InterfaceInsertionResult::from_response_data(data);
    assert_eq!(ids.get_id_by_device("em0").map(|s| s.as_str()), Some("I1"));
}
