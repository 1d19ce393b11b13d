use wallguard_server::related_records::{
    extract_created_id, related_record_ids, related_record_ids_request, status_update_requests,
    CreatedIdError, DatastoreReply, RelatedRecordsError,
};
use wallguard_server::json::JsonValue;

fn reply(success: bool, data: &str) -> DatastoreReply {
    DatastoreReply {
        success,
        message: String::from("msg"),
        data: String::from(data),
        error: String::from("err"),
    }
}

#[test]
fn ids_of_related_records() {
    let ids = related_record_ids(&reply(true, "[{\"id\":\"a\"},{\"x\":1},{\"id\":2},{\"id\":\"b\"}]"));
    assert_eq!(ids.ok().unwrap(), vec![String::from("a"), String::from("b")]);
}

#[test]
fn related_record_errors() {
    match related_record_ids(&reply(false, "[]")) {
        Err(RelatedRecordsError::Refused(t)) => assert_eq!(t, "msg <-----> err"),
        _ => panic!("expected a refusal"),
    }
    assert!(matches!(related_record_ids(&reply(true, "{")), Err(RelatedRecordsError::NotJson)));
    assert!(matches!(related_record_ids(&reply(true, "{}")), Err(RelatedRecordsError::NotAnArray)));
}

#[test]
fn one_update_per_id() {
    let ids = vec![String::from("a"), String::from("b")];
    let rs = status_update_requests(&ids, "device_rules", "device_rule_status", "Applied");
    assert_eq!(rs.len(), 2);
    assert_eq!(rs[1].params.as_ref().unwrap().id, "b");
    assert_eq!(rs[0].query.as_ref().unwrap().durability, "soft");
    let v = JsonValue::parse(&rs[0].body).unwrap();
    assert_eq!(
        v.get("device_rule_status").and_then(|x| x.as_str()).cloned(),
        Some(String::from("Applied"))
    );
    let q = related_record_ids_request("C1", "device_rules");
    let b = q.body.unwrap();
    assert_eq!(b.limit, i32::MAX);
    assert_eq!(b.pluck, vec!["id"]);
    assert_eq!(b.advance_filters[0].field, "device_configuration_id");
}

#[test]
fn created_ids() {
    assert_eq!(
        extract_created_id(&reply(true, "[{\"id\":\"N1\"}]"), "configuration").ok(),
        Some(String::from("N1"))
    );
    match extract_created_id(&reply(false, "[]"), "configuration") {
        Err(CreatedIdError::Refused(t)) => {
            assert_eq!(t, "Failed to create configuration record: msg")
        }
        _ => panic!("expected a refusal"),
    }
    assert!(matches!(
        extract_created_id(&reply(true, "nope"), "configuration"),
        Err(CreatedIdError::NotJson)
    ));
    match extract_created_id(&reply(true, "[{\"name\":1}]"), "configuration") {
        Err(CreatedIdError::MissingId(t)) => assert_eq!(
            t,
            "Failed to parse DS response. Either the format is unexpected or the configuration ID is missing"
        ),
        _ => panic!("expected a missing id"),
    }
}
