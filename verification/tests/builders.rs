use wallguard_server::builders::{
    AdvanceFilterBuilder, BatchCreateRequestBuilder, BatchUpdateRequestBuilder,
    CreateRequestBuilder, DeleteRequestBuilder, GetByFilterRequestBuilder, GetByIdRequestBuilder,
    LoginRequestBuilder, UpdateRequestBuilder,
};

#[test]
fn create_builder_joins_pluck_with_commas() {
    let r = CreateRequestBuilder::new()
        .table("devices")
        .durability("soft")
        .pluck(vec![String::from("id"), String::from("code")])
        .record("{}")
        .build();
    assert_eq!(r.params.unwrap().table, "devices");
    let q = r.query.unwrap();
    assert_eq!(q.pluck, "id,code");
    assert_eq!(q.durability, "soft");
    let b = r.body.unwrap();
    assert_eq!(b.record, "{}");
    assert_eq!(b.entity_prefix, "");
}

#[test]
fn create_builder_defaults_are_empty() {
    let r = CreateRequestBuilder::new().build();
    assert_eq!(r.params.unwrap().table, "");
    let q = r.query.unwrap();
    assert_eq!(q.pluck, "");
    assert_eq!(q.durability, "");
    assert_eq!(r.body.unwrap().record, "");
}

#[test]
fn builder_last_write_wins() {
    let r = CreateRequestBuilder::new().table("first").table("second").build();
    assert_eq!(r.params.unwrap().table, "second");
    let f = AdvanceFilterBuilder::new().field("a").field("b").build();
    assert_eq!(f.field, "b");
}

#[test]
fn get_by_id_builder_root_type() {
    let r = GetByIdRequestBuilder::new()
        .id("42")
        .table("devices")
        .pluck(vec![String::from("status")])
        .durability("hard")
        .performed_by_root(true)
        .build();
    let p = r.params.unwrap();
    assert_eq!(p.id, "42");
    assert_eq!(p.table, "devices");
    assert_eq!(p.type_, "root");
    let q = r.query.unwrap();
    assert_eq!(q.pluck, "status");
    assert_eq!(q.durability, "hard");
    let plain = GetByIdRequestBuilder::new().build();
    assert_eq!(plain.params.unwrap().type_, "");
}

#[test]
fn advance_filter_builder_sets_every_field() {
    let f = AdvanceFilterBuilder::new()
        .type_("criteria")
        .field("device_id")
        .operator("equal")
        .entity("devices")
        .values("[\"x\"]")
        .build();
    assert_eq!(f.type_, "criteria");
    assert_eq!(f.field, "device_id");
    assert_eq!(f.operator, "equal");
    assert_eq!(f.entity, "devices");
    assert_eq!(f.values, "[\"x\"]");
}

#[test]
fn delete_builder_flags_as_text() {
    let r = DeleteRequestBuilder::new().id("1").table("t").permanent(true).build();
    assert_eq!(r.query.unwrap().is_permanent, "true");
    let r = DeleteRequestBuilder::new().build();
    assert_eq!(r.query.unwrap().is_permanent, "false");
    assert_eq!(r.params.unwrap().type_, "");
}

#[test]
fn login_builder_root_flag() {
    let r = LoginRequestBuilder::new().account_id("acc").account_secret("sec").set_root(true).build();
    let d = r.body.unwrap().data.unwrap();
    assert_eq!(d.account_id, "acc");
    assert_eq!(d.account_secret, "sec");
    assert_eq!(r.params.unwrap().is_root, "true");
    let r = LoginRequestBuilder::new().build();
    assert_eq!(r.params.unwrap().is_root, "false");
}

#[test]
fn batch_create_builder_keeps_prefix() {
    let r = BatchCreateRequestBuilder::new()
        .table("packets")
        .records("[]")
        .entity_prefix("PK")
        .durability("soft")
        .build();
    assert_eq!(r.params.unwrap().table, "packets");
    let b = r.body.unwrap();
    assert_eq!(b.records, "[]");
    assert_eq!(b.entity_prefix, "PK");
}

#[test]
fn batch_update_builder_collects_filters_in_order() {
    let f1 = AdvanceFilterBuilder::new().field("a").build();
    let f2 = AdvanceFilterBuilder::new().field("b").build();
    let f3 = AdvanceFilterBuilder::new().field("c").build();
    let r = BatchUpdateRequestBuilder::new()
        .table("device_rules")
        .advance_filter(f1)
        .advance_filters(vec![f2, f3])
        .updates("{}")
        .build();
    let b = r.body.unwrap();
    let fields: Vec<String> = b.advance_filters.iter().map(|f| f.field.clone()).collect();
    assert_eq!(fields, vec!["a", "b", "c"]);
    assert_eq!(b.updates, "{}");
}

#[test]
fn get_by_filter_builder_pluck_object_last_wins() {
    let r = GetByFilterRequestBuilder::new()
        .table("devices")
        .pluck("id")
        .plucks(vec![String::from("code")])
        .pluck_object("k", "v1")
        .pluck_object("k", "v2")
        .limit(5)
        .build();
    let b = r.body.unwrap();
    assert_eq!(b.pluck, vec!["id", "code"]);
    assert_eq!(b.limit, 5);
    assert_eq!(b.offset, 0);
    let values: Vec<String> = b
        .pluck_object
        .iter()
        .filter(|(k, _)| k == "k")
        .map(|(_, v)| v.clone())
        .collect();
    assert_eq!(values.last().map(|s| s.as_str()), Some("v2"));
}

#[test]
fn update_builder_needs_id_and_table() {
    let b = UpdateRequestBuilder::new().id("1");
    assert!(!b.is_complete());
    let b = b.table("devices").query("id", "soft").body("{}");
    assert!(b.is_complete());
    let r = b.build();
    let p = r.params.unwrap();
    assert_eq!(p.id, "1");
    assert_eq!(p.table, "devices");
    let q = r.query.unwrap();
    assert_eq!(q.pluck, "id");
    assert_eq!(q.durability, "soft");
    assert_eq!(r.body, "{}");
}
