//! Building JSON records and the requests that carry them.
use crate::json::{
    is_object_or_null, json_get, json_set, law_json_set_keeps_other_fields, law_json_set_then_get,
    JsonValue, JsonView,
};
use crate::text::owned;
use vstd::prelude::*;

verus! {

/// The text `["value"]`: a list with one value, as the datastore's filters
/// take it. The value is put between the quotes as it is.
pub open spec fn single_value_list(value: Seq<char>) -> Seq<char> {
    "[\""@ + value + "\"]"@
}

pub fn single_value_list_string(value: &str) -> (r: String)
    ensures
        r@ == single_value_list(value@),
{
    let mut r = owned("[\"");
    r.append(value);
    r.append("\"]");
    r
}

/// An object with the given entries, in their order.
pub fn object_of(entries: Vec<(String, JsonValue)>) -> (r: JsonValue)
    ensures
        r@ == JsonView::Object(JsonValue::entries_view(entries@)),
{
    JsonValue::Object(entries)
}

/// An entry whose value is a text.
pub fn text_entry(key: &str, value: &str) -> (r: (String, JsonValue))
    ensures
        r.0@ == key@,
        r.1@ == JsonView::String(value@),
{
    (owned(key), JsonValue::text(value))
}

/// An entry with the given value.
pub fn entry(key: &str, value: JsonValue) -> (r: (String, JsonValue))
    ensures
        r.0@ == key@,
        r.1@ == value@,
{
    (owned(key), value)
}

/// A record that gets the id of its configuration and, where there is one,
/// a status in the field `status_field`.
pub open spec fn decorated(
    record: JsonView,
    config_id: Seq<char>,
    status_field: Seq<char>,
    status: Option<Seq<char>>,
) -> JsonView {
    let with_id = json_set(record, "device_configuration_id"@, JsonView::String(config_id));
    match status {
        Some(s) => json_set(with_id, status_field, JsonView::String(s)),
        None => with_id,
    }
}

/// Gives each record the id of its configuration and, where there is one, a status.
pub fn decorate_records(
    records: &mut Vec<JsonValue>,
    config_id: &str,
    status_field: &str,
    status: Option<&str>,
)
    requires
        forall|i: int| 0 <= i < old(records).len() ==> is_object_or_null(#[trigger] old(records)@[i]@),
    ensures
        final(records).len() == old(records).len(),
        forall|i: int|
            0 <= i < old(records).len() ==> #[trigger] final(records)@[i]@ == decorated(
                old(records)@[i]@,
                config_id@,
                status_field@,
                match status {
                    Some(s) => Some(s@),
                    None => None,
                },
            ),
{
    let ghost before = records@;
    let mut i: usize = 0;
    while i < records.len()
        invariant
            i <= records.len(),
            records.len() == before.len(),
            forall|j: int| i <= j < records.len() ==> #[trigger] records@[j] == before[j],
            forall|j: int| 0 <= j < before.len() ==> is_object_or_null(#[trigger] before[j]@),
            forall|j: int|
                0 <= j < i ==> #[trigger] records@[j]@ == decorated(
                    before[j]@,
                    config_id@,
                    status_field@,
                    match status {
                        Some(s) => Some(s@),
                        None => None,
                    },
                ),
        decreases records.len() - i,
    {
        let mut record = JsonValue::Null;
        std::mem::swap(&mut record, &mut records[i]);
        assert(record == before[i as int]);
        record.set("device_configuration_id", JsonValue::text(config_id));
        match status {
            Some(s) => {
                record.set(status_field, JsonValue::text(s));
            },
            None => {},
        }
        records.set(i, record);
        i = i + 1;
    }
}

/// A decorated record carries its configuration's id and, where one was
/// given, the status; every other field keeps its value.
pub proof fn law_decorated_record_fields(
    record: JsonView,
    config_id: Seq<char>,
    status_field: Seq<char>,
    status: Option<Seq<char>>,
    other: Seq<char>,
)
    requires
        is_object_or_null(record),
        status_field != "device_configuration_id"@,
    ensures
        json_get(decorated(record, config_id, status_field, status), "device_configuration_id"@)
            == Some(JsonView::String(config_id)),
        status matches Some(s) ==> json_get(
            decorated(record, config_id, status_field, status),
            status_field,
        ) == Some(JsonView::String(s)),
        other != "device_configuration_id"@ && (status is None || other != status_field)
            ==> json_get(decorated(record, config_id, status_field, status), other) == json_get(
            record,
            other,
        ),
{
    let id_key = "device_configuration_id"@;
    let with_id = json_set(record, id_key, JsonView::String(config_id));
    law_json_set_then_get(record, id_key, JsonView::String(config_id));
    if other != id_key {
        law_json_set_keeps_other_fields(record, id_key, other, JsonView::String(config_id));
    }
    assert(is_object_or_null(with_id));
    match status {
        Some(s) => {
            law_json_set_then_get(with_id, status_field, JsonView::String(s));
            law_json_set_keeps_other_fields(with_id, status_field, id_key, JsonView::String(s));
            if other != status_field {
                law_json_set_keeps_other_fields(with_id, status_field, other, JsonView::String(s));
            }
        },
        None => {},
    }
}

} // verus!
