//! Refreshing the status of the records that belong to a configuration one
//! record at a time, for a datastore that offers no batch update: the ids of
//! the records are fetched, then each record gets its own update. Also the
//! reading of the id of a record that the datastore just created.
use crate::config_upload::{equal_filter, equal_filter_value};
use crate::json::{json_get, json_items, json_parse, json_str, json_text, JsonValue, JsonView};
use crate::records::{object_of, text_entry};
use crate::requests::{
    entries_to_map, GetByFilterBody, GetByFilterBodyView, GetByFilterRequest,
    GetByFilterRequestView, JoinView, MultipleSortView, Params, ParamsView, Query, QueryView,
    UpdateRequest, UpdateRequestView,
};
use crate::responses::{first_record_text, read_first_record_text, ResponseField};
use crate::text::owned;
use vstd::prelude::*;

verus! {

/// A reply of the datastore: whether the request succeeded, its message and
/// error, and the records as JSON text.
pub struct DatastoreReply {
    pub success: bool,
    pub message: String,
    pub data: String,
    pub error: String,
}

/// The request for the ids of every record of `table` that belongs to the
/// configuration, newest first.
pub open spec fn related_record_ids_request_of(config_id: Seq<char>, table: Seq<char>) -> GetByFilterRequestView {
    GetByFilterRequestView {
        body: Some(
            GetByFilterBodyView {
                pluck: seq!["id"@],
                advance_filters: seq![equal_filter("device_configuration_id"@, config_id, table)],
                order_by: "timestamp"@,
                limit: i32::MAX,
                offset: 0,
                order_direction: "desc"@,
                joins: Seq::empty(),
                multiple_sort: Seq::empty(),
                pluck_object: Map::empty(),
                date_format: Seq::empty(),
            },
        ),
        params: Some(ParamsView { id: Seq::empty(), table, type_: Seq::empty() }),
    }
}

pub fn related_record_ids_request(config_id: &str, table: &str) -> (r: GetByFilterRequest)
    ensures
        r@ == related_record_ids_request_of(config_id@, table@),
{
    let pluck = vec![owned("id")];
    let filters = vec![equal_filter_value("device_configuration_id", config_id, table)];
    let r = GetByFilterRequest {
        body: Some(
            GetByFilterBody {
                pluck,
                advance_filters: filters,
                order_by: owned("timestamp"),
                limit: i32::MAX,
                offset: 0,
                order_direction: owned("desc"),
                joins: Vec::new(),
                multiple_sort: Vec::new(),
                pluck_object: Vec::new(),
                date_format: String::new(),
            },
        ),
        params: Some(Params { id: String::new(), table: owned(table), type_: String::new() }),
    };
    proof {
        let b = r.body->0;
        assert(b.pluck.deep_view() =~= seq!["id"@]);
        assert(b.advance_filters.deep_view() =~= seq![
            equal_filter("device_configuration_id"@, config_id@, table@),
        ]);
        assert(b.joins.deep_view() =~= Seq::<JoinView>::empty());
        assert(b.multiple_sort.deep_view() =~= Seq::<MultipleSortView>::empty());
        assert(b.pluck_object.deep_view() =~= Seq::<(Seq<char>, Seq<char>)>::empty());
        assert(entries_to_map(b.pluck_object.deep_view()) =~= Map::empty());
    }
    r
}

/// The id of a record, where it is an object with a text `id`.
pub open spec fn record_id(item: JsonView) -> Option<Seq<char>> {
    match json_get(item, "id"@) {
        Some(v) => json_str(v),
        None => None,
    }
}

/// The ids of the records that have one, in their order.
pub open spec fn record_ids(items: Seq<JsonView>) -> Seq<Seq<char>>
    decreases items.len(),
{
    if items.len() == 0 {
        Seq::empty()
    } else {
        let rest = record_ids(items.drop_last());
        match record_id(items.last()) {
            Some(id) => rest.push(id),
            None => rest,
        }
    }
}

/// Why the ids of the related records could not be had.
pub enum RelatedRecordsError {
    /// The datastore refused the request; the message and error it gave,
    /// joined by ` <-----> `.
    Refused(String),
    /// The records are not JSON.
    NotJson,
    /// The records are not a JSON array.
    NotAnArray,
}

/// The text of a refusal: the message and the error of the reply.
pub open spec fn refusal_text(message: Seq<char>, error: Seq<char>) -> Seq<char> {
    message + " <-----> "@ + error
}

/// The ids of the records that a reply lists.
pub fn related_record_ids(reply: &DatastoreReply) -> (r: Result<Vec<String>, RelatedRecordsError>)
    ensures
        !reply.success ==> (r matches Err(RelatedRecordsError::Refused(t)) && t@ == refusal_text(
            reply.message@,
            reply.error@,
        )),
        reply.success ==> match json_parse(reply.data@) {
            None => r matches Err(RelatedRecordsError::NotJson),
            Some(v) => match json_items(v) {
                None => r matches Err(RelatedRecordsError::NotAnArray),
                Some(items) => r matches Ok(ids) && ids.deep_view() == record_ids(items),
            },
        },
{
    if !reply.success {
        let mut t = reply.message.clone();
        t.append(" <-----> ");
        t.append(reply.error.as_str());
        return Err(RelatedRecordsError::Refused(t));
    }
    let json = match JsonValue::parse(reply.data.as_str()) {
        Some(v) => v,
        None => return Err(RelatedRecordsError::NotJson),
    };
    let items = match json.as_array() {
        Some(items) => items,
        None => return Err(RelatedRecordsError::NotAnArray),
    };
    let ghost all = items.deep_view();
    let mut ids: Vec<String> = Vec::new();
    let mut i: usize = 0;
    while i < items.len()
        invariant
            i <= items.len(),
            all == items.deep_view(),
            ids.deep_view() == record_ids(all.take(i as int)),
        decreases items.len() - i,
    {
        assert(all.take(i + 1).drop_last() =~= all.take(i as int));
        assert(all.take(i + 1).last() == items@[i as int]@);
        match items[i].get("id") {
            Some(v) => match v.as_str() {
                Some(s) => {
                    ids.push(s.clone());
                    assert(ids.deep_view() =~= record_ids(all.take(i as int)).push(s@));
                },
                None => {},
            },
            None => {},
        }
        i = i + 1;
    }
    assert(all.take(items.len() as int) =~= all);
    Ok(ids)
}

/// The update that sets the status of one record.
pub open spec fn status_update_request_of(
    id: Seq<char>,
    table: Seq<char>,
    status_field: Seq<char>,
    status: Seq<char>,
) -> UpdateRequestView {
    UpdateRequestView {
        params: Some(ParamsView { id, table, type_: Seq::empty() }),
        query: Some(QueryView { pluck: Seq::empty(), durability: "soft"@ }),
        body: json_text(JsonView::Object(seq![(status_field, JsonView::String(status))])),
    }
}

pub fn status_update_request(id: &str, table: &str, status_field: &str, status: &str) -> (r:
    UpdateRequest)
    ensures
        r@ == status_update_request_of(id@, table@, status_field@, status@),
{
    let entries = vec![text_entry(status_field, status)];
    proof {
        crate::json::lemma_entries_view(entries@);
    }
    let body = object_of(entries);
    assert(JsonValue::entries_view(entries@) =~= seq![(status_field@, JsonView::String(status@))]);
    UpdateRequest {
        params: Some(Params { id: owned(id), table: owned(table), type_: String::new() }),
        query: Some(Query { pluck: String::new(), durability: owned("soft") }),
        body: body.to_text(),
    }
}

/// One status update per record id, in the order of the ids.
pub fn status_update_requests(
    ids: &Vec<String>,
    table: &str,
    status_field: &str,
    status: &str,
) -> (r: Vec<UpdateRequest>)
    ensures
        r.len() == ids.len(),
        forall|i: int|
            0 <= i < ids.len() ==> #[trigger] r[i]@ == status_update_request_of(
                ids[i]@,
                table@,
                status_field@,
                status@,
            ),
{
    let mut out: Vec<UpdateRequest> = Vec::new();
    let mut i: usize = 0;
    while i < ids.len()
        invariant
            i <= ids.len(),
            out.len() == i,
            forall|j: int|
                0 <= j < i ==> #[trigger] out[j]@ == status_update_request_of(
                    ids[j]@,
                    table@,
                    status_field@,
                    status@,
                ),
        decreases ids.len() - i,
    {
        out.push(status_update_request(ids[i].as_str(), table, status_field, status));
        i = i + 1;
    }
    out
}

/// Why the id of a created record could not be had.
pub enum CreatedIdError {
    /// The datastore refused: `Failed to create <kind> record: <message>`.
    Refused(String),
    /// The records are not JSON.
    NotJson,
    /// No text id in the first record: `Failed to parse DS response.
    /// Either the format is unexpected or the <kind> ID is missing`.
    MissingId(String),
}

/// The text of a refused creation of a record of some kind.
pub open spec fn creation_refused_text(record_type: Seq<char>, message: Seq<char>) -> Seq<char> {
    "Failed to create "@ + record_type + " record: "@ + message
}

/// The text of a reply that names no id for the created record.
pub open spec fn missing_id_text(record_type: Seq<char>) -> Seq<char> {
    "Failed to parse DS response. Either the format is unexpected or the "@ + record_type
        + " ID is missing"@
}

/// The id of the record that a reply reports as created.
pub fn extract_created_id(reply: &DatastoreReply, record_type: &str) -> (r: Result<
    String,
    CreatedIdError,
>)
    ensures
        !reply.success ==> (r matches Err(CreatedIdError::Refused(t)) && t@ == creation_refused_text(
            record_type@,
            reply.message@,
        )),
        reply.success ==> match json_parse(reply.data@) {
            None => r matches Err(CreatedIdError::NotJson),
            Some(v) => match first_record_text(v, ResponseField::Id) {
                Ok(id) => r matches Ok(s) && s@ == id,
                Err(_) => r matches Err(CreatedIdError::MissingId(t)) && t@ == missing_id_text(
                    record_type@,
                ),
            },
        },
{
    if !reply.success {
        let mut t = owned("Failed to create ");
        t.append(record_type);
        t.append(" record: ");
        t.append(reply.message.as_str());
        return Err(CreatedIdError::Refused(t));
    }
    let json = match JsonValue::parse(reply.data.as_str()) {
        Some(v) => v,
        None => return Err(CreatedIdError::NotJson),
    };
    match read_first_record_text(&json, ResponseField::Id) {
        Ok(id) => Ok(id),
        Err(_) => {
            let mut t = owned("Failed to parse DS response. Either the format is unexpected or the ");
            t.append(record_type);
            t.append(" ID is missing");
            Err(CreatedIdError::MissingId(t))
        },
    }
}

} // verus!
