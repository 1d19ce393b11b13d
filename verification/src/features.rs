//! The requests that the server sends to the datastore for each of its
//! operations, and the decisions taken on the answers.
use crate::config_upload::{equal_filter, equal_filter_value};
use crate::json::{
    is_object_or_null, lemma_object_field, unique_keys, json_get, json_items, json_parse, json_set, json_str, json_text, JsonValue,
    JsonView,
};
use crate::records::{entry, object_of, text_entry};
use crate::requests::{
    entries_to_map, AdvanceFilter, AdvanceFilterView, BatchCreateBody, BatchCreateBodyView,
    BatchCreateRequest, BatchCreateRequestView, BatchUpdateBody, BatchUpdateBodyView,
    BatchUpdateRequest, BatchUpdateRequestView, CreateBody, CreateBodyView, CreateParams,
    CreateParamsView, CreateRequest, CreateRequestView, GetByFilterBody, GetByFilterBodyView,
    GetByFilterRequest, GetByFilterRequestView, GetByIdRequest, GetByIdRequestView, JoinView,
    LoginBody, LoginBodyView, LoginData, LoginDataView, LoginRequest, LoginRequestView,
    MultipleSortView, Params, ParamsView, Query, QueryView, ResponseData, ResponseDataView,
    UpdateRequest, UpdateRequestView,
};
use crate::text::owned;
use vstd::prelude::*;

verus! {

/// The request for some fields of one record.
pub open spec fn get_by_id_request_of(
    id: Seq<char>,
    table: Seq<char>,
    pluck: Seq<char>,
    durability: Seq<char>,
) -> GetByIdRequestView {
    GetByIdRequestView {
        params: Some(ParamsView { id, table, type_: Seq::empty() }),
        query: Some(QueryView { pluck, durability }),
    }
}

fn get_by_id(id: &str, table: &str, pluck: &str, durability: &str) -> (r: GetByIdRequest)
    ensures
        r@ == get_by_id_request_of(id@, table@, pluck@, durability@),
{
    GetByIdRequest {
        params: Some(Params { id: owned(id), table: owned(table), type_: String::new() }),
        query: Some(Query { pluck: owned(pluck), durability: owned(durability) }),
    }
}

/// The text that asks for every field: an empty pluck list.
fn no_pluck() -> (r: &'static str)
    ensures
        r@ == Seq::<char>::empty(),
{
    proof {
        reveal_strlit("");
    }
    assert(""@ =~= Seq::<char>::empty());
    ""
}

/// The request that creates one record.
pub open spec fn create_request_of(
    table: Seq<char>,
    pluck: Seq<char>,
    durability: Seq<char>,
    record: Seq<char>,
    entity_prefix: Seq<char>,
) -> CreateRequestView {
    CreateRequestView {
        params: Some(CreateParamsView { table }),
        query: Some(QueryView { pluck, durability }),
        body: Some(CreateBodyView { record, entity_prefix }),
    }
}

fn create(table: &str, pluck: &str, durability: &str, record: String, entity_prefix: &str) -> (r:
    CreateRequest)
    ensures
        r@ == create_request_of(table@, pluck@, durability@, record@, entity_prefix@),
{
    CreateRequest {
        params: Some(CreateParams { table: owned(table) }),
        query: Some(Query { pluck: owned(pluck), durability: owned(durability) }),
        body: Some(CreateBody { record, entity_prefix: owned(entity_prefix) }),
    }
}

/// The request that creates several records.
pub open spec fn batch_create_request_of(
    table: Seq<char>,
    pluck: Seq<char>,
    durability: Seq<char>,
    records: Seq<char>,
    entity_prefix: Seq<char>,
) -> BatchCreateRequestView {
    BatchCreateRequestView {
        params: Some(CreateParamsView { table }),
        query: Some(QueryView { pluck, durability }),
        body: Some(BatchCreateBodyView { records, entity_prefix }),
    }
}

fn batch_create(
    table: &str,
    pluck: &str,
    durability: &str,
    records: String,
    entity_prefix: &str,
) -> (r: BatchCreateRequest)
    ensures
        r@ == batch_create_request_of(table@, pluck@, durability@, records@, entity_prefix@),
{
    BatchCreateRequest {
        params: Some(CreateParams { table: owned(table) }),
        query: Some(Query { pluck: owned(pluck), durability: owned(durability) }),
        body: Some(BatchCreateBody { records, entity_prefix: owned(entity_prefix) }),
    }
}

/// Whether the characters of `s` from `from` up to `to` are decimal digits.
pub open spec fn digits_between(s: Seq<char>, from: int, to: int) -> bool {
    forall|i: int| from <= i < to ==> '0' <= #[trigger] s[i] && s[i] <= '9'
}

/// The shape of an RFC 3339 time in UTC whose year takes the first `y`
/// characters: four digits, or `+` and more digits for a year past 9999;
/// then `-MM-DDTHH:MM:SS`, an optional fraction of a second (`.` and
/// digits), and `+00:00`.
pub open spec fn rfc3339_utc_with_year(s: Seq<char>, y: int) -> bool {
    &&& (y == 4 && digits_between(s, 0, 4)) || (y >= 6 && s[0] == '+' && digits_between(s, 1, y))
    &&& s.len() >= y + 21
    &&& s[y] == '-' && digits_between(s, y + 1, y + 3)
    &&& s[y + 3] == '-' && digits_between(s, y + 4, y + 6)
    &&& s[y + 6] == 'T' && digits_between(s, y + 7, y + 9)
    &&& s[y + 9] == ':' && digits_between(s, y + 10, y + 12)
    &&& s[y + 12] == ':' && digits_between(s, y + 13, y + 15)
    &&& (s.len() == y + 21 || (s[y + 15] == '.' && s.len() > y + 22 && digits_between(
        s,
        y + 16,
        s.len() - 6,
    )))
    &&& s.subrange(s.len() - 6, s.len() as int) == "+00:00"@
}

/// Whether a text is an RFC 3339 time in UTC, as chrono writes one.
pub open spec fn is_rfc3339_utc(s: Seq<char>) -> bool {
    exists|y: int| rfc3339_utc_with_year(s, y)
}

/// The current time as RFC 3339 text: `SystemTime::now()` since the Unix
/// epoch, turned into a UTC time by `chrono::DateTime::from_timestamp` and
/// written by `to_rfc3339`. `None` where the clock reads before 1970 or past
/// what chrono can represent (where `chrono::Utc::now()` would panic). Which
/// time is not stated, as it comes from the clock; stated is the shape in
/// which chrono writes a UTC time: the year in four digits (or with a sign
/// past 9999), the date and time, an optional fraction of a second, and the
/// offset `+00:00`.
#[verifier::external_body]
fn now_rfc3339() -> (r: Option<String>)
    ensures
        r matches Some(t) ==> is_rfc3339_utc(t@),
{
    let d = std::time::SystemTime::now().duration_since(std::time::UNIX_EPOCH).ok()?;
    let secs = i64::try_from(d.as_secs()).ok()?;
    let t = chrono::DateTime::from_timestamp(secs, d.subsec_nanos())?;
    Some(t.to_rfc3339())
}

/// The heartbeat record of a device at a time.
pub open spec fn heartbeat_record(device_id: Seq<char>, timestamp: Seq<char>) -> JsonView {
    JsonView::Object(
        seq![
            ("device_id"@, JsonView::String(device_id)),
            ("timestamp"@, JsonView::String(timestamp)),
        ],
    )
}

/// The request that records a heartbeat of a device at a time.
pub open spec fn heartbeat_request_of(device_id: Seq<char>, timestamp: Seq<char>) -> CreateRequestView {
    create_request_of(
        "device_heartbeats"@,
        Seq::empty(),
        "soft"@,
        json_text(heartbeat_record(device_id, timestamp)),
        "HB"@,
    )
}

/// The request that records a heartbeat of a device at the given time.
pub fn heartbeat_request_at(device_id: &str, timestamp: &str) -> (r: CreateRequest)
    ensures
        r@ == heartbeat_request_of(device_id@, timestamp@),
{
    let entries = vec![text_entry("device_id", device_id), text_entry("timestamp", timestamp)];
    proof {
        crate::json::lemma_entries_view(entries@);
    }
    let record = object_of(entries);
    assert(JsonValue::entries_view(entries@) =~= seq![
        ("device_id"@, JsonView::String(device_id@)),
        ("timestamp"@, JsonView::String(timestamp@)),
    ]);
    create("device_heartbeats", no_pluck(), "soft", record.to_text(), "HB")
}

/// The request that records a heartbeat of a device now; `None` where the
/// clock gives no time that can be written.
pub fn heartbeat_request(device_id: &str) -> (r: Option<CreateRequest>)
    ensures
        r matches Some(req) ==> exists|timestamp: Seq<char>|
            is_rfc3339_utc(timestamp) && req@ == heartbeat_request_of(device_id@, timestamp),
{
    let timestamp = now_rfc3339()?;
    let r = heartbeat_request_at(device_id, timestamp.as_str());
    assert(is_rfc3339_utc(timestamp@) && r@ == heartbeat_request_of(device_id@, timestamp@));
    Some(r)
}

/// The request for what a heartbeat answers: the device's status and flags.
pub fn device_info_request(device_id: &str) -> (r: GetByIdRequest)
    ensures
        r@ == get_by_id_request_of(
            device_id@,
            "devices"@,
            "status,is_monitoring_enabled,is_remote_access_enabled"@,
            "soft"@,
        ),
{
    get_by_id(device_id, "devices", "status,is_monitoring_enabled,is_remote_access_enabled", "soft")
}

/// The fields that a device gets when it is set up.
pub open spec fn device_setup_record(
    version: Seq<char>,
    uuid: Seq<char>,
    address: Seq<char>,
) -> JsonView {
    JsonView::Object(
        seq![
            ("device_version"@, JsonView::String(version)),
            ("system_id"@, JsonView::String(uuid)),
            ("ip_address"@, JsonView::String(address)),
            ("is_connection_established"@, JsonView::Bool(true)),
            ("status"@, JsonView::String("Active"@)),
        ],
    )
}

/// The request that marks a device as set up and active.
pub open spec fn device_setup_request_of(
    device_id: Seq<char>,
    version: Seq<char>,
    uuid: Seq<char>,
    address: Seq<char>,
) -> UpdateRequestView {
    UpdateRequestView {
        params: Some(ParamsView { id: device_id, table: "devices"@, type_: Seq::empty() }),
        query: Some(QueryView { pluck: "id,code"@, durability: "soft"@ }),
        body: json_text(device_setup_record(version, uuid, address)),
    }
}

pub fn device_setup_request(
    device_id: &str,
    device_version: &str,
    device_uuid: &str,
    device_address: &str,
) -> (r: UpdateRequest)
    ensures
        r@ == device_setup_request_of(device_id@, device_version@, device_uuid@, device_address@),
{
    let entries = vec![
        text_entry("device_version", device_version),
        text_entry("system_id", device_uuid),
        text_entry("ip_address", device_address),
        entry("is_connection_established", JsonValue::Bool(true)),
        text_entry("status", "Active"),
    ];
    proof {
        crate::json::lemma_entries_view(entries@);
    }
    let body = object_of(entries);
    assert(JsonValue::entries_view(entries@) =~= seq![
        ("device_version"@, JsonView::String(device_version@)),
        ("system_id"@, JsonView::String(device_uuid@)),
        ("ip_address"@, JsonView::String(device_address@)),
        ("is_connection_established"@, JsonView::Bool(true)),
        ("status"@, JsonView::String("Active"@)),
    ]);
    UpdateRequest {
        params: Some(Params { id: owned(device_id), table: owned("devices"), type_: String::new() }),
        query: Some(Query { pluck: owned("id,code"), durability: owned("soft") }),
        body: body.to_text(),
    }
}

/// The request for the status of a device.
pub fn device_status_request(device_id: &str) -> (r: GetByIdRequest)
    ensures
        r@ == get_by_id_request_of(device_id@, "devices"@, "status"@, "soft"@),
{
    get_by_id(device_id, "devices", "status", "soft")
}

/// The request for the protocol of a device's web interface.
pub fn webgui_protocol_request(device_id: &str) -> (r: GetByIdRequest)
    ensures
        r@ == get_by_id_request_of(device_id@, "devices"@, "device_gui_protocol"@, "hard"@),
{
    get_by_id(device_id, "devices", "device_gui_protocol", "hard")
}

/// The request for whether remote access to a device is enabled.
pub fn remote_access_enabled_request(device_id: &str) -> (r: GetByIdRequest)
    ensures
        r@ == get_by_id_request_of(device_id@, "devices"@, "is_remote_access_enabled"@, "hard"@),
{
    get_by_id(device_id, "devices", "is_remote_access_enabled", "hard")
}

/// The record of a new remote access session, of the given type.
pub open spec fn remote_session_record(
    device_id: Seq<char>,
    access_type: Seq<char>,
    session: Seq<char>,
) -> JsonView {
    JsonView::Object(
        seq![
            ("device_id"@, JsonView::String(device_id)),
            ("remote_access_type"@, JsonView::String(access_type)),
            ("remote_access_session"@, JsonView::String(session)),
            ("remote_access_status"@, JsonView::String("active"@)),
            ("categories"@, JsonView::Array(seq![JsonView::String(access_type)])),
        ],
    )
}

/// The request that records a new, active remote access session. The type
/// is given as its text.
pub open spec fn new_remote_session_request_of(
    device_id: Seq<char>,
    access_type: Seq<char>,
    session: Seq<char>,
) -> CreateRequestView {
    create_request_of(
        "device_remote_access_sessions"@,
        Seq::empty(),
        "hard"@,
        json_text(remote_session_record(device_id, access_type, session)),
        "RAS"@,
    )
}

pub fn new_remote_session_request(
    device_id: &str,
    remote_access_type: &str,
    remote_access_session: &str,
) -> (r: CreateRequest)
    ensures
        r@ == new_remote_session_request_of(
            device_id@,
            remote_access_type@,
            remote_access_session@,
        ),
{
    let items = vec![JsonValue::text(remote_access_type)];
    assert(items.deep_view() =~= seq![JsonView::String(remote_access_type@)]) by {
        assert(items.deep_view()[0] == items@[0].deep_view());
    }
    let categories = JsonValue::array(items);
    let entries = vec![
        text_entry("device_id", device_id),
        text_entry("remote_access_type", remote_access_type),
        text_entry("remote_access_session", remote_access_session),
        text_entry("remote_access_status", "active"),
        entry("categories", categories),
    ];
    proof {
        crate::json::lemma_entries_view(entries@);
    }
    let record = object_of(entries);
    assert(JsonValue::entries_view(entries@) =~= seq![
        ("device_id"@, JsonView::String(device_id@)),
        ("remote_access_type"@, JsonView::String(remote_access_type@)),
        ("remote_access_session"@, JsonView::String(remote_access_session@)),
        ("remote_access_status"@, JsonView::String("active"@)),
        ("categories"@, JsonView::Array(seq![JsonView::String(remote_access_type@)])),
    ]);
    create("device_remote_access_sessions", no_pluck(), "hard", record.to_text(), "RAS")
}

/// The update that marks sessions as terminated.
pub open spec fn terminated_update() -> JsonView {
    JsonView::Object(seq![("remote_access_status"@, JsonView::String("terminated"@))])
}

fn terminated_update_text() -> (r: String)
    ensures
        r@ == json_text(terminated_update()),
{
    let entries = vec![text_entry("remote_access_status", "terminated")];
    proof {
        crate::json::lemma_entries_view(entries@);
    }
    let updates = object_of(entries);
    assert(JsonValue::entries_view(entries@) =~= seq![
        ("remote_access_status"@, JsonView::String("terminated"@)),
    ]);
    updates.to_text()
}

/// The request that terminates the sessions of a type on a device: the
/// sessions of that type and of that device.
pub open spec fn terminate_remote_session_request_of(
    device_id: Seq<char>,
    access_type: Seq<char>,
) -> BatchUpdateRequestView {
    BatchUpdateRequestView {
        params: Some(
            ParamsView {
                id: Seq::empty(),
                table: "device_remote_access_sessions"@,
                type_: Seq::empty(),
            },
        ),
        body: Some(
            BatchUpdateBodyView {
                advance_filters: seq![
                    equal_filter(
                        "remote_access_type"@,
                        access_type,
                        "device_remote_access_sessions"@,
                    ),
                    AdvanceFilterView {
                        type_: "operator"@,
                        field: Seq::empty(),
                        operator: "and"@,
                        entity: Seq::empty(),
                        values: Seq::empty(),
                    },
                    equal_filter("device_id"@, device_id, "device_remote_access_sessions"@),
                ],
                updates: json_text(terminated_update()),
            },
        ),
    }
}

pub fn terminate_remote_session_request(device_id: &str, remote_access_type: &str) -> (r:
    BatchUpdateRequest)
    ensures
        r@ == terminate_remote_session_request_of(device_id@, remote_access_type@),
{
    let table = "device_remote_access_sessions";
    let filters = vec![
        equal_filter_value("remote_access_type", remote_access_type, table),
        AdvanceFilter {
            type_: owned("operator"),
            field: String::new(),
            operator: owned("and"),
            entity: String::new(),
            values: String::new(),
        },
        equal_filter_value("device_id", device_id, table),
    ];
    assert(filters.deep_view() =~= seq![
        equal_filter("remote_access_type"@, remote_access_type@, "device_remote_access_sessions"@),
        AdvanceFilterView {
            type_: "operator"@,
            field: Seq::empty(),
            operator: "and"@,
            entity: Seq::empty(),
            values: Seq::empty(),
        },
        equal_filter("device_id"@, device_id@, "device_remote_access_sessions"@),
    ]);
    BatchUpdateRequest {
        params: Some(Params { id: String::new(), table: owned(table), type_: String::new() }),
        body: Some(BatchUpdateBody { advance_filters: filters, updates: terminated_update_text() }),
    }
}

/// The request that terminates every active session.
pub open spec fn terminate_all_active_sessions_request_of() -> BatchUpdateRequestView {
    BatchUpdateRequestView {
        params: Some(
            ParamsView {
                id: Seq::empty(),
                table: "device_remote_access_sessions"@,
                type_: Seq::empty(),
            },
        ),
        body: Some(
            BatchUpdateBodyView {
                advance_filters: seq![
                    equal_filter(
                        "remote_access_status"@,
                        "active"@,
                        "device_remote_access_sessions"@,
                    ),
                ],
                updates: json_text(terminated_update()),
            },
        ),
    }
}

pub fn terminate_all_active_sessions_request() -> (r: BatchUpdateRequest)
    ensures
        r@ == terminate_all_active_sessions_request_of(),
{
    let table = "device_remote_access_sessions";
    let filters = vec![equal_filter_value("remote_access_status", "active", table)];
    assert(filters.deep_view() =~= seq![
        equal_filter("remote_access_status"@, "active"@, "device_remote_access_sessions"@),
    ]);
    BatchUpdateRequest {
        params: Some(Params { id: String::new(), table: owned(table), type_: String::new() }),
        body: Some(BatchUpdateBody { advance_filters: filters, updates: terminated_update_text() }),
    }
}

/// A filter request on one table for the records whose `field` equals
/// `value`, at most one, with the given fields.
pub open spec fn first_match_request_of(
    table: Seq<char>,
    field: Seq<char>,
    value: Seq<char>,
    pluck: Seq<Seq<char>>,
) -> GetByFilterRequestView {
    GetByFilterRequestView {
        body: Some(
            GetByFilterBodyView {
                pluck,
                advance_filters: seq![equal_filter(field, value, table)],
                order_by: Seq::empty(),
                limit: 1,
                offset: 0,
                order_direction: Seq::empty(),
                joins: Seq::empty(),
                multiple_sort: Seq::empty(),
                pluck_object: Map::empty(),
                date_format: Seq::empty(),
            },
        ),
        params: Some(ParamsView { id: Seq::empty(), table, type_: Seq::empty() }),
    }
}

fn first_match_request(table: &str, field: &str, value: &str, pluck: Vec<String>) -> (r:
    GetByFilterRequest)
    ensures
        r@ == first_match_request_of(table@, field@, value@, pluck.deep_view()),
{
    let filters = vec![equal_filter_value(field, value, table)];
    assert(filters.deep_view() =~= seq![equal_filter(field@, value@, table@)]);
    let r = GetByFilterRequest {
        body: Some(
            GetByFilterBody {
                pluck,
                advance_filters: filters,
                order_by: String::new(),
                limit: 1,
                offset: 0,
                order_direction: String::new(),
                joins: Vec::new(),
                multiple_sort: Vec::new(),
                pluck_object: Vec::new(),
                date_format: String::new(),
            },
        ),
        params: Some(Params { id: String::new(), table: owned(table), type_: String::new() }),
    };
    proof {
        let b = r.body->0;
        assert(b.joins.deep_view() =~= Seq::<JoinView>::empty());
        assert(b.multiple_sort.deep_view() =~= Seq::<MultipleSortView>::empty());
        assert(b.pluck_object.deep_view() =~= Seq::<(Seq<char>, Seq<char>)>::empty());
        assert(entries_to_map(b.pluck_object.deep_view()) =~= Map::empty());
    }
    r
}

/// The request for the SSH key pair of a device.
pub fn ssh_keypair_request(device_id: &str) -> (r: GetByFilterRequest)
    ensures
        r@ == first_match_request_of(
            "device_ssh_keys"@,
            "device_id"@,
            device_id@,
            seq!["public_key"@, "private_key"@, "passphrase"@],
        ),
{
    let pluck = vec![owned("public_key"), owned("private_key"), owned("passphrase")];
    assert(pluck.deep_view() =~= seq!["public_key"@, "private_key"@, "passphrase"@]);
    first_match_request("device_ssh_keys", "device_id", device_id, pluck)
}

/// The first record of an answer: `None` where the data is not JSON, not
/// an array, or an empty one.
pub open spec fn first_record_of(data: Seq<char>) -> Option<JsonView> {
    match json_parse(data) {
        Some(v) => match json_items(v) {
            Some(items) => if items.len() > 0 {
                Some(items[0])
            } else {
                None
            },
            None => None,
        },
        None => None,
    }
}

/// The first record of an answer, where there is one.
pub fn first_record(data: &str) -> (r: Option<JsonValue>)
    ensures
        match r {
            Some(v) => first_record_of(data@) == Some(v@),
            None => first_record_of(data@) is None,
        },
{
    let parsed = JsonValue::parse(data);
    match parsed {
        Some(v) => match v {
            JsonValue::Array(items) => {
                proof {
                    crate::json::lemma_items_view(items@);
                }
                if items.len() > 0 {
                    let mut items = items;
                    let first = items.swap_remove(0);
                    Some(first)
                } else {
                    None
                }
            },
            _ => None,
        },
        None => None,
    }
}

/// The request that stores a new SSH key pair of a device: the key pair's
/// record, with the device's id.
pub open spec fn new_ssh_keypair_request_of(keypair: JsonView, device_id: Seq<char>) -> CreateRequestView {
    create_request_of(
        "device_ssh_keys"@,
        "id"@,
        "hard"@,
        json_text(json_set(keypair, "device_id"@, JsonView::String(device_id))),
        "SSH"@,
    )
}

pub fn new_ssh_keypair_request(keypair: JsonValue, device_id: &str) -> (r: CreateRequest)
    requires
        is_object_or_null(keypair@),
    ensures
        r@ == new_ssh_keypair_request_of(keypair@, device_id@),
{
    let mut record = keypair;
    record.set("device_id", JsonValue::text(device_id));
    create("device_ssh_keys", "id", "hard", record.to_text(), "SSH")
}

/// An SSH key pair of a device, as the datastore keeps it.
pub struct SshKeypair {
    pub public_key: String,
    pub private_key: String,
    pub passphrase: String,
}

impl View for SshKeypair {
    type V = (Seq<char>, Seq<char>, Seq<char>);

    open spec fn view(&self) -> (Seq<char>, Seq<char>, Seq<char>) {
        (self.public_key@, self.private_key@, self.passphrase@)
    }
}

/// The text field `key` of a record, where it is an object that has one.
pub open spec fn text_field(v: JsonView, key: Seq<char>) -> Option<Seq<char>> {
    match json_get(v, key) {
        Some(x) => json_str(x),
        None => None,
    }
}

/// The key pair that a record holds: its public key, private key and
/// passphrase, where it is an object with all three as texts.
pub open spec fn keypair_of(v: JsonView) -> Option<(Seq<char>, Seq<char>, Seq<char>)> {
    match text_field(v, "public_key"@) {
        Some(public_key) => match text_field(v, "private_key"@) {
            Some(private_key) => match text_field(v, "passphrase"@) {
                Some(passphrase) => Some((public_key, private_key, passphrase)),
                None => None,
            },
            None => None,
        },
        None => None,
    }
}

fn read_text_field(v: &JsonValue, key: &str) -> (r: Option<String>)
    ensures
        r.deep_view() == text_field(v@, key@),
{
    match v.get(key) {
        Some(x) => match x.as_str() {
            Some(s) => Some(s.clone()),
            None => None,
        },
        None => None,
    }
}

/// The key pair that a record holds; `None` where it is not an object with
/// the three fields as texts.
pub fn keypair_from_record(v: &JsonValue) -> (r: Option<SshKeypair>)
    ensures
        match r {
            Some(k) => keypair_of(v@) == Some(k@),
            None => keypair_of(v@) is None,
        },
{
    let public_key = read_text_field(v, "public_key")?;
    let private_key = read_text_field(v, "private_key")?;
    let passphrase = read_text_field(v, "passphrase")?;
    Some(SshKeypair { public_key, private_key, passphrase })
}

/// The key pair of a device from the answer to `ssh_keypair_request`:
/// the first record's key pair; `None` where the answer has no first record
/// or that record holds no key pair.
pub fn ssh_keypair_from_answer(data: &str) -> (r: Option<SshKeypair>)
    ensures
        match r {
            Some(k) => (first_record_of(data@) matches Some(v) && keypair_of(v) == Some(k@)),
            None => match first_record_of(data@) {
                Some(v) => keypair_of(v) is None,
                None => true,
            },
        },
{
    match first_record(data) {
        Some(v) => keypair_from_record(&v),
        None => None,
    }
}

/// Whether a device needs a new key pair: only where none was found.
pub fn needs_ssh_keypair(existing: &Option<SshKeypair>) -> (r: bool)
    ensures
        r == existing is None,
{
    existing.is_none()
}

/// The record of a key pair.
pub open spec fn keypair_record(k: (Seq<char>, Seq<char>, Seq<char>)) -> JsonView {
    JsonView::Object(
        seq![
            ("public_key"@, JsonView::String(k.0)),
            ("private_key"@, JsonView::String(k.1)),
            ("passphrase"@, JsonView::String(k.2)),
        ],
    )
}

impl SshKeypair {
    /// The record of the key pair, to be stored with `new_ssh_keypair_request`.
    pub fn record(&self) -> (r: JsonValue)
        ensures
            r@ == keypair_record(self@),
    {
        let entries = vec![
            text_entry("public_key", self.public_key.as_str()),
            text_entry("private_key", self.private_key.as_str()),
            text_entry("passphrase", self.passphrase.as_str()),
        ];
        proof {
            crate::json::lemma_entries_view(entries@);
        }
        let record = object_of(entries);
        assert(JsonValue::entries_view(entries@) =~= seq![
            ("public_key"@, JsonView::String(self.public_key@)),
            ("private_key"@, JsonView::String(self.private_key@)),
            ("passphrase"@, JsonView::String(self.passphrase@)),
        ]);
        record
    }
}

/// The request for whether the information of an IP address is stored.
pub fn ip_info_lookup_request(ip: &str) -> (r: GetByFilterRequest)
    ensures
        r@ == first_match_request_of("ip_info"@, "ip"@, ip@, seq!["id"@]),
{
    let pluck = vec![owned("id")];
    assert(pluck.deep_view() =~= seq!["id"@]);
    first_match_request("ip_info", "ip", ip, pluck)
}

/// Whether the answer to the lookup found the address.
pub fn is_ip_info_stored(response: &ResponseData) -> (r: bool)
    ensures
        r == (response.count > 0),
{
    response.count > 0
}

/// The information known of an IP address; each part may be missing.
pub struct IpInfo {
    pub country: Option<String>,
    pub asn: Option<String>,
    pub org: Option<String>,
    pub continent_code: Option<String>,
    pub city: Option<String>,
    pub region: Option<String>,
    pub postal: Option<String>,
    pub timezone: Option<String>,
}

/// A text that may be missing, as JSON: the text, or null.
pub open spec fn optional_text(o: Option<Seq<char>>) -> JsonView {
    match o {
        Some(s) => JsonView::String(s),
        None => JsonView::Null,
    }
}

fn optional_text_value(o: &Option<String>) -> (r: JsonValue)
    ensures
        r@ == optional_text(o.deep_view()),
{
    match o {
        Some(s) => JsonValue::String(s.clone()),
        None => JsonValue::Null,
    }
}

/// The record of the information of an IP address at a time.
pub open spec fn ip_info_record(timestamp: Seq<char>, ip: Seq<char>, info: IpInfo) -> JsonView {
    JsonView::Object(
        seq![
            ("timestamp"@, JsonView::String(timestamp)),
            ("ip"@, JsonView::String(ip)),
            ("country"@, optional_text(info.country.deep_view())),
            ("asn"@, optional_text(info.asn.deep_view())),
            ("org"@, optional_text(info.org.deep_view())),
            ("continent_code"@, optional_text(info.continent_code.deep_view())),
            ("city"@, optional_text(info.city.deep_view())),
            ("region"@, optional_text(info.region.deep_view())),
            ("postal"@, optional_text(info.postal.deep_view())),
            ("timezone"@, optional_text(info.timezone.deep_view())),
        ],
    )
}

pub open spec fn ip_info_request_of(timestamp: Seq<char>, ip: Seq<char>, info: IpInfo) -> CreateRequestView {
    create_request_of(
        "ip_info"@,
        "id"@,
        "soft"@,
        json_text(ip_info_record(timestamp, ip, info)),
        "IP"@,
    )
}

/// The request that stores the information of an IP address, at the given time.
pub fn ip_info_request_at(timestamp: &str, ip: &str, info: &IpInfo) -> (r: CreateRequest)
    ensures
        r@ == ip_info_request_of(timestamp@, ip@, *info),
{
    let entries = vec![
        text_entry("timestamp", timestamp),
        text_entry("ip", ip),
        entry("country", optional_text_value(&info.country)),
        entry("asn", optional_text_value(&info.asn)),
        entry("org", optional_text_value(&info.org)),
        entry("continent_code", optional_text_value(&info.continent_code)),
        entry("city", optional_text_value(&info.city)),
        entry("region", optional_text_value(&info.region)),
        entry("postal", optional_text_value(&info.postal)),
        entry("timezone", optional_text_value(&info.timezone)),
    ];
    proof {
        crate::json::lemma_entries_view(entries@);
    }
    let record = object_of(entries);
    assert(JsonValue::entries_view(entries@) =~= seq![
        ("timestamp"@, JsonView::String(timestamp@)),
        ("ip"@, JsonView::String(ip@)),
        ("country"@, optional_text(info.country.deep_view())),
        ("asn"@, optional_text(info.asn.deep_view())),
        ("org"@, optional_text(info.org.deep_view())),
        ("continent_code"@, optional_text(info.continent_code.deep_view())),
        ("city"@, optional_text(info.city.deep_view())),
        ("region"@, optional_text(info.region.deep_view())),
        ("postal"@, optional_text(info.postal.deep_view())),
        ("timezone"@, optional_text(info.timezone.deep_view())),
    ]);
    create("ip_info", "id", "soft", record.to_text(), "IP")
}

/// The request that stores the information of an IP address now; `None`
/// where the clock gives no time that can be written.
pub fn ip_info_request(ip: &str, info: &IpInfo) -> (r: Option<CreateRequest>)
    ensures
        r matches Some(req) ==> exists|timestamp: Seq<char>|
            is_rfc3339_utc(timestamp) && req@ == ip_info_request_of(timestamp, ip@, *info),
{
    let timestamp = now_rfc3339()?;
    let r = ip_info_request_at(timestamp.as_str(), ip, info);
    assert(is_rfc3339_utc(timestamp@) && r@ == ip_info_request_of(timestamp@, ip@, *info));
    Some(r)
}

/// The request that logs in with an account's id and secret.
pub open spec fn login_request_of(account_id: Seq<char>, account_secret: Seq<char>) -> LoginRequestView {
    LoginRequestView {
        body: Some(
            LoginBodyView { data: Some(LoginDataView { account_id, account_secret }) },
        ),
        params: None,
    }
}

pub fn login_request(account_id: String, account_secret: String) -> (r: LoginRequest)
    ensures
        r@ == login_request_of(account_id@, account_secret@),
{
    LoginRequest {
        body: Some(LoginBody { data: Some(LoginData { account_id, account_secret }) }),
        params: None,
    }
}

/// The request that stores the connections that a message of packets
/// held, given as the JSON text of the parsed message.
pub fn connections_request(records: String) -> (r: BatchCreateRequest)
    ensures
        r@ == batch_create_request_of("connections"@, Seq::empty(), "soft"@, records@, "PK"@),
{
    batch_create("connections", no_pluck(), "soft", records, "PK")
}

/// The request that stores packets, given as the JSON text of the parsed message.
pub fn packets_request(records: String) -> (r: BatchCreateRequest)
    ensures
        r@ == batch_create_request_of("packets"@, Seq::empty(), "soft"@, records@, "PK"@),
{
    batch_create("packets", no_pluck(), "soft", records, "PK")
}

/// How a list of entries is stored: not at all when it is empty, as one
/// record when it has one entry, as a batch otherwise.
#[derive(PartialEq, Eq, Structural, Clone, Copy, Debug)]
pub enum InsertKind {
    Nothing,
    Single,
    Batch,
}

pub open spec fn insert_kind_of(count: nat) -> InsertKind {
    if count == 0 {
        InsertKind::Nothing
    } else if count == 1 {
        InsertKind::Single
    } else {
        InsertKind::Batch
    }
}

pub fn insert_kind(count: usize) -> (r: InsertKind)
    ensures
        r == insert_kind_of(count as nat),
{
    if count == 0 {
        InsertKind::Nothing
    } else if count == 1 {
        InsertKind::Single
    } else {
        InsertKind::Batch
    }
}

/// The answer given, without asking the datastore, for an empty list.
pub fn empty_response() -> (r: ResponseData)
    ensures
        r@ == (ResponseDataView { count: 0, data: Seq::empty(), encoding: Seq::empty() }),
{
    ResponseData { count: 0, data: String::new(), encoding: String::new() }
}

/// The request that stores one log entry, given as its JSON text.
pub fn log_request(record: String) -> (r: CreateRequest)
    ensures
        r@ == create_request_of("wallguard_logs"@, "id"@, "soft"@, record@, "LO"@),
{
    create("wallguard_logs", "id", "soft", record, "LO")
}

/// The request that stores log entries, given as the JSON text of their list.
pub fn logs_batch_request(records: String) -> (r: BatchCreateRequest)
    ensures
        r@ == batch_create_request_of("wallguard_logs"@, Seq::empty(), "soft"@, records@, "LO"@),
{
    batch_create("wallguard_logs", no_pluck(), "soft", records, "LO")
}

/// The request that stores one system resource sample, given as its JSON text.
pub fn system_resource_request(record: String) -> (r: CreateRequest)
    ensures
        r@ == create_request_of("system_resources"@, "id"@, "soft"@, record@, "SR"@),
{
    create("system_resources", "id", "soft", record, "SR")
}

/// The request that stores system resource samples, given as the JSON text of their list.
pub fn system_resources_batch_request(records: String) -> (r: BatchCreateRequest)
    ensures
        r@ == batch_create_request_of("system_resources"@, Seq::empty(), "soft"@, records@, "SR"@),
{
    batch_create("system_resources", no_pluck(), "soft", records, "SR")
}

/// A new remote session is recorded for the device it was opened on: the
/// stored record reads back the device id, the type and the session that
/// were given, with the status `active`, in the table of remote sessions.
pub proof fn law_new_remote_session_records_its_device(
    device_id: Seq<char>,
    access_type: Seq<char>,
    session: Seq<char>,
)
    ensures
        ({
            let req = new_remote_session_request_of(device_id, access_type, session);
            &&& req.params == Some(CreateParamsView { table: "device_remote_access_sessions"@ })
            &&& exists|v: JsonView|
                #![trigger json_text(v)]
                req.body matches Some(b) && b.record == json_text(v) && json_get(v, "device_id"@)
                    == Some(JsonView::String(device_id)) && json_get(v, "remote_access_type"@)
                    == Some(JsonView::String(access_type)) && json_get(
                    v,
                    "remote_access_session"@,
                ) == Some(JsonView::String(session)) && json_get(v, "remote_access_status"@)
                    == Some(JsonView::String("active"@))
        }),
{
    let v = remote_session_record(device_id, access_type, session);
    let e = match v {
        JsonView::Object(e) => e,
        _ => Seq::empty(),
    };
    reveal_strlit("device_id");
    reveal_strlit("remote_access_type");
    reveal_strlit("remote_access_session");
    reveal_strlit("remote_access_status");
    reveal_strlit("categories");
    assert(unique_keys(e)) by {
        assert forall|a: int, b: int| 0 <= a < b < e.len() implies #[trigger] e[a].0
            != #[trigger] e[b].0 by {
            assert(e[a].0.len() != e[b].0.len());
        }
    }
    lemma_object_field(e, 0);
    lemma_object_field(e, 1);
    lemma_object_field(e, 2);
    lemma_object_field(e, 3);
}

/// Setting up a device updates that device's own record in `devices`, and
/// the update reads back the version, system id and address given, marks
/// the connection established and the status `Active`.
pub proof fn law_device_setup_updates_that_device(
    device_id: Seq<char>,
    version: Seq<char>,
    uuid: Seq<char>,
    address: Seq<char>,
)
    ensures
        ({
            let req = device_setup_request_of(device_id, version, uuid, address);
            &&& req.params matches Some(p) && p.id == device_id && p.table == "devices"@
            &&& exists|v: JsonView|
                #![trigger json_text(v)]
                req.body == json_text(v) && json_get(v, "device_version"@) == Some(
                    JsonView::String(version),
                ) && json_get(v, "system_id"@) == Some(JsonView::String(uuid)) && json_get(
                    v,
                    "ip_address"@,
                ) == Some(JsonView::String(address)) && json_get(v, "is_connection_established"@)
                    == Some(JsonView::Bool(true)) && json_get(v, "status"@) == Some(
                    JsonView::String("Active"@),
                )
        }),
{
    let v = device_setup_record(version, uuid, address);
    let e = match v {
        JsonView::Object(e) => e,
        _ => Seq::empty(),
    };
    reveal_strlit("device_version");
    reveal_strlit("system_id");
    reveal_strlit("ip_address");
    reveal_strlit("is_connection_established");
    reveal_strlit("status");
    assert(unique_keys(e)) by {
        assert forall|a: int, b: int| 0 <= a < b < e.len() implies #[trigger] e[a].0
            != #[trigger] e[b].0 by {
            if e[a].0.len() == e[b].0.len() {
                assert(e[a].0[0] != e[b].0[0]);
            }
        }
    }
    lemma_object_field(e, 0);
    lemma_object_field(e, 1);
    lemma_object_field(e, 2);
    lemma_object_field(e, 3);
    lemma_object_field(e, 4);
}

/// A login sends the account id and the secret it was given, each in its
/// own place.
pub proof fn law_login_sends_its_credentials(account_id: Seq<char>, account_secret: Seq<char>)
    ensures
        login_request_of(account_id, account_secret).body matches Some(b) && b.data matches Some(
            d,
        ) && d.account_id == account_id && d.account_secret == account_secret,
{
}

/// The stored information of an IP address reads back, field by field, the
/// part of the information of the same name, with the time and address.
pub proof fn law_ip_info_record_keeps_each_part(timestamp: Seq<char>, ip: Seq<char>, info: IpInfo)
    ensures
        ({
            let req = ip_info_request_of(timestamp, ip, info);
            &&& req.params == Some(CreateParamsView { table: "ip_info"@ })
            &&& exists|v: JsonView|
                #![trigger json_text(v)]
                req.body matches Some(b) && b.record == json_text(v)
                    && json_get(v, "timestamp"@) == Some(JsonView::String(timestamp))
                    && json_get(v, "ip"@) == Some(JsonView::String(ip))
                    && json_get(v, "country"@) == Some(optional_text(info.country.deep_view()))
                    && json_get(v, "asn"@) == Some(optional_text(info.asn.deep_view()))
                    && json_get(v, "org"@) == Some(optional_text(info.org.deep_view()))
                    && json_get(v, "continent_code"@) == Some(
                    optional_text(info.continent_code.deep_view()),
                ) && json_get(v, "city"@) == Some(optional_text(info.city.deep_view()))
                    && json_get(v, "region"@) == Some(optional_text(info.region.deep_view()))
                    && json_get(v, "postal"@) == Some(optional_text(info.postal.deep_view()))
                    && json_get(v, "timezone"@) == Some(optional_text(info.timezone.deep_view()))
        }),
{
    let v = ip_info_record(timestamp, ip, info);
    let e = match v {
        JsonView::Object(e) => e,
        _ => Seq::empty(),
    };
    reveal_strlit("timestamp");
    reveal_strlit("ip");
    reveal_strlit("country");
    reveal_strlit("asn");
    reveal_strlit("org");
    reveal_strlit("continent_code");
    reveal_strlit("city");
    reveal_strlit("region");
    reveal_strlit("postal");
    reveal_strlit("timezone");
    assert(unique_keys(e)) by {
        assert forall|a: int, b: int| 0 <= a < b < e.len() implies #[trigger] e[a].0
            != #[trigger] e[b].0 by {
            if e[a].0.len() == e[b].0.len() {
                assert(e[a].0[0] != e[b].0[0]);
            }
        }
    }
    lemma_object_field(e, 0);
    lemma_object_field(e, 1);
    lemma_object_field(e, 2);
    lemma_object_field(e, 3);
    lemma_object_field(e, 4);
    lemma_object_field(e, 5);
    lemma_object_field(e, 6);
    lemma_object_field(e, 7);
    lemma_object_field(e, 8);
    lemma_object_field(e, 9);
}

} // verus!
