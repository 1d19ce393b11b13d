//! Uploading a device's configuration.
//!
//! The upload first asks for the device's latest configuration. Where its
//! digest equals that of the new one, the existing record gets the next
//! version and its rules and aliases get the new status; otherwise a new
//! configuration record is created and its rules, aliases and interfaces are
//! inserted with it. The functions here make each request and take each
//! decision; the caller sends the requests.
use crate::digest::{digest, md5_hex};
use crate::json::{is_object_or_null, json_int, json_text, JsonValue, JsonView};
use crate::records::{
    decorate_records, decorated, entry, object_of, single_value_list, single_value_list_string,
    text_entry,
};
use crate::requests::{
    entries_to_map, AdvanceFilter, AdvanceFilterView, BatchCreateBody, BatchCreateBodyView,
    BatchCreateRequest, BatchCreateRequestView, BatchUpdateBody, BatchUpdateBodyView,
    BatchUpdateRequest, BatchUpdateRequestView, CreateBody, CreateBodyView, CreateParams,
    CreateParamsView, CreateRequest, CreateRequestView, GetByFilterBody, GetByFilterBodyView,
    GetByFilterRequest, GetByFilterRequestView, JoinView, MultipleSortView, Params, ParamsView,
    Query, QueryView, UpdateRequest, UpdateRequestView,
};
use crate::responses::{LatestConfigInfo, LatestConfigInfoView};
use crate::status::{config_status_text, convert_status, ConfigStatus};
use crate::text::owned;
use vstd::prelude::*;

verus! {

/// A configuration as the device sent it; its rules, aliases and interfaces
/// are JSON records.
pub struct ClientConfiguration {
    pub raw_content: String,
    pub hostname: String,
    pub rules: Vec<JsonValue>,
    pub aliases: Vec<JsonValue>,
    pub interfaces: Vec<JsonValue>,
}

/// Whether every record of a list may get fields: each is an object or null.
pub open spec fn all_objects(records: Seq<JsonValue>) -> bool {
    forall|i: int| 0 <= i < records.len() ==> is_object_or_null(#[trigger] records[i]@)
}

/// The filter that selects the records whose `field` equals `value`.
pub open spec fn equal_filter(field: Seq<char>, value: Seq<char>, entity: Seq<char>) -> AdvanceFilterView {
    AdvanceFilterView {
        type_: "criteria"@,
        field,
        operator: "equal"@,
        entity,
        values: single_value_list(value),
    }
}

pub fn equal_filter_value(field: &str, value: &str, entity: &str) -> (r: AdvanceFilter)
    ensures
        r@ == equal_filter(field@, value@, entity@),
{
    AdvanceFilter {
        type_: owned("criteria"),
        field: owned(field),
        operator: owned("equal"),
        entity: owned(entity),
        values: single_value_list_string(value),
    }
}

/// The request for the latest configuration of a device: its id, digest
/// and version, newest first, one record.
pub open spec fn latest_config_info_request_of(device_id: Seq<char>) -> GetByFilterRequestView {
    GetByFilterRequestView {
        body: Some(
            GetByFilterBodyView {
                pluck: seq!["id"@, "digest"@, "config_version"@],
                advance_filters: seq![
                    equal_filter("device_id"@, device_id, "device_configurations"@),
                ],
                order_by: "timestamp"@,
                limit: 1,
                offset: 0,
                order_direction: "desc"@,
                joins: Seq::empty(),
                multiple_sort: Seq::empty(),
                pluck_object: Map::empty(),
                date_format: Seq::empty(),
            },
        ),
        params: Some(
            ParamsView { id: Seq::empty(), table: "device_configurations"@, type_: Seq::empty() },
        ),
    }
}

pub fn latest_config_info_request(device_id: &str) -> (r: GetByFilterRequest)
    ensures
        r@ == latest_config_info_request_of(device_id@),
{
    let pluck = vec![owned("id"), owned("digest"), owned("config_version")];
    let filters = vec![equal_filter_value("device_id", device_id, "device_configurations")];
    let r = GetByFilterRequest {
        body: Some(
            GetByFilterBody {
                pluck,
                advance_filters: filters,
                order_by: owned("timestamp"),
                limit: 1,
                offset: 0,
                order_direction: owned("desc"),
                joins: Vec::new(),
                multiple_sort: Vec::new(),
                pluck_object: Vec::new(),
                date_format: String::new(),
            },
        ),
        params: Some(
            Params { id: String::new(), table: owned("device_configurations"), type_: String::new() },
        ),
    };
    proof {
        let b = r.body->0;
        assert(b.pluck.deep_view() =~= seq!["id"@, "digest"@, "config_version"@]);
        assert(b.advance_filters.deep_view() =~= seq![
            equal_filter("device_id"@, device_id@, "device_configurations"@),
        ]);
        assert(b.joins.deep_view() =~= Seq::<JoinView>::empty());
        assert(b.multiple_sort.deep_view() =~= Seq::<MultipleSortView>::empty());
        assert(b.pluck_object.deep_view() =~= Seq::<(Seq<char>, Seq<char>)>::empty());
        assert(entries_to_map(b.pluck_object.deep_view()) =~= Map::empty());
    }
    r
}

/// The record of a new configuration.
pub open spec fn configuration_record(
    device_id: Seq<char>,
    raw_content: Seq<char>,
    digest: Seq<char>,
    hostname: Seq<char>,
) -> JsonView {
    JsonView::Object(
        seq![
            ("device_id"@, JsonView::String(device_id)),
            ("raw_content"@, JsonView::String(raw_content)),
            ("digest"@, JsonView::String(digest)),
            ("hostname"@, JsonView::String(hostname)),
            ("config_version"@, json_int(1)),
        ],
    )
}

/// The request that creates the record of a new configuration, at version 1.
pub open spec fn create_configuration_request_of(
    device_id: Seq<char>,
    raw_content: Seq<char>,
    digest: Seq<char>,
    hostname: Seq<char>,
) -> CreateRequestView {
    CreateRequestView {
        params: Some(CreateParamsView { table: "device_configurations"@ }),
        query: Some(QueryView { pluck: "id"@, durability: "hard"@ }),
        body: Some(
            CreateBodyView {
                record: json_text(configuration_record(device_id, raw_content, digest, hostname)),
                entity_prefix: "CFG"@,
            },
        ),
    }
}

/// The request that creates the record of a new configuration, with the
/// digest of its raw content.
pub fn create_configuration_request(device_id: &str, config: &ClientConfiguration) -> (r:
    CreateRequest)
    ensures
        r@ == create_configuration_request_of(
            device_id@,
            config.raw_content@,
            md5_hex(config.raw_content@),
            config.hostname@,
        ),
{
    let digest_text = digest(config.raw_content.as_str());
    let digest = digest_text.as_str();
    let entries = vec![
        text_entry("device_id", device_id),
        text_entry("raw_content", config.raw_content.as_str()),
        text_entry("digest", digest),
        text_entry("hostname", config.hostname.as_str()),
        entry("config_version", JsonValue::integer(1)),
    ];
    proof {
        crate::json::lemma_entries_view(entries@);
    }
    let record = object_of(entries);
    assert(record@ == configuration_record(
        device_id@,
        config.raw_content@,
        digest@,
        config.hostname@,
    )) by {
        assert(JsonValue::entries_view(entries@) =~= seq![
            ("device_id"@, JsonView::String(device_id@)),
            ("raw_content"@, JsonView::String(config.raw_content@)),
            ("digest"@, JsonView::String(digest@)),
            ("hostname"@, JsonView::String(config.hostname@)),
            ("config_version"@, json_int(1)),
        ]);
    }
    CreateRequest {
        params: Some(CreateParams { table: owned("device_configurations") }),
        query: Some(Query { pluck: owned("id"), durability: owned("hard") }),
        body: Some(CreateBody { record: record.to_text(), entity_prefix: owned("CFG") }),
    }
}

/// The records of a list, each with its configuration's id and status.
pub open spec fn decorated_all(
    records: Seq<JsonValue>,
    config_id: Seq<char>,
    status_field: Seq<char>,
    status: Option<Seq<char>>,
) -> Seq<JsonView> {
    Seq::new(records.len(), |i: int| decorated(records[i]@, config_id, status_field, status))
}

/// The request that inserts records related to a configuration into `table`.
pub open spec fn related_records_request_of(
    table: Seq<char>,
    entity_prefix: Seq<char>,
    records: Seq<JsonValue>,
    config_id: Seq<char>,
    status_field: Seq<char>,
    status: Option<Seq<char>>,
) -> BatchCreateRequestView {
    BatchCreateRequestView {
        params: Some(CreateParamsView { table }),
        query: Some(QueryView { pluck: Seq::empty(), durability: "hard"@ }),
        body: Some(
            BatchCreateBodyView {
                records: json_text(
                    JsonView::Array(decorated_all(records, config_id, status_field, status)),
                ),
                entity_prefix,
            },
        ),
    }
}

/// The request that inserts the records related to a configuration: each
/// gets the configuration's id and, where there is one, the status. There is
/// no request where there are no records.
pub fn related_records_request(
    table: &str,
    entity_prefix: &str,
    records: Vec<JsonValue>,
    config_id: &str,
    status_field: &str,
    status: Option<&str>,
) -> (r: Option<BatchCreateRequest>)
    requires
        all_objects(records@),
    ensures
        r is None <==> records.len() == 0,
        r matches Some(req) ==> req@ == related_records_request_of(
            table@,
            entity_prefix@,
            records@,
            config_id@,
            status_field@,
            match status {
                Some(s) => Some(s@),
                None => None,
            },
        ),
{
    if records.len() == 0 {
        return None;
    }
    let ghost given = records@;
    let mut records = records;
    decorate_records(&mut records, config_id, status_field, status);
    assert forall|i: int| 0 <= i < records.len() implies #[trigger] records.deep_view()[i]
        == decorated(
        given[i]@,
        config_id@,
        status_field@,
        match status {
            Some(s) => Some(s@),
            None => None,
        },
    ) by {
        assert(records@[i]@ == records.deep_view()[i]);
    }
    assert(records.deep_view() =~= decorated_all(
        given,
        config_id@,
        status_field@,
        match status {
            Some(s) => Some(s@),
            None => None,
        },
    ));
    let array = JsonValue::array(records);
    Some(
        BatchCreateRequest {
            params: Some(CreateParams { table: owned(table) }),
            query: Some(Query { pluck: String::new(), durability: owned("hard") }),
            body: Some(
                BatchCreateBody { records: array.to_text(), entity_prefix: owned(entity_prefix) },
            ),
        },
    )
}

/// The request that gives an existing configuration a new version.
pub open spec fn update_configuration_version_request_of(
    config_id: Seq<char>,
    new_version: i64,
) -> UpdateRequestView {
    UpdateRequestView {
        params: Some(
            ParamsView { id: config_id, table: "device_configurations"@, type_: Seq::empty() },
        ),
        query: Some(QueryView { pluck: Seq::empty(), durability: "hard"@ }),
        body: json_text(JsonView::Object(seq![("config_version"@, json_int(new_version))])),
    }
}

pub fn update_configuration_version_request(config_id: &str, new_version: i64) -> (r: UpdateRequest)
    ensures
        r@ == update_configuration_version_request_of(config_id@, new_version),
{
    let entries = vec![entry("config_version", JsonValue::integer(new_version))];
    proof {
        crate::json::lemma_entries_view(entries@);
    }
    let body = object_of(entries);
    assert(JsonValue::entries_view(entries@) =~= seq![
        ("config_version"@, json_int(new_version)),
    ]);
    UpdateRequest {
        params: Some(
            Params {
                id: owned(config_id),
                table: owned("device_configurations"),
                type_: String::new(),
            },
        ),
        query: Some(Query { pluck: String::new(), durability: owned("hard") }),
        body: body.to_text(),
    }
}

/// The request that sets the status of every record of `table` that belongs
/// to the configuration.
pub open spec fn update_related_records_request_of(
    config_id: Seq<char>,
    table: Seq<char>,
    status_field: Seq<char>,
    status: Seq<char>,
) -> BatchUpdateRequestView {
    BatchUpdateRequestView {
        params: Some(ParamsView { id: Seq::empty(), table, type_: Seq::empty() }),
        body: Some(
            BatchUpdateBodyView {
                advance_filters: seq![equal_filter("device_configuration_id"@, config_id, table)],
                updates: json_text(JsonView::Object(seq![(status_field, JsonView::String(status))])),
            },
        ),
    }
}

pub fn update_related_records_request(
    config_id: &str,
    table: &str,
    status_field: &str,
    status: &str,
) -> (r: BatchUpdateRequest)
    ensures
        r@ == update_related_records_request_of(config_id@, table@, status_field@, status@),
{
    let entries = vec![text_entry(status_field, status)];
    proof {
        crate::json::lemma_entries_view(entries@);
    }
    let updates = object_of(entries);
    assert(JsonValue::entries_view(entries@) =~= seq![(status_field@, JsonView::String(status@))]);
    let filters = vec![equal_filter_value("device_configuration_id", config_id, table)];
    assert(filters.deep_view() =~= seq![
        equal_filter("device_configuration_id"@, config_id@, table@),
    ]);
    BatchUpdateRequest {
        params: Some(Params { id: String::new(), table: owned(table), type_: String::new() }),
        body: Some(BatchUpdateBody { advance_filters: filters, updates: updates.to_text() }),
    }
}

/// How an upload proceeds once the latest configuration is known.
pub enum UploadPath {
    /// Create a new configuration record.
    InsertNew,
    /// Keep the existing record, with the next version.
    RefreshExisting { config_id: String, new_version: i64 },
}

/// Whether an upload keeps the latest configuration: only where there is
/// one and its digest equals the new digest.
pub open spec fn keeps_latest(latest: Option<LatestConfigInfoView>, new_digest: Seq<char>) -> bool {
    latest matches Some(info) && info.digest == new_digest
}

/// Chooses the path of an upload. The latest configuration is `None` where
/// none could be fetched or read.
pub fn choose_upload_path(latest: Option<LatestConfigInfo>, new_digest: &str) -> (r: UploadPath)
    requires
        latest matches Some(info) ==> info.digest@ == new_digest@ ==> info.version < i64::MAX,
    ensures
        keeps_latest(latest.deep_view(), new_digest@) ==> (r matches UploadPath::RefreshExisting {
            config_id,
            new_version,
        } && config_id@ == latest->0.id@ && new_version == latest->0.version + 1),
        !keeps_latest(latest.deep_view(), new_digest@) ==> r is InsertNew,
{
    match latest {
        None => UploadPath::InsertNew,
        Some(info) => {
            if crate::json::string_eq_str(&info.digest, new_digest) {
                UploadPath::RefreshExisting { config_id: info.id, new_version: info.version + 1 }
            } else {
                UploadPath::InsertNew
            }
        },
    }
}

/// Plans the upload of a configuration: its digest is computed and compared
/// with that of the latest configuration. `None` where the latest
/// configuration would be kept but its version cannot grow.
pub fn plan_upload(latest: Option<LatestConfigInfo>, config: &ClientConfiguration) -> (r: Option<
    UploadPath,
>)
    ensures
        keeps_latest(latest.deep_view(), md5_hex(config.raw_content@)) ==> if latest->0.version
            < i64::MAX {
            r matches Some(UploadPath::RefreshExisting { config_id, new_version }) && config_id@
                == latest->0.id@ && new_version == latest->0.version + 1
        } else {
            r is None
        },
        !keeps_latest(latest.deep_view(), md5_hex(config.raw_content@)) ==> (r matches Some(p)
            && p is InsertNew),
{
    let new_digest = digest(config.raw_content.as_str());
    let fits = match &latest {
        Some(info) => info.version < i64::MAX,
        None => true,
    };
    if !fits {
        let same = match &latest {
            Some(info) => crate::json::string_eq_str(&info.digest, new_digest.as_str()),
            None => false,
        };
        if same {
            return None;
        }
        return Some(UploadPath::InsertNew);
    }
    Some(choose_upload_path(latest, new_digest.as_str()))
}

/// The requests of an upload that keeps the existing configuration: its
/// new version, then the status of its aliases, then that of its rules.
pub fn refresh_requests(config_id: &str, new_version: i64, status: ConfigStatus) -> (r: (
    UpdateRequest,
    BatchUpdateRequest,
    BatchUpdateRequest,
))
    ensures
        r.0@ == update_configuration_version_request_of(config_id@, new_version),
        r.1@ == update_related_records_request_of(
            config_id@,
            "device_aliases"@,
            "device_alias_status"@,
            config_status_text(status),
        ),
        r.2@ == update_related_records_request_of(
            config_id@,
            "device_rules"@,
            "device_rule_status"@,
            config_status_text(status),
        ),
{
    let status_text = convert_status(status);
    (
        update_configuration_version_request(config_id, new_version),
        update_related_records_request(
            config_id,
            "device_aliases",
            "device_alias_status",
            status_text.as_str(),
        ),
        update_related_records_request(
            config_id,
            "device_rules",
            "device_rule_status",
            status_text.as_str(),
        ),
    )
}

/// The requests that insert what belongs to a new configuration: its rules
/// and aliases with the status, and its interfaces; each is `None` where
/// there is nothing to insert.
pub fn insert_related_requests(
    config_id: &str,
    config: ClientConfiguration,
    status: ConfigStatus,
) -> (r: (Option<BatchCreateRequest>, Option<BatchCreateRequest>, Option<BatchCreateRequest>))
    requires
        all_objects(config.rules@),
        all_objects(config.aliases@),
        all_objects(config.interfaces@),
    ensures
        r.0 is None <==> config.rules.len() == 0,
        r.0 matches Some(req) ==> req@ == related_records_request_of(
            "device_rules"@,
            "RL"@,
            config.rules@,
            config_id@,
            "device_rule_status"@,
            Some(config_status_text(status)),
        ),
        r.1 is None <==> config.aliases.len() == 0,
        r.1 matches Some(req) ==> req@ == related_records_request_of(
            "device_aliases"@,
            "AL"@,
            config.aliases@,
            config_id@,
            "device_alias_status"@,
            Some(config_status_text(status)),
        ),
        r.2 is None <==> config.interfaces.len() == 0,
        r.2 matches Some(req) ==> req@ == related_records_request_of(
            "device_interfaces"@,
            "IF"@,
            config.interfaces@,
            config_id@,
            Seq::empty(),
            None,
        ),
{
    let status_text = convert_status(status);
    let rules = related_records_request(
        "device_rules",
        "RL",
        config.rules,
        config_id,
        "device_rule_status",
        Some(status_text.as_str()),
    );
    let aliases = related_records_request(
        "device_aliases",
        "AL",
        config.aliases,
        config_id,
        "device_alias_status",
        Some(status_text.as_str()),
    );
    proof {
        reveal_strlit("");
        assert(""@ =~= Seq::<char>::empty());
    }
    let interfaces = related_records_request(
        "device_interfaces",
        "IF",
        config.interfaces,
        config_id,
        "",
        None,
    );
    (rules, aliases, interfaces)
}

} // verus!
