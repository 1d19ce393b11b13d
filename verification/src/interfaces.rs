//! The network interfaces of a configuration and their addresses.
//!
//! The interfaces are inserted first; the datastore answers with the id it
//! gave each interface's device, and the addresses are then inserted with
//! the id of their interface.
use crate::json::{
    json_get, json_items, json_parse, json_str, json_text, lemma_object_field, unique_keys, JsonValue,
    JsonView,
};
use crate::records::{entry, object_of, text_entry};
use crate::requests::{
    entries_to_map, BatchCreateBody, BatchCreateBodyView, BatchCreateRequest,
    BatchCreateRequestView, CreateParams, CreateParamsView, Query, QueryView, ResponseData,
};
use crate::text::owned;
use vstd::prelude::*;

verus! {

/// The ids that the datastore gave to interfaces, by device: a later record
/// for a device replaces an earlier one.
pub struct InterfaceInsertionResult {
    map: Vec<(String, String)>,
}

impl View for InterfaceInsertionResult {
    type V = Map<Seq<char>, Seq<char>>;

    closed spec fn view(&self) -> Map<Seq<char>, Seq<char>> {
        entries_to_map(self.map.deep_view())
    }
}

/// The device and id of a record that has both as texts.
pub open spec fn interface_pair(item: JsonView) -> Option<(Seq<char>, Seq<char>)> {
    match json_get(item, "id"@) {
        Some(id_value) => match json_str(id_value) {
            Some(id) => match json_get(item, "device"@) {
                Some(device_value) => match json_str(device_value) {
                    Some(device) => Some((device, id)),
                    None => None,
                },
                None => None,
            },
            None => None,
        },
        None => None,
    }
}

/// The device and id of each record that has both, in order.
pub open spec fn interface_pairs(items: Seq<JsonView>) -> Seq<(Seq<char>, Seq<char>)>
    decreases items.len(),
{
    if items.len() == 0 {
        Seq::empty()
    } else {
        let rest = interface_pairs(items.drop_last());
        match interface_pair(items.last()) {
            Some(p) => rest.push(p),
            None => rest,
        }
    }
}

/// The ids by device that an answer holds; none where it is not an array.
pub open spec fn interface_ids_of(v: JsonView) -> Map<Seq<char>, Seq<char>> {
    match json_items(v) {
        Some(items) => entries_to_map(interface_pairs(items)),
        None => Map::empty(),
    }
}

/// The entry of a map given by its entries is the last one for the key.
proof fn lemma_entries_to_map_last(s: Seq<(Seq<char>, Seq<char>)>, k: Seq<char>, i: int)
    requires
        0 <= i < s.len(),
        s[i].0 == k,
        forall|j: int| i < j < s.len() ==> #[trigger] s[j].0 != k,
    ensures
        entries_to_map(s).contains_key(k),
        entries_to_map(s)[k] == s[i].1,
    decreases s.len(),
{
    if i < s.len() - 1 {
        lemma_entries_to_map_last(s.drop_last(), k, i);
    }
}

/// A key that no entry has is not in the map.
proof fn lemma_entries_to_map_absent(s: Seq<(Seq<char>, Seq<char>)>, k: Seq<char>)
    requires
        forall|j: int| 0 <= j < s.len() ==> #[trigger] s[j].0 != k,
    ensures
        !entries_to_map(s).contains_key(k),
    decreases s.len(),
{
    if s.len() > 0 {
        lemma_entries_to_map_absent(s.drop_last(), k);
    }
}

/// Whether a record names the device, with a text id.
pub open spec fn names_device(item: JsonView, device: Seq<char>) -> bool {
    interface_pair(item) matches Some(p) && p.0 == device
}

/// The ids read from an answer that lists records: a device has an id
/// exactly where some record names it with a text id, and its id is that of
/// the last such record.
pub proof fn law_interface_id_is_the_last(items: Seq<JsonView>, device: Seq<char>)
    ensures
        interface_ids_of(JsonView::Array(items)).contains_key(device) <==> exists|i: int|
            0 <= i < items.len() && #[trigger] names_device(items[i], device),
        forall|i: int|
            0 <= i < items.len() && #[trigger] names_device(items[i], device) && (forall|j: int|
                i < j < items.len() ==> !names_device(items[j], device)) ==> interface_ids_of(
                JsonView::Array(items),
            )[device] == interface_pair(items[i]).unwrap().1,
    decreases items.len(),
{
    if items.len() > 0 {
        let init = items.drop_last();
        let last = items.len() - 1;
        law_interface_id_is_the_last(init, device);
        let before = entries_to_map(interface_pairs(init));
        let after = interface_ids_of(JsonView::Array(items));
        assert(interface_ids_of(JsonView::Array(init)) == before);
        assert(items.last() == items[last]);
        match interface_pair(items[last]) {
            Some(p) => {
                assert(interface_pairs(items) == interface_pairs(init).push(p));
                assert(interface_pairs(init).push(p).drop_last() =~= interface_pairs(init));
                assert(after == before.insert(p.0, p.1));
            },
            None => {
                assert(interface_pairs(items) == interface_pairs(init));
                assert(after == before);
            },
        }
        assert forall|i: int| 0 <= i < init.len() implies init[i] == items[i] by {}
        if names_device(items[last], device) {
            assert forall|i: int|
                0 <= i < items.len() && #[trigger] names_device(items[i], device) && (forall|j: int|
                    i < j < items.len() ==> !names_device(items[j], device)) implies interface_ids_of(
                JsonView::Array(items),
            )[device] == interface_pair(items[i]).unwrap().1 by {
                if i < last {
                    assert(!names_device(items[last], device));
                }
            }
        } else {
            if exists|i: int| 0 <= i < items.len() && #[trigger] names_device(items[i], device) {
                let i = choose|i: int| 0 <= i < items.len() && #[trigger] names_device(items[i], device);
                assert(i < last);
                assert(names_device(init[i], device));
            }
            if exists|i: int| 0 <= i < init.len() && #[trigger] names_device(init[i], device) {
                let i = choose|i: int| 0 <= i < init.len() && #[trigger] names_device(init[i], device);
                assert(names_device(items[i], device));
            }
            assert forall|i: int|
                0 <= i < items.len() && #[trigger] names_device(items[i], device) && (forall|j: int|
                    i < j < items.len() ==> !names_device(items[j], device)) implies interface_ids_of(
                JsonView::Array(items),
            )[device] == interface_pair(items[i]).unwrap().1 by {
                assert(i < last);
                assert(names_device(init[i], device));
                assert forall|j: int| i < j < init.len() implies !names_device(init[j], device) by {
                    assert(init[j] == items[j]);
                }
            }
        }
    }
}

impl InterfaceInsertionResult {
    /// Reads the ids from the answer to the insertion of interfaces.
    pub fn from_json(value: &JsonValue) -> (r: InterfaceInsertionResult)
        ensures
            r@ == interface_ids_of(value@),
    {
        let mut map: Vec<(String, String)> = Vec::new();
        match value.as_array() {
            Some(items) => {
                let ghost views = items.deep_view();
                let mut i: usize = 0;
                while i < items.len()
                    invariant
                        i <= items.len(),
                        views == items.deep_view(),
                        map.deep_view() == interface_pairs(views.take(i as int)),
                    decreases items.len() - i,
                {
                    assert(views.take(i + 1).drop_last() =~= views.take(i as int));
                    assert(views.take(i + 1).last() == items@[i as int]@);
                    let item = &items[i];
                    let id = match item.get("id") {
                        Some(v) => v.as_str(),
                        None => None,
                    };
                    let device = match item.get("device") {
                        Some(v) => v.as_str(),
                        None => None,
                    };
                    match (id, device) {
                        (Some(id), Some(device)) => {
                            let ghost before = map.deep_view();
                            map.push((device.clone(), id.clone()));
                            assert(map.deep_view() =~= before.push((device@, id@)));
                        },
                        _ => {},
                    }
                    i = i + 1;
                }
                assert(views.take(items.len() as int) =~= views);
            },
            None => {
                assert(map.deep_view() =~= Seq::<(Seq<char>, Seq<char>)>::empty());
            },
        }
        InterfaceInsertionResult { map }
    }

    /// Reads the ids from the data of the answer, which must be JSON text.
    pub fn from_response_data(data: ResponseData) -> (r: InterfaceInsertionResult)
        requires
            json_parse(data.data@) is Some,
        ensures
            r@ == interface_ids_of(json_parse(data.data@)->0),
    {
        match JsonValue::parse(data.data.as_str()) {
            Some(v) => Self::from_json(&v),
            None => InterfaceInsertionResult { map: Vec::new() },
        }
    }

    /// Reads the ids from the data of the answer; `None` where it is not JSON text.
    pub fn try_from_response_data(data: ResponseData) -> (r: Option<InterfaceInsertionResult>)
        ensures
            match json_parse(data.data@) {
                Some(v) => r matches Some(result) && result@ == interface_ids_of(v),
                None => r is None,
            },
    {
        if JsonValue::parse(data.data.as_str()).is_some() {
            Some(Self::from_response_data(data))
        } else {
            None
        }
    }

    /// The id given to the interface of a device.
    pub fn get_id_by_device(&self, device: &str) -> (r: Option<&String>)
        ensures
            match r {
                Some(id) => self@.contains_key(device@) && self@[device@] == id@,
                None => !self@.contains_key(device@),
            },
    {
        let ghost s = self.map.deep_view();
        let mut i: usize = self.map.len();
        while i > 0
            invariant
                i <= self.map.len(),
                s == self.map.deep_view(),
                forall|j: int| i <= j < s.len() ==> #[trigger] s[j].0 != device@,
            decreases i,
        {
            i = i - 1;
            if crate::json::string_eq_str(&self.map[i].0, device) {
                proof {
                    lemma_entries_to_map_last(s, device@, i as int);
                }
                return Some(&self.map[i].1);
            }
        }
        proof {
            lemma_entries_to_map_absent(s, device@);
        }
        None
    }
}

/// An address of a network interface; its version is kept as JSON.
pub struct InterfaceAddress {
    pub address: String,
    pub version: JsonValue,
}

/// A network interface of a configuration.
pub struct NetworkInterface {
    pub name: String,
    pub device: String,
    pub addresses: Vec<InterfaceAddress>,
}

/// The record of an interface of a configuration.
pub open spec fn interface_record(config_id: Seq<char>, iface: NetworkInterface) -> JsonView {
    JsonView::Object(
        seq![
            ("device_configuration_id"@, JsonView::String(config_id)),
            ("name"@, JsonView::String(iface.name@)),
            ("device"@, JsonView::String(iface.device@)),
        ],
    )
}

/// The records of the interfaces, in order.
pub open spec fn interface_records_of(config_id: Seq<char>, ifaces: Seq<NetworkInterface>) -> Seq<JsonView> {
    Seq::new(ifaces.len(), |i: int| interface_record(config_id, ifaces[i]))
}

/// The request that inserts the interfaces of a configuration and asks for
/// the id and device of each.
pub open spec fn interfaces_request_of(config_id: Seq<char>, ifaces: Seq<NetworkInterface>) -> BatchCreateRequestView {
    BatchCreateRequestView {
        params: Some(CreateParamsView { table: "device_interfaces"@ }),
        query: Some(QueryView { pluck: "id,device"@, durability: "hard"@ }),
        body: Some(
            BatchCreateBodyView {
                records: json_text(JsonView::Array(interface_records_of(config_id, ifaces))),
                entity_prefix: "IF"@,
            },
        ),
    }
}

/// The request that inserts the interfaces; none where there are none.
pub fn interfaces_request(interfaces: &Vec<NetworkInterface>, config_id: &str) -> (r: Option<
    BatchCreateRequest,
>)
    ensures
        r is None <==> interfaces.len() == 0,
        r matches Some(req) ==> req@ == interfaces_request_of(config_id@, interfaces@),
{
    if interfaces.len() == 0 {
        return None;
    }
    let mut records: Vec<JsonValue> = Vec::new();
    let mut i: usize = 0;
    while i < interfaces.len()
        invariant
            i <= interfaces.len(),
            records.len() == i,
            forall|j: int|
                0 <= j < i ==> #[trigger] records@[j]@ == interface_record(config_id@, interfaces@[j]),
        decreases interfaces.len() - i,
    {
        let iface = &interfaces[i];
        let entries = vec![
            text_entry("device_configuration_id", config_id),
            text_entry("name", iface.name.as_str()),
            text_entry("device", iface.device.as_str()),
        ];
        proof {
            crate::json::lemma_entries_view(entries@);
        }
        let record = object_of(entries);
        assert(JsonValue::entries_view(entries@) =~= seq![
            ("device_configuration_id"@, JsonView::String(config_id@)),
            ("name"@, JsonView::String(iface.name@)),
            ("device"@, JsonView::String(iface.device@)),
        ]);
        records.push(record);
        i = i + 1;
    }
    assert forall|j: int| 0 <= j < records.len() implies #[trigger] records.deep_view()[j]
        == interface_record(config_id@, interfaces@[j]) by {
        assert(records@[j]@ == records.deep_view()[j]);
    }
    assert(records.deep_view() =~= interface_records_of(config_id@, interfaces@));
    let array = JsonValue::array(records);
    Some(
        BatchCreateRequest {
            params: Some(CreateParams { table: owned("device_interfaces") }),
            query: Some(Query { pluck: owned("id,device"), durability: owned("hard") }),
            body: Some(BatchCreateBody { records: array.to_text(), entity_prefix: owned("IF") }),
        },
    )
}

/// The record of an address of the interface with the id `interface_id`.
pub open spec fn address_record(interface_id: Seq<char>, address: InterfaceAddress) -> JsonView {
    JsonView::Object(
        seq![
            ("device_interface_id"@, JsonView::String(interface_id)),
            ("address"@, JsonView::String(address.address@)),
            ("version"@, address.version@),
        ],
    )
}

/// The records of the addresses of one interface, where its device has an id.
pub open spec fn interface_address_records(iface: NetworkInterface, ids: Map<Seq<char>, Seq<char>>) -> Seq<JsonView> {
    if ids.contains_key(iface.device@) {
        Seq::new(
            iface.addresses@.len(),
            |j: int| address_record(ids[iface.device@], iface.addresses@[j]),
        )
    } else {
        Seq::empty()
    }
}

/// The records of the addresses of all the interfaces, interface by
/// interface; the addresses of an interface whose device has no id are left out.
pub open spec fn address_records_of(ifaces: Seq<NetworkInterface>, ids: Map<Seq<char>, Seq<char>>) -> Seq<JsonView>
    decreases ifaces.len(),
{
    if ifaces.len() == 0 {
        Seq::empty()
    } else {
        address_records_of(ifaces.drop_last(), ids) + interface_address_records(ifaces.last(), ids)
    }
}

/// Whether a record reads as the address `a` of the interface with id `id`.
pub open spec fn address_linked(x: JsonView, id: Seq<char>, a: InterfaceAddress) -> bool {
    &&& json_get(x, "device_interface_id"@) == Some(JsonView::String(id))
    &&& json_get(x, "address"@) == Some(JsonView::String(a.address@))
    &&& json_get(x, "version"@) == Some(a.version@)
}

proof fn lemma_address_record_linked(id: Seq<char>, a: InterfaceAddress)
    ensures
        address_linked(address_record(id, a), id, a),
{
    let e = match address_record(id, a) {
        JsonView::Object(e) => e,
        _ => Seq::empty(),
    };
    reveal_strlit("device_interface_id");
    reveal_strlit("address");
    reveal_strlit("version");
    assert(unique_keys(e)) by {
        assert forall|x: int, y: int| 0 <= x < y < e.len() implies #[trigger] e[x].0
            != #[trigger] e[y].0 by {
            if e[x].0.len() == e[y].0.len() {
                assert(e[x].0[0] != e[y].0[0]);
            }
        }
    }
    lemma_object_field(e, 0);
    lemma_object_field(e, 1);
    lemma_object_field(e, 2);
}

/// Whether a record links some address of some interface whose device got
/// an id to that id.
pub open spec fn links_some_address(
    x: JsonView,
    ifaces: Seq<NetworkInterface>,
    ids: Map<Seq<char>, Seq<char>>,
) -> bool {
    exists|i: int, k: int|
        0 <= i < ifaces.len() && ids.contains_key(ifaces[i].device@) && 0 <= k
            < ifaces[i].addresses@.len() && #[trigger] address_linked(
            x,
            ids[ifaces[i].device@],
            ifaces[i].addresses@[k],
        )
}

/// Whether some record links the address `a` to the id `id`.
pub open spec fn has_linked_record(records: Seq<JsonView>, id: Seq<char>, a: InterfaceAddress) -> bool {
    exists|p: int| 0 <= p < records.len() && #[trigger] address_linked(records[p], id, a)
}

proof fn lemma_address_records_sound(ifaces: Seq<NetworkInterface>, ids: Map<Seq<char>, Seq<char>>)
    ensures
        forall|p: int|
            0 <= p < address_records_of(ifaces, ids).len() ==> links_some_address(
                #[trigger] address_records_of(ifaces, ids)[p],
                ifaces,
                ids,
            ),
    decreases ifaces.len(),
{
    if ifaces.len() > 0 {
        let init = ifaces.drop_last();
        let n = ifaces.len() - 1;
        let last = ifaces[n];
        lemma_address_records_sound(init, ids);
        let r0 = address_records_of(init, ids);
        let tail = interface_address_records(last, ids);
        assert(ifaces.last() == last);
        assert(address_records_of(ifaces, ids) == r0 + tail);
        assert forall|p: int| 0 <= p < address_records_of(ifaces, ids).len() implies links_some_address(
            #[trigger] address_records_of(ifaces, ids)[p],
            ifaces,
            ids,
        ) by {
            let x = address_records_of(ifaces, ids)[p];
            if p < r0.len() {
                assert(x == r0[p]);
                assert(links_some_address(r0[p], init, ids));
                let (i, k) = choose|i: int, k: int|
                    0 <= i < init.len() && ids.contains_key(init[i].device@) && 0 <= k
                        < init[i].addresses@.len() && #[trigger] address_linked(
                        r0[p],
                        ids[init[i].device@],
                        init[i].addresses@[k],
                    );
                assert(init[i] == ifaces[i]);
                assert(address_linked(x, ids[ifaces[i].device@], ifaces[i].addresses@[k]));
            } else {
                let k = p - r0.len();
                assert(ids.contains_key(last.device@));
                assert(x == tail[k]);
                lemma_address_record_linked(ids[last.device@], last.addresses@[k]);
                assert(address_linked(x, ids[ifaces[n].device@], ifaces[n].addresses@[k]));
            }
        }
    }
}

proof fn lemma_address_records_complete(
    ifaces: Seq<NetworkInterface>,
    ids: Map<Seq<char>, Seq<char>>,
)
    ensures
        forall|i: int, k: int|
            0 <= i < ifaces.len() && ids.contains_key(ifaces[i].device@) && 0 <= k
                < ifaces[i].addresses@.len() ==> has_linked_record(
                address_records_of(ifaces, ids),
                ids[ifaces[i].device@],
                #[trigger] ifaces[i].addresses@[k],
            ),
    decreases ifaces.len(),
{
    if ifaces.len() > 0 {
        let init = ifaces.drop_last();
        let n = ifaces.len() - 1;
        let last = ifaces[n];
        lemma_address_records_complete(init, ids);
        let r0 = address_records_of(init, ids);
        let tail = interface_address_records(last, ids);
        let res = address_records_of(ifaces, ids);
        assert(ifaces.last() == last);
        assert(res == r0 + tail);
        assert forall|i: int, k: int|
            0 <= i < ifaces.len() && ids.contains_key(ifaces[i].device@) && 0 <= k
                < ifaces[i].addresses@.len() implies has_linked_record(
            res,
            ids[ifaces[i].device@],
            #[trigger] ifaces[i].addresses@[k],
        ) by {
            let a = ifaces[i].addresses@[k];
            if i < n {
                assert(init[i] == ifaces[i]);
                assert(init[i].addresses@[k] == a);
                assert(has_linked_record(r0, ids[init[i].device@], init[i].addresses@[k]));
                let p = choose|p: int|
                    0 <= p < r0.len() && #[trigger] address_linked(r0[p], ids[init[i].device@], a);
                assert(res[p] == r0[p]);
                assert(address_linked(res[p], ids[ifaces[i].device@], a));
            } else {
                let p = r0.len() + k;
                assert(res[p] == tail[k]);
                lemma_address_record_linked(ids[last.device@], last.addresses@[k]);
                assert(address_linked(res[p], ids[ifaces[i].device@], a));
            }
        }
    }
}

/// Each address record links an address of an interface to the id that the
/// datastore gave that interface's device, and each address of an interface
/// whose device got an id has such a record: no record names an id that no
/// interface's device was given.
pub proof fn law_address_records_link_interface_ids(
    ifaces: Seq<NetworkInterface>,
    ids: Map<Seq<char>, Seq<char>>,
)
    ensures
        forall|p: int|
            0 <= p < address_records_of(ifaces, ids).len() ==> links_some_address(
                #[trigger] address_records_of(ifaces, ids)[p],
                ifaces,
                ids,
            ),
        forall|i: int, k: int|
            0 <= i < ifaces.len() && ids.contains_key(ifaces[i].device@) && 0 <= k
                < ifaces[i].addresses@.len() ==> has_linked_record(
                address_records_of(ifaces, ids),
                ids[ifaces[i].device@],
                #[trigger] ifaces[i].addresses@[k],
            ),
{
    lemma_address_records_sound(ifaces, ids);
    lemma_address_records_complete(ifaces, ids);
}

/// A copy of a JSON value.
#[verifier::loop_isolation(false)]
pub fn copy_json(v: &JsonValue) -> (r: JsonValue)
    ensures
        r@ == v@,
    decreases v,
{
    match v {
        JsonValue::Null => JsonValue::Null,
        JsonValue::Bool(b) => JsonValue::Bool(*b),
        JsonValue::Number(crate::json::JsonNumber::PosInt(n)) => JsonValue::Number(
            crate::json::JsonNumber::PosInt(*n),
        ),
        JsonValue::Number(crate::json::JsonNumber::NegInt(n)) => JsonValue::Number(
            crate::json::JsonNumber::NegInt(*n),
        ),
        JsonValue::Number(crate::json::JsonNumber::Float(t)) => JsonValue::Number(
            crate::json::JsonNumber::Float(t.clone()),
        ),
        JsonValue::String(s) => JsonValue::String(s.clone()),
        JsonValue::Array(items) => {
            let mut out: Vec<JsonValue> = Vec::new();
            let mut i: usize = 0;
            while i < items.len()
                invariant
                    i <= items.len(),
                    out.len() == i,
                    forall|j: int| 0 <= j < i ==> #[trigger] out@[j].json_view() == items@[j].json_view(),
                decreases items.len() - i,
            {
                out.push(copy_json(&items[i]));
                i = i + 1;
            }
            proof {
                crate::json::lemma_items_view(items@);
                crate::json::lemma_items_view(out@);
                assert(JsonValue::items_view(out@) =~= JsonValue::items_view(items@));
            }
            JsonValue::Array(out)
        },
        JsonValue::Object(entries) => {
            let mut out: Vec<(String, JsonValue)> = Vec::new();
            let mut i: usize = 0;
            while i < entries.len()
                invariant
                    i <= entries.len(),
                    out.len() == i,
                    forall|j: int|
                        0 <= j < i ==> #[trigger] out@[j].0@ == entries@[j].0@ && out@[j].1.json_view()
                            == entries@[j].1.json_view(),
                decreases entries.len() - i,
            {
                out.push((entries[i].0.clone(), copy_json(&entries[i].1)));
                i = i + 1;
            }
            proof {
                crate::json::lemma_entries_view(entries@);
                crate::json::lemma_entries_view(out@);
                assert(JsonValue::entries_view(out@) =~= JsonValue::entries_view(entries@));
            }
            JsonValue::Object(out)
        },
    }
}

/// The records of the addresses of the interfaces, each with the id of its
/// interface; the addresses of an interface whose device has no id are left out.
pub fn address_records(interfaces: &Vec<NetworkInterface>, ids: &InterfaceInsertionResult) -> (r: Vec<
    JsonValue,
>)
    ensures
        r.deep_view() == address_records_of(interfaces@, ids@),
{
    let mut records: Vec<JsonValue> = Vec::new();
    let mut i: usize = 0;
    while i < interfaces.len()
        invariant
            i <= interfaces.len(),
            records.deep_view() == address_records_of(interfaces@.take(i as int), ids@),
        decreases interfaces.len() - i,
    {
        let iface = &interfaces[i];
        let ghost before = records.deep_view();
        let mut k: usize = 0;
        while k < iface.addresses.len()
            invariant
                k <= iface.addresses.len(),
                records.deep_view() == before + (if ids@.contains_key(iface.device@) {
                    Seq::new(k as nat, |j: int| address_record(ids@[iface.device@], iface.addresses@[j]))
                } else {
                    Seq::empty()
                }),
            decreases iface.addresses.len() - k,
        {
            let address = &iface.addresses[k];
            match ids.get_id_by_device(iface.device.as_str()) {
                Some(id) => {
                    let entries = vec![
                        text_entry("device_interface_id", id.as_str()),
                        text_entry("address", address.address.as_str()),
                        entry("version", copy_json(&address.version)),
                    ];
                    proof {
                        crate::json::lemma_entries_view(entries@);
                    }
                    let record = object_of(entries);
                    assert(JsonValue::entries_view(entries@) =~= seq![
                        ("device_interface_id"@, JsonView::String(id@)),
                        ("address"@, JsonView::String(address.address@)),
                        ("version"@, address.version@),
                    ]);
                    let ghost prev = records.deep_view();
                    records.push(record);
                    assert(records.deep_view() =~= prev.push(record@));
                    assert(Seq::new((k + 1) as nat, |j: int| address_record(ids@[iface.device@], iface.addresses@[j]))
                        =~= Seq::new(k as nat, |j: int| address_record(ids@[iface.device@], iface.addresses@[j])).push(
                        address_record(ids@[iface.device@], iface.addresses@[k as int])));
                },
                None => {},
            }
            k = k + 1;
        }
        assert(interfaces@.take(i + 1).drop_last() =~= interfaces@.take(i as int));
        assert(interfaces@.take(i + 1).last() == *iface);
        assert(Seq::new(iface.addresses@.len(), |j: int| address_record(ids@[iface.device@], iface.addresses@[j]))
            =~= Seq::new(k as nat, |j: int| address_record(ids@[iface.device@], iface.addresses@[j])));
        i = i + 1;
    }
    assert(interfaces@.take(interfaces.len() as int) =~= interfaces@);
    records
}

/// The request that inserts the records of addresses.
pub open spec fn addresses_request_of(records: Seq<JsonView>) -> BatchCreateRequestView {
    BatchCreateRequestView {
        params: Some(CreateParamsView { table: "device_addresses"@ }),
        query: Some(QueryView { pluck: Seq::empty(), durability: "hard"@ }),
        body: Some(
            BatchCreateBodyView { records: json_text(JsonView::Array(records)), entity_prefix: "AD"@ },
        ),
    }
}

/// The request that inserts the addresses of the interfaces; none where no
/// address has an interface id.
pub fn addresses_request(interfaces: &Vec<NetworkInterface>, ids: &InterfaceInsertionResult) -> (r: Option<
    BatchCreateRequest,
>)
    ensures
        r is None <==> address_records_of(interfaces@, ids@).len() == 0,
        r matches Some(req) ==> req@ == addresses_request_of(address_records_of(interfaces@, ids@)),
{
    let records = address_records(interfaces, ids);
    if records.len() == 0 {
        return None;
    }
    let array = JsonValue::array(records);
    Some(
        BatchCreateRequest {
            params: Some(CreateParams { table: owned("device_addresses") }),
            query: Some(Query { pluck: String::new(), durability: owned("hard") }),
            body: Some(BatchCreateBody { records: array.to_text(), entity_prefix: owned("AD") }),
        },
    )
}

} // verus!
