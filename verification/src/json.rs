//! JSON values as plain data, and the reading and writing of JSON text.
//!
//! The text is read and written by `serde_json`; the library holds what it
//! reads as a [`JsonValue`] and navigates it with verified code. Contracts
//! speak of a value's view, a [`JsonView`], where every string is a sequence
//! of characters.
use crate::text::owned;
use vstd::prelude::*;

verus! {

/// A JSON number: a non-negative integer, a negative integer, or any other
/// number kept as its text.
pub enum JsonNumber {
    PosInt(u64),
    NegInt(i64),
    Float(String),
}

/// A JSON value. An object lists its entries. Reading a field takes the
/// first entry of its key, while the text that `serde_json` writes keeps the
/// last one; the two agree on objects whose keys are unique (`keys_unique`),
/// which `set` keeps so and which every object read from text is.
pub enum JsonValue {
    Null,
    Bool(bool),
    Number(JsonNumber),
    String(String),
    Array(Vec<JsonValue>),
    Object(Vec<(String, JsonValue)>),
}

pub enum JsonNumberView {
    PosInt(u64),
    NegInt(i64),
    Float(Seq<char>),
}

pub enum JsonView {
    Null,
    Bool(bool),
    Number(JsonNumberView),
    String(Seq<char>),
    Array(Seq<JsonView>),
    Object(Seq<(Seq<char>, JsonView)>),
}

impl JsonValue {
    pub open spec fn json_view(&self) -> JsonView
        decreases self,
    {
        match self {
            JsonValue::Null => JsonView::Null,
            JsonValue::Bool(b) => JsonView::Bool(*b),
            JsonValue::Number(JsonNumber::PosInt(n)) => JsonView::Number(JsonNumberView::PosInt(*n)),
            JsonValue::Number(JsonNumber::NegInt(n)) => JsonView::Number(JsonNumberView::NegInt(*n)),
            JsonValue::Number(JsonNumber::Float(t)) => JsonView::Number(JsonNumberView::Float(t@)),
            JsonValue::String(s) => JsonView::String(s@),
            JsonValue::Array(items) => JsonView::Array(Self::items_view(items@)),
            JsonValue::Object(entries) => JsonView::Object(Self::entries_view(entries@)),
        }
    }

    pub open spec fn items_view(items: Seq<JsonValue>) -> Seq<JsonView>
        decreases items,
    {
        if items.len() == 0 {
            Seq::empty()
        } else {
            Self::items_view(items.drop_last()).push(items.last().json_view())
        }
    }

    pub open spec fn entries_view(entries: Seq<(String, JsonValue)>) -> Seq<(Seq<char>, JsonView)>
        decreases entries,
    {
        if entries.len() == 0 {
            Seq::empty()
        } else {
            Self::entries_view(entries.drop_last()).push(
                (entries.last().0@, entries.last().1.json_view()),
            )
        }
    }
}

impl View for JsonValue {
    type V = JsonView;

    open spec fn view(&self) -> JsonView {
        self.json_view()
    }
}

impl DeepView for JsonValue {
    type V = JsonView;

    open spec fn deep_view(&self) -> JsonView {
        self.json_view()
    }
}

/// The view of a list of values is the list of their views.
pub proof fn lemma_items_view(items: Seq<JsonValue>)
    ensures
        JsonValue::items_view(items).len() == items.len(),
        forall|i: int|
            0 <= i < items.len() ==> #[trigger] JsonValue::items_view(items)[i]
                == items[i].json_view(),
    decreases items.len(),
{
    if items.len() > 0 {
        lemma_items_view(items.drop_last());
    }
}

/// The view of a list of entries is the list of their views.
pub proof fn lemma_entries_view(entries: Seq<(String, JsonValue)>)
    ensures
        JsonValue::entries_view(entries).len() == entries.len(),
        forall|i: int|
            0 <= i < entries.len() ==> #[trigger] JsonValue::entries_view(entries)[i] == (
                entries[i].0@,
                entries[i].1.json_view(),
            ),
    decreases entries.len(),
{
    if entries.len() > 0 {
        lemma_entries_view(entries.drop_last());
    }
}

/// The views of values in a vector, as `deep_view` gives them.
pub proof fn lemma_items_deep_view(items: Vec<JsonValue>)
    ensures
        JsonValue::items_view(items@) == items.deep_view(),
{
    lemma_items_view(items@);
    assert(JsonValue::items_view(items@) =~= items.deep_view());
}

/// Where some entry has the key, the first one is the one that
/// `first_key_index` names.
pub proof fn lemma_first_key_exists(entries: Seq<(Seq<char>, JsonView)>, key: Seq<char>)
    requires
        has_key(entries, key),
    ensures
        is_first_key_at(entries, key, first_key_index(entries, key)),
    decreases entries.len(),
{
    let init = entries.drop_last();
    if has_key(init, key) {
        lemma_first_key_exists(init, key);
        let i = first_key_index(init, key);
        assert(is_first_key_at(entries, key, i)) by {
            assert forall|j: int| 0 <= j < i implies #[trigger] entries[j].0 != key by {
                assert(entries[j] == init[j]);
            }
            assert(entries[i] == init[i]);
        }
    } else {
        let last = entries.len() - 1;
        let w = choose|w: int| 0 <= w < entries.len() && #[trigger] entries[w].0 == key;
        if w < last {
            assert(init[w] == entries[w]);
        }
        assert(is_first_key_at(entries, key, last)) by {
            assert forall|j: int| 0 <= j < last implies #[trigger] entries[j].0 != key by {
                assert(entries[j] == init[j]);
                if entries[j].0 == key {
                    assert(init[j].0 == key);
                }
            }
        }
    }
}

/// There is only one first entry of a key.
pub proof fn lemma_first_key_unique(entries: Seq<(Seq<char>, JsonView)>, key: Seq<char>, i: int)
    requires
        is_first_key_at(entries, key, i),
    ensures
        has_key(entries, key),
        first_key_index(entries, key) == i,
{
    assert(entries[i].0 == key);
    lemma_first_key_exists(entries, key);
    let k = first_key_index(entries, key);
    if k < i {
        assert(entries[k].0 != key);
    } else if k > i {
        assert(entries[i].0 != key);
    }
}

/// A field that was just set reads back as the value it was set to.
pub proof fn law_json_set_then_get(v: JsonView, key: Seq<char>, value: JsonView)
    requires
        is_object_or_null(v),
    ensures
        json_get(json_set(v, key, value), key) == Some(value),
{
    let entries = match v {
        JsonView::Object(entries) => entries,
        _ => Seq::empty(),
    };
    if has_key(entries, key) {
        lemma_first_key_exists(entries, key);
        let i = first_key_index(entries, key);
        let updated = entries.update(i, (key, value));
        assert(is_first_key_at(updated, key, i));
        lemma_first_key_unique(updated, key, i);
    } else {
        let pushed = entries.push((key, value));
        let last = entries.len() as int;
        assert(is_first_key_at(pushed, key, last)) by {
            assert forall|j: int| 0 <= j < last implies #[trigger] pushed[j].0 != key by {
                assert(pushed[j] == entries[j]);
                if entries[j].0 == key {
                    assert(has_key(entries, key));
                }
            }
        }
        lemma_first_key_unique(pushed, key, last);
    }
}

/// Setting a field leaves every other field as it was.
pub proof fn law_json_set_keeps_other_fields(
    v: JsonView,
    key: Seq<char>,
    other: Seq<char>,
    value: JsonView,
)
    requires
        is_object_or_null(v),
        other != key,
    ensures
        json_get(json_set(v, key, value), other) == json_get(v, other),
{
    let entries = match v {
        JsonView::Object(entries) => entries,
        _ => Seq::empty(),
    };
    let after = if has_key(entries, key) {
        lemma_first_key_exists(entries, key);
        entries.update(first_key_index(entries, key), (key, value))
    } else {
        entries.push((key, value))
    };
    assert(json_set(v, key, value) == JsonView::Object(after));
    assert(after.len() >= entries.len());
    assert forall|j: int| 0 <= j < after.len() && (j >= entries.len() || after[j] != entries[j])
        implies #[trigger] after[j].0 == key by {
    }
    if has_key(entries, other) {
        lemma_first_key_exists(entries, other);
        let i = first_key_index(entries, other);
        assert(after[i] == entries[i]);
        assert(is_first_key_at(after, other, i)) by {
            assert forall|j: int| 0 <= j < i implies #[trigger] after[j].0 != other by {
                if after[j] != entries[j] {
                    assert(after[j].0 == key);
                } else {
                    assert(entries[j].0 != other);
                }
            }
        }
        lemma_first_key_unique(after, other, i);
        match v {
            JsonView::Object(_) => {},
            _ => {},
        }
    } else {
        if has_key(after, other) {
            let w = choose|w: int| 0 <= w < after.len() && #[trigger] after[w].0 == other;
            if w >= entries.len() || after[w] != entries[w] {
                assert(after[w].0 == key);
            } else {
                assert(entries[w].0 == other);
                assert(has_key(entries, other));
            }
        }
        match v {
            JsonView::Object(_) => {},
            _ => {},
        }
    }
}

/// Whether no key occurs twice among the entries.
pub open spec fn unique_keys(entries: Seq<(Seq<char>, JsonView)>) -> bool {
    forall|i: int, j: int| 0 <= i < j < entries.len() ==> #[trigger] entries[i].0 != #[trigger] entries[j].0
}

/// Whether a value, where it is an object, has unique keys.
pub open spec fn keys_unique(v: JsonView) -> bool {
    match v {
        JsonView::Object(entries) => unique_keys(entries),
        _ => true,
    }
}

/// Where keys are unique, the entry of a key is its only one: its first and
/// its last entry are the same.
pub proof fn law_unique_key_has_one_entry(entries: Seq<(Seq<char>, JsonView)>, key: Seq<char>, j: int)
    requires
        unique_keys(entries),
        0 <= j < entries.len(),
        entries[j].0 == key,
    ensures
        has_key(entries, key),
        first_key_index(entries, key) == j,
        forall|k: int| 0 <= k < entries.len() && k != j ==> #[trigger] entries[k].0 != key,
{
    assert forall|k: int| 0 <= k < entries.len() && k != j implies #[trigger] entries[k].0 != key by {
        if k < j {
            assert(entries[k].0 != entries[j].0);
        } else {
            assert(entries[j].0 != entries[k].0);
        }
    }
    assert(is_first_key_at(entries, key, j));
    lemma_first_key_unique(entries, key, j);
}

/// In an object whose keys are unique, each entry is what its key reads.
pub proof fn lemma_object_field(entries: Seq<(Seq<char>, JsonView)>, j: int)
    requires
        unique_keys(entries),
        0 <= j < entries.len(),
    ensures
        json_get(JsonView::Object(entries), entries[j].0) == Some(entries[j].1),
{
    law_unique_key_has_one_entry(entries, entries[j].0, j);
}

/// Setting a field keeps the keys of an object unique.
pub proof fn law_json_set_keeps_keys_unique(v: JsonView, key: Seq<char>, value: JsonView)
    requires
        is_object_or_null(v),
        keys_unique(v),
    ensures
        keys_unique(json_set(v, key, value)),
{
    let entries = match v {
        JsonView::Object(entries) => entries,
        _ => Seq::empty(),
    };
    assert(unique_keys(entries));
    if has_key(entries, key) {
        lemma_first_key_exists(entries, key);
        let i = first_key_index(entries, key);
        let after = entries.update(i, (key, value));
        assert forall|a: int, b: int| 0 <= a < b < after.len() implies #[trigger] after[a].0
            != #[trigger] after[b].0 by {
            assert(after[a].0 == entries[a].0);
            assert(after[b].0 == entries[b].0);
        }
    } else {
        let after = entries.push((key, value));
        assert forall|a: int, b: int| 0 <= a < b < after.len() implies #[trigger] after[a].0
            != #[trigger] after[b].0 by {
            if b == entries.len() {
                assert(after[a] == entries[a]);
                if entries[a].0 == key {
                    assert(has_key(entries, key));
                }
            } else {
                assert(after[a] == entries[a] && after[b] == entries[b]);
            }
        }
    }
}

/// What `serde_json` reads from a text: the value, or `None` where the text
/// is not JSON.
pub uninterp spec fn json_parse(text: Seq<char>) -> Option<JsonView>;

/// The compact text that `serde_json` writes for a value.
pub uninterp spec fn json_text(value: JsonView) -> Seq<char>;

/// Whether the entry at `i` is the first one with the key `key`.
pub open spec fn is_first_key_at(entries: Seq<(Seq<char>, JsonView)>, key: Seq<char>, i: int) -> bool {
    &&& 0 <= i < entries.len()
    &&& entries[i].0 == key
    &&& forall|j: int| 0 <= j < i ==> #[trigger] entries[j].0 != key
}

/// Whether some entry has the key `key`.
pub open spec fn has_key(entries: Seq<(Seq<char>, JsonView)>, key: Seq<char>) -> bool {
    exists|i: int| 0 <= i < entries.len() && #[trigger] entries[i].0 == key
}

/// The index of the first entry with the key `key`, where there is one.
pub open spec fn first_key_index(entries: Seq<(Seq<char>, JsonView)>, key: Seq<char>) -> int {
    choose|i: int| is_first_key_at(entries, key, i)
}

/// The value of the first entry with the key `key`.
pub open spec fn entries_get(entries: Seq<(Seq<char>, JsonView)>, key: Seq<char>) -> Option<JsonView> {
    if has_key(entries, key) {
        Some(entries[first_key_index(entries, key)].1)
    } else {
        None
    }
}

/// The field `key` of an object; nothing for any other value.
pub open spec fn json_get(v: JsonView, key: Seq<char>) -> Option<JsonView> {
    match v {
        JsonView::Object(entries) => entries_get(entries, key),
        _ => None,
    }
}

pub open spec fn json_items(v: JsonView) -> Option<Seq<JsonView>> {
    match v {
        JsonView::Array(items) => Some(items),
        _ => None,
    }
}

pub open spec fn json_entries(v: JsonView) -> Option<Seq<(Seq<char>, JsonView)>> {
    match v {
        JsonView::Object(entries) => Some(entries),
        _ => None,
    }
}

pub open spec fn json_str(v: JsonView) -> Option<Seq<char>> {
    match v {
        JsonView::String(s) => Some(s),
        _ => None,
    }
}

pub open spec fn json_bool(v: JsonView) -> Option<bool> {
    match v {
        JsonView::Bool(b) => Some(b),
        _ => None,
    }
}

/// An integer number that fits an `i64`.
pub open spec fn json_i64(v: JsonView) -> Option<i64> {
    match v {
        JsonView::Number(JsonNumberView::PosInt(n)) => if n <= i64::MAX {
            Some(n as i64)
        } else {
            None
        },
        JsonView::Number(JsonNumberView::NegInt(n)) => Some(n),
        _ => None,
    }
}

/// The first element of an array, where it is an object: its entries.
pub open spec fn json_first_object(v: JsonView) -> Option<Seq<(Seq<char>, JsonView)>> {
    match json_items(v) {
        Some(items) => if items.len() > 0 {
            json_entries(items[0])
        } else {
            None
        },
        None => None,
    }
}

/// Whether a value may get a field: it is an object or null.
pub open spec fn is_object_or_null(v: JsonView) -> bool {
    v is Object || v is Null
}

/// The object that results from setting the field `key` to `value`, as
/// `value[key] = ..` does in `serde_json`: the entry with the key gets the
/// value, or a new entry comes last. A null becomes an object with that one
/// entry.
pub open spec fn json_set(v: JsonView, key: Seq<char>, value: JsonView) -> JsonView {
    let entries = match v {
        JsonView::Object(entries) => entries,
        _ => Seq::empty(),
    };
    if has_key(entries, key) {
        JsonView::Object(entries.update(first_key_index(entries, key), (key, value)))
    } else {
        JsonView::Object(entries.push((key, value)))
    }
}

/// The JSON value of a number as `serde_json` turns an `i64` into one.
pub open spec fn json_int(n: i64) -> JsonView {
    if n >= 0 {
        JsonView::Number(JsonNumberView::PosInt(n as u64))
    } else {
        JsonView::Number(JsonNumberView::NegInt(n))
    }
}

/// `serde_json`'s own JSON value, carried through the conversions only.
#[verifier::external_type_specification]
#[verifier::external_body]
pub struct ExSerdeJsonValue(serde_json::Value);

#[verifier::external_type_specification]
#[verifier::external_body]
pub struct ExSerdeJsonNumber(serde_json::Number);

/// Turns a number that `serde_json` read into the library's form: the
/// variant that `serde_json` keeps it in, told apart by `as_u64` and
/// `as_i64`.
#[verifier::external_body]
fn number_from_serde(n: serde_json::Number) -> JsonNumber {
    match (n.as_u64(), n.as_i64()) {
        (Some(u), _) => JsonNumber::PosInt(u),
        (None, Some(i)) => JsonNumber::NegInt(i),
        (None, None) => JsonNumber::Float(n.to_string()),
    }
}

/// Turns a value that `serde_json` read into the library's form, node for
/// node; an object's entries come in the order of `serde_json`'s map.
#[verifier::external_body]
fn from_serde(v: serde_json::Value) -> JsonValue {
    match v {
        serde_json::Value::Null => JsonValue::Null,
        serde_json::Value::Bool(b) => JsonValue::Bool(b),
        serde_json::Value::Number(n) => JsonValue::Number(number_from_serde(n)),
        serde_json::Value::String(s) => JsonValue::String(s),
        serde_json::Value::Array(a) => JsonValue::Array(a.into_iter().map(from_serde).collect()),
        serde_json::Value::Object(m) => JsonValue::Object(
            m.into_iter().map(|(k, v)| (k, from_serde(v))).collect(),
        ),
    }
}

/// Turns a number of the library into `serde_json`'s form; one kept as text
/// that `serde_json` does not read as a number becomes null.
#[verifier::external_body]
fn number_to_serde(n: &JsonNumber) -> serde_json::Value {
    match n {
        JsonNumber::PosInt(u) => serde_json::Value::from(*u),
        JsonNumber::NegInt(i) => serde_json::Value::from(*i),
        JsonNumber::Float(t) => t.parse::<serde_json::Number>().map_or(
            serde_json::Value::Null,
            serde_json::Value::Number,
        ),
    }
}

/// Turns a value of the library into `serde_json`'s form, node for node. An
/// object's entries are collected into `serde_json`'s map, where a later
/// entry of a key replaces an earlier one.
#[verifier::external_body]
fn to_serde(v: &JsonValue) -> serde_json::Value {
    match v {
        JsonValue::Null => serde_json::Value::Null,
        JsonValue::Bool(b) => serde_json::Value::Bool(*b),
        JsonValue::Number(n) => number_to_serde(n),
        JsonValue::String(s) => serde_json::Value::String(s.clone()),
        JsonValue::Array(a) => serde_json::Value::Array(a.iter().map(to_serde).collect()),
        JsonValue::Object(e) => serde_json::Value::Object(
            e.iter().map(|(k, v)| (k.clone(), to_serde(v))).collect(),
        ),
    }
}

/// Reads JSON text with `serde_json::from_str`. The value read is named, not
/// described: Verus learns only that it depends on the text alone.
#[verifier::external_body]
fn parse_json_text(text: &str) -> (r: Option<JsonValue>)
    ensures
        match r {
            Some(v) => json_parse(text@) == Some(v@),
            None => json_parse(text@) is None,
        },
{
    serde_json::from_str::<serde_json::Value>(text).ok().map(from_serde)
}

/// Writes a value as compact JSON text with `serde_json`'s `Display`. The
/// text is named, not described.
#[verifier::external_body]
fn write_json_text(value: &JsonValue) -> (r: String)
    ensures
        r@ == json_text(value@),
{
    to_serde(value).to_string()
}

impl JsonValue {
    /// Reads JSON text; `None` where it is not JSON.
    pub fn parse(text: &str) -> (r: Option<JsonValue>)
        ensures
            match r {
                Some(v) => json_parse(text@) == Some(v@),
                None => json_parse(text@) is None,
            },
    {
        parse_json_text(text)
    }

    /// The compact JSON text of the value.
    pub fn to_text(&self) -> (r: String)
        ensures
            r@ == json_text(self@),
    {
        write_json_text(self)
    }

    /// A string value.
    pub fn text(s: &str) -> (r: JsonValue)
        ensures
            r@ == JsonView::String(s@),
    {
        JsonValue::String(owned(s))
    }

    /// A number value, as `serde_json` makes one from an `i64`.
    pub fn integer(n: i64) -> (r: JsonValue)
        ensures
            r@ == json_int(n),
    {
        if n >= 0 {
            JsonValue::Number(JsonNumber::PosInt(n as u64))
        } else {
            JsonValue::Number(JsonNumber::NegInt(n))
        }
    }

    /// An array of the values, in their order.
    pub fn array(items: Vec<JsonValue>) -> (r: JsonValue)
        ensures
            r@ == JsonView::Array(items.deep_view()),
    {
        proof {
            lemma_items_deep_view(items);
        }
        JsonValue::Array(items)
    }

    /// An object with no entry.
    pub fn empty_object() -> (r: JsonValue)
        ensures
            r@ == JsonView::Object(Seq::empty()),
    {
        let r = JsonValue::Object(Vec::new());
        assert(JsonValue::entries_view(Seq::<(String, JsonValue)>::empty()) =~= Seq::empty());
        r
    }

    pub fn as_array(&self) -> (r: Option<&Vec<JsonValue>>)
        ensures
            match r {
                Some(items) => json_items(self@) == Some(items.deep_view()),
                None => json_items(self@) is None,
            },
    {
        match self {
            JsonValue::Array(items) => {
                proof {
                    lemma_items_deep_view(*items);
                }
                Some(items)
            },
            _ => None,
        }
    }

    pub fn as_object(&self) -> (r: Option<&Vec<(String, JsonValue)>>)
        ensures
            match r {
                Some(entries) => json_entries(self@) == Some(JsonValue::entries_view(entries@)),
                None => json_entries(self@) is None,
            },
    {
        match self {
            JsonValue::Object(entries) => Some(entries),
            _ => None,
        }
    }

    pub fn as_str(&self) -> (r: Option<&String>)
        ensures
            match r {
                Some(s) => json_str(self@) == Some(s@),
                None => json_str(self@) is None,
            },
    {
        match self {
            JsonValue::String(s) => Some(s),
            _ => None,
        }
    }

    pub fn as_bool(&self) -> (r: Option<bool>)
        ensures
            r == json_bool(self@),
    {
        match self {
            JsonValue::Bool(b) => Some(*b),
            _ => None,
        }
    }

    pub fn as_i64(&self) -> (r: Option<i64>)
        ensures
            r == json_i64(self@),
    {
        match self {
            JsonValue::Number(JsonNumber::PosInt(n)) => if *n <= 0x7fff_ffff_ffff_ffffu64 {
                Some(*n as i64)
            } else {
                None
            },
            JsonValue::Number(JsonNumber::NegInt(n)) => Some(*n),
            _ => None,
        }
    }

    /// The field `key` of an object; `None` for a value that is not an object.
    pub fn get(&self, key: &str) -> (r: Option<&JsonValue>)
        ensures
            match r {
                Some(v) => json_get(self@, key@) == Some(v@),
                None => json_get(self@, key@) is None,
            },
    {
        match self {
            JsonValue::Object(entries) => match find_key(entries, key) {
                Some(i) => {
                    proof {
                        lemma_entries_view(entries@);
                    }
                    Some(&entries[i].1)
                },
                None => None,
            },
            _ => None,
        }
    }

    /// The entries of the first element of an array, where it is an object.
    pub fn first_object(&self) -> (r: Option<&Vec<(String, JsonValue)>>)
        ensures
            match r {
                Some(entries) => json_first_object(self@) == Some(JsonValue::entries_view(entries@)),
                None => json_first_object(self@) is None,
            },
    {
        match self.as_array() {
            Some(items) => if items.len() > 0 {
                items[0].as_object()
            } else {
                None
            },
            None => None,
        }
    }

    /// Sets the field `key` of an object or of a null, as `value[key] = ..`
    /// does in `serde_json`; a null becomes an object first.
    pub fn set(&mut self, key: &str, value: JsonValue)
        requires
            is_object_or_null(old(self)@),
        ensures
            final(self)@ == json_set(old(self)@, key@, value@),
    {
        let ghost before = self@;
        let ghost value_view = value@;
        if let JsonValue::Null = self {
            *self = JsonValue::empty_object();
        }
        match self {
            JsonValue::Object(entries) => {
                let ghost old_entries = entries@;
                proof {
                    lemma_entries_view(old_entries);
                }
                match find_key(entries, key) {
                    Some(i) => {
                        entries.set(i, (owned(key), value));
                    },
                    None => {
                        entries.push((owned(key), value));
                    },
                }
                proof {
                    lemma_entries_view(entries@);
                    let ev = JsonValue::entries_view(old_entries);
                    if has_key(ev, key@) {
                        assert(JsonValue::entries_view(entries@) =~= ev.update(
                            first_key_index(ev, key@),
                            (key@, value_view),
                        ));
                    } else {
                        assert(JsonValue::entries_view(entries@) =~= ev.push((key@, value_view)));
                    }
                }
            },
            _ => {},
        }
    }
}

/// The index of the first entry with the key `key`.
pub fn find_key(entries: &Vec<(String, JsonValue)>, key: &str) -> (r: Option<usize>)
    ensures
        match r {
            Some(i) => is_first_key_at(JsonValue::entries_view(entries@), key@, i as int)
                && first_key_index(JsonValue::entries_view(entries@), key@) == i,
            None => !has_key(JsonValue::entries_view(entries@), key@),
        },
{
    let ghost ev = JsonValue::entries_view(entries@);
    proof {
        lemma_entries_view(entries@);
    }
    let mut i: usize = 0;
    while i < entries.len()
        invariant
            i <= entries.len(),
            ev == JsonValue::entries_view(entries@),
            ev.len() == entries@.len(),
            forall|j: int| 0 <= j < entries@.len() ==> #[trigger] ev[j] == (entries@[j].0@, entries@[j].1.json_view()),
            forall|j: int| 0 <= j < i ==> #[trigger] ev[j].0 != key@,
        decreases entries.len() - i,
    {
        if string_eq_str(&entries[i].0, key) {
            assert(ev[i as int].0 == key@);
            assert(is_first_key_at(ev, key@, i as int));
            let ghost k = first_key_index(ev, key@);
            assert(is_first_key_at(ev, key@, k));
            assert(k == i) by {
                if k < i {
                    assert(ev[k].0 != key@);
                } else if k > i {
                    assert(ev[i as int].0 != key@);
                }
            }
            return Some(i);
        }
        assert(ev[i as int].0 != key@);
        i = i + 1;
    }
    None
}

/// Whether a `String` and a `str` hold the same text.
pub fn string_eq_str(a: &String, b: &str) -> (r: bool)
    ensures
        r == (a@ == b@),
{
    let b_owned = owned(b);
    *a == b_owned
}

} // verus!
