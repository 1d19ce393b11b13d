use crate::requests::{
    entries_to_map, AdvanceFilter, AdvanceFilterView, GetByFilterBody, GetByFilterBodyView,
    GetByFilterRequest, GetByFilterRequestView, Join, JoinView, MultipleSort, MultipleSortView,
    Params, ParamsView,
};
use crate::text::{or_empty, or_empty_string, owned, root_type, root_type_string};
use vstd::prelude::*;

verus! {

/// Builds a [`GetByFilterRequest`]. Lists grow in the order of the calls; a
/// later entry of the pluck object for a key replaces an earlier one.
pub struct GetByFilterRequestBuilder {
    id: Option<String>,
    table: Option<String>,
    pluck: Vec<String>,
    order_by: Option<String>,
    limit: Option<i32>,
    offset: Option<i32>,
    order_direction: Option<String>,
    advance_filters: Vec<AdvanceFilter>,
    joins: Vec<Join>,
    multiple_sort: Vec<MultipleSort>,
    pluck_object: Vec<(String, String)>,
    date_format: Option<String>,
    is_root: bool,
}

pub struct GetByFilterRequestBuilderView {
    pub id: Option<Seq<char>>,
    pub table: Option<Seq<char>>,
    pub pluck: Seq<Seq<char>>,
    pub order_by: Option<Seq<char>>,
    pub limit: Option<i32>,
    pub offset: Option<i32>,
    pub order_direction: Option<Seq<char>>,
    pub advance_filters: Seq<AdvanceFilterView>,
    pub joins: Seq<JoinView>,
    pub multiple_sort: Seq<MultipleSortView>,
    pub pluck_object: Seq<(Seq<char>, Seq<char>)>,
    pub date_format: Option<Seq<char>>,
    pub is_root: bool,
}

impl View for GetByFilterRequestBuilder {
    type V = GetByFilterRequestBuilderView;

    closed spec fn view(&self) -> GetByFilterRequestBuilderView {
        GetByFilterRequestBuilderView {
            id: self.id.deep_view(),
            table: self.table.deep_view(),
            pluck: self.pluck.deep_view(),
            order_by: self.order_by.deep_view(),
            limit: self.limit,
            offset: self.offset,
            order_direction: self.order_direction.deep_view(),
            advance_filters: self.advance_filters.deep_view(),
            joins: self.joins.deep_view(),
            multiple_sort: self.multiple_sort.deep_view(),
            pluck_object: self.pluck_object.deep_view(),
            date_format: self.date_format.deep_view(),
            is_root: self.is_root,
        }
    }
}

/// The number held, or zero.
pub open spec fn or_zero(o: Option<i32>) -> i32 {
    match o {
        Some(n) => n,
        None => 0,
    }
}

impl GetByFilterRequestBuilderView {
    /// The request: texts not set are empty, numbers not set are zero.
    pub open spec fn build(self) -> GetByFilterRequestView {
        GetByFilterRequestView {
            body: Some(
                GetByFilterBodyView {
                    pluck: self.pluck,
                    advance_filters: self.advance_filters,
                    order_by: or_empty(self.order_by),
                    limit: or_zero(self.limit),
                    offset: or_zero(self.offset),
                    order_direction: or_empty(self.order_direction),
                    joins: self.joins,
                    multiple_sort: self.multiple_sort,
                    pluck_object: entries_to_map(self.pluck_object),
                    date_format: or_empty(self.date_format),
                },
            ),
            params: Some(
                ParamsView {
                    id: or_empty(self.id),
                    table: or_empty(self.table),
                    type_: root_type(self.is_root),
                },
            ),
        }
    }
}

/// Appends the elements of `added` to `list`, in their order.
fn append_all<T: DeepView>(list: &mut Vec<T>, added: Vec<T>)
    ensures
        final(list).deep_view() == old(list).deep_view() + added.deep_view(),
{
    let mut added = added;
    let ghost before = list.deep_view();
    let ghost extra = added.deep_view();
    list.append(&mut added);
    assert(list.deep_view() =~= before + extra);
}

/// Appends one element to `list`.
fn push_one<T: DeepView>(list: &mut Vec<T>, item: T)
    ensures
        final(list).deep_view() == old(list).deep_view().push(item.deep_view()),
{
    let ghost before = list.deep_view();
    let ghost v = item.deep_view();
    list.push(item);
    assert(list.deep_view() =~= before.push(v));
}

impl GetByFilterRequestBuilder {
    pub fn new() -> (r: Self)
        ensures
            r@ == (GetByFilterRequestBuilderView {
                id: None,
                table: None,
                pluck: Seq::empty(),
                order_by: None,
                limit: None,
                offset: None,
                order_direction: None,
                advance_filters: Seq::empty(),
                joins: Seq::empty(),
                multiple_sort: Seq::empty(),
                pluck_object: Seq::empty(),
                date_format: None,
                is_root: false,
            }),
    {
        let r = GetByFilterRequestBuilder {
            id: None,
            table: None,
            pluck: Vec::new(),
            order_by: None,
            limit: None,
            offset: None,
            order_direction: None,
            advance_filters: Vec::new(),
            joins: Vec::new(),
            multiple_sort: Vec::new(),
            pluck_object: Vec::new(),
            date_format: None,
            is_root: false,
        };
        assert(r.pluck.deep_view() =~= Seq::<Seq<char>>::empty());
        assert(r.advance_filters.deep_view() =~= Seq::<AdvanceFilterView>::empty());
        assert(r.joins.deep_view() =~= Seq::<JoinView>::empty());
        assert(r.multiple_sort.deep_view() =~= Seq::<MultipleSortView>::empty());
        assert(r.pluck_object.deep_view() =~= Seq::<(Seq<char>, Seq<char>)>::empty());
        r
    }

    pub fn id(self, id: &str) -> (r: Self)
        ensures
            r@ == (GetByFilterRequestBuilderView { id: Some(id@), ..self@ }),
    {
        GetByFilterRequestBuilder { id: Some(owned(id)), ..self }
    }

    pub fn table(self, table: &str) -> (r: Self)
        ensures
            r@ == (GetByFilterRequestBuilderView { table: Some(table@), ..self@ }),
    {
        GetByFilterRequestBuilder { table: Some(owned(table)), ..self }
    }

    /// Adds one field to send back.
    pub fn pluck(self, field: &str) -> (r: Self)
        ensures
            r@ == (GetByFilterRequestBuilderView { pluck: self@.pluck.push(field@), ..self@ }),
    {
        let mut s = self;
        push_one(&mut s.pluck, owned(field));
        s
    }

    /// Adds fields to send back, in their order.
    pub fn plucks(self, fields: Vec<String>) -> (r: Self)
        ensures
            r@ == (GetByFilterRequestBuilderView {
                pluck: self@.pluck + fields.deep_view(),
                ..self@
            }),
    {
        let mut s = self;
        append_all(&mut s.pluck, fields);
        s
    }

    pub fn order_by(self, field: &str) -> (r: Self)
        ensures
            r@ == (GetByFilterRequestBuilderView { order_by: Some(field@), ..self@ }),
    {
        GetByFilterRequestBuilder { order_by: Some(owned(field)), ..self }
    }

    pub fn limit(self, limit: i32) -> (r: Self)
        ensures
            r@ == (GetByFilterRequestBuilderView { limit: Some(limit), ..self@ }),
    {
        GetByFilterRequestBuilder { limit: Some(limit), ..self }
    }

    pub fn offset(self, offset: i32) -> (r: Self)
        ensures
            r@ == (GetByFilterRequestBuilderView { offset: Some(offset), ..self@ }),
    {
        GetByFilterRequestBuilder { offset: Some(offset), ..self }
    }

    pub fn order_direction(self, direction: &str) -> (r: Self)
        ensures
            r@ == (GetByFilterRequestBuilderView { order_direction: Some(direction@), ..self@ }),
    {
        GetByFilterRequestBuilder { order_direction: Some(owned(direction)), ..self }
    }

    pub fn advance_filter(self, filter: AdvanceFilter) -> (r: Self)
        ensures
            r@ == (GetByFilterRequestBuilderView {
                advance_filters: self@.advance_filters.push(filter@),
                ..self@
            }),
    {
        let mut s = self;
        push_one(&mut s.advance_filters, filter);
        s
    }

    pub fn advance_filters(self, filters: Vec<AdvanceFilter>) -> (r: Self)
        ensures
            r@ == (GetByFilterRequestBuilderView {
                advance_filters: self@.advance_filters + filters.deep_view(),
                ..self@
            }),
    {
        let mut s = self;
        append_all(&mut s.advance_filters, filters);
        s
    }

    pub fn join(self, join: Join) -> (r: Self)
        ensures
            r@ == (GetByFilterRequestBuilderView { joins: self@.joins.push(join@), ..self@ }),
    {
        let mut s = self;
        push_one(&mut s.joins, join);
        s
    }

    pub fn joins(self, joins: Vec<Join>) -> (r: Self)
        ensures
            r@ == (GetByFilterRequestBuilderView {
                joins: self@.joins + joins.deep_view(),
                ..self@
            }),
    {
        let mut s = self;
        append_all(&mut s.joins, joins);
        s
    }

    pub fn multiple_sort(self, sort: MultipleSort) -> (r: Self)
        ensures
            r@ == (GetByFilterRequestBuilderView {
                multiple_sort: self@.multiple_sort.push(sort@),
                ..self@
            }),
    {
        let mut s = self;
        push_one(&mut s.multiple_sort, sort);
        s
    }

    pub fn multiple_sorts(self, sorts: Vec<MultipleSort>) -> (r: Self)
        ensures
            r@ == (GetByFilterRequestBuilderView {
                multiple_sort: self@.multiple_sort + sorts.deep_view(),
                ..self@
            }),
    {
        let mut s = self;
        append_all(&mut s.multiple_sort, sorts);
        s
    }

    /// Sets one entry of the pluck object, replacing any earlier value for the key.
    pub fn pluck_object(self, key: &str, value: &str) -> (r: Self)
        ensures
            r@ == (GetByFilterRequestBuilderView {
                pluck_object: self@.pluck_object.push((key@, value@)),
                ..self@
            }),
    {
        let mut s = self;
        push_one(&mut s.pluck_object, (owned(key), owned(value)));
        s
    }

    /// Sets the entries of the pluck object in their order.
    pub fn pluck_objects(self, entries: Vec<(String, String)>) -> (r: Self)
        ensures
            r@ == (GetByFilterRequestBuilderView {
                pluck_object: self@.pluck_object + entries.deep_view(),
                ..self@
            }),
    {
        let mut s = self;
        append_all(&mut s.pluck_object, entries);
        s
    }

    pub fn date_format(self, format: &str) -> (r: Self)
        ensures
            r@ == (GetByFilterRequestBuilderView { date_format: Some(format@), ..self@ }),
    {
        GetByFilterRequestBuilder { date_format: Some(owned(format)), ..self }
    }

    pub fn performed_by_root(self, value: bool) -> (r: Self)
        ensures
            r@ == (GetByFilterRequestBuilderView { is_root: value, ..self@ }),
    {
        GetByFilterRequestBuilder { is_root: value, ..self }
    }

    pub fn build(self) -> (r: GetByFilterRequest)
        ensures
            r@ == self@.build(),
    {
        let limit = match self.limit {
            Some(n) => n,
            None => 0,
        };
        let offset = match self.offset {
            Some(n) => n,
            None => 0,
        };
        GetByFilterRequest {
            body: Some(
                GetByFilterBody {
                    pluck: self.pluck,
                    advance_filters: self.advance_filters,
                    order_by: or_empty_string(self.order_by),
                    limit,
                    offset,
                    order_direction: or_empty_string(self.order_direction),
                    joins: self.joins,
                    multiple_sort: self.multiple_sort,
                    pluck_object: self.pluck_object,
                    date_format: or_empty_string(self.date_format),
                },
            ),
            params: Some(
                Params {
                    id: or_empty_string(self.id),
                    table: or_empty_string(self.table),
                    type_: root_type_string(self.is_root),
                },
            ),
        }
    }
}

/// In the pluck object of a request, the value set last for a key is the
/// one kept, and every other key keeps its value.
pub proof fn law_pluck_object_last_wins(
    entries: Seq<(Seq<char>, Seq<char>)>,
    key: Seq<char>,
    value: Seq<char>,
    other: Seq<char>,
)
    ensures
        entries_to_map(entries.push((key, value))).contains_key(key),
        entries_to_map(entries.push((key, value)))[key] == value,
        other != key ==> entries_to_map(entries.push((key, value))).contains_key(other)
            == entries_to_map(entries).contains_key(other),
        other != key && entries_to_map(entries).contains_key(other) ==> entries_to_map(
            entries.push((key, value)),
        )[other] == entries_to_map(entries)[other],
{
    assert(entries.push((key, value)).drop_last() =~= entries);
}

} // verus!
