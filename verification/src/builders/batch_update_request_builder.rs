use crate::requests::{
    AdvanceFilter, AdvanceFilterView, BatchUpdateBody, BatchUpdateBodyView, BatchUpdateRequest,
    BatchUpdateRequestView, Params, ParamsView,
};
use crate::text::{or_empty, or_empty_string, owned, root_type, root_type_string};
use vstd::prelude::*;

verus! {

/// Builds a [`BatchUpdateRequest`]: the records that the filters select get the updates.
pub struct BatchUpdateRequestBuilder {
    advance_filters: Vec<AdvanceFilter>,
    updates: Option<String>,
    id: Option<String>,
    table: Option<String>,
    is_root: bool,
}

pub struct BatchUpdateRequestBuilderView {
    pub advance_filters: Seq<AdvanceFilterView>,
    pub updates: Option<Seq<char>>,
    pub id: Option<Seq<char>>,
    pub table: Option<Seq<char>>,
    pub is_root: bool,
}

impl View for BatchUpdateRequestBuilder {
    type V = BatchUpdateRequestBuilderView;

    closed spec fn view(&self) -> BatchUpdateRequestBuilderView {
        BatchUpdateRequestBuilderView {
            advance_filters: self.advance_filters.deep_view(),
            updates: self.updates.deep_view(),
            id: self.id.deep_view(),
            table: self.table.deep_view(),
            is_root: self.is_root,
        }
    }
}

impl BatchUpdateRequestBuilderView {
    pub open spec fn build(self) -> BatchUpdateRequestView {
        BatchUpdateRequestView {
            params: Some(
                ParamsView {
                    id: or_empty(self.id),
                    table: or_empty(self.table),
                    type_: root_type(self.is_root),
                },
            ),
            body: Some(
                BatchUpdateBodyView {
                    advance_filters: self.advance_filters,
                    updates: or_empty(self.updates),
                },
            ),
        }
    }
}

impl BatchUpdateRequestBuilder {
    pub fn new() -> (r: Self)
        ensures
            r@ == (BatchUpdateRequestBuilderView {
                advance_filters: Seq::empty(),
                updates: None,
                id: None,
                table: None,
                is_root: false,
            }),
    {
        let r = BatchUpdateRequestBuilder {
            advance_filters: Vec::new(),
            updates: None,
            id: None,
            table: None,
            is_root: false,
        };
        assert(r.advance_filters.deep_view() =~= Seq::<AdvanceFilterView>::empty());
        r
    }

    pub fn id(self, id: &str) -> (r: Self)
        ensures
            r@ == (BatchUpdateRequestBuilderView { id: Some(id@), ..self@ }),
    {
        BatchUpdateRequestBuilder { id: Some(owned(id)), ..self }
    }

    pub fn table(self, table: &str) -> (r: Self)
        ensures
            r@ == (BatchUpdateRequestBuilderView { table: Some(table@), ..self@ }),
    {
        BatchUpdateRequestBuilder { table: Some(owned(table)), ..self }
    }

    /// Adds one filter after those already recorded.
    pub fn advance_filter(self, filter: AdvanceFilter) -> (r: Self)
        ensures
            r@ == (BatchUpdateRequestBuilderView {
                advance_filters: self@.advance_filters.push(filter@),
                ..self@
            }),
    {
        let mut s = self;
        let ghost before = s.advance_filters.deep_view();
        s.advance_filters.push(filter);
        assert(s.advance_filters.deep_view() =~= before.push(filter@));
        s
    }

    /// Adds the filters, in their order, after those already recorded.
    pub fn advance_filters(self, filters: Vec<AdvanceFilter>) -> (r: Self)
        ensures
            r@ == (BatchUpdateRequestBuilderView {
                advance_filters: self@.advance_filters + filters.deep_view(),
                ..self@
            }),
    {
        let mut s = self;
        let mut filters = filters;
        let ghost before = s.advance_filters.deep_view();
        let ghost added = filters.deep_view();
        s.advance_filters.append(&mut filters);
        assert(s.advance_filters.deep_view() =~= before + added);
        s
    }

    pub fn performed_by_root(self, value: bool) -> (r: Self)
        ensures
            r@ == (BatchUpdateRequestBuilderView { is_root: value, ..self@ }),
    {
        BatchUpdateRequestBuilder { is_root: value, ..self }
    }

    pub fn updates(self, updates: &str) -> (r: Self)
        ensures
            r@ == (BatchUpdateRequestBuilderView { updates: Some(updates@), ..self@ }),
    {
        BatchUpdateRequestBuilder { updates: Some(owned(updates)), ..self }
    }

    pub fn build(self) -> (r: BatchUpdateRequest)
        ensures
            r@ == self@.build(),
    {
        BatchUpdateRequest {
            params: Some(
                Params {
                    id: or_empty_string(self.id),
                    table: or_empty_string(self.table),
                    type_: root_type_string(self.is_root),
                },
            ),
            body: Some(
                BatchUpdateBody {
                    advance_filters: self.advance_filters,
                    updates: or_empty_string(self.updates),
                },
            ),
        }
    }
}

} // verus!
