use crate::requests::{GetByIdRequest, GetByIdRequestView, Params, ParamsView, Query, QueryView};
use crate::text::{
    join_strings, join_with, or_empty, or_empty_string, owned, root_type, root_type_string,
};
use vstd::prelude::*;

verus! {

/// Builds a [`GetByIdRequest`].
pub struct GetByIdRequestBuilder {
    id: Option<String>,
    table: Option<String>,
    pluck: Option<String>,
    durability: Option<String>,
    is_root: bool,
}

pub struct GetByIdRequestBuilderView {
    pub id: Option<Seq<char>>,
    pub table: Option<Seq<char>>,
    pub pluck: Option<Seq<char>>,
    pub durability: Option<Seq<char>>,
    pub is_root: bool,
}

impl View for GetByIdRequestBuilder {
    type V = GetByIdRequestBuilderView;

    closed spec fn view(&self) -> GetByIdRequestBuilderView {
        GetByIdRequestBuilderView {
            id: self.id.deep_view(),
            table: self.table.deep_view(),
            pluck: self.pluck.deep_view(),
            durability: self.durability.deep_view(),
            is_root: self.is_root,
        }
    }
}

impl GetByIdRequestBuilderView {
    pub open spec fn build(self) -> GetByIdRequestView {
        GetByIdRequestView {
            params: Some(
                ParamsView {
                    id: or_empty(self.id),
                    table: or_empty(self.table),
                    type_: root_type(self.is_root),
                },
            ),
            query: Some(
                QueryView { pluck: or_empty(self.pluck), durability: or_empty(self.durability) },
            ),
        }
    }
}

impl GetByIdRequestBuilder {
    pub fn new() -> (r: Self)
        ensures
            r@ == (GetByIdRequestBuilderView {
                id: None,
                table: None,
                pluck: None,
                durability: None,
                is_root: false,
            }),
    {
        GetByIdRequestBuilder { id: None, table: None, pluck: None, durability: None, is_root: false }
    }

    pub fn id(self, id: &str) -> (r: Self)
        ensures
            r@ == (GetByIdRequestBuilderView { id: Some(id@), ..self@ }),
    {
        GetByIdRequestBuilder { id: Some(owned(id)), ..self }
    }

    pub fn table(self, table: &str) -> (r: Self)
        ensures
            r@ == (GetByIdRequestBuilderView { table: Some(table@), ..self@ }),
    {
        GetByIdRequestBuilder { table: Some(owned(table)), ..self }
    }

    /// Records the fields to send back, joined with commas.
    pub fn pluck(self, fields: Vec<String>) -> (r: Self)
        ensures
            r@ == (GetByIdRequestBuilderView {
                pluck: Some(join_with(fields.deep_view(), ","@)),
                ..self@
            }),
    {
        let joined = join_strings(&fields, ",");
        GetByIdRequestBuilder { pluck: Some(joined), ..self }
    }

    pub fn durability(self, durability: &str) -> (r: Self)
        ensures
            r@ == (GetByIdRequestBuilderView { durability: Some(durability@), ..self@ }),
    {
        GetByIdRequestBuilder { durability: Some(owned(durability)), ..self }
    }

    pub fn performed_by_root(self, value: bool) -> (r: Self)
        ensures
            r@ == (GetByIdRequestBuilderView { is_root: value, ..self@ }),
    {
        GetByIdRequestBuilder { is_root: value, ..self }
    }

    pub fn build(self) -> (r: GetByIdRequest)
        ensures
            r@ == self@.build(),
    {
        GetByIdRequest {
            params: Some(
                Params {
                    id: or_empty_string(self.id),
                    table: or_empty_string(self.table),
                    type_: root_type_string(self.is_root),
                },
            ),
            query: Some(
                Query {
                    pluck: or_empty_string(self.pluck),
                    durability: or_empty_string(self.durability),
                },
            ),
        }
    }
}

} // verus!
