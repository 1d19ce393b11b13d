use crate::requests::{Params, ParamsView, Query, QueryView, UpdateRequest, UpdateRequestView};
use crate::text::{or_empty, or_empty_string, owned};
use vstd::prelude::*;

verus! {

/// Builds an [`UpdateRequest`]; the record's id and table must be set before `build`.
pub struct UpdateRequestBuilder {
    id: Option<String>,
    table: Option<String>,
    pluck: Option<String>,
    durability: Option<String>,
    body: Option<String>,
}

pub struct UpdateRequestBuilderView {
    pub id: Option<Seq<char>>,
    pub table: Option<Seq<char>>,
    pub pluck: Option<Seq<char>>,
    pub durability: Option<Seq<char>>,
    pub body: Option<Seq<char>>,
}

impl View for UpdateRequestBuilder {
    type V = UpdateRequestBuilderView;

    closed spec fn view(&self) -> UpdateRequestBuilderView {
        UpdateRequestBuilderView {
            id: self.id.deep_view(),
            table: self.table.deep_view(),
            pluck: self.pluck.deep_view(),
            durability: self.durability.deep_view(),
            body: self.body.deep_view(),
        }
    }
}

impl UpdateRequestBuilderView {
    /// Whether `build` can be called: the id and the table are set.
    pub open spec fn is_complete(self) -> bool {
        self.id is Some && self.table is Some
    }

    pub open spec fn build(self) -> UpdateRequestView {
        UpdateRequestView {
            params: Some(
                ParamsView { id: or_empty(self.id), table: or_empty(self.table), type_: Seq::empty() },
            ),
            query: Some(
                QueryView { pluck: or_empty(self.pluck), durability: or_empty(self.durability) },
            ),
            body: or_empty(self.body),
        }
    }
}

impl UpdateRequestBuilder {
    pub fn new() -> (r: Self)
        ensures
            r@ == (UpdateRequestBuilderView {
                id: None,
                table: None,
                pluck: None,
                durability: None,
                body: None,
            }),
    {
        UpdateRequestBuilder { id: None, table: None, pluck: None, durability: None, body: None }
    }

    pub fn id(self, id: &str) -> (r: Self)
        ensures
            r@ == (UpdateRequestBuilderView { id: Some(id@), ..self@ }),
    {
        UpdateRequestBuilder { id: Some(owned(id)), ..self }
    }

    pub fn table(self, table: &str) -> (r: Self)
        ensures
            r@ == (UpdateRequestBuilderView { table: Some(table@), ..self@ }),
    {
        UpdateRequestBuilder { table: Some(owned(table)), ..self }
    }

    /// Records both the fields to send back and the durability.
    pub fn query(self, pluck: &str, durability: &str) -> (r: Self)
        ensures
            r@ == (UpdateRequestBuilderView {
                pluck: Some(pluck@),
                durability: Some(durability@),
                ..self@
            }),
    {
        UpdateRequestBuilder { pluck: Some(owned(pluck)), durability: Some(owned(durability)), ..self }
    }

    pub fn body(self, body: &str) -> (r: Self)
        ensures
            r@ == (UpdateRequestBuilderView { body: Some(body@), ..self@ }),
    {
        UpdateRequestBuilder { body: Some(owned(body)), ..self }
    }

    /// Whether the id and the table are set, so that `build` may be called.
    pub fn is_complete(&self) -> (r: bool)
        ensures
            r == self@.is_complete(),
    {
        self.id.is_some() && self.table.is_some()
    }

    pub fn build(self) -> (r: UpdateRequest)
        requires
            self@.is_complete(),
        ensures
            r@ == self@.build(),
    {
        let id = match self.id {
            Some(id) => id,
            None => String::new(),
        };
        let table = match self.table {
            Some(table) => table,
            None => String::new(),
        };
        UpdateRequest {
            params: Some(Params { id, table, type_: String::new() }),
            query: Some(
                Query {
                    pluck: or_empty_string(self.pluck),
                    durability: or_empty_string(self.durability),
                },
            ),
            body: or_empty_string(self.body),
        }
    }
}

} // verus!
