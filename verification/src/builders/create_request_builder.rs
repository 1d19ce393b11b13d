use crate::requests::{
    CreateBody, CreateBodyView, CreateParams, CreateParamsView, CreateRequest, CreateRequestView,
    Query, QueryView,
};
use crate::text::{join_strings, join_with, or_empty, or_empty_string, owned};
use vstd::prelude::*;

verus! {

/// Builds a [`CreateRequest`] for one record.
pub struct CreateRequestBuilder {
    table: Option<String>,
    durability: Option<String>,
    pluck: Option<String>,
    record: Option<String>,
}

pub struct CreateRequestBuilderView {
    pub table: Option<Seq<char>>,
    pub durability: Option<Seq<char>>,
    pub pluck: Option<Seq<char>>,
    pub record: Option<Seq<char>>,
}

impl View for CreateRequestBuilder {
    type V = CreateRequestBuilderView;

    closed spec fn view(&self) -> CreateRequestBuilderView {
        CreateRequestBuilderView {
            table: self.table.deep_view(),
            durability: self.durability.deep_view(),
            pluck: self.pluck.deep_view(),
            record: self.record.deep_view(),
        }
    }
}

impl CreateRequestBuilderView {
    /// The request: what was not set is empty.
    pub open spec fn build(self) -> CreateRequestView {
        CreateRequestView {
            params: Some(CreateParamsView { table: or_empty(self.table) }),
            query: Some(
                QueryView { pluck: or_empty(self.pluck), durability: or_empty(self.durability) },
            ),
            body: Some(CreateBodyView { record: or_empty(self.record), entity_prefix: Seq::empty() }),
        }
    }
}

impl CreateRequestBuilder {
    pub fn new() -> (r: Self)
        ensures
            r@ == (CreateRequestBuilderView {
                table: None,
                durability: None,
                pluck: None,
                record: None,
            }),
    {
        CreateRequestBuilder { table: None, durability: None, pluck: None, record: None }
    }

    pub fn table(self, table: &str) -> (r: Self)
        ensures
            r@ == (CreateRequestBuilderView { table: Some(table@), ..self@ }),
    {
        CreateRequestBuilder { table: Some(owned(table)), ..self }
    }

    pub fn durability(self, durability: &str) -> (r: Self)
        ensures
            r@ == (CreateRequestBuilderView { durability: Some(durability@), ..self@ }),
    {
        CreateRequestBuilder { durability: Some(owned(durability)), ..self }
    }

    /// Records the fields to send back, joined with commas.
    pub fn pluck(self, fields: Vec<String>) -> (r: Self)
        ensures
            r@ == (CreateRequestBuilderView {
                pluck: Some(join_with(fields.deep_view(), ","@)),
                ..self@
            }),
    {
        let joined = join_strings(&fields, ",");
        CreateRequestBuilder { pluck: Some(joined), ..self }
    }

    pub fn record(self, value: &str) -> (r: Self)
        ensures
            r@ == (CreateRequestBuilderView { record: Some(value@), ..self@ }),
    {
        CreateRequestBuilder { record: Some(owned(value)), ..self }
    }

    pub fn build(self) -> (r: CreateRequest)
        ensures
            r@ == self@.build(),
    {
        CreateRequest {
            params: Some(CreateParams { table: or_empty_string(self.table) }),
            query: Some(
                Query {
                    pluck: or_empty_string(self.pluck),
                    durability: or_empty_string(self.durability),
                },
            ),
            body: Some(CreateBody { record: or_empty_string(self.record), entity_prefix: String::new() }),
        }
    }
}

} // verus!
