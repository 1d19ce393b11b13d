use crate::requests::{
    BatchCreateBody, BatchCreateBodyView, BatchCreateRequest, BatchCreateRequestView,
    CreateParams, CreateParamsView, Query, QueryView,
};
use crate::text::{or_empty, or_empty_string, owned};
use vstd::prelude::*;

verus! {

/// Builds a [`BatchCreateRequest`] for several records given as one JSON array.
pub struct BatchCreateRequestBuilder {
    table: Option<String>,
    pluck: Option<String>,
    durability: Option<String>,
    records: Option<String>,
    entity_prefix: Option<String>,
}

pub struct BatchCreateRequestBuilderView {
    pub table: Option<Seq<char>>,
    pub pluck: Option<Seq<char>>,
    pub durability: Option<Seq<char>>,
    pub records: Option<Seq<char>>,
    pub entity_prefix: Option<Seq<char>>,
}

impl View for BatchCreateRequestBuilder {
    type V = BatchCreateRequestBuilderView;

    closed spec fn view(&self) -> BatchCreateRequestBuilderView {
        BatchCreateRequestBuilderView {
            table: self.table.deep_view(),
            pluck: self.pluck.deep_view(),
            durability: self.durability.deep_view(),
            records: self.records.deep_view(),
            entity_prefix: self.entity_prefix.deep_view(),
        }
    }
}

/// The durability of a batch write when none was set.
pub open spec fn default_batch_durability() -> Seq<char> {
    "soft"@
}

impl BatchCreateRequestBuilderView {
    /// The request: a durability not set is `"soft"`, anything else not set is empty.
    pub open spec fn build(self) -> BatchCreateRequestView {
        BatchCreateRequestView {
            params: Some(CreateParamsView { table: or_empty(self.table) }),
            query: Some(
                QueryView {
                    pluck: or_empty(self.pluck),
                    durability: match self.durability {
                        Some(d) => d,
                        None => default_batch_durability(),
                    },
                },
            ),
            body: Some(
                BatchCreateBodyView {
                    records: or_empty(self.records),
                    entity_prefix: or_empty(self.entity_prefix),
                },
            ),
        }
    }
}

impl BatchCreateRequestBuilder {
    pub fn new() -> (r: Self)
        ensures
            r@ == (BatchCreateRequestBuilderView {
                table: None,
                pluck: None,
                durability: None,
                records: None,
                entity_prefix: None,
            }),
    {
        BatchCreateRequestBuilder {
            table: None,
            pluck: None,
            durability: None,
            records: None,
            entity_prefix: None,
        }
    }

    pub fn table(self, table: &str) -> (r: Self)
        ensures
            r@ == (BatchCreateRequestBuilderView { table: Some(table@), ..self@ }),
    {
        BatchCreateRequestBuilder { table: Some(owned(table)), ..self }
    }

    pub fn pluck(self, pluck: &str) -> (r: Self)
        ensures
            r@ == (BatchCreateRequestBuilderView { pluck: Some(pluck@), ..self@ }),
    {
        BatchCreateRequestBuilder { pluck: Some(owned(pluck)), ..self }
    }

    pub fn durability(self, durability: &str) -> (r: Self)
        ensures
            r@ == (BatchCreateRequestBuilderView { durability: Some(durability@), ..self@ }),
    {
        BatchCreateRequestBuilder { durability: Some(owned(durability)), ..self }
    }

    pub fn records(self, records: &str) -> (r: Self)
        ensures
            r@ == (BatchCreateRequestBuilderView { records: Some(records@), ..self@ }),
    {
        BatchCreateRequestBuilder { records: Some(owned(records)), ..self }
    }

    pub fn entity_prefix(self, prefix: &str) -> (r: Self)
        ensures
            r@ == (BatchCreateRequestBuilderView { entity_prefix: Some(prefix@), ..self@ }),
    {
        BatchCreateRequestBuilder { entity_prefix: Some(owned(prefix)), ..self }
    }

    pub fn build(self) -> (r: BatchCreateRequest)
        ensures
            r@ == self@.build(),
    {
        let durability = match self.durability {
            Some(d) => d,
            None => owned("soft"),
        };
        BatchCreateRequest {
            params: Some(CreateParams { table: or_empty_string(self.table) }),
            query: Some(Query { pluck: or_empty_string(self.pluck), durability }),
            body: Some(
                BatchCreateBody {
                    records: or_empty_string(self.records),
                    entity_prefix: or_empty_string(self.entity_prefix),
                },
            ),
        }
    }
}

} // verus!
