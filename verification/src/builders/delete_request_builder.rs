use crate::requests::{
    DeleteQuery, DeleteQueryView, DeleteRequest, DeleteRequestView, Params, ParamsView,
};
use crate::text::{
    flag_string, flag_text, or_empty, or_empty_string, owned, root_type, root_type_string,
};
use vstd::prelude::*;

verus! {

/// Builds a [`DeleteRequest`].
pub struct DeleteRequestBuilder {
    id: Option<String>,
    table: Option<String>,
    is_root: bool,
    is_permanent: bool,
}

pub struct DeleteRequestBuilderView {
    pub id: Option<Seq<char>>,
    pub table: Option<Seq<char>>,
    pub is_root: bool,
    pub is_permanent: bool,
}

impl View for DeleteRequestBuilder {
    type V = DeleteRequestBuilderView;

    closed spec fn view(&self) -> DeleteRequestBuilderView {
        DeleteRequestBuilderView {
            id: self.id.deep_view(),
            table: self.table.deep_view(),
            is_root: self.is_root,
            is_permanent: self.is_permanent,
        }
    }
}

impl DeleteRequestBuilderView {
    pub open spec fn build(self) -> DeleteRequestView {
        DeleteRequestView {
            params: Some(
                ParamsView {
                    id: or_empty(self.id),
                    table: or_empty(self.table),
                    type_: root_type(self.is_root),
                },
            ),
            query: Some(DeleteQueryView { is_permanent: flag_text(self.is_permanent) }),
        }
    }
}

impl DeleteRequestBuilder {
    pub fn new() -> (r: Self)
        ensures
            r@ == (DeleteRequestBuilderView {
                id: None,
                table: None,
                is_root: false,
                is_permanent: false,
            }),
    {
        DeleteRequestBuilder { id: None, table: None, is_root: false, is_permanent: false }
    }

    pub fn id(self, id: &str) -> (r: Self)
        ensures
            r@ == (DeleteRequestBuilderView { id: Some(id@), ..self@ }),
    {
        DeleteRequestBuilder { id: Some(owned(id)), ..self }
    }

    pub fn table(self, table: &str) -> (r: Self)
        ensures
            r@ == (DeleteRequestBuilderView { table: Some(table@), ..self@ }),
    {
        DeleteRequestBuilder { table: Some(owned(table)), ..self }
    }

    pub fn performed_by_root(self, value: bool) -> (r: Self)
        ensures
            r@ == (DeleteRequestBuilderView { is_root: value, ..self@ }),
    {
        DeleteRequestBuilder { is_root: value, ..self }
    }

    pub fn permanent(self, val: bool) -> (r: Self)
        ensures
            r@ == (DeleteRequestBuilderView { is_permanent: val, ..self@ }),
    {
        DeleteRequestBuilder { is_permanent: val, ..self }
    }

    pub fn build(self) -> (r: DeleteRequest)
        ensures
            r@ == self@.build(),
    {
        DeleteRequest {
            params: Some(
                Params {
                    id: or_empty_string(self.id),
                    table: or_empty_string(self.table),
                    type_: root_type_string(self.is_root),
                },
            ),
            query: Some(DeleteQuery { is_permanent: flag_string(self.is_permanent) }),
        }
    }
}

} // verus!
