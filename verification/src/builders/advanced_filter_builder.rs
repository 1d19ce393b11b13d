use crate::requests::{AdvanceFilter, AdvanceFilterView};
use crate::text::owned;
use vstd::prelude::*;

verus! {

/// Builds an [`AdvanceFilter`]; every part starts empty.
pub struct AdvanceFilterBuilder {
    type_: String,
    field: String,
    operator: String,
    entity: String,
    values: String,
}

impl View for AdvanceFilterBuilder {
    type V = AdvanceFilterView;

    closed spec fn view(&self) -> AdvanceFilterView {
        AdvanceFilterView {
            type_: self.type_@,
            field: self.field@,
            operator: self.operator@,
            entity: self.entity@,
            values: self.values@,
        }
    }
}

impl AdvanceFilterBuilder {
    pub fn new() -> (r: Self)
        ensures
            r@ == (AdvanceFilterView {
                type_: Seq::empty(),
                field: Seq::empty(),
                operator: Seq::empty(),
                entity: Seq::empty(),
                values: Seq::empty(),
            }),
    {
        AdvanceFilterBuilder {
            type_: String::new(),
            field: String::new(),
            operator: String::new(),
            entity: String::new(),
            values: String::new(),
        }
    }

    pub fn type_(self, value: &str) -> (r: Self)
        ensures
            r@ == (AdvanceFilterView { type_: value@, ..self@ }),
    {
        AdvanceFilterBuilder { type_: owned(value), ..self }
    }

    pub fn field(self, value: &str) -> (r: Self)
        ensures
            r@ == (AdvanceFilterView { field: value@, ..self@ }),
    {
        AdvanceFilterBuilder { field: owned(value), ..self }
    }

    pub fn operator(self, value: &str) -> (r: Self)
        ensures
            r@ == (AdvanceFilterView { operator: value@, ..self@ }),
    {
        AdvanceFilterBuilder { operator: owned(value), ..self }
    }

    pub fn entity(self, value: &str) -> (r: Self)
        ensures
            r@ == (AdvanceFilterView { entity: value@, ..self@ }),
    {
        AdvanceFilterBuilder { entity: owned(value), ..self }
    }

    pub fn values(self, value: &str) -> (r: Self)
        ensures
            r@ == (AdvanceFilterView { values: value@, ..self@ }),
    {
        AdvanceFilterBuilder { values: owned(value), ..self }
    }

    /// The filter with the parts recorded so far.
    pub fn build(self) -> (r: AdvanceFilter)
        ensures
            r@ == self@,
    {
        AdvanceFilter {
            type_: self.type_,
            field: self.field,
            operator: self.operator,
            entity: self.entity,
            values: self.values,
        }
    }
}

} // verus!
