//! Query orders: a field paired with a sort direction.

use vstd::prelude::*;

use crate::field_path::FieldPath;
use crate::structured_query;
use crate::structured_query::Direction;
use crate::structured_query::SpecOrder;

verus! {

/// A Firestore query order.
///
/// Pairs a rendered field reference with a sort direction.
#[derive(Debug, PartialEq)]
pub struct Order(pub structured_query::Order);

impl View for Order {
    type V = SpecOrder;

    open spec fn view(&self) -> SpecOrder {
        self.0@
    }
}

impl Clone for Order {
    fn clone(&self) -> (r: Self)
        ensures
            r == *self,
    {
        Order(self.0.clone())
    }
}

impl Order {
    /// Creates a new order on the given field in the given direction.
    pub(crate) fn new(field_path: FieldPath, direction: Direction) -> (r: Self)
        ensures
            r@ == (SpecOrder {
                field: Some(field_path.spec_field_reference()),
                direction: direction.spec_code(),
            }),
    {
        Order(
            structured_query::Order {
                field: Some(field_path.field_reference()),
                direction: direction.code(),
            },
        )
    }
}

impl core::convert::From<Order> for structured_query::Order {
    /// Unwraps the built order into its wire form.
    fn from(order: Order) -> (r: Self) {
        order.0
    }
}

impl vstd::std_specs::convert::FromSpecImpl<Order> for structured_query::Order {
    open spec fn obeys_from_spec() -> bool {
        true
    }

    open spec fn from_spec(v: Order) -> structured_query::Order {
        v.0
    }
}

} // verus!
