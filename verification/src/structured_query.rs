//! The structured-query wire message, modelled field for field.
//!
//! The protocol fixes this schema externally; this module restates it over
//! plain values so that every function assembling a query can be verified.
//! Operator enums carry the protocol's integer codes via [`code`] methods
//! rather than discriminants, and each message type has a spec-level model
//! reachable through its view.

use vstd::prelude::*;

use googleapis_tonic_google_firestore_v1::google::firestore::v1::Value;

verus! {

broadcast use vstd::std_specs::vec::group_vec_axioms;

/// A reference to a field in a document, as the rendered wire string.
#[derive(Debug, PartialEq)]
pub struct FieldReference {
    pub field_path: String,
}

/// Spec-level model of [`FieldReference`].
#[verifier::ext_equal]
pub struct SpecFieldReference {
    pub field_path: Seq<char>,
}

impl View for FieldReference {
    type V = SpecFieldReference;

    open spec fn view(&self) -> SpecFieldReference {
        SpecFieldReference { field_path: self.field_path@ }
    }
}

impl Clone for FieldReference {
    fn clone(&self) -> (r: Self)
        ensures
            r == *self,
    {
        FieldReference { field_path: self.field_path.clone() }
    }
}

/// The operator of a composite filter.
#[derive(Clone, Copy, Debug, PartialEq, Eq, Structural)]
pub enum CompositeFilterOperator {
    Unspecified,
    And,
    Or,
}

impl CompositeFilterOperator {
    /// The protocol's integer code for this operator.
    pub open spec fn spec_code(self) -> i32 {
        match self {
            CompositeFilterOperator::Unspecified => 0i32,
            CompositeFilterOperator::And => 1i32,
            CompositeFilterOperator::Or => 2i32,
        }
    }

    /// Maps this operator to the protocol's integer code.
    #[verifier::when_used_as_spec(spec_code)]
    pub fn code(self) -> (r: i32)
        ensures
            r == self.spec_code(),
    {
        match self {
            CompositeFilterOperator::Unspecified => 0,
            CompositeFilterOperator::And => 1,
            CompositeFilterOperator::Or => 2,
        }
    }
}

/// The operator of a filter on a document field.
#[derive(Clone, Copy, Debug, PartialEq, Eq, Structural)]
pub enum FieldFilterOperator {
    Unspecified,
    LessThan,
    LessThanOrEqual,
    GreaterThan,
    GreaterThanOrEqual,
    Equal,
    NotEqual,
    ArrayContains,
    In,
    ArrayContainsAny,
    NotIn,
}

impl FieldFilterOperator {
    /// The protocol's integer code for this operator.
    pub open spec fn spec_code(self) -> i32 {
        match self {
            FieldFilterOperator::Unspecified => 0i32,
            FieldFilterOperator::LessThan => 1i32,
            FieldFilterOperator::LessThanOrEqual => 2i32,
            FieldFilterOperator::GreaterThan => 3i32,
            FieldFilterOperator::GreaterThanOrEqual => 4i32,
            FieldFilterOperator::Equal => 5i32,
            FieldFilterOperator::NotEqual => 6i32,
            FieldFilterOperator::ArrayContains => 7i32,
            FieldFilterOperator::In => 8i32,
            FieldFilterOperator::ArrayContainsAny => 9i32,
            FieldFilterOperator::NotIn => 10i32,
        }
    }

    /// Maps this operator to the protocol's integer code.
    #[verifier::when_used_as_spec(spec_code)]
    pub fn code(self) -> (r: i32)
        ensures
            r == self.spec_code(),
    {
        match self {
            FieldFilterOperator::Unspecified => 0,
            FieldFilterOperator::LessThan => 1,
            FieldFilterOperator::LessThanOrEqual => 2,
            FieldFilterOperator::GreaterThan => 3,
            FieldFilterOperator::GreaterThanOrEqual => 4,
            FieldFilterOperator::Equal => 5,
            FieldFilterOperator::NotEqual => 6,
            FieldFilterOperator::ArrayContains => 7,
            FieldFilterOperator::In => 8,
            FieldFilterOperator::ArrayContainsAny => 9,
            FieldFilterOperator::NotIn => 10,
        }
    }
}

/// The operator of a filter that takes exactly one argument.
#[derive(Clone, Copy, Debug, PartialEq, Eq, Structural)]
pub enum UnaryFilterOperator {
    Unspecified,
    IsNan,
    IsNull,
    IsNotNan,
    IsNotNull,
}

impl UnaryFilterOperator {
    /// The protocol's integer code for this operator.
    pub open spec fn spec_code(self) -> i32 {
        match self {
            UnaryFilterOperator::Unspecified => 0i32,
            UnaryFilterOperator::IsNan => 2i32,
            UnaryFilterOperator::IsNull => 3i32,
            UnaryFilterOperator::IsNotNan => 4i32,
            UnaryFilterOperator::IsNotNull => 5i32,
        }
    }

    /// Maps this operator to the protocol's integer code.
    #[verifier::when_used_as_spec(spec_code)]
    pub fn code(self) -> (r: i32)
        ensures
            r == self.spec_code(),
    {
        match self {
            UnaryFilterOperator::Unspecified => 0,
            UnaryFilterOperator::IsNan => 2,
            UnaryFilterOperator::IsNull => 3,
            UnaryFilterOperator::IsNotNan => 4,
            UnaryFilterOperator::IsNotNull => 5,
        }
    }
}

/// A sort direction.
#[derive(Clone, Copy, Debug, PartialEq, Eq, Structural)]
pub enum Direction {
    Unspecified,
    Ascending,
    Descending,
}

impl Direction {
    /// The protocol's integer code for this direction.
    pub open spec fn spec_code(self) -> i32 {
        match self {
            Direction::Unspecified => 0i32,
            Direction::Ascending => 1i32,
            Direction::Descending => 2i32,
        }
    }

    /// Maps this direction to the protocol's integer code.
    #[verifier::when_used_as_spec(spec_code)]
    pub fn code(self) -> (r: i32)
        ensures
            r == self.spec_code(),
    {
        match self {
            Direction::Unspecified => 0,
            Direction::Ascending => 1,
            Direction::Descending => 2,
        }
    }
}

/// A filter.
#[derive(Debug, PartialEq)]
pub struct Filter {
    pub filter_type: Option<FilterType>,
}

/// The type of filter.
#[derive(Debug, PartialEq)]
pub enum FilterType {
    CompositeFilter(CompositeFilter),
    FieldFilter(FieldFilter),
    UnaryFilter(UnaryFilter),
}

/// A filter that merges multiple other filters using the given operator.
#[derive(Debug, PartialEq)]
pub struct CompositeFilter {
    pub op: i32,
    pub filters: Vec<Filter>,
}

/// A filter on a specific field.
#[derive(Debug, PartialEq)]
pub struct FieldFilter {
    pub field: Option<FieldReference>,
    pub op: i32,
    pub value: Option<Value>,
}

/// A filter with a single operand.
#[derive(Debug, PartialEq)]
pub struct UnaryFilter {
    pub op: i32,
    pub operand_type: Option<OperandType>,
}

/// The argument to a unary filter.
#[derive(Debug, PartialEq)]
pub enum OperandType {
    Field(FieldReference),
}

/// Spec-level model of [`Filter`].
#[verifier::ext_equal]
pub struct SpecFilter {
    pub filter_type: Option<SpecFilterType>,
}

/// Spec-level model of [`FilterType`].
#[verifier::ext_equal]
pub enum SpecFilterType {
    CompositeFilter(SpecCompositeFilter),
    FieldFilter(SpecFieldFilter),
    UnaryFilter(SpecUnaryFilter),
}

/// Spec-level model of [`CompositeFilter`].
#[verifier::ext_equal]
pub struct SpecCompositeFilter {
    pub op: i32,
    pub filters: Seq<SpecFilter>,
}

/// Spec-level model of [`FieldFilter`].
#[verifier::ext_equal]
pub struct SpecFieldFilter {
    pub field: Option<SpecFieldReference>,
    pub op: i32,
    pub value: Option<Value>,
}

/// Spec-level model of [`UnaryFilter`].
#[verifier::ext_equal]
pub struct SpecUnaryFilter {
    pub op: i32,
    pub operand_type: Option<SpecOperandType>,
}

/// Spec-level model of [`OperandType`].
#[verifier::ext_equal]
pub enum SpecOperandType {
    Field(SpecFieldReference),
}

/// Spec-level models of a sequence of filters, in order.
pub open spec fn models_of(filters: Seq<Filter>) -> Seq<SpecFilter>
    decreases filters,
{
    if filters.len() == 0 {
        Seq::empty()
    } else {
        seq![filters[0].model()] + models_of(filters.drop_first())
    }
}

/// `models_of` maps each filter of a sequence to its model.
pub proof fn lemma_models_of(filters: Seq<Filter>)
    ensures
        models_of(filters).len() == filters.len(),
        forall|i: int| 0 <= i < filters.len() ==> models_of(filters)[i] == filters[i].model(),
    decreases filters.len(),
{
    if filters.len() > 0 {
        lemma_models_of(filters.drop_first());
    }
}

impl Filter {
    /// The spec-level model of this filter tree.
    pub open spec fn model(self) -> SpecFilter
        decreases self,
    {
        SpecFilter {
            filter_type: match self.filter_type {
                None => None,
                Some(FilterType::CompositeFilter(c)) => Some(
                    SpecFilterType::CompositeFilter(
                        SpecCompositeFilter { op: c.op, filters: models_of(c.filters@) },
                    ),
                ),
                Some(FilterType::FieldFilter(f)) => Some(
                    SpecFilterType::FieldFilter(
                        SpecFieldFilter {
                            field: match f.field {
                                None => None,
                                Some(fr) => Some(fr@),
                            },
                            op: f.op,
                            value: f.value,
                        },
                    ),
                ),
                Some(FilterType::UnaryFilter(u)) => Some(
                    SpecFilterType::UnaryFilter(
                        SpecUnaryFilter {
                            op: u.op,
                            operand_type: match u.operand_type {
                                None => None,
                                Some(OperandType::Field(fr)) => Some(SpecOperandType::Field(fr@)),
                            },
                        },
                    ),
                ),
            },
        }
    }
}

impl View for Filter {
    type V = SpecFilter;

    open spec fn view(&self) -> SpecFilter {
        self.model()
    }
}

impl Clone for Filter {
    fn clone(&self) -> (r: Self)
        ensures
            r@ == self@,
        decreases *self,
    {
        match &self.filter_type {
            None => Filter { filter_type: None },
            Some(FilterType::CompositeFilter(c)) => {
                let mut filters: Vec<Filter> = Vec::new();
                let n = c.filters.len();
                for i in 0..n
                    invariant
                        self.filter_type == Some(FilterType::CompositeFilter(*c)),
                        n == c.filters@.len(),
                        filters@.len() == i,
                        forall|j: int| 0 <= j < i ==> filters@[j]@ == c.filters@[j]@,
                {
                    proof {
                        let ft = self.filter_type->Some_0;
                        let cf = ft->CompositeFilter_0;
                        assert(decreases_to!(cf.filters => cf.filters@[i as int]));
                        assert(decreases_to!(*self => cf.filters@[i as int]));
                    }
                    let sub = c.filters[i].clone();
                    filters.push(sub);
                }
                proof {
                    lemma_models_of(filters@);
                    lemma_models_of(c.filters@);
                    assert(models_of(filters@) =~= models_of(c.filters@));
                }
                let r = Filter {
                    filter_type: Some(
                        FilterType::CompositeFilter(CompositeFilter { op: c.op, filters }),
                    ),
                };
                proof {
                    assert(r@ =~~= self@);
                }
                r
            },
            Some(FilterType::FieldFilter(f)) => {
                let field = match &f.field {
                    None => None,
                    Some(fr) => Some(fr.clone()),
                };
                let value = match &f.value {
                    None => None,
                    Some(v) => Some(v.clone()),
                };
                Filter {
                    filter_type: Some(
                        FilterType::FieldFilter(FieldFilter { field, op: f.op, value }),
                    ),
                }
            },
            Some(FilterType::UnaryFilter(u)) => {
                let operand_type = match &u.operand_type {
                    None => None,
                    Some(OperandType::Field(fr)) => Some(OperandType::Field(fr.clone())),
                };
                Filter {
                    filter_type: Some(
                        FilterType::UnaryFilter(UnaryFilter { op: u.op, operand_type }),
                    ),
                }
            },
        }
    }
}

/// An order on a field.
#[derive(Debug, PartialEq)]
pub struct Order {
    pub field: Option<FieldReference>,
    pub direction: i32,
}

/// Spec-level model of [`Order`].
#[verifier::ext_equal]
pub struct SpecOrder {
    pub field: Option<SpecFieldReference>,
    pub direction: i32,
}

impl View for Order {
    type V = SpecOrder;

    open spec fn view(&self) -> SpecOrder {
        SpecOrder {
            field: match self.field {
                None => None,
                Some(fr) => Some(fr@),
            },
            direction: self.direction,
        }
    }
}

impl Clone for Order {
    fn clone(&self) -> (r: Self)
        ensures
            r == *self,
    {
        Order {
            field: match &self.field {
                None => None,
                Some(fr) => Some(fr.clone()),
            },
            direction: self.direction,
        }
    }
}

/// The projection of a document's fields to return.
#[derive(Debug, PartialEq)]
pub struct Projection {
    pub fields: Vec<FieldReference>,
}

/// Spec-level model of [`Projection`].
#[verifier::ext_equal]
pub struct SpecProjection {
    pub fields: Seq<SpecFieldReference>,
}

impl View for Projection {
    type V = SpecProjection;

    open spec fn view(&self) -> SpecProjection {
        SpecProjection { fields: self.fields@.map_values(|fr: FieldReference| fr@) }
    }
}

impl Clone for Projection {
    fn clone(&self) -> (r: Self)
        ensures
            r@ == self@,
    {
        let fields = self.fields.clone();
        proof {
            assert(fields@ =~= self.fields@);
        }
        Projection { fields }
    }
}

/// A selection of a collection.
#[derive(Debug, PartialEq)]
pub struct CollectionSelector {
    pub collection_id: String,
    pub all_descendants: bool,
}

/// Spec-level model of [`CollectionSelector`].
#[verifier::ext_equal]
pub struct SpecCollectionSelector {
    pub collection_id: Seq<char>,
    pub all_descendants: bool,
}

impl View for CollectionSelector {
    type V = SpecCollectionSelector;

    open spec fn view(&self) -> SpecCollectionSelector {
        SpecCollectionSelector {
            collection_id: self.collection_id@,
            all_descendants: self.all_descendants,
        }
    }
}

impl Clone for CollectionSelector {
    fn clone(&self) -> (r: Self)
        ensures
            r == *self,
    {
        CollectionSelector {
            collection_id: self.collection_id.clone(),
            all_descendants: self.all_descendants,
        }
    }
}

/// A position in a result set, as a list of values and an inclusivity flag.
#[derive(Debug, PartialEq)]
pub struct Cursor {
    pub values: Vec<Value>,
    pub before: bool,
}

/// Spec-level model of [`Cursor`].
#[verifier::ext_equal]
pub struct SpecCursor {
    pub values: Seq<Value>,
    pub before: bool,
}

impl View for Cursor {
    type V = SpecCursor;

    open spec fn view(&self) -> SpecCursor {
        SpecCursor { values: self.values@, before: self.before }
    }
}

impl Clone for Cursor {
    fn clone(&self) -> (r: Self)
        ensures
            r@ == self@,
    {
        let values = self.values.clone();
        proof {
            assert(values@ =~= self.values@);
        }
        Cursor { values, before: self.before }
    }
}

/// A structured query: the single wire message this crate assembles.
#[derive(Debug, PartialEq)]
pub struct StructuredQuery {
    pub select: Option<Projection>,
    pub from: Vec<CollectionSelector>,
    pub where_: Option<Filter>,
    pub order_by: Vec<Order>,
    pub start_at: Option<Cursor>,
    pub end_at: Option<Cursor>,
    pub offset: i32,
    pub limit: Option<i32>,
}

/// Spec-level model of [`StructuredQuery`].
#[verifier::ext_equal]
pub struct SpecStructuredQuery {
    pub select: Option<SpecProjection>,
    pub from: Seq<SpecCollectionSelector>,
    pub where_: Option<SpecFilter>,
    pub order_by: Seq<SpecOrder>,
    pub start_at: Option<SpecCursor>,
    pub end_at: Option<SpecCursor>,
    pub offset: i32,
    pub limit: Option<i32>,
}

impl View for StructuredQuery {
    type V = SpecStructuredQuery;

    open spec fn view(&self) -> SpecStructuredQuery {
        SpecStructuredQuery {
            select: match self.select {
                None => None,
                Some(p) => Some(p@),
            },
            from: self.from@.map_values(|c: CollectionSelector| c@),
            where_: match self.where_ {
                None => None,
                Some(f) => Some(f.model()),
            },
            order_by: self.order_by@.map_values(|o: Order| o@),
            start_at: match self.start_at {
                None => None,
                Some(c) => Some(c@),
            },
            end_at: match self.end_at {
                None => None,
                Some(c) => Some(c@),
            },
            offset: self.offset,
            limit: self.limit,
        }
    }
}

impl Clone for StructuredQuery {
    fn clone(&self) -> (r: Self)
        ensures
            r@ == self@,
    {
        let select = match &self.select {
            None => None,
            Some(p) => Some(p.clone()),
        };
        let from = self.from.clone();
        let where_ = match &self.where_ {
            None => None,
            Some(f) => Some(f.clone()),
        };
        let order_by = self.order_by.clone();
        let start_at = match &self.start_at {
            None => None,
            Some(c) => Some(c.clone()),
        };
        let end_at = match &self.end_at {
            None => None,
            Some(c) => Some(c.clone()),
        };
        proof {
            assert(from@ =~= self.from@);
            assert(order_by@ =~= self.order_by@);
        }
        let r = StructuredQuery {
            select,
            from,
            where_,
            order_by,
            start_at,
            end_at,
            offset: self.offset,
            limit: self.limit,
        };
        proof {
            assert(r@ =~~= self@) by {
                assert(r.from@.map_values(|c: CollectionSelector| c@) =~= self.from@.map_values(
                    |c: CollectionSelector| c@,
                ));
                assert(r.order_by@.map_values(|o: Order| o@) =~= self.order_by@.map_values(
                    |o: Order| o@,
                ));
            }
        }
        r
    }
}

} // verus!
