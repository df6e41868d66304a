//! Query filters: field filters, unary filters and composite filters.

use vstd::prelude::*;

use googleapis_tonic_google_firestore_v1::google::firestore::v1::Value;

use crate::error::Error;
use crate::field_path::FieldPath;
use crate::structured_query;
use crate::structured_query::CompositeFilterOperator;
use crate::structured_query::FieldFilter;
use crate::structured_query::FieldFilterOperator;
use crate::structured_query::FilterType;
use crate::structured_query::OperandType;
use crate::structured_query::SpecCompositeFilter;
use crate::structured_query::SpecFieldFilter;
use crate::structured_query::SpecFieldReference;
use crate::structured_query::SpecFilter;
use crate::structured_query::SpecFilterType;
use crate::structured_query::SpecOperandType;
use crate::structured_query::SpecUnaryFilter;
use crate::structured_query::UnaryFilter;
use crate::structured_query::UnaryFilterOperator;
use crate::value::IntoValue;

verus! {

/// The wire filter combining the given sub-filters under the given operator,
/// in their order.
pub open spec fn spec_composite_filter(
    op: CompositeFilterOperator,
    filters: Seq<SpecFilter>,
) -> SpecFilter {
    SpecFilter {
        filter_type: Some(
            SpecFilterType::CompositeFilter(
                SpecCompositeFilter { op: op.spec_code(), filters },
            ),
        ),
    }
}

/// The wire filter comparing the given field against the given value under
/// the given operator.
pub open spec fn spec_field_filter(
    field: SpecFieldReference,
    op: FieldFilterOperator,
    value: Value,
) -> SpecFilter {
    SpecFilter {
        filter_type: Some(
            SpecFilterType::FieldFilter(
                SpecFieldFilter { field: Some(field), op: op.spec_code(), value: Some(value) },
            ),
        ),
    }
}

/// The wire filter testing the given field under the given unary operator.
pub open spec fn spec_unary_filter(
    field: SpecFieldReference,
    op: UnaryFilterOperator,
) -> SpecFilter {
    SpecFilter {
        filter_type: Some(
            SpecFilterType::UnaryFilter(
                SpecUnaryFilter {
                    op: op.spec_code(),
                    operand_type: Some(SpecOperandType::Field(field)),
                },
            ),
        ),
    }
}

/// A Firestore query filter.
///
/// Wraps exactly one wire filter: a field filter, a unary filter, or a
/// composite filter over further filters.
#[derive(Debug, PartialEq)]
pub struct Filter(pub structured_query::Filter);

impl View for Filter {
    type V = SpecFilter;

    open spec fn view(&self) -> SpecFilter {
        self.0.model()
    }
}

impl Clone for Filter {
    fn clone(&self) -> (r: Self)
        ensures
            r@ == self@,
    {
        Filter(self.0.clone())
    }
}

impl Filter {
    /// Creates a new `CompositeFilter` with the `And` operator, combining
    /// the given filters in order. Any number of filters is legal, zero and
    /// one included.
    pub fn and(filters: Vec<Filter>) -> (r: Self)
        ensures
            r@ == spec_composite_filter(
                CompositeFilterOperator::And,
                Seq::new(filters@.len(), |i: int| filters@[i]@),
            ),
    {
        Filter(Self::composite(CompositeFilterOperator::And, filters))
    }

    /// Creates a new `CompositeFilter` with the `Or` operator, combining
    /// the given filters in order. Any number of filters is legal, zero and
    /// one included.
    pub fn or(filters: Vec<Filter>) -> (r: Self)
        ensures
            r@ == spec_composite_filter(
                CompositeFilterOperator::Or,
                Seq::new(filters@.len(), |i: int| filters@[i]@),
            ),
    {
        Filter(Self::composite(CompositeFilterOperator::Or, filters))
    }

    /// Combines the given filters into one wire composite filter.
    fn composite(op: CompositeFilterOperator, filters: Vec<Filter>) -> (r:
        structured_query::Filter)
        ensures
            r.model() == spec_composite_filter(
                op,
                Seq::new(filters@.len(), |i: int| filters@[i]@),
            ),
    {
        let ghost orig = filters@;
        let mut rest = filters;
        let mut inner: Vec<structured_query::Filter> = Vec::new();
        while rest.len() > 0
            invariant
                inner@.len() + rest@.len() == orig.len(),
                forall|j: int| 0 <= j < inner@.len() ==> inner@[j] == orig[j].0,
                forall|j: int|
                    0 <= j < rest@.len() ==> rest@[j] == orig[inner@.len() + j],
            decreases rest@.len(),
        {
            let f = rest.remove(0);
            inner.push(f.0);
        }
        let r = structured_query::Filter {
            filter_type: Some(
                FilterType::CompositeFilter(
                    structured_query::CompositeFilter { op: op.code(), filters: inner },
                ),
            ),
        };
        proof {
            let innerseq = r.filter_type->Some_0->CompositeFilter_0.filters@;
            structured_query::lemma_models_of(innerseq);
            assert(structured_query::models_of(innerseq) =~= Seq::new(
                orig.len(),
                |i: int| orig[i]@,
            ));
            assert(r.model() =~~= spec_composite_filter(
                op,
                Seq::new(orig.len(), |i: int| orig[i]@),
            ));
        }
        r
    }

    /// Creates a new `FieldFilter` comparing the given field against the
    /// given value. The value is converted through the [`IntoValue`]
    /// boundary; a conversion failure is returned unchanged.
    pub(crate) fn field<T: IntoValue>(field_path: FieldPath, op: FieldFilterOperator, value: T) -> (r:
        Result<Filter, Error>)
        ensures
            r matches Ok(f) ==> f@.filter_type matches Some(SpecFilterType::FieldFilter(ff))
                && ff.field == Some(field_path.spec_field_reference())
                && ff.op == op.spec_code()
                && (ff.value matches Some(v) && value.converts_to(Ok(v))),
            r matches Err(e) ==> value.converts_to(Err(e)),
    {
        let ghost value0 = value;
        match value.into_value() {
            Err(e) => Err(e),
            Ok(v) => {
                let ghost gv = v;
                let fr = field_path.field_reference();
                let f = Filter(
                    structured_query::Filter {
                        filter_type: Some(
                            FilterType::FieldFilter(
                                FieldFilter { field: Some(fr), op: op.code(), value: Some(v) },
                            ),
                        ),
                    },
                );
                proof {
                    assert(f@ =~~= spec_field_filter(field_path.spec_field_reference(), op, gv));
                }
                Ok(f)
            },
        }
    }

    /// Creates a new `UnaryFilter` testing the given field. Cannot fail; the
    /// `Result` only mirrors the fallible field-filter constructors.
    pub(crate) fn unary(field_path: FieldPath, op: UnaryFilterOperator) -> (r: Result<
        Filter,
        Error,
    >)
        ensures
            r matches Ok(f) && f@ == spec_unary_filter(field_path.spec_field_reference(), op),
    {
        let fr = field_path.field_reference();
        Ok(
            Filter(
                structured_query::Filter {
                    filter_type: Some(
                        FilterType::UnaryFilter(
                            UnaryFilter {
                                op: op.code(),
                                operand_type: Some(OperandType::Field(fr)),
                            },
                        ),
                    ),
                },
            ),
        )
    }
}

/// A field filter built from an already-built wire value cannot fail, and it
/// renders to exactly the manually assembled wire filter: the same rendered
/// field reference, the same operator code, the same value.
pub proof fn lemma_field_filter_from_wire_value(
    path: &FieldPath,
    v: Value,
    r: Result<Filter, Error>,
)
    requires
        call_ensures(FieldPath::equal::<Value>, (path, v), r),
    ensures
        r matches Ok(f) && f@ == spec_field_filter(
            path.spec_field_reference(),
            FieldFilterOperator::Equal,
            v,
        ),
{
    let f = r->Ok_0;
    assert(f@ =~~= spec_field_filter(
        path.spec_field_reference(),
        FieldFilterOperator::Equal,
        v,
    ));
}

impl core::convert::From<Filter> for structured_query::Filter {
    /// Unwraps the built filter into its wire form.
    fn from(filter: Filter) -> (r: Self) {
        filter.0
    }
}

impl vstd::std_specs::convert::FromSpecImpl<Filter> for structured_query::Filter {
    open spec fn obeys_from_spec() -> bool {
        true
    }

    open spec fn from_spec(v: Filter) -> structured_query::Filter {
        v.0
    }
}

} // verus!
