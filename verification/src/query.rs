//! The query builder: accumulates projection, source, filter, ordering,
//! cursors, offset and limit, and renders the final wire message.

use vstd::prelude::*;

use googleapis_tonic_google_firestore_v1::google::firestore::v1::Value;

use crate::structured_query;
use crate::structured_query::CollectionSelector;
use crate::structured_query::Cursor;
use crate::structured_query::FieldReference;
use crate::structured_query::Projection;
use crate::structured_query::SpecCollectionSelector;
use crate::structured_query::SpecCursor;
use crate::structured_query::SpecStructuredQuery;

verus! {

/// The empty query over the given source: no projection, no filter, no
/// ordering, no cursors, offset zero and no limit.
pub open spec fn spec_query_from_source(
    collection_id: Seq<char>,
    all_descendants: bool,
) -> SpecStructuredQuery {
    SpecStructuredQuery {
        select: None,
        from: seq![SpecCollectionSelector { collection_id, all_descendants }],
        where_: None,
        order_by: Seq::empty(),
        start_at: None,
        end_at: None,
        offset: 0i32,
        limit: None,
    }
}

/// A Firestore query under construction.
///
/// Each setter fully replaces its field and returns the builder; rendering
/// through `From` is a pure projection of the accumulated state.
#[derive(Debug, PartialEq)]
pub struct Query(pub structured_query::StructuredQuery);

impl View for Query {
    type V = SpecStructuredQuery;

    open spec fn view(&self) -> SpecStructuredQuery {
        self.0@
    }
}

impl Clone for Query {
    fn clone(&self) -> (r: Self)
        ensures
            r@ == self@,
    {
        Query(self.0.clone())
    }
}

impl Query {
    /// Creates a new `Query` over a single collection: `all_descendants` is
    /// false, every other field at its empty default.
    pub fn collection(collection_id: &str) -> (r: Self)
        ensures
            r@ == spec_query_from_source(collection_id@, false),
    {
        Self::from_source(collection_id, false)
    }

    /// Creates a new `Query` over a collection group: `all_descendants` is
    /// true, every other field at its empty default.
    pub fn collection_group(collection_id: &str) -> (r: Self)
        ensures
            r@ == spec_query_from_source(collection_id@, true),
    {
        Self::from_source(collection_id, true)
    }

    /// Builds the empty query over the given source.
    fn from_source(collection_id: &str, all_descendants: bool) -> (r: Self)
        ensures
            r@ == spec_query_from_source(collection_id@, all_descendants),
    {
        let q = structured_query::StructuredQuery {
            select: None,
            from: vec![
                CollectionSelector { collection_id: collection_id.to_owned(), all_descendants },
            ],
            where_: None,
            order_by: Vec::new(),
            start_at: None,
            end_at: None,
            offset: 0,
            limit: None,
        };
        proof {
            assert(q@ =~~= spec_query_from_source(collection_id@, all_descendants));
        }
        Query(q)
    }

    /// Replaces the projection with the given fields, in order. An empty
    /// list is legal and asks for an explicitly empty projection, distinct
    /// from no projection at all.
    pub fn select<F>(self, fields: Vec<F>) -> (r: Self) where FieldReference: core::convert::From<F>
        ensures
            r@.from == self@.from,
            r@.where_ == self@.where_,
            r@.order_by == self@.order_by,
            r@.start_at == self@.start_at,
            r@.end_at == self@.end_at,
            r@.offset == self@.offset,
            r@.limit == self@.limit,
            r.0.select matches Some(p) && p.fields@.len() == fields@.len() && (forall|j: int|
                0 <= j < fields@.len() ==> call_ensures(
                    <FieldReference as core::convert::From<F>>::from,
                    (fields@[j],),
                    #[trigger] p.fields@[j],
                )),
    {
        let ghost orig = fields@;
        let mut rest = fields;
        let mut refs: Vec<FieldReference> = Vec::new();
        while rest.len() > 0
            invariant
                refs@.len() + rest@.len() == orig.len(),
                forall|j: int| 0 <= j < rest@.len() ==> rest@[j] == orig[refs@.len() + j],
                forall|j: int|
                    0 <= j < refs@.len() ==> call_ensures(
                        <FieldReference as core::convert::From<F>>::from,
                        (orig[j],),
                        #[trigger] refs@[j],
                    ),
            decreases rest@.len(),
        {
            let f = rest.remove(0);
            let fr: FieldReference = FieldReference::from(f);
            refs.push(fr);
        }
        let mut q = self.0;
        q.select = Some(Projection { fields: refs });
        Query(q)
    }

    /// Replaces the root filter with the given one.
    pub fn where_<F>(self, filter: F) -> (r: Self) where structured_query::Filter: core::convert::From<F>
        ensures
            r@.select == self@.select,
            r@.from == self@.from,
            r@.order_by == self@.order_by,
            r@.start_at == self@.start_at,
            r@.end_at == self@.end_at,
            r@.offset == self@.offset,
            r@.limit == self@.limit,
            r.0.where_ matches Some(wf) && call_ensures(
                <structured_query::Filter as core::convert::From<F>>::from,
                (filter,),
                wf,
            ),
    {
        let wf: structured_query::Filter = structured_query::Filter::from(filter);
        let mut q = self.0;
        q.where_ = Some(wf);
        Query(q)
    }

    /// Replaces the ordering list with the given orders, in order.
    pub fn order_by<F>(self, order_by: Vec<F>) -> (r: Self) where structured_query::Order: core::convert::From<F>
        ensures
            r@.select == self@.select,
            r@.from == self@.from,
            r@.where_ == self@.where_,
            r@.start_at == self@.start_at,
            r@.end_at == self@.end_at,
            r@.offset == self@.offset,
            r@.limit == self@.limit,
            r.0.order_by@.len() == order_by@.len() && (forall|j: int|
                0 <= j < order_by@.len() ==> call_ensures(
                    <structured_query::Order as core::convert::From<F>>::from,
                    (order_by@[j],),
                    #[trigger] r.0.order_by@[j],
                )),
    {
        let ghost orig = order_by@;
        let mut rest = order_by;
        let mut orders: Vec<structured_query::Order> = Vec::new();
        while rest.len() > 0
            invariant
                orders@.len() + rest@.len() == orig.len(),
                forall|j: int| 0 <= j < rest@.len() ==> rest@[j] == orig[orders@.len() + j],
                forall|j: int|
                    0 <= j < orders@.len() ==> call_ensures(
                        <structured_query::Order as core::convert::From<F>>::from,
                        (orig[j],),
                        #[trigger] orders@[j],
                    ),
            decreases rest@.len(),
        {
            let f = rest.remove(0);
            let o: structured_query::Order = structured_query::Order::from(f);
            orders.push(o);
        }
        let mut q = self.0;
        q.order_by = orders;
        Query(q)
    }

    /// Replaces the start cursor: results start at the given position,
    /// inclusive. Discards any cursor a previous `start_at` or `start_after`
    /// set.
    pub fn start_at(self, values: Vec<Value>) -> (r: Self)
        ensures
            r@ == (SpecStructuredQuery {
                start_at: Some(SpecCursor { values: values@, before: true }),
                ..self@
            }),
    {
        let mut q = self.0;
        q.start_at = Some(Cursor { values, before: true });
        Query(q)
    }

    /// Replaces the start cursor: results start after the given position,
    /// exclusive. Discards any cursor a previous `start_at` or `start_after`
    /// set.
    pub fn start_after(self, values: Vec<Value>) -> (r: Self)
        ensures
            r@ == (SpecStructuredQuery {
                start_at: Some(SpecCursor { values: values@, before: false }),
                ..self@
            }),
    {
        let mut q = self.0;
        q.start_at = Some(Cursor { values, before: false });
        Query(q)
    }

    /// Replaces the end cursor: results end at the given position. The wire
    /// flag `before` is false here; the protocol's cursor semantics invert
    /// the flag's sense on the end side. Discards any cursor a previous
    /// `end_at` or `end_before` set.
    pub fn end_at(self, values: Vec<Value>) -> (r: Self)
        ensures
            r@ == (SpecStructuredQuery {
                end_at: Some(SpecCursor { values: values@, before: false }),
                ..self@
            }),
    {
        let mut q = self.0;
        q.end_at = Some(Cursor { values, before: false });
        Query(q)
    }

    /// Replaces the end cursor: results end before the given position. The
    /// wire flag `before` is true here; the protocol's cursor semantics
    /// invert the flag's sense on the end side. Discards any cursor a
    /// previous `end_at` or `end_before` set.
    pub fn end_before(self, values: Vec<Value>) -> (r: Self)
        ensures
            r@ == (SpecStructuredQuery {
                end_at: Some(SpecCursor { values: values@, before: true }),
                ..self@
            }),
    {
        let mut q = self.0;
        q.end_at = Some(Cursor { values, before: true });
        Query(q)
    }

    /// Replaces the limit.
    pub fn limit(self, limit: i32) -> (r: Self)
        ensures
            r@ == (SpecStructuredQuery { limit: Some(limit), ..self@ }),
    {
        let mut q = self.0;
        q.limit = Some(limit);
        Query(q)
    }

    /// Replaces the offset.
    pub fn offset(self, offset: i32) -> (r: Self)
        ensures
            r@ == (SpecStructuredQuery { offset, ..self@ }),
    {
        let mut q = self.0;
        q.offset = offset;
        Query(q)
    }
}

impl core::convert::From<Query> for structured_query::StructuredQuery {
    /// Renders the builder: a pure, structural copy of the accumulated
    /// state into the wire message.
    fn from(query: Query) -> (r: Self)
        ensures
            r == query.0,
    {
        query.0
    }
}

impl vstd::std_specs::convert::FromSpecImpl<Query> for structured_query::StructuredQuery {
    open spec fn obeys_from_spec() -> bool {
        true
    }

    open spec fn from_spec(v: Query) -> structured_query::StructuredQuery {
        v.0
    }
}

/// Rendering is deterministic: two renders of builders in equal states are
/// equal wire messages.
pub proof fn lemma_render_deterministic(
    q1: Query,
    q2: Query,
    r1: structured_query::StructuredQuery,
    r2: structured_query::StructuredQuery,
)
    requires
        q1@ == q2@,
        call_ensures(
            <structured_query::StructuredQuery as core::convert::From<Query>>::from,
            (q1,),
            r1,
        ),
        call_ensures(
            <structured_query::StructuredQuery as core::convert::From<Query>>::from,
            (q2,),
            r2,
        ),
    ensures
        r1@ == r2@,
{
}

/// The four cursor setters store the given values unchanged; for the same
/// values and starting state, their results differ only in which cursor
/// field is set and in the inclusivity flag.
pub proof fn lemma_cursor_setters(
    q: Query,
    values1: Vec<Value>,
    values2: Vec<Value>,
    r_start_at: Query,
    r_start_after: Query,
    r_end_at: Query,
    r_end_before: Query,
)
    requires
        values1@ == values2@,
        call_ensures(Query::start_at, (q, values1), r_start_at),
        call_ensures(Query::start_after, (q, values2), r_start_after),
        call_ensures(Query::end_at, (q, values1), r_end_at),
        call_ensures(Query::end_before, (q, values2), r_end_before),
    ensures
        r_start_at@ == (SpecStructuredQuery {
            start_at: Some(SpecCursor { values: values1@, before: true }),
            ..q@
        }),
        r_start_after@ == (SpecStructuredQuery {
            start_at: Some(SpecCursor { values: values1@, before: false }),
            ..q@
        }),
        r_end_at@ == (SpecStructuredQuery {
            end_at: Some(SpecCursor { values: values1@, before: false }),
            ..q@
        }),
        r_end_before@ == (SpecStructuredQuery {
            end_at: Some(SpecCursor { values: values1@, before: true }),
            ..q@
        }),
{
}

} // verus!
