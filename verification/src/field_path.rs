//! Field paths and their rendering into wire field references.
//!
//! A field path is an ordered, non-empty list of field-name segments. The
//! rendered wire string joins the segments with single periods; a segment
//! that is not a simple field name is wrapped in backticks, with literal
//! backticks and backslashes escaped.

use vstd::prelude::*;
use vstd::string::StrSliceExecFns;
use vstd::string::StringExecFns;

use crate::error::Error;
use crate::filter::spec_unary_filter;
use crate::filter::Filter;
use crate::order::Order;
use crate::structured_query::Direction;
use crate::structured_query::FieldFilterOperator;
use crate::structured_query::FieldReference;
use crate::structured_query::SpecFieldReference;
use crate::structured_query::SpecFilterType;
use crate::structured_query::SpecOrder;
use crate::structured_query::UnaryFilterOperator;
use crate::value::IntoValue;

verus! {

/// A character a simple field name may contain: ASCII letters, digits and
/// the underscore.
pub open spec fn char_is_simple(c: char) -> bool {
    ('a' <= c && c <= 'z') || ('A' <= c && c <= 'Z') || ('0' <= c && c <= '9') || c == '_'
}

/// An ASCII decimal digit.
pub open spec fn char_is_ascii_digit(c: char) -> bool {
    '0' <= c && c <= '9'
}

/// A simple field name: non-empty, made of ASCII letters, digits and
/// underscores, and not starting with a digit. It is rendered verbatim.
pub open spec fn segment_is_simple(s: Seq<char>) -> bool {
    &&& s.len() > 0
    &&& !char_is_ascii_digit(s[0])
    &&& forall|i: int| 0 <= i < s.len() ==> char_is_simple(#[trigger] s[i])
}

/// How one character is written inside a quoted segment: a backtick becomes
/// a backslash-backtick pair, a backslash doubles, all else is verbatim.
pub open spec fn escaped_char(c: char) -> Seq<char> {
    if c == '`' {
        seq!['\\', '`']
    } else if c == '\\' {
        seq!['\\', '\\']
    } else {
        seq![c]
    }
}

/// The escaped characters of a segment body, written left to right.
pub open spec fn escaped_chars(s: Seq<char>) -> Seq<char>
    decreases s.len(),
{
    if s.len() == 0 {
        Seq::empty()
    } else {
        escaped_char(s[0]) + escaped_chars(s.drop_first())
    }
}

/// The rendering of one segment: verbatim when simple, otherwise the escaped
/// body wrapped in backticks.
pub open spec fn escaped_segment(s: Seq<char>) -> Seq<char> {
    if segment_is_simple(s) {
        s
    } else {
        seq!['`'] + escaped_chars(s) + seq!['`']
    }
}

/// Stored segments joined with exactly one period between consecutive
/// segments; no segment is split or otherwise altered.
pub open spec fn joined_segments(ss: Seq<Seq<char>>) -> Seq<char>
    decreases ss.len(),
{
    if ss.len() == 0 {
        Seq::empty()
    } else if ss.len() == 1 {
        ss[0]
    } else {
        ss[0] + seq!['.'] + joined_segments(ss.drop_first())
    }
}

/// The renderings of the given segments, each escaped independently.
pub open spec fn escaped_segments(ss: Seq<Seq<char>>) -> Seq<Seq<char>> {
    ss.map_values(|s: Seq<char>| escaped_segment(s))
}

/// The wire string for the given plain segments: each segment escaped
/// independently, then all of them joined with periods.
pub open spec fn rendered_path(segments: Seq<Seq<char>>) -> Seq<char> {
    joined_segments(escaped_segments(segments))
}

/// A single simple segment renders to exactly itself: no quoting, no
/// escaping, no periods.
pub proof fn lemma_simple_segment_renders_plain(s: Seq<char>)
    requires
        segment_is_simple(s),
    ensures
        escaped_segment(s) == s,
        rendered_path(seq![s]) == s,
{
    assert(escaped_segments(seq![s]) =~= seq![s]);
}

/// A segment that is not simple renders quoted: wrapped in backticks, with
/// every literal backtick written as a backslash-backtick pair and every
/// literal backslash doubled, in a single left-to-right pass.
pub proof fn lemma_nonsimple_segment_quoted(s: Seq<char>)
    requires
        !segment_is_simple(s),
    ensures
        escaped_segment(s) == seq!['`'] + escaped_chars(s) + seq!['`'],
        s.len() == 0 ==> escaped_chars(s) == Seq::<char>::empty(),
        s.len() > 0 ==> escaped_chars(s) == escaped_char(s[0]) + escaped_chars(s.drop_first()),
        escaped_char('`') == seq!['\\', '`'],
        escaped_char('\\') == seq!['\\', '\\'],
        forall|c: char| c != '`' && c != '\\' ==> #[trigger] escaped_char(c) == seq![c],
{
}

/// Rendering a non-empty segment list joins the per-segment renderings with
/// exactly one period between consecutive segments; each segment's rendering
/// appears whole, never split.
pub proof fn lemma_rendering_joins(segments: Seq<Seq<char>>)
    requires
        segments.len() >= 1,
    ensures
        segments.len() == 1 ==> rendered_path(segments) == escaped_segment(segments[0]),
        segments.len() > 1 ==> rendered_path(segments) == escaped_segment(segments[0]) + seq![
            '.',
        ] + rendered_path(segments.drop_first()),
{
    assert(escaped_segments(segments).drop_first() =~= escaped_segments(segments.drop_first()));
}

/// Appending one more character extends the escaped body by that
/// character's escape sequence.
pub proof fn lemma_escaped_chars_snoc(s: Seq<char>, i: int)
    requires
        0 <= i < s.len(),
    ensures
        escaped_chars(s.take(i + 1)) == escaped_chars(s.take(i)) + escaped_char(s[i]),
    decreases i,
{
    if i == 0 {
        assert(s.take(1) =~= seq![s[0]]);
        assert(s.take(1).drop_first() =~= Seq::<char>::empty());
        assert(s.take(0) =~= Seq::<char>::empty());
        assert(escaped_chars(s.take(i + 1)) =~= escaped_chars(s.take(i)) + escaped_char(s[i]));
    } else {
        lemma_escaped_chars_snoc(s.drop_first(), i - 1);
        assert(s.take(i + 1).drop_first() =~= s.drop_first().take(i));
        assert(s.take(i).drop_first() =~= s.drop_first().take(i - 1));
        assert(s.take(i + 1)[0] == s[0]);
        assert(escaped_chars(s.take(i + 1)) =~= escaped_chars(s.take(i)) + escaped_char(s[i]));
    }
}

/// Appending one more segment extends the joined rendering by a period and
/// that segment (by the segment alone when it is the first).
pub proof fn lemma_joined_segments_snoc(ss: Seq<Seq<char>>, i: int)
    requires
        0 <= i < ss.len(),
    ensures
        joined_segments(ss.take(i + 1)) == if i == 0 {
            ss[0]
        } else {
            joined_segments(ss.take(i)) + seq!['.'] + ss[i]
        },
    decreases i,
{
    if i == 0 {
        assert(ss.take(1) =~= seq![ss[0]]);
        assert(joined_segments(ss.take(1)) == ss[0]);
    } else {
        let t = ss.drop_first();
        lemma_joined_segments_snoc(t, i - 1);
        assert(ss.take(i + 1).drop_first() =~= t.take(i));
        assert(ss.take(i).drop_first() =~= t.take(i - 1));
        assert(ss.take(i + 1)[0] == ss[0]);
        assert(ss.take(i)[0] == ss[0]);
        if i == 1 {
            assert(joined_segments(ss.take(2)) == ss[0] + seq!['.'] + joined_segments(t.take(1)));
            assert(joined_segments(ss.take(i + 1)) =~= joined_segments(ss.take(i)) + seq!['.']
                + ss[i]);
        } else {
            assert(joined_segments(ss.take(i + 1)) == ss[0] + seq!['.'] + joined_segments(
                t.take(i),
            ));
            assert(joined_segments(ss.take(i)) == ss[0] + seq!['.'] + joined_segments(
                t.take(i - 1),
            ));
            assert(joined_segments(ss.take(i + 1)) =~= joined_segments(ss.take(i)) + seq!['.']
                + ss[i]);
        }
    }
}

/// Relies on `String::push`: appends the given character to the string.
#[verifier::external_body]
fn push_char(s: &mut String, c: char)
    ensures
        final(s)@ == old(s)@.push(c),
{
    s.push(c);
}

/// Decides whether a character may appear in a simple field name.
fn check_char_simple(c: char) -> (r: bool)
    ensures
        r == char_is_simple(c),
{
    ('a' <= c && c <= 'z') || ('A' <= c && c <= 'Z') || ('0' <= c && c <= '9') || c == '_'
}

/// Decides whether a segment is a simple field name.
fn check_segment_simple(s: &str) -> (r: bool)
    ensures
        r == segment_is_simple(s@),
{
    let n = s.unicode_len();
    if n == 0 {
        return false;
    }
    let c0 = s.get_char(0);
    if '0' <= c0 && c0 <= '9' {
        return false;
    }
    let mut i: usize = 0;
    while i < n
        invariant
            0 <= i <= n,
            n == s@.len(),
            forall|j: int| 0 <= j < i ==> char_is_simple(#[trigger] s@[j]),
        decreases n - i,
    {
        if !check_char_simple(s.get_char(i)) {
            return false;
        }
        i = i + 1;
    }
    true
}

/// Renders one segment: verbatim when simple, quoted and escaped otherwise.
fn escape_segment(s: &str) -> (r: String)
    ensures
        r@ == escaped_segment(s@),
{
    if check_segment_simple(s) {
        s.to_owned()
    } else {
        let n = s.unicode_len();
        let mut out = String::new();
        push_char(&mut out, '`');
        proof {
            assert(s@.take(0) =~= Seq::<char>::empty());
            assert(out@ =~= seq!['`'] + escaped_chars(s@.take(0)));
        }
        let mut i: usize = 0;
        while i < n
            invariant
                0 <= i <= n,
                n == s@.len(),
                out@ == seq!['`'] + escaped_chars(s@.take(i as int)),
            decreases n - i,
        {
            let c = s.get_char(i);
            if c == '`' {
                push_char(&mut out, '\\');
                push_char(&mut out, '`');
            } else if c == '\\' {
                push_char(&mut out, '\\');
                push_char(&mut out, '\\');
            } else {
                push_char(&mut out, c);
            }
            proof {
                lemma_escaped_chars_snoc(s@, i as int);
                assert(out@ =~= seq!['`'] + escaped_chars(s@.take(i as int + 1)));
            }
            i = i + 1;
        }
        push_char(&mut out, '`');
        proof {
            assert(s@.take(n as int) =~= s@);
            assert(out@ =~= escaped_segment(s@));
        }
        out
    }
}

/// A Firestore field path.
///
/// Stores its segments exactly as they will appear on the wire: [`FieldPath::raw`]
/// stores one caller-formatted segment verbatim, while [`FieldPath::new`]
/// escapes each plain segment first. Equality is over the stored segments.
#[derive(Debug, PartialEq, Eq, PartialOrd, Ord)]
pub struct FieldPath {
    field_names: Vec<String>,
}

impl View for FieldPath {
    type V = Seq<Seq<char>>;

    closed spec fn view(&self) -> Seq<Seq<char>> {
        self.field_names.deep_view()
    }
}

impl Clone for FieldPath {
    fn clone(&self) -> (r: Self)
        ensures
            r@ == self@,
    {
        let field_names = self.field_names.clone();
        proof {
            assert(field_names@ =~= self.field_names@);
            assert(field_names.deep_view() =~~= self.field_names.deep_view());
        }
        FieldPath { field_names }
    }
}

impl FieldPath {
    /// Creates a new field path without escaping.
    ///
    /// The given string is stored verbatim as the path's only segment; it is
    /// the caller's job to have formatted it, quoting included.
    pub fn raw(field_path: &str) -> (r: Self)
        ensures
            r@ == seq![field_path@],
    {
        let fp = FieldPath { field_names: vec![field_path.to_owned()] };
        proof {
            assert(fp@ =~~= seq![field_path@]);
        }
        fp
    }

    /// Creates a new field path from plain segments, escaping each.
    ///
    /// Each segment is rendered independently: simple field names stay as
    /// they are, all others are wrapped in backticks with backticks and
    /// backslashes escaped.
    pub fn new(field_names: Vec<String>) -> (r: Self)
        ensures
            r@ == escaped_segments(field_names.deep_view()),
    {
        let n = field_names.len();
        let mut escaped: Vec<String> = Vec::new();
        let mut i: usize = 0;
        while i < n
            invariant
                0 <= i <= n,
                n == field_names@.len(),
                escaped@.len() == i,
                forall|j: int|
                    0 <= j < i ==> escaped@[j]@ == escaped_segment(
                        #[trigger] field_names@[j]@,
                    ),
            decreases n - i,
        {
            let e = escape_segment(field_names[i].as_str());
            escaped.push(e);
            i = i + 1;
        }
        let fp = FieldPath { field_names: escaped };
        proof {
            assert(fp@ =~~= escaped_segments(field_names.deep_view()));
        }
        fp
    }

    /// The spec-level wire field reference this path renders to.
    pub open spec fn spec_field_reference(self) -> SpecFieldReference {
        SpecFieldReference { field_path: joined_segments(self@) }
    }

    /// Renders this path into the wire field reference: the stored segments
    /// joined with single periods.
    pub fn field_reference(&self) -> (r: FieldReference)
        ensures
            r@ == self.spec_field_reference(),
    {
        let n = self.field_names.len();
        let mut out = String::new();
        let mut i: usize = 0;
        while i < n
            invariant
                0 <= i <= n,
                n == self.field_names@.len(),
                out@ == joined_segments(self@.take(i as int)),
            decreases n - i,
        {
            if i > 0 {
                push_char(&mut out, '.');
            }
            let seg: &String = &self.field_names[i];
            out.append(seg.as_str());
            proof {
                assert(self@[i as int] == self.field_names@[i as int]@);
                lemma_joined_segments_snoc(self@, i as int);
                assert(out@ =~= joined_segments(self@.take(i as int + 1)));
            }
            i = i + 1;
        }
        proof {
            assert(self@.take(n as int) =~= self@);
        }
        FieldReference { field_path: out }
    }
}

// Filter factories: one per field-filter or unary-filter operator.
impl FieldPath {
    /// Creates a new `FieldFilter` with the `ArrayContains` operator.
    pub fn array_contains<T: IntoValue>(&self, value: T) -> (r: Result<Filter, Error>)
        ensures
            r matches Ok(f) ==> f@.filter_type matches Some(SpecFilterType::FieldFilter(ff))
                && ff.field == Some(self.spec_field_reference())
                && ff.op == FieldFilterOperator::ArrayContains.spec_code()
                && (ff.value matches Some(v) && value.converts_to(Ok(v))),
            r matches Err(e) ==> value.converts_to(Err(e)),
    {
        Filter::field(self.clone(), FieldFilterOperator::ArrayContains, value)
    }

    /// Creates a new `FieldFilter` with the `ArrayContainsAny` operator.
    pub fn array_contains_any<T: IntoValue>(&self, value: T) -> (r: Result<Filter, Error>)
        ensures
            r matches Ok(f) ==> f@.filter_type matches Some(SpecFilterType::FieldFilter(ff))
                && ff.field == Some(self.spec_field_reference())
                && ff.op == FieldFilterOperator::ArrayContainsAny.spec_code()
                && (ff.value matches Some(v) && value.converts_to(Ok(v))),
            r matches Err(e) ==> value.converts_to(Err(e)),
    {
        Filter::field(self.clone(), FieldFilterOperator::ArrayContainsAny, value)
    }

    /// Creates a new `FieldFilter` with the `Equal` operator.
    pub fn equal<T: IntoValue>(&self, value: T) -> (r: Result<Filter, Error>)
        ensures
            r matches Ok(f) ==> f@.filter_type matches Some(SpecFilterType::FieldFilter(ff))
                && ff.field == Some(self.spec_field_reference())
                && ff.op == FieldFilterOperator::Equal.spec_code()
                && (ff.value matches Some(v) && value.converts_to(Ok(v))),
            r matches Err(e) ==> value.converts_to(Err(e)),
    {
        Filter::field(self.clone(), FieldFilterOperator::Equal, value)
    }

    /// Creates a new `FieldFilter` with the `GreaterThan` operator.
    pub fn greater_than<T: IntoValue>(&self, value: T) -> (r: Result<Filter, Error>)
        ensures
            r matches Ok(f) ==> f@.filter_type matches Some(SpecFilterType::FieldFilter(ff))
                && ff.field == Some(self.spec_field_reference())
                && ff.op == FieldFilterOperator::GreaterThan.spec_code()
                && (ff.value matches Some(v) && value.converts_to(Ok(v))),
            r matches Err(e) ==> value.converts_to(Err(e)),
    {
        Filter::field(self.clone(), FieldFilterOperator::GreaterThan, value)
    }

    /// Creates a new `FieldFilter` with the `GreaterThanOrEqual` operator.
    pub fn greater_than_or_equal<T: IntoValue>(&self, value: T) -> (r: Result<Filter, Error>)
        ensures
            r matches Ok(f) ==> f@.filter_type matches Some(SpecFilterType::FieldFilter(ff))
                && ff.field == Some(self.spec_field_reference())
                && ff.op == FieldFilterOperator::GreaterThanOrEqual.spec_code()
                && (ff.value matches Some(v) && value.converts_to(Ok(v))),
            r matches Err(e) ==> value.converts_to(Err(e)),
    {
        Filter::field(self.clone(), FieldFilterOperator::GreaterThanOrEqual, value)
    }

    /// Creates a new `FieldFilter` with the `In` operator.
    pub fn in_<T: IntoValue>(&self, value: T) -> (r: Result<Filter, Error>)
        ensures
            r matches Ok(f) ==> f@.filter_type matches Some(SpecFilterType::FieldFilter(ff))
                && ff.field == Some(self.spec_field_reference())
                && ff.op == FieldFilterOperator::In.spec_code()
                && (ff.value matches Some(v) && value.converts_to(Ok(v))),
            r matches Err(e) ==> value.converts_to(Err(e)),
    {
        Filter::field(self.clone(), FieldFilterOperator::In, value)
    }

    /// Creates a new `FieldFilter` with the `LessThan` operator.
    pub fn less_than<T: IntoValue>(&self, value: T) -> (r: Result<Filter, Error>)
        ensures
            r matches Ok(f) ==> f@.filter_type matches Some(SpecFilterType::FieldFilter(ff))
                && ff.field == Some(self.spec_field_reference())
                && ff.op == FieldFilterOperator::LessThan.spec_code()
                && (ff.value matches Some(v) && value.converts_to(Ok(v))),
            r matches Err(e) ==> value.converts_to(Err(e)),
    {
        Filter::field(self.clone(), FieldFilterOperator::LessThan, value)
    }

    /// Creates a new `FieldFilter` with the `LessThanOrEqual` operator.
    pub fn less_than_or_equal<T: IntoValue>(&self, value: T) -> (r: Result<Filter, Error>)
        ensures
            r matches Ok(f) ==> f@.filter_type matches Some(SpecFilterType::FieldFilter(ff))
                && ff.field == Some(self.spec_field_reference())
                && ff.op == FieldFilterOperator::LessThanOrEqual.spec_code()
                && (ff.value matches Some(v) && value.converts_to(Ok(v))),
            r matches Err(e) ==> value.converts_to(Err(e)),
    {
        Filter::field(self.clone(), FieldFilterOperator::LessThanOrEqual, value)
    }

    /// Creates a new `FieldFilter` with the `NotEqual` operator.
    pub fn not_equal<T: IntoValue>(&self, value: T) -> (r: Result<Filter, Error>)
        ensures
            r matches Ok(f) ==> f@.filter_type matches Some(SpecFilterType::FieldFilter(ff))
                && ff.field == Some(self.spec_field_reference())
                && ff.op == FieldFilterOperator::NotEqual.spec_code()
                && (ff.value matches Some(v) && value.converts_to(Ok(v))),
            r matches Err(e) ==> value.converts_to(Err(e)),
    {
        Filter::field(self.clone(), FieldFilterOperator::NotEqual, value)
    }

    /// Creates a new `FieldFilter` with the `NotIn` operator.
    pub fn not_in<T: IntoValue>(&self, value: T) -> (r: Result<Filter, Error>)
        ensures
            r matches Ok(f) ==> f@.filter_type matches Some(SpecFilterType::FieldFilter(ff))
                && ff.field == Some(self.spec_field_reference())
                && ff.op == FieldFilterOperator::NotIn.spec_code()
                && (ff.value matches Some(v) && value.converts_to(Ok(v))),
            r matches Err(e) ==> value.converts_to(Err(e)),
    {
        Filter::field(self.clone(), FieldFilterOperator::NotIn, value)
    }

    /// Creates a new `UnaryFilter` with the `IsNan` operator.
    pub fn is_nan(&self) -> (r: Result<Filter, Error>)
        ensures
            r matches Ok(f) && f@ == spec_unary_filter(
                self.spec_field_reference(),
                UnaryFilterOperator::IsNan,
            ),
    {
        Filter::unary(self.clone(), UnaryFilterOperator::IsNan)
    }

    /// Creates a new `UnaryFilter` with the `IsNotNan` operator.
    pub fn is_not_nan(&self) -> (r: Result<Filter, Error>)
        ensures
            r matches Ok(f) && f@ == spec_unary_filter(
                self.spec_field_reference(),
                UnaryFilterOperator::IsNotNan,
            ),
    {
        Filter::unary(self.clone(), UnaryFilterOperator::IsNotNan)
    }

    /// Creates a new `UnaryFilter` with the `IsNotNull` operator.
    pub fn is_not_null(&self) -> (r: Result<Filter, Error>)
        ensures
            r matches Ok(f) && f@ == spec_unary_filter(
                self.spec_field_reference(),
                UnaryFilterOperator::IsNotNull,
            ),
    {
        Filter::unary(self.clone(), UnaryFilterOperator::IsNotNull)
    }

    /// Creates a new `UnaryFilter` with the `IsNull` operator.
    pub fn is_null(&self) -> (r: Result<Filter, Error>)
        ensures
            r matches Ok(f) && f@ == spec_unary_filter(
                self.spec_field_reference(),
                UnaryFilterOperator::IsNull,
            ),
    {
        Filter::unary(self.clone(), UnaryFilterOperator::IsNull)
    }
}

// Order factories.
impl FieldPath {
    /// Creates a new ascending `Order` on this field.
    pub fn ascending(&self) -> (r: Order)
        ensures
            r@ == (SpecOrder {
                field: Some(self.spec_field_reference()),
                direction: Direction::Ascending.spec_code(),
            }),
    {
        Order::new(self.clone(), Direction::Ascending)
    }

    /// Creates a new descending `Order` on this field.
    pub fn descending(&self) -> (r: Order)
        ensures
            r@ == (SpecOrder {
                field: Some(self.spec_field_reference()),
                direction: Direction::Descending.spec_code(),
            }),
    {
        Order::new(self.clone(), Direction::Descending)
    }
}

impl core::convert::From<FieldPath> for FieldReference {
    /// Renders the path; the wire string is the joined segments.
    fn from(field_path: FieldPath) -> (r: Self)
        ensures
            r@ == field_path.spec_field_reference(),
    {
        field_path.field_reference()
    }
}

impl vstd::std_specs::convert::FromSpecImpl<FieldPath> for FieldReference {
    open spec fn obeys_from_spec() -> bool {
        false
    }

    open spec fn from_spec(v: FieldPath) -> FieldReference {
        arbitrary()
    }
}

} // verus!
