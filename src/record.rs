//! Record kinds: the link between a typed record, its field values and its document.
use vstd::prelude::*;
use crate::codec::{decode_values, encode_values, lemma_decode_encode, lemma_decode_fits};
use crate::schema::{
    all_fit, decode, doc_view, encode, schema_view, schema_wf, values_view, FieldSpec,
    FieldSpecView, FieldType, PresenceView, SchemaError, SchemaErrorKind,
};
use crate::value::{Value, ValueView};

verus! {

/// How the rows of a kind's table are told apart.
#[derive(Debug, Clone, Copy, PartialEq, Eq, Structural)]
pub enum Layout {
    /// Readings: the first field is the timestamp, the second the device id.
    Timed,
    /// Entities keyed by their first field, which a second insert may not reuse.
    Unique,
    /// Policies keyed by their first field; an insert replaces the row with that key.
    Upsert,
    /// Rows with no key, appended as they come.
    Log,
}

/// The layout fits the schema: the fields it reads are where and what it expects.
pub open spec fn layout_ok(l: Layout, s: Seq<FieldSpecView>) -> bool {
    match l {
        Layout::Timed => {
            &&& s.len() >= 2
            &&& s[0].name == "timestamp"@
            &&& s[0].ty == FieldType::Instant
            &&& s[0].presence == PresenceView::Required
            &&& s[1].name == "device_id"@
            &&& s[1].ty == FieldType::Text
            &&& s[1].presence == PresenceView::Required
        },
        Layout::Unique | Layout::Upsert => {
            &&& s.len() >= 1
            &&& s[0].ty == FieldType::Text
            &&& s[0].presence == PresenceView::Required
        },
        Layout::Log => true,
    }
}

/// A kind of record with a fixed field schema.
pub trait Fields: Sized {
    spec fn schema_spec() -> Seq<FieldSpecView>;

    /// The record's field values, in schema order; an absent optional field is null.
    spec fn values(&self) -> Seq<ValueView>;

    /// Every timestamp of the record lies in range.
    spec fn wf(&self) -> bool;

    fn schema() -> (r: Vec<FieldSpec>)
        ensures
            schema_view(r@) == Self::schema_spec(),
    ;

    fn to_values(&self) -> (r: Vec<Value>)
        ensures
            values_view(r@) == self.values(),
            r@.len() == Self::schema_spec().len(),
    ;

    fn from_values(vals: &Vec<Value>) -> (r: Self)
        requires
            all_fit(Self::schema_spec(), values_view(vals@)),
        ensures
            r.values() == values_view(vals@),
            r.wf(),
    ;

    proof fn lemma_schema()
        ensures
            schema_wf(Self::schema_spec()),
    ;

    proof fn lemma_fits(&self)
        requires
            self.wf(),
        ensures
            all_fit(Self::schema_spec(), self.values()),
    ;
}

/// A kind of record with its own table.
pub trait Record: Fields {
    spec fn table_spec() -> Seq<char>;

    spec fn layout_spec() -> Layout;

    fn table_name() -> (r: &'static str)
        ensures
            r@ == Self::table_spec(),
    ;

    fn layout() -> (r: Layout)
        ensures
            r == Self::layout_spec(),
    ;

    proof fn lemma_layout()
        ensures
            layout_ok(Self::layout_spec(), Self::schema_spec()),
    ;
}

/// Copies of the values at positions `lo` up to `hi`.
pub fn slice_values(vals: &Vec<Value>, lo: usize, hi: usize) -> (r: Vec<Value>)
    requires
        lo <= hi <= vals@.len(),
    ensures
        values_view(r@) == values_view(vals@).subrange(lo as int, hi as int),
{
    let mut out: Vec<Value> = Vec::new();
    let mut i: usize = lo;
    while i < hi
        invariant
            lo <= i <= hi,
            hi <= vals@.len(),
            values_view(out@) == values_view(vals@).subrange(lo as int, i as int),
        decreases hi - i,
    {
        let ghost before = out@;
        out.push(vals[i].copy());
        assert(values_view(out@) =~= values_view(before).push(vals@[i as int]@));
        i += 1;
        assert(values_view(out@) =~= values_view(vals@).subrange(lo as int, i as int));
    }
    out
}

/// The document of a record.
pub fn marshal<R: Fields>(r: &R) -> (doc: Vec<(String, Value)>)
    ensures
        doc_view(doc@) == encode(R::schema_spec(), r.values()),
{
    let schema = R::schema();
    let vals = r.to_values();
    assert(schema@.len() == schema_view(schema@).len());
    encode_values(&schema, &vals)
}

/// The record that a document holds, or the error of the first field (in schema
/// order) that it cannot give.
pub fn unmarshal<R: Fields>(doc: &Vec<(String, Value)>) -> (r: Result<R, SchemaError>)
    ensures
        match r {
            Ok(x) => decode(R::schema_spec(), doc_view(doc@)) == Ok::<_, (SchemaErrorKind, Seq<char>)>(x.values()) && x.wf(),
            Err(e) => decode(R::schema_spec(), doc_view(doc@)) == Err::<Seq<ValueView>, _>(e@),
        },
{
    let schema = R::schema();
    match decode_values(&schema, doc) {
        Ok(vals) => {
            proof {
                R::lemma_schema();
                lemma_decode_fits(R::schema_spec(), doc_view(doc@));
            }
            Ok(R::from_values(&vals))
        },
        Err(e) => Err(e),
    }
}

/// Unmarshaling the document of a valid record gives back a record with the same
/// field values, whether its optional fields are absent or present.
pub proof fn law_round_trip<R: Fields>(r: &R)
    requires
        r.wf(),
    ensures
        decode(R::schema_spec(), encode(R::schema_spec(), r.values())) == Ok::<
            _,
            (SchemaErrorKind, Seq<char>),
        >(r.values()),
{
    R::lemma_schema();
    r.lemma_fits();
    lemma_decode_encode(R::schema_spec(), r.values());
}

} // verus!
