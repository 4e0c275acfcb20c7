//! Conversion between field values and record documents.
use vstd::prelude::*;
use crate::schema::{
    all_fit, coerce, decode, decode_field, doc_view, encode, fits, fits_int, fits_type, lookup,
    schema_view, schema_wf, values_view, FieldSpec, FieldSpecView, FieldType, Presence,
    PresenceView, SchemaError, SchemaErrorKind,
};
use crate::text::text_eq;
use crate::time::{in_range, parse_rfc3339, MAX_MICROS, MIN_MICROS};
use crate::value::{copy_entries, copy_texts, Number, Value, ValueView};

verus! {

/// The value of the last entry of `doc` named `key`.
pub fn find<'a>(doc: &'a Vec<(String, Value)>, key: &str) -> (r: Option<&'a Value>)
    ensures
        match r {
            Some(v) => lookup(doc_view(doc@), key@) == Some(v@),
            None => lookup(doc_view(doc@), key@) is None,
        },
{
    let ghost d = doc_view(doc@);
    let mut i: usize = doc.len();
    assert(d.take(i as int) =~= d);
    while i > 0
        invariant
            i <= doc@.len(),
            d == doc_view(doc@),
            lookup(d, key@) == lookup(d.take(i as int), key@),
        decreases i,
    {
        let ghost t = d.take(i as int);
        assert(t.drop_last() =~= d.take(i - 1));
        if text_eq(doc[i - 1].0.as_str(), key) {
            return Some(&doc[i - 1].1);
        }
        i -= 1;
    }
    None
}

fn singles_of(ns: &Vec<Number>) -> (r: Vec<u32>)
    ensures
        r@ == ns@.map_values(|x: Number| x.single),
{
    let mut out: Vec<u32> = Vec::new();
    let mut i: usize = 0;
    while i < ns.len()
        invariant
            i <= ns@.len(),
            out@ == ns@.take(i as int).map_values(|x: Number| x.single),
        decreases ns@.len() - i,
    {
        out.push(ns[i].single);
        i += 1;
        assert(out@ =~= ns@.take(i as int).map_values(|x: Number| x.single));
    }
    assert(ns@.take(ns@.len() as int) =~= ns@);
    out
}

/// Reads a document leaf as a value of type `ty`, if it can be one.
pub fn coerce_value(ty: FieldType, v: &Value) -> (r: Option<Value>)
    ensures
        match r {
            Some(x) => coerce(ty, v@) == Some(x@),
            None => coerce(ty, v@) is None,
        },
{
    match ty {
        FieldType::Instant => match v {
            Value::Instant(m) => if MIN_MICROS <= *m && *m <= MAX_MICROS { Some(Value::Instant(*m)) } else { None },
            Value::Text(s) => match parse_rfc3339(s.as_str()) {
                Some(m) => if MIN_MICROS <= m && m <= MAX_MICROS { Some(Value::Instant(m)) } else { None },
                None => None,
            },
            _ => None,
        },
        FieldType::Text => match v {
            Value::Text(s) => Some(Value::Text(s.clone())),
            _ => None,
        },
        FieldType::Int => match v {
            Value::Int(i) => if i32::MIN as i64 <= *i && *i <= i32::MAX as i64 { Some(Value::Int(*i)) } else { None },
            Value::Num(n) => match n.integer {
                Some(i) => if i32::MIN as i64 <= i && i <= i32::MAX as i64 { Some(Value::Int(i)) } else { None },
                None => None,
            },
            _ => None,
        },
        FieldType::Bool => match v {
            Value::Bool(b) => Some(Value::Bool(*b)),
            _ => None,
        },
        FieldType::Single => match v {
            Value::Single(b) => Some(Value::Single(*b)),
            Value::Num(n) => Some(Value::Single(n.single)),
            _ => None,
        },
        FieldType::Double => match v {
            Value::Double(b) => Some(Value::Double(*b)),
            Value::Num(n) => Some(Value::Double(n.double)),
            _ => None,
        },
        FieldType::Texts => match v {
            Value::Texts(t) => Some(Value::Texts(copy_texts(t))),
            Value::Nested(n) => match &n.texts {
                Some(t) => Some(Value::Texts(copy_texts(t))),
                None => None,
            },
            _ => None,
        },
        FieldType::Singles => match v {
            Value::Singles(_) => Some(v.copy()),
            Value::Nested(n) => match &n.numbers {
                Some(ns) => Some(Value::Singles(singles_of(ns))),
                None => None,
            },
            _ => None,
        },
        FieldType::Entries => match v {
            Value::Entries(e) => Some(Value::Entries(copy_entries(e))),
            Value::Nested(n) => match &n.entries {
                Some(e) => Some(Value::Entries(copy_entries(e))),
                None => None,
            },
            _ => None,
        },
        FieldType::Raw => match v {
            Value::Raw(s) => Some(Value::Raw(s.clone())),
            Value::Nested(n) => Some(Value::Raw(n.raw.clone())),
            _ => None,
        },
        FieldType::Choice(c) => match v {
            Value::Text(s) => if c.accepts(s.as_str()) { Some(Value::Text(s.clone())) } else { None },
            _ => None,
        },
    }
}

/// The value that `doc` gives field `f`, or why it gives none.
pub fn read_field(f: &FieldSpec, doc: &Vec<(String, Value)>) -> (r: Result<Value, SchemaError>)
    ensures
        match r {
            Ok(v) => decode_field(f@, doc_view(doc@)) == Ok::<_, (SchemaErrorKind, Seq<char>)>(v@),
            Err(e) => decode_field(f@, doc_view(doc@)) == Err::<ValueView, _>(e@),
        },
{
    let found = find(doc, f.name);
    let absent = match found {
        None => true,
        Some(Value::Null) => true,
        Some(_) => false,
    };
    if absent {
        match &f.presence {
            Presence::Required => {
                proof { reveal_strlit(""); }
                Err(SchemaError { kind: SchemaErrorKind::Missing, field: f.name.to_owned() })
            },
            Presence::Optional => Ok(Value::Null),
            Presence::Default(d) => Ok(d.copy()),
        }
    } else {
        match coerce_value(f.ty, found.unwrap()) {
            Some(v) => Ok(v),
            None => Err(SchemaError { kind: SchemaErrorKind::WrongType, field: f.name.to_owned() }),
        }
    }
}

/// The field values that `doc` gives under `schema`, or the error of the first field
/// that it cannot give.
pub fn decode_values(schema: &Vec<FieldSpec>, doc: &Vec<(String, Value)>) -> (r: Result<
    Vec<Value>,
    SchemaError,
>)
    ensures
        match r {
            Ok(vals) => decode(schema_view(schema@), doc_view(doc@)) == Ok::<_, (SchemaErrorKind, Seq<char>)>(values_view(vals@)),
            Err(e) => decode(schema_view(schema@), doc_view(doc@)) == Err::<Seq<ValueView>, _>(e@),
        },
{
    let ghost s = schema_view(schema@);
    let ghost d = doc_view(doc@);
    let mut out: Vec<Value> = Vec::new();
    let mut i: usize = 0;
    assert(s.take(0) =~= Seq::<FieldSpecView>::empty());
    assert(values_view(out@) =~= Seq::<ValueView>::empty());
    while i < schema.len()
        invariant
            i <= schema@.len(),
            s == schema_view(schema@),
            d == doc_view(doc@),
            decode(s.take(i as int), d) == Ok::<_, (SchemaErrorKind, Seq<char>)>(values_view(out@)),
        decreases schema@.len() - i,
    {
        assert(s.take(i + 1).drop_last() =~= s.take(i as int));
        assert(s.take(i + 1).last() == schema@[i as int]@);
        let ghost prev = out@;
        match read_field(&schema[i], doc) {
            Ok(v) => {
                let ghost vv = v@;
                out.push(v);
                assert(values_view(out@) =~= values_view(prev).push(vv));
            },
            Err(e) => {
                proof { lemma_decode_prefix_err(s, d, i as int + 1, e@); }
                return Err(e);
            },
        }
        i += 1;
    }
    assert(s.take(schema@.len() as int) =~= s);
    Ok(out)
}

/// An error on a prefix of the schema is the error on the whole schema.
proof fn lemma_decode_prefix_err(
    s: Seq<FieldSpecView>,
    d: Seq<(Seq<char>, ValueView)>,
    k: int,
    e: (SchemaErrorKind, Seq<char>),
)
    requires
        0 <= k <= s.len(),
        decode(s.take(k), d) == Err::<Seq<ValueView>, _>(e),
    ensures
        decode(s, d) == Err::<Seq<ValueView>, _>(e),
    decreases s.len() - k,
{
    if k < s.len() {
        assert(s.take(k + 1).drop_last() =~= s.take(k));
        lemma_decode_prefix_err(s, d, k + 1, e);
    } else {
        assert(s.take(k) =~= s);
    }
}

/// The document of field values `vals` under `schema`.
pub fn encode_values(schema: &Vec<FieldSpec>, vals: &Vec<Value>) -> (r: Vec<(String, Value)>)
    requires
        vals@.len() == schema@.len(),
    ensures
        doc_view(r@) == encode(schema_view(schema@), values_view(vals@)),
{
    let ghost s = schema_view(schema@);
    let ghost v = values_view(vals@);
    let mut out: Vec<(String, Value)> = Vec::new();
    let mut i: usize = 0;
    while i < schema.len()
        invariant
            i <= schema@.len(),
            vals@.len() == schema@.len(),
            s == schema_view(schema@),
            v == values_view(vals@),
            doc_view(out@) == encode(s.take(i as int), v.take(i as int)),
        decreases schema@.len() - i,
    {
        let ghost prev = out@;
        assert(s.take(i + 1).drop_last() =~= s.take(i as int));
        assert(v.take(i + 1).take(i as int) =~= v.take(i as int));
        assert(s.take(i + 1).last() == schema@[i as int]@);
        assert(v.take(i + 1)[i as int] == vals@[i as int]@);
        match &vals[i] {
            Value::Null => {},
            x => {
                out.push((schema[i].name.to_owned(), x.copy()));
                assert(doc_view(out@) =~= doc_view(prev).push((schema@[i as int].name@, vals@[i as int]@)));
            },
        }
        i += 1;
    }
    assert(s.take(schema@.len() as int) =~= s);
    assert(v.take(schema@.len() as int) =~= v);
    out
}

/// Whether `v` is a value of field `f`'s type (or null, where the field is optional).
pub fn fits_value(f: &FieldSpec, v: &Value) -> (r: bool)
    ensures
        r == fits(f@, v@),
{
    let optional = match &f.presence {
        Presence::Optional => true,
        _ => false,
    };
    if optional {
        if let Value::Null = v {
            return true;
        }
    }
    match f.ty {
        FieldType::Instant => match v {
            Value::Instant(m) => MIN_MICROS <= *m && *m <= MAX_MICROS,
            _ => false,
        },
        FieldType::Text => match v {
            Value::Text(_) => true,
            _ => false,
        },
        FieldType::Int => match v {
            Value::Int(i) => i32::MIN as i64 <= *i && *i <= i32::MAX as i64,
            _ => false,
        },
        FieldType::Bool => match v {
            Value::Bool(_) => true,
            _ => false,
        },
        FieldType::Single => match v {
            Value::Single(_) => true,
            _ => false,
        },
        FieldType::Double => match v {
            Value::Double(_) => true,
            _ => false,
        },
        FieldType::Texts => match v {
            Value::Texts(_) => true,
            _ => false,
        },
        FieldType::Singles => match v {
            Value::Singles(_) => true,
            _ => false,
        },
        FieldType::Entries => match v {
            Value::Entries(_) => true,
            _ => false,
        },
        FieldType::Raw => match v {
            Value::Raw(_) => true,
            _ => false,
        },
        FieldType::Choice(c) => match v {
            Value::Text(s) => c.accepts(s.as_str()),
            _ => false,
        },
    }
}

/// Whether every value fits its field of `schema`.
pub fn check_fits(schema: &Vec<FieldSpec>, vals: &Vec<Value>) -> (r: bool)
    ensures
        r == all_fit(schema_view(schema@), values_view(vals@)),
{
    if schema.len() != vals.len() {
        return false;
    }
    let ghost s = schema_view(schema@);
    let ghost v = values_view(vals@);
    let mut i: usize = 0;
    while i < schema.len()
        invariant
            i <= schema@.len(),
            schema@.len() == vals@.len(),
            s == schema_view(schema@),
            v == values_view(vals@),
            forall|k: int| 0 <= k < i ==> fits(#[trigger] s[k], v[k]),
        decreases schema@.len() - i,
    {
        if !fits_value(&schema[i], &vals[i]) {
            assert(!fits(s[i as int], v[i as int]));
            return false;
        }
        i += 1;
    }
    true
}

/// A value of a field's type is read back as itself.
pub proof fn lemma_coerce_fitting(ty: FieldType, v: ValueView)
    requires
        fits_type(ty, v),
    ensures
        coerce(ty, v) == Some(v),
{
}

/// Whatever a leaf is read as is a value of the field's type.
pub proof fn lemma_coerce_fits(ty: FieldType, v: ValueView)
    requires
        coerce(ty, v) is Some,
    ensures
        fits_type(ty, coerce(ty, v).unwrap()),
{
}

proof fn lemma_lookup_absent(s: Seq<FieldSpecView>, vals: Seq<ValueView>, key: Seq<char>)
    requires
        vals.len() == s.len(),
        forall|i: int| 0 <= i < s.len() ==> (#[trigger] s[i]).name != key,
    ensures
        lookup(encode(s, vals), key) is None,
    decreases s.len(),
{
    if s.len() > 0 {
        let p = s.drop_last();
        lemma_lookup_absent(p, vals.take(s.len() - 1), key);
        assert(s.last() == s[s.len() - 1]);
        let prev = encode(p, vals.take(s.len() - 1));
        if !(vals[s.len() - 1] is Null) {
            assert(prev.push((s.last().name, vals[s.len() - 1])).drop_last() =~= prev);
        }
    }
}

proof fn lemma_lookup_encode(s: Seq<FieldSpecView>, vals: Seq<ValueView>, i: int)
    requires
        schema_wf(s),
        vals.len() == s.len(),
        0 <= i < s.len(),
    ensures
        lookup(encode(s, vals), s[i].name) == (if vals[i] is Null { None } else { Some(vals[i]) }),
    decreases s.len(),
{
    let n = s.len();
    let p = s.drop_last();
    let pv = vals.take(n - 1);
    let prev = encode(p, pv);
    assert(schema_wf(p)) by {
        assert forall|a: int, b: int| 0 <= a < b < p.len() implies (#[trigger] p[a]).name != (#[trigger] p[b]).name by {
            assert(p[a] == s[a] && p[b] == s[b]);
        }
        assert forall|a: int| 0 <= a < p.len() implies match (#[trigger] p[a]).presence {
            PresenceView::Default(d) => fits_type(p[a].ty, d),
            _ => true,
        } by {
            assert(p[a] == s[a]);
        }
    }
    if !(vals[n - 1] is Null) {
        assert(prev.push((s.last().name, vals[n - 1])).drop_last() =~= prev);
    }
    if i == n - 1 {
        if vals[n - 1] is Null {
            assert forall|j: int| 0 <= j < p.len() implies (#[trigger] p[j]).name != s[i].name by {
                assert(p[j] == s[j]);
            }
            lemma_lookup_absent(p, pv, s[i].name);
        }
    } else {
        assert(s[i] == p[i]);
        assert(s[n - 1].name != s[i].name);
        lemma_lookup_encode(p, pv, i);
    }
}

proof fn lemma_decode_encode_prefix(s: Seq<FieldSpecView>, vals: Seq<ValueView>, k: int)
    requires
        schema_wf(s),
        all_fit(s, vals),
        0 <= k <= s.len(),
    ensures
        decode(s.take(k), encode(s, vals)) == Ok::<_, (SchemaErrorKind, Seq<char>)>(vals.take(k)),
    decreases k,
{
    if k > 0 {
        let doc = encode(s, vals);
        assert(s.take(k).drop_last() =~= s.take(k - 1));
        lemma_decode_encode_prefix(s, vals, k - 1);
        let f = s[k - 1];
        assert(s.take(k).last() == f);
        assert(fits(s[k - 1], vals[k - 1]));
        lemma_lookup_encode(s, vals, k - 1);
        if !(vals[k - 1] is Null) {
            lemma_coerce_fitting(f.ty, vals[k - 1]);
        }
        assert(vals.take(k - 1).push(vals[k - 1]) =~= vals.take(k));
    } else {
        assert(vals.take(0) =~= Seq::<ValueView>::empty());
    }
}

/// Decoding the document of fitting field values gives those values back.
pub proof fn lemma_decode_encode(s: Seq<FieldSpecView>, vals: Seq<ValueView>)
    requires
        schema_wf(s),
        all_fit(s, vals),
    ensures
        decode(s, encode(s, vals)) == Ok::<_, (SchemaErrorKind, Seq<char>)>(vals),
{
    lemma_decode_encode_prefix(s, vals, s.len() as int);
    assert(s.take(s.len() as int) =~= s);
    assert(vals.take(s.len() as int) =~= vals);
}

/// Each value a document gives is the one its field gives on its own.
pub proof fn lemma_decode_field(s: Seq<FieldSpecView>, d: Seq<(Seq<char>, ValueView)>, i: int)
    requires
        decode(s, d) is Ok,
        0 <= i < s.len(),
    ensures
        decode(s, d)->Ok_0.len() == s.len(),
        decode_field(s[i], d) == Ok::<_, (SchemaErrorKind, Seq<char>)>(decode(s, d)->Ok_0[i]),
    decreases s.len(),
{
    let p = s.drop_last();
    if i < s.len() - 1 {
        lemma_decode_field(p, d, i);
        assert(p[i] == s[i]);
    } else if s.len() > 1 {
        lemma_decode_field(p, d, 0);
    }
}

/// Whatever a document gives under a well-formed schema fits that schema.
pub proof fn lemma_decode_fits(s: Seq<FieldSpecView>, d: Seq<(Seq<char>, ValueView)>)
    requires
        schema_wf(s),
        decode(s, d) is Ok,
    ensures
        all_fit(s, decode(s, d)->Ok_0),
    decreases s.len(),
{
    if s.len() > 0 {
        let p = s.drop_last();
        assert(schema_wf(p)) by {
            assert forall|a: int, b: int| 0 <= a < b < p.len() implies (#[trigger] p[a]).name != (#[trigger] p[b]).name by {
                assert(p[a] == s[a] && p[b] == s[b]);
            }
            assert forall|a: int| 0 <= a < p.len() implies match (#[trigger] p[a]).presence {
                PresenceView::Default(d) => fits_type(p[a].ty, d),
                _ => true,
            } by {
                assert(p[a] == s[a]);
            }
        }
        lemma_decode_fits(p, d);
        let f = s.last();
        assert(f == s[s.len() - 1]);
        let found = lookup(d, f.name);
        if !(found is None || found == Some(ValueView::Null)) {
            lemma_coerce_fits(f.ty, found.unwrap());
        }
        let vals = decode(s, d)->Ok_0;
        assert forall|i: int| 0 <= i < s.len() implies fits(#[trigger] s[i], vals[i]) by {
            if i < s.len() - 1 {
                assert(s[i] == p[i]);
            }
        }
    }
}

} // verus!
