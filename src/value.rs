//! Values of record fields and leaves of record documents.
use vstd::prelude::*;

verus! {

/// A number as read from text, with its reading at each precision a field can ask for.
#[derive(Debug, Clone, Copy, PartialEq, Eq, Structural)]
pub struct Number {
    /// The value, where it is an integer that fits in 64 bits.
    pub integer: Option<i64>,
    /// IEEE-754 single-precision bits of the nearest value.
    pub single: u32,
    /// IEEE-754 double-precision bits of the nearest value.
    pub double: u64,
}

/// A JSON array or object as read from text, with its reading as each kind of
/// field that can hold one.
#[derive(Debug, Clone, PartialEq)]
pub struct Nested {
    /// The JSON text of the value.
    pub raw: String,
    /// The items, where the value is an array of strings.
    pub texts: Option<Vec<String>>,
    /// The items, where the value is an array of numbers.
    pub numbers: Option<Vec<Number>>,
    /// Each key with the JSON text of its value, where the value is an object.
    pub entries: Option<Vec<(String, String)>>,
}

/// The value of one record field, or one leaf of a record document.
#[derive(Debug, Clone, PartialEq)]
pub enum Value {
    Null,
    Bool(bool),
    Int(i64),
    /// IEEE-754 single-precision bits.
    Single(u32),
    /// IEEE-754 double-precision bits.
    Double(u64),
    /// Microseconds since the Unix epoch.
    Instant(i64),
    Text(String),
    Texts(Vec<String>),
    /// IEEE-754 single-precision bits of each item.
    Singles(Vec<u32>),
    /// Keys with the JSON text of each value.
    Entries(Vec<(String, String)>),
    /// JSON text of an arbitrary value.
    Raw(String),
    /// A number read from text.
    Num(Number),
    /// An array or object read from text.
    Nested(Nested),
}

/// A record document: each field name with its leaf.
pub type Document = Vec<(String, Value)>;

/// An open string-keyed map: each key with the JSON text of its value.
pub type Metadata = Vec<(String, String)>;

pub struct NestedView {
    pub raw: Seq<char>,
    pub texts: Option<Seq<Seq<char>>>,
    pub numbers: Option<Seq<Number>>,
    pub entries: Option<Seq<(Seq<char>, Seq<char>)>>,
}

pub enum ValueView {
    Null,
    Bool(bool),
    Int(i64),
    Single(u32),
    Double(u64),
    Instant(i64),
    Text(Seq<char>),
    Texts(Seq<Seq<char>>),
    Singles(Seq<u32>),
    Entries(Seq<(Seq<char>, Seq<char>)>),
    Raw(Seq<char>),
    Num(Number),
    Nested(NestedView),
}

pub open spec fn texts_view(v: Seq<String>) -> Seq<Seq<char>> {
    v.map_values(|s: String| s@)
}

pub open spec fn entries_view(v: Seq<(String, String)>) -> Seq<(Seq<char>, Seq<char>)> {
    v.map_values(|p: (String, String)| (p.0@, p.1@))
}

impl View for Nested {
    type V = NestedView;

    open spec fn view(&self) -> NestedView {
        NestedView {
            raw: self.raw@,
            texts: match self.texts {
                Some(t) => Some(texts_view(t@)),
                None => None,
            },
            numbers: match self.numbers {
                Some(n) => Some(n@),
                None => None,
            },
            entries: match self.entries {
                Some(e) => Some(entries_view(e@)),
                None => None,
            },
        }
    }
}

impl View for Value {
    type V = ValueView;

    open spec fn view(&self) -> ValueView {
        match self {
            Value::Null => ValueView::Null,
            Value::Bool(b) => ValueView::Bool(*b),
            Value::Int(i) => ValueView::Int(*i),
            Value::Single(b) => ValueView::Single(*b),
            Value::Double(b) => ValueView::Double(*b),
            Value::Instant(m) => ValueView::Instant(*m),
            Value::Text(s) => ValueView::Text(s@),
            Value::Texts(v) => ValueView::Texts(texts_view(v@)),
            Value::Singles(v) => ValueView::Singles(v@),
            Value::Entries(v) => ValueView::Entries(entries_view(v@)),
            Value::Raw(s) => ValueView::Raw(s@),
            Value::Num(n) => ValueView::Num(*n),
            Value::Nested(n) => ValueView::Nested(n@),
        }
    }
}

pub fn copy_texts(v: &Vec<String>) -> (r: Vec<String>)
    ensures
        texts_view(r@) == texts_view(v@),
{
    let mut out: Vec<String> = Vec::new();
    let mut i: usize = 0;
    while i < v.len()
        invariant
            i <= v@.len(),
            out@.len() == i,
            forall|k: int| 0 <= k < i ==> (#[trigger] out@[k])@ == v@[k]@,
        decreases v@.len() - i,
    {
        out.push(v[i].clone());
        i += 1;
    }
    assert(texts_view(out@) =~= texts_view(v@));
    out
}

pub fn copy_entries(v: &Vec<(String, String)>) -> (r: Vec<(String, String)>)
    ensures
        entries_view(r@) == entries_view(v@),
{
    let mut out: Vec<(String, String)> = Vec::new();
    let mut i: usize = 0;
    while i < v.len()
        invariant
            i <= v@.len(),
            out@.len() == i,
            forall|k: int| 0 <= k < i ==> (#[trigger] out@[k]).0@ == v@[k].0@ && out@[k].1@ == v@[k].1@,
        decreases v@.len() - i,
    {
        out.push((v[i].0.clone(), v[i].1.clone()));
        i += 1;
    }
    assert(entries_view(out@) =~= entries_view(v@));
    out
}

pub fn copy_singles(v: &Vec<u32>) -> (r: Vec<u32>)
    ensures
        r@ == v@,
{
    let mut out: Vec<u32> = Vec::new();
    let mut i: usize = 0;
    while i < v.len()
        invariant
            i <= v@.len(),
            out@ == v@.take(i as int),
        decreases v@.len() - i,
    {
        out.push(v[i]);
        i += 1;
        assert(out@ =~= v@.take(i as int));
    }
    assert(v@.take(v@.len() as int) =~= v@);
    out
}

fn copy_numbers(v: &Vec<Number>) -> (r: Vec<Number>)
    ensures
        r@ == v@,
{
    let mut out: Vec<Number> = Vec::new();
    let mut i: usize = 0;
    while i < v.len()
        invariant
            i <= v@.len(),
            out@ == v@.take(i as int),
        decreases v@.len() - i,
    {
        out.push(v[i]);
        i += 1;
        assert(out@ =~= v@.take(i as int));
    }
    assert(v@.take(v@.len() as int) =~= v@);
    out
}

impl Nested {
    pub fn copy(&self) -> (r: Nested)
        ensures
            r@ == self@,
    {
        Nested {
            raw: self.raw.clone(),
            texts: match &self.texts {
                Some(t) => Some(copy_texts(t)),
                None => None,
            },
            numbers: match &self.numbers {
                Some(n) => Some(copy_numbers(n)),
                None => None,
            },
            entries: match &self.entries {
                Some(e) => Some(copy_entries(e)),
                None => None,
            },
        }
    }
}

impl Value {
    /// A copy with the same contents.
    pub fn copy(&self) -> (r: Value)
        ensures
            r@ == self@,
    {
        match self {
            Value::Null => Value::Null,
            Value::Bool(b) => Value::Bool(*b),
            Value::Int(i) => Value::Int(*i),
            Value::Single(b) => Value::Single(*b),
            Value::Double(b) => Value::Double(*b),
            Value::Instant(m) => Value::Instant(*m),
            Value::Text(s) => Value::Text(s.clone()),
            Value::Texts(v) => Value::Texts(copy_texts(v)),
            Value::Singles(v) => Value::Singles(copy_singles(v)),
            Value::Entries(v) => Value::Entries(copy_entries(v)),
            Value::Raw(s) => Value::Raw(s.clone()),
            Value::Num(n) => Value::Num(*n),
            Value::Nested(n) => Value::Nested(n.copy()),
        }
    }
}

} // verus!
