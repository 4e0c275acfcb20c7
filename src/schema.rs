//! Field schemas of record kinds, and what a record document must hold.
use vstd::prelude::*;
use crate::time::{in_range, rfc3339_micros};
use crate::types::{
    CameraType, CompressionAlgorithm, ConnectionType, DeviceType, EntityType, NotePriority,
    SyncPriority,
};
use crate::value::{Number, Value, ValueView};

verus! {

/// A closed enumeration whose wire names a field accepts.
#[derive(Debug, Clone, Copy, PartialEq, Eq, Structural)]
pub enum Choice {
    DeviceType,
    CameraType,
    ConnectionType,
    EntityType,
    NotePriority,
    SyncPriority,
    CompressionAlgorithm,
}

impl Choice {
    pub open spec fn accepts_spec(self, s: Seq<char>) -> bool {
        match self {
            Choice::DeviceType => DeviceType::from_wire_spec(s) is Some,
            Choice::CameraType => CameraType::from_wire_spec(s) is Some,
            Choice::ConnectionType => ConnectionType::from_wire_spec(s) is Some,
            Choice::EntityType => EntityType::from_wire_spec(s) is Some,
            Choice::NotePriority => NotePriority::from_wire_spec(s) is Some,
            Choice::SyncPriority => SyncPriority::from_wire_spec(s) is Some,
            Choice::CompressionAlgorithm => CompressionAlgorithm::from_wire_spec(s) is Some,
        }
    }

    pub fn accepts(&self, s: &str) -> (r: bool)
        ensures
            r == self.accepts_spec(s@),
    {
        match self {
            Choice::DeviceType => DeviceType::from_wire(s).is_some(),
            Choice::CameraType => CameraType::from_wire(s).is_some(),
            Choice::ConnectionType => ConnectionType::from_wire(s).is_some(),
            Choice::EntityType => EntityType::from_wire(s).is_some(),
            Choice::NotePriority => NotePriority::from_wire(s).is_some(),
            Choice::SyncPriority => SyncPriority::from_wire(s).is_some(),
            Choice::CompressionAlgorithm => CompressionAlgorithm::from_wire(s).is_some(),
        }
    }
}

/// The type of a record field.
#[derive(Debug, Clone, Copy, PartialEq, Eq, Structural)]
pub enum FieldType {
    Instant,
    Text,
    /// A 32-bit signed integer.
    Int,
    Bool,
    Single,
    Double,
    Texts,
    Singles,
    Entries,
    Raw,
    Choice(Choice),
}

/// What a document may do with a field.
#[derive(Debug)]
pub enum Presence {
    /// The field must be there.
    Required,
    /// The field may be left out, or be null; it is then absent.
    Optional,
    /// The field may be left out, or be null; it then takes this value.
    Default(Value),
}

pub enum PresenceView {
    Required,
    Optional,
    Default(ValueView),
}

impl View for Presence {
    type V = PresenceView;

    open spec fn view(&self) -> PresenceView {
        match self {
            Presence::Required => PresenceView::Required,
            Presence::Optional => PresenceView::Optional,
            Presence::Default(v) => PresenceView::Default(v@),
        }
    }
}

/// One field of a record kind: its name in documents, its type, and its presence rule.
#[derive(Debug)]
pub struct FieldSpec {
    pub name: &'static str,
    pub ty: FieldType,
    pub presence: Presence,
}

pub struct FieldSpecView {
    pub name: Seq<char>,
    pub ty: FieldType,
    pub presence: PresenceView,
}

impl View for FieldSpec {
    type V = FieldSpecView;

    open spec fn view(&self) -> FieldSpecView {
        FieldSpecView { name: self.name@, ty: self.ty, presence: self.presence@ }
    }
}

pub open spec fn schema_view(s: Seq<FieldSpec>) -> Seq<FieldSpecView> {
    s.map_values(|f: FieldSpec| f@)
}

pub open spec fn doc_view(d: Seq<(String, Value)>) -> Seq<(Seq<char>, ValueView)> {
    d.map_values(|p: (String, Value)| (p.0@, p.1@))
}

pub open spec fn values_view(v: Seq<Value>) -> Seq<ValueView> {
    v.map_values(|x: Value| x@)
}

/// Why a document does not hold a record.
#[derive(Debug, Clone, Copy, PartialEq, Eq, Structural)]
pub enum SchemaErrorKind {
    /// A required field is left out or null.
    Missing,
    /// A field holds a value of the wrong type, out of range, or an unknown variant name.
    WrongType,
}

/// A document that does not hold a record of the kind asked for, and the field at fault.
#[derive(Debug)]
pub struct SchemaError {
    pub kind: SchemaErrorKind,
    pub field: String,
}

impl View for SchemaError {
    type V = (SchemaErrorKind, Seq<char>);

    open spec fn view(&self) -> (SchemaErrorKind, Seq<char>) {
        (self.kind, self.field@)
    }
}

pub open spec fn fits_int(i: i64) -> bool {
    i32::MIN <= i <= i32::MAX
}

/// A value of the field's type, never null.
pub open spec fn fits_type(ty: FieldType, v: ValueView) -> bool {
    match ty {
        FieldType::Instant => v matches ValueView::Instant(m) && in_range(m as int),
        FieldType::Text => v is Text,
        FieldType::Int => v matches ValueView::Int(i) && fits_int(i),
        FieldType::Bool => v is Bool,
        FieldType::Single => v is Single,
        FieldType::Double => v is Double,
        FieldType::Texts => v is Texts,
        FieldType::Singles => v is Singles,
        FieldType::Entries => v is Entries,
        FieldType::Raw => v is Raw,
        FieldType::Choice(c) => v matches ValueView::Text(s) && c.accepts_spec(s),
    }
}

/// A value that a record may hold in the field: null only where the field is optional.
pub open spec fn fits(f: FieldSpecView, v: ValueView) -> bool {
    match f.presence {
        PresenceView::Optional => v is Null || fits_type(f.ty, v),
        _ => fits_type(f.ty, v),
    }
}

pub open spec fn all_fit(schema: Seq<FieldSpecView>, vals: Seq<ValueView>) -> bool {
    &&& vals.len() == schema.len()
    &&& forall|i: int| 0 <= i < schema.len() ==> fits(#[trigger] schema[i], vals[i])
}

/// Field names are distinct and each default value fits its field.
pub open spec fn schema_wf(schema: Seq<FieldSpecView>) -> bool {
    &&& forall|i: int, j: int|
        0 <= i < j < schema.len() ==> (#[trigger] schema[i]).name != (#[trigger] schema[j]).name
    &&& forall|i: int|
        0 <= i < schema.len() ==> match (#[trigger] schema[i]).presence {
            PresenceView::Default(d) => fits_type(schema[i].ty, d),
            _ => true,
        }
}

/// The value of the last entry named `key`.
pub open spec fn lookup(doc: Seq<(Seq<char>, ValueView)>, key: Seq<char>) -> Option<ValueView>
    decreases doc.len(),
{
    if doc.len() == 0 {
        None
    } else if doc.last().0 == key {
        Some(doc.last().1)
    } else {
        lookup(doc.drop_last(), key)
    }
}

/// Reads a document leaf as a value of the given type, if it can be one.
pub open spec fn coerce(ty: FieldType, v: ValueView) -> Option<ValueView> {
    match ty {
        FieldType::Instant => match v {
            ValueView::Instant(m) => if in_range(m as int) { Some(v) } else { None },
            ValueView::Text(s) => match rfc3339_micros(s) {
                Some(m) => if in_range(m as int) { Some(ValueView::Instant(m)) } else { None },
                None => None,
            },
            _ => None,
        },
        FieldType::Text => if v is Text { Some(v) } else { None },
        FieldType::Int => match v {
            ValueView::Int(i) => if fits_int(i) { Some(v) } else { None },
            ValueView::Num(n) => match n.integer {
                Some(i) => if fits_int(i) { Some(ValueView::Int(i)) } else { None },
                None => None,
            },
            _ => None,
        },
        FieldType::Bool => if v is Bool { Some(v) } else { None },
        FieldType::Single => match v {
            ValueView::Single(_) => Some(v),
            ValueView::Num(n) => Some(ValueView::Single(n.single)),
            _ => None,
        },
        FieldType::Double => match v {
            ValueView::Double(_) => Some(v),
            ValueView::Num(n) => Some(ValueView::Double(n.double)),
            _ => None,
        },
        FieldType::Texts => match v {
            ValueView::Texts(_) => Some(v),
            ValueView::Nested(n) => match n.texts {
                Some(t) => Some(ValueView::Texts(t)),
                None => None,
            },
            _ => None,
        },
        FieldType::Singles => match v {
            ValueView::Singles(_) => Some(v),
            ValueView::Nested(n) => match n.numbers {
                Some(ns) => Some(ValueView::Singles(ns.map_values(|x: Number| x.single))),
                None => None,
            },
            _ => None,
        },
        FieldType::Entries => match v {
            ValueView::Entries(_) => Some(v),
            ValueView::Nested(n) => match n.entries {
                Some(e) => Some(ValueView::Entries(e)),
                None => None,
            },
            _ => None,
        },
        FieldType::Raw => match v {
            ValueView::Raw(_) => Some(v),
            ValueView::Nested(n) => Some(ValueView::Raw(n.raw)),
            _ => None,
        },
        FieldType::Choice(c) => match v {
            ValueView::Text(s) => if c.accepts_spec(s) { Some(v) } else { None },
            _ => None,
        },
    }
}

/// The value a document gives a field, or why it gives none.
pub open spec fn decode_field(f: FieldSpecView, doc: Seq<(Seq<char>, ValueView)>) -> Result<
    ValueView,
    (SchemaErrorKind, Seq<char>),
> {
    let found = lookup(doc, f.name);
    if found is None || found == Some(ValueView::Null) {
        match f.presence {
            PresenceView::Required => Err((SchemaErrorKind::Missing, f.name)),
            PresenceView::Optional => Ok(ValueView::Null),
            PresenceView::Default(d) => Ok(d),
        }
    } else {
        match coerce(f.ty, found.unwrap()) {
            Some(v) => Ok(v),
            None => Err((SchemaErrorKind::WrongType, f.name)),
        }
    }
}

/// The field values a document gives, in schema order, or the error of the first
/// field (in schema order) that it cannot give.
pub open spec fn decode(schema: Seq<FieldSpecView>, doc: Seq<(Seq<char>, ValueView)>) -> Result<
    Seq<ValueView>,
    (SchemaErrorKind, Seq<char>),
>
    decreases schema.len(),
{
    if schema.len() == 0 {
        Ok(Seq::empty())
    } else {
        match decode(schema.drop_last(), doc) {
            Err(e) => Err(e),
            Ok(vals) => match decode_field(schema.last(), doc) {
                Err(e) => Err(e),
                Ok(v) => Ok(vals.push(v)),
            },
        }
    }
}

/// The document of a record: one entry per field in schema order, leaving out the
/// absent ones.
pub open spec fn encode(schema: Seq<FieldSpecView>, vals: Seq<ValueView>) -> Seq<
    (Seq<char>, ValueView),
>
    decreases schema.len(),
{
    if schema.len() == 0 {
        Seq::empty()
    } else {
        let prev = encode(schema.drop_last(), vals.take(schema.len() - 1));
        if vals[schema.len() - 1] is Null {
            prev
        } else {
            prev.push((schema.last().name, vals[schema.len() - 1]))
        }
    }
}

} // verus!
