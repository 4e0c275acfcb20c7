//! Field values of each Rust type a record field can have.
use vstd::prelude::*;
use crate::schema::{fits_type, Choice, FieldType};
use crate::time::Timestamp;
use crate::types::{DeviceType, CameraType, ConnectionType, EntityType, NotePriority, SyncPriority, CompressionAlgorithm};
use crate::value::{copy_entries, copy_singles, copy_texts, entries_view, texts_view, Value, ValueView};

verus! {

pub open spec fn instant_v(x: Timestamp) -> ValueView {
    ValueView::Instant(x.micros)
}

pub open spec fn opt_instant_v(x: Option<Timestamp>) -> ValueView {
    match x {
        Some(y) => instant_v(y),
        None => ValueView::Null,
    }
}

pub fn put_instant(x: &Timestamp) -> (r: Value)
    ensures
        r@ == instant_v(*x),
{
    Value::Instant(x.micros)
}

pub fn put_opt_instant(x: &Option<Timestamp>) -> (r: Value)
    ensures
        r@ == opt_instant_v(*x),
{
    match x {
        Some(y) => put_instant(y),
        None => Value::Null,
    }
}

pub fn take_instant(v: &Value) -> (r: Timestamp)
    requires
        fits_type(FieldType::Instant, v@),
    ensures
        instant_v(r) == v@,
{
    match v {
        Value::Instant(m) => Timestamp { micros: *m },
        _ => Timestamp { micros: 0 },
    }
}

pub fn take_opt_instant(v: &Value) -> (r: Option<Timestamp>)
    requires
        v@ is Null || fits_type(FieldType::Instant, v@),
    ensures
        opt_instant_v(r) == v@,
{
    match v {
        Value::Null => None,
        _ => Some(take_instant(v)),
    }
}

pub open spec fn text_v(x: String) -> ValueView {
    ValueView::Text(x@)
}

pub open spec fn opt_text_v(x: Option<String>) -> ValueView {
    match x {
        Some(y) => text_v(y),
        None => ValueView::Null,
    }
}

pub fn put_text(x: &String) -> (r: Value)
    ensures
        r@ == text_v(*x),
{
    Value::Text(x.clone())
}

pub fn put_opt_text(x: &Option<String>) -> (r: Value)
    ensures
        r@ == opt_text_v(*x),
{
    match x {
        Some(y) => put_text(y),
        None => Value::Null,
    }
}

pub fn take_text(v: &Value) -> (r: String)
    requires
        fits_type(FieldType::Text, v@),
    ensures
        text_v(r) == v@,
{
    match v {
        Value::Text(s) => s.clone(),
        _ => String::new(),
    }
}

pub fn take_opt_text(v: &Value) -> (r: Option<String>)
    requires
        v@ is Null || fits_type(FieldType::Text, v@),
    ensures
        opt_text_v(r) == v@,
{
    match v {
        Value::Null => None,
        _ => Some(take_text(v)),
    }
}

pub open spec fn int_v(x: i32) -> ValueView {
    ValueView::Int(x as i64)
}

pub open spec fn opt_int_v(x: Option<i32>) -> ValueView {
    match x {
        Some(y) => int_v(y),
        None => ValueView::Null,
    }
}

pub fn put_int(x: &i32) -> (r: Value)
    ensures
        r@ == int_v(*x),
{
    Value::Int(*x as i64)
}

pub fn put_opt_int(x: &Option<i32>) -> (r: Value)
    ensures
        r@ == opt_int_v(*x),
{
    match x {
        Some(y) => put_int(y),
        None => Value::Null,
    }
}

pub fn take_int(v: &Value) -> (r: i32)
    requires
        fits_type(FieldType::Int, v@),
    ensures
        int_v(r) == v@,
{
    match v {
        Value::Int(i) => *i as i32,
        _ => 0,
    }
}

pub fn take_opt_int(v: &Value) -> (r: Option<i32>)
    requires
        v@ is Null || fits_type(FieldType::Int, v@),
    ensures
        opt_int_v(r) == v@,
{
    match v {
        Value::Null => None,
        _ => Some(take_int(v)),
    }
}

#[verifier::opaque]
pub open spec fn bool_v(x: bool) -> ValueView {
    ValueView::Bool(x)
}

pub open spec fn opt_bool_v(x: Option<bool>) -> ValueView {
    match x {
        Some(y) => bool_v(y),
        None => ValueView::Null,
    }
}

pub fn put_bool(x: &bool) -> (r: Value)
    ensures
        r@ == bool_v(*x),
{
    reveal(bool_v);
    Value::Bool(*x)
}

pub fn put_opt_bool(x: &Option<bool>) -> (r: Value)
    ensures
        r@ == opt_bool_v(*x),
{
    match x {
        Some(y) => put_bool(y),
        None => Value::Null,
    }
}

pub fn take_bool(v: &Value) -> (r: bool)
    requires
        fits_type(FieldType::Bool, v@),
    ensures
        bool_v(r) == v@,
{
    reveal(bool_v);
    match v {
        Value::Bool(b) => *b,
        _ => false,
    }
}

pub fn take_opt_bool(v: &Value) -> (r: Option<bool>)
    requires
        v@ is Null || fits_type(FieldType::Bool, v@),
    ensures
        opt_bool_v(r) == v@,
{
    match v {
        Value::Null => None,
        _ => Some(take_bool(v)),
    }
}

pub open spec fn single_v(x: u32) -> ValueView {
    ValueView::Single(x)
}

pub open spec fn opt_single_v(x: Option<u32>) -> ValueView {
    match x {
        Some(y) => single_v(y),
        None => ValueView::Null,
    }
}

pub fn put_single(x: &u32) -> (r: Value)
    ensures
        r@ == single_v(*x),
{
    Value::Single(*x)
}

pub fn put_opt_single(x: &Option<u32>) -> (r: Value)
    ensures
        r@ == opt_single_v(*x),
{
    match x {
        Some(y) => put_single(y),
        None => Value::Null,
    }
}

pub fn take_single(v: &Value) -> (r: u32)
    requires
        fits_type(FieldType::Single, v@),
    ensures
        single_v(r) == v@,
{
    match v {
        Value::Single(b) => *b,
        _ => 0,
    }
}

pub fn take_opt_single(v: &Value) -> (r: Option<u32>)
    requires
        v@ is Null || fits_type(FieldType::Single, v@),
    ensures
        opt_single_v(r) == v@,
{
    match v {
        Value::Null => None,
        _ => Some(take_single(v)),
    }
}

pub open spec fn double_v(x: u64) -> ValueView {
    ValueView::Double(x)
}

pub open spec fn opt_double_v(x: Option<u64>) -> ValueView {
    match x {
        Some(y) => double_v(y),
        None => ValueView::Null,
    }
}

pub fn put_double(x: &u64) -> (r: Value)
    ensures
        r@ == double_v(*x),
{
    Value::Double(*x)
}

pub fn put_opt_double(x: &Option<u64>) -> (r: Value)
    ensures
        r@ == opt_double_v(*x),
{
    match x {
        Some(y) => put_double(y),
        None => Value::Null,
    }
}

pub fn take_double(v: &Value) -> (r: u64)
    requires
        fits_type(FieldType::Double, v@),
    ensures
        double_v(r) == v@,
{
    match v {
        Value::Double(b) => *b,
        _ => 0,
    }
}

pub fn take_opt_double(v: &Value) -> (r: Option<u64>)
    requires
        v@ is Null || fits_type(FieldType::Double, v@),
    ensures
        opt_double_v(r) == v@,
{
    match v {
        Value::Null => None,
        _ => Some(take_double(v)),
    }
}

pub open spec fn texts_v(x: Vec<String>) -> ValueView {
    ValueView::Texts(texts_view(x@))
}

pub open spec fn opt_texts_v(x: Option<Vec<String>>) -> ValueView {
    match x {
        Some(y) => texts_v(y),
        None => ValueView::Null,
    }
}

pub fn put_texts(x: &Vec<String>) -> (r: Value)
    ensures
        r@ == texts_v(*x),
{
    Value::Texts(copy_texts(x))
}

pub fn put_opt_texts(x: &Option<Vec<String>>) -> (r: Value)
    ensures
        r@ == opt_texts_v(*x),
{
    match x {
        Some(y) => put_texts(y),
        None => Value::Null,
    }
}

pub fn take_texts(v: &Value) -> (r: Vec<String>)
    requires
        fits_type(FieldType::Texts, v@),
    ensures
        texts_v(r) == v@,
{
    match v {
        Value::Texts(t) => copy_texts(t),
        _ => Vec::new(),
    }
}

pub fn take_opt_texts(v: &Value) -> (r: Option<Vec<String>>)
    requires
        v@ is Null || fits_type(FieldType::Texts, v@),
    ensures
        opt_texts_v(r) == v@,
{
    match v {
        Value::Null => None,
        _ => Some(take_texts(v)),
    }
}

pub open spec fn singles_v(x: Vec<u32>) -> ValueView {
    ValueView::Singles(x@)
}

pub open spec fn opt_singles_v(x: Option<Vec<u32>>) -> ValueView {
    match x {
        Some(y) => singles_v(y),
        None => ValueView::Null,
    }
}

pub fn put_singles(x: &Vec<u32>) -> (r: Value)
    ensures
        r@ == singles_v(*x),
{
    Value::Singles(copy_singles(x))
}

pub fn put_opt_singles(x: &Option<Vec<u32>>) -> (r: Value)
    ensures
        r@ == opt_singles_v(*x),
{
    match x {
        Some(y) => put_singles(y),
        None => Value::Null,
    }
}

pub fn take_singles(v: &Value) -> (r: Vec<u32>)
    requires
        fits_type(FieldType::Singles, v@),
    ensures
        singles_v(r) == v@,
{
    match v {
        Value::Singles(t) => copy_singles(t),
        _ => Vec::new(),
    }
}

pub fn take_opt_singles(v: &Value) -> (r: Option<Vec<u32>>)
    requires
        v@ is Null || fits_type(FieldType::Singles, v@),
    ensures
        opt_singles_v(r) == v@,
{
    match v {
        Value::Null => None,
        _ => Some(take_singles(v)),
    }
}

pub open spec fn entries_v(x: Vec<(String, String)>) -> ValueView {
    ValueView::Entries(entries_view(x@))
}

pub open spec fn opt_entries_v(x: Option<Vec<(String, String)>>) -> ValueView {
    match x {
        Some(y) => entries_v(y),
        None => ValueView::Null,
    }
}

pub fn put_entries(x: &Vec<(String, String)>) -> (r: Value)
    ensures
        r@ == entries_v(*x),
{
    Value::Entries(copy_entries(x))
}

pub fn put_opt_entries(x: &Option<Vec<(String, String)>>) -> (r: Value)
    ensures
        r@ == opt_entries_v(*x),
{
    match x {
        Some(y) => put_entries(y),
        None => Value::Null,
    }
}

pub fn take_entries(v: &Value) -> (r: Vec<(String, String)>)
    requires
        fits_type(FieldType::Entries, v@),
    ensures
        entries_v(r) == v@,
{
    match v {
        Value::Entries(t) => copy_entries(t),
        _ => Vec::new(),
    }
}

pub fn take_opt_entries(v: &Value) -> (r: Option<Vec<(String, String)>>)
    requires
        v@ is Null || fits_type(FieldType::Entries, v@),
    ensures
        opt_entries_v(r) == v@,
{
    match v {
        Value::Null => None,
        _ => Some(take_entries(v)),
    }
}

pub open spec fn raw_v(x: String) -> ValueView {
    ValueView::Raw(x@)
}

pub open spec fn opt_raw_v(x: Option<String>) -> ValueView {
    match x {
        Some(y) => raw_v(y),
        None => ValueView::Null,
    }
}

pub fn put_raw(x: &String) -> (r: Value)
    ensures
        r@ == raw_v(*x),
{
    Value::Raw(x.clone())
}

pub fn put_opt_raw(x: &Option<String>) -> (r: Value)
    ensures
        r@ == opt_raw_v(*x),
{
    match x {
        Some(y) => put_raw(y),
        None => Value::Null,
    }
}

pub fn take_raw(v: &Value) -> (r: String)
    requires
        fits_type(FieldType::Raw, v@),
    ensures
        raw_v(r) == v@,
{
    match v {
        Value::Raw(s) => s.clone(),
        _ => String::new(),
    }
}

pub fn take_opt_raw(v: &Value) -> (r: Option<String>)
    requires
        v@ is Null || fits_type(FieldType::Raw, v@),
    ensures
        opt_raw_v(r) == v@,
{
    match v {
        Value::Null => None,
        _ => Some(take_raw(v)),
    }
}

pub open spec fn device_type_v(x: DeviceType) -> ValueView {
    ValueView::Text(x.wire_name())
}

pub open spec fn opt_device_type_v(x: Option<DeviceType>) -> ValueView {
    match x {
        Some(y) => device_type_v(y),
        None => ValueView::Null,
    }
}

pub fn put_device_type(x: &DeviceType) -> (r: Value)
    ensures
        r@ == device_type_v(*x),
{
    Value::Text(x.as_wire().to_owned())
}

pub fn put_opt_device_type(x: &Option<DeviceType>) -> (r: Value)
    ensures
        r@ == opt_device_type_v(*x),
{
    match x {
        Some(y) => put_device_type(y),
        None => Value::Null,
    }
}

pub fn take_device_type(v: &Value) -> (r: DeviceType)
    requires
        fits_type(FieldType::Choice(Choice::DeviceType), v@),
    ensures
        device_type_v(r) == v@,
{
    match v {
        Value::Text(s) => match DeviceType::from_wire(s.as_str()) {
            Some(e) => {
                proof {
                    DeviceType::lemma_from_wire_inverse(s@);
                }
                e
            },
            None => DeviceType::Unknown,
        },
        _ => DeviceType::Unknown,
    }
}

pub fn take_opt_device_type(v: &Value) -> (r: Option<DeviceType>)
    requires
        v@ is Null || fits_type(FieldType::Choice(Choice::DeviceType), v@),
    ensures
        opt_device_type_v(r) == v@,
{
    match v {
        Value::Null => None,
        _ => Some(take_device_type(v)),
    }
}

pub open spec fn camera_type_v(x: CameraType) -> ValueView {
    ValueView::Text(x.wire_name())
}

pub open spec fn opt_camera_type_v(x: Option<CameraType>) -> ValueView {
    match x {
        Some(y) => camera_type_v(y),
        None => ValueView::Null,
    }
}

pub fn put_camera_type(x: &CameraType) -> (r: Value)
    ensures
        r@ == camera_type_v(*x),
{
    Value::Text(x.as_wire().to_owned())
}

pub fn put_opt_camera_type(x: &Option<CameraType>) -> (r: Value)
    ensures
        r@ == opt_camera_type_v(*x),
{
    match x {
        Some(y) => put_camera_type(y),
        None => Value::Null,
    }
}

pub fn take_camera_type(v: &Value) -> (r: CameraType)
    requires
        fits_type(FieldType::Choice(Choice::CameraType), v@),
    ensures
        camera_type_v(r) == v@,
{
    match v {
        Value::Text(s) => match CameraType::from_wire(s.as_str()) {
            Some(e) => {
                proof {
                    CameraType::lemma_from_wire_inverse(s@);
                }
                e
            },
            None => CameraType::Unknown,
        },
        _ => CameraType::Unknown,
    }
}

pub fn take_opt_camera_type(v: &Value) -> (r: Option<CameraType>)
    requires
        v@ is Null || fits_type(FieldType::Choice(Choice::CameraType), v@),
    ensures
        opt_camera_type_v(r) == v@,
{
    match v {
        Value::Null => None,
        _ => Some(take_camera_type(v)),
    }
}

pub open spec fn connection_type_v(x: ConnectionType) -> ValueView {
    ValueView::Text(x.wire_name())
}

pub open spec fn opt_connection_type_v(x: Option<ConnectionType>) -> ValueView {
    match x {
        Some(y) => connection_type_v(y),
        None => ValueView::Null,
    }
}

pub fn put_connection_type(x: &ConnectionType) -> (r: Value)
    ensures
        r@ == connection_type_v(*x),
{
    Value::Text(x.as_wire().to_owned())
}

pub fn put_opt_connection_type(x: &Option<ConnectionType>) -> (r: Value)
    ensures
        r@ == opt_connection_type_v(*x),
{
    match x {
        Some(y) => put_connection_type(y),
        None => Value::Null,
    }
}

pub fn take_connection_type(v: &Value) -> (r: ConnectionType)
    requires
        fits_type(FieldType::Choice(Choice::ConnectionType), v@),
    ensures
        connection_type_v(r) == v@,
{
    match v {
        Value::Text(s) => match ConnectionType::from_wire(s.as_str()) {
            Some(e) => {
                proof {
                    ConnectionType::lemma_from_wire_inverse(s@);
                }
                e
            },
            None => ConnectionType::Unknown,
        },
        _ => ConnectionType::Unknown,
    }
}

pub fn take_opt_connection_type(v: &Value) -> (r: Option<ConnectionType>)
    requires
        v@ is Null || fits_type(FieldType::Choice(Choice::ConnectionType), v@),
    ensures
        opt_connection_type_v(r) == v@,
{
    match v {
        Value::Null => None,
        _ => Some(take_connection_type(v)),
    }
}

pub open spec fn entity_type_v(x: EntityType) -> ValueView {
    ValueView::Text(x.wire_name())
}

pub open spec fn opt_entity_type_v(x: Option<EntityType>) -> ValueView {
    match x {
        Some(y) => entity_type_v(y),
        None => ValueView::Null,
    }
}

pub fn put_entity_type(x: &EntityType) -> (r: Value)
    ensures
        r@ == entity_type_v(*x),
{
    Value::Text(x.as_wire().to_owned())
}

pub fn put_opt_entity_type(x: &Option<EntityType>) -> (r: Value)
    ensures
        r@ == opt_entity_type_v(*x),
{
    match x {
        Some(y) => put_entity_type(y),
        None => Value::Null,
    }
}

pub fn take_entity_type(v: &Value) -> (r: EntityType)
    requires
        fits_type(FieldType::Choice(Choice::EntityType), v@),
    ensures
        entity_type_v(r) == v@,
{
    match v {
        Value::Text(s) => match EntityType::from_wire(s.as_str()) {
            Some(e) => {
                proof {
                    EntityType::lemma_from_wire_inverse(s@);
                }
                e
            },
            None => EntityType::Face,
        },
        _ => EntityType::Face,
    }
}

pub fn take_opt_entity_type(v: &Value) -> (r: Option<EntityType>)
    requires
        v@ is Null || fits_type(FieldType::Choice(Choice::EntityType), v@),
    ensures
        opt_entity_type_v(r) == v@,
{
    match v {
        Value::Null => None,
        _ => Some(take_entity_type(v)),
    }
}

pub open spec fn note_priority_v(x: NotePriority) -> ValueView {
    ValueView::Text(x.wire_name())
}

pub open spec fn opt_note_priority_v(x: Option<NotePriority>) -> ValueView {
    match x {
        Some(y) => note_priority_v(y),
        None => ValueView::Null,
    }
}

pub fn put_note_priority(x: &NotePriority) -> (r: Value)
    ensures
        r@ == note_priority_v(*x),
{
    Value::Text(x.as_wire().to_owned())
}

pub fn put_opt_note_priority(x: &Option<NotePriority>) -> (r: Value)
    ensures
        r@ == opt_note_priority_v(*x),
{
    match x {
        Some(y) => put_note_priority(y),
        None => Value::Null,
    }
}

pub fn take_note_priority(v: &Value) -> (r: NotePriority)
    requires
        fits_type(FieldType::Choice(Choice::NotePriority), v@),
    ensures
        note_priority_v(r) == v@,
{
    match v {
        Value::Text(s) => match NotePriority::from_wire(s.as_str()) {
            Some(e) => {
                proof {
                    NotePriority::lemma_from_wire_inverse(s@);
                }
                e
            },
            None => NotePriority::Medium,
        },
        _ => NotePriority::Medium,
    }
}

pub fn take_opt_note_priority(v: &Value) -> (r: Option<NotePriority>)
    requires
        v@ is Null || fits_type(FieldType::Choice(Choice::NotePriority), v@),
    ensures
        opt_note_priority_v(r) == v@,
{
    match v {
        Value::Null => None,
        _ => Some(take_note_priority(v)),
    }
}

pub open spec fn sync_priority_v(x: SyncPriority) -> ValueView {
    ValueView::Text(x.wire_name())
}

pub open spec fn opt_sync_priority_v(x: Option<SyncPriority>) -> ValueView {
    match x {
        Some(y) => sync_priority_v(y),
        None => ValueView::Null,
    }
}

pub fn put_sync_priority(x: &SyncPriority) -> (r: Value)
    ensures
        r@ == sync_priority_v(*x),
{
    Value::Text(x.as_wire().to_owned())
}

pub fn put_opt_sync_priority(x: &Option<SyncPriority>) -> (r: Value)
    ensures
        r@ == opt_sync_priority_v(*x),
{
    match x {
        Some(y) => put_sync_priority(y),
        None => Value::Null,
    }
}

pub fn take_sync_priority(v: &Value) -> (r: SyncPriority)
    requires
        fits_type(FieldType::Choice(Choice::SyncPriority), v@),
    ensures
        sync_priority_v(r) == v@,
{
    match v {
        Value::Text(s) => match SyncPriority::from_wire(s.as_str()) {
            Some(e) => {
                proof {
                    SyncPriority::lemma_from_wire_inverse(s@);
                }
                e
            },
            None => SyncPriority::Medium,
        },
        _ => SyncPriority::Medium,
    }
}

pub fn take_opt_sync_priority(v: &Value) -> (r: Option<SyncPriority>)
    requires
        v@ is Null || fits_type(FieldType::Choice(Choice::SyncPriority), v@),
    ensures
        opt_sync_priority_v(r) == v@,
{
    match v {
        Value::Null => None,
        _ => Some(take_sync_priority(v)),
    }
}

pub open spec fn compression_algorithm_v(x: CompressionAlgorithm) -> ValueView {
    ValueView::Text(x.wire_name())
}

pub open spec fn opt_compression_algorithm_v(x: Option<CompressionAlgorithm>) -> ValueView {
    match x {
        Some(y) => compression_algorithm_v(y),
        None => ValueView::Null,
    }
}

pub fn put_compression_algorithm(x: &CompressionAlgorithm) -> (r: Value)
    ensures
        r@ == compression_algorithm_v(*x),
{
    Value::Text(x.as_wire().to_owned())
}

pub fn put_opt_compression_algorithm(x: &Option<CompressionAlgorithm>) -> (r: Value)
    ensures
        r@ == opt_compression_algorithm_v(*x),
{
    match x {
        Some(y) => put_compression_algorithm(y),
        None => Value::Null,
    }
}

pub fn take_compression_algorithm(v: &Value) -> (r: CompressionAlgorithm)
    requires
        fits_type(FieldType::Choice(Choice::CompressionAlgorithm), v@),
    ensures
        compression_algorithm_v(r) == v@,
{
    match v {
        Value::Text(s) => match CompressionAlgorithm::from_wire(s.as_str()) {
            Some(e) => {
                proof {
                    CompressionAlgorithm::lemma_from_wire_inverse(s@);
                }
                e
            },
            None => CompressionAlgorithm::Uncompressed,
        },
        _ => CompressionAlgorithm::Uncompressed,
    }
}

pub fn take_opt_compression_algorithm(v: &Value) -> (r: Option<CompressionAlgorithm>)
    requires
        v@ is Null || fits_type(FieldType::Choice(Choice::CompressionAlgorithm), v@),
    ensures
        opt_compression_algorithm_v(r) == v@,
{
    match v {
        Value::Null => None,
        _ => Some(take_compression_algorithm(v)),
    }
}

} // verus!
