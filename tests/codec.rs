use loom::config::{RetentionConfig, SyncPriorityConfig};
use loom::defaults::{default_batch_size, default_note_priority, default_retry_count};
use loom::note::Note;
use loom::schema::SchemaErrorKind;
use loom::sensor::{AccelerometerData, NetworkData};
use loom::time::Timestamp;
use loom::types::{CompressionAlgorithm, ConnectionType, DeviceType, NotePriority, SyncPriority};
use loom::value::{Document, Nested, Number, Value};

const T: i64 = 1_700_000_000_000_000;

fn entry(k: &str, v: Value) -> (String, Value) {
    (k.to_string(), v)
}

fn text(s: &str) -> Value {
    Value::Text(s.to_string())
}

fn note_doc() -> Document {
    vec![
        entry("id", text("n1")),
        entry("user_id", text("u1")),
        entry("timestamp", text("2024-01-01T00:00:00Z")),
        entry("content", text("hello")),
        entry("created_at", text("2024-01-01T00:00:00Z")),
        entry("updated_at", text("2024-01-01T00:00:01.5Z")),
    ]
}

#[test]
fn note_priority_defaults_to_medium() {
    let n = Note::from_json(&note_doc()).unwrap();
    assert_eq!(n.priority, NotePriority::Medium);
    assert_eq!(n.timestamp, Timestamp { micros: 1_704_067_200_000_000 });
    assert_eq!(n.updated_at, Timestamp { micros: 1_704_067_201_500_000 });
    assert_eq!(n.parent_id, None);
    assert_eq!(default_note_priority(), NotePriority::Medium);
}

#[test]
fn note_round_trip_with_every_optional_field() {
    let mut n = Note::from_json(&note_doc()).unwrap();
    n.priority = NotePriority::Critical;
    n.parent_id = Some("n0".to_string());
    n.tags = Some(vec![]);
    n.embedding = Some(vec![1.5f32.to_bits(), 2.0f32.to_bits()]);
    n.metadata = Some(vec![("k".to_string(), "{\"a\":1}".to_string())]);
    let doc = n.to_json();
    assert_eq!(doc.len(), 11);
    assert_eq!(Note::from_json(&doc).unwrap(), n);
}

#[test]
fn sparse_encoding_leaves_out_absent_fields() {
    let r = AccelerometerData {
        timestamp: Timestamp { micros: T },
        device_id: "d1".to_string(),
        x: 1,
        y: 2,
        z: 3,
        accuracy: None,
        metadata: None,
    };
    let doc = r.to_json();
    let keys: Vec<&str> = doc.iter().map(|(k, _)| k.as_str()).collect();
    assert_eq!(keys, vec!["timestamp", "device_id", "x", "y", "z"]);
    assert_eq!(AccelerometerData::from_json(&doc).unwrap(), r);
}

fn retention_doc() -> Document {
    vec![
        entry("table_name", text("gps_data")),
        entry("created_at", Value::Instant(T)),
        entry("updated_at", Value::Instant(T)),
    ]
}

#[test]
fn retention_defaults() {
    let c = RetentionConfig::from_json(&retention_doc()).unwrap();
    assert_eq!(c.compression_algorithm, CompressionAlgorithm::Uncompressed);
    assert_eq!(CompressionAlgorithm::default(), CompressionAlgorithm::Uncompressed);
    assert!(!c.compression_enabled);
    assert!(!c.convert_to_text);
    assert_eq!(c.retention_days, None);
    let back = RetentionConfig::from_json(&c.to_json()).unwrap();
    assert_eq!(back, c);
}

#[test]
fn sync_priority_defaults() {
    let doc = vec![
        entry("table_name", text("gps_data")),
        entry("priority", text("HIGH")),
        entry("created_at", Value::Instant(T)),
        entry("updated_at", Value::Instant(T)),
    ];
    let c = SyncPriorityConfig::from_json(&doc).unwrap();
    assert_eq!(c.batch_size, 1000);
    assert_eq!(c.retry_count, 3);
    assert_eq!(c.priority, SyncPriority::High);
    assert_eq!(default_batch_size(), 1000);
    assert_eq!(default_retry_count(), 3);
}

#[test]
fn missing_required_field_is_reported() {
    let mut doc = retention_doc();
    doc.remove(0);
    let e = RetentionConfig::from_json(&doc).unwrap_err();
    assert_eq!(e.kind, SchemaErrorKind::Missing);
    assert_eq!(e.field, "table_name");
}

#[test]
fn wrong_type_and_unknown_variant_are_reported() {
    let mut doc = retention_doc();
    doc.push(entry("retention_days", text("thirty")));
    let e = RetentionConfig::from_json(&doc).unwrap_err();
    assert_eq!(e.kind, SchemaErrorKind::WrongType);
    assert_eq!(e.field, "retention_days");

    let mut doc = retention_doc();
    doc.push(entry("compression_algorithm", text("BROTLI")));
    let e = RetentionConfig::from_json(&doc).unwrap_err();
    assert_eq!(e.kind, SchemaErrorKind::WrongType);
    assert_eq!(e.field, "compression_algorithm");

    let mut doc = retention_doc();
    doc.push(entry("retention_days", Value::Int(1 << 40)));
    assert_eq!(RetentionConfig::from_json(&doc).unwrap_err().field, "retention_days");

    let mut doc = retention_doc();
    doc[1].1 = text("not a time");
    assert_eq!(RetentionConfig::from_json(&doc).unwrap_err().field, "created_at");
}

#[test]
fn numbers_and_arrays_read_from_text() {
    let n = Number { integer: Some(7), single: 7.0f32.to_bits(), double: 7.0f64.to_bits() };
    let doc = vec![
        entry("timestamp", text("2024-01-01T00:00:00+01:00")),
        entry("device_id", text("d")),
        entry("connection_type", text("CELLULAR5G")),
        entry("strength", Value::Num(n)),
        entry("dns_servers", Value::Nested(Nested {
            raw: "[\"1.1.1.1\"]".to_string(),
            texts: Some(vec!["1.1.1.1".to_string()]),
            numbers: None,
            entries: None,
        })),
        entry("gateway", Value::Null),
    ];
    let r = NetworkData::from_json(&doc).unwrap();
    assert_eq!(r.timestamp, Timestamp { micros: 1_704_063_600_000_000 });
    assert_eq!(r.connection_type, ConnectionType::Cellular5g);
    assert_eq!(r.strength, Some(7));
    assert_eq!(r.dns_servers, Some(vec!["1.1.1.1".to_string()]));
    assert_eq!(r.gateway, None);
    let x = Number { integer: None, single: 0.25f32.to_bits(), double: 0.25f64.to_bits() };
    let doc = vec![
        entry("timestamp", Value::Instant(T)),
        entry("device_id", text("d")),
        entry("x", Value::Num(x)),
        entry("y", Value::Num(x)),
        entry("z", Value::Num(x)),
    ];
    let a = AccelerometerData::from_json(&doc).unwrap();
    assert_eq!(f32::from_bits(a.x), 0.25);
}

#[test]
fn enum_wire_names() {
    assert_eq!(DeviceType::Smartphone.to_string(), "SMARTPHONE");
    assert_eq!(DeviceType::from_wire("DISPLAY"), Some(DeviceType::Display));
    assert_eq!(DeviceType::from_wire("display"), None);
    assert_eq!(ConnectionType::Disconnected.as_wire(), "NONE");
    assert_eq!(ConnectionType::from_wire("CELLULAR2G"), Some(ConnectionType::Cellular2g));
    assert_eq!(CompressionAlgorithm::from_wire("LZ4"), Some(CompressionAlgorithm::Lz4));
    assert_eq!(SyncPriority::Background.as_wire(), "BACKGROUND");
}

#[test]
fn connection_type_display_name() {
    assert_eq!(ConnectionType::Wifi.to_string(), "Wifi");
    assert_eq!(ConnectionType::Disconnected.to_string(), "None");
    assert_eq!(ConnectionType::Cellular4g.to_string(), "Cellular4g");
}
