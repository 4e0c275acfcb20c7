use loom::config::RetentionConfig;
use loom::db::Database;
use loom::device::{Device, DeviceCapabilities, ScreenDetails};
use loom::record::Fields;
use loom::schema::SchemaErrorKind;
use loom::sensor::{AccelerometerData, GpsData};
use loom::table::StoreError;
use loom::time::Timestamp;
use loom::types::{CompressionAlgorithm, DeviceType};
use loom::user::User;
use loom::value::Value;

const T: i64 = 1_700_000_000_000_000;
const SECOND: i64 = 1_000_000;

fn at(micros: i64) -> Timestamp {
    Timestamp { micros }
}

fn accel(device: &str, micros: i64) -> AccelerometerData {
    AccelerometerData {
        timestamp: at(micros),
        device_id: device.to_string(),
        x: 0.5f32.to_bits(),
        y: (-0.3f32).to_bits(),
        z: 9.8f32.to_bits(),
        accuracy: Some(0.01f32.to_bits()),
        metadata: None,
    }
}

fn retention(table: &str, days: i32) -> RetentionConfig {
    RetentionConfig {
        table_name: table.to_string(),
        compression_enabled: true,
        compression_algorithm: CompressionAlgorithm::Zstd,
        retention_days: Some(days),
        downsample_after_days: None,
        downsample_ratio: None,
        convert_to_text: false,
        min_required_space_mb: None,
        created_at: at(T),
        updated_at: at(T),
        metadata: None,
    }
}

#[test]
fn accelerometer_scenario_returns_exactly_the_input() {
    let mut db = Database::new();
    let r = accel("d1", T);
    db.insert_accelerometer_data(&r).unwrap();
    let got = db.get_accelerometer_data("d1", at(T - SECOND), at(T + SECOND));
    assert_eq!(got.len(), 1);
    assert_eq!(got[0], r);
    assert_eq!(f32::from_bits(got[0].x), 0.5);
    assert_eq!(f32::from_bits(got[0].y), -0.3);
    assert_eq!(f32::from_bits(got[0].z), 9.8);
}

#[test]
fn gps_altitude_stays_absent() {
    let mut db = Database::new();
    let r = GpsData {
        timestamp: at(T),
        device_id: "d1".to_string(),
        latitude: 37.7749f64.to_bits(),
        longitude: (-122.4194f64).to_bits(),
        altitude: None,
        accuracy: None,
        speed: None,
        bearing: None,
        satellites: None,
        provider: None,
        metadata: None,
    };
    db.insert_gps_data(&r).unwrap();
    let got = db.get_gps_data("d1", at(T), at(T));
    assert_eq!(got.len(), 1);
    assert_eq!(got[0].altitude, None);
    let back = GpsData::from_json(&r.to_json()).unwrap();
    assert_eq!(back.altitude, None);
    assert_eq!(back, r);
}

#[test]
fn query_includes_both_ends_of_the_range() {
    let mut db = Database::new();
    db.insert_accelerometer_data(&accel("d1", T)).unwrap();
    db.insert_accelerometer_data(&accel("d1", T + 10 * SECOND)).unwrap();
    let got = db.get_accelerometer_data("d1", at(T), at(T + 10 * SECOND));
    assert_eq!(got.len(), 2);
    assert_eq!(got[0].timestamp, at(T));
    assert_eq!(got[1].timestamp, at(T + 10 * SECOND));
}

#[test]
fn query_excludes_other_devices_and_times() {
    let mut db = Database::new();
    db.insert_accelerometer_data(&accel("d1", T)).unwrap();
    db.insert_accelerometer_data(&accel("d2", T)).unwrap();
    db.insert_accelerometer_data(&accel("d1", T - 1)).unwrap();
    db.insert_accelerometer_data(&accel("d1", T + 2 * SECOND)).unwrap();
    let got = db.get_accelerometer_data("d1", at(T), at(T + SECOND));
    assert_eq!(got.len(), 1);
    assert_eq!(got[0], accel("d1", T));
}

#[test]
fn wildcard_device_matches_every_device() {
    let mut db = Database::new();
    db.insert_accelerometer_data(&accel("d1", T)).unwrap();
    db.insert_accelerometer_data(&accel("d2", T)).unwrap();
    let got = db.get_accelerometer_data("*", at(T), at(T));
    assert_eq!(got.len(), 2);
}

#[test]
fn dropped_transaction_leaves_no_rows() {
    let mut db = Database::new();
    {
        let mut tx = db.begin();
        for i in 0..5 {
            tx.insert_accelerometer_data(&accel("d1", T + i)).unwrap();
        }
    }
    let got = db.get_accelerometer_data("d1", at(T), at(T + 10));
    assert_eq!(got.len(), 0);
    let mut tx = db.begin();
    tx.insert_accelerometer_data(&accel("d1", T)).unwrap();
    tx.rollback();
    assert_eq!(db.get_accelerometer_data("d1", at(T), at(T + 10)).len(), 0);
}

#[test]
fn committed_transaction_shows_every_row() {
    let mut db = Database::new();
    let mut tx = db.begin();
    for i in 0..4 {
        tx.insert_accelerometer_data(&accel("d1", T + i)).unwrap();
    }
    assert_eq!(db.get_accelerometer_data("d1", at(T), at(T + 10)).len(), 0);
    tx.commit(&mut db);
    let got = db.get_accelerometer_data("d1", at(T), at(T + 10));
    assert_eq!(got.len(), 4);
    assert_eq!(got[3], accel("d1", T + 3));
}

#[test]
fn retention_config_with_same_table_is_replaced() {
    let mut db = Database::new();
    db.insert_retention_config(&retention("gps_data", 30)).unwrap();
    db.insert_retention_config(&retention("gps_data", 7)).unwrap();
    db.insert_retention_config(&retention("light_data", 1)).unwrap();
    assert_eq!(db.retention_config.len(), 2);
    let got = db.get_retention_config("gps_data").unwrap();
    assert_eq!(got.retention_days, Some(7));
    assert!(db.get_retention_config("wifi_data").is_none());
}

#[test]
fn user_ids_are_unique() {
    let mut db = Database::new();
    let u = User {
        id: "u1".to_string(),
        email: "a@example.com".to_string(),
        name: None,
        encrypted_password: "x".to_string(),
        created_at: at(T),
        updated_at: at(T),
    };
    db.insert_user(&u).unwrap();
    assert!(matches!(db.insert_user(&u), Err(StoreError::DuplicateKey)));
    assert_eq!(db.get_user("u1").unwrap(), u);
    assert!(matches!(db.get_user("u2"), Err(StoreError::NotFound)));
}

#[test]
fn out_of_range_timestamp_is_refused() {
    let mut db = Database::new();
    let r = accel("d1", i64::MAX);
    assert!(matches!(db.insert_accelerometer_data(&r), Err(StoreError::InvalidRecord)));
    assert_eq!(db.accelerometer_data.len(), 0);
    assert!(Timestamp::from_micros(i64::MAX).is_none());
    assert_eq!(Timestamp::from_micros(5), Some(at(5)));
}

#[test]
fn bulk_ingest_is_all_or_nothing() {
    let mut db = Database::new();
    let good = accel("d1", T).to_json();
    let mut bad = accel("d1", T).to_json();
    bad.retain(|(k, _)| k != "x");
    assert!(matches!(db.ingest_json("accelerometer_data", &vec![good.clone(), bad]),
        Err(StoreError::Schema(e)) if e.kind == SchemaErrorKind::Missing && e.field == "x"));
    assert_eq!(db.accelerometer_data.len(), 0);
    assert_eq!(db.ingest_json("accelerometer_data", &vec![good.clone(), good.clone()]).unwrap(), 2);
    assert_eq!(db.get_accelerometer_data("d1", at(T), at(T)).len(), 2);
    assert!(matches!(db.ingest_json("no_such_table", &vec![good]), Err(StoreError::UnknownTable)));
    let mut text_time = accel("d2", T).to_json();
    text_time[0].1 = Value::Text("2024-01-01T00:00:00Z".to_string());
    assert_eq!(db.ingest_json("accelerometer_data", &vec![text_time]).unwrap(), 1);
    let got = db.get_accelerometer_data("d2", at(1_704_067_200_000_000), at(1_704_067_200_000_000));
    assert_eq!(got.len(), 1);
}

#[test]
fn device_heartbeat_never_moves_back() {
    let caps = DeviceCapabilities {
        has_camera: false,
        has_microphone: false,
        has_gps: false,
        has_accelerometer: true,
        has_gyroscope: false,
        has_magnetometer: false,
        has_proximity: false,
        has_light: false,
        has_pressure: false,
        has_temperature: false,
        has_humidity: false,
        has_step_counter: false,
        has_heart_rate: false,
        has_ecg: false,
        has_blood_oxygen: false,
        has_stress: false,
        has_compass: false,
        screen_details: ScreenDetails { width: 1, height: 1, density: 1.0f32.to_bits(), refresh_rate: 60 },
    };
    let mut d = Device::new(
        "dev".to_string(),
        "u".to_string(),
        DeviceType::Watch,
        "os".to_string(),
        "1".to_string(),
        "1".to_string(),
        vec![],
        caps,
        at(T),
    );
    assert_eq!(d.last_seen, at(T));
    d.heartbeat(at(T + 5));
    assert_eq!(d.last_seen, at(T + 5));
    d.heartbeat(at(T + 1));
    assert_eq!(d.last_seen, at(T + 5));
    let mut caps2 = caps;
    caps2.has_gps = true;
    d.refresh_capabilities(caps2, at(T + 9));
    assert!(d.capabilities.has_gps);
    assert_eq!(d.last_seen, at(T + 9));
    let mut db = Database::new();
    db.insert_device(&d).unwrap();
    assert!(matches!(db.insert_device(&d), Err(StoreError::DuplicateKey)));
    assert!(matches!(db.get_device("nope"), Err(StoreError::NotFound)));
    assert_eq!(db.get_device("dev").unwrap(), d);
}
