use loom::db::Database;
use loom::device::{Device, DeviceCapabilities, ScreenDetails};
use loom::sensor::{AccelerometerData, AppUsageData};
use loom::time::Timestamp;
use loom::types::DeviceType;

fn now() -> Timestamp {
    Timestamp { micros: chrono::Utc::now().timestamp_micros() }
}

fn hours(t: Timestamp, h: i64) -> Timestamp {
    Timestamp { micros: t.micros + h * 3_600_000_000 }
}

#[test]
fn test_device_crud() {
    let mut db = Database::new();
    let device = Device {
        device_id: "test_device".to_string(),
        user_id: "test_user".to_string(),
        device_type: DeviceType::Smartphone,
        os_type: "Android".to_string(),
        os_version: "11".to_string(),
        app_version: "1.0".to_string(),
        available_sensors: vec!["accelerometer".to_string()],
        capabilities: DeviceCapabilities {
            has_camera: true,
            has_microphone: true,
            has_gps: true,
            has_accelerometer: true,
            has_gyroscope: false,
            has_magnetometer: false,
            has_proximity: true,
            has_light: true,
            has_pressure: false,
            has_temperature: false,
            has_humidity: false,
            has_step_counter: true,
            has_heart_rate: false,
            has_ecg: false,
            has_blood_oxygen: false,
            has_stress: false,
            has_compass: false,
            screen_details: ScreenDetails {
                width: 1080,
                height: 2400,
                density: 2.75f32.to_bits(),
                refresh_rate: 60,
            },
        },
        created_at: now(),
        last_seen: now(),
        updated_at: now(),
    };
    db.insert_device(&device).unwrap();
    let retrieved = db.get_device("test_device").unwrap();
    assert_eq!(device.device_id, retrieved.device_id);
}

#[test]
fn test_sensor_data() {
    let mut db = Database::new();
    let data = AccelerometerData {
        timestamp: now(),
        device_id: "test_device".to_string(),
        x: 1.0f32.to_bits(),
        y: 2.0f32.to_bits(),
        z: 3.0f32.to_bits(),
        accuracy: Some(0.1f32.to_bits()),
        metadata: None,
    };
    db.insert_accelerometer_data(&data).unwrap();
    let start = hours(now(), -1);
    let end = hours(now(), 1);
    let retrieved = db.get_accelerometer_data("test_device", start, end);
    assert_eq!(retrieved.len(), 1);
    assert_eq!(retrieved[0].x, data.x);
    assert_eq!(retrieved[0].y, data.y);
    assert_eq!(retrieved[0].z, data.z);
}

#[test]
fn test_get_app_usage_data() {
    let mut db = Database::new();
    let data = AppUsageData {
        timestamp: now(),
        device_id: "test_device".to_string(),
        package_name: "com.example.app".to_string(),
        start_time: Timestamp { micros: now().micros - 30 * 60_000_000 },
        end_time: now(),
        activity_type: "foreground".to_string(),
        metadata: None,
    };
    db.insert_app_usage_data(&data).unwrap();
    let start = hours(now(), -1);
    let end = hours(now(), 1);
    let retrieved = db.get_app_usage_data("test_device", start, end);
    assert_eq!(retrieved.len(), 1);
    assert_eq!(retrieved[0].package_name, data.package_name);
    assert_eq!(retrieved[0].activity_type, data.activity_type);
}

#[test]
fn it_works() {
    let result = 2 + 2;
    assert_eq!(result, 4);
}
