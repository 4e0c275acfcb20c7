//! The storage engine: one table per record kind, device registry, scoped transactions.
use vstd::prelude::*;
use crate::config::{RetentionConfig, SyncPriorityConfig};
use crate::device::Device;
use crate::note::{KnownEntity, Note, NoteReference};
use crate::record::{Fields, Layout, Record};
use crate::schema::all_fit;
use crate::sensor::{AccelerometerData, AppUsageData, AudioLevelData, BatteryData, BloodOxygenData, CallLogData, CameraData, ECGData, GpsData, GyroscopeData, HeartRateData, HumidityData, LightData, MagnetometerData, NetworkData, NotificationData, PressureData, ProximityData, ScreenStateData, StepCountData, StressData, TemperatureData, TodosData, WifiData};
use crate::table::{decode_all, docs_view, inserted, key_pos, select, StoreError, Table};
use crate::text::text_eq;
use crate::time::Timestamp;
use crate::user::{OAuthAccount, Session, User};
use crate::value::{Document, ValueView};

verus! {

/// All tables of one store. Each holds the rows of one record kind; writes outside a
/// transaction take effect at once.
pub struct Database {
    pub accelerometer_data: Table<AccelerometerData>,
    pub gyroscope_data: Table<GyroscopeData>,
    pub magnetometer_data: Table<MagnetometerData>,
    pub gps_data: Table<GpsData>,
    pub heart_rate_data: Table<HeartRateData>,
    pub ecg_data: Table<ECGData>,
    pub blood_oxygen_data: Table<BloodOxygenData>,
    pub stress_data: Table<StressData>,
    pub proximity_data: Table<ProximityData>,
    pub light_data: Table<LightData>,
    pub pressure_data: Table<PressureData>,
    pub temperature_data: Table<TemperatureData>,
    pub humidity_data: Table<HumidityData>,
    pub step_count_data: Table<StepCountData>,
    pub audio_level_data: Table<AudioLevelData>,
    pub battery_data: Table<BatteryData>,
    pub network_data: Table<NetworkData>,
    pub screen_state_data: Table<ScreenStateData>,
    pub todos_data: Table<TodosData>,
    pub camera_data: Table<CameraData>,
    pub app_usage_data: Table<AppUsageData>,
    pub wifi_data: Table<WifiData>,
    pub call_log_data: Table<CallLogData>,
    pub notification_data: Table<NotificationData>,
    pub users: Table<User>,
    pub oauth_accounts: Table<OAuthAccount>,
    pub sessions: Table<Session>,
    pub notes: Table<Note>,
    pub known_entities: Table<KnownEntity>,
    pub retention_config: Table<RetentionConfig>,
    pub sync_priority_config: Table<SyncPriorityConfig>,
    pub note_references: Table<NoteReference>,
    pub devices: Vec<Device>,
}

/// The tables of a store, and its device registry.
#[derive(Debug, Clone, Copy, PartialEq, Eq, Structural)]
pub enum TableId {
    AccelerometerData,
    GyroscopeData,
    MagnetometerData,
    GpsData,
    HeartRateData,
    EcgData,
    BloodOxygenData,
    StressData,
    ProximityData,
    LightData,
    PressureData,
    TemperatureData,
    HumidityData,
    StepCountData,
    AudioLevelData,
    BatteryData,
    NetworkData,
    ScreenStateData,
    TodosData,
    CameraData,
    AppUsageData,
    WifiData,
    CallLogData,
    NotificationData,
    Users,
    OauthAccounts,
    Sessions,
    Notes,
    KnownEntities,
    RetentionConfig,
    SyncPriorityConfig,
    NoteReferences,
    Devices,
}

/// Every table but `t` is the same in `a` and `b`.
pub open spec fn unchanged_except(a: Database, b: Database, t: TableId) -> bool {
    &&& (t != TableId::Devices ==> a.devices_view() == b.devices_view())
    &&& (t != TableId::AccelerometerData ==> a.accelerometer_data == b.accelerometer_data)
    &&& (t != TableId::GyroscopeData ==> a.gyroscope_data == b.gyroscope_data)
    &&& (t != TableId::MagnetometerData ==> a.magnetometer_data == b.magnetometer_data)
    &&& (t != TableId::GpsData ==> a.gps_data == b.gps_data)
    &&& (t != TableId::HeartRateData ==> a.heart_rate_data == b.heart_rate_data)
    &&& (t != TableId::EcgData ==> a.ecg_data == b.ecg_data)
    &&& (t != TableId::BloodOxygenData ==> a.blood_oxygen_data == b.blood_oxygen_data)
    &&& (t != TableId::StressData ==> a.stress_data == b.stress_data)
    &&& (t != TableId::ProximityData ==> a.proximity_data == b.proximity_data)
    &&& (t != TableId::LightData ==> a.light_data == b.light_data)
    &&& (t != TableId::PressureData ==> a.pressure_data == b.pressure_data)
    &&& (t != TableId::TemperatureData ==> a.temperature_data == b.temperature_data)
    &&& (t != TableId::HumidityData ==> a.humidity_data == b.humidity_data)
    &&& (t != TableId::StepCountData ==> a.step_count_data == b.step_count_data)
    &&& (t != TableId::AudioLevelData ==> a.audio_level_data == b.audio_level_data)
    &&& (t != TableId::BatteryData ==> a.battery_data == b.battery_data)
    &&& (t != TableId::NetworkData ==> a.network_data == b.network_data)
    &&& (t != TableId::ScreenStateData ==> a.screen_state_data == b.screen_state_data)
    &&& (t != TableId::TodosData ==> a.todos_data == b.todos_data)
    &&& (t != TableId::CameraData ==> a.camera_data == b.camera_data)
    &&& (t != TableId::AppUsageData ==> a.app_usage_data == b.app_usage_data)
    &&& (t != TableId::WifiData ==> a.wifi_data == b.wifi_data)
    &&& (t != TableId::CallLogData ==> a.call_log_data == b.call_log_data)
    &&& (t != TableId::NotificationData ==> a.notification_data == b.notification_data)
    &&& (t != TableId::Users ==> a.users == b.users)
    &&& (t != TableId::OauthAccounts ==> a.oauth_accounts == b.oauth_accounts)
    &&& (t != TableId::Sessions ==> a.sessions == b.sessions)
    &&& (t != TableId::Notes ==> a.notes == b.notes)
    &&& (t != TableId::KnownEntities ==> a.known_entities == b.known_entities)
    &&& (t != TableId::RetentionConfig ==> a.retention_config == b.retention_config)
    &&& (t != TableId::SyncPriorityConfig ==> a.sync_priority_config == b.sync_priority_config)
    &&& (t != TableId::NoteReferences ==> a.note_references == b.note_references)
}

/// The readings staged by a transaction; nothing else is written.
pub open spec fn only_readings(db: Database) -> bool {
    &&& db.users.rows().len() == 0
    &&& db.oauth_accounts.rows().len() == 0
    &&& db.sessions.rows().len() == 0
    &&& db.notes.rows().len() == 0
    &&& db.known_entities.rows().len() == 0
    &&& db.retention_config.rows().len() == 0
    &&& db.sync_priority_config.rows().len() == 0
    &&& db.note_references.rows().len() == 0
    &&& db.devices_view().len() == 0
}

impl Database {
    pub open spec fn devices_view(&self) -> Seq<Device> {
        self.devices@
    }

    /// A store whose tables are all empty.
    pub fn new() -> (r: Database)
        ensures
            r.accelerometer_data.rows().len() == 0,
            r.gyroscope_data.rows().len() == 0,
            r.magnetometer_data.rows().len() == 0,
            r.gps_data.rows().len() == 0,
            r.heart_rate_data.rows().len() == 0,
            r.ecg_data.rows().len() == 0,
            r.blood_oxygen_data.rows().len() == 0,
            r.stress_data.rows().len() == 0,
            r.proximity_data.rows().len() == 0,
            r.light_data.rows().len() == 0,
            r.pressure_data.rows().len() == 0,
            r.temperature_data.rows().len() == 0,
            r.humidity_data.rows().len() == 0,
            r.step_count_data.rows().len() == 0,
            r.audio_level_data.rows().len() == 0,
            r.battery_data.rows().len() == 0,
            r.network_data.rows().len() == 0,
            r.screen_state_data.rows().len() == 0,
            r.todos_data.rows().len() == 0,
            r.camera_data.rows().len() == 0,
            r.app_usage_data.rows().len() == 0,
            r.wifi_data.rows().len() == 0,
            r.call_log_data.rows().len() == 0,
            r.notification_data.rows().len() == 0,
            r.users.rows().len() == 0,
            r.oauth_accounts.rows().len() == 0,
            r.sessions.rows().len() == 0,
            r.notes.rows().len() == 0,
            r.known_entities.rows().len() == 0,
            r.retention_config.rows().len() == 0,
            r.sync_priority_config.rows().len() == 0,
            r.note_references.rows().len() == 0,
            r.devices_view().len() == 0,
    {
        Database {
            accelerometer_data: Table::new(),
            gyroscope_data: Table::new(),
            magnetometer_data: Table::new(),
            gps_data: Table::new(),
            heart_rate_data: Table::new(),
            ecg_data: Table::new(),
            blood_oxygen_data: Table::new(),
            stress_data: Table::new(),
            proximity_data: Table::new(),
            light_data: Table::new(),
            pressure_data: Table::new(),
            temperature_data: Table::new(),
            humidity_data: Table::new(),
            step_count_data: Table::new(),
            audio_level_data: Table::new(),
            battery_data: Table::new(),
            network_data: Table::new(),
            screen_state_data: Table::new(),
            todos_data: Table::new(),
            camera_data: Table::new(),
            app_usage_data: Table::new(),
            wifi_data: Table::new(),
            call_log_data: Table::new(),
            notification_data: Table::new(),
            users: Table::new(),
            oauth_accounts: Table::new(),
            sessions: Table::new(),
            notes: Table::new(),
            known_entities: Table::new(),
            retention_config: Table::new(),
            sync_priority_config: Table::new(),
            note_references: Table::new(),
            devices: Vec::new(),
        }
    }

    /// Stores a reading in `accelerometer_data`.
    pub fn insert_accelerometer_data(&mut self, data: &AccelerometerData) -> (r: Result<(), StoreError>)
        ensures
            match r {
                Ok(()) => {
                    &&& all_fit(AccelerometerData::schema_spec(), data.values())
                    &&& !(AccelerometerData::layout_spec() is Unique && key_pos(old(self).accelerometer_data.rows(), data.values()[0]->Text_0) is Some)
                    &&& final(self).accelerometer_data.rows() == inserted(AccelerometerData::layout_spec(), old(self).accelerometer_data.rows(), data.values())
                },
                Err(e) => {
                    &&& final(self).accelerometer_data.rows() == old(self).accelerometer_data.rows()
                    &&& e == StoreError::InvalidRecord <==> !all_fit(AccelerometerData::schema_spec(), data.values())
                    &&& e == StoreError::InvalidRecord || e == StoreError::DuplicateKey
                    &&& e == StoreError::DuplicateKey ==> AccelerometerData::layout_spec() is Unique && key_pos(old(self).accelerometer_data.rows(), data.values()[0]->Text_0) is Some
                },
            },
            unchanged_except(*old(self), *final(self), TableId::AccelerometerData),
    {
        self.accelerometer_data.insert(data)
    }

    /// The readings of `device_id` (of every device for `*`) in `accelerometer_data` whose timestamp
    /// lies in `[start, end]`, both ends included.
    pub fn get_accelerometer_data(&self, device_id: &str, start: Timestamp, end: Timestamp) -> (r: Vec<AccelerometerData>)
        ensures
            r@.map_values(|x: AccelerometerData| x.values()) == select(self.accelerometer_data.rows(), device_id@, start.micros as int, end.micros as int),
    {
        self.accelerometer_data.query(device_id, start, end)
    }

    /// Stores a reading in `gyroscope_data`.
    pub fn insert_gyroscope_data(&mut self, data: &GyroscopeData) -> (r: Result<(), StoreError>)
        ensures
            match r {
                Ok(()) => {
                    &&& all_fit(GyroscopeData::schema_spec(), data.values())
                    &&& !(GyroscopeData::layout_spec() is Unique && key_pos(old(self).gyroscope_data.rows(), data.values()[0]->Text_0) is Some)
                    &&& final(self).gyroscope_data.rows() == inserted(GyroscopeData::layout_spec(), old(self).gyroscope_data.rows(), data.values())
                },
                Err(e) => {
                    &&& final(self).gyroscope_data.rows() == old(self).gyroscope_data.rows()
                    &&& e == StoreError::InvalidRecord <==> !all_fit(GyroscopeData::schema_spec(), data.values())
                    &&& e == StoreError::InvalidRecord || e == StoreError::DuplicateKey
                    &&& e == StoreError::DuplicateKey ==> GyroscopeData::layout_spec() is Unique && key_pos(old(self).gyroscope_data.rows(), data.values()[0]->Text_0) is Some
                },
            },
            unchanged_except(*old(self), *final(self), TableId::GyroscopeData),
    {
        self.gyroscope_data.insert(data)
    }

    /// The readings of `device_id` (of every device for `*`) in `gyroscope_data` whose timestamp
    /// lies in `[start, end]`, both ends included.
    pub fn get_gyroscope_data(&self, device_id: &str, start: Timestamp, end: Timestamp) -> (r: Vec<GyroscopeData>)
        ensures
            r@.map_values(|x: GyroscopeData| x.values()) == select(self.gyroscope_data.rows(), device_id@, start.micros as int, end.micros as int),
    {
        self.gyroscope_data.query(device_id, start, end)
    }

    /// Stores a reading in `magnetometer_data`.
    pub fn insert_magnetometer_data(&mut self, data: &MagnetometerData) -> (r: Result<(), StoreError>)
        ensures
            match r {
                Ok(()) => {
                    &&& all_fit(MagnetometerData::schema_spec(), data.values())
                    &&& !(MagnetometerData::layout_spec() is Unique && key_pos(old(self).magnetometer_data.rows(), data.values()[0]->Text_0) is Some)
                    &&& final(self).magnetometer_data.rows() == inserted(MagnetometerData::layout_spec(), old(self).magnetometer_data.rows(), data.values())
                },
                Err(e) => {
                    &&& final(self).magnetometer_data.rows() == old(self).magnetometer_data.rows()
                    &&& e == StoreError::InvalidRecord <==> !all_fit(MagnetometerData::schema_spec(), data.values())
                    &&& e == StoreError::InvalidRecord || e == StoreError::DuplicateKey
                    &&& e == StoreError::DuplicateKey ==> MagnetometerData::layout_spec() is Unique && key_pos(old(self).magnetometer_data.rows(), data.values()[0]->Text_0) is Some
                },
            },
            unchanged_except(*old(self), *final(self), TableId::MagnetometerData),
    {
        self.magnetometer_data.insert(data)
    }

    /// The readings of `device_id` (of every device for `*`) in `magnetometer_data` whose timestamp
    /// lies in `[start, end]`, both ends included.
    pub fn get_magnetometer_data(&self, device_id: &str, start: Timestamp, end: Timestamp) -> (r: Vec<MagnetometerData>)
        ensures
            r@.map_values(|x: MagnetometerData| x.values()) == select(self.magnetometer_data.rows(), device_id@, start.micros as int, end.micros as int),
    {
        self.magnetometer_data.query(device_id, start, end)
    }

    /// Stores a reading in `gps_data`.
    pub fn insert_gps_data(&mut self, data: &GpsData) -> (r: Result<(), StoreError>)
        ensures
            match r {
                Ok(()) => {
                    &&& all_fit(GpsData::schema_spec(), data.values())
                    &&& !(GpsData::layout_spec() is Unique && key_pos(old(self).gps_data.rows(), data.values()[0]->Text_0) is Some)
                    &&& final(self).gps_data.rows() == inserted(GpsData::layout_spec(), old(self).gps_data.rows(), data.values())
                },
                Err(e) => {
                    &&& final(self).gps_data.rows() == old(self).gps_data.rows()
                    &&& e == StoreError::InvalidRecord <==> !all_fit(GpsData::schema_spec(), data.values())
                    &&& e == StoreError::InvalidRecord || e == StoreError::DuplicateKey
                    &&& e == StoreError::DuplicateKey ==> GpsData::layout_spec() is Unique && key_pos(old(self).gps_data.rows(), data.values()[0]->Text_0) is Some
                },
            },
            unchanged_except(*old(self), *final(self), TableId::GpsData),
    {
        self.gps_data.insert(data)
    }

    /// The readings of `device_id` (of every device for `*`) in `gps_data` whose timestamp
    /// lies in `[start, end]`, both ends included.
    pub fn get_gps_data(&self, device_id: &str, start: Timestamp, end: Timestamp) -> (r: Vec<GpsData>)
        ensures
            r@.map_values(|x: GpsData| x.values()) == select(self.gps_data.rows(), device_id@, start.micros as int, end.micros as int),
    {
        self.gps_data.query(device_id, start, end)
    }

    /// Stores a reading in `heart_rate_data`.
    pub fn insert_heart_rate_data(&mut self, data: &HeartRateData) -> (r: Result<(), StoreError>)
        ensures
            match r {
                Ok(()) => {
                    &&& all_fit(HeartRateData::schema_spec(), data.values())
                    &&& !(HeartRateData::layout_spec() is Unique && key_pos(old(self).heart_rate_data.rows(), data.values()[0]->Text_0) is Some)
                    &&& final(self).heart_rate_data.rows() == inserted(HeartRateData::layout_spec(), old(self).heart_rate_data.rows(), data.values())
                },
                Err(e) => {
                    &&& final(self).heart_rate_data.rows() == old(self).heart_rate_data.rows()
                    &&& e == StoreError::InvalidRecord <==> !all_fit(HeartRateData::schema_spec(), data.values())
                    &&& e == StoreError::InvalidRecord || e == StoreError::DuplicateKey
                    &&& e == StoreError::DuplicateKey ==> HeartRateData::layout_spec() is Unique && key_pos(old(self).heart_rate_data.rows(), data.values()[0]->Text_0) is Some
                },
            },
            unchanged_except(*old(self), *final(self), TableId::HeartRateData),
    {
        self.heart_rate_data.insert(data)
    }

    /// The readings of `device_id` (of every device for `*`) in `heart_rate_data` whose timestamp
    /// lies in `[start, end]`, both ends included.
    pub fn get_heart_rate_data(&self, device_id: &str, start: Timestamp, end: Timestamp) -> (r: Vec<HeartRateData>)
        ensures
            r@.map_values(|x: HeartRateData| x.values()) == select(self.heart_rate_data.rows(), device_id@, start.micros as int, end.micros as int),
    {
        self.heart_rate_data.query(device_id, start, end)
    }

    /// Stores a reading in `ecg_data`.
    pub fn insert_ecg_data(&mut self, data: &ECGData) -> (r: Result<(), StoreError>)
        ensures
            match r {
                Ok(()) => {
                    &&& all_fit(ECGData::schema_spec(), data.values())
                    &&& !(ECGData::layout_spec() is Unique && key_pos(old(self).ecg_data.rows(), data.values()[0]->Text_0) is Some)
                    &&& final(self).ecg_data.rows() == inserted(ECGData::layout_spec(), old(self).ecg_data.rows(), data.values())
                },
                Err(e) => {
                    &&& final(self).ecg_data.rows() == old(self).ecg_data.rows()
                    &&& e == StoreError::InvalidRecord <==> !all_fit(ECGData::schema_spec(), data.values())
                    &&& e == StoreError::InvalidRecord || e == StoreError::DuplicateKey
                    &&& e == StoreError::DuplicateKey ==> ECGData::layout_spec() is Unique && key_pos(old(self).ecg_data.rows(), data.values()[0]->Text_0) is Some
                },
            },
            unchanged_except(*old(self), *final(self), TableId::EcgData),
    {
        self.ecg_data.insert(data)
    }

    /// The readings of `device_id` (of every device for `*`) in `ecg_data` whose timestamp
    /// lies in `[start, end]`, both ends included.
    pub fn get_ecg_data(&self, device_id: &str, start: Timestamp, end: Timestamp) -> (r: Vec<ECGData>)
        ensures
            r@.map_values(|x: ECGData| x.values()) == select(self.ecg_data.rows(), device_id@, start.micros as int, end.micros as int),
    {
        self.ecg_data.query(device_id, start, end)
    }

    /// Stores a reading in `blood_oxygen_data`.
    pub fn insert_blood_oxygen_data(&mut self, data: &BloodOxygenData) -> (r: Result<(), StoreError>)
        ensures
            match r {
                Ok(()) => {
                    &&& all_fit(BloodOxygenData::schema_spec(), data.values())
                    &&& !(BloodOxygenData::layout_spec() is Unique && key_pos(old(self).blood_oxygen_data.rows(), data.values()[0]->Text_0) is Some)
                    &&& final(self).blood_oxygen_data.rows() == inserted(BloodOxygenData::layout_spec(), old(self).blood_oxygen_data.rows(), data.values())
                },
                Err(e) => {
                    &&& final(self).blood_oxygen_data.rows() == old(self).blood_oxygen_data.rows()
                    &&& e == StoreError::InvalidRecord <==> !all_fit(BloodOxygenData::schema_spec(), data.values())
                    &&& e == StoreError::InvalidRecord || e == StoreError::DuplicateKey
                    &&& e == StoreError::DuplicateKey ==> BloodOxygenData::layout_spec() is Unique && key_pos(old(self).blood_oxygen_data.rows(), data.values()[0]->Text_0) is Some
                },
            },
            unchanged_except(*old(self), *final(self), TableId::BloodOxygenData),
    {
        self.blood_oxygen_data.insert(data)
    }

    /// The readings of `device_id` (of every device for `*`) in `blood_oxygen_data` whose timestamp
    /// lies in `[start, end]`, both ends included.
    pub fn get_blood_oxygen_data(&self, device_id: &str, start: Timestamp, end: Timestamp) -> (r: Vec<BloodOxygenData>)
        ensures
            r@.map_values(|x: BloodOxygenData| x.values()) == select(self.blood_oxygen_data.rows(), device_id@, start.micros as int, end.micros as int),
    {
        self.blood_oxygen_data.query(device_id, start, end)
    }

    /// Stores a reading in `stress_data`.
    pub fn insert_stress_data(&mut self, data: &StressData) -> (r: Result<(), StoreError>)
        ensures
            match r {
                Ok(()) => {
                    &&& all_fit(StressData::schema_spec(), data.values())
                    &&& !(StressData::layout_spec() is Unique && key_pos(old(self).stress_data.rows(), data.values()[0]->Text_0) is Some)
                    &&& final(self).stress_data.rows() == inserted(StressData::layout_spec(), old(self).stress_data.rows(), data.values())
                },
                Err(e) => {
                    &&& final(self).stress_data.rows() == old(self).stress_data.rows()
                    &&& e == StoreError::InvalidRecord <==> !all_fit(StressData::schema_spec(), data.values())
                    &&& e == StoreError::InvalidRecord || e == StoreError::DuplicateKey
                    &&& e == StoreError::DuplicateKey ==> StressData::layout_spec() is Unique && key_pos(old(self).stress_data.rows(), data.values()[0]->Text_0) is Some
                },
            },
            unchanged_except(*old(self), *final(self), TableId::StressData),
    {
        self.stress_data.insert(data)
    }

    /// The readings of `device_id` (of every device for `*`) in `stress_data` whose timestamp
    /// lies in `[start, end]`, both ends included.
    pub fn get_stress_data(&self, device_id: &str, start: Timestamp, end: Timestamp) -> (r: Vec<StressData>)
        ensures
            r@.map_values(|x: StressData| x.values()) == select(self.stress_data.rows(), device_id@, start.micros as int, end.micros as int),
    {
        self.stress_data.query(device_id, start, end)
    }

    /// Stores a reading in `proximity_data`.
    pub fn insert_proximity_data(&mut self, data: &ProximityData) -> (r: Result<(), StoreError>)
        ensures
            match r {
                Ok(()) => {
                    &&& all_fit(ProximityData::schema_spec(), data.values())
                    &&& !(ProximityData::layout_spec() is Unique && key_pos(old(self).proximity_data.rows(), data.values()[0]->Text_0) is Some)
                    &&& final(self).proximity_data.rows() == inserted(ProximityData::layout_spec(), old(self).proximity_data.rows(), data.values())
                },
                Err(e) => {
                    &&& final(self).proximity_data.rows() == old(self).proximity_data.rows()
                    &&& e == StoreError::InvalidRecord <==> !all_fit(ProximityData::schema_spec(), data.values())
                    &&& e == StoreError::InvalidRecord || e == StoreError::DuplicateKey
                    &&& e == StoreError::DuplicateKey ==> ProximityData::layout_spec() is Unique && key_pos(old(self).proximity_data.rows(), data.values()[0]->Text_0) is Some
                },
            },
            unchanged_except(*old(self), *final(self), TableId::ProximityData),
    {
        self.proximity_data.insert(data)
    }

    /// The readings of `device_id` (of every device for `*`) in `proximity_data` whose timestamp
    /// lies in `[start, end]`, both ends included.
    pub fn get_proximity_data(&self, device_id: &str, start: Timestamp, end: Timestamp) -> (r: Vec<ProximityData>)
        ensures
            r@.map_values(|x: ProximityData| x.values()) == select(self.proximity_data.rows(), device_id@, start.micros as int, end.micros as int),
    {
        self.proximity_data.query(device_id, start, end)
    }

    /// Stores a reading in `light_data`.
    pub fn insert_light_data(&mut self, data: &LightData) -> (r: Result<(), StoreError>)
        ensures
            match r {
                Ok(()) => {
                    &&& all_fit(LightData::schema_spec(), data.values())
                    &&& !(LightData::layout_spec() is Unique && key_pos(old(self).light_data.rows(), data.values()[0]->Text_0) is Some)
                    &&& final(self).light_data.rows() == inserted(LightData::layout_spec(), old(self).light_data.rows(), data.values())
                },
                Err(e) => {
                    &&& final(self).light_data.rows() == old(self).light_data.rows()
                    &&& e == StoreError::InvalidRecord <==> !all_fit(LightData::schema_spec(), data.values())
                    &&& e == StoreError::InvalidRecord || e == StoreError::DuplicateKey
                    &&& e == StoreError::DuplicateKey ==> LightData::layout_spec() is Unique && key_pos(old(self).light_data.rows(), data.values()[0]->Text_0) is Some
                },
            },
            unchanged_except(*old(self), *final(self), TableId::LightData),
    {
        self.light_data.insert(data)
    }

    /// The readings of `device_id` (of every device for `*`) in `light_data` whose timestamp
    /// lies in `[start, end]`, both ends included.
    pub fn get_light_data(&self, device_id: &str, start: Timestamp, end: Timestamp) -> (r: Vec<LightData>)
        ensures
            r@.map_values(|x: LightData| x.values()) == select(self.light_data.rows(), device_id@, start.micros as int, end.micros as int),
    {
        self.light_data.query(device_id, start, end)
    }

    /// Stores a reading in `pressure_data`.
    pub fn insert_pressure_data(&mut self, data: &PressureData) -> (r: Result<(), StoreError>)
        ensures
            match r {
                Ok(()) => {
                    &&& all_fit(PressureData::schema_spec(), data.values())
                    &&& !(PressureData::layout_spec() is Unique && key_pos(old(self).pressure_data.rows(), data.values()[0]->Text_0) is Some)
                    &&& final(self).pressure_data.rows() == inserted(PressureData::layout_spec(), old(self).pressure_data.rows(), data.values())
                },
                Err(e) => {
                    &&& final(self).pressure_data.rows() == old(self).pressure_data.rows()
                    &&& e == StoreError::InvalidRecord <==> !all_fit(PressureData::schema_spec(), data.values())
                    &&& e == StoreError::InvalidRecord || e == StoreError::DuplicateKey
                    &&& e == StoreError::DuplicateKey ==> PressureData::layout_spec() is Unique && key_pos(old(self).pressure_data.rows(), data.values()[0]->Text_0) is Some
                },
            },
            unchanged_except(*old(self), *final(self), TableId::PressureData),
    {
        self.pressure_data.insert(data)
    }

    /// The readings of `device_id` (of every device for `*`) in `pressure_data` whose timestamp
    /// lies in `[start, end]`, both ends included.
    pub fn get_pressure_data(&self, device_id: &str, start: Timestamp, end: Timestamp) -> (r: Vec<PressureData>)
        ensures
            r@.map_values(|x: PressureData| x.values()) == select(self.pressure_data.rows(), device_id@, start.micros as int, end.micros as int),
    {
        self.pressure_data.query(device_id, start, end)
    }

    /// Stores a reading in `temperature_data`.
    pub fn insert_temperature_data(&mut self, data: &TemperatureData) -> (r: Result<(), StoreError>)
        ensures
            match r {
                Ok(()) => {
                    &&& all_fit(TemperatureData::schema_spec(), data.values())
                    &&& !(TemperatureData::layout_spec() is Unique && key_pos(old(self).temperature_data.rows(), data.values()[0]->Text_0) is Some)
                    &&& final(self).temperature_data.rows() == inserted(TemperatureData::layout_spec(), old(self).temperature_data.rows(), data.values())
                },
                Err(e) => {
                    &&& final(self).temperature_data.rows() == old(self).temperature_data.rows()
                    &&& e == StoreError::InvalidRecord <==> !all_fit(TemperatureData::schema_spec(), data.values())
                    &&& e == StoreError::InvalidRecord || e == StoreError::DuplicateKey
                    &&& e == StoreError::DuplicateKey ==> TemperatureData::layout_spec() is Unique && key_pos(old(self).temperature_data.rows(), data.values()[0]->Text_0) is Some
                },
            },
            unchanged_except(*old(self), *final(self), TableId::TemperatureData),
    {
        self.temperature_data.insert(data)
    }

    /// The readings of `device_id` (of every device for `*`) in `temperature_data` whose timestamp
    /// lies in `[start, end]`, both ends included.
    pub fn get_temperature_data(&self, device_id: &str, start: Timestamp, end: Timestamp) -> (r: Vec<TemperatureData>)
        ensures
            r@.map_values(|x: TemperatureData| x.values()) == select(self.temperature_data.rows(), device_id@, start.micros as int, end.micros as int),
    {
        self.temperature_data.query(device_id, start, end)
    }

    /// Stores a reading in `humidity_data`.
    pub fn insert_humidity_data(&mut self, data: &HumidityData) -> (r: Result<(), StoreError>)
        ensures
            match r {
                Ok(()) => {
                    &&& all_fit(HumidityData::schema_spec(), data.values())
                    &&& !(HumidityData::layout_spec() is Unique && key_pos(old(self).humidity_data.rows(), data.values()[0]->Text_0) is Some)
                    &&& final(self).humidity_data.rows() == inserted(HumidityData::layout_spec(), old(self).humidity_data.rows(), data.values())
                },
                Err(e) => {
                    &&& final(self).humidity_data.rows() == old(self).humidity_data.rows()
                    &&& e == StoreError::InvalidRecord <==> !all_fit(HumidityData::schema_spec(), data.values())
                    &&& e == StoreError::InvalidRecord || e == StoreError::DuplicateKey
                    &&& e == StoreError::DuplicateKey ==> HumidityData::layout_spec() is Unique && key_pos(old(self).humidity_data.rows(), data.values()[0]->Text_0) is Some
                },
            },
            unchanged_except(*old(self), *final(self), TableId::HumidityData),
    {
        self.humidity_data.insert(data)
    }

    /// The readings of `device_id` (of every device for `*`) in `humidity_data` whose timestamp
    /// lies in `[start, end]`, both ends included.
    pub fn get_humidity_data(&self, device_id: &str, start: Timestamp, end: Timestamp) -> (r: Vec<HumidityData>)
        ensures
            r@.map_values(|x: HumidityData| x.values()) == select(self.humidity_data.rows(), device_id@, start.micros as int, end.micros as int),
    {
        self.humidity_data.query(device_id, start, end)
    }

    /// Stores a reading in `step_count_data`.
    pub fn insert_step_count_data(&mut self, data: &StepCountData) -> (r: Result<(), StoreError>)
        ensures
            match r {
                Ok(()) => {
                    &&& all_fit(StepCountData::schema_spec(), data.values())
                    &&& !(StepCountData::layout_spec() is Unique && key_pos(old(self).step_count_data.rows(), data.values()[0]->Text_0) is Some)
                    &&& final(self).step_count_data.rows() == inserted(StepCountData::layout_spec(), old(self).step_count_data.rows(), data.values())
                },
                Err(e) => {
                    &&& final(self).step_count_data.rows() == old(self).step_count_data.rows()
                    &&& e == StoreError::InvalidRecord <==> !all_fit(StepCountData::schema_spec(), data.values())
                    &&& e == StoreError::InvalidRecord || e == StoreError::DuplicateKey
                    &&& e == StoreError::DuplicateKey ==> StepCountData::layout_spec() is Unique && key_pos(old(self).step_count_data.rows(), data.values()[0]->Text_0) is Some
                },
            },
            unchanged_except(*old(self), *final(self), TableId::StepCountData),
    {
        self.step_count_data.insert(data)
    }

    /// The readings of `device_id` (of every device for `*`) in `step_count_data` whose timestamp
    /// lies in `[start, end]`, both ends included.
    pub fn get_step_count_data(&self, device_id: &str, start: Timestamp, end: Timestamp) -> (r: Vec<StepCountData>)
        ensures
            r@.map_values(|x: StepCountData| x.values()) == select(self.step_count_data.rows(), device_id@, start.micros as int, end.micros as int),
    {
        self.step_count_data.query(device_id, start, end)
    }

    /// Stores a reading in `audio_level_data`.
    pub fn insert_audio_level_data(&mut self, data: &AudioLevelData) -> (r: Result<(), StoreError>)
        ensures
            match r {
                Ok(()) => {
                    &&& all_fit(AudioLevelData::schema_spec(), data.values())
                    &&& !(AudioLevelData::layout_spec() is Unique && key_pos(old(self).audio_level_data.rows(), data.values()[0]->Text_0) is Some)
                    &&& final(self).audio_level_data.rows() == inserted(AudioLevelData::layout_spec(), old(self).audio_level_data.rows(), data.values())
                },
                Err(e) => {
                    &&& final(self).audio_level_data.rows() == old(self).audio_level_data.rows()
                    &&& e == StoreError::InvalidRecord <==> !all_fit(AudioLevelData::schema_spec(), data.values())
                    &&& e == StoreError::InvalidRecord || e == StoreError::DuplicateKey
                    &&& e == StoreError::DuplicateKey ==> AudioLevelData::layout_spec() is Unique && key_pos(old(self).audio_level_data.rows(), data.values()[0]->Text_0) is Some
                },
            },
            unchanged_except(*old(self), *final(self), TableId::AudioLevelData),
    {
        self.audio_level_data.insert(data)
    }

    /// The readings of `device_id` (of every device for `*`) in `audio_level_data` whose timestamp
    /// lies in `[start, end]`, both ends included.
    pub fn get_audio_level_data(&self, device_id: &str, start: Timestamp, end: Timestamp) -> (r: Vec<AudioLevelData>)
        ensures
            r@.map_values(|x: AudioLevelData| x.values()) == select(self.audio_level_data.rows(), device_id@, start.micros as int, end.micros as int),
    {
        self.audio_level_data.query(device_id, start, end)
    }

    /// Stores a reading in `battery_data`.
    pub fn insert_battery_data(&mut self, data: &BatteryData) -> (r: Result<(), StoreError>)
        ensures
            match r {
                Ok(()) => {
                    &&& all_fit(BatteryData::schema_spec(), data.values())
                    &&& !(BatteryData::layout_spec() is Unique && key_pos(old(self).battery_data.rows(), data.values()[0]->Text_0) is Some)
                    &&& final(self).battery_data.rows() == inserted(BatteryData::layout_spec(), old(self).battery_data.rows(), data.values())
                },
                Err(e) => {
                    &&& final(self).battery_data.rows() == old(self).battery_data.rows()
                    &&& e == StoreError::InvalidRecord <==> !all_fit(BatteryData::schema_spec(), data.values())
                    &&& e == StoreError::InvalidRecord || e == StoreError::DuplicateKey
                    &&& e == StoreError::DuplicateKey ==> BatteryData::layout_spec() is Unique && key_pos(old(self).battery_data.rows(), data.values()[0]->Text_0) is Some
                },
            },
            unchanged_except(*old(self), *final(self), TableId::BatteryData),
    {
        self.battery_data.insert(data)
    }

    /// The readings of `device_id` (of every device for `*`) in `battery_data` whose timestamp
    /// lies in `[start, end]`, both ends included.
    pub fn get_battery_data(&self, device_id: &str, start: Timestamp, end: Timestamp) -> (r: Vec<BatteryData>)
        ensures
            r@.map_values(|x: BatteryData| x.values()) == select(self.battery_data.rows(), device_id@, start.micros as int, end.micros as int),
    {
        self.battery_data.query(device_id, start, end)
    }

    /// Stores a reading in `network_data`.
    pub fn insert_network_data(&mut self, data: &NetworkData) -> (r: Result<(), StoreError>)
        ensures
            match r {
                Ok(()) => {
                    &&& all_fit(NetworkData::schema_spec(), data.values())
                    &&& !(NetworkData::layout_spec() is Unique && key_pos(old(self).network_data.rows(), data.values()[0]->Text_0) is Some)
                    &&& final(self).network_data.rows() == inserted(NetworkData::layout_spec(), old(self).network_data.rows(), data.values())
                },
                Err(e) => {
                    &&& final(self).network_data.rows() == old(self).network_data.rows()
                    &&& e == StoreError::InvalidRecord <==> !all_fit(NetworkData::schema_spec(), data.values())
                    &&& e == StoreError::InvalidRecord || e == StoreError::DuplicateKey
                    &&& e == StoreError::DuplicateKey ==> NetworkData::layout_spec() is Unique && key_pos(old(self).network_data.rows(), data.values()[0]->Text_0) is Some
                },
            },
            unchanged_except(*old(self), *final(self), TableId::NetworkData),
    {
        self.network_data.insert(data)
    }

    /// The readings of `device_id` (of every device for `*`) in `network_data` whose timestamp
    /// lies in `[start, end]`, both ends included.
    pub fn get_network_data(&self, device_id: &str, start: Timestamp, end: Timestamp) -> (r: Vec<NetworkData>)
        ensures
            r@.map_values(|x: NetworkData| x.values()) == select(self.network_data.rows(), device_id@, start.micros as int, end.micros as int),
    {
        self.network_data.query(device_id, start, end)
    }

    /// Stores a reading in `screen_state_data`.
    pub fn insert_screen_state_data(&mut self, data: &ScreenStateData) -> (r: Result<(), StoreError>)
        ensures
            match r {
                Ok(()) => {
                    &&& all_fit(ScreenStateData::schema_spec(), data.values())
                    &&& !(ScreenStateData::layout_spec() is Unique && key_pos(old(self).screen_state_data.rows(), data.values()[0]->Text_0) is Some)
                    &&& final(self).screen_state_data.rows() == inserted(ScreenStateData::layout_spec(), old(self).screen_state_data.rows(), data.values())
                },
                Err(e) => {
                    &&& final(self).screen_state_data.rows() == old(self).screen_state_data.rows()
                    &&& e == StoreError::InvalidRecord <==> !all_fit(ScreenStateData::schema_spec(), data.values())
                    &&& e == StoreError::InvalidRecord || e == StoreError::DuplicateKey
                    &&& e == StoreError::DuplicateKey ==> ScreenStateData::layout_spec() is Unique && key_pos(old(self).screen_state_data.rows(), data.values()[0]->Text_0) is Some
                },
            },
            unchanged_except(*old(self), *final(self), TableId::ScreenStateData),
    {
        self.screen_state_data.insert(data)
    }

    /// The readings of `device_id` (of every device for `*`) in `screen_state_data` whose timestamp
    /// lies in `[start, end]`, both ends included.
    pub fn get_screen_state_data(&self, device_id: &str, start: Timestamp, end: Timestamp) -> (r: Vec<ScreenStateData>)
        ensures
            r@.map_values(|x: ScreenStateData| x.values()) == select(self.screen_state_data.rows(), device_id@, start.micros as int, end.micros as int),
    {
        self.screen_state_data.query(device_id, start, end)
    }

    /// Stores a reading in `todos_data`.
    pub fn insert_todos_data(&mut self, data: &TodosData) -> (r: Result<(), StoreError>)
        ensures
            match r {
                Ok(()) => {
                    &&& all_fit(TodosData::schema_spec(), data.values())
                    &&& !(TodosData::layout_spec() is Unique && key_pos(old(self).todos_data.rows(), data.values()[0]->Text_0) is Some)
                    &&& final(self).todos_data.rows() == inserted(TodosData::layout_spec(), old(self).todos_data.rows(), data.values())
                },
                Err(e) => {
                    &&& final(self).todos_data.rows() == old(self).todos_data.rows()
                    &&& e == StoreError::InvalidRecord <==> !all_fit(TodosData::schema_spec(), data.values())
                    &&& e == StoreError::InvalidRecord || e == StoreError::DuplicateKey
                    &&& e == StoreError::DuplicateKey ==> TodosData::layout_spec() is Unique && key_pos(old(self).todos_data.rows(), data.values()[0]->Text_0) is Some
                },
            },
            unchanged_except(*old(self), *final(self), TableId::TodosData),
    {
        self.todos_data.insert(data)
    }

    /// The readings of `device_id` (of every device for `*`) in `todos_data` whose timestamp
    /// lies in `[start, end]`, both ends included.
    pub fn get_todos_data(&self, device_id: &str, start: Timestamp, end: Timestamp) -> (r: Vec<TodosData>)
        ensures
            r@.map_values(|x: TodosData| x.values()) == select(self.todos_data.rows(), device_id@, start.micros as int, end.micros as int),
    {
        self.todos_data.query(device_id, start, end)
    }

    /// Stores a reading in `camera_data`.
    pub fn insert_camera_data(&mut self, data: &CameraData) -> (r: Result<(), StoreError>)
        ensures
            match r {
                Ok(()) => {
                    &&& all_fit(CameraData::schema_spec(), data.values())
                    &&& !(CameraData::layout_spec() is Unique && key_pos(old(self).camera_data.rows(), data.values()[0]->Text_0) is Some)
                    &&& final(self).camera_data.rows() == inserted(CameraData::layout_spec(), old(self).camera_data.rows(), data.values())
                },
                Err(e) => {
                    &&& final(self).camera_data.rows() == old(self).camera_data.rows()
                    &&& e == StoreError::InvalidRecord <==> !all_fit(CameraData::schema_spec(), data.values())
                    &&& e == StoreError::InvalidRecord || e == StoreError::DuplicateKey
                    &&& e == StoreError::DuplicateKey ==> CameraData::layout_spec() is Unique && key_pos(old(self).camera_data.rows(), data.values()[0]->Text_0) is Some
                },
            },
            unchanged_except(*old(self), *final(self), TableId::CameraData),
    {
        self.camera_data.insert(data)
    }

    /// The readings of `device_id` (of every device for `*`) in `camera_data` whose timestamp
    /// lies in `[start, end]`, both ends included.
    pub fn get_camera_data(&self, device_id: &str, start: Timestamp, end: Timestamp) -> (r: Vec<CameraData>)
        ensures
            r@.map_values(|x: CameraData| x.values()) == select(self.camera_data.rows(), device_id@, start.micros as int, end.micros as int),
    {
        self.camera_data.query(device_id, start, end)
    }

    /// Stores a reading in `app_usage_data`.
    pub fn insert_app_usage_data(&mut self, data: &AppUsageData) -> (r: Result<(), StoreError>)
        ensures
            match r {
                Ok(()) => {
                    &&& all_fit(AppUsageData::schema_spec(), data.values())
                    &&& !(AppUsageData::layout_spec() is Unique && key_pos(old(self).app_usage_data.rows(), data.values()[0]->Text_0) is Some)
                    &&& final(self).app_usage_data.rows() == inserted(AppUsageData::layout_spec(), old(self).app_usage_data.rows(), data.values())
                },
                Err(e) => {
                    &&& final(self).app_usage_data.rows() == old(self).app_usage_data.rows()
                    &&& e == StoreError::InvalidRecord <==> !all_fit(AppUsageData::schema_spec(), data.values())
                    &&& e == StoreError::InvalidRecord || e == StoreError::DuplicateKey
                    &&& e == StoreError::DuplicateKey ==> AppUsageData::layout_spec() is Unique && key_pos(old(self).app_usage_data.rows(), data.values()[0]->Text_0) is Some
                },
            },
            unchanged_except(*old(self), *final(self), TableId::AppUsageData),
    {
        self.app_usage_data.insert(data)
    }

    /// The readings of `device_id` (of every device for `*`) in `app_usage_data` whose timestamp
    /// lies in `[start, end]`, both ends included.
    pub fn get_app_usage_data(&self, device_id: &str, start: Timestamp, end: Timestamp) -> (r: Vec<AppUsageData>)
        ensures
            r@.map_values(|x: AppUsageData| x.values()) == select(self.app_usage_data.rows(), device_id@, start.micros as int, end.micros as int),
    {
        self.app_usage_data.query(device_id, start, end)
    }

    /// Stores a reading in `wifi_data`.
    pub fn insert_wifi_data(&mut self, data: &WifiData) -> (r: Result<(), StoreError>)
        ensures
            match r {
                Ok(()) => {
                    &&& all_fit(WifiData::schema_spec(), data.values())
                    &&& !(WifiData::layout_spec() is Unique && key_pos(old(self).wifi_data.rows(), data.values()[0]->Text_0) is Some)
                    &&& final(self).wifi_data.rows() == inserted(WifiData::layout_spec(), old(self).wifi_data.rows(), data.values())
                },
                Err(e) => {
                    &&& final(self).wifi_data.rows() == old(self).wifi_data.rows()
                    &&& e == StoreError::InvalidRecord <==> !all_fit(WifiData::schema_spec(), data.values())
                    &&& e == StoreError::InvalidRecord || e == StoreError::DuplicateKey
                    &&& e == StoreError::DuplicateKey ==> WifiData::layout_spec() is Unique && key_pos(old(self).wifi_data.rows(), data.values()[0]->Text_0) is Some
                },
            },
            unchanged_except(*old(self), *final(self), TableId::WifiData),
    {
        self.wifi_data.insert(data)
    }

    /// The readings of `device_id` (of every device for `*`) in `wifi_data` whose timestamp
    /// lies in `[start, end]`, both ends included.
    pub fn get_wifi_data(&self, device_id: &str, start: Timestamp, end: Timestamp) -> (r: Vec<WifiData>)
        ensures
            r@.map_values(|x: WifiData| x.values()) == select(self.wifi_data.rows(), device_id@, start.micros as int, end.micros as int),
    {
        self.wifi_data.query(device_id, start, end)
    }

    /// Stores a reading in `call_log_data`.
    pub fn insert_call_log_data(&mut self, data: &CallLogData) -> (r: Result<(), StoreError>)
        ensures
            match r {
                Ok(()) => {
                    &&& all_fit(CallLogData::schema_spec(), data.values())
                    &&& !(CallLogData::layout_spec() is Unique && key_pos(old(self).call_log_data.rows(), data.values()[0]->Text_0) is Some)
                    &&& final(self).call_log_data.rows() == inserted(CallLogData::layout_spec(), old(self).call_log_data.rows(), data.values())
                },
                Err(e) => {
                    &&& final(self).call_log_data.rows() == old(self).call_log_data.rows()
                    &&& e == StoreError::InvalidRecord <==> !all_fit(CallLogData::schema_spec(), data.values())
                    &&& e == StoreError::InvalidRecord || e == StoreError::DuplicateKey
                    &&& e == StoreError::DuplicateKey ==> CallLogData::layout_spec() is Unique && key_pos(old(self).call_log_data.rows(), data.values()[0]->Text_0) is Some
                },
            },
            unchanged_except(*old(self), *final(self), TableId::CallLogData),
    {
        self.call_log_data.insert(data)
    }

    /// The readings of `device_id` (of every device for `*`) in `call_log_data` whose timestamp
    /// lies in `[start, end]`, both ends included.
    pub fn get_call_log_data(&self, device_id: &str, start: Timestamp, end: Timestamp) -> (r: Vec<CallLogData>)
        ensures
            r@.map_values(|x: CallLogData| x.values()) == select(self.call_log_data.rows(), device_id@, start.micros as int, end.micros as int),
    {
        self.call_log_data.query(device_id, start, end)
    }

    /// Stores a reading in `notification_data`.
    pub fn insert_notification_data(&mut self, data: &NotificationData) -> (r: Result<(), StoreError>)
        ensures
            match r {
                Ok(()) => {
                    &&& all_fit(NotificationData::schema_spec(), data.values())
                    &&& !(NotificationData::layout_spec() is Unique && key_pos(old(self).notification_data.rows(), data.values()[0]->Text_0) is Some)
                    &&& final(self).notification_data.rows() == inserted(NotificationData::layout_spec(), old(self).notification_data.rows(), data.values())
                },
                Err(e) => {
                    &&& final(self).notification_data.rows() == old(self).notification_data.rows()
                    &&& e == StoreError::InvalidRecord <==> !all_fit(NotificationData::schema_spec(), data.values())
                    &&& e == StoreError::InvalidRecord || e == StoreError::DuplicateKey
                    &&& e == StoreError::DuplicateKey ==> NotificationData::layout_spec() is Unique && key_pos(old(self).notification_data.rows(), data.values()[0]->Text_0) is Some
                },
            },
            unchanged_except(*old(self), *final(self), TableId::NotificationData),
    {
        self.notification_data.insert(data)
    }

    /// The readings of `device_id` (of every device for `*`) in `notification_data` whose timestamp
    /// lies in `[start, end]`, both ends included.
    pub fn get_notification_data(&self, device_id: &str, start: Timestamp, end: Timestamp) -> (r: Vec<NotificationData>)
        ensures
            r@.map_values(|x: NotificationData| x.values()) == select(self.notification_data.rows(), device_id@, start.micros as int, end.micros as int),
    {
        self.notification_data.query(device_id, start, end)
    }

    /// Stores a row in `users`.
    pub fn insert_user(&mut self, data: &User) -> (r: Result<(), StoreError>)
        ensures
            match r {
                Ok(()) => {
                    &&& all_fit(User::schema_spec(), data.values())
                    &&& !(User::layout_spec() is Unique && key_pos(old(self).users.rows(), data.values()[0]->Text_0) is Some)
                    &&& final(self).users.rows() == inserted(User::layout_spec(), old(self).users.rows(), data.values())
                },
                Err(e) => {
                    &&& final(self).users.rows() == old(self).users.rows()
                    &&& e == StoreError::InvalidRecord <==> !all_fit(User::schema_spec(), data.values())
                    &&& e == StoreError::InvalidRecord || e == StoreError::DuplicateKey
                    &&& e == StoreError::DuplicateKey ==> User::layout_spec() is Unique && key_pos(old(self).users.rows(), data.values()[0]->Text_0) is Some
                },
            },
            unchanged_except(*old(self), *final(self), TableId::Users),
    {
        self.users.insert(data)
    }

    /// The row of `users` with key `id`.
    pub fn get_user(&self, id: &str) -> (r: Result<User, StoreError>)
        ensures
            match r {
                Ok(x) => key_pos(self.users.rows(), id@) matches Some(i) && x.values() == self.users.rows()[i],
                Err(e) => e == StoreError::NotFound && key_pos(self.users.rows(), id@) is None,
            },
    {
        match self.users.get(id) {
            Some(x) => Ok(x),
            None => Err(StoreError::NotFound),
        }
    }

    /// Stores a row in `oauth_accounts`.
    pub fn insert_oauth_account(&mut self, data: &OAuthAccount) -> (r: Result<(), StoreError>)
        ensures
            match r {
                Ok(()) => {
                    &&& all_fit(OAuthAccount::schema_spec(), data.values())
                    &&& !(OAuthAccount::layout_spec() is Unique && key_pos(old(self).oauth_accounts.rows(), data.values()[0]->Text_0) is Some)
                    &&& final(self).oauth_accounts.rows() == inserted(OAuthAccount::layout_spec(), old(self).oauth_accounts.rows(), data.values())
                },
                Err(e) => {
                    &&& final(self).oauth_accounts.rows() == old(self).oauth_accounts.rows()
                    &&& e == StoreError::InvalidRecord <==> !all_fit(OAuthAccount::schema_spec(), data.values())
                    &&& e == StoreError::InvalidRecord || e == StoreError::DuplicateKey
                    &&& e == StoreError::DuplicateKey ==> OAuthAccount::layout_spec() is Unique && key_pos(old(self).oauth_accounts.rows(), data.values()[0]->Text_0) is Some
                },
            },
            unchanged_except(*old(self), *final(self), TableId::OauthAccounts),
    {
        self.oauth_accounts.insert(data)
    }

    /// The row of `oauth_accounts` with key `id`.
    pub fn get_oauth_account(&self, id: &str) -> (r: Result<OAuthAccount, StoreError>)
        ensures
            match r {
                Ok(x) => key_pos(self.oauth_accounts.rows(), id@) matches Some(i) && x.values() == self.oauth_accounts.rows()[i],
                Err(e) => e == StoreError::NotFound && key_pos(self.oauth_accounts.rows(), id@) is None,
            },
    {
        match self.oauth_accounts.get(id) {
            Some(x) => Ok(x),
            None => Err(StoreError::NotFound),
        }
    }

    /// Stores a row in `sessions`.
    pub fn insert_session(&mut self, data: &Session) -> (r: Result<(), StoreError>)
        ensures
            match r {
                Ok(()) => {
                    &&& all_fit(Session::schema_spec(), data.values())
                    &&& !(Session::layout_spec() is Unique && key_pos(old(self).sessions.rows(), data.values()[0]->Text_0) is Some)
                    &&& final(self).sessions.rows() == inserted(Session::layout_spec(), old(self).sessions.rows(), data.values())
                },
                Err(e) => {
                    &&& final(self).sessions.rows() == old(self).sessions.rows()
                    &&& e == StoreError::InvalidRecord <==> !all_fit(Session::schema_spec(), data.values())
                    &&& e == StoreError::InvalidRecord || e == StoreError::DuplicateKey
                    &&& e == StoreError::DuplicateKey ==> Session::layout_spec() is Unique && key_pos(old(self).sessions.rows(), data.values()[0]->Text_0) is Some
                },
            },
            unchanged_except(*old(self), *final(self), TableId::Sessions),
    {
        self.sessions.insert(data)
    }

    /// The row of `sessions` with key `id`.
    pub fn get_session(&self, id: &str) -> (r: Result<Session, StoreError>)
        ensures
            match r {
                Ok(x) => key_pos(self.sessions.rows(), id@) matches Some(i) && x.values() == self.sessions.rows()[i],
                Err(e) => e == StoreError::NotFound && key_pos(self.sessions.rows(), id@) is None,
            },
    {
        match self.sessions.get(id) {
            Some(x) => Ok(x),
            None => Err(StoreError::NotFound),
        }
    }

    /// Stores a row in `notes`.
    pub fn insert_note(&mut self, data: &Note) -> (r: Result<(), StoreError>)
        ensures
            match r {
                Ok(()) => {
                    &&& all_fit(Note::schema_spec(), data.values())
                    &&& !(Note::layout_spec() is Unique && key_pos(old(self).notes.rows(), data.values()[0]->Text_0) is Some)
                    &&& final(self).notes.rows() == inserted(Note::layout_spec(), old(self).notes.rows(), data.values())
                },
                Err(e) => {
                    &&& final(self).notes.rows() == old(self).notes.rows()
                    &&& e == StoreError::InvalidRecord <==> !all_fit(Note::schema_spec(), data.values())
                    &&& e == StoreError::InvalidRecord || e == StoreError::DuplicateKey
                    &&& e == StoreError::DuplicateKey ==> Note::layout_spec() is Unique && key_pos(old(self).notes.rows(), data.values()[0]->Text_0) is Some
                },
            },
            unchanged_except(*old(self), *final(self), TableId::Notes),
    {
        self.notes.insert(data)
    }

    /// The row of `notes` with key `id`.
    pub fn get_note(&self, id: &str) -> (r: Result<Note, StoreError>)
        ensures
            match r {
                Ok(x) => key_pos(self.notes.rows(), id@) matches Some(i) && x.values() == self.notes.rows()[i],
                Err(e) => e == StoreError::NotFound && key_pos(self.notes.rows(), id@) is None,
            },
    {
        match self.notes.get(id) {
            Some(x) => Ok(x),
            None => Err(StoreError::NotFound),
        }
    }

    /// Stores a row in `known_entities`.
    pub fn insert_known_entity(&mut self, data: &KnownEntity) -> (r: Result<(), StoreError>)
        ensures
            match r {
                Ok(()) => {
                    &&& all_fit(KnownEntity::schema_spec(), data.values())
                    &&& !(KnownEntity::layout_spec() is Unique && key_pos(old(self).known_entities.rows(), data.values()[0]->Text_0) is Some)
                    &&& final(self).known_entities.rows() == inserted(KnownEntity::layout_spec(), old(self).known_entities.rows(), data.values())
                },
                Err(e) => {
                    &&& final(self).known_entities.rows() == old(self).known_entities.rows()
                    &&& e == StoreError::InvalidRecord <==> !all_fit(KnownEntity::schema_spec(), data.values())
                    &&& e == StoreError::InvalidRecord || e == StoreError::DuplicateKey
                    &&& e == StoreError::DuplicateKey ==> KnownEntity::layout_spec() is Unique && key_pos(old(self).known_entities.rows(), data.values()[0]->Text_0) is Some
                },
            },
            unchanged_except(*old(self), *final(self), TableId::KnownEntities),
    {
        self.known_entities.insert(data)
    }

    /// The row of `known_entities` with key `entity_id`.
    pub fn get_known_entity(&self, entity_id: &str) -> (r: Result<KnownEntity, StoreError>)
        ensures
            match r {
                Ok(x) => key_pos(self.known_entities.rows(), entity_id@) matches Some(i) && x.values() == self.known_entities.rows()[i],
                Err(e) => e == StoreError::NotFound && key_pos(self.known_entities.rows(), entity_id@) is None,
            },
    {
        match self.known_entities.get(entity_id) {
            Some(x) => Ok(x),
            None => Err(StoreError::NotFound),
        }
    }

    /// Stores a row in `retention_config`.
    pub fn insert_retention_config(&mut self, data: &RetentionConfig) -> (r: Result<(), StoreError>)
        ensures
            match r {
                Ok(()) => {
                    &&& all_fit(RetentionConfig::schema_spec(), data.values())
                    &&& !(RetentionConfig::layout_spec() is Unique && key_pos(old(self).retention_config.rows(), data.values()[0]->Text_0) is Some)
                    &&& final(self).retention_config.rows() == inserted(RetentionConfig::layout_spec(), old(self).retention_config.rows(), data.values())
                },
                Err(e) => {
                    &&& final(self).retention_config.rows() == old(self).retention_config.rows()
                    &&& e == StoreError::InvalidRecord <==> !all_fit(RetentionConfig::schema_spec(), data.values())
                    &&& e == StoreError::InvalidRecord || e == StoreError::DuplicateKey
                    &&& e == StoreError::DuplicateKey ==> RetentionConfig::layout_spec() is Unique && key_pos(old(self).retention_config.rows(), data.values()[0]->Text_0) is Some
                },
            },
            unchanged_except(*old(self), *final(self), TableId::RetentionConfig),
    {
        self.retention_config.insert(data)
    }

    /// The row of `retention_config` with key `table_name`.
    pub fn get_retention_config(&self, table_name: &str) -> (r: Option<RetentionConfig>)
        ensures
            match r {
                Some(x) => key_pos(self.retention_config.rows(), table_name@) matches Some(i) && x.values() == self.retention_config.rows()[i],
                None => key_pos(self.retention_config.rows(), table_name@) is None,
            },
    {
        self.retention_config.get(table_name)
    }

    /// Stores a row in `sync_priority_config`.
    pub fn insert_sync_priority_config(&mut self, data: &SyncPriorityConfig) -> (r: Result<(), StoreError>)
        ensures
            match r {
                Ok(()) => {
                    &&& all_fit(SyncPriorityConfig::schema_spec(), data.values())
                    &&& !(SyncPriorityConfig::layout_spec() is Unique && key_pos(old(self).sync_priority_config.rows(), data.values()[0]->Text_0) is Some)
                    &&& final(self).sync_priority_config.rows() == inserted(SyncPriorityConfig::layout_spec(), old(self).sync_priority_config.rows(), data.values())
                },
                Err(e) => {
                    &&& final(self).sync_priority_config.rows() == old(self).sync_priority_config.rows()
                    &&& e == StoreError::InvalidRecord <==> !all_fit(SyncPriorityConfig::schema_spec(), data.values())
                    &&& e == StoreError::InvalidRecord || e == StoreError::DuplicateKey
                    &&& e == StoreError::DuplicateKey ==> SyncPriorityConfig::layout_spec() is Unique && key_pos(old(self).sync_priority_config.rows(), data.values()[0]->Text_0) is Some
                },
            },
            unchanged_except(*old(self), *final(self), TableId::SyncPriorityConfig),
    {
        self.sync_priority_config.insert(data)
    }

    /// The row of `sync_priority_config` with key `table_name`.
    pub fn get_sync_priority_config(&self, table_name: &str) -> (r: Option<SyncPriorityConfig>)
        ensures
            match r {
                Some(x) => key_pos(self.sync_priority_config.rows(), table_name@) matches Some(i) && x.values() == self.sync_priority_config.rows()[i],
                None => key_pos(self.sync_priority_config.rows(), table_name@) is None,
            },
    {
        self.sync_priority_config.get(table_name)
    }

    /// Stores a row in `note_references`.
    pub fn insert_note_reference(&mut self, data: &NoteReference) -> (r: Result<(), StoreError>)
        ensures
            match r {
                Ok(()) => {
                    &&& all_fit(NoteReference::schema_spec(), data.values())
                    &&& !(NoteReference::layout_spec() is Unique && key_pos(old(self).note_references.rows(), data.values()[0]->Text_0) is Some)
                    &&& final(self).note_references.rows() == inserted(NoteReference::layout_spec(), old(self).note_references.rows(), data.values())
                },
                Err(e) => {
                    &&& final(self).note_references.rows() == old(self).note_references.rows()
                    &&& e == StoreError::InvalidRecord <==> !all_fit(NoteReference::schema_spec(), data.values())
                    &&& e == StoreError::InvalidRecord || e == StoreError::DuplicateKey
                    &&& e == StoreError::DuplicateKey ==> NoteReference::layout_spec() is Unique && key_pos(old(self).note_references.rows(), data.values()[0]->Text_0) is Some
                },
            },
            unchanged_except(*old(self), *final(self), TableId::NoteReferences),
    {
        self.note_references.insert(data)
    }

    /// Bulk path for imports and replays: reads every document as a reading of the
    /// table named `table_name` and stores them all, or none if one does not hold a
    /// reading. Only tables of readings take bulk input.
    pub fn ingest_json(&mut self, table_name: &str, docs: &Vec<Document>) -> (r: Result<usize, StoreError>)
        ensures
            table_name@ == AccelerometerData::table_spec() ==> match decode_all(AccelerometerData::schema_spec(), docs_view(docs@)) {
                Ok(rows) => r matches Ok(n) && n == docs@.len() && final(self).accelerometer_data.rows() == old(self).accelerometer_data.rows() + rows,
                Err(e) => r matches Err(StoreError::Schema(x)) && x@ == e && final(self).accelerometer_data.rows() == old(self).accelerometer_data.rows(),
            },
            table_name@ == GyroscopeData::table_spec() ==> match decode_all(GyroscopeData::schema_spec(), docs_view(docs@)) {
                Ok(rows) => r matches Ok(n) && n == docs@.len() && final(self).gyroscope_data.rows() == old(self).gyroscope_data.rows() + rows,
                Err(e) => r matches Err(StoreError::Schema(x)) && x@ == e && final(self).gyroscope_data.rows() == old(self).gyroscope_data.rows(),
            },
            table_name@ == MagnetometerData::table_spec() ==> match decode_all(MagnetometerData::schema_spec(), docs_view(docs@)) {
                Ok(rows) => r matches Ok(n) && n == docs@.len() && final(self).magnetometer_data.rows() == old(self).magnetometer_data.rows() + rows,
                Err(e) => r matches Err(StoreError::Schema(x)) && x@ == e && final(self).magnetometer_data.rows() == old(self).magnetometer_data.rows(),
            },
            table_name@ == GpsData::table_spec() ==> match decode_all(GpsData::schema_spec(), docs_view(docs@)) {
                Ok(rows) => r matches Ok(n) && n == docs@.len() && final(self).gps_data.rows() == old(self).gps_data.rows() + rows,
                Err(e) => r matches Err(StoreError::Schema(x)) && x@ == e && final(self).gps_data.rows() == old(self).gps_data.rows(),
            },
            table_name@ == HeartRateData::table_spec() ==> match decode_all(HeartRateData::schema_spec(), docs_view(docs@)) {
                Ok(rows) => r matches Ok(n) && n == docs@.len() && final(self).heart_rate_data.rows() == old(self).heart_rate_data.rows() + rows,
                Err(e) => r matches Err(StoreError::Schema(x)) && x@ == e && final(self).heart_rate_data.rows() == old(self).heart_rate_data.rows(),
            },
            table_name@ == ECGData::table_spec() ==> match decode_all(ECGData::schema_spec(), docs_view(docs@)) {
                Ok(rows) => r matches Ok(n) && n == docs@.len() && final(self).ecg_data.rows() == old(self).ecg_data.rows() + rows,
                Err(e) => r matches Err(StoreError::Schema(x)) && x@ == e && final(self).ecg_data.rows() == old(self).ecg_data.rows(),
            },
            table_name@ == BloodOxygenData::table_spec() ==> match decode_all(BloodOxygenData::schema_spec(), docs_view(docs@)) {
                Ok(rows) => r matches Ok(n) && n == docs@.len() && final(self).blood_oxygen_data.rows() == old(self).blood_oxygen_data.rows() + rows,
                Err(e) => r matches Err(StoreError::Schema(x)) && x@ == e && final(self).blood_oxygen_data.rows() == old(self).blood_oxygen_data.rows(),
            },
            table_name@ == StressData::table_spec() ==> match decode_all(StressData::schema_spec(), docs_view(docs@)) {
                Ok(rows) => r matches Ok(n) && n == docs@.len() && final(self).stress_data.rows() == old(self).stress_data.rows() + rows,
                Err(e) => r matches Err(StoreError::Schema(x)) && x@ == e && final(self).stress_data.rows() == old(self).stress_data.rows(),
            },
            table_name@ == ProximityData::table_spec() ==> match decode_all(ProximityData::schema_spec(), docs_view(docs@)) {
                Ok(rows) => r matches Ok(n) && n == docs@.len() && final(self).proximity_data.rows() == old(self).proximity_data.rows() + rows,
                Err(e) => r matches Err(StoreError::Schema(x)) && x@ == e && final(self).proximity_data.rows() == old(self).proximity_data.rows(),
            },
            table_name@ == LightData::table_spec() ==> match decode_all(LightData::schema_spec(), docs_view(docs@)) {
                Ok(rows) => r matches Ok(n) && n == docs@.len() && final(self).light_data.rows() == old(self).light_data.rows() + rows,
                Err(e) => r matches Err(StoreError::Schema(x)) && x@ == e && final(self).light_data.rows() == old(self).light_data.rows(),
            },
            table_name@ == PressureData::table_spec() ==> match decode_all(PressureData::schema_spec(), docs_view(docs@)) {
                Ok(rows) => r matches Ok(n) && n == docs@.len() && final(self).pressure_data.rows() == old(self).pressure_data.rows() + rows,
                Err(e) => r matches Err(StoreError::Schema(x)) && x@ == e && final(self).pressure_data.rows() == old(self).pressure_data.rows(),
            },
            table_name@ == TemperatureData::table_spec() ==> match decode_all(TemperatureData::schema_spec(), docs_view(docs@)) {
                Ok(rows) => r matches Ok(n) && n == docs@.len() && final(self).temperature_data.rows() == old(self).temperature_data.rows() + rows,
                Err(e) => r matches Err(StoreError::Schema(x)) && x@ == e && final(self).temperature_data.rows() == old(self).temperature_data.rows(),
            },
            table_name@ == HumidityData::table_spec() ==> match decode_all(HumidityData::schema_spec(), docs_view(docs@)) {
                Ok(rows) => r matches Ok(n) && n == docs@.len() && final(self).humidity_data.rows() == old(self).humidity_data.rows() + rows,
                Err(e) => r matches Err(StoreError::Schema(x)) && x@ == e && final(self).humidity_data.rows() == old(self).humidity_data.rows(),
            },
            table_name@ == StepCountData::table_spec() ==> match decode_all(StepCountData::schema_spec(), docs_view(docs@)) {
                Ok(rows) => r matches Ok(n) && n == docs@.len() && final(self).step_count_data.rows() == old(self).step_count_data.rows() + rows,
                Err(e) => r matches Err(StoreError::Schema(x)) && x@ == e && final(self).step_count_data.rows() == old(self).step_count_data.rows(),
            },
            table_name@ == AudioLevelData::table_spec() ==> match decode_all(AudioLevelData::schema_spec(), docs_view(docs@)) {
                Ok(rows) => r matches Ok(n) && n == docs@.len() && final(self).audio_level_data.rows() == old(self).audio_level_data.rows() + rows,
                Err(e) => r matches Err(StoreError::Schema(x)) && x@ == e && final(self).audio_level_data.rows() == old(self).audio_level_data.rows(),
            },
            table_name@ == BatteryData::table_spec() ==> match decode_all(BatteryData::schema_spec(), docs_view(docs@)) {
                Ok(rows) => r matches Ok(n) && n == docs@.len() && final(self).battery_data.rows() == old(self).battery_data.rows() + rows,
                Err(e) => r matches Err(StoreError::Schema(x)) && x@ == e && final(self).battery_data.rows() == old(self).battery_data.rows(),
            },
            table_name@ == NetworkData::table_spec() ==> match decode_all(NetworkData::schema_spec(), docs_view(docs@)) {
                Ok(rows) => r matches Ok(n) && n == docs@.len() && final(self).network_data.rows() == old(self).network_data.rows() + rows,
                Err(e) => r matches Err(StoreError::Schema(x)) && x@ == e && final(self).network_data.rows() == old(self).network_data.rows(),
            },
            table_name@ == ScreenStateData::table_spec() ==> match decode_all(ScreenStateData::schema_spec(), docs_view(docs@)) {
                Ok(rows) => r matches Ok(n) && n == docs@.len() && final(self).screen_state_data.rows() == old(self).screen_state_data.rows() + rows,
                Err(e) => r matches Err(StoreError::Schema(x)) && x@ == e && final(self).screen_state_data.rows() == old(self).screen_state_data.rows(),
            },
            table_name@ == TodosData::table_spec() ==> match decode_all(TodosData::schema_spec(), docs_view(docs@)) {
                Ok(rows) => r matches Ok(n) && n == docs@.len() && final(self).todos_data.rows() == old(self).todos_data.rows() + rows,
                Err(e) => r matches Err(StoreError::Schema(x)) && x@ == e && final(self).todos_data.rows() == old(self).todos_data.rows(),
            },
            table_name@ == CameraData::table_spec() ==> match decode_all(CameraData::schema_spec(), docs_view(docs@)) {
                Ok(rows) => r matches Ok(n) && n == docs@.len() && final(self).camera_data.rows() == old(self).camera_data.rows() + rows,
                Err(e) => r matches Err(StoreError::Schema(x)) && x@ == e && final(self).camera_data.rows() == old(self).camera_data.rows(),
            },
            table_name@ == AppUsageData::table_spec() ==> match decode_all(AppUsageData::schema_spec(), docs_view(docs@)) {
                Ok(rows) => r matches Ok(n) && n == docs@.len() && final(self).app_usage_data.rows() == old(self).app_usage_data.rows() + rows,
                Err(e) => r matches Err(StoreError::Schema(x)) && x@ == e && final(self).app_usage_data.rows() == old(self).app_usage_data.rows(),
            },
            table_name@ == WifiData::table_spec() ==> match decode_all(WifiData::schema_spec(), docs_view(docs@)) {
                Ok(rows) => r matches Ok(n) && n == docs@.len() && final(self).wifi_data.rows() == old(self).wifi_data.rows() + rows,
                Err(e) => r matches Err(StoreError::Schema(x)) && x@ == e && final(self).wifi_data.rows() == old(self).wifi_data.rows(),
            },
            table_name@ == CallLogData::table_spec() ==> match decode_all(CallLogData::schema_spec(), docs_view(docs@)) {
                Ok(rows) => r matches Ok(n) && n == docs@.len() && final(self).call_log_data.rows() == old(self).call_log_data.rows() + rows,
                Err(e) => r matches Err(StoreError::Schema(x)) && x@ == e && final(self).call_log_data.rows() == old(self).call_log_data.rows(),
            },
            table_name@ == NotificationData::table_spec() ==> match decode_all(NotificationData::schema_spec(), docs_view(docs@)) {
                Ok(rows) => r matches Ok(n) && n == docs@.len() && final(self).notification_data.rows() == old(self).notification_data.rows() + rows,
                Err(e) => r matches Err(StoreError::Schema(x)) && x@ == e && final(self).notification_data.rows() == old(self).notification_data.rows(),
            },
            (table_name@ != AccelerometerData::table_spec() && table_name@ != GyroscopeData::table_spec() && table_name@ != MagnetometerData::table_spec() && table_name@ != GpsData::table_spec() && table_name@ != HeartRateData::table_spec() && table_name@ != ECGData::table_spec() && table_name@ != BloodOxygenData::table_spec() && table_name@ != StressData::table_spec() && table_name@ != ProximityData::table_spec() && table_name@ != LightData::table_spec() && table_name@ != PressureData::table_spec() && table_name@ != TemperatureData::table_spec() && table_name@ != HumidityData::table_spec() && table_name@ != StepCountData::table_spec() && table_name@ != AudioLevelData::table_spec() && table_name@ != BatteryData::table_spec() && table_name@ != NetworkData::table_spec() && table_name@ != ScreenStateData::table_spec() && table_name@ != TodosData::table_spec() && table_name@ != CameraData::table_spec() && table_name@ != AppUsageData::table_spec() && table_name@ != WifiData::table_spec() && table_name@ != CallLogData::table_spec() && table_name@ != NotificationData::table_spec()) ==> (r matches Err(StoreError::UnknownTable) && *final(self) == *old(self)),
            table_name@ != AccelerometerData::table_spec() ==> final(self).accelerometer_data == old(self).accelerometer_data,
            table_name@ != GyroscopeData::table_spec() ==> final(self).gyroscope_data == old(self).gyroscope_data,
            table_name@ != MagnetometerData::table_spec() ==> final(self).magnetometer_data == old(self).magnetometer_data,
            table_name@ != GpsData::table_spec() ==> final(self).gps_data == old(self).gps_data,
            table_name@ != HeartRateData::table_spec() ==> final(self).heart_rate_data == old(self).heart_rate_data,
            table_name@ != ECGData::table_spec() ==> final(self).ecg_data == old(self).ecg_data,
            table_name@ != BloodOxygenData::table_spec() ==> final(self).blood_oxygen_data == old(self).blood_oxygen_data,
            table_name@ != StressData::table_spec() ==> final(self).stress_data == old(self).stress_data,
            table_name@ != ProximityData::table_spec() ==> final(self).proximity_data == old(self).proximity_data,
            table_name@ != LightData::table_spec() ==> final(self).light_data == old(self).light_data,
            table_name@ != PressureData::table_spec() ==> final(self).pressure_data == old(self).pressure_data,
            table_name@ != TemperatureData::table_spec() ==> final(self).temperature_data == old(self).temperature_data,
            table_name@ != HumidityData::table_spec() ==> final(self).humidity_data == old(self).humidity_data,
            table_name@ != StepCountData::table_spec() ==> final(self).step_count_data == old(self).step_count_data,
            table_name@ != AudioLevelData::table_spec() ==> final(self).audio_level_data == old(self).audio_level_data,
            table_name@ != BatteryData::table_spec() ==> final(self).battery_data == old(self).battery_data,
            table_name@ != NetworkData::table_spec() ==> final(self).network_data == old(self).network_data,
            table_name@ != ScreenStateData::table_spec() ==> final(self).screen_state_data == old(self).screen_state_data,
            table_name@ != TodosData::table_spec() ==> final(self).todos_data == old(self).todos_data,
            table_name@ != CameraData::table_spec() ==> final(self).camera_data == old(self).camera_data,
            table_name@ != AppUsageData::table_spec() ==> final(self).app_usage_data == old(self).app_usage_data,
            table_name@ != WifiData::table_spec() ==> final(self).wifi_data == old(self).wifi_data,
            table_name@ != CallLogData::table_spec() ==> final(self).call_log_data == old(self).call_log_data,
            table_name@ != NotificationData::table_spec() ==> final(self).notification_data == old(self).notification_data,
            final(self).users == old(self).users,
            final(self).oauth_accounts == old(self).oauth_accounts,
            final(self).sessions == old(self).sessions,
            final(self).notes == old(self).notes,
            final(self).known_entities == old(self).known_entities,
            final(self).retention_config == old(self).retention_config,
            final(self).sync_priority_config == old(self).sync_priority_config,
            final(self).note_references == old(self).note_references,
            final(self).devices_view() == old(self).devices_view(),
    {
        proof {
            reveal_strlit("accelerometer_data");
            reveal_strlit("gyroscope_data");
            reveal_strlit("magnetometer_data");
            reveal_strlit("gps_data");
            reveal_strlit("heart_rate_data");
            reveal_strlit("ecg_data");
            reveal_strlit("blood_oxygen_data");
            reveal_strlit("stress_data");
            reveal_strlit("proximity_data");
            reveal_strlit("light_data");
            reveal_strlit("pressure_data");
            reveal_strlit("temperature_data");
            reveal_strlit("humidity_data");
            reveal_strlit("step_count_data");
            reveal_strlit("audio_level_data");
            reveal_strlit("battery_data");
            reveal_strlit("network_data");
            reveal_strlit("screen_state_data");
            reveal_strlit("todos_data");
            reveal_strlit("camera_data");
            reveal_strlit("app_usage_data");
            reveal_strlit("wifi_data");
            reveal_strlit("call_log_data");
            reveal_strlit("notification_data");
            assert("accelerometer_data"@.len() == 18 && "accelerometer_data"@[0] == 'a' && "accelerometer_data"@[1] == 'c' && "accelerometer_data"@[2] == 'c' && "accelerometer_data"@[3] == 'e');
            assert("gyroscope_data"@.len() == 14 && "gyroscope_data"@[0] == 'g' && "gyroscope_data"@[1] == 'y' && "gyroscope_data"@[2] == 'r' && "gyroscope_data"@[3] == 'o');
            assert("magnetometer_data"@.len() == 17 && "magnetometer_data"@[0] == 'm' && "magnetometer_data"@[1] == 'a' && "magnetometer_data"@[2] == 'g' && "magnetometer_data"@[3] == 'n');
            assert("gps_data"@.len() == 8 && "gps_data"@[0] == 'g' && "gps_data"@[1] == 'p' && "gps_data"@[2] == 's' && "gps_data"@[3] == '_');
            assert("heart_rate_data"@.len() == 15 && "heart_rate_data"@[0] == 'h' && "heart_rate_data"@[1] == 'e' && "heart_rate_data"@[2] == 'a' && "heart_rate_data"@[3] == 'r');
            assert("ecg_data"@.len() == 8 && "ecg_data"@[0] == 'e' && "ecg_data"@[1] == 'c' && "ecg_data"@[2] == 'g' && "ecg_data"@[3] == '_');
            assert("blood_oxygen_data"@.len() == 17 && "blood_oxygen_data"@[0] == 'b' && "blood_oxygen_data"@[1] == 'l' && "blood_oxygen_data"@[2] == 'o' && "blood_oxygen_data"@[3] == 'o');
            assert("stress_data"@.len() == 11 && "stress_data"@[0] == 's' && "stress_data"@[1] == 't' && "stress_data"@[2] == 'r' && "stress_data"@[3] == 'e');
            assert("proximity_data"@.len() == 14 && "proximity_data"@[0] == 'p' && "proximity_data"@[1] == 'r' && "proximity_data"@[2] == 'o' && "proximity_data"@[3] == 'x');
            assert("light_data"@.len() == 10 && "light_data"@[0] == 'l' && "light_data"@[1] == 'i' && "light_data"@[2] == 'g' && "light_data"@[3] == 'h');
            assert("pressure_data"@.len() == 13 && "pressure_data"@[0] == 'p' && "pressure_data"@[1] == 'r' && "pressure_data"@[2] == 'e' && "pressure_data"@[3] == 's');
            assert("temperature_data"@.len() == 16 && "temperature_data"@[0] == 't' && "temperature_data"@[1] == 'e' && "temperature_data"@[2] == 'm' && "temperature_data"@[3] == 'p');
            assert("humidity_data"@.len() == 13 && "humidity_data"@[0] == 'h' && "humidity_data"@[1] == 'u' && "humidity_data"@[2] == 'm' && "humidity_data"@[3] == 'i');
            assert("step_count_data"@.len() == 15 && "step_count_data"@[0] == 's' && "step_count_data"@[1] == 't' && "step_count_data"@[2] == 'e' && "step_count_data"@[3] == 'p');
            assert("audio_level_data"@.len() == 16 && "audio_level_data"@[0] == 'a' && "audio_level_data"@[1] == 'u' && "audio_level_data"@[2] == 'd' && "audio_level_data"@[3] == 'i');
            assert("battery_data"@.len() == 12 && "battery_data"@[0] == 'b' && "battery_data"@[1] == 'a' && "battery_data"@[2] == 't' && "battery_data"@[3] == 't');
            assert("network_data"@.len() == 12 && "network_data"@[0] == 'n' && "network_data"@[1] == 'e' && "network_data"@[2] == 't' && "network_data"@[3] == 'w');
            assert("screen_state_data"@.len() == 17 && "screen_state_data"@[0] == 's' && "screen_state_data"@[1] == 'c' && "screen_state_data"@[2] == 'r' && "screen_state_data"@[3] == 'e');
            assert("todos_data"@.len() == 10 && "todos_data"@[0] == 't' && "todos_data"@[1] == 'o' && "todos_data"@[2] == 'd' && "todos_data"@[3] == 'o');
            assert("camera_data"@.len() == 11 && "camera_data"@[0] == 'c' && "camera_data"@[1] == 'a' && "camera_data"@[2] == 'm' && "camera_data"@[3] == 'e');
            assert("app_usage_data"@.len() == 14 && "app_usage_data"@[0] == 'a' && "app_usage_data"@[1] == 'p' && "app_usage_data"@[2] == 'p' && "app_usage_data"@[3] == '_');
            assert("wifi_data"@.len() == 9 && "wifi_data"@[0] == 'w' && "wifi_data"@[1] == 'i' && "wifi_data"@[2] == 'f' && "wifi_data"@[3] == 'i');
            assert("call_log_data"@.len() == 13 && "call_log_data"@[0] == 'c' && "call_log_data"@[1] == 'a' && "call_log_data"@[2] == 'l' && "call_log_data"@[3] == 'l');
            assert("notification_data"@.len() == 17 && "notification_data"@[0] == 'n' && "notification_data"@[1] == 'o' && "notification_data"@[2] == 't' && "notification_data"@[3] == 'i');
        }
        if text_eq(table_name, AccelerometerData::table_name()) {
            self.accelerometer_data.ingest(docs)
        } else if text_eq(table_name, GyroscopeData::table_name()) {
            self.gyroscope_data.ingest(docs)
        } else if text_eq(table_name, MagnetometerData::table_name()) {
            self.magnetometer_data.ingest(docs)
        } else if text_eq(table_name, GpsData::table_name()) {
            self.gps_data.ingest(docs)
        } else if text_eq(table_name, HeartRateData::table_name()) {
            self.heart_rate_data.ingest(docs)
        } else if text_eq(table_name, ECGData::table_name()) {
            self.ecg_data.ingest(docs)
        } else if text_eq(table_name, BloodOxygenData::table_name()) {
            self.blood_oxygen_data.ingest(docs)
        } else if text_eq(table_name, StressData::table_name()) {
            self.stress_data.ingest(docs)
        } else if text_eq(table_name, ProximityData::table_name()) {
            self.proximity_data.ingest(docs)
        } else if text_eq(table_name, LightData::table_name()) {
            self.light_data.ingest(docs)
        } else if text_eq(table_name, PressureData::table_name()) {
            self.pressure_data.ingest(docs)
        } else if text_eq(table_name, TemperatureData::table_name()) {
            self.temperature_data.ingest(docs)
        } else if text_eq(table_name, HumidityData::table_name()) {
            self.humidity_data.ingest(docs)
        } else if text_eq(table_name, StepCountData::table_name()) {
            self.step_count_data.ingest(docs)
        } else if text_eq(table_name, AudioLevelData::table_name()) {
            self.audio_level_data.ingest(docs)
        } else if text_eq(table_name, BatteryData::table_name()) {
            self.battery_data.ingest(docs)
        } else if text_eq(table_name, NetworkData::table_name()) {
            self.network_data.ingest(docs)
        } else if text_eq(table_name, ScreenStateData::table_name()) {
            self.screen_state_data.ingest(docs)
        } else if text_eq(table_name, TodosData::table_name()) {
            self.todos_data.ingest(docs)
        } else if text_eq(table_name, CameraData::table_name()) {
            self.camera_data.ingest(docs)
        } else if text_eq(table_name, AppUsageData::table_name()) {
            self.app_usage_data.ingest(docs)
        } else if text_eq(table_name, WifiData::table_name()) {
            self.wifi_data.ingest(docs)
        } else if text_eq(table_name, CallLogData::table_name()) {
            self.call_log_data.ingest(docs)
        } else if text_eq(table_name, NotificationData::table_name()) {
            self.notification_data.ingest(docs)
        } else {
            Err(StoreError::UnknownTable)
        }
    }

    /// Registers a device at its first pairing; its id must be new.
    pub fn insert_device(&mut self, device: &Device) -> (r: Result<(), StoreError>)
        ensures
            match r {
                Ok(()) => {
                    &&& forall|i: int| 0 <= i < old(self).devices_view().len() ==> (#[trigger] old(self).devices_view()[i]).device_id@ != device.device_id@
                    &&& final(self).devices_view().len() == old(self).devices_view().len() + 1
                    &&& forall|i: int| 0 <= i < old(self).devices_view().len() ==> #[trigger] final(self).devices_view()[i] == old(self).devices_view()[i]
                    &&& final(self).devices_view().last().device_id@ == device.device_id@
                    &&& final(self).devices_view().last().last_seen == device.last_seen
                    &&& final(self).devices_view().last().capabilities == device.capabilities
                },
                Err(e) => {
                    &&& e == StoreError::DuplicateKey
                    &&& exists|i: int| 0 <= i < old(self).devices_view().len() && (#[trigger] old(self).devices_view()[i]).device_id@ == device.device_id@
                    &&& final(self).devices_view() == old(self).devices_view()
                },
            },
            unchanged_except(*old(self), *final(self), TableId::Devices),
    {
        match self.find_device(device.device_id.as_str()) {
            Some(_) => Err(StoreError::DuplicateKey),
            None => {
                self.devices.push(device.duplicate());
                Ok(())
            },
        }
    }

    fn find_device(&self, device_id: &str) -> (r: Option<usize>)
        ensures
            match r {
                Some(i) => i < self.devices_view().len() && self.devices_view()[i as int].device_id@ == device_id@,
                None => forall|i: int| 0 <= i < self.devices_view().len() ==> (#[trigger] self.devices_view()[i]).device_id@ != device_id@,
            },
    {
        let mut i: usize = 0;
        while i < self.devices.len()
            invariant
                i <= self.devices@.len(),
                forall|k: int| 0 <= k < i ==> (#[trigger] self.devices@[k]).device_id@ != device_id@,
            decreases self.devices@.len() - i,
        {
            if text_eq(self.devices[i].device_id.as_str(), device_id) {
                return Some(i);
            }
            i += 1;
        }
        None
    }

    /// The device with id `device_id`.
    pub fn get_device(&self, device_id: &str) -> (r: Result<Device, StoreError>)
        ensures
            match r {
                Ok(d) => exists|i: int| 0 <= i < self.devices_view().len() && #[trigger] self.devices_view()[i].device_id@ == device_id@ && d.device_id@ == device_id@ && d.last_seen == self.devices_view()[i].last_seen && d.capabilities == self.devices_view()[i].capabilities,
                Err(e) => e == StoreError::NotFound && forall|i: int| 0 <= i < self.devices_view().len() ==> (#[trigger] self.devices_view()[i]).device_id@ != device_id@,
            },
    {
        match self.find_device(device_id) {
            Some(i) => Ok(self.devices[i].duplicate()),
            None => Err(StoreError::NotFound),
        }
    }

    /// Opens a transaction. Its writes are staged in the transaction and reach this
    /// store only on `commit`; a transaction dropped without a commit leaves the store
    /// as it was.
    pub fn begin(&self) -> (t: Transaction)
        ensures
            only_readings(t.staged),
            t.staged.accelerometer_data.rows().len() == 0,
            t.staged.gyroscope_data.rows().len() == 0,
            t.staged.magnetometer_data.rows().len() == 0,
            t.staged.gps_data.rows().len() == 0,
            t.staged.heart_rate_data.rows().len() == 0,
            t.staged.ecg_data.rows().len() == 0,
            t.staged.blood_oxygen_data.rows().len() == 0,
            t.staged.stress_data.rows().len() == 0,
            t.staged.proximity_data.rows().len() == 0,
            t.staged.light_data.rows().len() == 0,
            t.staged.pressure_data.rows().len() == 0,
            t.staged.temperature_data.rows().len() == 0,
            t.staged.humidity_data.rows().len() == 0,
            t.staged.step_count_data.rows().len() == 0,
            t.staged.audio_level_data.rows().len() == 0,
            t.staged.battery_data.rows().len() == 0,
            t.staged.network_data.rows().len() == 0,
            t.staged.screen_state_data.rows().len() == 0,
            t.staged.todos_data.rows().len() == 0,
            t.staged.camera_data.rows().len() == 0,
            t.staged.app_usage_data.rows().len() == 0,
            t.staged.wifi_data.rows().len() == 0,
            t.staged.call_log_data.rows().len() == 0,
            t.staged.notification_data.rows().len() == 0,
    {
        Transaction { staged: Database::new() }
    }
}

/// A scoped transaction over the tables of readings.
pub struct Transaction {
    pub staged: Database,
}

impl Transaction {
    /// Stages a reading for `accelerometer_data`.
    pub fn insert_accelerometer_data(&mut self, data: &AccelerometerData) -> (r: Result<(), StoreError>)
        requires
            only_readings(old(self).staged),
        ensures
            match r {
                Ok(()) => {
                    &&& all_fit(AccelerometerData::schema_spec(), data.values())
                    &&& !(AccelerometerData::layout_spec() is Unique && key_pos(old(self).staged.accelerometer_data.rows(), data.values()[0]->Text_0) is Some)
                    &&& final(self).staged.accelerometer_data.rows() == inserted(AccelerometerData::layout_spec(), old(self).staged.accelerometer_data.rows(), data.values())
                },
                Err(e) => {
                    &&& final(self).staged.accelerometer_data.rows() == old(self).staged.accelerometer_data.rows()
                    &&& e == StoreError::InvalidRecord <==> !all_fit(AccelerometerData::schema_spec(), data.values())
                    &&& e == StoreError::InvalidRecord || e == StoreError::DuplicateKey
                    &&& e == StoreError::DuplicateKey ==> AccelerometerData::layout_spec() is Unique && key_pos(old(self).staged.accelerometer_data.rows(), data.values()[0]->Text_0) is Some
                },
            },
            unchanged_except(old(self).staged, final(self).staged, TableId::AccelerometerData),
            only_readings(final(self).staged),
    {
        self.staged.insert_accelerometer_data(data)
    }

    /// Stages a reading for `gyroscope_data`.
    pub fn insert_gyroscope_data(&mut self, data: &GyroscopeData) -> (r: Result<(), StoreError>)
        requires
            only_readings(old(self).staged),
        ensures
            match r {
                Ok(()) => {
                    &&& all_fit(GyroscopeData::schema_spec(), data.values())
                    &&& !(GyroscopeData::layout_spec() is Unique && key_pos(old(self).staged.gyroscope_data.rows(), data.values()[0]->Text_0) is Some)
                    &&& final(self).staged.gyroscope_data.rows() == inserted(GyroscopeData::layout_spec(), old(self).staged.gyroscope_data.rows(), data.values())
                },
                Err(e) => {
                    &&& final(self).staged.gyroscope_data.rows() == old(self).staged.gyroscope_data.rows()
                    &&& e == StoreError::InvalidRecord <==> !all_fit(GyroscopeData::schema_spec(), data.values())
                    &&& e == StoreError::InvalidRecord || e == StoreError::DuplicateKey
                    &&& e == StoreError::DuplicateKey ==> GyroscopeData::layout_spec() is Unique && key_pos(old(self).staged.gyroscope_data.rows(), data.values()[0]->Text_0) is Some
                },
            },
            unchanged_except(old(self).staged, final(self).staged, TableId::GyroscopeData),
            only_readings(final(self).staged),
    {
        self.staged.insert_gyroscope_data(data)
    }

    /// Stages a reading for `magnetometer_data`.
    pub fn insert_magnetometer_data(&mut self, data: &MagnetometerData) -> (r: Result<(), StoreError>)
        requires
            only_readings(old(self).staged),
        ensures
            match r {
                Ok(()) => {
                    &&& all_fit(MagnetometerData::schema_spec(), data.values())
                    &&& !(MagnetometerData::layout_spec() is Unique && key_pos(old(self).staged.magnetometer_data.rows(), data.values()[0]->Text_0) is Some)
                    &&& final(self).staged.magnetometer_data.rows() == inserted(MagnetometerData::layout_spec(), old(self).staged.magnetometer_data.rows(), data.values())
                },
                Err(e) => {
                    &&& final(self).staged.magnetometer_data.rows() == old(self).staged.magnetometer_data.rows()
                    &&& e == StoreError::InvalidRecord <==> !all_fit(MagnetometerData::schema_spec(), data.values())
                    &&& e == StoreError::InvalidRecord || e == StoreError::DuplicateKey
                    &&& e == StoreError::DuplicateKey ==> MagnetometerData::layout_spec() is Unique && key_pos(old(self).staged.magnetometer_data.rows(), data.values()[0]->Text_0) is Some
                },
            },
            unchanged_except(old(self).staged, final(self).staged, TableId::MagnetometerData),
            only_readings(final(self).staged),
    {
        self.staged.insert_magnetometer_data(data)
    }

    /// Stages a reading for `gps_data`.
    pub fn insert_gps_data(&mut self, data: &GpsData) -> (r: Result<(), StoreError>)
        requires
            only_readings(old(self).staged),
        ensures
            match r {
                Ok(()) => {
                    &&& all_fit(GpsData::schema_spec(), data.values())
                    &&& !(GpsData::layout_spec() is Unique && key_pos(old(self).staged.gps_data.rows(), data.values()[0]->Text_0) is Some)
                    &&& final(self).staged.gps_data.rows() == inserted(GpsData::layout_spec(), old(self).staged.gps_data.rows(), data.values())
                },
                Err(e) => {
                    &&& final(self).staged.gps_data.rows() == old(self).staged.gps_data.rows()
                    &&& e == StoreError::InvalidRecord <==> !all_fit(GpsData::schema_spec(), data.values())
                    &&& e == StoreError::InvalidRecord || e == StoreError::DuplicateKey
                    &&& e == StoreError::DuplicateKey ==> GpsData::layout_spec() is Unique && key_pos(old(self).staged.gps_data.rows(), data.values()[0]->Text_0) is Some
                },
            },
            unchanged_except(old(self).staged, final(self).staged, TableId::GpsData),
            only_readings(final(self).staged),
    {
        self.staged.insert_gps_data(data)
    }

    /// Stages a reading for `heart_rate_data`.
    pub fn insert_heart_rate_data(&mut self, data: &HeartRateData) -> (r: Result<(), StoreError>)
        requires
            only_readings(old(self).staged),
        ensures
            match r {
                Ok(()) => {
                    &&& all_fit(HeartRateData::schema_spec(), data.values())
                    &&& !(HeartRateData::layout_spec() is Unique && key_pos(old(self).staged.heart_rate_data.rows(), data.values()[0]->Text_0) is Some)
                    &&& final(self).staged.heart_rate_data.rows() == inserted(HeartRateData::layout_spec(), old(self).staged.heart_rate_data.rows(), data.values())
                },
                Err(e) => {
                    &&& final(self).staged.heart_rate_data.rows() == old(self).staged.heart_rate_data.rows()
                    &&& e == StoreError::InvalidRecord <==> !all_fit(HeartRateData::schema_spec(), data.values())
                    &&& e == StoreError::InvalidRecord || e == StoreError::DuplicateKey
                    &&& e == StoreError::DuplicateKey ==> HeartRateData::layout_spec() is Unique && key_pos(old(self).staged.heart_rate_data.rows(), data.values()[0]->Text_0) is Some
                },
            },
            unchanged_except(old(self).staged, final(self).staged, TableId::HeartRateData),
            only_readings(final(self).staged),
    {
        self.staged.insert_heart_rate_data(data)
    }

    /// Stages a reading for `ecg_data`.
    pub fn insert_ecg_data(&mut self, data: &ECGData) -> (r: Result<(), StoreError>)
        requires
            only_readings(old(self).staged),
        ensures
            match r {
                Ok(()) => {
                    &&& all_fit(ECGData::schema_spec(), data.values())
                    &&& !(ECGData::layout_spec() is Unique && key_pos(old(self).staged.ecg_data.rows(), data.values()[0]->Text_0) is Some)
                    &&& final(self).staged.ecg_data.rows() == inserted(ECGData::layout_spec(), old(self).staged.ecg_data.rows(), data.values())
                },
                Err(e) => {
                    &&& final(self).staged.ecg_data.rows() == old(self).staged.ecg_data.rows()
                    &&& e == StoreError::InvalidRecord <==> !all_fit(ECGData::schema_spec(), data.values())
                    &&& e == StoreError::InvalidRecord || e == StoreError::DuplicateKey
                    &&& e == StoreError::DuplicateKey ==> ECGData::layout_spec() is Unique && key_pos(old(self).staged.ecg_data.rows(), data.values()[0]->Text_0) is Some
                },
            },
            unchanged_except(old(self).staged, final(self).staged, TableId::EcgData),
            only_readings(final(self).staged),
    {
        self.staged.insert_ecg_data(data)
    }

    /// Stages a reading for `blood_oxygen_data`.
    pub fn insert_blood_oxygen_data(&mut self, data: &BloodOxygenData) -> (r: Result<(), StoreError>)
        requires
            only_readings(old(self).staged),
        ensures
            match r {
                Ok(()) => {
                    &&& all_fit(BloodOxygenData::schema_spec(), data.values())
                    &&& !(BloodOxygenData::layout_spec() is Unique && key_pos(old(self).staged.blood_oxygen_data.rows(), data.values()[0]->Text_0) is Some)
                    &&& final(self).staged.blood_oxygen_data.rows() == inserted(BloodOxygenData::layout_spec(), old(self).staged.blood_oxygen_data.rows(), data.values())
                },
                Err(e) => {
                    &&& final(self).staged.blood_oxygen_data.rows() == old(self).staged.blood_oxygen_data.rows()
                    &&& e == StoreError::InvalidRecord <==> !all_fit(BloodOxygenData::schema_spec(), data.values())
                    &&& e == StoreError::InvalidRecord || e == StoreError::DuplicateKey
                    &&& e == StoreError::DuplicateKey ==> BloodOxygenData::layout_spec() is Unique && key_pos(old(self).staged.blood_oxygen_data.rows(), data.values()[0]->Text_0) is Some
                },
            },
            unchanged_except(old(self).staged, final(self).staged, TableId::BloodOxygenData),
            only_readings(final(self).staged),
    {
        self.staged.insert_blood_oxygen_data(data)
    }

    /// Stages a reading for `stress_data`.
    pub fn insert_stress_data(&mut self, data: &StressData) -> (r: Result<(), StoreError>)
        requires
            only_readings(old(self).staged),
        ensures
            match r {
                Ok(()) => {
                    &&& all_fit(StressData::schema_spec(), data.values())
                    &&& !(StressData::layout_spec() is Unique && key_pos(old(self).staged.stress_data.rows(), data.values()[0]->Text_0) is Some)
                    &&& final(self).staged.stress_data.rows() == inserted(StressData::layout_spec(), old(self).staged.stress_data.rows(), data.values())
                },
                Err(e) => {
                    &&& final(self).staged.stress_data.rows() == old(self).staged.stress_data.rows()
                    &&& e == StoreError::InvalidRecord <==> !all_fit(StressData::schema_spec(), data.values())
                    &&& e == StoreError::InvalidRecord || e == StoreError::DuplicateKey
                    &&& e == StoreError::DuplicateKey ==> StressData::layout_spec() is Unique && key_pos(old(self).staged.stress_data.rows(), data.values()[0]->Text_0) is Some
                },
            },
            unchanged_except(old(self).staged, final(self).staged, TableId::StressData),
            only_readings(final(self).staged),
    {
        self.staged.insert_stress_data(data)
    }

    /// Stages a reading for `proximity_data`.
    pub fn insert_proximity_data(&mut self, data: &ProximityData) -> (r: Result<(), StoreError>)
        requires
            only_readings(old(self).staged),
        ensures
            match r {
                Ok(()) => {
                    &&& all_fit(ProximityData::schema_spec(), data.values())
                    &&& !(ProximityData::layout_spec() is Unique && key_pos(old(self).staged.proximity_data.rows(), data.values()[0]->Text_0) is Some)
                    &&& final(self).staged.proximity_data.rows() == inserted(ProximityData::layout_spec(), old(self).staged.proximity_data.rows(), data.values())
                },
                Err(e) => {
                    &&& final(self).staged.proximity_data.rows() == old(self).staged.proximity_data.rows()
                    &&& e == StoreError::InvalidRecord <==> !all_fit(ProximityData::schema_spec(), data.values())
                    &&& e == StoreError::InvalidRecord || e == StoreError::DuplicateKey
                    &&& e == StoreError::DuplicateKey ==> ProximityData::layout_spec() is Unique && key_pos(old(self).staged.proximity_data.rows(), data.values()[0]->Text_0) is Some
                },
            },
            unchanged_except(old(self).staged, final(self).staged, TableId::ProximityData),
            only_readings(final(self).staged),
    {
        self.staged.insert_proximity_data(data)
    }

    /// Stages a reading for `light_data`.
    pub fn insert_light_data(&mut self, data: &LightData) -> (r: Result<(), StoreError>)
        requires
            only_readings(old(self).staged),
        ensures
            match r {
                Ok(()) => {
                    &&& all_fit(LightData::schema_spec(), data.values())
                    &&& !(LightData::layout_spec() is Unique && key_pos(old(self).staged.light_data.rows(), data.values()[0]->Text_0) is Some)
                    &&& final(self).staged.light_data.rows() == inserted(LightData::layout_spec(), old(self).staged.light_data.rows(), data.values())
                },
                Err(e) => {
                    &&& final(self).staged.light_data.rows() == old(self).staged.light_data.rows()
                    &&& e == StoreError::InvalidRecord <==> !all_fit(LightData::schema_spec(), data.values())
                    &&& e == StoreError::InvalidRecord || e == StoreError::DuplicateKey
                    &&& e == StoreError::DuplicateKey ==> LightData::layout_spec() is Unique && key_pos(old(self).staged.light_data.rows(), data.values()[0]->Text_0) is Some
                },
            },
            unchanged_except(old(self).staged, final(self).staged, TableId::LightData),
            only_readings(final(self).staged),
    {
        self.staged.insert_light_data(data)
    }

    /// Stages a reading for `pressure_data`.
    pub fn insert_pressure_data(&mut self, data: &PressureData) -> (r: Result<(), StoreError>)
        requires
            only_readings(old(self).staged),
        ensures
            match r {
                Ok(()) => {
                    &&& all_fit(PressureData::schema_spec(), data.values())
                    &&& !(PressureData::layout_spec() is Unique && key_pos(old(self).staged.pressure_data.rows(), data.values()[0]->Text_0) is Some)
                    &&& final(self).staged.pressure_data.rows() == inserted(PressureData::layout_spec(), old(self).staged.pressure_data.rows(), data.values())
                },
                Err(e) => {
                    &&& final(self).staged.pressure_data.rows() == old(self).staged.pressure_data.rows()
                    &&& e == StoreError::InvalidRecord <==> !all_fit(PressureData::schema_spec(), data.values())
                    &&& e == StoreError::InvalidRecord || e == StoreError::DuplicateKey
                    &&& e == StoreError::DuplicateKey ==> PressureData::layout_spec() is Unique && key_pos(old(self).staged.pressure_data.rows(), data.values()[0]->Text_0) is Some
                },
            },
            unchanged_except(old(self).staged, final(self).staged, TableId::PressureData),
            only_readings(final(self).staged),
    {
        self.staged.insert_pressure_data(data)
    }

    /// Stages a reading for `temperature_data`.
    pub fn insert_temperature_data(&mut self, data: &TemperatureData) -> (r: Result<(), StoreError>)
        requires
            only_readings(old(self).staged),
        ensures
            match r {
                Ok(()) => {
                    &&& all_fit(TemperatureData::schema_spec(), data.values())
                    &&& !(TemperatureData::layout_spec() is Unique && key_pos(old(self).staged.temperature_data.rows(), data.values()[0]->Text_0) is Some)
                    &&& final(self).staged.temperature_data.rows() == inserted(TemperatureData::layout_spec(), old(self).staged.temperature_data.rows(), data.values())
                },
                Err(e) => {
                    &&& final(self).staged.temperature_data.rows() == old(self).staged.temperature_data.rows()
                    &&& e == StoreError::InvalidRecord <==> !all_fit(TemperatureData::schema_spec(), data.values())
                    &&& e == StoreError::InvalidRecord || e == StoreError::DuplicateKey
                    &&& e == StoreError::DuplicateKey ==> TemperatureData::layout_spec() is Unique && key_pos(old(self).staged.temperature_data.rows(), data.values()[0]->Text_0) is Some
                },
            },
            unchanged_except(old(self).staged, final(self).staged, TableId::TemperatureData),
            only_readings(final(self).staged),
    {
        self.staged.insert_temperature_data(data)
    }

    /// Stages a reading for `humidity_data`.
    pub fn insert_humidity_data(&mut self, data: &HumidityData) -> (r: Result<(), StoreError>)
        requires
            only_readings(old(self).staged),
        ensures
            match r {
                Ok(()) => {
                    &&& all_fit(HumidityData::schema_spec(), data.values())
                    &&& !(HumidityData::layout_spec() is Unique && key_pos(old(self).staged.humidity_data.rows(), data.values()[0]->Text_0) is Some)
                    &&& final(self).staged.humidity_data.rows() == inserted(HumidityData::layout_spec(), old(self).staged.humidity_data.rows(), data.values())
                },
                Err(e) => {
                    &&& final(self).staged.humidity_data.rows() == old(self).staged.humidity_data.rows()
                    &&& e == StoreError::InvalidRecord <==> !all_fit(HumidityData::schema_spec(), data.values())
                    &&& e == StoreError::InvalidRecord || e == StoreError::DuplicateKey
                    &&& e == StoreError::DuplicateKey ==> HumidityData::layout_spec() is Unique && key_pos(old(self).staged.humidity_data.rows(), data.values()[0]->Text_0) is Some
                },
            },
            unchanged_except(old(self).staged, final(self).staged, TableId::HumidityData),
            only_readings(final(self).staged),
    {
        self.staged.insert_humidity_data(data)
    }

    /// Stages a reading for `step_count_data`.
    pub fn insert_step_count_data(&mut self, data: &StepCountData) -> (r: Result<(), StoreError>)
        requires
            only_readings(old(self).staged),
        ensures
            match r {
                Ok(()) => {
                    &&& all_fit(StepCountData::schema_spec(), data.values())
                    &&& !(StepCountData::layout_spec() is Unique && key_pos(old(self).staged.step_count_data.rows(), data.values()[0]->Text_0) is Some)
                    &&& final(self).staged.step_count_data.rows() == inserted(StepCountData::layout_spec(), old(self).staged.step_count_data.rows(), data.values())
                },
                Err(e) => {
                    &&& final(self).staged.step_count_data.rows() == old(self).staged.step_count_data.rows()
                    &&& e == StoreError::InvalidRecord <==> !all_fit(StepCountData::schema_spec(), data.values())
                    &&& e == StoreError::InvalidRecord || e == StoreError::DuplicateKey
                    &&& e == StoreError::DuplicateKey ==> StepCountData::layout_spec() is Unique && key_pos(old(self).staged.step_count_data.rows(), data.values()[0]->Text_0) is Some
                },
            },
            unchanged_except(old(self).staged, final(self).staged, TableId::StepCountData),
            only_readings(final(self).staged),
    {
        self.staged.insert_step_count_data(data)
    }

    /// Stages a reading for `audio_level_data`.
    pub fn insert_audio_level_data(&mut self, data: &AudioLevelData) -> (r: Result<(), StoreError>)
        requires
            only_readings(old(self).staged),
        ensures
            match r {
                Ok(()) => {
                    &&& all_fit(AudioLevelData::schema_spec(), data.values())
                    &&& !(AudioLevelData::layout_spec() is Unique && key_pos(old(self).staged.audio_level_data.rows(), data.values()[0]->Text_0) is Some)
                    &&& final(self).staged.audio_level_data.rows() == inserted(AudioLevelData::layout_spec(), old(self).staged.audio_level_data.rows(), data.values())
                },
                Err(e) => {
                    &&& final(self).staged.audio_level_data.rows() == old(self).staged.audio_level_data.rows()
                    &&& e == StoreError::InvalidRecord <==> !all_fit(AudioLevelData::schema_spec(), data.values())
                    &&& e == StoreError::InvalidRecord || e == StoreError::DuplicateKey
                    &&& e == StoreError::DuplicateKey ==> AudioLevelData::layout_spec() is Unique && key_pos(old(self).staged.audio_level_data.rows(), data.values()[0]->Text_0) is Some
                },
            },
            unchanged_except(old(self).staged, final(self).staged, TableId::AudioLevelData),
            only_readings(final(self).staged),
    {
        self.staged.insert_audio_level_data(data)
    }

    /// Stages a reading for `battery_data`.
    pub fn insert_battery_data(&mut self, data: &BatteryData) -> (r: Result<(), StoreError>)
        requires
            only_readings(old(self).staged),
        ensures
            match r {
                Ok(()) => {
                    &&& all_fit(BatteryData::schema_spec(), data.values())
                    &&& !(BatteryData::layout_spec() is Unique && key_pos(old(self).staged.battery_data.rows(), data.values()[0]->Text_0) is Some)
                    &&& final(self).staged.battery_data.rows() == inserted(BatteryData::layout_spec(), old(self).staged.battery_data.rows(), data.values())
                },
                Err(e) => {
                    &&& final(self).staged.battery_data.rows() == old(self).staged.battery_data.rows()
                    &&& e == StoreError::InvalidRecord <==> !all_fit(BatteryData::schema_spec(), data.values())
                    &&& e == StoreError::InvalidRecord || e == StoreError::DuplicateKey
                    &&& e == StoreError::DuplicateKey ==> BatteryData::layout_spec() is Unique && key_pos(old(self).staged.battery_data.rows(), data.values()[0]->Text_0) is Some
                },
            },
            unchanged_except(old(self).staged, final(self).staged, TableId::BatteryData),
            only_readings(final(self).staged),
    {
        self.staged.insert_battery_data(data)
    }

    /// Stages a reading for `network_data`.
    pub fn insert_network_data(&mut self, data: &NetworkData) -> (r: Result<(), StoreError>)
        requires
            only_readings(old(self).staged),
        ensures
            match r {
                Ok(()) => {
                    &&& all_fit(NetworkData::schema_spec(), data.values())
                    &&& !(NetworkData::layout_spec() is Unique && key_pos(old(self).staged.network_data.rows(), data.values()[0]->Text_0) is Some)
                    &&& final(self).staged.network_data.rows() == inserted(NetworkData::layout_spec(), old(self).staged.network_data.rows(), data.values())
                },
                Err(e) => {
                    &&& final(self).staged.network_data.rows() == old(self).staged.network_data.rows()
                    &&& e == StoreError::InvalidRecord <==> !all_fit(NetworkData::schema_spec(), data.values())
                    &&& e == StoreError::InvalidRecord || e == StoreError::DuplicateKey
                    &&& e == StoreError::DuplicateKey ==> NetworkData::layout_spec() is Unique && key_pos(old(self).staged.network_data.rows(), data.values()[0]->Text_0) is Some
                },
            },
            unchanged_except(old(self).staged, final(self).staged, TableId::NetworkData),
            only_readings(final(self).staged),
    {
        self.staged.insert_network_data(data)
    }

    /// Stages a reading for `screen_state_data`.
    pub fn insert_screen_state_data(&mut self, data: &ScreenStateData) -> (r: Result<(), StoreError>)
        requires
            only_readings(old(self).staged),
        ensures
            match r {
                Ok(()) => {
                    &&& all_fit(ScreenStateData::schema_spec(), data.values())
                    &&& !(ScreenStateData::layout_spec() is Unique && key_pos(old(self).staged.screen_state_data.rows(), data.values()[0]->Text_0) is Some)
                    &&& final(self).staged.screen_state_data.rows() == inserted(ScreenStateData::layout_spec(), old(self).staged.screen_state_data.rows(), data.values())
                },
                Err(e) => {
                    &&& final(self).staged.screen_state_data.rows() == old(self).staged.screen_state_data.rows()
                    &&& e == StoreError::InvalidRecord <==> !all_fit(ScreenStateData::schema_spec(), data.values())
                    &&& e == StoreError::InvalidRecord || e == StoreError::DuplicateKey
                    &&& e == StoreError::DuplicateKey ==> ScreenStateData::layout_spec() is Unique && key_pos(old(self).staged.screen_state_data.rows(), data.values()[0]->Text_0) is Some
                },
            },
            unchanged_except(old(self).staged, final(self).staged, TableId::ScreenStateData),
            only_readings(final(self).staged),
    {
        self.staged.insert_screen_state_data(data)
    }

    /// Stages a reading for `todos_data`.
    pub fn insert_todos_data(&mut self, data: &TodosData) -> (r: Result<(), StoreError>)
        requires
            only_readings(old(self).staged),
        ensures
            match r {
                Ok(()) => {
                    &&& all_fit(TodosData::schema_spec(), data.values())
                    &&& !(TodosData::layout_spec() is Unique && key_pos(old(self).staged.todos_data.rows(), data.values()[0]->Text_0) is Some)
                    &&& final(self).staged.todos_data.rows() == inserted(TodosData::layout_spec(), old(self).staged.todos_data.rows(), data.values())
                },
                Err(e) => {
                    &&& final(self).staged.todos_data.rows() == old(self).staged.todos_data.rows()
                    &&& e == StoreError::InvalidRecord <==> !all_fit(TodosData::schema_spec(), data.values())
                    &&& e == StoreError::InvalidRecord || e == StoreError::DuplicateKey
                    &&& e == StoreError::DuplicateKey ==> TodosData::layout_spec() is Unique && key_pos(old(self).staged.todos_data.rows(), data.values()[0]->Text_0) is Some
                },
            },
            unchanged_except(old(self).staged, final(self).staged, TableId::TodosData),
            only_readings(final(self).staged),
    {
        self.staged.insert_todos_data(data)
    }

    /// Stages a reading for `camera_data`.
    pub fn insert_camera_data(&mut self, data: &CameraData) -> (r: Result<(), StoreError>)
        requires
            only_readings(old(self).staged),
        ensures
            match r {
                Ok(()) => {
                    &&& all_fit(CameraData::schema_spec(), data.values())
                    &&& !(CameraData::layout_spec() is Unique && key_pos(old(self).staged.camera_data.rows(), data.values()[0]->Text_0) is Some)
                    &&& final(self).staged.camera_data.rows() == inserted(CameraData::layout_spec(), old(self).staged.camera_data.rows(), data.values())
                },
                Err(e) => {
                    &&& final(self).staged.camera_data.rows() == old(self).staged.camera_data.rows()
                    &&& e == StoreError::InvalidRecord <==> !all_fit(CameraData::schema_spec(), data.values())
                    &&& e == StoreError::InvalidRecord || e == StoreError::DuplicateKey
                    &&& e == StoreError::DuplicateKey ==> CameraData::layout_spec() is Unique && key_pos(old(self).staged.camera_data.rows(), data.values()[0]->Text_0) is Some
                },
            },
            unchanged_except(old(self).staged, final(self).staged, TableId::CameraData),
            only_readings(final(self).staged),
    {
        self.staged.insert_camera_data(data)
    }

    /// Stages a reading for `app_usage_data`.
    pub fn insert_app_usage_data(&mut self, data: &AppUsageData) -> (r: Result<(), StoreError>)
        requires
            only_readings(old(self).staged),
        ensures
            match r {
                Ok(()) => {
                    &&& all_fit(AppUsageData::schema_spec(), data.values())
                    &&& !(AppUsageData::layout_spec() is Unique && key_pos(old(self).staged.app_usage_data.rows(), data.values()[0]->Text_0) is Some)
                    &&& final(self).staged.app_usage_data.rows() == inserted(AppUsageData::layout_spec(), old(self).staged.app_usage_data.rows(), data.values())
                },
                Err(e) => {
                    &&& final(self).staged.app_usage_data.rows() == old(self).staged.app_usage_data.rows()
                    &&& e == StoreError::InvalidRecord <==> !all_fit(AppUsageData::schema_spec(), data.values())
                    &&& e == StoreError::InvalidRecord || e == StoreError::DuplicateKey
                    &&& e == StoreError::DuplicateKey ==> AppUsageData::layout_spec() is Unique && key_pos(old(self).staged.app_usage_data.rows(), data.values()[0]->Text_0) is Some
                },
            },
            unchanged_except(old(self).staged, final(self).staged, TableId::AppUsageData),
            only_readings(final(self).staged),
    {
        self.staged.insert_app_usage_data(data)
    }

    /// Stages a reading for `wifi_data`.
    pub fn insert_wifi_data(&mut self, data: &WifiData) -> (r: Result<(), StoreError>)
        requires
            only_readings(old(self).staged),
        ensures
            match r {
                Ok(()) => {
                    &&& all_fit(WifiData::schema_spec(), data.values())
                    &&& !(WifiData::layout_spec() is Unique && key_pos(old(self).staged.wifi_data.rows(), data.values()[0]->Text_0) is Some)
                    &&& final(self).staged.wifi_data.rows() == inserted(WifiData::layout_spec(), old(self).staged.wifi_data.rows(), data.values())
                },
                Err(e) => {
                    &&& final(self).staged.wifi_data.rows() == old(self).staged.wifi_data.rows()
                    &&& e == StoreError::InvalidRecord <==> !all_fit(WifiData::schema_spec(), data.values())
                    &&& e == StoreError::InvalidRecord || e == StoreError::DuplicateKey
                    &&& e == StoreError::DuplicateKey ==> WifiData::layout_spec() is Unique && key_pos(old(self).staged.wifi_data.rows(), data.values()[0]->Text_0) is Some
                },
            },
            unchanged_except(old(self).staged, final(self).staged, TableId::WifiData),
            only_readings(final(self).staged),
    {
        self.staged.insert_wifi_data(data)
    }

    /// Stages a reading for `call_log_data`.
    pub fn insert_call_log_data(&mut self, data: &CallLogData) -> (r: Result<(), StoreError>)
        requires
            only_readings(old(self).staged),
        ensures
            match r {
                Ok(()) => {
                    &&& all_fit(CallLogData::schema_spec(), data.values())
                    &&& !(CallLogData::layout_spec() is Unique && key_pos(old(self).staged.call_log_data.rows(), data.values()[0]->Text_0) is Some)
                    &&& final(self).staged.call_log_data.rows() == inserted(CallLogData::layout_spec(), old(self).staged.call_log_data.rows(), data.values())
                },
                Err(e) => {
                    &&& final(self).staged.call_log_data.rows() == old(self).staged.call_log_data.rows()
                    &&& e == StoreError::InvalidRecord <==> !all_fit(CallLogData::schema_spec(), data.values())
                    &&& e == StoreError::InvalidRecord || e == StoreError::DuplicateKey
                    &&& e == StoreError::DuplicateKey ==> CallLogData::layout_spec() is Unique && key_pos(old(self).staged.call_log_data.rows(), data.values()[0]->Text_0) is Some
                },
            },
            unchanged_except(old(self).staged, final(self).staged, TableId::CallLogData),
            only_readings(final(self).staged),
    {
        self.staged.insert_call_log_data(data)
    }

    /// Stages a reading for `notification_data`.
    pub fn insert_notification_data(&mut self, data: &NotificationData) -> (r: Result<(), StoreError>)
        requires
            only_readings(old(self).staged),
        ensures
            match r {
                Ok(()) => {
                    &&& all_fit(NotificationData::schema_spec(), data.values())
                    &&& !(NotificationData::layout_spec() is Unique && key_pos(old(self).staged.notification_data.rows(), data.values()[0]->Text_0) is Some)
                    &&& final(self).staged.notification_data.rows() == inserted(NotificationData::layout_spec(), old(self).staged.notification_data.rows(), data.values())
                },
                Err(e) => {
                    &&& final(self).staged.notification_data.rows() == old(self).staged.notification_data.rows()
                    &&& e == StoreError::InvalidRecord <==> !all_fit(NotificationData::schema_spec(), data.values())
                    &&& e == StoreError::InvalidRecord || e == StoreError::DuplicateKey
                    &&& e == StoreError::DuplicateKey ==> NotificationData::layout_spec() is Unique && key_pos(old(self).staged.notification_data.rows(), data.values()[0]->Text_0) is Some
                },
            },
            unchanged_except(old(self).staged, final(self).staged, TableId::NotificationData),
            only_readings(final(self).staged),
    {
        self.staged.insert_notification_data(data)
    }

    /// Discards every staged write.
    pub fn rollback(self) {
    }

    /// Appends every staged reading to its table of `db`, in the order staged.
    pub fn commit(self, db: &mut Database)
        requires
            only_readings(self.staged),
        ensures
            final(db).accelerometer_data.rows() == old(db).accelerometer_data.rows() + self.staged.accelerometer_data.rows(),
            final(db).gyroscope_data.rows() == old(db).gyroscope_data.rows() + self.staged.gyroscope_data.rows(),
            final(db).magnetometer_data.rows() == old(db).magnetometer_data.rows() + self.staged.magnetometer_data.rows(),
            final(db).gps_data.rows() == old(db).gps_data.rows() + self.staged.gps_data.rows(),
            final(db).heart_rate_data.rows() == old(db).heart_rate_data.rows() + self.staged.heart_rate_data.rows(),
            final(db).ecg_data.rows() == old(db).ecg_data.rows() + self.staged.ecg_data.rows(),
            final(db).blood_oxygen_data.rows() == old(db).blood_oxygen_data.rows() + self.staged.blood_oxygen_data.rows(),
            final(db).stress_data.rows() == old(db).stress_data.rows() + self.staged.stress_data.rows(),
            final(db).proximity_data.rows() == old(db).proximity_data.rows() + self.staged.proximity_data.rows(),
            final(db).light_data.rows() == old(db).light_data.rows() + self.staged.light_data.rows(),
            final(db).pressure_data.rows() == old(db).pressure_data.rows() + self.staged.pressure_data.rows(),
            final(db).temperature_data.rows() == old(db).temperature_data.rows() + self.staged.temperature_data.rows(),
            final(db).humidity_data.rows() == old(db).humidity_data.rows() + self.staged.humidity_data.rows(),
            final(db).step_count_data.rows() == old(db).step_count_data.rows() + self.staged.step_count_data.rows(),
            final(db).audio_level_data.rows() == old(db).audio_level_data.rows() + self.staged.audio_level_data.rows(),
            final(db).battery_data.rows() == old(db).battery_data.rows() + self.staged.battery_data.rows(),
            final(db).network_data.rows() == old(db).network_data.rows() + self.staged.network_data.rows(),
            final(db).screen_state_data.rows() == old(db).screen_state_data.rows() + self.staged.screen_state_data.rows(),
            final(db).todos_data.rows() == old(db).todos_data.rows() + self.staged.todos_data.rows(),
            final(db).camera_data.rows() == old(db).camera_data.rows() + self.staged.camera_data.rows(),
            final(db).app_usage_data.rows() == old(db).app_usage_data.rows() + self.staged.app_usage_data.rows(),
            final(db).wifi_data.rows() == old(db).wifi_data.rows() + self.staged.wifi_data.rows(),
            final(db).call_log_data.rows() == old(db).call_log_data.rows() + self.staged.call_log_data.rows(),
            final(db).notification_data.rows() == old(db).notification_data.rows() + self.staged.notification_data.rows(),
            final(db).users == old(db).users,
            final(db).oauth_accounts == old(db).oauth_accounts,
            final(db).sessions == old(db).sessions,
            final(db).notes == old(db).notes,
            final(db).known_entities == old(db).known_entities,
            final(db).retention_config == old(db).retention_config,
            final(db).sync_priority_config == old(db).sync_priority_config,
            final(db).note_references == old(db).note_references,
            final(db).devices_view() == old(db).devices_view(),
    {
        let staged = self.staged;
        db.accelerometer_data.append_all(staged.accelerometer_data);
        db.gyroscope_data.append_all(staged.gyroscope_data);
        db.magnetometer_data.append_all(staged.magnetometer_data);
        db.gps_data.append_all(staged.gps_data);
        db.heart_rate_data.append_all(staged.heart_rate_data);
        db.ecg_data.append_all(staged.ecg_data);
        db.blood_oxygen_data.append_all(staged.blood_oxygen_data);
        db.stress_data.append_all(staged.stress_data);
        db.proximity_data.append_all(staged.proximity_data);
        db.light_data.append_all(staged.light_data);
        db.pressure_data.append_all(staged.pressure_data);
        db.temperature_data.append_all(staged.temperature_data);
        db.humidity_data.append_all(staged.humidity_data);
        db.step_count_data.append_all(staged.step_count_data);
        db.audio_level_data.append_all(staged.audio_level_data);
        db.battery_data.append_all(staged.battery_data);
        db.network_data.append_all(staged.network_data);
        db.screen_state_data.append_all(staged.screen_state_data);
        db.todos_data.append_all(staged.todos_data);
        db.camera_data.append_all(staged.camera_data);
        db.app_usage_data.append_all(staged.app_usage_data);
        db.wifi_data.append_all(staged.wifi_data);
        db.call_log_data.append_all(staged.call_log_data);
        db.notification_data.append_all(staged.notification_data);
    }
}

} // verus!
