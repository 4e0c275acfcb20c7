//! Devices and the capability profile they declare.
use vstd::prelude::*;
use crate::time::Timestamp;
use crate::types::DeviceType;
use crate::value::copy_texts;
use crate::value::texts_view;

verus! {


/// Screen geometry of a device; `density` is IEEE-754 single-precision bits.
#[derive(Debug, Clone, Copy, PartialEq, Eq, Structural)]
pub struct ScreenDetails {
    pub width: i32,
    pub height: i32,
    /// IEEE-754 single-precision bits.
    pub density: u32,
    pub refresh_rate: i32,
}

/// Which sensors a device has, and its screen. A refresh replaces the whole profile.
#[derive(Debug, Clone, Copy, PartialEq, Eq, Structural)]
pub struct DeviceCapabilities {
    pub has_camera: bool,
    pub has_microphone: bool,
    pub has_gps: bool,
    pub has_accelerometer: bool,
    pub has_gyroscope: bool,
    pub has_magnetometer: bool,
    pub has_proximity: bool,
    pub has_light: bool,
    pub has_pressure: bool,
    pub has_temperature: bool,
    pub has_humidity: bool,
    pub has_step_counter: bool,
    pub has_heart_rate: bool,
    pub has_ecg: bool,
    pub has_blood_oxygen: bool,
    pub has_stress: bool,
    pub has_compass: bool,
    pub screen_details: ScreenDetails,
}

/// A paired device, owned by a user.
#[derive(Debug, Clone, PartialEq)]
pub struct Device {
    pub device_id: String,
    pub user_id: String,
    pub device_type: DeviceType,
    pub os_type: String,
    pub os_version: String,
    pub app_version: String,
    pub available_sensors: Vec<String>,
    pub capabilities: DeviceCapabilities,
    pub created_at: Timestamp,
    pub last_seen: Timestamp,
    pub updated_at: Timestamp,
}

impl Device {
    /// A device at its first pairing: it was last seen, and last updated, when it was created.
    pub fn new(
        device_id: String,
        user_id: String,
        device_type: DeviceType,
        os_type: String,
        os_version: String,
        app_version: String,
        available_sensors: Vec<String>,
        capabilities: DeviceCapabilities,
        created_at: Timestamp,
    ) -> (r: Device)
        ensures
            r.device_id == device_id,
            r.user_id == user_id,
            r.device_type == device_type,
            r.os_type == os_type,
            r.os_version == os_version,
            r.app_version == app_version,
            r.available_sensors == available_sensors,
            r.capabilities == capabilities,
            r.created_at == created_at,
            r.last_seen == created_at,
            r.updated_at == created_at,
    {
        Device {
            device_id,
            user_id,
            device_type,
            os_type,
            os_version,
            app_version,
            available_sensors,
            capabilities,
            created_at,
            last_seen: created_at,
            updated_at: created_at,
        }
    }

    /// Records a heartbeat at `at`: `last_seen` never moves back.
    pub fn heartbeat(&mut self, at: Timestamp)
        ensures
            final(self).last_seen.micros == if at.micros > old(self).last_seen.micros {
                at.micros
            } else {
                old(self).last_seen.micros
            },
            final(self).last_seen.micros >= old(self).last_seen.micros,
            final(self).updated_at.micros == if at.micros > old(self).updated_at.micros {
                at.micros
            } else {
                old(self).updated_at.micros
            },
            final(self).device_id == old(self).device_id,
            final(self).user_id == old(self).user_id,
            final(self).available_sensors == old(self).available_sensors,
            final(self).capabilities == old(self).capabilities,
            final(self).created_at == old(self).created_at,
    {
        if at.micros > self.last_seen.micros {
            self.last_seen = at;
        }
        if at.micros > self.updated_at.micros {
            self.updated_at = at;
        }
    }

    /// Replaces the whole capability profile, as a heartbeat at `at` that carries it.
    pub fn refresh_capabilities(&mut self, capabilities: DeviceCapabilities, at: Timestamp)
        ensures
            final(self).capabilities == capabilities,
            final(self).last_seen.micros >= old(self).last_seen.micros,
            final(self).last_seen.micros >= at.micros,
            final(self).device_id == old(self).device_id,
            final(self).created_at == old(self).created_at,
    {
        self.capabilities = capabilities;
        self.heartbeat(at);
    }

    /// A copy with the same contents.
    pub fn duplicate(&self) -> (r: Device)
        ensures
            r.device_id@ == self.device_id@,
            r.user_id@ == self.user_id@,
            r.device_type == self.device_type,
            r.os_type@ == self.os_type@,
            r.os_version@ == self.os_version@,
            r.app_version@ == self.app_version@,
            texts_view(r.available_sensors@) == texts_view(self.available_sensors@),
            r.capabilities == self.capabilities,
            r.created_at == self.created_at,
            r.last_seen == self.last_seen,
            r.updated_at == self.updated_at,
    {
        Device {
            device_id: self.device_id.clone(),
            user_id: self.user_id.clone(),
            device_type: self.device_type,
            os_type: self.os_type.clone(),
            os_version: self.os_version.clone(),
            app_version: self.app_version.clone(),
            available_sensors: copy_texts(&self.available_sensors),
            capabilities: self.capabilities,
            created_at: self.created_at,
            last_seen: self.last_seen,
            updated_at: self.updated_at,
        }
    }
}

} // verus!
