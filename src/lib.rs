//! Local persistence core of a multi-device telemetry store: typed record
//! schemas, a JSON document codec with defaulting rules, an in-memory storage
//! engine with scoped transactions, and lifecycle policy records.
pub mod text;
pub mod time;
pub mod types;
pub mod value;
pub mod schema;
pub mod codec;
pub mod record;
pub mod fields;
pub mod sensor;
pub mod device;
pub mod user;
pub mod note;
pub mod config;
pub mod defaults;
pub mod table;
pub mod db;
