//! Sensor and event readings, each owned by the device that produced it.
use vstd::prelude::*;
use crate::fields::{bool_v, camera_type_v, connection_type_v, double_v, instant_v, int_v, opt_bool_v, opt_double_v, opt_entries_v, opt_instant_v, opt_int_v, opt_raw_v, opt_single_v, opt_singles_v, opt_text_v, opt_texts_v, put_bool, put_camera_type, put_connection_type, put_double, put_instant, put_int, put_opt_bool, put_opt_double, put_opt_entries, put_opt_instant, put_opt_int, put_opt_raw, put_opt_single, put_opt_singles, put_opt_text, put_opt_texts, put_single, put_singles, put_text, put_texts, single_v, singles_v, take_bool, take_camera_type, take_connection_type, take_double, take_instant, take_int, take_opt_bool, take_opt_double, take_opt_entries, take_opt_instant, take_opt_int, take_opt_raw, take_opt_single, take_opt_singles, take_opt_text, take_opt_texts, take_single, take_singles, take_text, take_texts, text_v, texts_v};
use crate::record::{marshal, slice_values, unmarshal, Fields, Layout, Record};
use crate::schema::{
    decode, doc_view, encode, fits, fits_type, schema_view, values_view, Choice, FieldSpec,
    FieldSpecView, FieldType, Presence, PresenceView, SchemaError, SchemaErrorKind,
};
use crate::time::Timestamp;
use crate::types::{DeviceType, CameraType, ConnectionType, EntityType, NotePriority, SyncPriority, CompressionAlgorithm};
use crate::value::{Document, Metadata, Value, ValueView};

verus! {

/// The location fix kind under its other name.
pub type GPSData = GpsData;

/// The fields every reading has.
#[derive(Debug, Clone, PartialEq)]
pub struct BaseData {
    pub timestamp: Timestamp,
    pub device_id: String,
    pub metadata: Option<Metadata>,
}

/// An accelerometer reading, in m/s² along each axis.
#[derive(Debug, Clone, PartialEq)]
pub struct AccelerometerData {
    pub timestamp: Timestamp,
    pub device_id: String,
    /// IEEE-754 single-precision bits.
    pub x: u32,
    /// IEEE-754 single-precision bits.
    pub y: u32,
    /// IEEE-754 single-precision bits.
    pub z: u32,
    /// IEEE-754 single-precision bits.
    pub accuracy: Option<u32>,
    pub metadata: Option<Metadata>,
}

impl Fields for AccelerometerData {
    open spec fn schema_spec() -> Seq<FieldSpecView> {
        seq![
            FieldSpecView { name: "timestamp"@, ty: FieldType::Instant, presence: PresenceView::Required },
            FieldSpecView { name: "device_id"@, ty: FieldType::Text, presence: PresenceView::Required },
            FieldSpecView { name: "x"@, ty: FieldType::Single, presence: PresenceView::Required },
            FieldSpecView { name: "y"@, ty: FieldType::Single, presence: PresenceView::Required },
            FieldSpecView { name: "z"@, ty: FieldType::Single, presence: PresenceView::Required },
            FieldSpecView { name: "accuracy"@, ty: FieldType::Single, presence: PresenceView::Optional },
            FieldSpecView { name: "metadata"@, ty: FieldType::Entries, presence: PresenceView::Optional },
        ]
    }

    open spec fn values(&self) -> Seq<ValueView> {
        seq![
            instant_v(self.timestamp),
            text_v(self.device_id),
            single_v(self.x),
            single_v(self.y),
            single_v(self.z),
            opt_single_v(self.accuracy),
            opt_entries_v(self.metadata),
        ]
    }

    open spec fn wf(&self) -> bool {
        self.timestamp.wf()
    }

    fn schema() -> (r: Vec<FieldSpec>) {
        let r = vec![
            FieldSpec { name: "timestamp", ty: FieldType::Instant, presence: Presence::Required },
            FieldSpec { name: "device_id", ty: FieldType::Text, presence: Presence::Required },
            FieldSpec { name: "x", ty: FieldType::Single, presence: Presence::Required },
            FieldSpec { name: "y", ty: FieldType::Single, presence: Presence::Required },
            FieldSpec { name: "z", ty: FieldType::Single, presence: Presence::Required },
            FieldSpec { name: "accuracy", ty: FieldType::Single, presence: Presence::Optional },
            FieldSpec { name: "metadata", ty: FieldType::Entries, presence: Presence::Optional },
        ];
        assert(schema_view(r@) =~= Self::schema_spec());
        r
    }

    fn to_values(&self) -> (r: Vec<Value>) {
        let r = vec![
            put_instant(&self.timestamp),
            put_text(&self.device_id),
            put_single(&self.x),
            put_single(&self.y),
            put_single(&self.z),
            put_opt_single(&self.accuracy),
            put_opt_entries(&self.metadata),
        ];
        assert(values_view(r@) =~= self.values());
        r
    }

    fn from_values(vals: &Vec<Value>) -> (r: Self) {
        proof {
            let s = Self::schema_spec();
            let v = values_view(vals@);
            assert(fits(s[0], v[0]));
            assert(fits(s[1], v[1]));
            assert(fits(s[2], v[2]));
            assert(fits(s[3], v[3]));
            assert(fits(s[4], v[4]));
            assert(fits(s[5], v[5]));
            assert(fits(s[6], v[6]));
        }
        let r = AccelerometerData {
            timestamp: take_instant(&vals[0]),
            device_id: take_text(&vals[1]),
            x: take_single(&vals[2]),
            y: take_single(&vals[3]),
            z: take_single(&vals[4]),
            accuracy: take_opt_single(&vals[5]),
            metadata: take_opt_entries(&vals[6]),
        };
        assert(r.values() =~= values_view(vals@));
        r
    }

    proof fn lemma_schema() {
        reveal_strlit("timestamp");
        reveal_strlit("device_id");
        reveal_strlit("x");
        reveal_strlit("y");
        reveal_strlit("z");
        reveal_strlit("accuracy");
        reveal_strlit("metadata");
        assert("timestamp"@.len() == 9 && "timestamp"@[0] == 't' && "timestamp"@[1] == 'i' && "timestamp"@[2] == 'm' && "timestamp"@[3] == 'e' && "timestamp"@[4] == 's' && "timestamp"@[5] == 't' && "timestamp"@[6] == 'a' && "timestamp"@[7] == 'm' && "timestamp"@[8] == 'p');
        assert("device_id"@.len() == 9 && "device_id"@[0] == 'd' && "device_id"@[1] == 'e' && "device_id"@[2] == 'v' && "device_id"@[3] == 'i' && "device_id"@[4] == 'c' && "device_id"@[5] == 'e' && "device_id"@[6] == '_' && "device_id"@[7] == 'i' && "device_id"@[8] == 'd');
        assert("x"@.len() == 1 && "x"@[0] == 'x');
        assert("y"@.len() == 1 && "y"@[0] == 'y');
        assert("z"@.len() == 1 && "z"@[0] == 'z');
        assert("accuracy"@.len() == 8 && "accuracy"@[0] == 'a' && "accuracy"@[1] == 'c' && "accuracy"@[2] == 'c' && "accuracy"@[3] == 'u' && "accuracy"@[4] == 'r' && "accuracy"@[5] == 'a' && "accuracy"@[6] == 'c' && "accuracy"@[7] == 'y');
        assert("metadata"@.len() == 8 && "metadata"@[0] == 'm' && "metadata"@[1] == 'e' && "metadata"@[2] == 't' && "metadata"@[3] == 'a' && "metadata"@[4] == 'd' && "metadata"@[5] == 'a' && "metadata"@[6] == 't' && "metadata"@[7] == 'a');
        let s = Self::schema_spec();
        assert forall|i: int| 0 <= i < s.len() implies match (#[trigger] s[i]).presence {
            PresenceView::Default(d) => fits_type(s[i].ty, d),
            _ => true,
        } by {
        }
    }

    proof fn lemma_fits(&self) {
        reveal(bool_v);
        let s = Self::schema_spec();
        let v = self.values();
        assert forall|i: int| 0 <= i < s.len() implies fits(#[trigger] s[i], v[i]) by {
            if i == 0 {
                assert(fits(s[0], v[0]));
            } else if i == 1 {
                assert(fits(s[1], v[1]));
            } else if i == 2 {
                assert(fits(s[2], v[2]));
            } else if i == 3 {
                assert(fits(s[3], v[3]));
            } else if i == 4 {
                assert(fits(s[4], v[4]));
            } else if i == 5 {
                assert(fits(s[5], v[5]));
            } else if i == 6 {
                assert(fits(s[6], v[6]));
            }
        }
    }
}

impl Record for AccelerometerData {
    open spec fn table_spec() -> Seq<char> {
        "accelerometer_data"@
    }

    open spec fn layout_spec() -> Layout {
        Layout::Timed
    }

    fn table_name() -> (r: &'static str) {
        "accelerometer_data"
    }

    fn layout() -> (r: Layout) {
        Layout::Timed
    }

    proof fn lemma_layout() {
        reveal_strlit("timestamp");
        reveal_strlit("device_id");
        assert("timestamp"@.len() == 9 && "timestamp"@[0] == 't' && "timestamp"@[1] == 'i' && "timestamp"@[2] == 'm' && "timestamp"@[3] == 'e' && "timestamp"@[4] == 's' && "timestamp"@[5] == 't' && "timestamp"@[6] == 'a' && "timestamp"@[7] == 'm' && "timestamp"@[8] == 'p');
        assert("device_id"@.len() == 9 && "device_id"@[0] == 'd' && "device_id"@[1] == 'e' && "device_id"@[2] == 'v' && "device_id"@[3] == 'i' && "device_id"@[4] == 'c' && "device_id"@[5] == 'e' && "device_id"@[6] == '_' && "device_id"@[7] == 'i' && "device_id"@[8] == 'd');
    }
}

impl AccelerometerData {
    /// The record's document.
    pub fn to_json(&self) -> (r: Document)
        ensures
            doc_view(r@) == encode(Self::schema_spec(), self.values()),
    {
        marshal(self)
    }

    /// The record that `doc` holds, or the error of the first field (in schema order)
    /// that it cannot give.
    pub fn from_json(doc: &Document) -> (r: Result<Self, SchemaError>)
        ensures
            match r {
                Ok(x) => decode(Self::schema_spec(), doc_view(doc@)) == Ok::<_, (SchemaErrorKind, Seq<char>)>(x.values()) && x.wf(),
                Err(e) => decode(Self::schema_spec(), doc_view(doc@)) == Err::<Seq<ValueView>, _>(e@),
            },
    {
        unmarshal(doc)
    }
}

/// A gyroscope reading, in rad/s about each axis.
#[derive(Debug, Clone, PartialEq)]
pub struct GyroscopeData {
    pub timestamp: Timestamp,
    pub device_id: String,
    /// IEEE-754 single-precision bits.
    pub x: u32,
    /// IEEE-754 single-precision bits.
    pub y: u32,
    /// IEEE-754 single-precision bits.
    pub z: u32,
    /// IEEE-754 single-precision bits.
    pub accuracy: Option<u32>,
    pub metadata: Option<Metadata>,
}

impl Fields for GyroscopeData {
    open spec fn schema_spec() -> Seq<FieldSpecView> {
        seq![
            FieldSpecView { name: "timestamp"@, ty: FieldType::Instant, presence: PresenceView::Required },
            FieldSpecView { name: "device_id"@, ty: FieldType::Text, presence: PresenceView::Required },
            FieldSpecView { name: "x"@, ty: FieldType::Single, presence: PresenceView::Required },
            FieldSpecView { name: "y"@, ty: FieldType::Single, presence: PresenceView::Required },
            FieldSpecView { name: "z"@, ty: FieldType::Single, presence: PresenceView::Required },
            FieldSpecView { name: "accuracy"@, ty: FieldType::Single, presence: PresenceView::Optional },
            FieldSpecView { name: "metadata"@, ty: FieldType::Entries, presence: PresenceView::Optional },
        ]
    }

    open spec fn values(&self) -> Seq<ValueView> {
        seq![
            instant_v(self.timestamp),
            text_v(self.device_id),
            single_v(self.x),
            single_v(self.y),
            single_v(self.z),
            opt_single_v(self.accuracy),
            opt_entries_v(self.metadata),
        ]
    }

    open spec fn wf(&self) -> bool {
        self.timestamp.wf()
    }

    fn schema() -> (r: Vec<FieldSpec>) {
        let r = vec![
            FieldSpec { name: "timestamp", ty: FieldType::Instant, presence: Presence::Required },
            FieldSpec { name: "device_id", ty: FieldType::Text, presence: Presence::Required },
            FieldSpec { name: "x", ty: FieldType::Single, presence: Presence::Required },
            FieldSpec { name: "y", ty: FieldType::Single, presence: Presence::Required },
            FieldSpec { name: "z", ty: FieldType::Single, presence: Presence::Required },
            FieldSpec { name: "accuracy", ty: FieldType::Single, presence: Presence::Optional },
            FieldSpec { name: "metadata", ty: FieldType::Entries, presence: Presence::Optional },
        ];
        assert(schema_view(r@) =~= Self::schema_spec());
        r
    }

    fn to_values(&self) -> (r: Vec<Value>) {
        let r = vec![
            put_instant(&self.timestamp),
            put_text(&self.device_id),
            put_single(&self.x),
            put_single(&self.y),
            put_single(&self.z),
            put_opt_single(&self.accuracy),
            put_opt_entries(&self.metadata),
        ];
        assert(values_view(r@) =~= self.values());
        r
    }

    fn from_values(vals: &Vec<Value>) -> (r: Self) {
        proof {
            let s = Self::schema_spec();
            let v = values_view(vals@);
            assert(fits(s[0], v[0]));
            assert(fits(s[1], v[1]));
            assert(fits(s[2], v[2]));
            assert(fits(s[3], v[3]));
            assert(fits(s[4], v[4]));
            assert(fits(s[5], v[5]));
            assert(fits(s[6], v[6]));
        }
        let r = GyroscopeData {
            timestamp: take_instant(&vals[0]),
            device_id: take_text(&vals[1]),
            x: take_single(&vals[2]),
            y: take_single(&vals[3]),
            z: take_single(&vals[4]),
            accuracy: take_opt_single(&vals[5]),
            metadata: take_opt_entries(&vals[6]),
        };
        assert(r.values() =~= values_view(vals@));
        r
    }

    proof fn lemma_schema() {
        reveal_strlit("timestamp");
        reveal_strlit("device_id");
        reveal_strlit("x");
        reveal_strlit("y");
        reveal_strlit("z");
        reveal_strlit("accuracy");
        reveal_strlit("metadata");
        assert("timestamp"@.len() == 9 && "timestamp"@[0] == 't' && "timestamp"@[1] == 'i' && "timestamp"@[2] == 'm' && "timestamp"@[3] == 'e' && "timestamp"@[4] == 's' && "timestamp"@[5] == 't' && "timestamp"@[6] == 'a' && "timestamp"@[7] == 'm' && "timestamp"@[8] == 'p');
        assert("device_id"@.len() == 9 && "device_id"@[0] == 'd' && "device_id"@[1] == 'e' && "device_id"@[2] == 'v' && "device_id"@[3] == 'i' && "device_id"@[4] == 'c' && "device_id"@[5] == 'e' && "device_id"@[6] == '_' && "device_id"@[7] == 'i' && "device_id"@[8] == 'd');
        assert("x"@.len() == 1 && "x"@[0] == 'x');
        assert("y"@.len() == 1 && "y"@[0] == 'y');
        assert("z"@.len() == 1 && "z"@[0] == 'z');
        assert("accuracy"@.len() == 8 && "accuracy"@[0] == 'a' && "accuracy"@[1] == 'c' && "accuracy"@[2] == 'c' && "accuracy"@[3] == 'u' && "accuracy"@[4] == 'r' && "accuracy"@[5] == 'a' && "accuracy"@[6] == 'c' && "accuracy"@[7] == 'y');
        assert("metadata"@.len() == 8 && "metadata"@[0] == 'm' && "metadata"@[1] == 'e' && "metadata"@[2] == 't' && "metadata"@[3] == 'a' && "metadata"@[4] == 'd' && "metadata"@[5] == 'a' && "metadata"@[6] == 't' && "metadata"@[7] == 'a');
        let s = Self::schema_spec();
        assert forall|i: int| 0 <= i < s.len() implies match (#[trigger] s[i]).presence {
            PresenceView::Default(d) => fits_type(s[i].ty, d),
            _ => true,
        } by {
        }
    }

    proof fn lemma_fits(&self) {
        reveal(bool_v);
        let s = Self::schema_spec();
        let v = self.values();
        assert forall|i: int| 0 <= i < s.len() implies fits(#[trigger] s[i], v[i]) by {
            if i == 0 {
                assert(fits(s[0], v[0]));
            } else if i == 1 {
                assert(fits(s[1], v[1]));
            } else if i == 2 {
                assert(fits(s[2], v[2]));
            } else if i == 3 {
                assert(fits(s[3], v[3]));
            } else if i == 4 {
                assert(fits(s[4], v[4]));
            } else if i == 5 {
                assert(fits(s[5], v[5]));
            } else if i == 6 {
                assert(fits(s[6], v[6]));
            }
        }
    }
}

impl Record for GyroscopeData {
    open spec fn table_spec() -> Seq<char> {
        "gyroscope_data"@
    }

    open spec fn layout_spec() -> Layout {
        Layout::Timed
    }

    fn table_name() -> (r: &'static str) {
        "gyroscope_data"
    }

    fn layout() -> (r: Layout) {
        Layout::Timed
    }

    proof fn lemma_layout() {
        reveal_strlit("timestamp");
        reveal_strlit("device_id");
        assert("timestamp"@.len() == 9 && "timestamp"@[0] == 't' && "timestamp"@[1] == 'i' && "timestamp"@[2] == 'm' && "timestamp"@[3] == 'e' && "timestamp"@[4] == 's' && "timestamp"@[5] == 't' && "timestamp"@[6] == 'a' && "timestamp"@[7] == 'm' && "timestamp"@[8] == 'p');
        assert("device_id"@.len() == 9 && "device_id"@[0] == 'd' && "device_id"@[1] == 'e' && "device_id"@[2] == 'v' && "device_id"@[3] == 'i' && "device_id"@[4] == 'c' && "device_id"@[5] == 'e' && "device_id"@[6] == '_' && "device_id"@[7] == 'i' && "device_id"@[8] == 'd');
    }
}

impl GyroscopeData {
    /// The record's document.
    pub fn to_json(&self) -> (r: Document)
        ensures
            doc_view(r@) == encode(Self::schema_spec(), self.values()),
    {
        marshal(self)
    }

    /// The record that `doc` holds, or the error of the first field (in schema order)
    /// that it cannot give.
    pub fn from_json(doc: &Document) -> (r: Result<Self, SchemaError>)
        ensures
            match r {
                Ok(x) => decode(Self::schema_spec(), doc_view(doc@)) == Ok::<_, (SchemaErrorKind, Seq<char>)>(x.values()) && x.wf(),
                Err(e) => decode(Self::schema_spec(), doc_view(doc@)) == Err::<Seq<ValueView>, _>(e@),
            },
    {
        unmarshal(doc)
    }
}

/// A magnetometer reading, in µT along each axis.
#[derive(Debug, Clone, PartialEq)]
pub struct MagnetometerData {
    pub timestamp: Timestamp,
    pub device_id: String,
    /// IEEE-754 single-precision bits.
    pub x: u32,
    /// IEEE-754 single-precision bits.
    pub y: u32,
    /// IEEE-754 single-precision bits.
    pub z: u32,
    /// IEEE-754 single-precision bits.
    pub accuracy: Option<u32>,
    pub metadata: Option<Metadata>,
}

impl Fields for MagnetometerData {
    open spec fn schema_spec() -> Seq<FieldSpecView> {
        seq![
            FieldSpecView { name: "timestamp"@, ty: FieldType::Instant, presence: PresenceView::Required },
            FieldSpecView { name: "device_id"@, ty: FieldType::Text, presence: PresenceView::Required },
            FieldSpecView { name: "x"@, ty: FieldType::Single, presence: PresenceView::Required },
            FieldSpecView { name: "y"@, ty: FieldType::Single, presence: PresenceView::Required },
            FieldSpecView { name: "z"@, ty: FieldType::Single, presence: PresenceView::Required },
            FieldSpecView { name: "accuracy"@, ty: FieldType::Single, presence: PresenceView::Optional },
            FieldSpecView { name: "metadata"@, ty: FieldType::Entries, presence: PresenceView::Optional },
        ]
    }

    open spec fn values(&self) -> Seq<ValueView> {
        seq![
            instant_v(self.timestamp),
            text_v(self.device_id),
            single_v(self.x),
            single_v(self.y),
            single_v(self.z),
            opt_single_v(self.accuracy),
            opt_entries_v(self.metadata),
        ]
    }

    open spec fn wf(&self) -> bool {
        self.timestamp.wf()
    }

    fn schema() -> (r: Vec<FieldSpec>) {
        let r = vec![
            FieldSpec { name: "timestamp", ty: FieldType::Instant, presence: Presence::Required },
            FieldSpec { name: "device_id", ty: FieldType::Text, presence: Presence::Required },
            FieldSpec { name: "x", ty: FieldType::Single, presence: Presence::Required },
            FieldSpec { name: "y", ty: FieldType::Single, presence: Presence::Required },
            FieldSpec { name: "z", ty: FieldType::Single, presence: Presence::Required },
            FieldSpec { name: "accuracy", ty: FieldType::Single, presence: Presence::Optional },
            FieldSpec { name: "metadata", ty: FieldType::Entries, presence: Presence::Optional },
        ];
        assert(schema_view(r@) =~= Self::schema_spec());
        r
    }

    fn to_values(&self) -> (r: Vec<Value>) {
        let r = vec![
            put_instant(&self.timestamp),
            put_text(&self.device_id),
            put_single(&self.x),
            put_single(&self.y),
            put_single(&self.z),
            put_opt_single(&self.accuracy),
            put_opt_entries(&self.metadata),
        ];
        assert(values_view(r@) =~= self.values());
        r
    }

    fn from_values(vals: &Vec<Value>) -> (r: Self) {
        proof {
            let s = Self::schema_spec();
            let v = values_view(vals@);
            assert(fits(s[0], v[0]));
            assert(fits(s[1], v[1]));
            assert(fits(s[2], v[2]));
            assert(fits(s[3], v[3]));
            assert(fits(s[4], v[4]));
            assert(fits(s[5], v[5]));
            assert(fits(s[6], v[6]));
        }
        let r = MagnetometerData {
            timestamp: take_instant(&vals[0]),
            device_id: take_text(&vals[1]),
            x: take_single(&vals[2]),
            y: take_single(&vals[3]),
            z: take_single(&vals[4]),
            accuracy: take_opt_single(&vals[5]),
            metadata: take_opt_entries(&vals[6]),
        };
        assert(r.values() =~= values_view(vals@));
        r
    }

    proof fn lemma_schema() {
        reveal_strlit("timestamp");
        reveal_strlit("device_id");
        reveal_strlit("x");
        reveal_strlit("y");
        reveal_strlit("z");
        reveal_strlit("accuracy");
        reveal_strlit("metadata");
        assert("timestamp"@.len() == 9 && "timestamp"@[0] == 't' && "timestamp"@[1] == 'i' && "timestamp"@[2] == 'm' && "timestamp"@[3] == 'e' && "timestamp"@[4] == 's' && "timestamp"@[5] == 't' && "timestamp"@[6] == 'a' && "timestamp"@[7] == 'm' && "timestamp"@[8] == 'p');
        assert("device_id"@.len() == 9 && "device_id"@[0] == 'd' && "device_id"@[1] == 'e' && "device_id"@[2] == 'v' && "device_id"@[3] == 'i' && "device_id"@[4] == 'c' && "device_id"@[5] == 'e' && "device_id"@[6] == '_' && "device_id"@[7] == 'i' && "device_id"@[8] == 'd');
        assert("x"@.len() == 1 && "x"@[0] == 'x');
        assert("y"@.len() == 1 && "y"@[0] == 'y');
        assert("z"@.len() == 1 && "z"@[0] == 'z');
        assert("accuracy"@.len() == 8 && "accuracy"@[0] == 'a' && "accuracy"@[1] == 'c' && "accuracy"@[2] == 'c' && "accuracy"@[3] == 'u' && "accuracy"@[4] == 'r' && "accuracy"@[5] == 'a' && "accuracy"@[6] == 'c' && "accuracy"@[7] == 'y');
        assert("metadata"@.len() == 8 && "metadata"@[0] == 'm' && "metadata"@[1] == 'e' && "metadata"@[2] == 't' && "metadata"@[3] == 'a' && "metadata"@[4] == 'd' && "metadata"@[5] == 'a' && "metadata"@[6] == 't' && "metadata"@[7] == 'a');
        let s = Self::schema_spec();
        assert forall|i: int| 0 <= i < s.len() implies match (#[trigger] s[i]).presence {
            PresenceView::Default(d) => fits_type(s[i].ty, d),
            _ => true,
        } by {
        }
    }

    proof fn lemma_fits(&self) {
        reveal(bool_v);
        let s = Self::schema_spec();
        let v = self.values();
        assert forall|i: int| 0 <= i < s.len() implies fits(#[trigger] s[i], v[i]) by {
            if i == 0 {
                assert(fits(s[0], v[0]));
            } else if i == 1 {
                assert(fits(s[1], v[1]));
            } else if i == 2 {
                assert(fits(s[2], v[2]));
            } else if i == 3 {
                assert(fits(s[3], v[3]));
            } else if i == 4 {
                assert(fits(s[4], v[4]));
            } else if i == 5 {
                assert(fits(s[5], v[5]));
            } else if i == 6 {
                assert(fits(s[6], v[6]));
            }
        }
    }
}

impl Record for MagnetometerData {
    open spec fn table_spec() -> Seq<char> {
        "magnetometer_data"@
    }

    open spec fn layout_spec() -> Layout {
        Layout::Timed
    }

    fn table_name() -> (r: &'static str) {
        "magnetometer_data"
    }

    fn layout() -> (r: Layout) {
        Layout::Timed
    }

    proof fn lemma_layout() {
        reveal_strlit("timestamp");
        reveal_strlit("device_id");
        assert("timestamp"@.len() == 9 && "timestamp"@[0] == 't' && "timestamp"@[1] == 'i' && "timestamp"@[2] == 'm' && "timestamp"@[3] == 'e' && "timestamp"@[4] == 's' && "timestamp"@[5] == 't' && "timestamp"@[6] == 'a' && "timestamp"@[7] == 'm' && "timestamp"@[8] == 'p');
        assert("device_id"@.len() == 9 && "device_id"@[0] == 'd' && "device_id"@[1] == 'e' && "device_id"@[2] == 'v' && "device_id"@[3] == 'i' && "device_id"@[4] == 'c' && "device_id"@[5] == 'e' && "device_id"@[6] == '_' && "device_id"@[7] == 'i' && "device_id"@[8] == 'd');
    }
}

impl MagnetometerData {
    /// The record's document.
    pub fn to_json(&self) -> (r: Document)
        ensures
            doc_view(r@) == encode(Self::schema_spec(), self.values()),
    {
        marshal(self)
    }

    /// The record that `doc` holds, or the error of the first field (in schema order)
    /// that it cannot give.
    pub fn from_json(doc: &Document) -> (r: Result<Self, SchemaError>)
        ensures
            match r {
                Ok(x) => decode(Self::schema_spec(), doc_view(doc@)) == Ok::<_, (SchemaErrorKind, Seq<char>)>(x.values()) && x.wf(),
                Err(e) => decode(Self::schema_spec(), doc_view(doc@)) == Err::<Seq<ValueView>, _>(e@),
            },
    {
        unmarshal(doc)
    }
}

/// A location fix.
#[derive(Debug, Clone, PartialEq)]
pub struct GpsData {
    pub timestamp: Timestamp,
    pub device_id: String,
    /// IEEE-754 double-precision bits.
    pub latitude: u64,
    /// IEEE-754 double-precision bits.
    pub longitude: u64,
    /// IEEE-754 double-precision bits.
    pub altitude: Option<u64>,
    /// IEEE-754 single-precision bits.
    pub accuracy: Option<u32>,
    /// IEEE-754 single-precision bits.
    pub speed: Option<u32>,
    /// IEEE-754 single-precision bits.
    pub bearing: Option<u32>,
    pub satellites: Option<i32>,
    pub provider: Option<String>,
    pub metadata: Option<Metadata>,
}

impl Fields for GpsData {
    open spec fn schema_spec() -> Seq<FieldSpecView> {
        seq![
            FieldSpecView { name: "timestamp"@, ty: FieldType::Instant, presence: PresenceView::Required },
            FieldSpecView { name: "device_id"@, ty: FieldType::Text, presence: PresenceView::Required },
            FieldSpecView { name: "latitude"@, ty: FieldType::Double, presence: PresenceView::Required },
            FieldSpecView { name: "longitude"@, ty: FieldType::Double, presence: PresenceView::Required },
            FieldSpecView { name: "altitude"@, ty: FieldType::Double, presence: PresenceView::Optional },
            FieldSpecView { name: "accuracy"@, ty: FieldType::Single, presence: PresenceView::Optional },
            FieldSpecView { name: "speed"@, ty: FieldType::Single, presence: PresenceView::Optional },
            FieldSpecView { name: "bearing"@, ty: FieldType::Single, presence: PresenceView::Optional },
            FieldSpecView { name: "satellites"@, ty: FieldType::Int, presence: PresenceView::Optional },
            FieldSpecView { name: "provider"@, ty: FieldType::Text, presence: PresenceView::Optional },
            FieldSpecView { name: "metadata"@, ty: FieldType::Entries, presence: PresenceView::Optional },
        ]
    }

    open spec fn values(&self) -> Seq<ValueView> {
        seq![
            instant_v(self.timestamp),
            text_v(self.device_id),
            double_v(self.latitude),
            double_v(self.longitude),
            opt_double_v(self.altitude),
            opt_single_v(self.accuracy),
            opt_single_v(self.speed),
            opt_single_v(self.bearing),
            opt_int_v(self.satellites),
            opt_text_v(self.provider),
            opt_entries_v(self.metadata),
        ]
    }

    open spec fn wf(&self) -> bool {
        self.timestamp.wf()
    }

    fn schema() -> (r: Vec<FieldSpec>) {
        let r = vec![
            FieldSpec { name: "timestamp", ty: FieldType::Instant, presence: Presence::Required },
            FieldSpec { name: "device_id", ty: FieldType::Text, presence: Presence::Required },
            FieldSpec { name: "latitude", ty: FieldType::Double, presence: Presence::Required },
            FieldSpec { name: "longitude", ty: FieldType::Double, presence: Presence::Required },
            FieldSpec { name: "altitude", ty: FieldType::Double, presence: Presence::Optional },
            FieldSpec { name: "accuracy", ty: FieldType::Single, presence: Presence::Optional },
            FieldSpec { name: "speed", ty: FieldType::Single, presence: Presence::Optional },
            FieldSpec { name: "bearing", ty: FieldType::Single, presence: Presence::Optional },
            FieldSpec { name: "satellites", ty: FieldType::Int, presence: Presence::Optional },
            FieldSpec { name: "provider", ty: FieldType::Text, presence: Presence::Optional },
            FieldSpec { name: "metadata", ty: FieldType::Entries, presence: Presence::Optional },
        ];
        assert(schema_view(r@) =~= Self::schema_spec());
        r
    }

    fn to_values(&self) -> (r: Vec<Value>) {
        let r = vec![
            put_instant(&self.timestamp),
            put_text(&self.device_id),
            put_double(&self.latitude),
            put_double(&self.longitude),
            put_opt_double(&self.altitude),
            put_opt_single(&self.accuracy),
            put_opt_single(&self.speed),
            put_opt_single(&self.bearing),
            put_opt_int(&self.satellites),
            put_opt_text(&self.provider),
            put_opt_entries(&self.metadata),
        ];
        assert(values_view(r@) =~= self.values());
        r
    }

    fn from_values(vals: &Vec<Value>) -> (r: Self) {
        proof {
            let s = Self::schema_spec();
            let v = values_view(vals@);
            assert(fits(s[0], v[0]));
            assert(fits(s[1], v[1]));
            assert(fits(s[2], v[2]));
            assert(fits(s[3], v[3]));
            assert(fits(s[4], v[4]));
            assert(fits(s[5], v[5]));
            assert(fits(s[6], v[6]));
            assert(fits(s[7], v[7]));
            assert(fits(s[8], v[8]));
            assert(fits(s[9], v[9]));
            assert(fits(s[10], v[10]));
        }
        let r = GpsData {
            timestamp: take_instant(&vals[0]),
            device_id: take_text(&vals[1]),
            latitude: take_double(&vals[2]),
            longitude: take_double(&vals[3]),
            altitude: take_opt_double(&vals[4]),
            accuracy: take_opt_single(&vals[5]),
            speed: take_opt_single(&vals[6]),
            bearing: take_opt_single(&vals[7]),
            satellites: take_opt_int(&vals[8]),
            provider: take_opt_text(&vals[9]),
            metadata: take_opt_entries(&vals[10]),
        };
        assert(r.values() =~= values_view(vals@));
        r
    }

    proof fn lemma_schema() {
        reveal_strlit("timestamp");
        reveal_strlit("device_id");
        reveal_strlit("latitude");
        reveal_strlit("longitude");
        reveal_strlit("altitude");
        reveal_strlit("accuracy");
        reveal_strlit("speed");
        reveal_strlit("bearing");
        reveal_strlit("satellites");
        reveal_strlit("provider");
        reveal_strlit("metadata");
        assert("timestamp"@.len() == 9 && "timestamp"@[0] == 't' && "timestamp"@[1] == 'i' && "timestamp"@[2] == 'm' && "timestamp"@[3] == 'e' && "timestamp"@[4] == 's' && "timestamp"@[5] == 't' && "timestamp"@[6] == 'a' && "timestamp"@[7] == 'm' && "timestamp"@[8] == 'p');
        assert("device_id"@.len() == 9 && "device_id"@[0] == 'd' && "device_id"@[1] == 'e' && "device_id"@[2] == 'v' && "device_id"@[3] == 'i' && "device_id"@[4] == 'c' && "device_id"@[5] == 'e' && "device_id"@[6] == '_' && "device_id"@[7] == 'i' && "device_id"@[8] == 'd');
        assert("latitude"@.len() == 8 && "latitude"@[0] == 'l' && "latitude"@[1] == 'a' && "latitude"@[2] == 't' && "latitude"@[3] == 'i' && "latitude"@[4] == 't' && "latitude"@[5] == 'u' && "latitude"@[6] == 'd' && "latitude"@[7] == 'e');
        assert("longitude"@.len() == 9 && "longitude"@[0] == 'l' && "longitude"@[1] == 'o' && "longitude"@[2] == 'n' && "longitude"@[3] == 'g' && "longitude"@[4] == 'i' && "longitude"@[5] == 't' && "longitude"@[6] == 'u' && "longitude"@[7] == 'd' && "longitude"@[8] == 'e');
        assert("altitude"@.len() == 8 && "altitude"@[0] == 'a' && "altitude"@[1] == 'l' && "altitude"@[2] == 't' && "altitude"@[3] == 'i' && "altitude"@[4] == 't' && "altitude"@[5] == 'u' && "altitude"@[6] == 'd' && "altitude"@[7] == 'e');
        assert("accuracy"@.len() == 8 && "accuracy"@[0] == 'a' && "accuracy"@[1] == 'c' && "accuracy"@[2] == 'c' && "accuracy"@[3] == 'u' && "accuracy"@[4] == 'r' && "accuracy"@[5] == 'a' && "accuracy"@[6] == 'c' && "accuracy"@[7] == 'y');
        assert("speed"@.len() == 5 && "speed"@[0] == 's' && "speed"@[1] == 'p' && "speed"@[2] == 'e' && "speed"@[3] == 'e' && "speed"@[4] == 'd');
        assert("bearing"@.len() == 7 && "bearing"@[0] == 'b' && "bearing"@[1] == 'e' && "bearing"@[2] == 'a' && "bearing"@[3] == 'r' && "bearing"@[4] == 'i' && "bearing"@[5] == 'n' && "bearing"@[6] == 'g');
        assert("satellites"@.len() == 10 && "satellites"@[0] == 's' && "satellites"@[1] == 'a' && "satellites"@[2] == 't' && "satellites"@[3] == 'e' && "satellites"@[4] == 'l' && "satellites"@[5] == 'l' && "satellites"@[6] == 'i' && "satellites"@[7] == 't' && "satellites"@[8] == 'e' && "satellites"@[9] == 's');
        assert("provider"@.len() == 8 && "provider"@[0] == 'p' && "provider"@[1] == 'r' && "provider"@[2] == 'o' && "provider"@[3] == 'v' && "provider"@[4] == 'i' && "provider"@[5] == 'd' && "provider"@[6] == 'e' && "provider"@[7] == 'r');
        assert("metadata"@.len() == 8 && "metadata"@[0] == 'm' && "metadata"@[1] == 'e' && "metadata"@[2] == 't' && "metadata"@[3] == 'a' && "metadata"@[4] == 'd' && "metadata"@[5] == 'a' && "metadata"@[6] == 't' && "metadata"@[7] == 'a');
        let s = Self::schema_spec();
        assert forall|i: int| 0 <= i < s.len() implies match (#[trigger] s[i]).presence {
            PresenceView::Default(d) => fits_type(s[i].ty, d),
            _ => true,
        } by {
        }
    }

    proof fn lemma_fits(&self) {
        reveal(bool_v);
        let s = Self::schema_spec();
        let v = self.values();
        assert forall|i: int| 0 <= i < s.len() implies fits(#[trigger] s[i], v[i]) by {
            if i == 0 {
                assert(fits(s[0], v[0]));
            } else if i == 1 {
                assert(fits(s[1], v[1]));
            } else if i == 2 {
                assert(fits(s[2], v[2]));
            } else if i == 3 {
                assert(fits(s[3], v[3]));
            } else if i == 4 {
                assert(fits(s[4], v[4]));
            } else if i == 5 {
                assert(fits(s[5], v[5]));
            } else if i == 6 {
                assert(fits(s[6], v[6]));
            } else if i == 7 {
                assert(fits(s[7], v[7]));
            } else if i == 8 {
                assert(fits(s[8], v[8]));
            } else if i == 9 {
                assert(fits(s[9], v[9]));
            } else if i == 10 {
                assert(fits(s[10], v[10]));
            }
        }
    }
}

impl Record for GpsData {
    open spec fn table_spec() -> Seq<char> {
        "gps_data"@
    }

    open spec fn layout_spec() -> Layout {
        Layout::Timed
    }

    fn table_name() -> (r: &'static str) {
        "gps_data"
    }

    fn layout() -> (r: Layout) {
        Layout::Timed
    }

    proof fn lemma_layout() {
        reveal_strlit("timestamp");
        reveal_strlit("device_id");
        assert("timestamp"@.len() == 9 && "timestamp"@[0] == 't' && "timestamp"@[1] == 'i' && "timestamp"@[2] == 'm' && "timestamp"@[3] == 'e' && "timestamp"@[4] == 's' && "timestamp"@[5] == 't' && "timestamp"@[6] == 'a' && "timestamp"@[7] == 'm' && "timestamp"@[8] == 'p');
        assert("device_id"@.len() == 9 && "device_id"@[0] == 'd' && "device_id"@[1] == 'e' && "device_id"@[2] == 'v' && "device_id"@[3] == 'i' && "device_id"@[4] == 'c' && "device_id"@[5] == 'e' && "device_id"@[6] == '_' && "device_id"@[7] == 'i' && "device_id"@[8] == 'd');
    }
}

impl GpsData {
    /// The record's document.
    pub fn to_json(&self) -> (r: Document)
        ensures
            doc_view(r@) == encode(Self::schema_spec(), self.values()),
    {
        marshal(self)
    }

    /// The record that `doc` holds, or the error of the first field (in schema order)
    /// that it cannot give.
    pub fn from_json(doc: &Document) -> (r: Result<Self, SchemaError>)
        ensures
            match r {
                Ok(x) => decode(Self::schema_spec(), doc_view(doc@)) == Ok::<_, (SchemaErrorKind, Seq<char>)>(x.values()) && x.wf(),
                Err(e) => decode(Self::schema_spec(), doc_view(doc@)) == Err::<Seq<ValueView>, _>(e@),
            },
    {
        unmarshal(doc)
    }
}

/// A heart-rate reading.
#[derive(Debug, Clone, PartialEq)]
pub struct HeartRateData {
    pub timestamp: Timestamp,
    pub device_id: String,
    pub bpm: i32,
    /// IEEE-754 single-precision bits.
    pub confidence: Option<u32>,
    /// IEEE-754 single-precision bits of each item.
    pub rr_intervals: Option<Vec<u32>>,
    pub metadata: Option<Metadata>,
}

impl Fields for HeartRateData {
    open spec fn schema_spec() -> Seq<FieldSpecView> {
        seq![
            FieldSpecView { name: "timestamp"@, ty: FieldType::Instant, presence: PresenceView::Required },
            FieldSpecView { name: "device_id"@, ty: FieldType::Text, presence: PresenceView::Required },
            FieldSpecView { name: "bpm"@, ty: FieldType::Int, presence: PresenceView::Required },
            FieldSpecView { name: "confidence"@, ty: FieldType::Single, presence: PresenceView::Optional },
            FieldSpecView { name: "rr_intervals"@, ty: FieldType::Singles, presence: PresenceView::Optional },
            FieldSpecView { name: "metadata"@, ty: FieldType::Entries, presence: PresenceView::Optional },
        ]
    }

    open spec fn values(&self) -> Seq<ValueView> {
        seq![
            instant_v(self.timestamp),
            text_v(self.device_id),
            int_v(self.bpm),
            opt_single_v(self.confidence),
            opt_singles_v(self.rr_intervals),
            opt_entries_v(self.metadata),
        ]
    }

    open spec fn wf(&self) -> bool {
        self.timestamp.wf()
    }

    fn schema() -> (r: Vec<FieldSpec>) {
        let r = vec![
            FieldSpec { name: "timestamp", ty: FieldType::Instant, presence: Presence::Required },
            FieldSpec { name: "device_id", ty: FieldType::Text, presence: Presence::Required },
            FieldSpec { name: "bpm", ty: FieldType::Int, presence: Presence::Required },
            FieldSpec { name: "confidence", ty: FieldType::Single, presence: Presence::Optional },
            FieldSpec { name: "rr_intervals", ty: FieldType::Singles, presence: Presence::Optional },
            FieldSpec { name: "metadata", ty: FieldType::Entries, presence: Presence::Optional },
        ];
        assert(schema_view(r@) =~= Self::schema_spec());
        r
    }

    fn to_values(&self) -> (r: Vec<Value>) {
        let r = vec![
            put_instant(&self.timestamp),
            put_text(&self.device_id),
            put_int(&self.bpm),
            put_opt_single(&self.confidence),
            put_opt_singles(&self.rr_intervals),
            put_opt_entries(&self.metadata),
        ];
        assert(values_view(r@) =~= self.values());
        r
    }

    fn from_values(vals: &Vec<Value>) -> (r: Self) {
        proof {
            let s = Self::schema_spec();
            let v = values_view(vals@);
            assert(fits(s[0], v[0]));
            assert(fits(s[1], v[1]));
            assert(fits(s[2], v[2]));
            assert(fits(s[3], v[3]));
            assert(fits(s[4], v[4]));
            assert(fits(s[5], v[5]));
        }
        let r = HeartRateData {
            timestamp: take_instant(&vals[0]),
            device_id: take_text(&vals[1]),
            bpm: take_int(&vals[2]),
            confidence: take_opt_single(&vals[3]),
            rr_intervals: take_opt_singles(&vals[4]),
            metadata: take_opt_entries(&vals[5]),
        };
        assert(r.values() =~= values_view(vals@));
        r
    }

    proof fn lemma_schema() {
        reveal_strlit("timestamp");
        reveal_strlit("device_id");
        reveal_strlit("bpm");
        reveal_strlit("confidence");
        reveal_strlit("rr_intervals");
        reveal_strlit("metadata");
        assert("timestamp"@.len() == 9 && "timestamp"@[0] == 't' && "timestamp"@[1] == 'i' && "timestamp"@[2] == 'm' && "timestamp"@[3] == 'e' && "timestamp"@[4] == 's' && "timestamp"@[5] == 't' && "timestamp"@[6] == 'a' && "timestamp"@[7] == 'm' && "timestamp"@[8] == 'p');
        assert("device_id"@.len() == 9 && "device_id"@[0] == 'd' && "device_id"@[1] == 'e' && "device_id"@[2] == 'v' && "device_id"@[3] == 'i' && "device_id"@[4] == 'c' && "device_id"@[5] == 'e' && "device_id"@[6] == '_' && "device_id"@[7] == 'i' && "device_id"@[8] == 'd');
        assert("bpm"@.len() == 3 && "bpm"@[0] == 'b' && "bpm"@[1] == 'p' && "bpm"@[2] == 'm');
        assert("confidence"@.len() == 10 && "confidence"@[0] == 'c' && "confidence"@[1] == 'o' && "confidence"@[2] == 'n' && "confidence"@[3] == 'f' && "confidence"@[4] == 'i' && "confidence"@[5] == 'd' && "confidence"@[6] == 'e' && "confidence"@[7] == 'n' && "confidence"@[8] == 'c' && "confidence"@[9] == 'e');
        assert("rr_intervals"@.len() == 12 && "rr_intervals"@[0] == 'r' && "rr_intervals"@[1] == 'r' && "rr_intervals"@[2] == '_' && "rr_intervals"@[3] == 'i' && "rr_intervals"@[4] == 'n' && "rr_intervals"@[5] == 't' && "rr_intervals"@[6] == 'e' && "rr_intervals"@[7] == 'r' && "rr_intervals"@[8] == 'v' && "rr_intervals"@[9] == 'a' && "rr_intervals"@[10] == 'l' && "rr_intervals"@[11] == 's');
        assert("metadata"@.len() == 8 && "metadata"@[0] == 'm' && "metadata"@[1] == 'e' && "metadata"@[2] == 't' && "metadata"@[3] == 'a' && "metadata"@[4] == 'd' && "metadata"@[5] == 'a' && "metadata"@[6] == 't' && "metadata"@[7] == 'a');
        let s = Self::schema_spec();
        assert forall|i: int| 0 <= i < s.len() implies match (#[trigger] s[i]).presence {
            PresenceView::Default(d) => fits_type(s[i].ty, d),
            _ => true,
        } by {
        }
    }

    proof fn lemma_fits(&self) {
        reveal(bool_v);
        let s = Self::schema_spec();
        let v = self.values();
        assert forall|i: int| 0 <= i < s.len() implies fits(#[trigger] s[i], v[i]) by {
            if i == 0 {
                assert(fits(s[0], v[0]));
            } else if i == 1 {
                assert(fits(s[1], v[1]));
            } else if i == 2 {
                assert(fits(s[2], v[2]));
            } else if i == 3 {
                assert(fits(s[3], v[3]));
            } else if i == 4 {
                assert(fits(s[4], v[4]));
            } else if i == 5 {
                assert(fits(s[5], v[5]));
            }
        }
    }
}

impl Record for HeartRateData {
    open spec fn table_spec() -> Seq<char> {
        "heart_rate_data"@
    }

    open spec fn layout_spec() -> Layout {
        Layout::Timed
    }

    fn table_name() -> (r: &'static str) {
        "heart_rate_data"
    }

    fn layout() -> (r: Layout) {
        Layout::Timed
    }

    proof fn lemma_layout() {
        reveal_strlit("timestamp");
        reveal_strlit("device_id");
        assert("timestamp"@.len() == 9 && "timestamp"@[0] == 't' && "timestamp"@[1] == 'i' && "timestamp"@[2] == 'm' && "timestamp"@[3] == 'e' && "timestamp"@[4] == 's' && "timestamp"@[5] == 't' && "timestamp"@[6] == 'a' && "timestamp"@[7] == 'm' && "timestamp"@[8] == 'p');
        assert("device_id"@.len() == 9 && "device_id"@[0] == 'd' && "device_id"@[1] == 'e' && "device_id"@[2] == 'v' && "device_id"@[3] == 'i' && "device_id"@[4] == 'c' && "device_id"@[5] == 'e' && "device_id"@[6] == '_' && "device_id"@[7] == 'i' && "device_id"@[8] == 'd');
    }
}

impl HeartRateData {
    /// The record's document.
    pub fn to_json(&self) -> (r: Document)
        ensures
            doc_view(r@) == encode(Self::schema_spec(), self.values()),
    {
        marshal(self)
    }

    /// The record that `doc` holds, or the error of the first field (in schema order)
    /// that it cannot give.
    pub fn from_json(doc: &Document) -> (r: Result<Self, SchemaError>)
        ensures
            match r {
                Ok(x) => decode(Self::schema_spec(), doc_view(doc@)) == Ok::<_, (SchemaErrorKind, Seq<char>)>(x.values()) && x.wf(),
                Err(e) => decode(Self::schema_spec(), doc_view(doc@)) == Err::<Seq<ValueView>, _>(e@),
            },
    {
        unmarshal(doc)
    }
}

/// An electrocardiogram series.
#[derive(Debug, Clone, PartialEq)]
pub struct ECGData {
    pub timestamp: Timestamp,
    pub device_id: String,
    /// IEEE-754 single-precision bits of each item.
    pub voltage: Vec<u32>,
    /// IEEE-754 single-precision bits of each item.
    pub time: Vec<u32>,
    pub rhythm_classification: Option<String>,
    /// IEEE-754 single-precision bits.
    pub heart_rate: Option<u32>,
    pub metadata: Option<Metadata>,
}

impl Fields for ECGData {
    open spec fn schema_spec() -> Seq<FieldSpecView> {
        seq![
            FieldSpecView { name: "timestamp"@, ty: FieldType::Instant, presence: PresenceView::Required },
            FieldSpecView { name: "device_id"@, ty: FieldType::Text, presence: PresenceView::Required },
            FieldSpecView { name: "voltage"@, ty: FieldType::Singles, presence: PresenceView::Required },
            FieldSpecView { name: "time"@, ty: FieldType::Singles, presence: PresenceView::Required },
            FieldSpecView { name: "rhythm_classification"@, ty: FieldType::Text, presence: PresenceView::Optional },
            FieldSpecView { name: "heart_rate"@, ty: FieldType::Single, presence: PresenceView::Optional },
            FieldSpecView { name: "metadata"@, ty: FieldType::Entries, presence: PresenceView::Optional },
        ]
    }

    open spec fn values(&self) -> Seq<ValueView> {
        seq![
            instant_v(self.timestamp),
            text_v(self.device_id),
            singles_v(self.voltage),
            singles_v(self.time),
            opt_text_v(self.rhythm_classification),
            opt_single_v(self.heart_rate),
            opt_entries_v(self.metadata),
        ]
    }

    open spec fn wf(&self) -> bool {
        self.timestamp.wf()
    }

    fn schema() -> (r: Vec<FieldSpec>) {
        let r = vec![
            FieldSpec { name: "timestamp", ty: FieldType::Instant, presence: Presence::Required },
            FieldSpec { name: "device_id", ty: FieldType::Text, presence: Presence::Required },
            FieldSpec { name: "voltage", ty: FieldType::Singles, presence: Presence::Required },
            FieldSpec { name: "time", ty: FieldType::Singles, presence: Presence::Required },
            FieldSpec { name: "rhythm_classification", ty: FieldType::Text, presence: Presence::Optional },
            FieldSpec { name: "heart_rate", ty: FieldType::Single, presence: Presence::Optional },
            FieldSpec { name: "metadata", ty: FieldType::Entries, presence: Presence::Optional },
        ];
        assert(schema_view(r@) =~= Self::schema_spec());
        r
    }

    fn to_values(&self) -> (r: Vec<Value>) {
        let r = vec![
            put_instant(&self.timestamp),
            put_text(&self.device_id),
            put_singles(&self.voltage),
            put_singles(&self.time),
            put_opt_text(&self.rhythm_classification),
            put_opt_single(&self.heart_rate),
            put_opt_entries(&self.metadata),
        ];
        assert(values_view(r@) =~= self.values());
        r
    }

    fn from_values(vals: &Vec<Value>) -> (r: Self) {
        proof {
            let s = Self::schema_spec();
            let v = values_view(vals@);
            assert(fits(s[0], v[0]));
            assert(fits(s[1], v[1]));
            assert(fits(s[2], v[2]));
            assert(fits(s[3], v[3]));
            assert(fits(s[4], v[4]));
            assert(fits(s[5], v[5]));
            assert(fits(s[6], v[6]));
        }
        let r = ECGData {
            timestamp: take_instant(&vals[0]),
            device_id: take_text(&vals[1]),
            voltage: take_singles(&vals[2]),
            time: take_singles(&vals[3]),
            rhythm_classification: take_opt_text(&vals[4]),
            heart_rate: take_opt_single(&vals[5]),
            metadata: take_opt_entries(&vals[6]),
        };
        assert(r.values() =~= values_view(vals@));
        r
    }

    proof fn lemma_schema() {
        reveal_strlit("timestamp");
        reveal_strlit("device_id");
        reveal_strlit("voltage");
        reveal_strlit("time");
        reveal_strlit("rhythm_classification");
        reveal_strlit("heart_rate");
        reveal_strlit("metadata");
        assert("timestamp"@.len() == 9 && "timestamp"@[0] == 't' && "timestamp"@[1] == 'i' && "timestamp"@[2] == 'm' && "timestamp"@[3] == 'e' && "timestamp"@[4] == 's' && "timestamp"@[5] == 't' && "timestamp"@[6] == 'a' && "timestamp"@[7] == 'm' && "timestamp"@[8] == 'p');
        assert("device_id"@.len() == 9 && "device_id"@[0] == 'd' && "device_id"@[1] == 'e' && "device_id"@[2] == 'v' && "device_id"@[3] == 'i' && "device_id"@[4] == 'c' && "device_id"@[5] == 'e' && "device_id"@[6] == '_' && "device_id"@[7] == 'i' && "device_id"@[8] == 'd');
        assert("voltage"@.len() == 7 && "voltage"@[0] == 'v' && "voltage"@[1] == 'o' && "voltage"@[2] == 'l' && "voltage"@[3] == 't' && "voltage"@[4] == 'a' && "voltage"@[5] == 'g' && "voltage"@[6] == 'e');
        assert("time"@.len() == 4 && "time"@[0] == 't' && "time"@[1] == 'i' && "time"@[2] == 'm' && "time"@[3] == 'e');
        assert("rhythm_classification"@.len() == 21 && "rhythm_classification"@[0] == 'r' && "rhythm_classification"@[1] == 'h' && "rhythm_classification"@[2] == 'y' && "rhythm_classification"@[3] == 't' && "rhythm_classification"@[4] == 'h' && "rhythm_classification"@[5] == 'm' && "rhythm_classification"@[6] == '_' && "rhythm_classification"@[7] == 'c' && "rhythm_classification"@[8] == 'l' && "rhythm_classification"@[9] == 'a' && "rhythm_classification"@[10] == 's' && "rhythm_classification"@[11] == 's' && "rhythm_classification"@[12] == 'i' && "rhythm_classification"@[13] == 'f' && "rhythm_classification"@[14] == 'i' && "rhythm_classification"@[15] == 'c' && "rhythm_classification"@[16] == 'a' && "rhythm_classification"@[17] == 't' && "rhythm_classification"@[18] == 'i' && "rhythm_classification"@[19] == 'o' && "rhythm_classification"@[20] == 'n');
        assert("heart_rate"@.len() == 10 && "heart_rate"@[0] == 'h' && "heart_rate"@[1] == 'e' && "heart_rate"@[2] == 'a' && "heart_rate"@[3] == 'r' && "heart_rate"@[4] == 't' && "heart_rate"@[5] == '_' && "heart_rate"@[6] == 'r' && "heart_rate"@[7] == 'a' && "heart_rate"@[8] == 't' && "heart_rate"@[9] == 'e');
        assert("metadata"@.len() == 8 && "metadata"@[0] == 'm' && "metadata"@[1] == 'e' && "metadata"@[2] == 't' && "metadata"@[3] == 'a' && "metadata"@[4] == 'd' && "metadata"@[5] == 'a' && "metadata"@[6] == 't' && "metadata"@[7] == 'a');
        let s = Self::schema_spec();
        assert forall|i: int| 0 <= i < s.len() implies match (#[trigger] s[i]).presence {
            PresenceView::Default(d) => fits_type(s[i].ty, d),
            _ => true,
        } by {
        }
    }

    proof fn lemma_fits(&self) {
        reveal(bool_v);
        let s = Self::schema_spec();
        let v = self.values();
        assert forall|i: int| 0 <= i < s.len() implies fits(#[trigger] s[i], v[i]) by {
            if i == 0 {
                assert(fits(s[0], v[0]));
            } else if i == 1 {
                assert(fits(s[1], v[1]));
            } else if i == 2 {
                assert(fits(s[2], v[2]));
            } else if i == 3 {
                assert(fits(s[3], v[3]));
            } else if i == 4 {
                assert(fits(s[4], v[4]));
            } else if i == 5 {
                assert(fits(s[5], v[5]));
            } else if i == 6 {
                assert(fits(s[6], v[6]));
            }
        }
    }
}

impl Record for ECGData {
    open spec fn table_spec() -> Seq<char> {
        "ecg_data"@
    }

    open spec fn layout_spec() -> Layout {
        Layout::Timed
    }

    fn table_name() -> (r: &'static str) {
        "ecg_data"
    }

    fn layout() -> (r: Layout) {
        Layout::Timed
    }

    proof fn lemma_layout() {
        reveal_strlit("timestamp");
        reveal_strlit("device_id");
        assert("timestamp"@.len() == 9 && "timestamp"@[0] == 't' && "timestamp"@[1] == 'i' && "timestamp"@[2] == 'm' && "timestamp"@[3] == 'e' && "timestamp"@[4] == 's' && "timestamp"@[5] == 't' && "timestamp"@[6] == 'a' && "timestamp"@[7] == 'm' && "timestamp"@[8] == 'p');
        assert("device_id"@.len() == 9 && "device_id"@[0] == 'd' && "device_id"@[1] == 'e' && "device_id"@[2] == 'v' && "device_id"@[3] == 'i' && "device_id"@[4] == 'c' && "device_id"@[5] == 'e' && "device_id"@[6] == '_' && "device_id"@[7] == 'i' && "device_id"@[8] == 'd');
    }
}

impl ECGData {
    /// The record's document.
    pub fn to_json(&self) -> (r: Document)
        ensures
            doc_view(r@) == encode(Self::schema_spec(), self.values()),
    {
        marshal(self)
    }

    /// The record that `doc` holds, or the error of the first field (in schema order)
    /// that it cannot give.
    pub fn from_json(doc: &Document) -> (r: Result<Self, SchemaError>)
        ensures
            match r {
                Ok(x) => decode(Self::schema_spec(), doc_view(doc@)) == Ok::<_, (SchemaErrorKind, Seq<char>)>(x.values()) && x.wf(),
                Err(e) => decode(Self::schema_spec(), doc_view(doc@)) == Err::<Seq<ValueView>, _>(e@),
            },
    {
        unmarshal(doc)
    }
}

/// A blood-oxygen reading.
#[derive(Debug, Clone, PartialEq)]
pub struct BloodOxygenData {
    pub timestamp: Timestamp,
    pub device_id: String,
    pub spo2: i32,
    /// IEEE-754 single-precision bits.
    pub confidence: Option<u32>,
    /// IEEE-754 single-precision bits of each item.
    pub raw_values: Option<Vec<u32>>,
    pub metadata: Option<Metadata>,
}

impl Fields for BloodOxygenData {
    open spec fn schema_spec() -> Seq<FieldSpecView> {
        seq![
            FieldSpecView { name: "timestamp"@, ty: FieldType::Instant, presence: PresenceView::Required },
            FieldSpecView { name: "device_id"@, ty: FieldType::Text, presence: PresenceView::Required },
            FieldSpecView { name: "spo2"@, ty: FieldType::Int, presence: PresenceView::Required },
            FieldSpecView { name: "confidence"@, ty: FieldType::Single, presence: PresenceView::Optional },
            FieldSpecView { name: "raw_values"@, ty: FieldType::Singles, presence: PresenceView::Optional },
            FieldSpecView { name: "metadata"@, ty: FieldType::Entries, presence: PresenceView::Optional },
        ]
    }

    open spec fn values(&self) -> Seq<ValueView> {
        seq![
            instant_v(self.timestamp),
            text_v(self.device_id),
            int_v(self.spo2),
            opt_single_v(self.confidence),
            opt_singles_v(self.raw_values),
            opt_entries_v(self.metadata),
        ]
    }

    open spec fn wf(&self) -> bool {
        self.timestamp.wf()
    }

    fn schema() -> (r: Vec<FieldSpec>) {
        let r = vec![
            FieldSpec { name: "timestamp", ty: FieldType::Instant, presence: Presence::Required },
            FieldSpec { name: "device_id", ty: FieldType::Text, presence: Presence::Required },
            FieldSpec { name: "spo2", ty: FieldType::Int, presence: Presence::Required },
            FieldSpec { name: "confidence", ty: FieldType::Single, presence: Presence::Optional },
            FieldSpec { name: "raw_values", ty: FieldType::Singles, presence: Presence::Optional },
            FieldSpec { name: "metadata", ty: FieldType::Entries, presence: Presence::Optional },
        ];
        assert(schema_view(r@) =~= Self::schema_spec());
        r
    }

    fn to_values(&self) -> (r: Vec<Value>) {
        let r = vec![
            put_instant(&self.timestamp),
            put_text(&self.device_id),
            put_int(&self.spo2),
            put_opt_single(&self.confidence),
            put_opt_singles(&self.raw_values),
            put_opt_entries(&self.metadata),
        ];
        assert(values_view(r@) =~= self.values());
        r
    }

    fn from_values(vals: &Vec<Value>) -> (r: Self) {
        proof {
            let s = Self::schema_spec();
            let v = values_view(vals@);
            assert(fits(s[0], v[0]));
            assert(fits(s[1], v[1]));
            assert(fits(s[2], v[2]));
            assert(fits(s[3], v[3]));
            assert(fits(s[4], v[4]));
            assert(fits(s[5], v[5]));
        }
        let r = BloodOxygenData {
            timestamp: take_instant(&vals[0]),
            device_id: take_text(&vals[1]),
            spo2: take_int(&vals[2]),
            confidence: take_opt_single(&vals[3]),
            raw_values: take_opt_singles(&vals[4]),
            metadata: take_opt_entries(&vals[5]),
        };
        assert(r.values() =~= values_view(vals@));
        r
    }

    proof fn lemma_schema() {
        reveal_strlit("timestamp");
        reveal_strlit("device_id");
        reveal_strlit("spo2");
        reveal_strlit("confidence");
        reveal_strlit("raw_values");
        reveal_strlit("metadata");
        assert("timestamp"@.len() == 9 && "timestamp"@[0] == 't' && "timestamp"@[1] == 'i' && "timestamp"@[2] == 'm' && "timestamp"@[3] == 'e' && "timestamp"@[4] == 's' && "timestamp"@[5] == 't' && "timestamp"@[6] == 'a' && "timestamp"@[7] == 'm' && "timestamp"@[8] == 'p');
        assert("device_id"@.len() == 9 && "device_id"@[0] == 'd' && "device_id"@[1] == 'e' && "device_id"@[2] == 'v' && "device_id"@[3] == 'i' && "device_id"@[4] == 'c' && "device_id"@[5] == 'e' && "device_id"@[6] == '_' && "device_id"@[7] == 'i' && "device_id"@[8] == 'd');
        assert("spo2"@.len() == 4 && "spo2"@[0] == 's' && "spo2"@[1] == 'p' && "spo2"@[2] == 'o' && "spo2"@[3] == '2');
        assert("confidence"@.len() == 10 && "confidence"@[0] == 'c' && "confidence"@[1] == 'o' && "confidence"@[2] == 'n' && "confidence"@[3] == 'f' && "confidence"@[4] == 'i' && "confidence"@[5] == 'd' && "confidence"@[6] == 'e' && "confidence"@[7] == 'n' && "confidence"@[8] == 'c' && "confidence"@[9] == 'e');
        assert("raw_values"@.len() == 10 && "raw_values"@[0] == 'r' && "raw_values"@[1] == 'a' && "raw_values"@[2] == 'w' && "raw_values"@[3] == '_' && "raw_values"@[4] == 'v' && "raw_values"@[5] == 'a' && "raw_values"@[6] == 'l' && "raw_values"@[7] == 'u' && "raw_values"@[8] == 'e' && "raw_values"@[9] == 's');
        assert("metadata"@.len() == 8 && "metadata"@[0] == 'm' && "metadata"@[1] == 'e' && "metadata"@[2] == 't' && "metadata"@[3] == 'a' && "metadata"@[4] == 'd' && "metadata"@[5] == 'a' && "metadata"@[6] == 't' && "metadata"@[7] == 'a');
        let s = Self::schema_spec();
        assert forall|i: int| 0 <= i < s.len() implies match (#[trigger] s[i]).presence {
            PresenceView::Default(d) => fits_type(s[i].ty, d),
            _ => true,
        } by {
        }
    }

    proof fn lemma_fits(&self) {
        reveal(bool_v);
        let s = Self::schema_spec();
        let v = self.values();
        assert forall|i: int| 0 <= i < s.len() implies fits(#[trigger] s[i], v[i]) by {
            if i == 0 {
                assert(fits(s[0], v[0]));
            } else if i == 1 {
                assert(fits(s[1], v[1]));
            } else if i == 2 {
                assert(fits(s[2], v[2]));
            } else if i == 3 {
                assert(fits(s[3], v[3]));
            } else if i == 4 {
                assert(fits(s[4], v[4]));
            } else if i == 5 {
                assert(fits(s[5], v[5]));
            }
        }
    }
}

impl Record for BloodOxygenData {
    open spec fn table_spec() -> Seq<char> {
        "blood_oxygen_data"@
    }

    open spec fn layout_spec() -> Layout {
        Layout::Timed
    }

    fn table_name() -> (r: &'static str) {
        "blood_oxygen_data"
    }

    fn layout() -> (r: Layout) {
        Layout::Timed
    }

    proof fn lemma_layout() {
        reveal_strlit("timestamp");
        reveal_strlit("device_id");
        assert("timestamp"@.len() == 9 && "timestamp"@[0] == 't' && "timestamp"@[1] == 'i' && "timestamp"@[2] == 'm' && "timestamp"@[3] == 'e' && "timestamp"@[4] == 's' && "timestamp"@[5] == 't' && "timestamp"@[6] == 'a' && "timestamp"@[7] == 'm' && "timestamp"@[8] == 'p');
        assert("device_id"@.len() == 9 && "device_id"@[0] == 'd' && "device_id"@[1] == 'e' && "device_id"@[2] == 'v' && "device_id"@[3] == 'i' && "device_id"@[4] == 'c' && "device_id"@[5] == 'e' && "device_id"@[6] == '_' && "device_id"@[7] == 'i' && "device_id"@[8] == 'd');
    }
}

impl BloodOxygenData {
    /// The record's document.
    pub fn to_json(&self) -> (r: Document)
        ensures
            doc_view(r@) == encode(Self::schema_spec(), self.values()),
    {
        marshal(self)
    }

    /// The record that `doc` holds, or the error of the first field (in schema order)
    /// that it cannot give.
    pub fn from_json(doc: &Document) -> (r: Result<Self, SchemaError>)
        ensures
            match r {
                Ok(x) => decode(Self::schema_spec(), doc_view(doc@)) == Ok::<_, (SchemaErrorKind, Seq<char>)>(x.values()) && x.wf(),
                Err(e) => decode(Self::schema_spec(), doc_view(doc@)) == Err::<Seq<ValueView>, _>(e@),
            },
    {
        unmarshal(doc)
    }
}

/// A stress estimate.
#[derive(Debug, Clone, PartialEq)]
pub struct StressData {
    pub timestamp: Timestamp,
    pub device_id: String,
    pub stress_score: i32,
    pub stress_level: Option<String>,
    /// IEEE-754 single-precision bits.
    pub hrv: Option<u32>,
    pub metadata: Option<Metadata>,
}

impl Fields for StressData {
    open spec fn schema_spec() -> Seq<FieldSpecView> {
        seq![
            FieldSpecView { name: "timestamp"@, ty: FieldType::Instant, presence: PresenceView::Required },
            FieldSpecView { name: "device_id"@, ty: FieldType::Text, presence: PresenceView::Required },
            FieldSpecView { name: "stress_score"@, ty: FieldType::Int, presence: PresenceView::Required },
            FieldSpecView { name: "stress_level"@, ty: FieldType::Text, presence: PresenceView::Optional },
            FieldSpecView { name: "hrv"@, ty: FieldType::Single, presence: PresenceView::Optional },
            FieldSpecView { name: "metadata"@, ty: FieldType::Entries, presence: PresenceView::Optional },
        ]
    }

    open spec fn values(&self) -> Seq<ValueView> {
        seq![
            instant_v(self.timestamp),
            text_v(self.device_id),
            int_v(self.stress_score),
            opt_text_v(self.stress_level),
            opt_single_v(self.hrv),
            opt_entries_v(self.metadata),
        ]
    }

    open spec fn wf(&self) -> bool {
        self.timestamp.wf()
    }

    fn schema() -> (r: Vec<FieldSpec>) {
        let r = vec![
            FieldSpec { name: "timestamp", ty: FieldType::Instant, presence: Presence::Required },
            FieldSpec { name: "device_id", ty: FieldType::Text, presence: Presence::Required },
            FieldSpec { name: "stress_score", ty: FieldType::Int, presence: Presence::Required },
            FieldSpec { name: "stress_level", ty: FieldType::Text, presence: Presence::Optional },
            FieldSpec { name: "hrv", ty: FieldType::Single, presence: Presence::Optional },
            FieldSpec { name: "metadata", ty: FieldType::Entries, presence: Presence::Optional },
        ];
        assert(schema_view(r@) =~= Self::schema_spec());
        r
    }

    fn to_values(&self) -> (r: Vec<Value>) {
        let r = vec![
            put_instant(&self.timestamp),
            put_text(&self.device_id),
            put_int(&self.stress_score),
            put_opt_text(&self.stress_level),
            put_opt_single(&self.hrv),
            put_opt_entries(&self.metadata),
        ];
        assert(values_view(r@) =~= self.values());
        r
    }

    fn from_values(vals: &Vec<Value>) -> (r: Self) {
        proof {
            let s = Self::schema_spec();
            let v = values_view(vals@);
            assert(fits(s[0], v[0]));
            assert(fits(s[1], v[1]));
            assert(fits(s[2], v[2]));
            assert(fits(s[3], v[3]));
            assert(fits(s[4], v[4]));
            assert(fits(s[5], v[5]));
        }
        let r = StressData {
            timestamp: take_instant(&vals[0]),
            device_id: take_text(&vals[1]),
            stress_score: take_int(&vals[2]),
            stress_level: take_opt_text(&vals[3]),
            hrv: take_opt_single(&vals[4]),
            metadata: take_opt_entries(&vals[5]),
        };
        assert(r.values() =~= values_view(vals@));
        r
    }

    proof fn lemma_schema() {
        reveal_strlit("timestamp");
        reveal_strlit("device_id");
        reveal_strlit("stress_score");
        reveal_strlit("stress_level");
        reveal_strlit("hrv");
        reveal_strlit("metadata");
        assert("timestamp"@.len() == 9 && "timestamp"@[0] == 't' && "timestamp"@[1] == 'i' && "timestamp"@[2] == 'm' && "timestamp"@[3] == 'e' && "timestamp"@[4] == 's' && "timestamp"@[5] == 't' && "timestamp"@[6] == 'a' && "timestamp"@[7] == 'm' && "timestamp"@[8] == 'p');
        assert("device_id"@.len() == 9 && "device_id"@[0] == 'd' && "device_id"@[1] == 'e' && "device_id"@[2] == 'v' && "device_id"@[3] == 'i' && "device_id"@[4] == 'c' && "device_id"@[5] == 'e' && "device_id"@[6] == '_' && "device_id"@[7] == 'i' && "device_id"@[8] == 'd');
        assert("stress_score"@.len() == 12 && "stress_score"@[0] == 's' && "stress_score"@[1] == 't' && "stress_score"@[2] == 'r' && "stress_score"@[3] == 'e' && "stress_score"@[4] == 's' && "stress_score"@[5] == 's' && "stress_score"@[6] == '_' && "stress_score"@[7] == 's' && "stress_score"@[8] == 'c' && "stress_score"@[9] == 'o' && "stress_score"@[10] == 'r' && "stress_score"@[11] == 'e');
        assert("stress_level"@.len() == 12 && "stress_level"@[0] == 's' && "stress_level"@[1] == 't' && "stress_level"@[2] == 'r' && "stress_level"@[3] == 'e' && "stress_level"@[4] == 's' && "stress_level"@[5] == 's' && "stress_level"@[6] == '_' && "stress_level"@[7] == 'l' && "stress_level"@[8] == 'e' && "stress_level"@[9] == 'v' && "stress_level"@[10] == 'e' && "stress_level"@[11] == 'l');
        assert("hrv"@.len() == 3 && "hrv"@[0] == 'h' && "hrv"@[1] == 'r' && "hrv"@[2] == 'v');
        assert("metadata"@.len() == 8 && "metadata"@[0] == 'm' && "metadata"@[1] == 'e' && "metadata"@[2] == 't' && "metadata"@[3] == 'a' && "metadata"@[4] == 'd' && "metadata"@[5] == 'a' && "metadata"@[6] == 't' && "metadata"@[7] == 'a');
        let s = Self::schema_spec();
        assert forall|i: int| 0 <= i < s.len() implies match (#[trigger] s[i]).presence {
            PresenceView::Default(d) => fits_type(s[i].ty, d),
            _ => true,
        } by {
        }
    }

    proof fn lemma_fits(&self) {
        reveal(bool_v);
        let s = Self::schema_spec();
        let v = self.values();
        assert forall|i: int| 0 <= i < s.len() implies fits(#[trigger] s[i], v[i]) by {
            if i == 0 {
                assert(fits(s[0], v[0]));
            } else if i == 1 {
                assert(fits(s[1], v[1]));
            } else if i == 2 {
                assert(fits(s[2], v[2]));
            } else if i == 3 {
                assert(fits(s[3], v[3]));
            } else if i == 4 {
                assert(fits(s[4], v[4]));
            } else if i == 5 {
                assert(fits(s[5], v[5]));
            }
        }
    }
}

impl Record for StressData {
    open spec fn table_spec() -> Seq<char> {
        "stress_data"@
    }

    open spec fn layout_spec() -> Layout {
        Layout::Timed
    }

    fn table_name() -> (r: &'static str) {
        "stress_data"
    }

    fn layout() -> (r: Layout) {
        Layout::Timed
    }

    proof fn lemma_layout() {
        reveal_strlit("timestamp");
        reveal_strlit("device_id");
        assert("timestamp"@.len() == 9 && "timestamp"@[0] == 't' && "timestamp"@[1] == 'i' && "timestamp"@[2] == 'm' && "timestamp"@[3] == 'e' && "timestamp"@[4] == 's' && "timestamp"@[5] == 't' && "timestamp"@[6] == 'a' && "timestamp"@[7] == 'm' && "timestamp"@[8] == 'p');
        assert("device_id"@.len() == 9 && "device_id"@[0] == 'd' && "device_id"@[1] == 'e' && "device_id"@[2] == 'v' && "device_id"@[3] == 'i' && "device_id"@[4] == 'c' && "device_id"@[5] == 'e' && "device_id"@[6] == '_' && "device_id"@[7] == 'i' && "device_id"@[8] == 'd');
    }
}

impl StressData {
    /// The record's document.
    pub fn to_json(&self) -> (r: Document)
        ensures
            doc_view(r@) == encode(Self::schema_spec(), self.values()),
    {
        marshal(self)
    }

    /// The record that `doc` holds, or the error of the first field (in schema order)
    /// that it cannot give.
    pub fn from_json(doc: &Document) -> (r: Result<Self, SchemaError>)
        ensures
            match r {
                Ok(x) => decode(Self::schema_spec(), doc_view(doc@)) == Ok::<_, (SchemaErrorKind, Seq<char>)>(x.values()) && x.wf(),
                Err(e) => decode(Self::schema_spec(), doc_view(doc@)) == Err::<Seq<ValueView>, _>(e@),
            },
    {
        unmarshal(doc)
    }
}

/// A proximity reading.
#[derive(Debug, Clone, PartialEq)]
pub struct ProximityData {
    pub timestamp: Timestamp,
    pub device_id: String,
    /// IEEE-754 single-precision bits.
    pub distance: u32,
    pub near: bool,
    pub metadata: Option<Metadata>,
}

impl Fields for ProximityData {
    open spec fn schema_spec() -> Seq<FieldSpecView> {
        seq![
            FieldSpecView { name: "timestamp"@, ty: FieldType::Instant, presence: PresenceView::Required },
            FieldSpecView { name: "device_id"@, ty: FieldType::Text, presence: PresenceView::Required },
            FieldSpecView { name: "distance"@, ty: FieldType::Single, presence: PresenceView::Required },
            FieldSpecView { name: "near"@, ty: FieldType::Bool, presence: PresenceView::Required },
            FieldSpecView { name: "metadata"@, ty: FieldType::Entries, presence: PresenceView::Optional },
        ]
    }

    open spec fn values(&self) -> Seq<ValueView> {
        seq![
            instant_v(self.timestamp),
            text_v(self.device_id),
            single_v(self.distance),
            bool_v(self.near),
            opt_entries_v(self.metadata),
        ]
    }

    open spec fn wf(&self) -> bool {
        self.timestamp.wf()
    }

    fn schema() -> (r: Vec<FieldSpec>) {
        let r = vec![
            FieldSpec { name: "timestamp", ty: FieldType::Instant, presence: Presence::Required },
            FieldSpec { name: "device_id", ty: FieldType::Text, presence: Presence::Required },
            FieldSpec { name: "distance", ty: FieldType::Single, presence: Presence::Required },
            FieldSpec { name: "near", ty: FieldType::Bool, presence: Presence::Required },
            FieldSpec { name: "metadata", ty: FieldType::Entries, presence: Presence::Optional },
        ];
        assert(schema_view(r@) =~= Self::schema_spec());
        r
    }

    fn to_values(&self) -> (r: Vec<Value>) {
        let r = vec![
            put_instant(&self.timestamp),
            put_text(&self.device_id),
            put_single(&self.distance),
            put_bool(&self.near),
            put_opt_entries(&self.metadata),
        ];
        assert(values_view(r@) =~= self.values());
        r
    }

    fn from_values(vals: &Vec<Value>) -> (r: Self) {
        proof {
            let s = Self::schema_spec();
            let v = values_view(vals@);
            assert(fits(s[0], v[0]));
            assert(fits(s[1], v[1]));
            assert(fits(s[2], v[2]));
            assert(fits(s[3], v[3]));
            assert(fits(s[4], v[4]));
        }
        let r = ProximityData {
            timestamp: take_instant(&vals[0]),
            device_id: take_text(&vals[1]),
            distance: take_single(&vals[2]),
            near: take_bool(&vals[3]),
            metadata: take_opt_entries(&vals[4]),
        };
        assert(r.values() =~= values_view(vals@));
        r
    }

    proof fn lemma_schema() {
        reveal_strlit("timestamp");
        reveal_strlit("device_id");
        reveal_strlit("distance");
        reveal_strlit("near");
        reveal_strlit("metadata");
        assert("timestamp"@.len() == 9 && "timestamp"@[0] == 't' && "timestamp"@[1] == 'i' && "timestamp"@[2] == 'm' && "timestamp"@[3] == 'e' && "timestamp"@[4] == 's' && "timestamp"@[5] == 't' && "timestamp"@[6] == 'a' && "timestamp"@[7] == 'm' && "timestamp"@[8] == 'p');
        assert("device_id"@.len() == 9 && "device_id"@[0] == 'd' && "device_id"@[1] == 'e' && "device_id"@[2] == 'v' && "device_id"@[3] == 'i' && "device_id"@[4] == 'c' && "device_id"@[5] == 'e' && "device_id"@[6] == '_' && "device_id"@[7] == 'i' && "device_id"@[8] == 'd');
        assert("distance"@.len() == 8 && "distance"@[0] == 'd' && "distance"@[1] == 'i' && "distance"@[2] == 's' && "distance"@[3] == 't' && "distance"@[4] == 'a' && "distance"@[5] == 'n' && "distance"@[6] == 'c' && "distance"@[7] == 'e');
        assert("near"@.len() == 4 && "near"@[0] == 'n' && "near"@[1] == 'e' && "near"@[2] == 'a' && "near"@[3] == 'r');
        assert("metadata"@.len() == 8 && "metadata"@[0] == 'm' && "metadata"@[1] == 'e' && "metadata"@[2] == 't' && "metadata"@[3] == 'a' && "metadata"@[4] == 'd' && "metadata"@[5] == 'a' && "metadata"@[6] == 't' && "metadata"@[7] == 'a');
        let s = Self::schema_spec();
        assert forall|i: int| 0 <= i < s.len() implies match (#[trigger] s[i]).presence {
            PresenceView::Default(d) => fits_type(s[i].ty, d),
            _ => true,
        } by {
        }
    }

    proof fn lemma_fits(&self) {
        reveal(bool_v);
        let s = Self::schema_spec();
        let v = self.values();
        assert forall|i: int| 0 <= i < s.len() implies fits(#[trigger] s[i], v[i]) by {
            if i == 0 {
                assert(fits(s[0], v[0]));
            } else if i == 1 {
                assert(fits(s[1], v[1]));
            } else if i == 2 {
                assert(fits(s[2], v[2]));
            } else if i == 3 {
                assert(fits(s[3], v[3]));
            } else if i == 4 {
                assert(fits(s[4], v[4]));
            }
        }
    }
}

impl Record for ProximityData {
    open spec fn table_spec() -> Seq<char> {
        "proximity_data"@
    }

    open spec fn layout_spec() -> Layout {
        Layout::Timed
    }

    fn table_name() -> (r: &'static str) {
        "proximity_data"
    }

    fn layout() -> (r: Layout) {
        Layout::Timed
    }

    proof fn lemma_layout() {
        reveal_strlit("timestamp");
        reveal_strlit("device_id");
        assert("timestamp"@.len() == 9 && "timestamp"@[0] == 't' && "timestamp"@[1] == 'i' && "timestamp"@[2] == 'm' && "timestamp"@[3] == 'e' && "timestamp"@[4] == 's' && "timestamp"@[5] == 't' && "timestamp"@[6] == 'a' && "timestamp"@[7] == 'm' && "timestamp"@[8] == 'p');
        assert("device_id"@.len() == 9 && "device_id"@[0] == 'd' && "device_id"@[1] == 'e' && "device_id"@[2] == 'v' && "device_id"@[3] == 'i' && "device_id"@[4] == 'c' && "device_id"@[5] == 'e' && "device_id"@[6] == '_' && "device_id"@[7] == 'i' && "device_id"@[8] == 'd');
    }
}

impl ProximityData {
    /// The record's document.
    pub fn to_json(&self) -> (r: Document)
        ensures
            doc_view(r@) == encode(Self::schema_spec(), self.values()),
    {
        marshal(self)
    }

    /// The record that `doc` holds, or the error of the first field (in schema order)
    /// that it cannot give.
    pub fn from_json(doc: &Document) -> (r: Result<Self, SchemaError>)
        ensures
            match r {
                Ok(x) => decode(Self::schema_spec(), doc_view(doc@)) == Ok::<_, (SchemaErrorKind, Seq<char>)>(x.values()) && x.wf(),
                Err(e) => decode(Self::schema_spec(), doc_view(doc@)) == Err::<Seq<ValueView>, _>(e@),
            },
    {
        unmarshal(doc)
    }
}

/// An ambient light reading.
#[derive(Debug, Clone, PartialEq)]
pub struct LightData {
    pub timestamp: Timestamp,
    pub device_id: String,
    /// IEEE-754 single-precision bits.
    pub lux: u32,
    pub metadata: Option<Metadata>,
}

impl Fields for LightData {
    open spec fn schema_spec() -> Seq<FieldSpecView> {
        seq![
            FieldSpecView { name: "timestamp"@, ty: FieldType::Instant, presence: PresenceView::Required },
            FieldSpecView { name: "device_id"@, ty: FieldType::Text, presence: PresenceView::Required },
            FieldSpecView { name: "lux"@, ty: FieldType::Single, presence: PresenceView::Required },
            FieldSpecView { name: "metadata"@, ty: FieldType::Entries, presence: PresenceView::Optional },
        ]
    }

    open spec fn values(&self) -> Seq<ValueView> {
        seq![
            instant_v(self.timestamp),
            text_v(self.device_id),
            single_v(self.lux),
            opt_entries_v(self.metadata),
        ]
    }

    open spec fn wf(&self) -> bool {
        self.timestamp.wf()
    }

    fn schema() -> (r: Vec<FieldSpec>) {
        let r = vec![
            FieldSpec { name: "timestamp", ty: FieldType::Instant, presence: Presence::Required },
            FieldSpec { name: "device_id", ty: FieldType::Text, presence: Presence::Required },
            FieldSpec { name: "lux", ty: FieldType::Single, presence: Presence::Required },
            FieldSpec { name: "metadata", ty: FieldType::Entries, presence: Presence::Optional },
        ];
        assert(schema_view(r@) =~= Self::schema_spec());
        r
    }

    fn to_values(&self) -> (r: Vec<Value>) {
        let r = vec![
            put_instant(&self.timestamp),
            put_text(&self.device_id),
            put_single(&self.lux),
            put_opt_entries(&self.metadata),
        ];
        assert(values_view(r@) =~= self.values());
        r
    }

    fn from_values(vals: &Vec<Value>) -> (r: Self) {
        proof {
            let s = Self::schema_spec();
            let v = values_view(vals@);
            assert(fits(s[0], v[0]));
            assert(fits(s[1], v[1]));
            assert(fits(s[2], v[2]));
            assert(fits(s[3], v[3]));
        }
        let r = LightData {
            timestamp: take_instant(&vals[0]),
            device_id: take_text(&vals[1]),
            lux: take_single(&vals[2]),
            metadata: take_opt_entries(&vals[3]),
        };
        assert(r.values() =~= values_view(vals@));
        r
    }

    proof fn lemma_schema() {
        reveal_strlit("timestamp");
        reveal_strlit("device_id");
        reveal_strlit("lux");
        reveal_strlit("metadata");
        assert("timestamp"@.len() == 9 && "timestamp"@[0] == 't' && "timestamp"@[1] == 'i' && "timestamp"@[2] == 'm' && "timestamp"@[3] == 'e' && "timestamp"@[4] == 's' && "timestamp"@[5] == 't' && "timestamp"@[6] == 'a' && "timestamp"@[7] == 'm' && "timestamp"@[8] == 'p');
        assert("device_id"@.len() == 9 && "device_id"@[0] == 'd' && "device_id"@[1] == 'e' && "device_id"@[2] == 'v' && "device_id"@[3] == 'i' && "device_id"@[4] == 'c' && "device_id"@[5] == 'e' && "device_id"@[6] == '_' && "device_id"@[7] == 'i' && "device_id"@[8] == 'd');
        assert("lux"@.len() == 3 && "lux"@[0] == 'l' && "lux"@[1] == 'u' && "lux"@[2] == 'x');
        assert("metadata"@.len() == 8 && "metadata"@[0] == 'm' && "metadata"@[1] == 'e' && "metadata"@[2] == 't' && "metadata"@[3] == 'a' && "metadata"@[4] == 'd' && "metadata"@[5] == 'a' && "metadata"@[6] == 't' && "metadata"@[7] == 'a');
        let s = Self::schema_spec();
        assert forall|i: int| 0 <= i < s.len() implies match (#[trigger] s[i]).presence {
            PresenceView::Default(d) => fits_type(s[i].ty, d),
            _ => true,
        } by {
        }
    }

    proof fn lemma_fits(&self) {
        reveal(bool_v);
        let s = Self::schema_spec();
        let v = self.values();
        assert forall|i: int| 0 <= i < s.len() implies fits(#[trigger] s[i], v[i]) by {
            if i == 0 {
                assert(fits(s[0], v[0]));
            } else if i == 1 {
                assert(fits(s[1], v[1]));
            } else if i == 2 {
                assert(fits(s[2], v[2]));
            } else if i == 3 {
                assert(fits(s[3], v[3]));
            }
        }
    }
}

impl Record for LightData {
    open spec fn table_spec() -> Seq<char> {
        "light_data"@
    }

    open spec fn layout_spec() -> Layout {
        Layout::Timed
    }

    fn table_name() -> (r: &'static str) {
        "light_data"
    }

    fn layout() -> (r: Layout) {
        Layout::Timed
    }

    proof fn lemma_layout() {
        reveal_strlit("timestamp");
        reveal_strlit("device_id");
        assert("timestamp"@.len() == 9 && "timestamp"@[0] == 't' && "timestamp"@[1] == 'i' && "timestamp"@[2] == 'm' && "timestamp"@[3] == 'e' && "timestamp"@[4] == 's' && "timestamp"@[5] == 't' && "timestamp"@[6] == 'a' && "timestamp"@[7] == 'm' && "timestamp"@[8] == 'p');
        assert("device_id"@.len() == 9 && "device_id"@[0] == 'd' && "device_id"@[1] == 'e' && "device_id"@[2] == 'v' && "device_id"@[3] == 'i' && "device_id"@[4] == 'c' && "device_id"@[5] == 'e' && "device_id"@[6] == '_' && "device_id"@[7] == 'i' && "device_id"@[8] == 'd');
    }
}

impl LightData {
    /// The record's document.
    pub fn to_json(&self) -> (r: Document)
        ensures
            doc_view(r@) == encode(Self::schema_spec(), self.values()),
    {
        marshal(self)
    }

    /// The record that `doc` holds, or the error of the first field (in schema order)
    /// that it cannot give.
    pub fn from_json(doc: &Document) -> (r: Result<Self, SchemaError>)
        ensures
            match r {
                Ok(x) => decode(Self::schema_spec(), doc_view(doc@)) == Ok::<_, (SchemaErrorKind, Seq<char>)>(x.values()) && x.wf(),
                Err(e) => decode(Self::schema_spec(), doc_view(doc@)) == Err::<Seq<ValueView>, _>(e@),
            },
    {
        unmarshal(doc)
    }
}

/// A barometric pressure reading.
#[derive(Debug, Clone, PartialEq)]
pub struct PressureData {
    pub timestamp: Timestamp,
    pub device_id: String,
    /// IEEE-754 single-precision bits.
    pub hectopascals: u32,
    pub metadata: Option<Metadata>,
}

impl Fields for PressureData {
    open spec fn schema_spec() -> Seq<FieldSpecView> {
        seq![
            FieldSpecView { name: "timestamp"@, ty: FieldType::Instant, presence: PresenceView::Required },
            FieldSpecView { name: "device_id"@, ty: FieldType::Text, presence: PresenceView::Required },
            FieldSpecView { name: "hectopascals"@, ty: FieldType::Single, presence: PresenceView::Required },
            FieldSpecView { name: "metadata"@, ty: FieldType::Entries, presence: PresenceView::Optional },
        ]
    }

    open spec fn values(&self) -> Seq<ValueView> {
        seq![
            instant_v(self.timestamp),
            text_v(self.device_id),
            single_v(self.hectopascals),
            opt_entries_v(self.metadata),
        ]
    }

    open spec fn wf(&self) -> bool {
        self.timestamp.wf()
    }

    fn schema() -> (r: Vec<FieldSpec>) {
        let r = vec![
            FieldSpec { name: "timestamp", ty: FieldType::Instant, presence: Presence::Required },
            FieldSpec { name: "device_id", ty: FieldType::Text, presence: Presence::Required },
            FieldSpec { name: "hectopascals", ty: FieldType::Single, presence: Presence::Required },
            FieldSpec { name: "metadata", ty: FieldType::Entries, presence: Presence::Optional },
        ];
        assert(schema_view(r@) =~= Self::schema_spec());
        r
    }

    fn to_values(&self) -> (r: Vec<Value>) {
        let r = vec![
            put_instant(&self.timestamp),
            put_text(&self.device_id),
            put_single(&self.hectopascals),
            put_opt_entries(&self.metadata),
        ];
        assert(values_view(r@) =~= self.values());
        r
    }

    fn from_values(vals: &Vec<Value>) -> (r: Self) {
        proof {
            let s = Self::schema_spec();
            let v = values_view(vals@);
            assert(fits(s[0], v[0]));
            assert(fits(s[1], v[1]));
            assert(fits(s[2], v[2]));
            assert(fits(s[3], v[3]));
        }
        let r = PressureData {
            timestamp: take_instant(&vals[0]),
            device_id: take_text(&vals[1]),
            hectopascals: take_single(&vals[2]),
            metadata: take_opt_entries(&vals[3]),
        };
        assert(r.values() =~= values_view(vals@));
        r
    }

    proof fn lemma_schema() {
        reveal_strlit("timestamp");
        reveal_strlit("device_id");
        reveal_strlit("hectopascals");
        reveal_strlit("metadata");
        assert("timestamp"@.len() == 9 && "timestamp"@[0] == 't' && "timestamp"@[1] == 'i' && "timestamp"@[2] == 'm' && "timestamp"@[3] == 'e' && "timestamp"@[4] == 's' && "timestamp"@[5] == 't' && "timestamp"@[6] == 'a' && "timestamp"@[7] == 'm' && "timestamp"@[8] == 'p');
        assert("device_id"@.len() == 9 && "device_id"@[0] == 'd' && "device_id"@[1] == 'e' && "device_id"@[2] == 'v' && "device_id"@[3] == 'i' && "device_id"@[4] == 'c' && "device_id"@[5] == 'e' && "device_id"@[6] == '_' && "device_id"@[7] == 'i' && "device_id"@[8] == 'd');
        assert("hectopascals"@.len() == 12 && "hectopascals"@[0] == 'h' && "hectopascals"@[1] == 'e' && "hectopascals"@[2] == 'c' && "hectopascals"@[3] == 't' && "hectopascals"@[4] == 'o' && "hectopascals"@[5] == 'p' && "hectopascals"@[6] == 'a' && "hectopascals"@[7] == 's' && "hectopascals"@[8] == 'c' && "hectopascals"@[9] == 'a' && "hectopascals"@[10] == 'l' && "hectopascals"@[11] == 's');
        assert("metadata"@.len() == 8 && "metadata"@[0] == 'm' && "metadata"@[1] == 'e' && "metadata"@[2] == 't' && "metadata"@[3] == 'a' && "metadata"@[4] == 'd' && "metadata"@[5] == 'a' && "metadata"@[6] == 't' && "metadata"@[7] == 'a');
        let s = Self::schema_spec();
        assert forall|i: int| 0 <= i < s.len() implies match (#[trigger] s[i]).presence {
            PresenceView::Default(d) => fits_type(s[i].ty, d),
            _ => true,
        } by {
        }
    }

    proof fn lemma_fits(&self) {
        reveal(bool_v);
        let s = Self::schema_spec();
        let v = self.values();
        assert forall|i: int| 0 <= i < s.len() implies fits(#[trigger] s[i], v[i]) by {
            if i == 0 {
                assert(fits(s[0], v[0]));
            } else if i == 1 {
                assert(fits(s[1], v[1]));
            } else if i == 2 {
                assert(fits(s[2], v[2]));
            } else if i == 3 {
                assert(fits(s[3], v[3]));
            }
        }
    }
}

impl Record for PressureData {
    open spec fn table_spec() -> Seq<char> {
        "pressure_data"@
    }

    open spec fn layout_spec() -> Layout {
        Layout::Timed
    }

    fn table_name() -> (r: &'static str) {
        "pressure_data"
    }

    fn layout() -> (r: Layout) {
        Layout::Timed
    }

    proof fn lemma_layout() {
        reveal_strlit("timestamp");
        reveal_strlit("device_id");
        assert("timestamp"@.len() == 9 && "timestamp"@[0] == 't' && "timestamp"@[1] == 'i' && "timestamp"@[2] == 'm' && "timestamp"@[3] == 'e' && "timestamp"@[4] == 's' && "timestamp"@[5] == 't' && "timestamp"@[6] == 'a' && "timestamp"@[7] == 'm' && "timestamp"@[8] == 'p');
        assert("device_id"@.len() == 9 && "device_id"@[0] == 'd' && "device_id"@[1] == 'e' && "device_id"@[2] == 'v' && "device_id"@[3] == 'i' && "device_id"@[4] == 'c' && "device_id"@[5] == 'e' && "device_id"@[6] == '_' && "device_id"@[7] == 'i' && "device_id"@[8] == 'd');
    }
}

impl PressureData {
    /// The record's document.
    pub fn to_json(&self) -> (r: Document)
        ensures
            doc_view(r@) == encode(Self::schema_spec(), self.values()),
    {
        marshal(self)
    }

    /// The record that `doc` holds, or the error of the first field (in schema order)
    /// that it cannot give.
    pub fn from_json(doc: &Document) -> (r: Result<Self, SchemaError>)
        ensures
            match r {
                Ok(x) => decode(Self::schema_spec(), doc_view(doc@)) == Ok::<_, (SchemaErrorKind, Seq<char>)>(x.values()) && x.wf(),
                Err(e) => decode(Self::schema_spec(), doc_view(doc@)) == Err::<Seq<ValueView>, _>(e@),
            },
    {
        unmarshal(doc)
    }
}

/// A temperature reading.
#[derive(Debug, Clone, PartialEq)]
pub struct TemperatureData {
    pub timestamp: Timestamp,
    pub device_id: String,
    /// IEEE-754 single-precision bits.
    pub celsius: u32,
    pub metadata: Option<Metadata>,
}

impl Fields for TemperatureData {
    open spec fn schema_spec() -> Seq<FieldSpecView> {
        seq![
            FieldSpecView { name: "timestamp"@, ty: FieldType::Instant, presence: PresenceView::Required },
            FieldSpecView { name: "device_id"@, ty: FieldType::Text, presence: PresenceView::Required },
            FieldSpecView { name: "celsius"@, ty: FieldType::Single, presence: PresenceView::Required },
            FieldSpecView { name: "metadata"@, ty: FieldType::Entries, presence: PresenceView::Optional },
        ]
    }

    open spec fn values(&self) -> Seq<ValueView> {
        seq![
            instant_v(self.timestamp),
            text_v(self.device_id),
            single_v(self.celsius),
            opt_entries_v(self.metadata),
        ]
    }

    open spec fn wf(&self) -> bool {
        self.timestamp.wf()
    }

    fn schema() -> (r: Vec<FieldSpec>) {
        let r = vec![
            FieldSpec { name: "timestamp", ty: FieldType::Instant, presence: Presence::Required },
            FieldSpec { name: "device_id", ty: FieldType::Text, presence: Presence::Required },
            FieldSpec { name: "celsius", ty: FieldType::Single, presence: Presence::Required },
            FieldSpec { name: "metadata", ty: FieldType::Entries, presence: Presence::Optional },
        ];
        assert(schema_view(r@) =~= Self::schema_spec());
        r
    }

    fn to_values(&self) -> (r: Vec<Value>) {
        let r = vec![
            put_instant(&self.timestamp),
            put_text(&self.device_id),
            put_single(&self.celsius),
            put_opt_entries(&self.metadata),
        ];
        assert(values_view(r@) =~= self.values());
        r
    }

    fn from_values(vals: &Vec<Value>) -> (r: Self) {
        proof {
            let s = Self::schema_spec();
            let v = values_view(vals@);
            assert(fits(s[0], v[0]));
            assert(fits(s[1], v[1]));
            assert(fits(s[2], v[2]));
            assert(fits(s[3], v[3]));
        }
        let r = TemperatureData {
            timestamp: take_instant(&vals[0]),
            device_id: take_text(&vals[1]),
            celsius: take_single(&vals[2]),
            metadata: take_opt_entries(&vals[3]),
        };
        assert(r.values() =~= values_view(vals@));
        r
    }

    proof fn lemma_schema() {
        reveal_strlit("timestamp");
        reveal_strlit("device_id");
        reveal_strlit("celsius");
        reveal_strlit("metadata");
        assert("timestamp"@.len() == 9 && "timestamp"@[0] == 't' && "timestamp"@[1] == 'i' && "timestamp"@[2] == 'm' && "timestamp"@[3] == 'e' && "timestamp"@[4] == 's' && "timestamp"@[5] == 't' && "timestamp"@[6] == 'a' && "timestamp"@[7] == 'm' && "timestamp"@[8] == 'p');
        assert("device_id"@.len() == 9 && "device_id"@[0] == 'd' && "device_id"@[1] == 'e' && "device_id"@[2] == 'v' && "device_id"@[3] == 'i' && "device_id"@[4] == 'c' && "device_id"@[5] == 'e' && "device_id"@[6] == '_' && "device_id"@[7] == 'i' && "device_id"@[8] == 'd');
        assert("celsius"@.len() == 7 && "celsius"@[0] == 'c' && "celsius"@[1] == 'e' && "celsius"@[2] == 'l' && "celsius"@[3] == 's' && "celsius"@[4] == 'i' && "celsius"@[5] == 'u' && "celsius"@[6] == 's');
        assert("metadata"@.len() == 8 && "metadata"@[0] == 'm' && "metadata"@[1] == 'e' && "metadata"@[2] == 't' && "metadata"@[3] == 'a' && "metadata"@[4] == 'd' && "metadata"@[5] == 'a' && "metadata"@[6] == 't' && "metadata"@[7] == 'a');
        let s = Self::schema_spec();
        assert forall|i: int| 0 <= i < s.len() implies match (#[trigger] s[i]).presence {
            PresenceView::Default(d) => fits_type(s[i].ty, d),
            _ => true,
        } by {
        }
    }

    proof fn lemma_fits(&self) {
        reveal(bool_v);
        let s = Self::schema_spec();
        let v = self.values();
        assert forall|i: int| 0 <= i < s.len() implies fits(#[trigger] s[i], v[i]) by {
            if i == 0 {
                assert(fits(s[0], v[0]));
            } else if i == 1 {
                assert(fits(s[1], v[1]));
            } else if i == 2 {
                assert(fits(s[2], v[2]));
            } else if i == 3 {
                assert(fits(s[3], v[3]));
            }
        }
    }
}

impl Record for TemperatureData {
    open spec fn table_spec() -> Seq<char> {
        "temperature_data"@
    }

    open spec fn layout_spec() -> Layout {
        Layout::Timed
    }

    fn table_name() -> (r: &'static str) {
        "temperature_data"
    }

    fn layout() -> (r: Layout) {
        Layout::Timed
    }

    proof fn lemma_layout() {
        reveal_strlit("timestamp");
        reveal_strlit("device_id");
        assert("timestamp"@.len() == 9 && "timestamp"@[0] == 't' && "timestamp"@[1] == 'i' && "timestamp"@[2] == 'm' && "timestamp"@[3] == 'e' && "timestamp"@[4] == 's' && "timestamp"@[5] == 't' && "timestamp"@[6] == 'a' && "timestamp"@[7] == 'm' && "timestamp"@[8] == 'p');
        assert("device_id"@.len() == 9 && "device_id"@[0] == 'd' && "device_id"@[1] == 'e' && "device_id"@[2] == 'v' && "device_id"@[3] == 'i' && "device_id"@[4] == 'c' && "device_id"@[5] == 'e' && "device_id"@[6] == '_' && "device_id"@[7] == 'i' && "device_id"@[8] == 'd');
    }
}

impl TemperatureData {
    /// The record's document.
    pub fn to_json(&self) -> (r: Document)
        ensures
            doc_view(r@) == encode(Self::schema_spec(), self.values()),
    {
        marshal(self)
    }

    /// The record that `doc` holds, or the error of the first field (in schema order)
    /// that it cannot give.
    pub fn from_json(doc: &Document) -> (r: Result<Self, SchemaError>)
        ensures
            match r {
                Ok(x) => decode(Self::schema_spec(), doc_view(doc@)) == Ok::<_, (SchemaErrorKind, Seq<char>)>(x.values()) && x.wf(),
                Err(e) => decode(Self::schema_spec(), doc_view(doc@)) == Err::<Seq<ValueView>, _>(e@),
            },
    {
        unmarshal(doc)
    }
}

/// A relative humidity reading.
#[derive(Debug, Clone, PartialEq)]
pub struct HumidityData {
    pub timestamp: Timestamp,
    pub device_id: String,
    /// IEEE-754 single-precision bits.
    pub percentage: u32,
    pub metadata: Option<Metadata>,
}

impl Fields for HumidityData {
    open spec fn schema_spec() -> Seq<FieldSpecView> {
        seq![
            FieldSpecView { name: "timestamp"@, ty: FieldType::Instant, presence: PresenceView::Required },
            FieldSpecView { name: "device_id"@, ty: FieldType::Text, presence: PresenceView::Required },
            FieldSpecView { name: "percentage"@, ty: FieldType::Single, presence: PresenceView::Required },
            FieldSpecView { name: "metadata"@, ty: FieldType::Entries, presence: PresenceView::Optional },
        ]
    }

    open spec fn values(&self) -> Seq<ValueView> {
        seq![
            instant_v(self.timestamp),
            text_v(self.device_id),
            single_v(self.percentage),
            opt_entries_v(self.metadata),
        ]
    }

    open spec fn wf(&self) -> bool {
        self.timestamp.wf()
    }

    fn schema() -> (r: Vec<FieldSpec>) {
        let r = vec![
            FieldSpec { name: "timestamp", ty: FieldType::Instant, presence: Presence::Required },
            FieldSpec { name: "device_id", ty: FieldType::Text, presence: Presence::Required },
            FieldSpec { name: "percentage", ty: FieldType::Single, presence: Presence::Required },
            FieldSpec { name: "metadata", ty: FieldType::Entries, presence: Presence::Optional },
        ];
        assert(schema_view(r@) =~= Self::schema_spec());
        r
    }

    fn to_values(&self) -> (r: Vec<Value>) {
        let r = vec![
            put_instant(&self.timestamp),
            put_text(&self.device_id),
            put_single(&self.percentage),
            put_opt_entries(&self.metadata),
        ];
        assert(values_view(r@) =~= self.values());
        r
    }

    fn from_values(vals: &Vec<Value>) -> (r: Self) {
        proof {
            let s = Self::schema_spec();
            let v = values_view(vals@);
            assert(fits(s[0], v[0]));
            assert(fits(s[1], v[1]));
            assert(fits(s[2], v[2]));
            assert(fits(s[3], v[3]));
        }
        let r = HumidityData {
            timestamp: take_instant(&vals[0]),
            device_id: take_text(&vals[1]),
            percentage: take_single(&vals[2]),
            metadata: take_opt_entries(&vals[3]),
        };
        assert(r.values() =~= values_view(vals@));
        r
    }

    proof fn lemma_schema() {
        reveal_strlit("timestamp");
        reveal_strlit("device_id");
        reveal_strlit("percentage");
        reveal_strlit("metadata");
        assert("timestamp"@.len() == 9 && "timestamp"@[0] == 't' && "timestamp"@[1] == 'i' && "timestamp"@[2] == 'm' && "timestamp"@[3] == 'e' && "timestamp"@[4] == 's' && "timestamp"@[5] == 't' && "timestamp"@[6] == 'a' && "timestamp"@[7] == 'm' && "timestamp"@[8] == 'p');
        assert("device_id"@.len() == 9 && "device_id"@[0] == 'd' && "device_id"@[1] == 'e' && "device_id"@[2] == 'v' && "device_id"@[3] == 'i' && "device_id"@[4] == 'c' && "device_id"@[5] == 'e' && "device_id"@[6] == '_' && "device_id"@[7] == 'i' && "device_id"@[8] == 'd');
        assert("percentage"@.len() == 10 && "percentage"@[0] == 'p' && "percentage"@[1] == 'e' && "percentage"@[2] == 'r' && "percentage"@[3] == 'c' && "percentage"@[4] == 'e' && "percentage"@[5] == 'n' && "percentage"@[6] == 't' && "percentage"@[7] == 'a' && "percentage"@[8] == 'g' && "percentage"@[9] == 'e');
        assert("metadata"@.len() == 8 && "metadata"@[0] == 'm' && "metadata"@[1] == 'e' && "metadata"@[2] == 't' && "metadata"@[3] == 'a' && "metadata"@[4] == 'd' && "metadata"@[5] == 'a' && "metadata"@[6] == 't' && "metadata"@[7] == 'a');
        let s = Self::schema_spec();
        assert forall|i: int| 0 <= i < s.len() implies match (#[trigger] s[i]).presence {
            PresenceView::Default(d) => fits_type(s[i].ty, d),
            _ => true,
        } by {
        }
    }

    proof fn lemma_fits(&self) {
        reveal(bool_v);
        let s = Self::schema_spec();
        let v = self.values();
        assert forall|i: int| 0 <= i < s.len() implies fits(#[trigger] s[i], v[i]) by {
            if i == 0 {
                assert(fits(s[0], v[0]));
            } else if i == 1 {
                assert(fits(s[1], v[1]));
            } else if i == 2 {
                assert(fits(s[2], v[2]));
            } else if i == 3 {
                assert(fits(s[3], v[3]));
            }
        }
    }
}

impl Record for HumidityData {
    open spec fn table_spec() -> Seq<char> {
        "humidity_data"@
    }

    open spec fn layout_spec() -> Layout {
        Layout::Timed
    }

    fn table_name() -> (r: &'static str) {
        "humidity_data"
    }

    fn layout() -> (r: Layout) {
        Layout::Timed
    }

    proof fn lemma_layout() {
        reveal_strlit("timestamp");
        reveal_strlit("device_id");
        assert("timestamp"@.len() == 9 && "timestamp"@[0] == 't' && "timestamp"@[1] == 'i' && "timestamp"@[2] == 'm' && "timestamp"@[3] == 'e' && "timestamp"@[4] == 's' && "timestamp"@[5] == 't' && "timestamp"@[6] == 'a' && "timestamp"@[7] == 'm' && "timestamp"@[8] == 'p');
        assert("device_id"@.len() == 9 && "device_id"@[0] == 'd' && "device_id"@[1] == 'e' && "device_id"@[2] == 'v' && "device_id"@[3] == 'i' && "device_id"@[4] == 'c' && "device_id"@[5] == 'e' && "device_id"@[6] == '_' && "device_id"@[7] == 'i' && "device_id"@[8] == 'd');
    }
}

impl HumidityData {
    /// The record's document.
    pub fn to_json(&self) -> (r: Document)
        ensures
            doc_view(r@) == encode(Self::schema_spec(), self.values()),
    {
        marshal(self)
    }

    /// The record that `doc` holds, or the error of the first field (in schema order)
    /// that it cannot give.
    pub fn from_json(doc: &Document) -> (r: Result<Self, SchemaError>)
        ensures
            match r {
                Ok(x) => decode(Self::schema_spec(), doc_view(doc@)) == Ok::<_, (SchemaErrorKind, Seq<char>)>(x.values()) && x.wf(),
                Err(e) => decode(Self::schema_spec(), doc_view(doc@)) == Err::<Seq<ValueView>, _>(e@),
            },
    {
        unmarshal(doc)
    }
}

/// A step count.
#[derive(Debug, Clone, PartialEq)]
pub struct StepCountData {
    pub timestamp: Timestamp,
    pub device_id: String,
    pub steps: i32,
    pub activity_type: Option<String>,
    /// IEEE-754 single-precision bits.
    pub confidence: Option<u32>,
    pub metadata: Option<Metadata>,
}

impl Fields for StepCountData {
    open spec fn schema_spec() -> Seq<FieldSpecView> {
        seq![
            FieldSpecView { name: "timestamp"@, ty: FieldType::Instant, presence: PresenceView::Required },
            FieldSpecView { name: "device_id"@, ty: FieldType::Text, presence: PresenceView::Required },
            FieldSpecView { name: "steps"@, ty: FieldType::Int, presence: PresenceView::Required },
            FieldSpecView { name: "activity_type"@, ty: FieldType::Text, presence: PresenceView::Optional },
            FieldSpecView { name: "confidence"@, ty: FieldType::Single, presence: PresenceView::Optional },
            FieldSpecView { name: "metadata"@, ty: FieldType::Entries, presence: PresenceView::Optional },
        ]
    }

    open spec fn values(&self) -> Seq<ValueView> {
        seq![
            instant_v(self.timestamp),
            text_v(self.device_id),
            int_v(self.steps),
            opt_text_v(self.activity_type),
            opt_single_v(self.confidence),
            opt_entries_v(self.metadata),
        ]
    }

    open spec fn wf(&self) -> bool {
        self.timestamp.wf()
    }

    fn schema() -> (r: Vec<FieldSpec>) {
        let r = vec![
            FieldSpec { name: "timestamp", ty: FieldType::Instant, presence: Presence::Required },
            FieldSpec { name: "device_id", ty: FieldType::Text, presence: Presence::Required },
            FieldSpec { name: "steps", ty: FieldType::Int, presence: Presence::Required },
            FieldSpec { name: "activity_type", ty: FieldType::Text, presence: Presence::Optional },
            FieldSpec { name: "confidence", ty: FieldType::Single, presence: Presence::Optional },
            FieldSpec { name: "metadata", ty: FieldType::Entries, presence: Presence::Optional },
        ];
        assert(schema_view(r@) =~= Self::schema_spec());
        r
    }

    fn to_values(&self) -> (r: Vec<Value>) {
        let r = vec![
            put_instant(&self.timestamp),
            put_text(&self.device_id),
            put_int(&self.steps),
            put_opt_text(&self.activity_type),
            put_opt_single(&self.confidence),
            put_opt_entries(&self.metadata),
        ];
        assert(values_view(r@) =~= self.values());
        r
    }

    fn from_values(vals: &Vec<Value>) -> (r: Self) {
        proof {
            let s = Self::schema_spec();
            let v = values_view(vals@);
            assert(fits(s[0], v[0]));
            assert(fits(s[1], v[1]));
            assert(fits(s[2], v[2]));
            assert(fits(s[3], v[3]));
            assert(fits(s[4], v[4]));
            assert(fits(s[5], v[5]));
        }
        let r = StepCountData {
            timestamp: take_instant(&vals[0]),
            device_id: take_text(&vals[1]),
            steps: take_int(&vals[2]),
            activity_type: take_opt_text(&vals[3]),
            confidence: take_opt_single(&vals[4]),
            metadata: take_opt_entries(&vals[5]),
        };
        assert(r.values() =~= values_view(vals@));
        r
    }

    proof fn lemma_schema() {
        reveal_strlit("timestamp");
        reveal_strlit("device_id");
        reveal_strlit("steps");
        reveal_strlit("activity_type");
        reveal_strlit("confidence");
        reveal_strlit("metadata");
        assert("timestamp"@.len() == 9 && "timestamp"@[0] == 't' && "timestamp"@[1] == 'i' && "timestamp"@[2] == 'm' && "timestamp"@[3] == 'e' && "timestamp"@[4] == 's' && "timestamp"@[5] == 't' && "timestamp"@[6] == 'a' && "timestamp"@[7] == 'm' && "timestamp"@[8] == 'p');
        assert("device_id"@.len() == 9 && "device_id"@[0] == 'd' && "device_id"@[1] == 'e' && "device_id"@[2] == 'v' && "device_id"@[3] == 'i' && "device_id"@[4] == 'c' && "device_id"@[5] == 'e' && "device_id"@[6] == '_' && "device_id"@[7] == 'i' && "device_id"@[8] == 'd');
        assert("steps"@.len() == 5 && "steps"@[0] == 's' && "steps"@[1] == 't' && "steps"@[2] == 'e' && "steps"@[3] == 'p' && "steps"@[4] == 's');
        assert("activity_type"@.len() == 13 && "activity_type"@[0] == 'a' && "activity_type"@[1] == 'c' && "activity_type"@[2] == 't' && "activity_type"@[3] == 'i' && "activity_type"@[4] == 'v' && "activity_type"@[5] == 'i' && "activity_type"@[6] == 't' && "activity_type"@[7] == 'y' && "activity_type"@[8] == '_' && "activity_type"@[9] == 't' && "activity_type"@[10] == 'y' && "activity_type"@[11] == 'p' && "activity_type"@[12] == 'e');
        assert("confidence"@.len() == 10 && "confidence"@[0] == 'c' && "confidence"@[1] == 'o' && "confidence"@[2] == 'n' && "confidence"@[3] == 'f' && "confidence"@[4] == 'i' && "confidence"@[5] == 'd' && "confidence"@[6] == 'e' && "confidence"@[7] == 'n' && "confidence"@[8] == 'c' && "confidence"@[9] == 'e');
        assert("metadata"@.len() == 8 && "metadata"@[0] == 'm' && "metadata"@[1] == 'e' && "metadata"@[2] == 't' && "metadata"@[3] == 'a' && "metadata"@[4] == 'd' && "metadata"@[5] == 'a' && "metadata"@[6] == 't' && "metadata"@[7] == 'a');
        let s = Self::schema_spec();
        assert forall|i: int| 0 <= i < s.len() implies match (#[trigger] s[i]).presence {
            PresenceView::Default(d) => fits_type(s[i].ty, d),
            _ => true,
        } by {
        }
    }

    proof fn lemma_fits(&self) {
        reveal(bool_v);
        let s = Self::schema_spec();
        let v = self.values();
        assert forall|i: int| 0 <= i < s.len() implies fits(#[trigger] s[i], v[i]) by {
            if i == 0 {
                assert(fits(s[0], v[0]));
            } else if i == 1 {
                assert(fits(s[1], v[1]));
            } else if i == 2 {
                assert(fits(s[2], v[2]));
            } else if i == 3 {
                assert(fits(s[3], v[3]));
            } else if i == 4 {
                assert(fits(s[4], v[4]));
            } else if i == 5 {
                assert(fits(s[5], v[5]));
            }
        }
    }
}

impl Record for StepCountData {
    open spec fn table_spec() -> Seq<char> {
        "step_count_data"@
    }

    open spec fn layout_spec() -> Layout {
        Layout::Timed
    }

    fn table_name() -> (r: &'static str) {
        "step_count_data"
    }

    fn layout() -> (r: Layout) {
        Layout::Timed
    }

    proof fn lemma_layout() {
        reveal_strlit("timestamp");
        reveal_strlit("device_id");
        assert("timestamp"@.len() == 9 && "timestamp"@[0] == 't' && "timestamp"@[1] == 'i' && "timestamp"@[2] == 'm' && "timestamp"@[3] == 'e' && "timestamp"@[4] == 's' && "timestamp"@[5] == 't' && "timestamp"@[6] == 'a' && "timestamp"@[7] == 'm' && "timestamp"@[8] == 'p');
        assert("device_id"@.len() == 9 && "device_id"@[0] == 'd' && "device_id"@[1] == 'e' && "device_id"@[2] == 'v' && "device_id"@[3] == 'i' && "device_id"@[4] == 'c' && "device_id"@[5] == 'e' && "device_id"@[6] == '_' && "device_id"@[7] == 'i' && "device_id"@[8] == 'd');
    }
}

impl StepCountData {
    /// The record's document.
    pub fn to_json(&self) -> (r: Document)
        ensures
            doc_view(r@) == encode(Self::schema_spec(), self.values()),
    {
        marshal(self)
    }

    /// The record that `doc` holds, or the error of the first field (in schema order)
    /// that it cannot give.
    pub fn from_json(doc: &Document) -> (r: Result<Self, SchemaError>)
        ensures
            match r {
                Ok(x) => decode(Self::schema_spec(), doc_view(doc@)) == Ok::<_, (SchemaErrorKind, Seq<char>)>(x.values()) && x.wf(),
                Err(e) => decode(Self::schema_spec(), doc_view(doc@)) == Err::<Seq<ValueView>, _>(e@),
            },
    {
        unmarshal(doc)
    }
}

/// An ambient sound level.
#[derive(Debug, Clone, PartialEq)]
pub struct AudioLevelData {
    pub timestamp: Timestamp,
    pub device_id: String,
    /// IEEE-754 single-precision bits.
    pub db: u32,
    /// IEEE-754 single-precision bits.
    pub peak_db: Option<u32>,
    /// IEEE-754 single-precision bits.
    pub volume: Option<u32>,
    pub metadata: Option<Metadata>,
}

impl Fields for AudioLevelData {
    open spec fn schema_spec() -> Seq<FieldSpecView> {
        seq![
            FieldSpecView { name: "timestamp"@, ty: FieldType::Instant, presence: PresenceView::Required },
            FieldSpecView { name: "device_id"@, ty: FieldType::Text, presence: PresenceView::Required },
            FieldSpecView { name: "db"@, ty: FieldType::Single, presence: PresenceView::Required },
            FieldSpecView { name: "peak_db"@, ty: FieldType::Single, presence: PresenceView::Optional },
            FieldSpecView { name: "volume"@, ty: FieldType::Single, presence: PresenceView::Optional },
            FieldSpecView { name: "metadata"@, ty: FieldType::Entries, presence: PresenceView::Optional },
        ]
    }

    open spec fn values(&self) -> Seq<ValueView> {
        seq![
            instant_v(self.timestamp),
            text_v(self.device_id),
            single_v(self.db),
            opt_single_v(self.peak_db),
            opt_single_v(self.volume),
            opt_entries_v(self.metadata),
        ]
    }

    open spec fn wf(&self) -> bool {
        self.timestamp.wf()
    }

    fn schema() -> (r: Vec<FieldSpec>) {
        let r = vec![
            FieldSpec { name: "timestamp", ty: FieldType::Instant, presence: Presence::Required },
            FieldSpec { name: "device_id", ty: FieldType::Text, presence: Presence::Required },
            FieldSpec { name: "db", ty: FieldType::Single, presence: Presence::Required },
            FieldSpec { name: "peak_db", ty: FieldType::Single, presence: Presence::Optional },
            FieldSpec { name: "volume", ty: FieldType::Single, presence: Presence::Optional },
            FieldSpec { name: "metadata", ty: FieldType::Entries, presence: Presence::Optional },
        ];
        assert(schema_view(r@) =~= Self::schema_spec());
        r
    }

    fn to_values(&self) -> (r: Vec<Value>) {
        let r = vec![
            put_instant(&self.timestamp),
            put_text(&self.device_id),
            put_single(&self.db),
            put_opt_single(&self.peak_db),
            put_opt_single(&self.volume),
            put_opt_entries(&self.metadata),
        ];
        assert(values_view(r@) =~= self.values());
        r
    }

    fn from_values(vals: &Vec<Value>) -> (r: Self) {
        proof {
            let s = Self::schema_spec();
            let v = values_view(vals@);
            assert(fits(s[0], v[0]));
            assert(fits(s[1], v[1]));
            assert(fits(s[2], v[2]));
            assert(fits(s[3], v[3]));
            assert(fits(s[4], v[4]));
            assert(fits(s[5], v[5]));
        }
        let r = AudioLevelData {
            timestamp: take_instant(&vals[0]),
            device_id: take_text(&vals[1]),
            db: take_single(&vals[2]),
            peak_db: take_opt_single(&vals[3]),
            volume: take_opt_single(&vals[4]),
            metadata: take_opt_entries(&vals[5]),
        };
        assert(r.values() =~= values_view(vals@));
        r
    }

    proof fn lemma_schema() {
        reveal_strlit("timestamp");
        reveal_strlit("device_id");
        reveal_strlit("db");
        reveal_strlit("peak_db");
        reveal_strlit("volume");
        reveal_strlit("metadata");
        assert("timestamp"@.len() == 9 && "timestamp"@[0] == 't' && "timestamp"@[1] == 'i' && "timestamp"@[2] == 'm' && "timestamp"@[3] == 'e' && "timestamp"@[4] == 's' && "timestamp"@[5] == 't' && "timestamp"@[6] == 'a' && "timestamp"@[7] == 'm' && "timestamp"@[8] == 'p');
        assert("device_id"@.len() == 9 && "device_id"@[0] == 'd' && "device_id"@[1] == 'e' && "device_id"@[2] == 'v' && "device_id"@[3] == 'i' && "device_id"@[4] == 'c' && "device_id"@[5] == 'e' && "device_id"@[6] == '_' && "device_id"@[7] == 'i' && "device_id"@[8] == 'd');
        assert("db"@.len() == 2 && "db"@[0] == 'd' && "db"@[1] == 'b');
        assert("peak_db"@.len() == 7 && "peak_db"@[0] == 'p' && "peak_db"@[1] == 'e' && "peak_db"@[2] == 'a' && "peak_db"@[3] == 'k' && "peak_db"@[4] == '_' && "peak_db"@[5] == 'd' && "peak_db"@[6] == 'b');
        assert("volume"@.len() == 6 && "volume"@[0] == 'v' && "volume"@[1] == 'o' && "volume"@[2] == 'l' && "volume"@[3] == 'u' && "volume"@[4] == 'm' && "volume"@[5] == 'e');
        assert("metadata"@.len() == 8 && "metadata"@[0] == 'm' && "metadata"@[1] == 'e' && "metadata"@[2] == 't' && "metadata"@[3] == 'a' && "metadata"@[4] == 'd' && "metadata"@[5] == 'a' && "metadata"@[6] == 't' && "metadata"@[7] == 'a');
        let s = Self::schema_spec();
        assert forall|i: int| 0 <= i < s.len() implies match (#[trigger] s[i]).presence {
            PresenceView::Default(d) => fits_type(s[i].ty, d),
            _ => true,
        } by {
        }
    }

    proof fn lemma_fits(&self) {
        reveal(bool_v);
        let s = Self::schema_spec();
        let v = self.values();
        assert forall|i: int| 0 <= i < s.len() implies fits(#[trigger] s[i], v[i]) by {
            if i == 0 {
                assert(fits(s[0], v[0]));
            } else if i == 1 {
                assert(fits(s[1], v[1]));
            } else if i == 2 {
                assert(fits(s[2], v[2]));
            } else if i == 3 {
                assert(fits(s[3], v[3]));
            } else if i == 4 {
                assert(fits(s[4], v[4]));
            } else if i == 5 {
                assert(fits(s[5], v[5]));
            }
        }
    }
}

impl Record for AudioLevelData {
    open spec fn table_spec() -> Seq<char> {
        "audio_level_data"@
    }

    open spec fn layout_spec() -> Layout {
        Layout::Timed
    }

    fn table_name() -> (r: &'static str) {
        "audio_level_data"
    }

    fn layout() -> (r: Layout) {
        Layout::Timed
    }

    proof fn lemma_layout() {
        reveal_strlit("timestamp");
        reveal_strlit("device_id");
        assert("timestamp"@.len() == 9 && "timestamp"@[0] == 't' && "timestamp"@[1] == 'i' && "timestamp"@[2] == 'm' && "timestamp"@[3] == 'e' && "timestamp"@[4] == 's' && "timestamp"@[5] == 't' && "timestamp"@[6] == 'a' && "timestamp"@[7] == 'm' && "timestamp"@[8] == 'p');
        assert("device_id"@.len() == 9 && "device_id"@[0] == 'd' && "device_id"@[1] == 'e' && "device_id"@[2] == 'v' && "device_id"@[3] == 'i' && "device_id"@[4] == 'c' && "device_id"@[5] == 'e' && "device_id"@[6] == '_' && "device_id"@[7] == 'i' && "device_id"@[8] == 'd');
    }
}

impl AudioLevelData {
    /// The record's document.
    pub fn to_json(&self) -> (r: Document)
        ensures
            doc_view(r@) == encode(Self::schema_spec(), self.values()),
    {
        marshal(self)
    }

    /// The record that `doc` holds, or the error of the first field (in schema order)
    /// that it cannot give.
    pub fn from_json(doc: &Document) -> (r: Result<Self, SchemaError>)
        ensures
            match r {
                Ok(x) => decode(Self::schema_spec(), doc_view(doc@)) == Ok::<_, (SchemaErrorKind, Seq<char>)>(x.values()) && x.wf(),
                Err(e) => decode(Self::schema_spec(), doc_view(doc@)) == Err::<Seq<ValueView>, _>(e@),
            },
    {
        unmarshal(doc)
    }
}

/// A battery state.
#[derive(Debug, Clone, PartialEq)]
pub struct BatteryData {
    pub timestamp: Timestamp,
    pub device_id: String,
    pub percentage: i32,
    pub charging: bool,
    pub power_source: Option<String>,
    pub temperature: Option<i32>,
    pub voltage: Option<i32>,
    pub current: Option<i32>,
    pub metadata: Option<Metadata>,
}

impl Fields for BatteryData {
    open spec fn schema_spec() -> Seq<FieldSpecView> {
        seq![
            FieldSpecView { name: "timestamp"@, ty: FieldType::Instant, presence: PresenceView::Required },
            FieldSpecView { name: "device_id"@, ty: FieldType::Text, presence: PresenceView::Required },
            FieldSpecView { name: "percentage"@, ty: FieldType::Int, presence: PresenceView::Required },
            FieldSpecView { name: "charging"@, ty: FieldType::Bool, presence: PresenceView::Required },
            FieldSpecView { name: "power_source"@, ty: FieldType::Text, presence: PresenceView::Optional },
            FieldSpecView { name: "temperature"@, ty: FieldType::Int, presence: PresenceView::Optional },
            FieldSpecView { name: "voltage"@, ty: FieldType::Int, presence: PresenceView::Optional },
            FieldSpecView { name: "current"@, ty: FieldType::Int, presence: PresenceView::Optional },
            FieldSpecView { name: "metadata"@, ty: FieldType::Entries, presence: PresenceView::Optional },
        ]
    }

    open spec fn values(&self) -> Seq<ValueView> {
        seq![
            instant_v(self.timestamp),
            text_v(self.device_id),
            int_v(self.percentage),
            bool_v(self.charging),
            opt_text_v(self.power_source),
            opt_int_v(self.temperature),
            opt_int_v(self.voltage),
            opt_int_v(self.current),
            opt_entries_v(self.metadata),
        ]
    }

    open spec fn wf(&self) -> bool {
        self.timestamp.wf()
    }

    fn schema() -> (r: Vec<FieldSpec>) {
        let r = vec![
            FieldSpec { name: "timestamp", ty: FieldType::Instant, presence: Presence::Required },
            FieldSpec { name: "device_id", ty: FieldType::Text, presence: Presence::Required },
            FieldSpec { name: "percentage", ty: FieldType::Int, presence: Presence::Required },
            FieldSpec { name: "charging", ty: FieldType::Bool, presence: Presence::Required },
            FieldSpec { name: "power_source", ty: FieldType::Text, presence: Presence::Optional },
            FieldSpec { name: "temperature", ty: FieldType::Int, presence: Presence::Optional },
            FieldSpec { name: "voltage", ty: FieldType::Int, presence: Presence::Optional },
            FieldSpec { name: "current", ty: FieldType::Int, presence: Presence::Optional },
            FieldSpec { name: "metadata", ty: FieldType::Entries, presence: Presence::Optional },
        ];
        assert(schema_view(r@) =~= Self::schema_spec());
        r
    }

    fn to_values(&self) -> (r: Vec<Value>) {
        let r = vec![
            put_instant(&self.timestamp),
            put_text(&self.device_id),
            put_int(&self.percentage),
            put_bool(&self.charging),
            put_opt_text(&self.power_source),
            put_opt_int(&self.temperature),
            put_opt_int(&self.voltage),
            put_opt_int(&self.current),
            put_opt_entries(&self.metadata),
        ];
        assert(values_view(r@) =~= self.values());
        r
    }

    fn from_values(vals: &Vec<Value>) -> (r: Self) {
        proof {
            let s = Self::schema_spec();
            let v = values_view(vals@);
            assert(fits(s[0], v[0]));
            assert(fits(s[1], v[1]));
            assert(fits(s[2], v[2]));
            assert(fits(s[3], v[3]));
            assert(fits(s[4], v[4]));
            assert(fits(s[5], v[5]));
            assert(fits(s[6], v[6]));
            assert(fits(s[7], v[7]));
            assert(fits(s[8], v[8]));
        }
        let r = BatteryData {
            timestamp: take_instant(&vals[0]),
            device_id: take_text(&vals[1]),
            percentage: take_int(&vals[2]),
            charging: take_bool(&vals[3]),
            power_source: take_opt_text(&vals[4]),
            temperature: take_opt_int(&vals[5]),
            voltage: take_opt_int(&vals[6]),
            current: take_opt_int(&vals[7]),
            metadata: take_opt_entries(&vals[8]),
        };
        assert(r.values() =~= values_view(vals@));
        r
    }

    proof fn lemma_schema() {
        reveal_strlit("timestamp");
        reveal_strlit("device_id");
        reveal_strlit("percentage");
        reveal_strlit("charging");
        reveal_strlit("power_source");
        reveal_strlit("temperature");
        reveal_strlit("voltage");
        reveal_strlit("current");
        reveal_strlit("metadata");
        assert("timestamp"@.len() == 9 && "timestamp"@[0] == 't' && "timestamp"@[1] == 'i' && "timestamp"@[2] == 'm' && "timestamp"@[3] == 'e' && "timestamp"@[4] == 's' && "timestamp"@[5] == 't' && "timestamp"@[6] == 'a' && "timestamp"@[7] == 'm' && "timestamp"@[8] == 'p');
        assert("device_id"@.len() == 9 && "device_id"@[0] == 'd' && "device_id"@[1] == 'e' && "device_id"@[2] == 'v' && "device_id"@[3] == 'i' && "device_id"@[4] == 'c' && "device_id"@[5] == 'e' && "device_id"@[6] == '_' && "device_id"@[7] == 'i' && "device_id"@[8] == 'd');
        assert("percentage"@.len() == 10 && "percentage"@[0] == 'p' && "percentage"@[1] == 'e' && "percentage"@[2] == 'r' && "percentage"@[3] == 'c' && "percentage"@[4] == 'e' && "percentage"@[5] == 'n' && "percentage"@[6] == 't' && "percentage"@[7] == 'a' && "percentage"@[8] == 'g' && "percentage"@[9] == 'e');
        assert("charging"@.len() == 8 && "charging"@[0] == 'c' && "charging"@[1] == 'h' && "charging"@[2] == 'a' && "charging"@[3] == 'r' && "charging"@[4] == 'g' && "charging"@[5] == 'i' && "charging"@[6] == 'n' && "charging"@[7] == 'g');
        assert("power_source"@.len() == 12 && "power_source"@[0] == 'p' && "power_source"@[1] == 'o' && "power_source"@[2] == 'w' && "power_source"@[3] == 'e' && "power_source"@[4] == 'r' && "power_source"@[5] == '_' && "power_source"@[6] == 's' && "power_source"@[7] == 'o' && "power_source"@[8] == 'u' && "power_source"@[9] == 'r' && "power_source"@[10] == 'c' && "power_source"@[11] == 'e');
        assert("temperature"@.len() == 11 && "temperature"@[0] == 't' && "temperature"@[1] == 'e' && "temperature"@[2] == 'm' && "temperature"@[3] == 'p' && "temperature"@[4] == 'e' && "temperature"@[5] == 'r' && "temperature"@[6] == 'a' && "temperature"@[7] == 't' && "temperature"@[8] == 'u' && "temperature"@[9] == 'r' && "temperature"@[10] == 'e');
        assert("voltage"@.len() == 7 && "voltage"@[0] == 'v' && "voltage"@[1] == 'o' && "voltage"@[2] == 'l' && "voltage"@[3] == 't' && "voltage"@[4] == 'a' && "voltage"@[5] == 'g' && "voltage"@[6] == 'e');
        assert("current"@.len() == 7 && "current"@[0] == 'c' && "current"@[1] == 'u' && "current"@[2] == 'r' && "current"@[3] == 'r' && "current"@[4] == 'e' && "current"@[5] == 'n' && "current"@[6] == 't');
        assert("metadata"@.len() == 8 && "metadata"@[0] == 'm' && "metadata"@[1] == 'e' && "metadata"@[2] == 't' && "metadata"@[3] == 'a' && "metadata"@[4] == 'd' && "metadata"@[5] == 'a' && "metadata"@[6] == 't' && "metadata"@[7] == 'a');
        let s = Self::schema_spec();
        assert forall|i: int| 0 <= i < s.len() implies match (#[trigger] s[i]).presence {
            PresenceView::Default(d) => fits_type(s[i].ty, d),
            _ => true,
        } by {
        }
    }

    proof fn lemma_fits(&self) {
        reveal(bool_v);
        let s = Self::schema_spec();
        let v = self.values();
        assert forall|i: int| 0 <= i < s.len() implies fits(#[trigger] s[i], v[i]) by {
            if i == 0 {
                assert(fits(s[0], v[0]));
            } else if i == 1 {
                assert(fits(s[1], v[1]));
            } else if i == 2 {
                assert(fits(s[2], v[2]));
            } else if i == 3 {
                assert(fits(s[3], v[3]));
            } else if i == 4 {
                assert(fits(s[4], v[4]));
            } else if i == 5 {
                assert(fits(s[5], v[5]));
            } else if i == 6 {
                assert(fits(s[6], v[6]));
            } else if i == 7 {
                assert(fits(s[7], v[7]));
            } else if i == 8 {
                assert(fits(s[8], v[8]));
            }
        }
    }
}

impl Record for BatteryData {
    open spec fn table_spec() -> Seq<char> {
        "battery_data"@
    }

    open spec fn layout_spec() -> Layout {
        Layout::Timed
    }

    fn table_name() -> (r: &'static str) {
        "battery_data"
    }

    fn layout() -> (r: Layout) {
        Layout::Timed
    }

    proof fn lemma_layout() {
        reveal_strlit("timestamp");
        reveal_strlit("device_id");
        assert("timestamp"@.len() == 9 && "timestamp"@[0] == 't' && "timestamp"@[1] == 'i' && "timestamp"@[2] == 'm' && "timestamp"@[3] == 'e' && "timestamp"@[4] == 's' && "timestamp"@[5] == 't' && "timestamp"@[6] == 'a' && "timestamp"@[7] == 'm' && "timestamp"@[8] == 'p');
        assert("device_id"@.len() == 9 && "device_id"@[0] == 'd' && "device_id"@[1] == 'e' && "device_id"@[2] == 'v' && "device_id"@[3] == 'i' && "device_id"@[4] == 'c' && "device_id"@[5] == 'e' && "device_id"@[6] == '_' && "device_id"@[7] == 'i' && "device_id"@[8] == 'd');
    }
}

impl BatteryData {
    /// The record's document.
    pub fn to_json(&self) -> (r: Document)
        ensures
            doc_view(r@) == encode(Self::schema_spec(), self.values()),
    {
        marshal(self)
    }

    /// The record that `doc` holds, or the error of the first field (in schema order)
    /// that it cannot give.
    pub fn from_json(doc: &Document) -> (r: Result<Self, SchemaError>)
        ensures
            match r {
                Ok(x) => decode(Self::schema_spec(), doc_view(doc@)) == Ok::<_, (SchemaErrorKind, Seq<char>)>(x.values()) && x.wf(),
                Err(e) => decode(Self::schema_spec(), doc_view(doc@)) == Err::<Seq<ValueView>, _>(e@),
            },
    {
        unmarshal(doc)
    }
}

/// A network connection state.
#[derive(Debug, Clone, PartialEq)]
pub struct NetworkData {
    pub timestamp: Timestamp,
    pub device_id: String,
    pub connection_type: ConnectionType,
    pub state: Option<String>,
    pub strength: Option<i32>,
    pub carrier: Option<String>,
    pub roaming: Option<bool>,
    pub cellular_technology: Option<String>,
    pub is_metered: Option<bool>,
    pub dns_servers: Option<Vec<String>>,
    pub gateway: Option<String>,
    pub metadata: Option<Metadata>,
}

impl Fields for NetworkData {
    open spec fn schema_spec() -> Seq<FieldSpecView> {
        seq![
            FieldSpecView { name: "timestamp"@, ty: FieldType::Instant, presence: PresenceView::Required },
            FieldSpecView { name: "device_id"@, ty: FieldType::Text, presence: PresenceView::Required },
            FieldSpecView { name: "connection_type"@, ty: FieldType::Choice(Choice::ConnectionType), presence: PresenceView::Required },
            FieldSpecView { name: "state"@, ty: FieldType::Text, presence: PresenceView::Optional },
            FieldSpecView { name: "strength"@, ty: FieldType::Int, presence: PresenceView::Optional },
            FieldSpecView { name: "carrier"@, ty: FieldType::Text, presence: PresenceView::Optional },
            FieldSpecView { name: "roaming"@, ty: FieldType::Bool, presence: PresenceView::Optional },
            FieldSpecView { name: "cellular_technology"@, ty: FieldType::Text, presence: PresenceView::Optional },
            FieldSpecView { name: "is_metered"@, ty: FieldType::Bool, presence: PresenceView::Optional },
            FieldSpecView { name: "dns_servers"@, ty: FieldType::Texts, presence: PresenceView::Optional },
            FieldSpecView { name: "gateway"@, ty: FieldType::Text, presence: PresenceView::Optional },
            FieldSpecView { name: "metadata"@, ty: FieldType::Entries, presence: PresenceView::Optional },
        ]
    }

    open spec fn values(&self) -> Seq<ValueView> {
        seq![
            instant_v(self.timestamp),
            text_v(self.device_id),
            connection_type_v(self.connection_type),
            opt_text_v(self.state),
            opt_int_v(self.strength),
            opt_text_v(self.carrier),
            opt_bool_v(self.roaming),
            opt_text_v(self.cellular_technology),
            opt_bool_v(self.is_metered),
            opt_texts_v(self.dns_servers),
            opt_text_v(self.gateway),
            opt_entries_v(self.metadata),
        ]
    }

    open spec fn wf(&self) -> bool {
        self.timestamp.wf()
    }

    fn schema() -> (r: Vec<FieldSpec>) {
        let r = vec![
            FieldSpec { name: "timestamp", ty: FieldType::Instant, presence: Presence::Required },
            FieldSpec { name: "device_id", ty: FieldType::Text, presence: Presence::Required },
            FieldSpec { name: "connection_type", ty: FieldType::Choice(Choice::ConnectionType), presence: Presence::Required },
            FieldSpec { name: "state", ty: FieldType::Text, presence: Presence::Optional },
            FieldSpec { name: "strength", ty: FieldType::Int, presence: Presence::Optional },
            FieldSpec { name: "carrier", ty: FieldType::Text, presence: Presence::Optional },
            FieldSpec { name: "roaming", ty: FieldType::Bool, presence: Presence::Optional },
            FieldSpec { name: "cellular_technology", ty: FieldType::Text, presence: Presence::Optional },
            FieldSpec { name: "is_metered", ty: FieldType::Bool, presence: Presence::Optional },
            FieldSpec { name: "dns_servers", ty: FieldType::Texts, presence: Presence::Optional },
            FieldSpec { name: "gateway", ty: FieldType::Text, presence: Presence::Optional },
            FieldSpec { name: "metadata", ty: FieldType::Entries, presence: Presence::Optional },
        ];
        assert(schema_view(r@) =~= Self::schema_spec());
        r
    }

    fn to_values(&self) -> (r: Vec<Value>) {
        let r = vec![
            put_instant(&self.timestamp),
            put_text(&self.device_id),
            put_connection_type(&self.connection_type),
            put_opt_text(&self.state),
            put_opt_int(&self.strength),
            put_opt_text(&self.carrier),
            put_opt_bool(&self.roaming),
            put_opt_text(&self.cellular_technology),
            put_opt_bool(&self.is_metered),
            put_opt_texts(&self.dns_servers),
            put_opt_text(&self.gateway),
            put_opt_entries(&self.metadata),
        ];
        assert(values_view(r@) =~= self.values());
        r
    }

    fn from_values(vals: &Vec<Value>) -> (r: Self) {
        proof {
            let s = Self::schema_spec();
            let v = values_view(vals@);
            assert(fits(s[0], v[0]));
            assert(fits(s[1], v[1]));
            assert(fits(s[2], v[2]));
            assert(fits(s[3], v[3]));
            assert(fits(s[4], v[4]));
            assert(fits(s[5], v[5]));
            assert(fits(s[6], v[6]));
            assert(fits(s[7], v[7]));
            assert(fits(s[8], v[8]));
            assert(fits(s[9], v[9]));
            assert(fits(s[10], v[10]));
            assert(fits(s[11], v[11]));
        }
        let r = NetworkData {
            timestamp: take_instant(&vals[0]),
            device_id: take_text(&vals[1]),
            connection_type: take_connection_type(&vals[2]),
            state: take_opt_text(&vals[3]),
            strength: take_opt_int(&vals[4]),
            carrier: take_opt_text(&vals[5]),
            roaming: take_opt_bool(&vals[6]),
            cellular_technology: take_opt_text(&vals[7]),
            is_metered: take_opt_bool(&vals[8]),
            dns_servers: take_opt_texts(&vals[9]),
            gateway: take_opt_text(&vals[10]),
            metadata: take_opt_entries(&vals[11]),
        };
        assert(r.values() =~= values_view(vals@));
        r
    }

    proof fn lemma_schema() {
        reveal_strlit("timestamp");
        reveal_strlit("device_id");
        reveal_strlit("connection_type");
        reveal_strlit("state");
        reveal_strlit("strength");
        reveal_strlit("carrier");
        reveal_strlit("roaming");
        reveal_strlit("cellular_technology");
        reveal_strlit("is_metered");
        reveal_strlit("dns_servers");
        reveal_strlit("gateway");
        reveal_strlit("metadata");
        assert("timestamp"@.len() == 9 && "timestamp"@[0] == 't' && "timestamp"@[1] == 'i' && "timestamp"@[2] == 'm' && "timestamp"@[3] == 'e' && "timestamp"@[4] == 's' && "timestamp"@[5] == 't' && "timestamp"@[6] == 'a' && "timestamp"@[7] == 'm' && "timestamp"@[8] == 'p');
        assert("device_id"@.len() == 9 && "device_id"@[0] == 'd' && "device_id"@[1] == 'e' && "device_id"@[2] == 'v' && "device_id"@[3] == 'i' && "device_id"@[4] == 'c' && "device_id"@[5] == 'e' && "device_id"@[6] == '_' && "device_id"@[7] == 'i' && "device_id"@[8] == 'd');
        assert("connection_type"@.len() == 15 && "connection_type"@[0] == 'c' && "connection_type"@[1] == 'o' && "connection_type"@[2] == 'n' && "connection_type"@[3] == 'n' && "connection_type"@[4] == 'e' && "connection_type"@[5] == 'c' && "connection_type"@[6] == 't' && "connection_type"@[7] == 'i' && "connection_type"@[8] == 'o' && "connection_type"@[9] == 'n' && "connection_type"@[10] == '_' && "connection_type"@[11] == 't' && "connection_type"@[12] == 'y' && "connection_type"@[13] == 'p' && "connection_type"@[14] == 'e');
        assert("state"@.len() == 5 && "state"@[0] == 's' && "state"@[1] == 't' && "state"@[2] == 'a' && "state"@[3] == 't' && "state"@[4] == 'e');
        assert("strength"@.len() == 8 && "strength"@[0] == 's' && "strength"@[1] == 't' && "strength"@[2] == 'r' && "strength"@[3] == 'e' && "strength"@[4] == 'n' && "strength"@[5] == 'g' && "strength"@[6] == 't' && "strength"@[7] == 'h');
        assert("carrier"@.len() == 7 && "carrier"@[0] == 'c' && "carrier"@[1] == 'a' && "carrier"@[2] == 'r' && "carrier"@[3] == 'r' && "carrier"@[4] == 'i' && "carrier"@[5] == 'e' && "carrier"@[6] == 'r');
        assert("roaming"@.len() == 7 && "roaming"@[0] == 'r' && "roaming"@[1] == 'o' && "roaming"@[2] == 'a' && "roaming"@[3] == 'm' && "roaming"@[4] == 'i' && "roaming"@[5] == 'n' && "roaming"@[6] == 'g');
        assert("cellular_technology"@.len() == 19 && "cellular_technology"@[0] == 'c' && "cellular_technology"@[1] == 'e' && "cellular_technology"@[2] == 'l' && "cellular_technology"@[3] == 'l' && "cellular_technology"@[4] == 'u' && "cellular_technology"@[5] == 'l' && "cellular_technology"@[6] == 'a' && "cellular_technology"@[7] == 'r' && "cellular_technology"@[8] == '_' && "cellular_technology"@[9] == 't' && "cellular_technology"@[10] == 'e' && "cellular_technology"@[11] == 'c' && "cellular_technology"@[12] == 'h' && "cellular_technology"@[13] == 'n' && "cellular_technology"@[14] == 'o' && "cellular_technology"@[15] == 'l' && "cellular_technology"@[16] == 'o' && "cellular_technology"@[17] == 'g' && "cellular_technology"@[18] == 'y');
        assert("is_metered"@.len() == 10 && "is_metered"@[0] == 'i' && "is_metered"@[1] == 's' && "is_metered"@[2] == '_' && "is_metered"@[3] == 'm' && "is_metered"@[4] == 'e' && "is_metered"@[5] == 't' && "is_metered"@[6] == 'e' && "is_metered"@[7] == 'r' && "is_metered"@[8] == 'e' && "is_metered"@[9] == 'd');
        assert("dns_servers"@.len() == 11 && "dns_servers"@[0] == 'd' && "dns_servers"@[1] == 'n' && "dns_servers"@[2] == 's' && "dns_servers"@[3] == '_' && "dns_servers"@[4] == 's' && "dns_servers"@[5] == 'e' && "dns_servers"@[6] == 'r' && "dns_servers"@[7] == 'v' && "dns_servers"@[8] == 'e' && "dns_servers"@[9] == 'r' && "dns_servers"@[10] == 's');
        assert("gateway"@.len() == 7 && "gateway"@[0] == 'g' && "gateway"@[1] == 'a' && "gateway"@[2] == 't' && "gateway"@[3] == 'e' && "gateway"@[4] == 'w' && "gateway"@[5] == 'a' && "gateway"@[6] == 'y');
        assert("metadata"@.len() == 8 && "metadata"@[0] == 'm' && "metadata"@[1] == 'e' && "metadata"@[2] == 't' && "metadata"@[3] == 'a' && "metadata"@[4] == 'd' && "metadata"@[5] == 'a' && "metadata"@[6] == 't' && "metadata"@[7] == 'a');
        let s = Self::schema_spec();
        assert forall|i: int| 0 <= i < s.len() implies match (#[trigger] s[i]).presence {
            PresenceView::Default(d) => fits_type(s[i].ty, d),
            _ => true,
        } by {
        }
    }

    proof fn lemma_fits(&self) {
        reveal(bool_v);
        self.connection_type.lemma_wire_round_trip();
        let s = Self::schema_spec();
        let v = self.values();
        assert forall|i: int| 0 <= i < s.len() implies fits(#[trigger] s[i], v[i]) by {
            if i == 0 {
                assert(fits(s[0], v[0]));
            } else if i == 1 {
                assert(fits(s[1], v[1]));
            } else if i == 2 {
                assert(fits(s[2], v[2]));
            } else if i == 3 {
                assert(fits(s[3], v[3]));
            } else if i == 4 {
                assert(fits(s[4], v[4]));
            } else if i == 5 {
                assert(fits(s[5], v[5]));
            } else if i == 6 {
                assert(fits(s[6], v[6]));
            } else if i == 7 {
                assert(fits(s[7], v[7]));
            } else if i == 8 {
                assert(fits(s[8], v[8]));
            } else if i == 9 {
                assert(fits(s[9], v[9]));
            } else if i == 10 {
                assert(fits(s[10], v[10]));
            } else if i == 11 {
                assert(fits(s[11], v[11]));
            }
        }
    }
}

impl Record for NetworkData {
    open spec fn table_spec() -> Seq<char> {
        "network_data"@
    }

    open spec fn layout_spec() -> Layout {
        Layout::Timed
    }

    fn table_name() -> (r: &'static str) {
        "network_data"
    }

    fn layout() -> (r: Layout) {
        Layout::Timed
    }

    proof fn lemma_layout() {
        reveal_strlit("timestamp");
        reveal_strlit("device_id");
        assert("timestamp"@.len() == 9 && "timestamp"@[0] == 't' && "timestamp"@[1] == 'i' && "timestamp"@[2] == 'm' && "timestamp"@[3] == 'e' && "timestamp"@[4] == 's' && "timestamp"@[5] == 't' && "timestamp"@[6] == 'a' && "timestamp"@[7] == 'm' && "timestamp"@[8] == 'p');
        assert("device_id"@.len() == 9 && "device_id"@[0] == 'd' && "device_id"@[1] == 'e' && "device_id"@[2] == 'v' && "device_id"@[3] == 'i' && "device_id"@[4] == 'c' && "device_id"@[5] == 'e' && "device_id"@[6] == '_' && "device_id"@[7] == 'i' && "device_id"@[8] == 'd');
    }
}

impl NetworkData {
    /// The record's document.
    pub fn to_json(&self) -> (r: Document)
        ensures
            doc_view(r@) == encode(Self::schema_spec(), self.values()),
    {
        marshal(self)
    }

    /// The record that `doc` holds, or the error of the first field (in schema order)
    /// that it cannot give.
    pub fn from_json(doc: &Document) -> (r: Result<Self, SchemaError>)
        ensures
            match r {
                Ok(x) => decode(Self::schema_spec(), doc_view(doc@)) == Ok::<_, (SchemaErrorKind, Seq<char>)>(x.values()) && x.wf(),
                Err(e) => decode(Self::schema_spec(), doc_view(doc@)) == Err::<Seq<ValueView>, _>(e@),
            },
    {
        unmarshal(doc)
    }
}

/// A screen state change.
#[derive(Debug, Clone, PartialEq)]
pub struct ScreenStateData {
    pub timestamp: Timestamp,
    pub device_id: String,
    pub screen_on: bool,
    pub brightness: Option<i32>,
    pub orientation: Option<String>,
    pub metadata: Option<Metadata>,
}

impl Fields for ScreenStateData {
    open spec fn schema_spec() -> Seq<FieldSpecView> {
        seq![
            FieldSpecView { name: "timestamp"@, ty: FieldType::Instant, presence: PresenceView::Required },
            FieldSpecView { name: "device_id"@, ty: FieldType::Text, presence: PresenceView::Required },
            FieldSpecView { name: "screen_on"@, ty: FieldType::Bool, presence: PresenceView::Required },
            FieldSpecView { name: "brightness"@, ty: FieldType::Int, presence: PresenceView::Optional },
            FieldSpecView { name: "orientation"@, ty: FieldType::Text, presence: PresenceView::Optional },
            FieldSpecView { name: "metadata"@, ty: FieldType::Entries, presence: PresenceView::Optional },
        ]
    }

    open spec fn values(&self) -> Seq<ValueView> {
        seq![
            instant_v(self.timestamp),
            text_v(self.device_id),
            bool_v(self.screen_on),
            opt_int_v(self.brightness),
            opt_text_v(self.orientation),
            opt_entries_v(self.metadata),
        ]
    }

    open spec fn wf(&self) -> bool {
        self.timestamp.wf()
    }

    fn schema() -> (r: Vec<FieldSpec>) {
        let r = vec![
            FieldSpec { name: "timestamp", ty: FieldType::Instant, presence: Presence::Required },
            FieldSpec { name: "device_id", ty: FieldType::Text, presence: Presence::Required },
            FieldSpec { name: "screen_on", ty: FieldType::Bool, presence: Presence::Required },
            FieldSpec { name: "brightness", ty: FieldType::Int, presence: Presence::Optional },
            FieldSpec { name: "orientation", ty: FieldType::Text, presence: Presence::Optional },
            FieldSpec { name: "metadata", ty: FieldType::Entries, presence: Presence::Optional },
        ];
        assert(schema_view(r@) =~= Self::schema_spec());
        r
    }

    fn to_values(&self) -> (r: Vec<Value>) {
        let r = vec![
            put_instant(&self.timestamp),
            put_text(&self.device_id),
            put_bool(&self.screen_on),
            put_opt_int(&self.brightness),
            put_opt_text(&self.orientation),
            put_opt_entries(&self.metadata),
        ];
        assert(values_view(r@) =~= self.values());
        r
    }

    fn from_values(vals: &Vec<Value>) -> (r: Self) {
        proof {
            let s = Self::schema_spec();
            let v = values_view(vals@);
            assert(fits(s[0], v[0]));
            assert(fits(s[1], v[1]));
            assert(fits(s[2], v[2]));
            assert(fits(s[3], v[3]));
            assert(fits(s[4], v[4]));
            assert(fits(s[5], v[5]));
        }
        let r = ScreenStateData {
            timestamp: take_instant(&vals[0]),
            device_id: take_text(&vals[1]),
            screen_on: take_bool(&vals[2]),
            brightness: take_opt_int(&vals[3]),
            orientation: take_opt_text(&vals[4]),
            metadata: take_opt_entries(&vals[5]),
        };
        assert(r.values() =~= values_view(vals@));
        r
    }

    proof fn lemma_schema() {
        reveal_strlit("timestamp");
        reveal_strlit("device_id");
        reveal_strlit("screen_on");
        reveal_strlit("brightness");
        reveal_strlit("orientation");
        reveal_strlit("metadata");
        assert("timestamp"@.len() == 9 && "timestamp"@[0] == 't' && "timestamp"@[1] == 'i' && "timestamp"@[2] == 'm' && "timestamp"@[3] == 'e' && "timestamp"@[4] == 's' && "timestamp"@[5] == 't' && "timestamp"@[6] == 'a' && "timestamp"@[7] == 'm' && "timestamp"@[8] == 'p');
        assert("device_id"@.len() == 9 && "device_id"@[0] == 'd' && "device_id"@[1] == 'e' && "device_id"@[2] == 'v' && "device_id"@[3] == 'i' && "device_id"@[4] == 'c' && "device_id"@[5] == 'e' && "device_id"@[6] == '_' && "device_id"@[7] == 'i' && "device_id"@[8] == 'd');
        assert("screen_on"@.len() == 9 && "screen_on"@[0] == 's' && "screen_on"@[1] == 'c' && "screen_on"@[2] == 'r' && "screen_on"@[3] == 'e' && "screen_on"@[4] == 'e' && "screen_on"@[5] == 'n' && "screen_on"@[6] == '_' && "screen_on"@[7] == 'o' && "screen_on"@[8] == 'n');
        assert("brightness"@.len() == 10 && "brightness"@[0] == 'b' && "brightness"@[1] == 'r' && "brightness"@[2] == 'i' && "brightness"@[3] == 'g' && "brightness"@[4] == 'h' && "brightness"@[5] == 't' && "brightness"@[6] == 'n' && "brightness"@[7] == 'e' && "brightness"@[8] == 's' && "brightness"@[9] == 's');
        assert("orientation"@.len() == 11 && "orientation"@[0] == 'o' && "orientation"@[1] == 'r' && "orientation"@[2] == 'i' && "orientation"@[3] == 'e' && "orientation"@[4] == 'n' && "orientation"@[5] == 't' && "orientation"@[6] == 'a' && "orientation"@[7] == 't' && "orientation"@[8] == 'i' && "orientation"@[9] == 'o' && "orientation"@[10] == 'n');
        assert("metadata"@.len() == 8 && "metadata"@[0] == 'm' && "metadata"@[1] == 'e' && "metadata"@[2] == 't' && "metadata"@[3] == 'a' && "metadata"@[4] == 'd' && "metadata"@[5] == 'a' && "metadata"@[6] == 't' && "metadata"@[7] == 'a');
        let s = Self::schema_spec();
        assert forall|i: int| 0 <= i < s.len() implies match (#[trigger] s[i]).presence {
            PresenceView::Default(d) => fits_type(s[i].ty, d),
            _ => true,
        } by {
        }
    }

    proof fn lemma_fits(&self) {
        reveal(bool_v);
        let s = Self::schema_spec();
        let v = self.values();
        assert forall|i: int| 0 <= i < s.len() implies fits(#[trigger] s[i], v[i]) by {
            if i == 0 {
                assert(fits(s[0], v[0]));
            } else if i == 1 {
                assert(fits(s[1], v[1]));
            } else if i == 2 {
                assert(fits(s[2], v[2]));
            } else if i == 3 {
                assert(fits(s[3], v[3]));
            } else if i == 4 {
                assert(fits(s[4], v[4]));
            } else if i == 5 {
                assert(fits(s[5], v[5]));
            }
        }
    }
}

impl Record for ScreenStateData {
    open spec fn table_spec() -> Seq<char> {
        "screen_state_data"@
    }

    open spec fn layout_spec() -> Layout {
        Layout::Timed
    }

    fn table_name() -> (r: &'static str) {
        "screen_state_data"
    }

    fn layout() -> (r: Layout) {
        Layout::Timed
    }

    proof fn lemma_layout() {
        reveal_strlit("timestamp");
        reveal_strlit("device_id");
        assert("timestamp"@.len() == 9 && "timestamp"@[0] == 't' && "timestamp"@[1] == 'i' && "timestamp"@[2] == 'm' && "timestamp"@[3] == 'e' && "timestamp"@[4] == 's' && "timestamp"@[5] == 't' && "timestamp"@[6] == 'a' && "timestamp"@[7] == 'm' && "timestamp"@[8] == 'p');
        assert("device_id"@.len() == 9 && "device_id"@[0] == 'd' && "device_id"@[1] == 'e' && "device_id"@[2] == 'v' && "device_id"@[3] == 'i' && "device_id"@[4] == 'c' && "device_id"@[5] == 'e' && "device_id"@[6] == '_' && "device_id"@[7] == 'i' && "device_id"@[8] == 'd');
    }
}

impl ScreenStateData {
    /// The record's document.
    pub fn to_json(&self) -> (r: Document)
        ensures
            doc_view(r@) == encode(Self::schema_spec(), self.values()),
    {
        marshal(self)
    }

    /// The record that `doc` holds, or the error of the first field (in schema order)
    /// that it cannot give.
    pub fn from_json(doc: &Document) -> (r: Result<Self, SchemaError>)
        ensures
            match r {
                Ok(x) => decode(Self::schema_spec(), doc_view(doc@)) == Ok::<_, (SchemaErrorKind, Seq<char>)>(x.values()) && x.wf(),
                Err(e) => decode(Self::schema_spec(), doc_view(doc@)) == Err::<Seq<ValueView>, _>(e@),
            },
    {
        unmarshal(doc)
    }
}

/// A to-do item as a device reported it.
#[derive(Debug, Clone, PartialEq)]
pub struct TodosData {
    pub timestamp: Timestamp,
    pub device_id: String,
    pub todo_id: String,
    pub title: String,
    pub description: Option<String>,
    pub due_date: Option<Timestamp>,
    pub completed: bool,
    pub completed_at: Option<Timestamp>,
    pub priority: Option<i32>,
    pub tags: Vec<String>,
    pub metadata: Option<Metadata>,
}

impl Fields for TodosData {
    open spec fn schema_spec() -> Seq<FieldSpecView> {
        seq![
            FieldSpecView { name: "timestamp"@, ty: FieldType::Instant, presence: PresenceView::Required },
            FieldSpecView { name: "device_id"@, ty: FieldType::Text, presence: PresenceView::Required },
            FieldSpecView { name: "todo_id"@, ty: FieldType::Text, presence: PresenceView::Required },
            FieldSpecView { name: "title"@, ty: FieldType::Text, presence: PresenceView::Required },
            FieldSpecView { name: "description"@, ty: FieldType::Text, presence: PresenceView::Optional },
            FieldSpecView { name: "due_date"@, ty: FieldType::Instant, presence: PresenceView::Optional },
            FieldSpecView { name: "completed"@, ty: FieldType::Bool, presence: PresenceView::Required },
            FieldSpecView { name: "completed_at"@, ty: FieldType::Instant, presence: PresenceView::Optional },
            FieldSpecView { name: "priority"@, ty: FieldType::Int, presence: PresenceView::Optional },
            FieldSpecView { name: "tags"@, ty: FieldType::Texts, presence: PresenceView::Required },
            FieldSpecView { name: "metadata"@, ty: FieldType::Entries, presence: PresenceView::Optional },
        ]
    }

    open spec fn values(&self) -> Seq<ValueView> {
        seq![
            instant_v(self.timestamp),
            text_v(self.device_id),
            text_v(self.todo_id),
            text_v(self.title),
            opt_text_v(self.description),
            opt_instant_v(self.due_date),
            bool_v(self.completed),
            opt_instant_v(self.completed_at),
            opt_int_v(self.priority),
            texts_v(self.tags),
            opt_entries_v(self.metadata),
        ]
    }

    open spec fn wf(&self) -> bool {
        self.timestamp.wf()
        && (self.due_date matches Some(t) ==> t.wf())
        && (self.completed_at matches Some(t) ==> t.wf())
    }

    fn schema() -> (r: Vec<FieldSpec>) {
        let r = vec![
            FieldSpec { name: "timestamp", ty: FieldType::Instant, presence: Presence::Required },
            FieldSpec { name: "device_id", ty: FieldType::Text, presence: Presence::Required },
            FieldSpec { name: "todo_id", ty: FieldType::Text, presence: Presence::Required },
            FieldSpec { name: "title", ty: FieldType::Text, presence: Presence::Required },
            FieldSpec { name: "description", ty: FieldType::Text, presence: Presence::Optional },
            FieldSpec { name: "due_date", ty: FieldType::Instant, presence: Presence::Optional },
            FieldSpec { name: "completed", ty: FieldType::Bool, presence: Presence::Required },
            FieldSpec { name: "completed_at", ty: FieldType::Instant, presence: Presence::Optional },
            FieldSpec { name: "priority", ty: FieldType::Int, presence: Presence::Optional },
            FieldSpec { name: "tags", ty: FieldType::Texts, presence: Presence::Required },
            FieldSpec { name: "metadata", ty: FieldType::Entries, presence: Presence::Optional },
        ];
        assert(schema_view(r@) =~= Self::schema_spec());
        r
    }

    fn to_values(&self) -> (r: Vec<Value>) {
        let r = vec![
            put_instant(&self.timestamp),
            put_text(&self.device_id),
            put_text(&self.todo_id),
            put_text(&self.title),
            put_opt_text(&self.description),
            put_opt_instant(&self.due_date),
            put_bool(&self.completed),
            put_opt_instant(&self.completed_at),
            put_opt_int(&self.priority),
            put_texts(&self.tags),
            put_opt_entries(&self.metadata),
        ];
        assert(values_view(r@) =~= self.values());
        r
    }

    fn from_values(vals: &Vec<Value>) -> (r: Self) {
        proof {
            let s = Self::schema_spec();
            let v = values_view(vals@);
            assert(fits(s[0], v[0]));
            assert(fits(s[1], v[1]));
            assert(fits(s[2], v[2]));
            assert(fits(s[3], v[3]));
            assert(fits(s[4], v[4]));
            assert(fits(s[5], v[5]));
            assert(fits(s[6], v[6]));
            assert(fits(s[7], v[7]));
            assert(fits(s[8], v[8]));
            assert(fits(s[9], v[9]));
            assert(fits(s[10], v[10]));
        }
        let r = TodosData {
            timestamp: take_instant(&vals[0]),
            device_id: take_text(&vals[1]),
            todo_id: take_text(&vals[2]),
            title: take_text(&vals[3]),
            description: take_opt_text(&vals[4]),
            due_date: take_opt_instant(&vals[5]),
            completed: take_bool(&vals[6]),
            completed_at: take_opt_instant(&vals[7]),
            priority: take_opt_int(&vals[8]),
            tags: take_texts(&vals[9]),
            metadata: take_opt_entries(&vals[10]),
        };
        assert(r.values() =~= values_view(vals@));
        r
    }

    proof fn lemma_schema() {
        reveal_strlit("timestamp");
        reveal_strlit("device_id");
        reveal_strlit("todo_id");
        reveal_strlit("title");
        reveal_strlit("description");
        reveal_strlit("due_date");
        reveal_strlit("completed");
        reveal_strlit("completed_at");
        reveal_strlit("priority");
        reveal_strlit("tags");
        reveal_strlit("metadata");
        assert("timestamp"@.len() == 9 && "timestamp"@[0] == 't' && "timestamp"@[1] == 'i' && "timestamp"@[2] == 'm' && "timestamp"@[3] == 'e' && "timestamp"@[4] == 's' && "timestamp"@[5] == 't' && "timestamp"@[6] == 'a' && "timestamp"@[7] == 'm' && "timestamp"@[8] == 'p');
        assert("device_id"@.len() == 9 && "device_id"@[0] == 'd' && "device_id"@[1] == 'e' && "device_id"@[2] == 'v' && "device_id"@[3] == 'i' && "device_id"@[4] == 'c' && "device_id"@[5] == 'e' && "device_id"@[6] == '_' && "device_id"@[7] == 'i' && "device_id"@[8] == 'd');
        assert("todo_id"@.len() == 7 && "todo_id"@[0] == 't' && "todo_id"@[1] == 'o' && "todo_id"@[2] == 'd' && "todo_id"@[3] == 'o' && "todo_id"@[4] == '_' && "todo_id"@[5] == 'i' && "todo_id"@[6] == 'd');
        assert("title"@.len() == 5 && "title"@[0] == 't' && "title"@[1] == 'i' && "title"@[2] == 't' && "title"@[3] == 'l' && "title"@[4] == 'e');
        assert("description"@.len() == 11 && "description"@[0] == 'd' && "description"@[1] == 'e' && "description"@[2] == 's' && "description"@[3] == 'c' && "description"@[4] == 'r' && "description"@[5] == 'i' && "description"@[6] == 'p' && "description"@[7] == 't' && "description"@[8] == 'i' && "description"@[9] == 'o' && "description"@[10] == 'n');
        assert("due_date"@.len() == 8 && "due_date"@[0] == 'd' && "due_date"@[1] == 'u' && "due_date"@[2] == 'e' && "due_date"@[3] == '_' && "due_date"@[4] == 'd' && "due_date"@[5] == 'a' && "due_date"@[6] == 't' && "due_date"@[7] == 'e');
        assert("completed"@.len() == 9 && "completed"@[0] == 'c' && "completed"@[1] == 'o' && "completed"@[2] == 'm' && "completed"@[3] == 'p' && "completed"@[4] == 'l' && "completed"@[5] == 'e' && "completed"@[6] == 't' && "completed"@[7] == 'e' && "completed"@[8] == 'd');
        assert("completed_at"@.len() == 12 && "completed_at"@[0] == 'c' && "completed_at"@[1] == 'o' && "completed_at"@[2] == 'm' && "completed_at"@[3] == 'p' && "completed_at"@[4] == 'l' && "completed_at"@[5] == 'e' && "completed_at"@[6] == 't' && "completed_at"@[7] == 'e' && "completed_at"@[8] == 'd' && "completed_at"@[9] == '_' && "completed_at"@[10] == 'a' && "completed_at"@[11] == 't');
        assert("priority"@.len() == 8 && "priority"@[0] == 'p' && "priority"@[1] == 'r' && "priority"@[2] == 'i' && "priority"@[3] == 'o' && "priority"@[4] == 'r' && "priority"@[5] == 'i' && "priority"@[6] == 't' && "priority"@[7] == 'y');
        assert("tags"@.len() == 4 && "tags"@[0] == 't' && "tags"@[1] == 'a' && "tags"@[2] == 'g' && "tags"@[3] == 's');
        assert("metadata"@.len() == 8 && "metadata"@[0] == 'm' && "metadata"@[1] == 'e' && "metadata"@[2] == 't' && "metadata"@[3] == 'a' && "metadata"@[4] == 'd' && "metadata"@[5] == 'a' && "metadata"@[6] == 't' && "metadata"@[7] == 'a');
        let s = Self::schema_spec();
        assert forall|i: int| 0 <= i < s.len() implies match (#[trigger] s[i]).presence {
            PresenceView::Default(d) => fits_type(s[i].ty, d),
            _ => true,
        } by {
        }
    }

    proof fn lemma_fits(&self) {
        reveal(bool_v);
        let s = Self::schema_spec();
        let v = self.values();
        assert forall|i: int| 0 <= i < s.len() implies fits(#[trigger] s[i], v[i]) by {
            if i == 0 {
                assert(fits(s[0], v[0]));
            } else if i == 1 {
                assert(fits(s[1], v[1]));
            } else if i == 2 {
                assert(fits(s[2], v[2]));
            } else if i == 3 {
                assert(fits(s[3], v[3]));
            } else if i == 4 {
                assert(fits(s[4], v[4]));
            } else if i == 5 {
                assert(fits(s[5], v[5]));
            } else if i == 6 {
                assert(fits(s[6], v[6]));
            } else if i == 7 {
                assert(fits(s[7], v[7]));
            } else if i == 8 {
                assert(fits(s[8], v[8]));
            } else if i == 9 {
                assert(fits(s[9], v[9]));
            } else if i == 10 {
                assert(fits(s[10], v[10]));
            }
        }
    }
}

impl Record for TodosData {
    open spec fn table_spec() -> Seq<char> {
        "todos_data"@
    }

    open spec fn layout_spec() -> Layout {
        Layout::Timed
    }

    fn table_name() -> (r: &'static str) {
        "todos_data"
    }

    fn layout() -> (r: Layout) {
        Layout::Timed
    }

    proof fn lemma_layout() {
        reveal_strlit("timestamp");
        reveal_strlit("device_id");
        assert("timestamp"@.len() == 9 && "timestamp"@[0] == 't' && "timestamp"@[1] == 'i' && "timestamp"@[2] == 'm' && "timestamp"@[3] == 'e' && "timestamp"@[4] == 's' && "timestamp"@[5] == 't' && "timestamp"@[6] == 'a' && "timestamp"@[7] == 'm' && "timestamp"@[8] == 'p');
        assert("device_id"@.len() == 9 && "device_id"@[0] == 'd' && "device_id"@[1] == 'e' && "device_id"@[2] == 'v' && "device_id"@[3] == 'i' && "device_id"@[4] == 'c' && "device_id"@[5] == 'e' && "device_id"@[6] == '_' && "device_id"@[7] == 'i' && "device_id"@[8] == 'd');
    }
}

impl TodosData {
    /// The record's document.
    pub fn to_json(&self) -> (r: Document)
        ensures
            doc_view(r@) == encode(Self::schema_spec(), self.values()),
    {
        marshal(self)
    }

    /// The record that `doc` holds, or the error of the first field (in schema order)
    /// that it cannot give.
    pub fn from_json(doc: &Document) -> (r: Result<Self, SchemaError>)
        ensures
            match r {
                Ok(x) => decode(Self::schema_spec(), doc_view(doc@)) == Ok::<_, (SchemaErrorKind, Seq<char>)>(x.values()) && x.wf(),
                Err(e) => decode(Self::schema_spec(), doc_view(doc@)) == Err::<Seq<ValueView>, _>(e@),
            },
    {
        unmarshal(doc)
    }
}

/// A camera capture summary.
#[derive(Debug, Clone, PartialEq)]
pub struct CameraData {
    pub timestamp: Timestamp,
    pub device_id: String,
    pub camera_type: CameraType,
    pub light_level: Option<i32>,
    pub scene_type: Option<String>,
    /// JSON text.
    pub objects: Option<String>,
    /// JSON text.
    pub face_detection: Option<String>,
    /// IEEE-754 single-precision bits.
    pub focus_distance: Option<u32>,
    pub flash_state: Option<String>,
    /// IEEE-754 single-precision bits.
    pub zoom_level: Option<u32>,
    pub capture_mode: Option<String>,
    pub metadata: Option<Metadata>,
}

impl Fields for CameraData {
    open spec fn schema_spec() -> Seq<FieldSpecView> {
        seq![
            FieldSpecView { name: "timestamp"@, ty: FieldType::Instant, presence: PresenceView::Required },
            FieldSpecView { name: "device_id"@, ty: FieldType::Text, presence: PresenceView::Required },
            FieldSpecView { name: "camera_type"@, ty: FieldType::Choice(Choice::CameraType), presence: PresenceView::Required },
            FieldSpecView { name: "light_level"@, ty: FieldType::Int, presence: PresenceView::Optional },
            FieldSpecView { name: "scene_type"@, ty: FieldType::Text, presence: PresenceView::Optional },
            FieldSpecView { name: "objects"@, ty: FieldType::Raw, presence: PresenceView::Optional },
            FieldSpecView { name: "face_detection"@, ty: FieldType::Raw, presence: PresenceView::Optional },
            FieldSpecView { name: "focus_distance"@, ty: FieldType::Single, presence: PresenceView::Optional },
            FieldSpecView { name: "flash_state"@, ty: FieldType::Text, presence: PresenceView::Optional },
            FieldSpecView { name: "zoom_level"@, ty: FieldType::Single, presence: PresenceView::Optional },
            FieldSpecView { name: "capture_mode"@, ty: FieldType::Text, presence: PresenceView::Optional },
            FieldSpecView { name: "metadata"@, ty: FieldType::Entries, presence: PresenceView::Optional },
        ]
    }

    open spec fn values(&self) -> Seq<ValueView> {
        seq![
            instant_v(self.timestamp),
            text_v(self.device_id),
            camera_type_v(self.camera_type),
            opt_int_v(self.light_level),
            opt_text_v(self.scene_type),
            opt_raw_v(self.objects),
            opt_raw_v(self.face_detection),
            opt_single_v(self.focus_distance),
            opt_text_v(self.flash_state),
            opt_single_v(self.zoom_level),
            opt_text_v(self.capture_mode),
            opt_entries_v(self.metadata),
        ]
    }

    open spec fn wf(&self) -> bool {
        self.timestamp.wf()
    }

    fn schema() -> (r: Vec<FieldSpec>) {
        let r = vec![
            FieldSpec { name: "timestamp", ty: FieldType::Instant, presence: Presence::Required },
            FieldSpec { name: "device_id", ty: FieldType::Text, presence: Presence::Required },
            FieldSpec { name: "camera_type", ty: FieldType::Choice(Choice::CameraType), presence: Presence::Required },
            FieldSpec { name: "light_level", ty: FieldType::Int, presence: Presence::Optional },
            FieldSpec { name: "scene_type", ty: FieldType::Text, presence: Presence::Optional },
            FieldSpec { name: "objects", ty: FieldType::Raw, presence: Presence::Optional },
            FieldSpec { name: "face_detection", ty: FieldType::Raw, presence: Presence::Optional },
            FieldSpec { name: "focus_distance", ty: FieldType::Single, presence: Presence::Optional },
            FieldSpec { name: "flash_state", ty: FieldType::Text, presence: Presence::Optional },
            FieldSpec { name: "zoom_level", ty: FieldType::Single, presence: Presence::Optional },
            FieldSpec { name: "capture_mode", ty: FieldType::Text, presence: Presence::Optional },
            FieldSpec { name: "metadata", ty: FieldType::Entries, presence: Presence::Optional },
        ];
        assert(schema_view(r@) =~= Self::schema_spec());
        r
    }

    fn to_values(&self) -> (r: Vec<Value>) {
        let r = vec![
            put_instant(&self.timestamp),
            put_text(&self.device_id),
            put_camera_type(&self.camera_type),
            put_opt_int(&self.light_level),
            put_opt_text(&self.scene_type),
            put_opt_raw(&self.objects),
            put_opt_raw(&self.face_detection),
            put_opt_single(&self.focus_distance),
            put_opt_text(&self.flash_state),
            put_opt_single(&self.zoom_level),
            put_opt_text(&self.capture_mode),
            put_opt_entries(&self.metadata),
        ];
        assert(values_view(r@) =~= self.values());
        r
    }

    fn from_values(vals: &Vec<Value>) -> (r: Self) {
        proof {
            let s = Self::schema_spec();
            let v = values_view(vals@);
            assert(fits(s[0], v[0]));
            assert(fits(s[1], v[1]));
            assert(fits(s[2], v[2]));
            assert(fits(s[3], v[3]));
            assert(fits(s[4], v[4]));
            assert(fits(s[5], v[5]));
            assert(fits(s[6], v[6]));
            assert(fits(s[7], v[7]));
            assert(fits(s[8], v[8]));
            assert(fits(s[9], v[9]));
            assert(fits(s[10], v[10]));
            assert(fits(s[11], v[11]));
        }
        let r = CameraData {
            timestamp: take_instant(&vals[0]),
            device_id: take_text(&vals[1]),
            camera_type: take_camera_type(&vals[2]),
            light_level: take_opt_int(&vals[3]),
            scene_type: take_opt_text(&vals[4]),
            objects: take_opt_raw(&vals[5]),
            face_detection: take_opt_raw(&vals[6]),
            focus_distance: take_opt_single(&vals[7]),
            flash_state: take_opt_text(&vals[8]),
            zoom_level: take_opt_single(&vals[9]),
            capture_mode: take_opt_text(&vals[10]),
            metadata: take_opt_entries(&vals[11]),
        };
        assert(r.values() =~= values_view(vals@));
        r
    }

    proof fn lemma_schema() {
        reveal_strlit("timestamp");
        reveal_strlit("device_id");
        reveal_strlit("camera_type");
        reveal_strlit("light_level");
        reveal_strlit("scene_type");
        reveal_strlit("objects");
        reveal_strlit("face_detection");
        reveal_strlit("focus_distance");
        reveal_strlit("flash_state");
        reveal_strlit("zoom_level");
        reveal_strlit("capture_mode");
        reveal_strlit("metadata");
        assert("timestamp"@.len() == 9 && "timestamp"@[0] == 't' && "timestamp"@[1] == 'i' && "timestamp"@[2] == 'm' && "timestamp"@[3] == 'e' && "timestamp"@[4] == 's' && "timestamp"@[5] == 't' && "timestamp"@[6] == 'a' && "timestamp"@[7] == 'm' && "timestamp"@[8] == 'p');
        assert("device_id"@.len() == 9 && "device_id"@[0] == 'd' && "device_id"@[1] == 'e' && "device_id"@[2] == 'v' && "device_id"@[3] == 'i' && "device_id"@[4] == 'c' && "device_id"@[5] == 'e' && "device_id"@[6] == '_' && "device_id"@[7] == 'i' && "device_id"@[8] == 'd');
        assert("camera_type"@.len() == 11 && "camera_type"@[0] == 'c' && "camera_type"@[1] == 'a' && "camera_type"@[2] == 'm' && "camera_type"@[3] == 'e' && "camera_type"@[4] == 'r' && "camera_type"@[5] == 'a' && "camera_type"@[6] == '_' && "camera_type"@[7] == 't' && "camera_type"@[8] == 'y' && "camera_type"@[9] == 'p' && "camera_type"@[10] == 'e');
        assert("light_level"@.len() == 11 && "light_level"@[0] == 'l' && "light_level"@[1] == 'i' && "light_level"@[2] == 'g' && "light_level"@[3] == 'h' && "light_level"@[4] == 't' && "light_level"@[5] == '_' && "light_level"@[6] == 'l' && "light_level"@[7] == 'e' && "light_level"@[8] == 'v' && "light_level"@[9] == 'e' && "light_level"@[10] == 'l');
        assert("scene_type"@.len() == 10 && "scene_type"@[0] == 's' && "scene_type"@[1] == 'c' && "scene_type"@[2] == 'e' && "scene_type"@[3] == 'n' && "scene_type"@[4] == 'e' && "scene_type"@[5] == '_' && "scene_type"@[6] == 't' && "scene_type"@[7] == 'y' && "scene_type"@[8] == 'p' && "scene_type"@[9] == 'e');
        assert("objects"@.len() == 7 && "objects"@[0] == 'o' && "objects"@[1] == 'b' && "objects"@[2] == 'j' && "objects"@[3] == 'e' && "objects"@[4] == 'c' && "objects"@[5] == 't' && "objects"@[6] == 's');
        assert("face_detection"@.len() == 14 && "face_detection"@[0] == 'f' && "face_detection"@[1] == 'a' && "face_detection"@[2] == 'c' && "face_detection"@[3] == 'e' && "face_detection"@[4] == '_' && "face_detection"@[5] == 'd' && "face_detection"@[6] == 'e' && "face_detection"@[7] == 't' && "face_detection"@[8] == 'e' && "face_detection"@[9] == 'c' && "face_detection"@[10] == 't' && "face_detection"@[11] == 'i' && "face_detection"@[12] == 'o' && "face_detection"@[13] == 'n');
        assert("focus_distance"@.len() == 14 && "focus_distance"@[0] == 'f' && "focus_distance"@[1] == 'o' && "focus_distance"@[2] == 'c' && "focus_distance"@[3] == 'u' && "focus_distance"@[4] == 's' && "focus_distance"@[5] == '_' && "focus_distance"@[6] == 'd' && "focus_distance"@[7] == 'i' && "focus_distance"@[8] == 's' && "focus_distance"@[9] == 't' && "focus_distance"@[10] == 'a' && "focus_distance"@[11] == 'n' && "focus_distance"@[12] == 'c' && "focus_distance"@[13] == 'e');
        assert("flash_state"@.len() == 11 && "flash_state"@[0] == 'f' && "flash_state"@[1] == 'l' && "flash_state"@[2] == 'a' && "flash_state"@[3] == 's' && "flash_state"@[4] == 'h' && "flash_state"@[5] == '_' && "flash_state"@[6] == 's' && "flash_state"@[7] == 't' && "flash_state"@[8] == 'a' && "flash_state"@[9] == 't' && "flash_state"@[10] == 'e');
        assert("zoom_level"@.len() == 10 && "zoom_level"@[0] == 'z' && "zoom_level"@[1] == 'o' && "zoom_level"@[2] == 'o' && "zoom_level"@[3] == 'm' && "zoom_level"@[4] == '_' && "zoom_level"@[5] == 'l' && "zoom_level"@[6] == 'e' && "zoom_level"@[7] == 'v' && "zoom_level"@[8] == 'e' && "zoom_level"@[9] == 'l');
        assert("capture_mode"@.len() == 12 && "capture_mode"@[0] == 'c' && "capture_mode"@[1] == 'a' && "capture_mode"@[2] == 'p' && "capture_mode"@[3] == 't' && "capture_mode"@[4] == 'u' && "capture_mode"@[5] == 'r' && "capture_mode"@[6] == 'e' && "capture_mode"@[7] == '_' && "capture_mode"@[8] == 'm' && "capture_mode"@[9] == 'o' && "capture_mode"@[10] == 'd' && "capture_mode"@[11] == 'e');
        assert("metadata"@.len() == 8 && "metadata"@[0] == 'm' && "metadata"@[1] == 'e' && "metadata"@[2] == 't' && "metadata"@[3] == 'a' && "metadata"@[4] == 'd' && "metadata"@[5] == 'a' && "metadata"@[6] == 't' && "metadata"@[7] == 'a');
        let s = Self::schema_spec();
        assert forall|i: int| 0 <= i < s.len() implies match (#[trigger] s[i]).presence {
            PresenceView::Default(d) => fits_type(s[i].ty, d),
            _ => true,
        } by {
        }
    }

    proof fn lemma_fits(&self) {
        reveal(bool_v);
        self.camera_type.lemma_wire_round_trip();
        let s = Self::schema_spec();
        let v = self.values();
        assert forall|i: int| 0 <= i < s.len() implies fits(#[trigger] s[i], v[i]) by {
            if i == 0 {
                assert(fits(s[0], v[0]));
            } else if i == 1 {
                assert(fits(s[1], v[1]));
            } else if i == 2 {
                assert(fits(s[2], v[2]));
            } else if i == 3 {
                assert(fits(s[3], v[3]));
            } else if i == 4 {
                assert(fits(s[4], v[4]));
            } else if i == 5 {
                assert(fits(s[5], v[5]));
            } else if i == 6 {
                assert(fits(s[6], v[6]));
            } else if i == 7 {
                assert(fits(s[7], v[7]));
            } else if i == 8 {
                assert(fits(s[8], v[8]));
            } else if i == 9 {
                assert(fits(s[9], v[9]));
            } else if i == 10 {
                assert(fits(s[10], v[10]));
            } else if i == 11 {
                assert(fits(s[11], v[11]));
            }
        }
    }
}

impl Record for CameraData {
    open spec fn table_spec() -> Seq<char> {
        "camera_data"@
    }

    open spec fn layout_spec() -> Layout {
        Layout::Timed
    }

    fn table_name() -> (r: &'static str) {
        "camera_data"
    }

    fn layout() -> (r: Layout) {
        Layout::Timed
    }

    proof fn lemma_layout() {
        reveal_strlit("timestamp");
        reveal_strlit("device_id");
        assert("timestamp"@.len() == 9 && "timestamp"@[0] == 't' && "timestamp"@[1] == 'i' && "timestamp"@[2] == 'm' && "timestamp"@[3] == 'e' && "timestamp"@[4] == 's' && "timestamp"@[5] == 't' && "timestamp"@[6] == 'a' && "timestamp"@[7] == 'm' && "timestamp"@[8] == 'p');
        assert("device_id"@.len() == 9 && "device_id"@[0] == 'd' && "device_id"@[1] == 'e' && "device_id"@[2] == 'v' && "device_id"@[3] == 'i' && "device_id"@[4] == 'c' && "device_id"@[5] == 'e' && "device_id"@[6] == '_' && "device_id"@[7] == 'i' && "device_id"@[8] == 'd');
    }
}

impl CameraData {
    /// The record's document.
    pub fn to_json(&self) -> (r: Document)
        ensures
            doc_view(r@) == encode(Self::schema_spec(), self.values()),
    {
        marshal(self)
    }

    /// The record that `doc` holds, or the error of the first field (in schema order)
    /// that it cannot give.
    pub fn from_json(doc: &Document) -> (r: Result<Self, SchemaError>)
        ensures
            match r {
                Ok(x) => decode(Self::schema_spec(), doc_view(doc@)) == Ok::<_, (SchemaErrorKind, Seq<char>)>(x.values()) && x.wf(),
                Err(e) => decode(Self::schema_spec(), doc_view(doc@)) == Err::<Seq<ValueView>, _>(e@),
            },
    {
        unmarshal(doc)
    }
}

/// A span of use of an application.
#[derive(Debug, Clone, PartialEq)]
pub struct AppUsageData {
    pub timestamp: Timestamp,
    pub device_id: String,
    pub package_name: String,
    pub start_time: Timestamp,
    pub end_time: Timestamp,
    pub activity_type: String,
    pub metadata: Option<Metadata>,
}

impl Fields for AppUsageData {
    open spec fn schema_spec() -> Seq<FieldSpecView> {
        seq![
            FieldSpecView { name: "timestamp"@, ty: FieldType::Instant, presence: PresenceView::Required },
            FieldSpecView { name: "device_id"@, ty: FieldType::Text, presence: PresenceView::Required },
            FieldSpecView { name: "package_name"@, ty: FieldType::Text, presence: PresenceView::Required },
            FieldSpecView { name: "start_time"@, ty: FieldType::Instant, presence: PresenceView::Required },
            FieldSpecView { name: "end_time"@, ty: FieldType::Instant, presence: PresenceView::Required },
            FieldSpecView { name: "activity_type"@, ty: FieldType::Text, presence: PresenceView::Required },
            FieldSpecView { name: "metadata"@, ty: FieldType::Entries, presence: PresenceView::Optional },
        ]
    }

    open spec fn values(&self) -> Seq<ValueView> {
        seq![
            instant_v(self.timestamp),
            text_v(self.device_id),
            text_v(self.package_name),
            instant_v(self.start_time),
            instant_v(self.end_time),
            text_v(self.activity_type),
            opt_entries_v(self.metadata),
        ]
    }

    open spec fn wf(&self) -> bool {
        self.timestamp.wf()
        && self.start_time.wf()
        && self.end_time.wf()
    }

    fn schema() -> (r: Vec<FieldSpec>) {
        let r = vec![
            FieldSpec { name: "timestamp", ty: FieldType::Instant, presence: Presence::Required },
            FieldSpec { name: "device_id", ty: FieldType::Text, presence: Presence::Required },
            FieldSpec { name: "package_name", ty: FieldType::Text, presence: Presence::Required },
            FieldSpec { name: "start_time", ty: FieldType::Instant, presence: Presence::Required },
            FieldSpec { name: "end_time", ty: FieldType::Instant, presence: Presence::Required },
            FieldSpec { name: "activity_type", ty: FieldType::Text, presence: Presence::Required },
            FieldSpec { name: "metadata", ty: FieldType::Entries, presence: Presence::Optional },
        ];
        assert(schema_view(r@) =~= Self::schema_spec());
        r
    }

    fn to_values(&self) -> (r: Vec<Value>) {
        let r = vec![
            put_instant(&self.timestamp),
            put_text(&self.device_id),
            put_text(&self.package_name),
            put_instant(&self.start_time),
            put_instant(&self.end_time),
            put_text(&self.activity_type),
            put_opt_entries(&self.metadata),
        ];
        assert(values_view(r@) =~= self.values());
        r
    }

    fn from_values(vals: &Vec<Value>) -> (r: Self) {
        proof {
            let s = Self::schema_spec();
            let v = values_view(vals@);
            assert(fits(s[0], v[0]));
            assert(fits(s[1], v[1]));
            assert(fits(s[2], v[2]));
            assert(fits(s[3], v[3]));
            assert(fits(s[4], v[4]));
            assert(fits(s[5], v[5]));
            assert(fits(s[6], v[6]));
        }
        let r = AppUsageData {
            timestamp: take_instant(&vals[0]),
            device_id: take_text(&vals[1]),
            package_name: take_text(&vals[2]),
            start_time: take_instant(&vals[3]),
            end_time: take_instant(&vals[4]),
            activity_type: take_text(&vals[5]),
            metadata: take_opt_entries(&vals[6]),
        };
        assert(r.values() =~= values_view(vals@));
        r
    }

    proof fn lemma_schema() {
        reveal_strlit("timestamp");
        reveal_strlit("device_id");
        reveal_strlit("package_name");
        reveal_strlit("start_time");
        reveal_strlit("end_time");
        reveal_strlit("activity_type");
        reveal_strlit("metadata");
        assert("timestamp"@.len() == 9 && "timestamp"@[0] == 't' && "timestamp"@[1] == 'i' && "timestamp"@[2] == 'm' && "timestamp"@[3] == 'e' && "timestamp"@[4] == 's' && "timestamp"@[5] == 't' && "timestamp"@[6] == 'a' && "timestamp"@[7] == 'm' && "timestamp"@[8] == 'p');
        assert("device_id"@.len() == 9 && "device_id"@[0] == 'd' && "device_id"@[1] == 'e' && "device_id"@[2] == 'v' && "device_id"@[3] == 'i' && "device_id"@[4] == 'c' && "device_id"@[5] == 'e' && "device_id"@[6] == '_' && "device_id"@[7] == 'i' && "device_id"@[8] == 'd');
        assert("package_name"@.len() == 12 && "package_name"@[0] == 'p' && "package_name"@[1] == 'a' && "package_name"@[2] == 'c' && "package_name"@[3] == 'k' && "package_name"@[4] == 'a' && "package_name"@[5] == 'g' && "package_name"@[6] == 'e' && "package_name"@[7] == '_' && "package_name"@[8] == 'n' && "package_name"@[9] == 'a' && "package_name"@[10] == 'm' && "package_name"@[11] == 'e');
        assert("start_time"@.len() == 10 && "start_time"@[0] == 's' && "start_time"@[1] == 't' && "start_time"@[2] == 'a' && "start_time"@[3] == 'r' && "start_time"@[4] == 't' && "start_time"@[5] == '_' && "start_time"@[6] == 't' && "start_time"@[7] == 'i' && "start_time"@[8] == 'm' && "start_time"@[9] == 'e');
        assert("end_time"@.len() == 8 && "end_time"@[0] == 'e' && "end_time"@[1] == 'n' && "end_time"@[2] == 'd' && "end_time"@[3] == '_' && "end_time"@[4] == 't' && "end_time"@[5] == 'i' && "end_time"@[6] == 'm' && "end_time"@[7] == 'e');
        assert("activity_type"@.len() == 13 && "activity_type"@[0] == 'a' && "activity_type"@[1] == 'c' && "activity_type"@[2] == 't' && "activity_type"@[3] == 'i' && "activity_type"@[4] == 'v' && "activity_type"@[5] == 'i' && "activity_type"@[6] == 't' && "activity_type"@[7] == 'y' && "activity_type"@[8] == '_' && "activity_type"@[9] == 't' && "activity_type"@[10] == 'y' && "activity_type"@[11] == 'p' && "activity_type"@[12] == 'e');
        assert("metadata"@.len() == 8 && "metadata"@[0] == 'm' && "metadata"@[1] == 'e' && "metadata"@[2] == 't' && "metadata"@[3] == 'a' && "metadata"@[4] == 'd' && "metadata"@[5] == 'a' && "metadata"@[6] == 't' && "metadata"@[7] == 'a');
        let s = Self::schema_spec();
        assert forall|i: int| 0 <= i < s.len() implies match (#[trigger] s[i]).presence {
            PresenceView::Default(d) => fits_type(s[i].ty, d),
            _ => true,
        } by {
        }
    }

    proof fn lemma_fits(&self) {
        reveal(bool_v);
        let s = Self::schema_spec();
        let v = self.values();
        assert forall|i: int| 0 <= i < s.len() implies fits(#[trigger] s[i], v[i]) by {
            if i == 0 {
                assert(fits(s[0], v[0]));
            } else if i == 1 {
                assert(fits(s[1], v[1]));
            } else if i == 2 {
                assert(fits(s[2], v[2]));
            } else if i == 3 {
                assert(fits(s[3], v[3]));
            } else if i == 4 {
                assert(fits(s[4], v[4]));
            } else if i == 5 {
                assert(fits(s[5], v[5]));
            } else if i == 6 {
                assert(fits(s[6], v[6]));
            }
        }
    }
}

impl Record for AppUsageData {
    open spec fn table_spec() -> Seq<char> {
        "app_usage_data"@
    }

    open spec fn layout_spec() -> Layout {
        Layout::Timed
    }

    fn table_name() -> (r: &'static str) {
        "app_usage_data"
    }

    fn layout() -> (r: Layout) {
        Layout::Timed
    }

    proof fn lemma_layout() {
        reveal_strlit("timestamp");
        reveal_strlit("device_id");
        assert("timestamp"@.len() == 9 && "timestamp"@[0] == 't' && "timestamp"@[1] == 'i' && "timestamp"@[2] == 'm' && "timestamp"@[3] == 'e' && "timestamp"@[4] == 's' && "timestamp"@[5] == 't' && "timestamp"@[6] == 'a' && "timestamp"@[7] == 'm' && "timestamp"@[8] == 'p');
        assert("device_id"@.len() == 9 && "device_id"@[0] == 'd' && "device_id"@[1] == 'e' && "device_id"@[2] == 'v' && "device_id"@[3] == 'i' && "device_id"@[4] == 'c' && "device_id"@[5] == 'e' && "device_id"@[6] == '_' && "device_id"@[7] == 'i' && "device_id"@[8] == 'd');
    }
}

impl AppUsageData {
    /// The record's document.
    pub fn to_json(&self) -> (r: Document)
        ensures
            doc_view(r@) == encode(Self::schema_spec(), self.values()),
    {
        marshal(self)
    }

    /// The record that `doc` holds, or the error of the first field (in schema order)
    /// that it cannot give.
    pub fn from_json(doc: &Document) -> (r: Result<Self, SchemaError>)
        ensures
            match r {
                Ok(x) => decode(Self::schema_spec(), doc_view(doc@)) == Ok::<_, (SchemaErrorKind, Seq<char>)>(x.values()) && x.wf(),
                Err(e) => decode(Self::schema_spec(), doc_view(doc@)) == Err::<Seq<ValueView>, _>(e@),
            },
    {
        unmarshal(doc)
    }
}

/// A Wi-Fi connection state.
#[derive(Debug, Clone, PartialEq)]
pub struct WifiData {
    pub timestamp: Timestamp,
    pub device_id: String,
    pub ssid: String,
    pub bssid: String,
    pub strength: i32,
    pub frequency: i32,
    pub ip_address: String,
    pub link_speed: i32,
    pub security_type: String,
    pub is_5ghz: bool,
    pub is_6ghz: bool,
    pub is_passpoint: bool,
    pub is_restricted: bool,
    /// JSON text.
    pub nearby_networks: Option<String>,
    pub metadata: Option<Metadata>,
}

impl Fields for WifiData {
    open spec fn schema_spec() -> Seq<FieldSpecView> {
        seq![
            FieldSpecView { name: "timestamp"@, ty: FieldType::Instant, presence: PresenceView::Required },
            FieldSpecView { name: "device_id"@, ty: FieldType::Text, presence: PresenceView::Required },
            FieldSpecView { name: "ssid"@, ty: FieldType::Text, presence: PresenceView::Required },
            FieldSpecView { name: "bssid"@, ty: FieldType::Text, presence: PresenceView::Required },
            FieldSpecView { name: "strength"@, ty: FieldType::Int, presence: PresenceView::Required },
            FieldSpecView { name: "frequency"@, ty: FieldType::Int, presence: PresenceView::Required },
            FieldSpecView { name: "ip_address"@, ty: FieldType::Text, presence: PresenceView::Required },
            FieldSpecView { name: "link_speed"@, ty: FieldType::Int, presence: PresenceView::Required },
            FieldSpecView { name: "security_type"@, ty: FieldType::Text, presence: PresenceView::Required },
            FieldSpecView { name: "is_5ghz"@, ty: FieldType::Bool, presence: PresenceView::Required },
            FieldSpecView { name: "is_6ghz"@, ty: FieldType::Bool, presence: PresenceView::Required },
            FieldSpecView { name: "is_passpoint"@, ty: FieldType::Bool, presence: PresenceView::Required },
            FieldSpecView { name: "is_restricted"@, ty: FieldType::Bool, presence: PresenceView::Required },
            FieldSpecView { name: "nearby_networks"@, ty: FieldType::Raw, presence: PresenceView::Optional },
            FieldSpecView { name: "metadata"@, ty: FieldType::Entries, presence: PresenceView::Optional },
        ]
    }

    open spec fn values(&self) -> Seq<ValueView> {
        seq![
            instant_v(self.timestamp),
            text_v(self.device_id),
            text_v(self.ssid),
            text_v(self.bssid),
            int_v(self.strength),
            int_v(self.frequency),
            text_v(self.ip_address),
            int_v(self.link_speed),
            text_v(self.security_type),
            bool_v(self.is_5ghz),
            bool_v(self.is_6ghz),
            bool_v(self.is_passpoint),
            bool_v(self.is_restricted),
            opt_raw_v(self.nearby_networks),
            opt_entries_v(self.metadata),
        ]
    }

    open spec fn wf(&self) -> bool {
        self.timestamp.wf()
    }

    fn schema() -> (r: Vec<FieldSpec>) {
        let r = vec![
            FieldSpec { name: "timestamp", ty: FieldType::Instant, presence: Presence::Required },
            FieldSpec { name: "device_id", ty: FieldType::Text, presence: Presence::Required },
            FieldSpec { name: "ssid", ty: FieldType::Text, presence: Presence::Required },
            FieldSpec { name: "bssid", ty: FieldType::Text, presence: Presence::Required },
            FieldSpec { name: "strength", ty: FieldType::Int, presence: Presence::Required },
            FieldSpec { name: "frequency", ty: FieldType::Int, presence: Presence::Required },
            FieldSpec { name: "ip_address", ty: FieldType::Text, presence: Presence::Required },
            FieldSpec { name: "link_speed", ty: FieldType::Int, presence: Presence::Required },
            FieldSpec { name: "security_type", ty: FieldType::Text, presence: Presence::Required },
            FieldSpec { name: "is_5ghz", ty: FieldType::Bool, presence: Presence::Required },
            FieldSpec { name: "is_6ghz", ty: FieldType::Bool, presence: Presence::Required },
            FieldSpec { name: "is_passpoint", ty: FieldType::Bool, presence: Presence::Required },
            FieldSpec { name: "is_restricted", ty: FieldType::Bool, presence: Presence::Required },
            FieldSpec { name: "nearby_networks", ty: FieldType::Raw, presence: Presence::Optional },
            FieldSpec { name: "metadata", ty: FieldType::Entries, presence: Presence::Optional },
        ];
        assert(schema_view(r@) =~= Self::schema_spec());
        r
    }

    fn to_values(&self) -> (r: Vec<Value>) {
        let r = vec![
            put_instant(&self.timestamp),
            put_text(&self.device_id),
            put_text(&self.ssid),
            put_text(&self.bssid),
            put_int(&self.strength),
            put_int(&self.frequency),
            put_text(&self.ip_address),
            put_int(&self.link_speed),
            put_text(&self.security_type),
            put_bool(&self.is_5ghz),
            put_bool(&self.is_6ghz),
            put_bool(&self.is_passpoint),
            put_bool(&self.is_restricted),
            put_opt_raw(&self.nearby_networks),
            put_opt_entries(&self.metadata),
        ];
        assert(values_view(r@) =~= self.values());
        r
    }

    fn from_values(vals: &Vec<Value>) -> (r: Self) {
        proof {
            let s = Self::schema_spec();
            let v = values_view(vals@);
            assert(fits(s[0], v[0]));
            assert(fits(s[1], v[1]));
            assert(fits(s[2], v[2]));
            assert(fits(s[3], v[3]));
            assert(fits(s[4], v[4]));
            assert(fits(s[5], v[5]));
            assert(fits(s[6], v[6]));
            assert(fits(s[7], v[7]));
            assert(fits(s[8], v[8]));
            assert(fits(s[9], v[9]));
            assert(fits(s[10], v[10]));
            assert(fits(s[11], v[11]));
            assert(fits(s[12], v[12]));
            assert(fits(s[13], v[13]));
            assert(fits(s[14], v[14]));
        }
        let r = WifiData {
            timestamp: take_instant(&vals[0]),
            device_id: take_text(&vals[1]),
            ssid: take_text(&vals[2]),
            bssid: take_text(&vals[3]),
            strength: take_int(&vals[4]),
            frequency: take_int(&vals[5]),
            ip_address: take_text(&vals[6]),
            link_speed: take_int(&vals[7]),
            security_type: take_text(&vals[8]),
            is_5ghz: take_bool(&vals[9]),
            is_6ghz: take_bool(&vals[10]),
            is_passpoint: take_bool(&vals[11]),
            is_restricted: take_bool(&vals[12]),
            nearby_networks: take_opt_raw(&vals[13]),
            metadata: take_opt_entries(&vals[14]),
        };
        assert(r.values() =~= values_view(vals@));
        r
    }

    proof fn lemma_schema() {
        reveal_strlit("timestamp");
        reveal_strlit("device_id");
        reveal_strlit("ssid");
        reveal_strlit("bssid");
        reveal_strlit("strength");
        reveal_strlit("frequency");
        reveal_strlit("ip_address");
        reveal_strlit("link_speed");
        reveal_strlit("security_type");
        reveal_strlit("is_5ghz");
        reveal_strlit("is_6ghz");
        reveal_strlit("is_passpoint");
        reveal_strlit("is_restricted");
        reveal_strlit("nearby_networks");
        reveal_strlit("metadata");
        assert("timestamp"@.len() == 9 && "timestamp"@[0] == 't' && "timestamp"@[1] == 'i' && "timestamp"@[2] == 'm' && "timestamp"@[3] == 'e' && "timestamp"@[4] == 's' && "timestamp"@[5] == 't' && "timestamp"@[6] == 'a' && "timestamp"@[7] == 'm' && "timestamp"@[8] == 'p');
        assert("device_id"@.len() == 9 && "device_id"@[0] == 'd' && "device_id"@[1] == 'e' && "device_id"@[2] == 'v' && "device_id"@[3] == 'i' && "device_id"@[4] == 'c' && "device_id"@[5] == 'e' && "device_id"@[6] == '_' && "device_id"@[7] == 'i' && "device_id"@[8] == 'd');
        assert("ssid"@.len() == 4 && "ssid"@[0] == 's' && "ssid"@[1] == 's' && "ssid"@[2] == 'i' && "ssid"@[3] == 'd');
        assert("bssid"@.len() == 5 && "bssid"@[0] == 'b' && "bssid"@[1] == 's' && "bssid"@[2] == 's' && "bssid"@[3] == 'i' && "bssid"@[4] == 'd');
        assert("strength"@.len() == 8 && "strength"@[0] == 's' && "strength"@[1] == 't' && "strength"@[2] == 'r' && "strength"@[3] == 'e' && "strength"@[4] == 'n' && "strength"@[5] == 'g' && "strength"@[6] == 't' && "strength"@[7] == 'h');
        assert("frequency"@.len() == 9 && "frequency"@[0] == 'f' && "frequency"@[1] == 'r' && "frequency"@[2] == 'e' && "frequency"@[3] == 'q' && "frequency"@[4] == 'u' && "frequency"@[5] == 'e' && "frequency"@[6] == 'n' && "frequency"@[7] == 'c' && "frequency"@[8] == 'y');
        assert("ip_address"@.len() == 10 && "ip_address"@[0] == 'i' && "ip_address"@[1] == 'p' && "ip_address"@[2] == '_' && "ip_address"@[3] == 'a' && "ip_address"@[4] == 'd' && "ip_address"@[5] == 'd' && "ip_address"@[6] == 'r' && "ip_address"@[7] == 'e' && "ip_address"@[8] == 's' && "ip_address"@[9] == 's');
        assert("link_speed"@.len() == 10 && "link_speed"@[0] == 'l' && "link_speed"@[1] == 'i' && "link_speed"@[2] == 'n' && "link_speed"@[3] == 'k' && "link_speed"@[4] == '_' && "link_speed"@[5] == 's' && "link_speed"@[6] == 'p' && "link_speed"@[7] == 'e' && "link_speed"@[8] == 'e' && "link_speed"@[9] == 'd');
        assert("security_type"@.len() == 13 && "security_type"@[0] == 's' && "security_type"@[1] == 'e' && "security_type"@[2] == 'c' && "security_type"@[3] == 'u' && "security_type"@[4] == 'r' && "security_type"@[5] == 'i' && "security_type"@[6] == 't' && "security_type"@[7] == 'y' && "security_type"@[8] == '_' && "security_type"@[9] == 't' && "security_type"@[10] == 'y' && "security_type"@[11] == 'p' && "security_type"@[12] == 'e');
        assert("is_5ghz"@.len() == 7 && "is_5ghz"@[0] == 'i' && "is_5ghz"@[1] == 's' && "is_5ghz"@[2] == '_' && "is_5ghz"@[3] == '5' && "is_5ghz"@[4] == 'g' && "is_5ghz"@[5] == 'h' && "is_5ghz"@[6] == 'z');
        assert("is_6ghz"@.len() == 7 && "is_6ghz"@[0] == 'i' && "is_6ghz"@[1] == 's' && "is_6ghz"@[2] == '_' && "is_6ghz"@[3] == '6' && "is_6ghz"@[4] == 'g' && "is_6ghz"@[5] == 'h' && "is_6ghz"@[6] == 'z');
        assert("is_passpoint"@.len() == 12 && "is_passpoint"@[0] == 'i' && "is_passpoint"@[1] == 's' && "is_passpoint"@[2] == '_' && "is_passpoint"@[3] == 'p' && "is_passpoint"@[4] == 'a' && "is_passpoint"@[5] == 's' && "is_passpoint"@[6] == 's' && "is_passpoint"@[7] == 'p' && "is_passpoint"@[8] == 'o' && "is_passpoint"@[9] == 'i' && "is_passpoint"@[10] == 'n' && "is_passpoint"@[11] == 't');
        assert("is_restricted"@.len() == 13 && "is_restricted"@[0] == 'i' && "is_restricted"@[1] == 's' && "is_restricted"@[2] == '_' && "is_restricted"@[3] == 'r' && "is_restricted"@[4] == 'e' && "is_restricted"@[5] == 's' && "is_restricted"@[6] == 't' && "is_restricted"@[7] == 'r' && "is_restricted"@[8] == 'i' && "is_restricted"@[9] == 'c' && "is_restricted"@[10] == 't' && "is_restricted"@[11] == 'e' && "is_restricted"@[12] == 'd');
        assert("nearby_networks"@.len() == 15 && "nearby_networks"@[0] == 'n' && "nearby_networks"@[1] == 'e' && "nearby_networks"@[2] == 'a' && "nearby_networks"@[3] == 'r' && "nearby_networks"@[4] == 'b' && "nearby_networks"@[5] == 'y' && "nearby_networks"@[6] == '_' && "nearby_networks"@[7] == 'n' && "nearby_networks"@[8] == 'e' && "nearby_networks"@[9] == 't' && "nearby_networks"@[10] == 'w' && "nearby_networks"@[11] == 'o' && "nearby_networks"@[12] == 'r' && "nearby_networks"@[13] == 'k' && "nearby_networks"@[14] == 's');
        assert("metadata"@.len() == 8 && "metadata"@[0] == 'm' && "metadata"@[1] == 'e' && "metadata"@[2] == 't' && "metadata"@[3] == 'a' && "metadata"@[4] == 'd' && "metadata"@[5] == 'a' && "metadata"@[6] == 't' && "metadata"@[7] == 'a');
        let s = Self::schema_spec();
        assert forall|i: int| 0 <= i < s.len() implies match (#[trigger] s[i]).presence {
            PresenceView::Default(d) => fits_type(s[i].ty, d),
            _ => true,
        } by {
        }
    }

    proof fn lemma_fits(&self) {
        reveal(bool_v);
        let s = Self::schema_spec();
        let v = self.values();
        assert forall|i: int| 0 <= i < s.len() implies fits(#[trigger] s[i], v[i]) by {
            if i == 0 {
                assert(fits(s[0], v[0]));
            } else if i == 1 {
                assert(fits(s[1], v[1]));
            } else if i == 2 {
                assert(fits(s[2], v[2]));
            } else if i == 3 {
                assert(fits(s[3], v[3]));
            } else if i == 4 {
                assert(fits(s[4], v[4]));
            } else if i == 5 {
                assert(fits(s[5], v[5]));
            } else if i == 6 {
                assert(fits(s[6], v[6]));
            } else if i == 7 {
                assert(fits(s[7], v[7]));
            } else if i == 8 {
                assert(fits(s[8], v[8]));
            } else if i == 9 {
                assert(fits(s[9], v[9]));
            } else if i == 10 {
                assert(fits(s[10], v[10]));
            } else if i == 11 {
                assert(fits(s[11], v[11]));
            } else if i == 12 {
                assert(fits(s[12], v[12]));
            } else if i == 13 {
                assert(fits(s[13], v[13]));
            } else if i == 14 {
                assert(fits(s[14], v[14]));
            }
        }
    }
}

impl Record for WifiData {
    open spec fn table_spec() -> Seq<char> {
        "wifi_data"@
    }

    open spec fn layout_spec() -> Layout {
        Layout::Timed
    }

    fn table_name() -> (r: &'static str) {
        "wifi_data"
    }

    fn layout() -> (r: Layout) {
        Layout::Timed
    }

    proof fn lemma_layout() {
        reveal_strlit("timestamp");
        reveal_strlit("device_id");
        assert("timestamp"@.len() == 9 && "timestamp"@[0] == 't' && "timestamp"@[1] == 'i' && "timestamp"@[2] == 'm' && "timestamp"@[3] == 'e' && "timestamp"@[4] == 's' && "timestamp"@[5] == 't' && "timestamp"@[6] == 'a' && "timestamp"@[7] == 'm' && "timestamp"@[8] == 'p');
        assert("device_id"@.len() == 9 && "device_id"@[0] == 'd' && "device_id"@[1] == 'e' && "device_id"@[2] == 'v' && "device_id"@[3] == 'i' && "device_id"@[4] == 'c' && "device_id"@[5] == 'e' && "device_id"@[6] == '_' && "device_id"@[7] == 'i' && "device_id"@[8] == 'd');
    }
}

impl WifiData {
    /// The record's document.
    pub fn to_json(&self) -> (r: Document)
        ensures
            doc_view(r@) == encode(Self::schema_spec(), self.values()),
    {
        marshal(self)
    }

    /// The record that `doc` holds, or the error of the first field (in schema order)
    /// that it cannot give.
    pub fn from_json(doc: &Document) -> (r: Result<Self, SchemaError>)
        ensures
            match r {
                Ok(x) => decode(Self::schema_spec(), doc_view(doc@)) == Ok::<_, (SchemaErrorKind, Seq<char>)>(x.values()) && x.wf(),
                Err(e) => decode(Self::schema_spec(), doc_view(doc@)) == Err::<Seq<ValueView>, _>(e@),
            },
    {
        unmarshal(doc)
    }
}

/// A call log entry.
#[derive(Debug, Clone, PartialEq)]
pub struct CallLogData {
    pub timestamp: Timestamp,
    pub device_id: String,
    pub call_type: String,
    pub phone_number: Option<String>,
    pub contact_name: Option<String>,
    pub duration_seconds: i32,
    pub is_missed: bool,
    pub is_blocked: bool,
    pub sim_slot: Option<i32>,
    pub metadata: Option<Metadata>,
}

impl Fields for CallLogData {
    open spec fn schema_spec() -> Seq<FieldSpecView> {
        seq![
            FieldSpecView { name: "timestamp"@, ty: FieldType::Instant, presence: PresenceView::Required },
            FieldSpecView { name: "device_id"@, ty: FieldType::Text, presence: PresenceView::Required },
            FieldSpecView { name: "call_type"@, ty: FieldType::Text, presence: PresenceView::Required },
            FieldSpecView { name: "phone_number"@, ty: FieldType::Text, presence: PresenceView::Optional },
            FieldSpecView { name: "contact_name"@, ty: FieldType::Text, presence: PresenceView::Optional },
            FieldSpecView { name: "duration_seconds"@, ty: FieldType::Int, presence: PresenceView::Required },
            FieldSpecView { name: "is_missed"@, ty: FieldType::Bool, presence: PresenceView::Required },
            FieldSpecView { name: "is_blocked"@, ty: FieldType::Bool, presence: PresenceView::Required },
            FieldSpecView { name: "sim_slot"@, ty: FieldType::Int, presence: PresenceView::Optional },
            FieldSpecView { name: "metadata"@, ty: FieldType::Entries, presence: PresenceView::Optional },
        ]
    }

    open spec fn values(&self) -> Seq<ValueView> {
        seq![
            instant_v(self.timestamp),
            text_v(self.device_id),
            text_v(self.call_type),
            opt_text_v(self.phone_number),
            opt_text_v(self.contact_name),
            int_v(self.duration_seconds),
            bool_v(self.is_missed),
            bool_v(self.is_blocked),
            opt_int_v(self.sim_slot),
            opt_entries_v(self.metadata),
        ]
    }

    open spec fn wf(&self) -> bool {
        self.timestamp.wf()
    }

    fn schema() -> (r: Vec<FieldSpec>) {
        let r = vec![
            FieldSpec { name: "timestamp", ty: FieldType::Instant, presence: Presence::Required },
            FieldSpec { name: "device_id", ty: FieldType::Text, presence: Presence::Required },
            FieldSpec { name: "call_type", ty: FieldType::Text, presence: Presence::Required },
            FieldSpec { name: "phone_number", ty: FieldType::Text, presence: Presence::Optional },
            FieldSpec { name: "contact_name", ty: FieldType::Text, presence: Presence::Optional },
            FieldSpec { name: "duration_seconds", ty: FieldType::Int, presence: Presence::Required },
            FieldSpec { name: "is_missed", ty: FieldType::Bool, presence: Presence::Required },
            FieldSpec { name: "is_blocked", ty: FieldType::Bool, presence: Presence::Required },
            FieldSpec { name: "sim_slot", ty: FieldType::Int, presence: Presence::Optional },
            FieldSpec { name: "metadata", ty: FieldType::Entries, presence: Presence::Optional },
        ];
        assert(schema_view(r@) =~= Self::schema_spec());
        r
    }

    fn to_values(&self) -> (r: Vec<Value>) {
        let r = vec![
            put_instant(&self.timestamp),
            put_text(&self.device_id),
            put_text(&self.call_type),
            put_opt_text(&self.phone_number),
            put_opt_text(&self.contact_name),
            put_int(&self.duration_seconds),
            put_bool(&self.is_missed),
            put_bool(&self.is_blocked),
            put_opt_int(&self.sim_slot),
            put_opt_entries(&self.metadata),
        ];
        assert(values_view(r@) =~= self.values());
        r
    }

    fn from_values(vals: &Vec<Value>) -> (r: Self) {
        proof {
            let s = Self::schema_spec();
            let v = values_view(vals@);
            assert(fits(s[0], v[0]));
            assert(fits(s[1], v[1]));
            assert(fits(s[2], v[2]));
            assert(fits(s[3], v[3]));
            assert(fits(s[4], v[4]));
            assert(fits(s[5], v[5]));
            assert(fits(s[6], v[6]));
            assert(fits(s[7], v[7]));
            assert(fits(s[8], v[8]));
            assert(fits(s[9], v[9]));
        }
        let r = CallLogData {
            timestamp: take_instant(&vals[0]),
            device_id: take_text(&vals[1]),
            call_type: take_text(&vals[2]),
            phone_number: take_opt_text(&vals[3]),
            contact_name: take_opt_text(&vals[4]),
            duration_seconds: take_int(&vals[5]),
            is_missed: take_bool(&vals[6]),
            is_blocked: take_bool(&vals[7]),
            sim_slot: take_opt_int(&vals[8]),
            metadata: take_opt_entries(&vals[9]),
        };
        assert(r.values() =~= values_view(vals@));
        r
    }

    proof fn lemma_schema() {
        reveal_strlit("timestamp");
        reveal_strlit("device_id");
        reveal_strlit("call_type");
        reveal_strlit("phone_number");
        reveal_strlit("contact_name");
        reveal_strlit("duration_seconds");
        reveal_strlit("is_missed");
        reveal_strlit("is_blocked");
        reveal_strlit("sim_slot");
        reveal_strlit("metadata");
        assert("timestamp"@.len() == 9 && "timestamp"@[0] == 't' && "timestamp"@[1] == 'i' && "timestamp"@[2] == 'm' && "timestamp"@[3] == 'e' && "timestamp"@[4] == 's' && "timestamp"@[5] == 't' && "timestamp"@[6] == 'a' && "timestamp"@[7] == 'm' && "timestamp"@[8] == 'p');
        assert("device_id"@.len() == 9 && "device_id"@[0] == 'd' && "device_id"@[1] == 'e' && "device_id"@[2] == 'v' && "device_id"@[3] == 'i' && "device_id"@[4] == 'c' && "device_id"@[5] == 'e' && "device_id"@[6] == '_' && "device_id"@[7] == 'i' && "device_id"@[8] == 'd');
        assert("call_type"@.len() == 9 && "call_type"@[0] == 'c' && "call_type"@[1] == 'a' && "call_type"@[2] == 'l' && "call_type"@[3] == 'l' && "call_type"@[4] == '_' && "call_type"@[5] == 't' && "call_type"@[6] == 'y' && "call_type"@[7] == 'p' && "call_type"@[8] == 'e');
        assert("phone_number"@.len() == 12 && "phone_number"@[0] == 'p' && "phone_number"@[1] == 'h' && "phone_number"@[2] == 'o' && "phone_number"@[3] == 'n' && "phone_number"@[4] == 'e' && "phone_number"@[5] == '_' && "phone_number"@[6] == 'n' && "phone_number"@[7] == 'u' && "phone_number"@[8] == 'm' && "phone_number"@[9] == 'b' && "phone_number"@[10] == 'e' && "phone_number"@[11] == 'r');
        assert("contact_name"@.len() == 12 && "contact_name"@[0] == 'c' && "contact_name"@[1] == 'o' && "contact_name"@[2] == 'n' && "contact_name"@[3] == 't' && "contact_name"@[4] == 'a' && "contact_name"@[5] == 'c' && "contact_name"@[6] == 't' && "contact_name"@[7] == '_' && "contact_name"@[8] == 'n' && "contact_name"@[9] == 'a' && "contact_name"@[10] == 'm' && "contact_name"@[11] == 'e');
        assert("duration_seconds"@.len() == 16 && "duration_seconds"@[0] == 'd' && "duration_seconds"@[1] == 'u' && "duration_seconds"@[2] == 'r' && "duration_seconds"@[3] == 'a' && "duration_seconds"@[4] == 't' && "duration_seconds"@[5] == 'i' && "duration_seconds"@[6] == 'o' && "duration_seconds"@[7] == 'n' && "duration_seconds"@[8] == '_' && "duration_seconds"@[9] == 's' && "duration_seconds"@[10] == 'e' && "duration_seconds"@[11] == 'c' && "duration_seconds"@[12] == 'o' && "duration_seconds"@[13] == 'n' && "duration_seconds"@[14] == 'd' && "duration_seconds"@[15] == 's');
        assert("is_missed"@.len() == 9 && "is_missed"@[0] == 'i' && "is_missed"@[1] == 's' && "is_missed"@[2] == '_' && "is_missed"@[3] == 'm' && "is_missed"@[4] == 'i' && "is_missed"@[5] == 's' && "is_missed"@[6] == 's' && "is_missed"@[7] == 'e' && "is_missed"@[8] == 'd');
        assert("is_blocked"@.len() == 10 && "is_blocked"@[0] == 'i' && "is_blocked"@[1] == 's' && "is_blocked"@[2] == '_' && "is_blocked"@[3] == 'b' && "is_blocked"@[4] == 'l' && "is_blocked"@[5] == 'o' && "is_blocked"@[6] == 'c' && "is_blocked"@[7] == 'k' && "is_blocked"@[8] == 'e' && "is_blocked"@[9] == 'd');
        assert("sim_slot"@.len() == 8 && "sim_slot"@[0] == 's' && "sim_slot"@[1] == 'i' && "sim_slot"@[2] == 'm' && "sim_slot"@[3] == '_' && "sim_slot"@[4] == 's' && "sim_slot"@[5] == 'l' && "sim_slot"@[6] == 'o' && "sim_slot"@[7] == 't');
        assert("metadata"@.len() == 8 && "metadata"@[0] == 'm' && "metadata"@[1] == 'e' && "metadata"@[2] == 't' && "metadata"@[3] == 'a' && "metadata"@[4] == 'd' && "metadata"@[5] == 'a' && "metadata"@[6] == 't' && "metadata"@[7] == 'a');
        let s = Self::schema_spec();
        assert forall|i: int| 0 <= i < s.len() implies match (#[trigger] s[i]).presence {
            PresenceView::Default(d) => fits_type(s[i].ty, d),
            _ => true,
        } by {
        }
    }

    proof fn lemma_fits(&self) {
        reveal(bool_v);
        let s = Self::schema_spec();
        let v = self.values();
        assert forall|i: int| 0 <= i < s.len() implies fits(#[trigger] s[i], v[i]) by {
            if i == 0 {
                assert(fits(s[0], v[0]));
            } else if i == 1 {
                assert(fits(s[1], v[1]));
            } else if i == 2 {
                assert(fits(s[2], v[2]));
            } else if i == 3 {
                assert(fits(s[3], v[3]));
            } else if i == 4 {
                assert(fits(s[4], v[4]));
            } else if i == 5 {
                assert(fits(s[5], v[5]));
            } else if i == 6 {
                assert(fits(s[6], v[6]));
            } else if i == 7 {
                assert(fits(s[7], v[7]));
            } else if i == 8 {
                assert(fits(s[8], v[8]));
            } else if i == 9 {
                assert(fits(s[9], v[9]));
            }
        }
    }
}

impl Record for CallLogData {
    open spec fn table_spec() -> Seq<char> {
        "call_log_data"@
    }

    open spec fn layout_spec() -> Layout {
        Layout::Timed
    }

    fn table_name() -> (r: &'static str) {
        "call_log_data"
    }

    fn layout() -> (r: Layout) {
        Layout::Timed
    }

    proof fn lemma_layout() {
        reveal_strlit("timestamp");
        reveal_strlit("device_id");
        assert("timestamp"@.len() == 9 && "timestamp"@[0] == 't' && "timestamp"@[1] == 'i' && "timestamp"@[2] == 'm' && "timestamp"@[3] == 'e' && "timestamp"@[4] == 's' && "timestamp"@[5] == 't' && "timestamp"@[6] == 'a' && "timestamp"@[7] == 'm' && "timestamp"@[8] == 'p');
        assert("device_id"@.len() == 9 && "device_id"@[0] == 'd' && "device_id"@[1] == 'e' && "device_id"@[2] == 'v' && "device_id"@[3] == 'i' && "device_id"@[4] == 'c' && "device_id"@[5] == 'e' && "device_id"@[6] == '_' && "device_id"@[7] == 'i' && "device_id"@[8] == 'd');
    }
}

impl CallLogData {
    /// The record's document.
    pub fn to_json(&self) -> (r: Document)
        ensures
            doc_view(r@) == encode(Self::schema_spec(), self.values()),
    {
        marshal(self)
    }

    /// The record that `doc` holds, or the error of the first field (in schema order)
    /// that it cannot give.
    pub fn from_json(doc: &Document) -> (r: Result<Self, SchemaError>)
        ensures
            match r {
                Ok(x) => decode(Self::schema_spec(), doc_view(doc@)) == Ok::<_, (SchemaErrorKind, Seq<char>)>(x.values()) && x.wf(),
                Err(e) => decode(Self::schema_spec(), doc_view(doc@)) == Err::<Seq<ValueView>, _>(e@),
            },
    {
        unmarshal(doc)
    }
}

/// A notification event.
#[derive(Debug, Clone, PartialEq)]
pub struct NotificationData {
    pub timestamp: Timestamp,
    pub device_id: String,
    pub package_name: Option<String>,
    pub title: Option<String>,
    pub priority: Option<i32>,
    pub category: Option<String>,
    pub posted_at: Option<Timestamp>,
    pub removed_at: Option<Timestamp>,
    pub metadata: Option<Metadata>,
}

impl Fields for NotificationData {
    open spec fn schema_spec() -> Seq<FieldSpecView> {
        seq![
            FieldSpecView { name: "timestamp"@, ty: FieldType::Instant, presence: PresenceView::Required },
            FieldSpecView { name: "device_id"@, ty: FieldType::Text, presence: PresenceView::Required },
            FieldSpecView { name: "package_name"@, ty: FieldType::Text, presence: PresenceView::Optional },
            FieldSpecView { name: "title"@, ty: FieldType::Text, presence: PresenceView::Optional },
            FieldSpecView { name: "priority"@, ty: FieldType::Int, presence: PresenceView::Optional },
            FieldSpecView { name: "category"@, ty: FieldType::Text, presence: PresenceView::Optional },
            FieldSpecView { name: "posted_at"@, ty: FieldType::Instant, presence: PresenceView::Optional },
            FieldSpecView { name: "removed_at"@, ty: FieldType::Instant, presence: PresenceView::Optional },
            FieldSpecView { name: "metadata"@, ty: FieldType::Entries, presence: PresenceView::Optional },
        ]
    }

    open spec fn values(&self) -> Seq<ValueView> {
        seq![
            instant_v(self.timestamp),
            text_v(self.device_id),
            opt_text_v(self.package_name),
            opt_text_v(self.title),
            opt_int_v(self.priority),
            opt_text_v(self.category),
            opt_instant_v(self.posted_at),
            opt_instant_v(self.removed_at),
            opt_entries_v(self.metadata),
        ]
    }

    open spec fn wf(&self) -> bool {
        self.timestamp.wf()
        && (self.posted_at matches Some(t) ==> t.wf())
        && (self.removed_at matches Some(t) ==> t.wf())
    }

    fn schema() -> (r: Vec<FieldSpec>) {
        let r = vec![
            FieldSpec { name: "timestamp", ty: FieldType::Instant, presence: Presence::Required },
            FieldSpec { name: "device_id", ty: FieldType::Text, presence: Presence::Required },
            FieldSpec { name: "package_name", ty: FieldType::Text, presence: Presence::Optional },
            FieldSpec { name: "title", ty: FieldType::Text, presence: Presence::Optional },
            FieldSpec { name: "priority", ty: FieldType::Int, presence: Presence::Optional },
            FieldSpec { name: "category", ty: FieldType::Text, presence: Presence::Optional },
            FieldSpec { name: "posted_at", ty: FieldType::Instant, presence: Presence::Optional },
            FieldSpec { name: "removed_at", ty: FieldType::Instant, presence: Presence::Optional },
            FieldSpec { name: "metadata", ty: FieldType::Entries, presence: Presence::Optional },
        ];
        assert(schema_view(r@) =~= Self::schema_spec());
        r
    }

    fn to_values(&self) -> (r: Vec<Value>) {
        let r = vec![
            put_instant(&self.timestamp),
            put_text(&self.device_id),
            put_opt_text(&self.package_name),
            put_opt_text(&self.title),
            put_opt_int(&self.priority),
            put_opt_text(&self.category),
            put_opt_instant(&self.posted_at),
            put_opt_instant(&self.removed_at),
            put_opt_entries(&self.metadata),
        ];
        assert(values_view(r@) =~= self.values());
        r
    }

    fn from_values(vals: &Vec<Value>) -> (r: Self) {
        proof {
            let s = Self::schema_spec();
            let v = values_view(vals@);
            assert(fits(s[0], v[0]));
            assert(fits(s[1], v[1]));
            assert(fits(s[2], v[2]));
            assert(fits(s[3], v[3]));
            assert(fits(s[4], v[4]));
            assert(fits(s[5], v[5]));
            assert(fits(s[6], v[6]));
            assert(fits(s[7], v[7]));
            assert(fits(s[8], v[8]));
        }
        let r = NotificationData {
            timestamp: take_instant(&vals[0]),
            device_id: take_text(&vals[1]),
            package_name: take_opt_text(&vals[2]),
            title: take_opt_text(&vals[3]),
            priority: take_opt_int(&vals[4]),
            category: take_opt_text(&vals[5]),
            posted_at: take_opt_instant(&vals[6]),
            removed_at: take_opt_instant(&vals[7]),
            metadata: take_opt_entries(&vals[8]),
        };
        assert(r.values() =~= values_view(vals@));
        r
    }

    proof fn lemma_schema() {
        reveal_strlit("timestamp");
        reveal_strlit("device_id");
        reveal_strlit("package_name");
        reveal_strlit("title");
        reveal_strlit("priority");
        reveal_strlit("category");
        reveal_strlit("posted_at");
        reveal_strlit("removed_at");
        reveal_strlit("metadata");
        assert("timestamp"@.len() == 9 && "timestamp"@[0] == 't' && "timestamp"@[1] == 'i' && "timestamp"@[2] == 'm' && "timestamp"@[3] == 'e' && "timestamp"@[4] == 's' && "timestamp"@[5] == 't' && "timestamp"@[6] == 'a' && "timestamp"@[7] == 'm' && "timestamp"@[8] == 'p');
        assert("device_id"@.len() == 9 && "device_id"@[0] == 'd' && "device_id"@[1] == 'e' && "device_id"@[2] == 'v' && "device_id"@[3] == 'i' && "device_id"@[4] == 'c' && "device_id"@[5] == 'e' && "device_id"@[6] == '_' && "device_id"@[7] == 'i' && "device_id"@[8] == 'd');
        assert("package_name"@.len() == 12 && "package_name"@[0] == 'p' && "package_name"@[1] == 'a' && "package_name"@[2] == 'c' && "package_name"@[3] == 'k' && "package_name"@[4] == 'a' && "package_name"@[5] == 'g' && "package_name"@[6] == 'e' && "package_name"@[7] == '_' && "package_name"@[8] == 'n' && "package_name"@[9] == 'a' && "package_name"@[10] == 'm' && "package_name"@[11] == 'e');
        assert("title"@.len() == 5 && "title"@[0] == 't' && "title"@[1] == 'i' && "title"@[2] == 't' && "title"@[3] == 'l' && "title"@[4] == 'e');
        assert("priority"@.len() == 8 && "priority"@[0] == 'p' && "priority"@[1] == 'r' && "priority"@[2] == 'i' && "priority"@[3] == 'o' && "priority"@[4] == 'r' && "priority"@[5] == 'i' && "priority"@[6] == 't' && "priority"@[7] == 'y');
        assert("category"@.len() == 8 && "category"@[0] == 'c' && "category"@[1] == 'a' && "category"@[2] == 't' && "category"@[3] == 'e' && "category"@[4] == 'g' && "category"@[5] == 'o' && "category"@[6] == 'r' && "category"@[7] == 'y');
        assert("posted_at"@.len() == 9 && "posted_at"@[0] == 'p' && "posted_at"@[1] == 'o' && "posted_at"@[2] == 's' && "posted_at"@[3] == 't' && "posted_at"@[4] == 'e' && "posted_at"@[5] == 'd' && "posted_at"@[6] == '_' && "posted_at"@[7] == 'a' && "posted_at"@[8] == 't');
        assert("removed_at"@.len() == 10 && "removed_at"@[0] == 'r' && "removed_at"@[1] == 'e' && "removed_at"@[2] == 'm' && "removed_at"@[3] == 'o' && "removed_at"@[4] == 'v' && "removed_at"@[5] == 'e' && "removed_at"@[6] == 'd' && "removed_at"@[7] == '_' && "removed_at"@[8] == 'a' && "removed_at"@[9] == 't');
        assert("metadata"@.len() == 8 && "metadata"@[0] == 'm' && "metadata"@[1] == 'e' && "metadata"@[2] == 't' && "metadata"@[3] == 'a' && "metadata"@[4] == 'd' && "metadata"@[5] == 'a' && "metadata"@[6] == 't' && "metadata"@[7] == 'a');
        let s = Self::schema_spec();
        assert forall|i: int| 0 <= i < s.len() implies match (#[trigger] s[i]).presence {
            PresenceView::Default(d) => fits_type(s[i].ty, d),
            _ => true,
        } by {
        }
    }

    proof fn lemma_fits(&self) {
        reveal(bool_v);
        let s = Self::schema_spec();
        let v = self.values();
        assert forall|i: int| 0 <= i < s.len() implies fits(#[trigger] s[i], v[i]) by {
            if i == 0 {
                assert(fits(s[0], v[0]));
            } else if i == 1 {
                assert(fits(s[1], v[1]));
            } else if i == 2 {
                assert(fits(s[2], v[2]));
            } else if i == 3 {
                assert(fits(s[3], v[3]));
            } else if i == 4 {
                assert(fits(s[4], v[4]));
            } else if i == 5 {
                assert(fits(s[5], v[5]));
            } else if i == 6 {
                assert(fits(s[6], v[6]));
            } else if i == 7 {
                assert(fits(s[7], v[7]));
            } else if i == 8 {
                assert(fits(s[8], v[8]));
            }
        }
    }
}

impl Record for NotificationData {
    open spec fn table_spec() -> Seq<char> {
        "notification_data"@
    }

    open spec fn layout_spec() -> Layout {
        Layout::Timed
    }

    fn table_name() -> (r: &'static str) {
        "notification_data"
    }

    fn layout() -> (r: Layout) {
        Layout::Timed
    }

    proof fn lemma_layout() {
        reveal_strlit("timestamp");
        reveal_strlit("device_id");
        assert("timestamp"@.len() == 9 && "timestamp"@[0] == 't' && "timestamp"@[1] == 'i' && "timestamp"@[2] == 'm' && "timestamp"@[3] == 'e' && "timestamp"@[4] == 's' && "timestamp"@[5] == 't' && "timestamp"@[6] == 'a' && "timestamp"@[7] == 'm' && "timestamp"@[8] == 'p');
        assert("device_id"@.len() == 9 && "device_id"@[0] == 'd' && "device_id"@[1] == 'e' && "device_id"@[2] == 'v' && "device_id"@[3] == 'i' && "device_id"@[4] == 'c' && "device_id"@[5] == 'e' && "device_id"@[6] == '_' && "device_id"@[7] == 'i' && "device_id"@[8] == 'd');
    }
}

impl NotificationData {
    /// The record's document.
    pub fn to_json(&self) -> (r: Document)
        ensures
            doc_view(r@) == encode(Self::schema_spec(), self.values()),
    {
        marshal(self)
    }

    /// The record that `doc` holds, or the error of the first field (in schema order)
    /// that it cannot give.
    pub fn from_json(doc: &Document) -> (r: Result<Self, SchemaError>)
        ensures
            match r {
                Ok(x) => decode(Self::schema_spec(), doc_view(doc@)) == Ok::<_, (SchemaErrorKind, Seq<char>)>(x.values()) && x.wf(),
                Err(e) => decode(Self::schema_spec(), doc_view(doc@)) == Err::<Seq<ValueView>, _>(e@),
            },
    {
        unmarshal(doc)
    }
}

} // verus!
