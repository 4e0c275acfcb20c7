//! Lifecycle policies: retention, compression, downsampling and sync priority per table.
use vstd::prelude::*;
use crate::fields::{bool_v, compression_algorithm_v, instant_v, int_v, opt_entries_v, opt_int_v, put_bool, put_compression_algorithm, put_instant, put_int, put_opt_entries, put_opt_int, put_sync_priority, put_text, sync_priority_v, take_bool, take_compression_algorithm, take_instant, take_int, take_opt_entries, take_opt_int, take_sync_priority, take_text, text_v};
use crate::record::{marshal, slice_values, unmarshal, Fields, Layout, Record};
use crate::schema::{
    decode, doc_view, encode, fits, fits_type, schema_view, values_view, Choice, FieldSpec,
    FieldSpecView, FieldType, Presence, PresenceView, SchemaError, SchemaErrorKind,
};
use crate::time::Timestamp;
use crate::types::{DeviceType, CameraType, ConnectionType, EntityType, NotePriority, SyncPriority, CompressionAlgorithm};
use crate::value::{Document, Metadata, Value, ValueView};
use crate::defaults::{default_batch_size, default_note_priority, default_retry_count};

verus! {


/// How a table's rows age: when they may be deleted, downsampled, compressed or turned into text. No row for a table means unlimited retention and no compression.
#[derive(Debug, Clone, PartialEq)]
pub struct RetentionConfig {
    pub table_name: String,
    pub compression_enabled: bool,
    pub compression_algorithm: CompressionAlgorithm,
    pub retention_days: Option<i32>,
    pub downsample_after_days: Option<i32>,
    pub downsample_ratio: Option<i32>,
    pub convert_to_text: bool,
    pub min_required_space_mb: Option<i32>,
    pub created_at: Timestamp,
    pub updated_at: Timestamp,
    pub metadata: Option<Metadata>,
}

impl Fields for RetentionConfig {
    open spec fn schema_spec() -> Seq<FieldSpecView> {
        seq![
            FieldSpecView { name: "table_name"@, ty: FieldType::Text, presence: PresenceView::Required },
            FieldSpecView { name: "compression_enabled"@, ty: FieldType::Bool, presence: PresenceView::Default(ValueView::Bool(false)) },
            FieldSpecView { name: "compression_algorithm"@, ty: FieldType::Choice(Choice::CompressionAlgorithm), presence: PresenceView::Default(ValueView::Text("NONE"@)) },
            FieldSpecView { name: "retention_days"@, ty: FieldType::Int, presence: PresenceView::Optional },
            FieldSpecView { name: "downsample_after_days"@, ty: FieldType::Int, presence: PresenceView::Optional },
            FieldSpecView { name: "downsample_ratio"@, ty: FieldType::Int, presence: PresenceView::Optional },
            FieldSpecView { name: "convert_to_text"@, ty: FieldType::Bool, presence: PresenceView::Default(ValueView::Bool(false)) },
            FieldSpecView { name: "min_required_space_mb"@, ty: FieldType::Int, presence: PresenceView::Optional },
            FieldSpecView { name: "created_at"@, ty: FieldType::Instant, presence: PresenceView::Required },
            FieldSpecView { name: "updated_at"@, ty: FieldType::Instant, presence: PresenceView::Required },
            FieldSpecView { name: "metadata"@, ty: FieldType::Entries, presence: PresenceView::Optional },
        ]
    }

    open spec fn values(&self) -> Seq<ValueView> {
        seq![
            text_v(self.table_name),
            bool_v(self.compression_enabled),
            compression_algorithm_v(self.compression_algorithm),
            opt_int_v(self.retention_days),
            opt_int_v(self.downsample_after_days),
            opt_int_v(self.downsample_ratio),
            bool_v(self.convert_to_text),
            opt_int_v(self.min_required_space_mb),
            instant_v(self.created_at),
            instant_v(self.updated_at),
            opt_entries_v(self.metadata),
        ]
    }

    open spec fn wf(&self) -> bool {
        self.created_at.wf()
        && self.updated_at.wf()
    }

    fn schema() -> (r: Vec<FieldSpec>) {
        let r = vec![
            FieldSpec { name: "table_name", ty: FieldType::Text, presence: Presence::Required },
            FieldSpec { name: "compression_enabled", ty: FieldType::Bool, presence: Presence::Default(Value::Bool(false)) },
            FieldSpec { name: "compression_algorithm", ty: FieldType::Choice(Choice::CompressionAlgorithm), presence: Presence::Default(Value::Text(CompressionAlgorithm::default().as_wire().to_owned())) },
            FieldSpec { name: "retention_days", ty: FieldType::Int, presence: Presence::Optional },
            FieldSpec { name: "downsample_after_days", ty: FieldType::Int, presence: Presence::Optional },
            FieldSpec { name: "downsample_ratio", ty: FieldType::Int, presence: Presence::Optional },
            FieldSpec { name: "convert_to_text", ty: FieldType::Bool, presence: Presence::Default(Value::Bool(false)) },
            FieldSpec { name: "min_required_space_mb", ty: FieldType::Int, presence: Presence::Optional },
            FieldSpec { name: "created_at", ty: FieldType::Instant, presence: Presence::Required },
            FieldSpec { name: "updated_at", ty: FieldType::Instant, presence: Presence::Required },
            FieldSpec { name: "metadata", ty: FieldType::Entries, presence: Presence::Optional },
        ];
        assert(schema_view(r@) =~= Self::schema_spec());
        r
    }

    fn to_values(&self) -> (r: Vec<Value>) {
        let r = vec![
            put_text(&self.table_name),
            put_bool(&self.compression_enabled),
            put_compression_algorithm(&self.compression_algorithm),
            put_opt_int(&self.retention_days),
            put_opt_int(&self.downsample_after_days),
            put_opt_int(&self.downsample_ratio),
            put_bool(&self.convert_to_text),
            put_opt_int(&self.min_required_space_mb),
            put_instant(&self.created_at),
            put_instant(&self.updated_at),
            put_opt_entries(&self.metadata),
        ];
        assert(values_view(r@) =~= self.values());
        r
    }

    fn from_values(vals: &Vec<Value>) -> (r: Self) {
        proof {
            let s = Self::schema_spec();
            let v = values_view(vals@);
            assert(fits(s[0], v[0]));
            assert(fits(s[1], v[1]));
            assert(fits(s[2], v[2]));
            assert(fits(s[3], v[3]));
            assert(fits(s[4], v[4]));
            assert(fits(s[5], v[5]));
            assert(fits(s[6], v[6]));
            assert(fits(s[7], v[7]));
            assert(fits(s[8], v[8]));
            assert(fits(s[9], v[9]));
            assert(fits(s[10], v[10]));
        }
        let r = RetentionConfig {
            table_name: take_text(&vals[0]),
            compression_enabled: take_bool(&vals[1]),
            compression_algorithm: take_compression_algorithm(&vals[2]),
            retention_days: take_opt_int(&vals[3]),
            downsample_after_days: take_opt_int(&vals[4]),
            downsample_ratio: take_opt_int(&vals[5]),
            convert_to_text: take_bool(&vals[6]),
            min_required_space_mb: take_opt_int(&vals[7]),
            created_at: take_instant(&vals[8]),
            updated_at: take_instant(&vals[9]),
            metadata: take_opt_entries(&vals[10]),
        };
        assert(r.values() =~= values_view(vals@));
        r
    }

    proof fn lemma_schema() {
        reveal_strlit("table_name");
        reveal_strlit("compression_enabled");
        reveal_strlit("compression_algorithm");
        reveal_strlit("retention_days");
        reveal_strlit("downsample_after_days");
        reveal_strlit("downsample_ratio");
        reveal_strlit("convert_to_text");
        reveal_strlit("min_required_space_mb");
        reveal_strlit("created_at");
        reveal_strlit("updated_at");
        reveal_strlit("metadata");
        assert("table_name"@.len() == 10 && "table_name"@[0] == 't' && "table_name"@[1] == 'a' && "table_name"@[2] == 'b' && "table_name"@[3] == 'l' && "table_name"@[4] == 'e' && "table_name"@[5] == '_' && "table_name"@[6] == 'n' && "table_name"@[7] == 'a' && "table_name"@[8] == 'm' && "table_name"@[9] == 'e');
        assert("compression_enabled"@.len() == 19 && "compression_enabled"@[0] == 'c' && "compression_enabled"@[1] == 'o' && "compression_enabled"@[2] == 'm' && "compression_enabled"@[3] == 'p' && "compression_enabled"@[4] == 'r' && "compression_enabled"@[5] == 'e' && "compression_enabled"@[6] == 's' && "compression_enabled"@[7] == 's' && "compression_enabled"@[8] == 'i' && "compression_enabled"@[9] == 'o' && "compression_enabled"@[10] == 'n' && "compression_enabled"@[11] == '_' && "compression_enabled"@[12] == 'e' && "compression_enabled"@[13] == 'n' && "compression_enabled"@[14] == 'a' && "compression_enabled"@[15] == 'b' && "compression_enabled"@[16] == 'l' && "compression_enabled"@[17] == 'e' && "compression_enabled"@[18] == 'd');
        assert("compression_algorithm"@.len() == 21 && "compression_algorithm"@[0] == 'c' && "compression_algorithm"@[1] == 'o' && "compression_algorithm"@[2] == 'm' && "compression_algorithm"@[3] == 'p' && "compression_algorithm"@[4] == 'r' && "compression_algorithm"@[5] == 'e' && "compression_algorithm"@[6] == 's' && "compression_algorithm"@[7] == 's' && "compression_algorithm"@[8] == 'i' && "compression_algorithm"@[9] == 'o' && "compression_algorithm"@[10] == 'n' && "compression_algorithm"@[11] == '_' && "compression_algorithm"@[12] == 'a' && "compression_algorithm"@[13] == 'l' && "compression_algorithm"@[14] == 'g' && "compression_algorithm"@[15] == 'o' && "compression_algorithm"@[16] == 'r' && "compression_algorithm"@[17] == 'i' && "compression_algorithm"@[18] == 't' && "compression_algorithm"@[19] == 'h' && "compression_algorithm"@[20] == 'm');
        assert("retention_days"@.len() == 14 && "retention_days"@[0] == 'r' && "retention_days"@[1] == 'e' && "retention_days"@[2] == 't' && "retention_days"@[3] == 'e' && "retention_days"@[4] == 'n' && "retention_days"@[5] == 't' && "retention_days"@[6] == 'i' && "retention_days"@[7] == 'o' && "retention_days"@[8] == 'n' && "retention_days"@[9] == '_' && "retention_days"@[10] == 'd' && "retention_days"@[11] == 'a' && "retention_days"@[12] == 'y' && "retention_days"@[13] == 's');
        assert("downsample_after_days"@.len() == 21 && "downsample_after_days"@[0] == 'd' && "downsample_after_days"@[1] == 'o' && "downsample_after_days"@[2] == 'w' && "downsample_after_days"@[3] == 'n' && "downsample_after_days"@[4] == 's' && "downsample_after_days"@[5] == 'a' && "downsample_after_days"@[6] == 'm' && "downsample_after_days"@[7] == 'p' && "downsample_after_days"@[8] == 'l' && "downsample_after_days"@[9] == 'e' && "downsample_after_days"@[10] == '_' && "downsample_after_days"@[11] == 'a' && "downsample_after_days"@[12] == 'f' && "downsample_after_days"@[13] == 't' && "downsample_after_days"@[14] == 'e' && "downsample_after_days"@[15] == 'r' && "downsample_after_days"@[16] == '_' && "downsample_after_days"@[17] == 'd' && "downsample_after_days"@[18] == 'a' && "downsample_after_days"@[19] == 'y' && "downsample_after_days"@[20] == 's');
        assert("downsample_ratio"@.len() == 16 && "downsample_ratio"@[0] == 'd' && "downsample_ratio"@[1] == 'o' && "downsample_ratio"@[2] == 'w' && "downsample_ratio"@[3] == 'n' && "downsample_ratio"@[4] == 's' && "downsample_ratio"@[5] == 'a' && "downsample_ratio"@[6] == 'm' && "downsample_ratio"@[7] == 'p' && "downsample_ratio"@[8] == 'l' && "downsample_ratio"@[9] == 'e' && "downsample_ratio"@[10] == '_' && "downsample_ratio"@[11] == 'r' && "downsample_ratio"@[12] == 'a' && "downsample_ratio"@[13] == 't' && "downsample_ratio"@[14] == 'i' && "downsample_ratio"@[15] == 'o');
        assert("convert_to_text"@.len() == 15 && "convert_to_text"@[0] == 'c' && "convert_to_text"@[1] == 'o' && "convert_to_text"@[2] == 'n' && "convert_to_text"@[3] == 'v' && "convert_to_text"@[4] == 'e' && "convert_to_text"@[5] == 'r' && "convert_to_text"@[6] == 't' && "convert_to_text"@[7] == '_' && "convert_to_text"@[8] == 't' && "convert_to_text"@[9] == 'o' && "convert_to_text"@[10] == '_' && "convert_to_text"@[11] == 't' && "convert_to_text"@[12] == 'e' && "convert_to_text"@[13] == 'x' && "convert_to_text"@[14] == 't');
        assert("min_required_space_mb"@.len() == 21 && "min_required_space_mb"@[0] == 'm' && "min_required_space_mb"@[1] == 'i' && "min_required_space_mb"@[2] == 'n' && "min_required_space_mb"@[3] == '_' && "min_required_space_mb"@[4] == 'r' && "min_required_space_mb"@[5] == 'e' && "min_required_space_mb"@[6] == 'q' && "min_required_space_mb"@[7] == 'u' && "min_required_space_mb"@[8] == 'i' && "min_required_space_mb"@[9] == 'r' && "min_required_space_mb"@[10] == 'e' && "min_required_space_mb"@[11] == 'd' && "min_required_space_mb"@[12] == '_' && "min_required_space_mb"@[13] == 's' && "min_required_space_mb"@[14] == 'p' && "min_required_space_mb"@[15] == 'a' && "min_required_space_mb"@[16] == 'c' && "min_required_space_mb"@[17] == 'e' && "min_required_space_mb"@[18] == '_' && "min_required_space_mb"@[19] == 'm' && "min_required_space_mb"@[20] == 'b');
        assert("created_at"@.len() == 10 && "created_at"@[0] == 'c' && "created_at"@[1] == 'r' && "created_at"@[2] == 'e' && "created_at"@[3] == 'a' && "created_at"@[4] == 't' && "created_at"@[5] == 'e' && "created_at"@[6] == 'd' && "created_at"@[7] == '_' && "created_at"@[8] == 'a' && "created_at"@[9] == 't');
        assert("updated_at"@.len() == 10 && "updated_at"@[0] == 'u' && "updated_at"@[1] == 'p' && "updated_at"@[2] == 'd' && "updated_at"@[3] == 'a' && "updated_at"@[4] == 't' && "updated_at"@[5] == 'e' && "updated_at"@[6] == 'd' && "updated_at"@[7] == '_' && "updated_at"@[8] == 'a' && "updated_at"@[9] == 't');
        assert("metadata"@.len() == 8 && "metadata"@[0] == 'm' && "metadata"@[1] == 'e' && "metadata"@[2] == 't' && "metadata"@[3] == 'a' && "metadata"@[4] == 'd' && "metadata"@[5] == 'a' && "metadata"@[6] == 't' && "metadata"@[7] == 'a');
        let s = Self::schema_spec();
        assert forall|i: int| 0 <= i < s.len() implies match (#[trigger] s[i]).presence {
            PresenceView::Default(d) => fits_type(s[i].ty, d),
            _ => true,
        } by {
            if i == 1 {
                assert(fits_type(s[1].ty, ValueView::Bool(false)));
            }
            if i == 2 {
                assert(fits_type(s[2].ty, ValueView::Text("NONE"@)));
            }
            if i == 6 {
                assert(fits_type(s[6].ty, ValueView::Bool(false)));
            }
        }
    }

    proof fn lemma_fits(&self) {
        reveal(bool_v);
        self.compression_algorithm.lemma_wire_round_trip();
        let s = Self::schema_spec();
        let v = self.values();
        assert forall|i: int| 0 <= i < s.len() implies fits(#[trigger] s[i], v[i]) by {
            if i == 0 {
                assert(fits(s[0], v[0]));
            } else if i == 1 {
                assert(fits(s[1], v[1]));
            } else if i == 2 {
                assert(fits(s[2], v[2]));
            } else if i == 3 {
                assert(fits(s[3], v[3]));
            } else if i == 4 {
                assert(fits(s[4], v[4]));
            } else if i == 5 {
                assert(fits(s[5], v[5]));
            } else if i == 6 {
                assert(fits(s[6], v[6]));
            } else if i == 7 {
                assert(fits(s[7], v[7]));
            } else if i == 8 {
                assert(fits(s[8], v[8]));
            } else if i == 9 {
                assert(fits(s[9], v[9]));
            } else if i == 10 {
                assert(fits(s[10], v[10]));
            }
        }
    }
}

impl Record for RetentionConfig {
    open spec fn table_spec() -> Seq<char> {
        "retention_config"@
    }

    open spec fn layout_spec() -> Layout {
        Layout::Upsert
    }

    fn table_name() -> (r: &'static str) {
        "retention_config"
    }

    fn layout() -> (r: Layout) {
        Layout::Upsert
    }

    proof fn lemma_layout() {
    }
}

impl RetentionConfig {
    /// The record's document.
    pub fn to_json(&self) -> (r: Document)
        ensures
            doc_view(r@) == encode(Self::schema_spec(), self.values()),
    {
        marshal(self)
    }

    /// The record that `doc` holds, or the error of the first field (in schema order)
    /// that it cannot give.
    pub fn from_json(doc: &Document) -> (r: Result<Self, SchemaError>)
        ensures
            match r {
                Ok(x) => decode(Self::schema_spec(), doc_view(doc@)) == Ok::<_, (SchemaErrorKind, Seq<char>)>(x.values()) && x.wf(),
                Err(e) => decode(Self::schema_spec(), doc_view(doc@)) == Err::<Seq<ValueView>, _>(e@),
            },
    {
        unmarshal(doc)
    }
}

/// The tier and batching an external sync component should use for a table.
#[derive(Debug, Clone, PartialEq)]
pub struct SyncPriorityConfig {
    pub table_name: String,
    pub priority: SyncPriority,
    pub batch_size: i32,
    pub max_delay_seconds: Option<i32>,
    pub retry_count: i32,
    pub created_at: Timestamp,
    pub updated_at: Timestamp,
    pub metadata: Option<Metadata>,
}

impl Fields for SyncPriorityConfig {
    open spec fn schema_spec() -> Seq<FieldSpecView> {
        seq![
            FieldSpecView { name: "table_name"@, ty: FieldType::Text, presence: PresenceView::Required },
            FieldSpecView { name: "priority"@, ty: FieldType::Choice(Choice::SyncPriority), presence: PresenceView::Required },
            FieldSpecView { name: "batch_size"@, ty: FieldType::Int, presence: PresenceView::Default(ValueView::Int(1000)) },
            FieldSpecView { name: "max_delay_seconds"@, ty: FieldType::Int, presence: PresenceView::Optional },
            FieldSpecView { name: "retry_count"@, ty: FieldType::Int, presence: PresenceView::Default(ValueView::Int(3)) },
            FieldSpecView { name: "created_at"@, ty: FieldType::Instant, presence: PresenceView::Required },
            FieldSpecView { name: "updated_at"@, ty: FieldType::Instant, presence: PresenceView::Required },
            FieldSpecView { name: "metadata"@, ty: FieldType::Entries, presence: PresenceView::Optional },
        ]
    }

    open spec fn values(&self) -> Seq<ValueView> {
        seq![
            text_v(self.table_name),
            sync_priority_v(self.priority),
            int_v(self.batch_size),
            opt_int_v(self.max_delay_seconds),
            int_v(self.retry_count),
            instant_v(self.created_at),
            instant_v(self.updated_at),
            opt_entries_v(self.metadata),
        ]
    }

    open spec fn wf(&self) -> bool {
        self.created_at.wf()
        && self.updated_at.wf()
    }

    fn schema() -> (r: Vec<FieldSpec>) {
        let r = vec![
            FieldSpec { name: "table_name", ty: FieldType::Text, presence: Presence::Required },
            FieldSpec { name: "priority", ty: FieldType::Choice(Choice::SyncPriority), presence: Presence::Required },
            FieldSpec { name: "batch_size", ty: FieldType::Int, presence: Presence::Default(Value::Int(default_batch_size() as i64)) },
            FieldSpec { name: "max_delay_seconds", ty: FieldType::Int, presence: Presence::Optional },
            FieldSpec { name: "retry_count", ty: FieldType::Int, presence: Presence::Default(Value::Int(default_retry_count() as i64)) },
            FieldSpec { name: "created_at", ty: FieldType::Instant, presence: Presence::Required },
            FieldSpec { name: "updated_at", ty: FieldType::Instant, presence: Presence::Required },
            FieldSpec { name: "metadata", ty: FieldType::Entries, presence: Presence::Optional },
        ];
        assert(schema_view(r@) =~= Self::schema_spec());
        r
    }

    fn to_values(&self) -> (r: Vec<Value>) {
        let r = vec![
            put_text(&self.table_name),
            put_sync_priority(&self.priority),
            put_int(&self.batch_size),
            put_opt_int(&self.max_delay_seconds),
            put_int(&self.retry_count),
            put_instant(&self.created_at),
            put_instant(&self.updated_at),
            put_opt_entries(&self.metadata),
        ];
        assert(values_view(r@) =~= self.values());
        r
    }

    fn from_values(vals: &Vec<Value>) -> (r: Self) {
        proof {
            let s = Self::schema_spec();
            let v = values_view(vals@);
            assert(fits(s[0], v[0]));
            assert(fits(s[1], v[1]));
            assert(fits(s[2], v[2]));
            assert(fits(s[3], v[3]));
            assert(fits(s[4], v[4]));
            assert(fits(s[5], v[5]));
            assert(fits(s[6], v[6]));
            assert(fits(s[7], v[7]));
        }
        let r = SyncPriorityConfig {
            table_name: take_text(&vals[0]),
            priority: take_sync_priority(&vals[1]),
            batch_size: take_int(&vals[2]),
            max_delay_seconds: take_opt_int(&vals[3]),
            retry_count: take_int(&vals[4]),
            created_at: take_instant(&vals[5]),
            updated_at: take_instant(&vals[6]),
            metadata: take_opt_entries(&vals[7]),
        };
        assert(r.values() =~= values_view(vals@));
        r
    }

    proof fn lemma_schema() {
        reveal_strlit("table_name");
        reveal_strlit("priority");
        reveal_strlit("batch_size");
        reveal_strlit("max_delay_seconds");
        reveal_strlit("retry_count");
        reveal_strlit("created_at");
        reveal_strlit("updated_at");
        reveal_strlit("metadata");
        assert("table_name"@.len() == 10 && "table_name"@[0] == 't' && "table_name"@[1] == 'a' && "table_name"@[2] == 'b' && "table_name"@[3] == 'l' && "table_name"@[4] == 'e' && "table_name"@[5] == '_' && "table_name"@[6] == 'n' && "table_name"@[7] == 'a' && "table_name"@[8] == 'm' && "table_name"@[9] == 'e');
        assert("priority"@.len() == 8 && "priority"@[0] == 'p' && "priority"@[1] == 'r' && "priority"@[2] == 'i' && "priority"@[3] == 'o' && "priority"@[4] == 'r' && "priority"@[5] == 'i' && "priority"@[6] == 't' && "priority"@[7] == 'y');
        assert("batch_size"@.len() == 10 && "batch_size"@[0] == 'b' && "batch_size"@[1] == 'a' && "batch_size"@[2] == 't' && "batch_size"@[3] == 'c' && "batch_size"@[4] == 'h' && "batch_size"@[5] == '_' && "batch_size"@[6] == 's' && "batch_size"@[7] == 'i' && "batch_size"@[8] == 'z' && "batch_size"@[9] == 'e');
        assert("max_delay_seconds"@.len() == 17 && "max_delay_seconds"@[0] == 'm' && "max_delay_seconds"@[1] == 'a' && "max_delay_seconds"@[2] == 'x' && "max_delay_seconds"@[3] == '_' && "max_delay_seconds"@[4] == 'd' && "max_delay_seconds"@[5] == 'e' && "max_delay_seconds"@[6] == 'l' && "max_delay_seconds"@[7] == 'a' && "max_delay_seconds"@[8] == 'y' && "max_delay_seconds"@[9] == '_' && "max_delay_seconds"@[10] == 's' && "max_delay_seconds"@[11] == 'e' && "max_delay_seconds"@[12] == 'c' && "max_delay_seconds"@[13] == 'o' && "max_delay_seconds"@[14] == 'n' && "max_delay_seconds"@[15] == 'd' && "max_delay_seconds"@[16] == 's');
        assert("retry_count"@.len() == 11 && "retry_count"@[0] == 'r' && "retry_count"@[1] == 'e' && "retry_count"@[2] == 't' && "retry_count"@[3] == 'r' && "retry_count"@[4] == 'y' && "retry_count"@[5] == '_' && "retry_count"@[6] == 'c' && "retry_count"@[7] == 'o' && "retry_count"@[8] == 'u' && "retry_count"@[9] == 'n' && "retry_count"@[10] == 't');
        assert("created_at"@.len() == 10 && "created_at"@[0] == 'c' && "created_at"@[1] == 'r' && "created_at"@[2] == 'e' && "created_at"@[3] == 'a' && "created_at"@[4] == 't' && "created_at"@[5] == 'e' && "created_at"@[6] == 'd' && "created_at"@[7] == '_' && "created_at"@[8] == 'a' && "created_at"@[9] == 't');
        assert("updated_at"@.len() == 10 && "updated_at"@[0] == 'u' && "updated_at"@[1] == 'p' && "updated_at"@[2] == 'd' && "updated_at"@[3] == 'a' && "updated_at"@[4] == 't' && "updated_at"@[5] == 'e' && "updated_at"@[6] == 'd' && "updated_at"@[7] == '_' && "updated_at"@[8] == 'a' && "updated_at"@[9] == 't');
        assert("metadata"@.len() == 8 && "metadata"@[0] == 'm' && "metadata"@[1] == 'e' && "metadata"@[2] == 't' && "metadata"@[3] == 'a' && "metadata"@[4] == 'd' && "metadata"@[5] == 'a' && "metadata"@[6] == 't' && "metadata"@[7] == 'a');
        let s = Self::schema_spec();
        assert forall|i: int| 0 <= i < s.len() implies match (#[trigger] s[i]).presence {
            PresenceView::Default(d) => fits_type(s[i].ty, d),
            _ => true,
        } by {
            if i == 2 {
                assert(fits_type(s[2].ty, ValueView::Int(1000)));
            }
            if i == 4 {
                assert(fits_type(s[4].ty, ValueView::Int(3)));
            }
        }
    }

    proof fn lemma_fits(&self) {
        reveal(bool_v);
        self.priority.lemma_wire_round_trip();
        let s = Self::schema_spec();
        let v = self.values();
        assert forall|i: int| 0 <= i < s.len() implies fits(#[trigger] s[i], v[i]) by {
            if i == 0 {
                assert(fits(s[0], v[0]));
            } else if i == 1 {
                assert(fits(s[1], v[1]));
            } else if i == 2 {
                assert(fits(s[2], v[2]));
            } else if i == 3 {
                assert(fits(s[3], v[3]));
            } else if i == 4 {
                assert(fits(s[4], v[4]));
            } else if i == 5 {
                assert(fits(s[5], v[5]));
            } else if i == 6 {
                assert(fits(s[6], v[6]));
            } else if i == 7 {
                assert(fits(s[7], v[7]));
            }
        }
    }
}

impl Record for SyncPriorityConfig {
    open spec fn table_spec() -> Seq<char> {
        "sync_priority_config"@
    }

    open spec fn layout_spec() -> Layout {
        Layout::Upsert
    }

    fn table_name() -> (r: &'static str) {
        "sync_priority_config"
    }

    fn layout() -> (r: Layout) {
        Layout::Upsert
    }

    proof fn lemma_layout() {
    }
}

impl SyncPriorityConfig {
    /// The record's document.
    pub fn to_json(&self) -> (r: Document)
        ensures
            doc_view(r@) == encode(Self::schema_spec(), self.values()),
    {
        marshal(self)
    }

    /// The record that `doc` holds, or the error of the first field (in schema order)
    /// that it cannot give.
    pub fn from_json(doc: &Document) -> (r: Result<Self, SchemaError>)
        ensures
            match r {
                Ok(x) => decode(Self::schema_spec(), doc_view(doc@)) == Ok::<_, (SchemaErrorKind, Seq<char>)>(x.values()) && x.wf(),
                Err(e) => decode(Self::schema_spec(), doc_view(doc@)) == Err::<Seq<ValueView>, _>(e@),
            },
    {
        unmarshal(doc)
    }
}

} // verus!
