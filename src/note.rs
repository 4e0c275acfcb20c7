//! Notes, what they refer to, and recognised entities.
use vstd::prelude::*;
use crate::fields::{bool_v, entity_type_v, instant_v, note_priority_v, opt_entries_v, opt_instant_v, opt_singles_v, opt_text_v, opt_texts_v, put_entity_type, put_instant, put_note_priority, put_opt_entries, put_opt_instant, put_opt_singles, put_opt_text, put_opt_texts, put_text, take_entity_type, take_instant, take_note_priority, take_opt_entries, take_opt_instant, take_opt_singles, take_opt_text, take_opt_texts, take_text, text_v};
use crate::record::{marshal, slice_values, unmarshal, Fields, Layout, Record};
use crate::schema::{
    decode, doc_view, encode, fits, fits_type, schema_view, values_view, Choice, FieldSpec,
    FieldSpecView, FieldType, Presence, PresenceView, SchemaError, SchemaErrorKind,
};
use crate::time::Timestamp;
use crate::types::{DeviceType, CameraType, ConnectionType, EntityType, NotePriority, SyncPriority, CompressionAlgorithm};
use crate::value::{Document, Metadata, Value, ValueView};
use crate::defaults::{default_batch_size, default_note_priority, default_retry_count};

verus! {


/// A user-authored note; `priority` is `Medium` when a document leaves it out.
#[derive(Debug, Clone, PartialEq)]
pub struct Note {
    pub id: String,
    pub user_id: String,
    pub timestamp: Timestamp,
    pub content: String,
    pub priority: NotePriority,
    pub parent_id: Option<String>,
    pub tags: Option<Vec<String>>,
    /// IEEE-754 single-precision bits of each item.
    pub embedding: Option<Vec<u32>>,
    pub metadata: Option<Metadata>,
    pub created_at: Timestamp,
    pub updated_at: Timestamp,
}

impl Fields for Note {
    open spec fn schema_spec() -> Seq<FieldSpecView> {
        seq![
            FieldSpecView { name: "id"@, ty: FieldType::Text, presence: PresenceView::Required },
            FieldSpecView { name: "user_id"@, ty: FieldType::Text, presence: PresenceView::Required },
            FieldSpecView { name: "timestamp"@, ty: FieldType::Instant, presence: PresenceView::Required },
            FieldSpecView { name: "content"@, ty: FieldType::Text, presence: PresenceView::Required },
            FieldSpecView { name: "priority"@, ty: FieldType::Choice(Choice::NotePriority), presence: PresenceView::Default(ValueView::Text("MEDIUM"@)) },
            FieldSpecView { name: "parent_id"@, ty: FieldType::Text, presence: PresenceView::Optional },
            FieldSpecView { name: "tags"@, ty: FieldType::Texts, presence: PresenceView::Optional },
            FieldSpecView { name: "embedding"@, ty: FieldType::Singles, presence: PresenceView::Optional },
            FieldSpecView { name: "metadata"@, ty: FieldType::Entries, presence: PresenceView::Optional },
            FieldSpecView { name: "created_at"@, ty: FieldType::Instant, presence: PresenceView::Required },
            FieldSpecView { name: "updated_at"@, ty: FieldType::Instant, presence: PresenceView::Required },
        ]
    }

    open spec fn values(&self) -> Seq<ValueView> {
        seq![
            text_v(self.id),
            text_v(self.user_id),
            instant_v(self.timestamp),
            text_v(self.content),
            note_priority_v(self.priority),
            opt_text_v(self.parent_id),
            opt_texts_v(self.tags),
            opt_singles_v(self.embedding),
            opt_entries_v(self.metadata),
            instant_v(self.created_at),
            instant_v(self.updated_at),
        ]
    }

    open spec fn wf(&self) -> bool {
        self.timestamp.wf()
        && self.created_at.wf()
        && self.updated_at.wf()
    }

    fn schema() -> (r: Vec<FieldSpec>) {
        let r = vec![
            FieldSpec { name: "id", ty: FieldType::Text, presence: Presence::Required },
            FieldSpec { name: "user_id", ty: FieldType::Text, presence: Presence::Required },
            FieldSpec { name: "timestamp", ty: FieldType::Instant, presence: Presence::Required },
            FieldSpec { name: "content", ty: FieldType::Text, presence: Presence::Required },
            FieldSpec { name: "priority", ty: FieldType::Choice(Choice::NotePriority), presence: Presence::Default(Value::Text(default_note_priority().as_wire().to_owned())) },
            FieldSpec { name: "parent_id", ty: FieldType::Text, presence: Presence::Optional },
            FieldSpec { name: "tags", ty: FieldType::Texts, presence: Presence::Optional },
            FieldSpec { name: "embedding", ty: FieldType::Singles, presence: Presence::Optional },
            FieldSpec { name: "metadata", ty: FieldType::Entries, presence: Presence::Optional },
            FieldSpec { name: "created_at", ty: FieldType::Instant, presence: Presence::Required },
            FieldSpec { name: "updated_at", ty: FieldType::Instant, presence: Presence::Required },
        ];
        assert(schema_view(r@) =~= Self::schema_spec());
        r
    }

    fn to_values(&self) -> (r: Vec<Value>) {
        let r = vec![
            put_text(&self.id),
            put_text(&self.user_id),
            put_instant(&self.timestamp),
            put_text(&self.content),
            put_note_priority(&self.priority),
            put_opt_text(&self.parent_id),
            put_opt_texts(&self.tags),
            put_opt_singles(&self.embedding),
            put_opt_entries(&self.metadata),
            put_instant(&self.created_at),
            put_instant(&self.updated_at),
        ];
        assert(values_view(r@) =~= self.values());
        r
    }

    fn from_values(vals: &Vec<Value>) -> (r: Self) {
        proof {
            let s = Self::schema_spec();
            let v = values_view(vals@);
            assert(fits(s[0], v[0]));
            assert(fits(s[1], v[1]));
            assert(fits(s[2], v[2]));
            assert(fits(s[3], v[3]));
            assert(fits(s[4], v[4]));
            assert(fits(s[5], v[5]));
            assert(fits(s[6], v[6]));
            assert(fits(s[7], v[7]));
            assert(fits(s[8], v[8]));
            assert(fits(s[9], v[9]));
            assert(fits(s[10], v[10]));
        }
        let r = Note {
            id: take_text(&vals[0]),
            user_id: take_text(&vals[1]),
            timestamp: take_instant(&vals[2]),
            content: take_text(&vals[3]),
            priority: take_note_priority(&vals[4]),
            parent_id: take_opt_text(&vals[5]),
            tags: take_opt_texts(&vals[6]),
            embedding: take_opt_singles(&vals[7]),
            metadata: take_opt_entries(&vals[8]),
            created_at: take_instant(&vals[9]),
            updated_at: take_instant(&vals[10]),
        };
        assert(r.values() =~= values_view(vals@));
        r
    }

    proof fn lemma_schema() {
        reveal_strlit("id");
        reveal_strlit("user_id");
        reveal_strlit("timestamp");
        reveal_strlit("content");
        reveal_strlit("priority");
        reveal_strlit("parent_id");
        reveal_strlit("tags");
        reveal_strlit("embedding");
        reveal_strlit("metadata");
        reveal_strlit("created_at");
        reveal_strlit("updated_at");
        assert("id"@.len() == 2 && "id"@[0] == 'i' && "id"@[1] == 'd');
        assert("user_id"@.len() == 7 && "user_id"@[0] == 'u' && "user_id"@[1] == 's' && "user_id"@[2] == 'e' && "user_id"@[3] == 'r' && "user_id"@[4] == '_' && "user_id"@[5] == 'i' && "user_id"@[6] == 'd');
        assert("timestamp"@.len() == 9 && "timestamp"@[0] == 't' && "timestamp"@[1] == 'i' && "timestamp"@[2] == 'm' && "timestamp"@[3] == 'e' && "timestamp"@[4] == 's' && "timestamp"@[5] == 't' && "timestamp"@[6] == 'a' && "timestamp"@[7] == 'm' && "timestamp"@[8] == 'p');
        assert("content"@.len() == 7 && "content"@[0] == 'c' && "content"@[1] == 'o' && "content"@[2] == 'n' && "content"@[3] == 't' && "content"@[4] == 'e' && "content"@[5] == 'n' && "content"@[6] == 't');
        assert("priority"@.len() == 8 && "priority"@[0] == 'p' && "priority"@[1] == 'r' && "priority"@[2] == 'i' && "priority"@[3] == 'o' && "priority"@[4] == 'r' && "priority"@[5] == 'i' && "priority"@[6] == 't' && "priority"@[7] == 'y');
        assert("parent_id"@.len() == 9 && "parent_id"@[0] == 'p' && "parent_id"@[1] == 'a' && "parent_id"@[2] == 'r' && "parent_id"@[3] == 'e' && "parent_id"@[4] == 'n' && "parent_id"@[5] == 't' && "parent_id"@[6] == '_' && "parent_id"@[7] == 'i' && "parent_id"@[8] == 'd');
        assert("tags"@.len() == 4 && "tags"@[0] == 't' && "tags"@[1] == 'a' && "tags"@[2] == 'g' && "tags"@[3] == 's');
        assert("embedding"@.len() == 9 && "embedding"@[0] == 'e' && "embedding"@[1] == 'm' && "embedding"@[2] == 'b' && "embedding"@[3] == 'e' && "embedding"@[4] == 'd' && "embedding"@[5] == 'd' && "embedding"@[6] == 'i' && "embedding"@[7] == 'n' && "embedding"@[8] == 'g');
        assert("metadata"@.len() == 8 && "metadata"@[0] == 'm' && "metadata"@[1] == 'e' && "metadata"@[2] == 't' && "metadata"@[3] == 'a' && "metadata"@[4] == 'd' && "metadata"@[5] == 'a' && "metadata"@[6] == 't' && "metadata"@[7] == 'a');
        assert("created_at"@.len() == 10 && "created_at"@[0] == 'c' && "created_at"@[1] == 'r' && "created_at"@[2] == 'e' && "created_at"@[3] == 'a' && "created_at"@[4] == 't' && "created_at"@[5] == 'e' && "created_at"@[6] == 'd' && "created_at"@[7] == '_' && "created_at"@[8] == 'a' && "created_at"@[9] == 't');
        assert("updated_at"@.len() == 10 && "updated_at"@[0] == 'u' && "updated_at"@[1] == 'p' && "updated_at"@[2] == 'd' && "updated_at"@[3] == 'a' && "updated_at"@[4] == 't' && "updated_at"@[5] == 'e' && "updated_at"@[6] == 'd' && "updated_at"@[7] == '_' && "updated_at"@[8] == 'a' && "updated_at"@[9] == 't');
        let s = Self::schema_spec();
        assert forall|i: int| 0 <= i < s.len() implies match (#[trigger] s[i]).presence {
            PresenceView::Default(d) => fits_type(s[i].ty, d),
            _ => true,
        } by {
            if i == 4 {
                assert(fits_type(s[4].ty, ValueView::Text("MEDIUM"@)));
            }
        }
    }

    proof fn lemma_fits(&self) {
        reveal(bool_v);
        self.priority.lemma_wire_round_trip();
        let s = Self::schema_spec();
        let v = self.values();
        assert forall|i: int| 0 <= i < s.len() implies fits(#[trigger] s[i], v[i]) by {
            if i == 0 {
                assert(fits(s[0], v[0]));
            } else if i == 1 {
                assert(fits(s[1], v[1]));
            } else if i == 2 {
                assert(fits(s[2], v[2]));
            } else if i == 3 {
                assert(fits(s[3], v[3]));
            } else if i == 4 {
                assert(fits(s[4], v[4]));
            } else if i == 5 {
                assert(fits(s[5], v[5]));
            } else if i == 6 {
                assert(fits(s[6], v[6]));
            } else if i == 7 {
                assert(fits(s[7], v[7]));
            } else if i == 8 {
                assert(fits(s[8], v[8]));
            } else if i == 9 {
                assert(fits(s[9], v[9]));
            } else if i == 10 {
                assert(fits(s[10], v[10]));
            }
        }
    }
}

impl Record for Note {
    open spec fn table_spec() -> Seq<char> {
        "notes"@
    }

    open spec fn layout_spec() -> Layout {
        Layout::Unique
    }

    fn table_name() -> (r: &'static str) {
        "notes"
    }

    fn layout() -> (r: Layout) {
        Layout::Unique
    }

    proof fn lemma_layout() {
    }
}

impl Note {
    /// The record's document.
    pub fn to_json(&self) -> (r: Document)
        ensures
            doc_view(r@) == encode(Self::schema_spec(), self.values()),
    {
        marshal(self)
    }

    /// The record that `doc` holds, or the error of the first field (in schema order)
    /// that it cannot give.
    pub fn from_json(doc: &Document) -> (r: Result<Self, SchemaError>)
        ensures
            match r {
                Ok(x) => decode(Self::schema_spec(), doc_view(doc@)) == Ok::<_, (SchemaErrorKind, Seq<char>)>(x.values()) && x.wf(),
                Err(e) => decode(Self::schema_spec(), doc_view(doc@)) == Err::<Seq<ValueView>, _>(e@),
            },
    {
        unmarshal(doc)
    }
}

/// A link from a note to any referenced object.
#[derive(Debug, Clone, PartialEq)]
pub struct NoteReference {
    pub note_id: String,
    pub reference_type: String,
    pub reference_id: String,
    pub timestamp: Option<Timestamp>,
    pub metadata: Option<Metadata>,
    pub created_at: Timestamp,
}

impl Fields for NoteReference {
    open spec fn schema_spec() -> Seq<FieldSpecView> {
        seq![
            FieldSpecView { name: "note_id"@, ty: FieldType::Text, presence: PresenceView::Required },
            FieldSpecView { name: "reference_type"@, ty: FieldType::Text, presence: PresenceView::Required },
            FieldSpecView { name: "reference_id"@, ty: FieldType::Text, presence: PresenceView::Required },
            FieldSpecView { name: "timestamp"@, ty: FieldType::Instant, presence: PresenceView::Optional },
            FieldSpecView { name: "metadata"@, ty: FieldType::Entries, presence: PresenceView::Optional },
            FieldSpecView { name: "created_at"@, ty: FieldType::Instant, presence: PresenceView::Required },
        ]
    }

    open spec fn values(&self) -> Seq<ValueView> {
        seq![
            text_v(self.note_id),
            text_v(self.reference_type),
            text_v(self.reference_id),
            opt_instant_v(self.timestamp),
            opt_entries_v(self.metadata),
            instant_v(self.created_at),
        ]
    }

    open spec fn wf(&self) -> bool {
        (self.timestamp matches Some(t) ==> t.wf())
        && self.created_at.wf()
    }

    fn schema() -> (r: Vec<FieldSpec>) {
        let r = vec![
            FieldSpec { name: "note_id", ty: FieldType::Text, presence: Presence::Required },
            FieldSpec { name: "reference_type", ty: FieldType::Text, presence: Presence::Required },
            FieldSpec { name: "reference_id", ty: FieldType::Text, presence: Presence::Required },
            FieldSpec { name: "timestamp", ty: FieldType::Instant, presence: Presence::Optional },
            FieldSpec { name: "metadata", ty: FieldType::Entries, presence: Presence::Optional },
            FieldSpec { name: "created_at", ty: FieldType::Instant, presence: Presence::Required },
        ];
        assert(schema_view(r@) =~= Self::schema_spec());
        r
    }

    fn to_values(&self) -> (r: Vec<Value>) {
        let r = vec![
            put_text(&self.note_id),
            put_text(&self.reference_type),
            put_text(&self.reference_id),
            put_opt_instant(&self.timestamp),
            put_opt_entries(&self.metadata),
            put_instant(&self.created_at),
        ];
        assert(values_view(r@) =~= self.values());
        r
    }

    fn from_values(vals: &Vec<Value>) -> (r: Self) {
        proof {
            let s = Self::schema_spec();
            let v = values_view(vals@);
            assert(fits(s[0], v[0]));
            assert(fits(s[1], v[1]));
            assert(fits(s[2], v[2]));
            assert(fits(s[3], v[3]));
            assert(fits(s[4], v[4]));
            assert(fits(s[5], v[5]));
        }
        let r = NoteReference {
            note_id: take_text(&vals[0]),
            reference_type: take_text(&vals[1]),
            reference_id: take_text(&vals[2]),
            timestamp: take_opt_instant(&vals[3]),
            metadata: take_opt_entries(&vals[4]),
            created_at: take_instant(&vals[5]),
        };
        assert(r.values() =~= values_view(vals@));
        r
    }

    proof fn lemma_schema() {
        reveal_strlit("note_id");
        reveal_strlit("reference_type");
        reveal_strlit("reference_id");
        reveal_strlit("timestamp");
        reveal_strlit("metadata");
        reveal_strlit("created_at");
        assert("note_id"@.len() == 7 && "note_id"@[0] == 'n' && "note_id"@[1] == 'o' && "note_id"@[2] == 't' && "note_id"@[3] == 'e' && "note_id"@[4] == '_' && "note_id"@[5] == 'i' && "note_id"@[6] == 'd');
        assert("reference_type"@.len() == 14 && "reference_type"@[0] == 'r' && "reference_type"@[1] == 'e' && "reference_type"@[2] == 'f' && "reference_type"@[3] == 'e' && "reference_type"@[4] == 'r' && "reference_type"@[5] == 'e' && "reference_type"@[6] == 'n' && "reference_type"@[7] == 'c' && "reference_type"@[8] == 'e' && "reference_type"@[9] == '_' && "reference_type"@[10] == 't' && "reference_type"@[11] == 'y' && "reference_type"@[12] == 'p' && "reference_type"@[13] == 'e');
        assert("reference_id"@.len() == 12 && "reference_id"@[0] == 'r' && "reference_id"@[1] == 'e' && "reference_id"@[2] == 'f' && "reference_id"@[3] == 'e' && "reference_id"@[4] == 'r' && "reference_id"@[5] == 'e' && "reference_id"@[6] == 'n' && "reference_id"@[7] == 'c' && "reference_id"@[8] == 'e' && "reference_id"@[9] == '_' && "reference_id"@[10] == 'i' && "reference_id"@[11] == 'd');
        assert("timestamp"@.len() == 9 && "timestamp"@[0] == 't' && "timestamp"@[1] == 'i' && "timestamp"@[2] == 'm' && "timestamp"@[3] == 'e' && "timestamp"@[4] == 's' && "timestamp"@[5] == 't' && "timestamp"@[6] == 'a' && "timestamp"@[7] == 'm' && "timestamp"@[8] == 'p');
        assert("metadata"@.len() == 8 && "metadata"@[0] == 'm' && "metadata"@[1] == 'e' && "metadata"@[2] == 't' && "metadata"@[3] == 'a' && "metadata"@[4] == 'd' && "metadata"@[5] == 'a' && "metadata"@[6] == 't' && "metadata"@[7] == 'a');
        assert("created_at"@.len() == 10 && "created_at"@[0] == 'c' && "created_at"@[1] == 'r' && "created_at"@[2] == 'e' && "created_at"@[3] == 'a' && "created_at"@[4] == 't' && "created_at"@[5] == 'e' && "created_at"@[6] == 'd' && "created_at"@[7] == '_' && "created_at"@[8] == 'a' && "created_at"@[9] == 't');
        let s = Self::schema_spec();
        assert forall|i: int| 0 <= i < s.len() implies match (#[trigger] s[i]).presence {
            PresenceView::Default(d) => fits_type(s[i].ty, d),
            _ => true,
        } by {
        }
    }

    proof fn lemma_fits(&self) {
        reveal(bool_v);
        let s = Self::schema_spec();
        let v = self.values();
        assert forall|i: int| 0 <= i < s.len() implies fits(#[trigger] s[i], v[i]) by {
            if i == 0 {
                assert(fits(s[0], v[0]));
            } else if i == 1 {
                assert(fits(s[1], v[1]));
            } else if i == 2 {
                assert(fits(s[2], v[2]));
            } else if i == 3 {
                assert(fits(s[3], v[3]));
            } else if i == 4 {
                assert(fits(s[4], v[4]));
            } else if i == 5 {
                assert(fits(s[5], v[5]));
            }
        }
    }
}

impl Record for NoteReference {
    open spec fn table_spec() -> Seq<char> {
        "note_references"@
    }

    open spec fn layout_spec() -> Layout {
        Layout::Log
    }

    fn table_name() -> (r: &'static str) {
        "note_references"
    }

    fn layout() -> (r: Layout) {
        Layout::Log
    }

    proof fn lemma_layout() {
    }
}

impl NoteReference {
    /// The record's document.
    pub fn to_json(&self) -> (r: Document)
        ensures
            doc_view(r@) == encode(Self::schema_spec(), self.values()),
    {
        marshal(self)
    }

    /// The record that `doc` holds, or the error of the first field (in schema order)
    /// that it cannot give.
    pub fn from_json(doc: &Document) -> (r: Result<Self, SchemaError>)
        ensures
            match r {
                Ok(x) => decode(Self::schema_spec(), doc_view(doc@)) == Ok::<_, (SchemaErrorKind, Seq<char>)>(x.values()) && x.wf(),
                Err(e) => decode(Self::schema_spec(), doc_view(doc@)) == Err::<Seq<ValueView>, _>(e@),
            },
    {
        unmarshal(doc)
    }
}

/// A labelled, recognised entity.
#[derive(Debug, Clone, PartialEq)]
pub struct KnownEntity {
    pub entity_id: String,
    pub entity_type: EntityType,
    pub label: String,
    /// IEEE-754 single-precision bits of each item.
    pub embedding: Option<Vec<u32>>,
    pub metadata: Option<Metadata>,
    pub created_at: Timestamp,
    pub updated_at: Timestamp,
}

impl Fields for KnownEntity {
    open spec fn schema_spec() -> Seq<FieldSpecView> {
        seq![
            FieldSpecView { name: "entity_id"@, ty: FieldType::Text, presence: PresenceView::Required },
            FieldSpecView { name: "entity_type"@, ty: FieldType::Choice(Choice::EntityType), presence: PresenceView::Required },
            FieldSpecView { name: "label"@, ty: FieldType::Text, presence: PresenceView::Required },
            FieldSpecView { name: "embedding"@, ty: FieldType::Singles, presence: PresenceView::Optional },
            FieldSpecView { name: "metadata"@, ty: FieldType::Entries, presence: PresenceView::Optional },
            FieldSpecView { name: "created_at"@, ty: FieldType::Instant, presence: PresenceView::Required },
            FieldSpecView { name: "updated_at"@, ty: FieldType::Instant, presence: PresenceView::Required },
        ]
    }

    open spec fn values(&self) -> Seq<ValueView> {
        seq![
            text_v(self.entity_id),
            entity_type_v(self.entity_type),
            text_v(self.label),
            opt_singles_v(self.embedding),
            opt_entries_v(self.metadata),
            instant_v(self.created_at),
            instant_v(self.updated_at),
        ]
    }

    open spec fn wf(&self) -> bool {
        self.created_at.wf()
        && self.updated_at.wf()
    }

    fn schema() -> (r: Vec<FieldSpec>) {
        let r = vec![
            FieldSpec { name: "entity_id", ty: FieldType::Text, presence: Presence::Required },
            FieldSpec { name: "entity_type", ty: FieldType::Choice(Choice::EntityType), presence: Presence::Required },
            FieldSpec { name: "label", ty: FieldType::Text, presence: Presence::Required },
            FieldSpec { name: "embedding", ty: FieldType::Singles, presence: Presence::Optional },
            FieldSpec { name: "metadata", ty: FieldType::Entries, presence: Presence::Optional },
            FieldSpec { name: "created_at", ty: FieldType::Instant, presence: Presence::Required },
            FieldSpec { name: "updated_at", ty: FieldType::Instant, presence: Presence::Required },
        ];
        assert(schema_view(r@) =~= Self::schema_spec());
        r
    }

    fn to_values(&self) -> (r: Vec<Value>) {
        let r = vec![
            put_text(&self.entity_id),
            put_entity_type(&self.entity_type),
            put_text(&self.label),
            put_opt_singles(&self.embedding),
            put_opt_entries(&self.metadata),
            put_instant(&self.created_at),
            put_instant(&self.updated_at),
        ];
        assert(values_view(r@) =~= self.values());
        r
    }

    fn from_values(vals: &Vec<Value>) -> (r: Self) {
        proof {
            let s = Self::schema_spec();
            let v = values_view(vals@);
            assert(fits(s[0], v[0]));
            assert(fits(s[1], v[1]));
            assert(fits(s[2], v[2]));
            assert(fits(s[3], v[3]));
            assert(fits(s[4], v[4]));
            assert(fits(s[5], v[5]));
            assert(fits(s[6], v[6]));
        }
        let r = KnownEntity {
            entity_id: take_text(&vals[0]),
            entity_type: take_entity_type(&vals[1]),
            label: take_text(&vals[2]),
            embedding: take_opt_singles(&vals[3]),
            metadata: take_opt_entries(&vals[4]),
            created_at: take_instant(&vals[5]),
            updated_at: take_instant(&vals[6]),
        };
        assert(r.values() =~= values_view(vals@));
        r
    }

    proof fn lemma_schema() {
        reveal_strlit("entity_id");
        reveal_strlit("entity_type");
        reveal_strlit("label");
        reveal_strlit("embedding");
        reveal_strlit("metadata");
        reveal_strlit("created_at");
        reveal_strlit("updated_at");
        assert("entity_id"@.len() == 9 && "entity_id"@[0] == 'e' && "entity_id"@[1] == 'n' && "entity_id"@[2] == 't' && "entity_id"@[3] == 'i' && "entity_id"@[4] == 't' && "entity_id"@[5] == 'y' && "entity_id"@[6] == '_' && "entity_id"@[7] == 'i' && "entity_id"@[8] == 'd');
        assert("entity_type"@.len() == 11 && "entity_type"@[0] == 'e' && "entity_type"@[1] == 'n' && "entity_type"@[2] == 't' && "entity_type"@[3] == 'i' && "entity_type"@[4] == 't' && "entity_type"@[5] == 'y' && "entity_type"@[6] == '_' && "entity_type"@[7] == 't' && "entity_type"@[8] == 'y' && "entity_type"@[9] == 'p' && "entity_type"@[10] == 'e');
        assert("label"@.len() == 5 && "label"@[0] == 'l' && "label"@[1] == 'a' && "label"@[2] == 'b' && "label"@[3] == 'e' && "label"@[4] == 'l');
        assert("embedding"@.len() == 9 && "embedding"@[0] == 'e' && "embedding"@[1] == 'm' && "embedding"@[2] == 'b' && "embedding"@[3] == 'e' && "embedding"@[4] == 'd' && "embedding"@[5] == 'd' && "embedding"@[6] == 'i' && "embedding"@[7] == 'n' && "embedding"@[8] == 'g');
        assert("metadata"@.len() == 8 && "metadata"@[0] == 'm' && "metadata"@[1] == 'e' && "metadata"@[2] == 't' && "metadata"@[3] == 'a' && "metadata"@[4] == 'd' && "metadata"@[5] == 'a' && "metadata"@[6] == 't' && "metadata"@[7] == 'a');
        assert("created_at"@.len() == 10 && "created_at"@[0] == 'c' && "created_at"@[1] == 'r' && "created_at"@[2] == 'e' && "created_at"@[3] == 'a' && "created_at"@[4] == 't' && "created_at"@[5] == 'e' && "created_at"@[6] == 'd' && "created_at"@[7] == '_' && "created_at"@[8] == 'a' && "created_at"@[9] == 't');
        assert("updated_at"@.len() == 10 && "updated_at"@[0] == 'u' && "updated_at"@[1] == 'p' && "updated_at"@[2] == 'd' && "updated_at"@[3] == 'a' && "updated_at"@[4] == 't' && "updated_at"@[5] == 'e' && "updated_at"@[6] == 'd' && "updated_at"@[7] == '_' && "updated_at"@[8] == 'a' && "updated_at"@[9] == 't');
        let s = Self::schema_spec();
        assert forall|i: int| 0 <= i < s.len() implies match (#[trigger] s[i]).presence {
            PresenceView::Default(d) => fits_type(s[i].ty, d),
            _ => true,
        } by {
        }
    }

    proof fn lemma_fits(&self) {
        reveal(bool_v);
        self.entity_type.lemma_wire_round_trip();
        let s = Self::schema_spec();
        let v = self.values();
        assert forall|i: int| 0 <= i < s.len() implies fits(#[trigger] s[i], v[i]) by {
            if i == 0 {
                assert(fits(s[0], v[0]));
            } else if i == 1 {
                assert(fits(s[1], v[1]));
            } else if i == 2 {
                assert(fits(s[2], v[2]));
            } else if i == 3 {
                assert(fits(s[3], v[3]));
            } else if i == 4 {
                assert(fits(s[4], v[4]));
            } else if i == 5 {
                assert(fits(s[5], v[5]));
            } else if i == 6 {
                assert(fits(s[6], v[6]));
            }
        }
    }
}

impl Record for KnownEntity {
    open spec fn table_spec() -> Seq<char> {
        "known_entities"@
    }

    open spec fn layout_spec() -> Layout {
        Layout::Unique
    }

    fn table_name() -> (r: &'static str) {
        "known_entities"
    }

    fn layout() -> (r: Layout) {
        Layout::Unique
    }

    proof fn lemma_layout() {
    }
}

impl KnownEntity {
    /// The record's document.
    pub fn to_json(&self) -> (r: Document)
        ensures
            doc_view(r@) == encode(Self::schema_spec(), self.values()),
    {
        marshal(self)
    }

    /// The record that `doc` holds, or the error of the first field (in schema order)
    /// that it cannot give.
    pub fn from_json(doc: &Document) -> (r: Result<Self, SchemaError>)
        ensures
            match r {
                Ok(x) => decode(Self::schema_spec(), doc_view(doc@)) == Ok::<_, (SchemaErrorKind, Seq<char>)>(x.values()) && x.wf(),
                Err(e) => decode(Self::schema_spec(), doc_view(doc@)) == Err::<Seq<ValueView>, _>(e@),
            },
    {
        unmarshal(doc)
    }
}

} // verus!
