//! Users, their linked external accounts and their sessions.
use vstd::prelude::*;
use crate::fields::{bool_v, instant_v, opt_instant_v, opt_text_v, put_instant, put_opt_instant, put_opt_text, put_text, take_instant, take_opt_instant, take_opt_text, take_text, text_v};
use crate::record::{marshal, slice_values, unmarshal, Fields, Layout, Record};
use crate::schema::{
    decode, doc_view, encode, fits, fits_type, schema_view, values_view, Choice, FieldSpec,
    FieldSpecView, FieldType, Presence, PresenceView, SchemaError, SchemaErrorKind,
};
use crate::time::Timestamp;
use crate::types::{DeviceType, CameraType, ConnectionType, EntityType, NotePriority, SyncPriority, CompressionAlgorithm};
use crate::value::{Document, Metadata, Value, ValueView};
use crate::defaults::{default_batch_size, default_note_priority, default_retry_count};

verus! {


/// Audit timestamps shared by entities.
#[derive(Debug, Clone, PartialEq)]
pub struct BaseEntity {
    pub created_at: Timestamp,
    pub updated_at: Timestamp,
}

/// A user account.
#[derive(Debug, Clone, PartialEq)]
pub struct User {
    pub id: String,
    pub email: String,
    pub name: Option<String>,
    pub encrypted_password: String,
    pub created_at: Timestamp,
    pub updated_at: Timestamp,
}

impl Fields for User {
    open spec fn schema_spec() -> Seq<FieldSpecView> {
        seq![
            FieldSpecView { name: "id"@, ty: FieldType::Text, presence: PresenceView::Required },
            FieldSpecView { name: "email"@, ty: FieldType::Text, presence: PresenceView::Required },
            FieldSpecView { name: "name"@, ty: FieldType::Text, presence: PresenceView::Optional },
            FieldSpecView { name: "encrypted_password"@, ty: FieldType::Text, presence: PresenceView::Required },
            FieldSpecView { name: "created_at"@, ty: FieldType::Instant, presence: PresenceView::Required },
            FieldSpecView { name: "updated_at"@, ty: FieldType::Instant, presence: PresenceView::Required },
        ]
    }

    open spec fn values(&self) -> Seq<ValueView> {
        seq![
            text_v(self.id),
            text_v(self.email),
            opt_text_v(self.name),
            text_v(self.encrypted_password),
            instant_v(self.created_at),
            instant_v(self.updated_at),
        ]
    }

    open spec fn wf(&self) -> bool {
        self.created_at.wf()
        && self.updated_at.wf()
    }

    fn schema() -> (r: Vec<FieldSpec>) {
        let r = vec![
            FieldSpec { name: "id", ty: FieldType::Text, presence: Presence::Required },
            FieldSpec { name: "email", ty: FieldType::Text, presence: Presence::Required },
            FieldSpec { name: "name", ty: FieldType::Text, presence: Presence::Optional },
            FieldSpec { name: "encrypted_password", ty: FieldType::Text, presence: Presence::Required },
            FieldSpec { name: "created_at", ty: FieldType::Instant, presence: Presence::Required },
            FieldSpec { name: "updated_at", ty: FieldType::Instant, presence: Presence::Required },
        ];
        assert(schema_view(r@) =~= Self::schema_spec());
        r
    }

    fn to_values(&self) -> (r: Vec<Value>) {
        let r = vec![
            put_text(&self.id),
            put_text(&self.email),
            put_opt_text(&self.name),
            put_text(&self.encrypted_password),
            put_instant(&self.created_at),
            put_instant(&self.updated_at),
        ];
        assert(values_view(r@) =~= self.values());
        r
    }

    fn from_values(vals: &Vec<Value>) -> (r: Self) {
        proof {
            let s = Self::schema_spec();
            let v = values_view(vals@);
            assert(fits(s[0], v[0]));
            assert(fits(s[1], v[1]));
            assert(fits(s[2], v[2]));
            assert(fits(s[3], v[3]));
            assert(fits(s[4], v[4]));
            assert(fits(s[5], v[5]));
        }
        let r = User {
            id: take_text(&vals[0]),
            email: take_text(&vals[1]),
            name: take_opt_text(&vals[2]),
            encrypted_password: take_text(&vals[3]),
            created_at: take_instant(&vals[4]),
            updated_at: take_instant(&vals[5]),
        };
        assert(r.values() =~= values_view(vals@));
        r
    }

    proof fn lemma_schema() {
        reveal_strlit("id");
        reveal_strlit("email");
        reveal_strlit("name");
        reveal_strlit("encrypted_password");
        reveal_strlit("created_at");
        reveal_strlit("updated_at");
        assert("id"@.len() == 2 && "id"@[0] == 'i' && "id"@[1] == 'd');
        assert("email"@.len() == 5 && "email"@[0] == 'e' && "email"@[1] == 'm' && "email"@[2] == 'a' && "email"@[3] == 'i' && "email"@[4] == 'l');
        assert("name"@.len() == 4 && "name"@[0] == 'n' && "name"@[1] == 'a' && "name"@[2] == 'm' && "name"@[3] == 'e');
        assert("encrypted_password"@.len() == 18 && "encrypted_password"@[0] == 'e' && "encrypted_password"@[1] == 'n' && "encrypted_password"@[2] == 'c' && "encrypted_password"@[3] == 'r' && "encrypted_password"@[4] == 'y' && "encrypted_password"@[5] == 'p' && "encrypted_password"@[6] == 't' && "encrypted_password"@[7] == 'e' && "encrypted_password"@[8] == 'd' && "encrypted_password"@[9] == '_' && "encrypted_password"@[10] == 'p' && "encrypted_password"@[11] == 'a' && "encrypted_password"@[12] == 's' && "encrypted_password"@[13] == 's' && "encrypted_password"@[14] == 'w' && "encrypted_password"@[15] == 'o' && "encrypted_password"@[16] == 'r' && "encrypted_password"@[17] == 'd');
        assert("created_at"@.len() == 10 && "created_at"@[0] == 'c' && "created_at"@[1] == 'r' && "created_at"@[2] == 'e' && "created_at"@[3] == 'a' && "created_at"@[4] == 't' && "created_at"@[5] == 'e' && "created_at"@[6] == 'd' && "created_at"@[7] == '_' && "created_at"@[8] == 'a' && "created_at"@[9] == 't');
        assert("updated_at"@.len() == 10 && "updated_at"@[0] == 'u' && "updated_at"@[1] == 'p' && "updated_at"@[2] == 'd' && "updated_at"@[3] == 'a' && "updated_at"@[4] == 't' && "updated_at"@[5] == 'e' && "updated_at"@[6] == 'd' && "updated_at"@[7] == '_' && "updated_at"@[8] == 'a' && "updated_at"@[9] == 't');
        let s = Self::schema_spec();
        assert forall|i: int| 0 <= i < s.len() implies match (#[trigger] s[i]).presence {
            PresenceView::Default(d) => fits_type(s[i].ty, d),
            _ => true,
        } by {
        }
    }

    proof fn lemma_fits(&self) {
        reveal(bool_v);
        let s = Self::schema_spec();
        let v = self.values();
        assert forall|i: int| 0 <= i < s.len() implies fits(#[trigger] s[i], v[i]) by {
            if i == 0 {
                assert(fits(s[0], v[0]));
            } else if i == 1 {
                assert(fits(s[1], v[1]));
            } else if i == 2 {
                assert(fits(s[2], v[2]));
            } else if i == 3 {
                assert(fits(s[3], v[3]));
            } else if i == 4 {
                assert(fits(s[4], v[4]));
            } else if i == 5 {
                assert(fits(s[5], v[5]));
            }
        }
    }
}

impl Record for User {
    open spec fn table_spec() -> Seq<char> {
        "users"@
    }

    open spec fn layout_spec() -> Layout {
        Layout::Unique
    }

    fn table_name() -> (r: &'static str) {
        "users"
    }

    fn layout() -> (r: Layout) {
        Layout::Unique
    }

    proof fn lemma_layout() {
    }
}

impl User {
    /// The record's document.
    pub fn to_json(&self) -> (r: Document)
        ensures
            doc_view(r@) == encode(Self::schema_spec(), self.values()),
    {
        marshal(self)
    }

    /// The record that `doc` holds, or the error of the first field (in schema order)
    /// that it cannot give.
    pub fn from_json(doc: &Document) -> (r: Result<Self, SchemaError>)
        ensures
            match r {
                Ok(x) => decode(Self::schema_spec(), doc_view(doc@)) == Ok::<_, (SchemaErrorKind, Seq<char>)>(x.values()) && x.wf(),
                Err(e) => decode(Self::schema_spec(), doc_view(doc@)) == Err::<Seq<ValueView>, _>(e@),
            },
    {
        unmarshal(doc)
    }
}

/// An identity at an external provider, linked to a user.
#[derive(Debug, Clone, PartialEq)]
pub struct OAuthAccount {
    pub id: String,
    pub user_id: String,
    pub provider: String,
    pub provider_user_id: String,
    pub access_token: String,
    pub refresh_token: Option<String>,
    pub expires_at: Option<Timestamp>,
    pub created_at: Timestamp,
    pub updated_at: Timestamp,
}

impl Fields for OAuthAccount {
    open spec fn schema_spec() -> Seq<FieldSpecView> {
        seq![
            FieldSpecView { name: "id"@, ty: FieldType::Text, presence: PresenceView::Required },
            FieldSpecView { name: "user_id"@, ty: FieldType::Text, presence: PresenceView::Required },
            FieldSpecView { name: "provider"@, ty: FieldType::Text, presence: PresenceView::Required },
            FieldSpecView { name: "provider_user_id"@, ty: FieldType::Text, presence: PresenceView::Required },
            FieldSpecView { name: "access_token"@, ty: FieldType::Text, presence: PresenceView::Required },
            FieldSpecView { name: "refresh_token"@, ty: FieldType::Text, presence: PresenceView::Optional },
            FieldSpecView { name: "expires_at"@, ty: FieldType::Instant, presence: PresenceView::Optional },
            FieldSpecView { name: "created_at"@, ty: FieldType::Instant, presence: PresenceView::Required },
            FieldSpecView { name: "updated_at"@, ty: FieldType::Instant, presence: PresenceView::Required },
        ]
    }

    open spec fn values(&self) -> Seq<ValueView> {
        seq![
            text_v(self.id),
            text_v(self.user_id),
            text_v(self.provider),
            text_v(self.provider_user_id),
            text_v(self.access_token),
            opt_text_v(self.refresh_token),
            opt_instant_v(self.expires_at),
            instant_v(self.created_at),
            instant_v(self.updated_at),
        ]
    }

    open spec fn wf(&self) -> bool {
        (self.expires_at matches Some(t) ==> t.wf())
        && self.created_at.wf()
        && self.updated_at.wf()
    }

    fn schema() -> (r: Vec<FieldSpec>) {
        let r = vec![
            FieldSpec { name: "id", ty: FieldType::Text, presence: Presence::Required },
            FieldSpec { name: "user_id", ty: FieldType::Text, presence: Presence::Required },
            FieldSpec { name: "provider", ty: FieldType::Text, presence: Presence::Required },
            FieldSpec { name: "provider_user_id", ty: FieldType::Text, presence: Presence::Required },
            FieldSpec { name: "access_token", ty: FieldType::Text, presence: Presence::Required },
            FieldSpec { name: "refresh_token", ty: FieldType::Text, presence: Presence::Optional },
            FieldSpec { name: "expires_at", ty: FieldType::Instant, presence: Presence::Optional },
            FieldSpec { name: "created_at", ty: FieldType::Instant, presence: Presence::Required },
            FieldSpec { name: "updated_at", ty: FieldType::Instant, presence: Presence::Required },
        ];
        assert(schema_view(r@) =~= Self::schema_spec());
        r
    }

    fn to_values(&self) -> (r: Vec<Value>) {
        let r = vec![
            put_text(&self.id),
            put_text(&self.user_id),
            put_text(&self.provider),
            put_text(&self.provider_user_id),
            put_text(&self.access_token),
            put_opt_text(&self.refresh_token),
            put_opt_instant(&self.expires_at),
            put_instant(&self.created_at),
            put_instant(&self.updated_at),
        ];
        assert(values_view(r@) =~= self.values());
        r
    }

    fn from_values(vals: &Vec<Value>) -> (r: Self) {
        proof {
            let s = Self::schema_spec();
            let v = values_view(vals@);
            assert(fits(s[0], v[0]));
            assert(fits(s[1], v[1]));
            assert(fits(s[2], v[2]));
            assert(fits(s[3], v[3]));
            assert(fits(s[4], v[4]));
            assert(fits(s[5], v[5]));
            assert(fits(s[6], v[6]));
            assert(fits(s[7], v[7]));
            assert(fits(s[8], v[8]));
        }
        let r = OAuthAccount {
            id: take_text(&vals[0]),
            user_id: take_text(&vals[1]),
            provider: take_text(&vals[2]),
            provider_user_id: take_text(&vals[3]),
            access_token: take_text(&vals[4]),
            refresh_token: take_opt_text(&vals[5]),
            expires_at: take_opt_instant(&vals[6]),
            created_at: take_instant(&vals[7]),
            updated_at: take_instant(&vals[8]),
        };
        assert(r.values() =~= values_view(vals@));
        r
    }

    proof fn lemma_schema() {
        reveal_strlit("id");
        reveal_strlit("user_id");
        reveal_strlit("provider");
        reveal_strlit("provider_user_id");
        reveal_strlit("access_token");
        reveal_strlit("refresh_token");
        reveal_strlit("expires_at");
        reveal_strlit("created_at");
        reveal_strlit("updated_at");
        assert("id"@.len() == 2 && "id"@[0] == 'i' && "id"@[1] == 'd');
        assert("user_id"@.len() == 7 && "user_id"@[0] == 'u' && "user_id"@[1] == 's' && "user_id"@[2] == 'e' && "user_id"@[3] == 'r' && "user_id"@[4] == '_' && "user_id"@[5] == 'i' && "user_id"@[6] == 'd');
        assert("provider"@.len() == 8 && "provider"@[0] == 'p' && "provider"@[1] == 'r' && "provider"@[2] == 'o' && "provider"@[3] == 'v' && "provider"@[4] == 'i' && "provider"@[5] == 'd' && "provider"@[6] == 'e' && "provider"@[7] == 'r');
        assert("provider_user_id"@.len() == 16 && "provider_user_id"@[0] == 'p' && "provider_user_id"@[1] == 'r' && "provider_user_id"@[2] == 'o' && "provider_user_id"@[3] == 'v' && "provider_user_id"@[4] == 'i' && "provider_user_id"@[5] == 'd' && "provider_user_id"@[6] == 'e' && "provider_user_id"@[7] == 'r' && "provider_user_id"@[8] == '_' && "provider_user_id"@[9] == 'u' && "provider_user_id"@[10] == 's' && "provider_user_id"@[11] == 'e' && "provider_user_id"@[12] == 'r' && "provider_user_id"@[13] == '_' && "provider_user_id"@[14] == 'i' && "provider_user_id"@[15] == 'd');
        assert("access_token"@.len() == 12 && "access_token"@[0] == 'a' && "access_token"@[1] == 'c' && "access_token"@[2] == 'c' && "access_token"@[3] == 'e' && "access_token"@[4] == 's' && "access_token"@[5] == 's' && "access_token"@[6] == '_' && "access_token"@[7] == 't' && "access_token"@[8] == 'o' && "access_token"@[9] == 'k' && "access_token"@[10] == 'e' && "access_token"@[11] == 'n');
        assert("refresh_token"@.len() == 13 && "refresh_token"@[0] == 'r' && "refresh_token"@[1] == 'e' && "refresh_token"@[2] == 'f' && "refresh_token"@[3] == 'r' && "refresh_token"@[4] == 'e' && "refresh_token"@[5] == 's' && "refresh_token"@[6] == 'h' && "refresh_token"@[7] == '_' && "refresh_token"@[8] == 't' && "refresh_token"@[9] == 'o' && "refresh_token"@[10] == 'k' && "refresh_token"@[11] == 'e' && "refresh_token"@[12] == 'n');
        assert("expires_at"@.len() == 10 && "expires_at"@[0] == 'e' && "expires_at"@[1] == 'x' && "expires_at"@[2] == 'p' && "expires_at"@[3] == 'i' && "expires_at"@[4] == 'r' && "expires_at"@[5] == 'e' && "expires_at"@[6] == 's' && "expires_at"@[7] == '_' && "expires_at"@[8] == 'a' && "expires_at"@[9] == 't');
        assert("created_at"@.len() == 10 && "created_at"@[0] == 'c' && "created_at"@[1] == 'r' && "created_at"@[2] == 'e' && "created_at"@[3] == 'a' && "created_at"@[4] == 't' && "created_at"@[5] == 'e' && "created_at"@[6] == 'd' && "created_at"@[7] == '_' && "created_at"@[8] == 'a' && "created_at"@[9] == 't');
        assert("updated_at"@.len() == 10 && "updated_at"@[0] == 'u' && "updated_at"@[1] == 'p' && "updated_at"@[2] == 'd' && "updated_at"@[3] == 'a' && "updated_at"@[4] == 't' && "updated_at"@[5] == 'e' && "updated_at"@[6] == 'd' && "updated_at"@[7] == '_' && "updated_at"@[8] == 'a' && "updated_at"@[9] == 't');
        let s = Self::schema_spec();
        assert forall|i: int| 0 <= i < s.len() implies match (#[trigger] s[i]).presence {
            PresenceView::Default(d) => fits_type(s[i].ty, d),
            _ => true,
        } by {
        }
    }

    proof fn lemma_fits(&self) {
        reveal(bool_v);
        let s = Self::schema_spec();
        let v = self.values();
        assert forall|i: int| 0 <= i < s.len() implies fits(#[trigger] s[i], v[i]) by {
            if i == 0 {
                assert(fits(s[0], v[0]));
            } else if i == 1 {
                assert(fits(s[1], v[1]));
            } else if i == 2 {
                assert(fits(s[2], v[2]));
            } else if i == 3 {
                assert(fits(s[3], v[3]));
            } else if i == 4 {
                assert(fits(s[4], v[4]));
            } else if i == 5 {
                assert(fits(s[5], v[5]));
            } else if i == 6 {
                assert(fits(s[6], v[6]));
            } else if i == 7 {
                assert(fits(s[7], v[7]));
            } else if i == 8 {
                assert(fits(s[8], v[8]));
            }
        }
    }
}

impl Record for OAuthAccount {
    open spec fn table_spec() -> Seq<char> {
        "oauth_accounts"@
    }

    open spec fn layout_spec() -> Layout {
        Layout::Unique
    }

    fn table_name() -> (r: &'static str) {
        "oauth_accounts"
    }

    fn layout() -> (r: Layout) {
        Layout::Unique
    }

    proof fn lemma_layout() {
    }
}

impl OAuthAccount {
    /// The record's document.
    pub fn to_json(&self) -> (r: Document)
        ensures
            doc_view(r@) == encode(Self::schema_spec(), self.values()),
    {
        marshal(self)
    }

    /// The record that `doc` holds, or the error of the first field (in schema order)
    /// that it cannot give.
    pub fn from_json(doc: &Document) -> (r: Result<Self, SchemaError>)
        ensures
            match r {
                Ok(x) => decode(Self::schema_spec(), doc_view(doc@)) == Ok::<_, (SchemaErrorKind, Seq<char>)>(x.values()) && x.wf(),
                Err(e) => decode(Self::schema_spec(), doc_view(doc@)) == Err::<Seq<ValueView>, _>(e@),
            },
    {
        unmarshal(doc)
    }
}

/// A login session of a user.
#[derive(Debug, Clone, PartialEq)]
pub struct Session {
    pub id: String,
    pub user_id: String,
    pub token: String,
    pub expires_at: Timestamp,
    pub created_at: Timestamp,
}

impl Fields for Session {
    open spec fn schema_spec() -> Seq<FieldSpecView> {
        seq![
            FieldSpecView { name: "id"@, ty: FieldType::Text, presence: PresenceView::Required },
            FieldSpecView { name: "user_id"@, ty: FieldType::Text, presence: PresenceView::Required },
            FieldSpecView { name: "token"@, ty: FieldType::Text, presence: PresenceView::Required },
            FieldSpecView { name: "expires_at"@, ty: FieldType::Instant, presence: PresenceView::Required },
            FieldSpecView { name: "created_at"@, ty: FieldType::Instant, presence: PresenceView::Required },
        ]
    }

    open spec fn values(&self) -> Seq<ValueView> {
        seq![
            text_v(self.id),
            text_v(self.user_id),
            text_v(self.token),
            instant_v(self.expires_at),
            instant_v(self.created_at),
        ]
    }

    open spec fn wf(&self) -> bool {
        self.expires_at.wf()
        && self.created_at.wf()
    }

    fn schema() -> (r: Vec<FieldSpec>) {
        let r = vec![
            FieldSpec { name: "id", ty: FieldType::Text, presence: Presence::Required },
            FieldSpec { name: "user_id", ty: FieldType::Text, presence: Presence::Required },
            FieldSpec { name: "token", ty: FieldType::Text, presence: Presence::Required },
            FieldSpec { name: "expires_at", ty: FieldType::Instant, presence: Presence::Required },
            FieldSpec { name: "created_at", ty: FieldType::Instant, presence: Presence::Required },
        ];
        assert(schema_view(r@) =~= Self::schema_spec());
        r
    }

    fn to_values(&self) -> (r: Vec<Value>) {
        let r = vec![
            put_text(&self.id),
            put_text(&self.user_id),
            put_text(&self.token),
            put_instant(&self.expires_at),
            put_instant(&self.created_at),
        ];
        assert(values_view(r@) =~= self.values());
        r
    }

    fn from_values(vals: &Vec<Value>) -> (r: Self) {
        proof {
            let s = Self::schema_spec();
            let v = values_view(vals@);
            assert(fits(s[0], v[0]));
            assert(fits(s[1], v[1]));
            assert(fits(s[2], v[2]));
            assert(fits(s[3], v[3]));
            assert(fits(s[4], v[4]));
        }
        let r = Session {
            id: take_text(&vals[0]),
            user_id: take_text(&vals[1]),
            token: take_text(&vals[2]),
            expires_at: take_instant(&vals[3]),
            created_at: take_instant(&vals[4]),
        };
        assert(r.values() =~= values_view(vals@));
        r
    }

    proof fn lemma_schema() {
        reveal_strlit("id");
        reveal_strlit("user_id");
        reveal_strlit("token");
        reveal_strlit("expires_at");
        reveal_strlit("created_at");
        assert("id"@.len() == 2 && "id"@[0] == 'i' && "id"@[1] == 'd');
        assert("user_id"@.len() == 7 && "user_id"@[0] == 'u' && "user_id"@[1] == 's' && "user_id"@[2] == 'e' && "user_id"@[3] == 'r' && "user_id"@[4] == '_' && "user_id"@[5] == 'i' && "user_id"@[6] == 'd');
        assert("token"@.len() == 5 && "token"@[0] == 't' && "token"@[1] == 'o' && "token"@[2] == 'k' && "token"@[3] == 'e' && "token"@[4] == 'n');
        assert("expires_at"@.len() == 10 && "expires_at"@[0] == 'e' && "expires_at"@[1] == 'x' && "expires_at"@[2] == 'p' && "expires_at"@[3] == 'i' && "expires_at"@[4] == 'r' && "expires_at"@[5] == 'e' && "expires_at"@[6] == 's' && "expires_at"@[7] == '_' && "expires_at"@[8] == 'a' && "expires_at"@[9] == 't');
        assert("created_at"@.len() == 10 && "created_at"@[0] == 'c' && "created_at"@[1] == 'r' && "created_at"@[2] == 'e' && "created_at"@[3] == 'a' && "created_at"@[4] == 't' && "created_at"@[5] == 'e' && "created_at"@[6] == 'd' && "created_at"@[7] == '_' && "created_at"@[8] == 'a' && "created_at"@[9] == 't');
        let s = Self::schema_spec();
        assert forall|i: int| 0 <= i < s.len() implies match (#[trigger] s[i]).presence {
            PresenceView::Default(d) => fits_type(s[i].ty, d),
            _ => true,
        } by {
        }
    }

    proof fn lemma_fits(&self) {
        reveal(bool_v);
        let s = Self::schema_spec();
        let v = self.values();
        assert forall|i: int| 0 <= i < s.len() implies fits(#[trigger] s[i], v[i]) by {
            if i == 0 {
                assert(fits(s[0], v[0]));
            } else if i == 1 {
                assert(fits(s[1], v[1]));
            } else if i == 2 {
                assert(fits(s[2], v[2]));
            } else if i == 3 {
                assert(fits(s[3], v[3]));
            } else if i == 4 {
                assert(fits(s[4], v[4]));
            }
        }
    }
}

impl Record for Session {
    open spec fn table_spec() -> Seq<char> {
        "sessions"@
    }

    open spec fn layout_spec() -> Layout {
        Layout::Unique
    }

    fn table_name() -> (r: &'static str) {
        "sessions"
    }

    fn layout() -> (r: Layout) {
        Layout::Unique
    }

    proof fn lemma_layout() {
    }
}

impl Session {
    /// The record's document.
    pub fn to_json(&self) -> (r: Document)
        ensures
            doc_view(r@) == encode(Self::schema_spec(), self.values()),
    {
        marshal(self)
    }

    /// The record that `doc` holds, or the error of the first field (in schema order)
    /// that it cannot give.
    pub fn from_json(doc: &Document) -> (r: Result<Self, SchemaError>)
        ensures
            match r {
                Ok(x) => decode(Self::schema_spec(), doc_view(doc@)) == Ok::<_, (SchemaErrorKind, Seq<char>)>(x.values()) && x.wf(),
                Err(e) => decode(Self::schema_spec(), doc_view(doc@)) == Err::<Seq<ValueView>, _>(e@),
            },
    {
        unmarshal(doc)
    }
}

} // verus!
