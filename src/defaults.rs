//! Values that documents give fields they leave out.
use vstd::prelude::*;
use crate::config::{RetentionConfig, SyncPriorityConfig};
use crate::note::Note;
use crate::record::Fields;
use crate::codec::lemma_decode_field;
use crate::schema::{decode, lookup, SchemaErrorKind};
use crate::types::{CompressionAlgorithm, NotePriority};
use crate::value::ValueView;

verus! {

/// Rows a sync batch holds when a policy leaves the size out.
pub fn default_batch_size() -> (r: i32)
    ensures
        r == 1000,
{
    1000
}

/// Attempts a sync makes when a policy leaves the count out.
pub fn default_retry_count() -> (r: i32)
    ensures
        r == 3,
{
    3
}

/// Priority of a note that leaves it out.
pub fn default_note_priority() -> (r: NotePriority)
    ensures
        r == NotePriority::Medium,
{
    NotePriority::Medium
}

impl Default for CompressionAlgorithm {
    fn default() -> (r: Self)
        ensures
            r == CompressionAlgorithm::Uncompressed,
    {
        CompressionAlgorithm::Uncompressed
    }
}

/// A note read from a document that leaves out `priority` has priority `Medium`.
pub proof fn law_note_priority_default(doc: Seq<(Seq<char>, ValueView)>, n: Note)
    requires
        lookup(doc, "priority"@) is None,
        decode(Note::schema_spec(), doc) == Ok::<_, (SchemaErrorKind, Seq<char>)>(n.values()),
    ensures
        n.priority == NotePriority::Medium,
{
    lemma_decode_field(Note::schema_spec(), doc, 4);
    n.priority.lemma_wire_round_trip();
    reveal_strlit("LOW");
    reveal_strlit("MEDIUM");
    assert("LOW"@.len() == 3 && "MEDIUM"@.len() == 6);
}

/// A retention policy read from a document that leaves out `compression_algorithm`
/// compresses with nothing.
pub proof fn law_compression_default(doc: Seq<(Seq<char>, ValueView)>, c: RetentionConfig)
    requires
        lookup(doc, "compression_algorithm"@) is None,
        decode(RetentionConfig::schema_spec(), doc) == Ok::<_, (SchemaErrorKind, Seq<char>)>(c.values()),
    ensures
        c.compression_algorithm == CompressionAlgorithm::Uncompressed,
{
    lemma_decode_field(RetentionConfig::schema_spec(), doc, 2);
    c.compression_algorithm.lemma_wire_round_trip();
}

/// A sync policy read from a document that leaves out `batch_size` has batches of
/// 1000 rows.
pub proof fn law_batch_size_default(doc: Seq<(Seq<char>, ValueView)>, c: SyncPriorityConfig)
    requires
        lookup(doc, "batch_size"@) is None,
        decode(SyncPriorityConfig::schema_spec(), doc) == Ok::<_, (SchemaErrorKind, Seq<char>)>(c.values()),
    ensures
        c.batch_size == 1000,
{
    lemma_decode_field(SyncPriorityConfig::schema_spec(), doc, 2);
}

/// A sync policy read from a document that leaves out `retry_count` retries 3 times.
pub proof fn law_retry_count_default(doc: Seq<(Seq<char>, ValueView)>, c: SyncPriorityConfig)
    requires
        lookup(doc, "retry_count"@) is None,
        decode(SyncPriorityConfig::schema_spec(), doc) == Ok::<_, (SchemaErrorKind, Seq<char>)>(c.values()),
    ensures
        c.retry_count == 3,
{
    lemma_decode_field(SyncPriorityConfig::schema_spec(), doc, 4);
}

} // verus!
