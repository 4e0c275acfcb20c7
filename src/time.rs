//! Instants, held as microseconds since the Unix epoch (UTC).
use vstd::prelude::*;

verus! {

/// 0000-01-01T00:00:00Z, the earliest instant with a four-digit year.
pub const MIN_MICROS: i64 = -62167219200000000;

/// 9999-12-31T23:59:59.999999Z, the latest instant with a four-digit year.
pub const MAX_MICROS: i64 = 253402300799999999;

pub open spec fn in_range(m: int) -> bool {
    MIN_MICROS <= m <= MAX_MICROS
}

/// A UTC instant with microsecond precision, within years 0000 to 9999.
#[derive(Debug, Clone, Copy, PartialEq, Eq, Structural)]
pub struct Timestamp {
    pub micros: i64,
}

impl Timestamp {
    pub open spec fn wf(self) -> bool {
        in_range(self.micros as int)
    }

    /// The instant `micros` microseconds after the epoch, if it lies in range.
    pub fn from_micros(micros: i64) -> (r: Option<Timestamp>)
        ensures
            r is Some <==> in_range(micros as int),
            r matches Some(t) ==> t.micros == micros,
    {
        if MIN_MICROS <= micros && micros <= MAX_MICROS {
            Some(Timestamp { micros })
        } else {
            None
        }
    }
}

/// The instant that an RFC 3339 text denotes, in microseconds, as chrono reads it.
pub uninterp spec fn rfc3339_micros(s: Seq<char>) -> Option<i64>;

/// Relies on chrono's `DateTime::parse_from_rfc3339`, then `timestamp_micros` of the
/// parsed instant: `None` when chrono rejects the text.
#[verifier::external_body]
pub(crate) fn parse_rfc3339(s: &str) -> (r: Option<i64>)
    ensures
        r == rfc3339_micros(s@),
{
    match chrono::DateTime::parse_from_rfc3339(s) {
        Ok(d) => Some(d.timestamp_micros()),
        Err(_) => None,
    }
}

} // verus!
