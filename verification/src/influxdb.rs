//! Archival points for the time-series store: a published record's fields
//! with the timestamp converted from wire milliseconds to nanoseconds.

use vstd::prelude::*;
use crate::relay;

verus! {

/// Nanoseconds per millisecond: the factor between the wire timestamp and the
/// store timestamp.
pub const NANOS_PER_MS: i64 = 1_000_000;

/// Largest magnitude of a millisecond timestamp whose nanosecond form still
/// fits a signed 64-bit integer.
pub const MAX_ARCHIVE_MS: i64 = 9_223_372_036_854;

/// One archival point, handed to the store's writer task: the record's
/// channel values (bit patterns), state and level, the source tag, and the
/// timestamp in nanoseconds since the epoch.
#[derive(Clone, Debug)]
pub struct UnifiedSensorData {
    pub no2: u32,
    pub eth: u32,
    pub voc: u32,
    pub co: u32,
    pub com: u32,
    pub ethm: u32,
    pub vocm: u32,
    pub state: i32,
    pub level: i32,
    pub timestamp: i64,
    pub source: String,
}

/// The point carries the record's values unchanged and its timestamp in
/// nanoseconds: the wire milliseconds times 1,000,000.
pub open spec fn point_matches(p: UnifiedSensorData, rec: relay::UnifiedSensorData) -> bool {
    &&& p.no2 == rec.no2
    &&& p.eth == rec.eth
    &&& p.voc == rec.voc
    &&& p.co == rec.co
    &&& p.com == rec.com
    &&& p.ethm == rec.ethm
    &&& p.vocm == rec.vocm
    &&& p.state == rec.state
    &&& p.level == rec.level
    &&& p.timestamp == rec.timestamp * NANOS_PER_MS
    &&& p.source@ == rec.source@
}

/// Converts a published record into its archival point.  The conversion
/// succeeds exactly when the record's millisecond timestamp has a
/// representable nanosecond form; any real clock value is far inside that
/// range.
pub fn archival_point(rec: &relay::UnifiedSensorData) -> (r: Option<UnifiedSensorData>)
    ensures
        r is Some <==> -MAX_ARCHIVE_MS <= rec.timestamp <= MAX_ARCHIVE_MS,
        r matches Some(p) ==> point_matches(p, *rec),
{
    if rec.timestamp >= -MAX_ARCHIVE_MS && rec.timestamp <= MAX_ARCHIVE_MS {
        Some(UnifiedSensorData {
            no2: rec.no2,
            eth: rec.eth,
            voc: rec.voc,
            co: rec.co,
            com: rec.com,
            ethm: rec.ethm,
            vocm: rec.vocm,
            state: rec.state,
            level: rec.level,
            timestamp: rec.timestamp * NANOS_PER_MS,
            source: rec.source.as_str().to_owned(),
        })
    } else {
        None
    }
}

} // verus!
