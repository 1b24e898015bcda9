//! Published records: the wire form of one filtered reading, carrying the
//! readable state name, a millisecond timestamp and the source tag.

use vstd::prelude::*;
use vstd::string::StringExecFns;
use crate::clock::{now_millis, MAX_CLOCK_MS};
use crate::filtering::UnifiedSensorFiltered;

verus! {

/// The readable name of an instrument state: states 0 through 6 name the run
/// phases, and every other state reads UNKNOWN.
pub open spec fn spec_state_name(state: int) -> Seq<char> {
    if state == 0 {
        "IDLE"@
    } else if state == 1 {
        "PRE_COND"@
    } else if state == 2 {
        "RAMP_UP"@
    } else if state == 3 {
        "HOLD"@
    } else if state == 4 {
        "PURGE"@
    } else if state == 5 {
        "RECOVERY"@
    } else if state == 6 {
        "DONE"@
    } else {
        "UNKNOWN"@
    }
}

/// Maps a state integer to its readable name.
pub fn state_to_name(state: i32) -> (r: String)
    ensures
        r@ == spec_state_name(state as int),
{
    let name: &str = match state {
        0 => "IDLE",
        1 => "PRE_COND",
        2 => "RAMP_UP",
        3 => "HOLD",
        4 => "PURGE",
        5 => "RECOVERY",
        6 => "DONE",
        _ => "UNKNOWN",
    };
    String::from_str(name)
}

/// Law: the state-name table is total: every state outside 0 through 6,
/// negative states included, maps to UNKNOWN.
pub proof fn lemma_state_name_total(state: int)
    ensures
        !(0 <= state <= 6) ==> spec_state_name(state) == "UNKNOWN"@,
{
}

/// One published record, immutable once constructed: the filtered channel
/// values (bit patterns), state with its readable name, level, the wire
/// timestamp in milliseconds, and the source tag.
#[derive(Clone, Debug)]
pub struct UnifiedSensorData {
    pub no2: u32,
    pub eth: u32,
    pub voc: u32,
    pub co: u32,
    pub com: u32,
    pub ethm: u32,
    pub vocm: u32,
    pub state: i32,
    pub state_name: String,
    pub level: i32,
    pub timestamp: i64,
    pub source: String,
}

/// The record carries the filtered reading unchanged, the state name derived
/// from its state, the given timestamp, and the instrument source tag.
pub open spec fn record_matches(r: UnifiedSensorData, f: UnifiedSensorFiltered, now_ms: int) -> bool {
    &&& r.no2 == f.no2
    &&& r.eth == f.eth
    &&& r.voc == f.voc
    &&& r.co == f.co
    &&& r.com == f.com
    &&& r.ethm == f.ethm
    &&& r.vocm == f.vocm
    &&& r.state == f.state
    &&& r.state_name@ == spec_state_name(f.state as int)
    &&& r.level == f.level
    &&& r.timestamp == now_ms
    &&& r.source@ == "arduino"@
}

/// Builds the published record for one filtered reading at the given wire
/// time.
pub fn make_record(f: &UnifiedSensorFiltered, now_ms: i64) -> (r: UnifiedSensorData)
    ensures
        record_matches(r, *f, now_ms as int),
{
    UnifiedSensorData {
        no2: f.no2,
        eth: f.eth,
        voc: f.voc,
        co: f.co,
        com: f.com,
        ethm: f.ethm,
        vocm: f.vocm,
        state: f.state,
        state_name: state_to_name(f.state),
        level: f.level,
        timestamp: now_ms,
        source: String::from_str("arduino"),
    }
}

/// Builds the published record stamped with the wire time of this call.
pub fn make_record_now(f: &UnifiedSensorFiltered) -> (r: UnifiedSensorData)
    ensures
        exists|ts: int|
            -MAX_CLOCK_MS <= ts <= MAX_CLOCK_MS && #[trigger] record_matches(r, *f, ts),
{
    let now = now_millis();
    make_record(f, now)
}

} // verus!
