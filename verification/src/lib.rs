//! Verified core of a line-oriented sensor relay.
//!
//! The library covers the relay's decision logic: tolerant parsing of
//! instrument data lines, the bounded moving-average windows of the filter
//! engine, construction of published records and archival points, and the
//! command and publish policies of the observer hub.  Channel readings are
//! carried as the bit patterns of their single-precision values; the numeric
//! operations on those values (averaging, sine modulation, token-to-number
//! conversion) are performed by the unverified process around the library,
//! which hands their results back as plain values.

pub mod clock;
pub mod filtering;
pub mod hub;
pub mod influxdb;
pub mod parsing;
pub mod relay;
pub mod session;
