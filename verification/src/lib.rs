//! Verified core of a home-environment measurement pipeline.
//!
//! A sensor reading (temperature, humidity, pressure) is shaped into a
//! structured document, identified by a compact timestamp, and published to a
//! remote datastore.  Numeric quantities are carried as integers in
//! thousandths of a unit, matching the three-decimal rendering of the
//! document; the unverified shell converts the sensor's raw values at the
//! boundary.

pub mod credential;
pub mod digits;
pub mod document;
pub mod instant;
pub mod publish;
pub mod session;

