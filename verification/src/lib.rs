//! Threat detection and anomaly scoring engine.
//!
//! The engine ingests structured log events and produces threat
//! classifications and anomaly scores, combining static pattern rules,
//! per-source frequency tracking, and numeric outlier detection.

pub mod api;
pub mod catalog;
pub mod countmap;
pub mod engine;
pub mod dec;
pub mod frequency;
pub mod matcher;
pub mod model;
pub mod net;
pub mod outlier;
pub mod text;
pub mod threat_detection;
pub mod wallet;

use vstd::prelude::*;

verus! {

/// Number of observations from one source above which repeated activity
/// from that source is itself treated as suspicious.
pub const FREQUENCY_THRESHOLD: u64 = 10;

/// True when a per-source observation count is high enough that the
/// source's activity is classified as suspicious on frequency alone.
pub fn threshold_exceeded(count: u64) -> (r: bool)
    ensures
        r == (count > FREQUENCY_THRESHOLD),
{
    count > FREQUENCY_THRESHOLD
}

} // verus!
