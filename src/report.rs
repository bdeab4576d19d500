//! How a measured latency is graded for display.
use vstd::prelude::*;

verus! {

/// Latency grades, fastest first.
#[derive(PartialEq, Eq, Structural, Clone, Copy, Debug)]
pub enum LatencyBand {
    /// Under 5 ms.
    Instant,
    /// Under 30 ms.
    Fast,
    /// Under 60 ms.
    Fair,
    /// Under 100 ms.
    Slow,
    /// Under 500 ms.
    Laggy,
    /// 500 ms or more.
    Unplayable,
}

/// The grade of a latency in milliseconds.
pub open spec fn band_of(latency_millis: u64) -> LatencyBand {
    if latency_millis < 5 {
        LatencyBand::Instant
    } else if latency_millis < 30 {
        LatencyBand::Fast
    } else if latency_millis < 60 {
        LatencyBand::Fair
    } else if latency_millis < 100 {
        LatencyBand::Slow
    } else if latency_millis < 500 {
        LatencyBand::Laggy
    } else {
        LatencyBand::Unplayable
    }
}

/// Grades a latency in milliseconds.
pub fn latency_band(latency_millis: u64) -> (r: LatencyBand)
    ensures
        r == band_of(latency_millis),
{
    if latency_millis < 5 {
        LatencyBand::Instant
    } else if latency_millis < 30 {
        LatencyBand::Fast
    } else if latency_millis < 60 {
        LatencyBand::Fair
    } else if latency_millis < 100 {
        LatencyBand::Slow
    } else if latency_millis < 500 {
        LatencyBand::Laggy
    } else {
        LatencyBand::Unplayable
    }
}

} // verus!
