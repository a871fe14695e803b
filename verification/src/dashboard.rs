//! Dashboard: time ranges, trend directions and alert/health summaries.

use vstd::prelude::*;

verus! {

/// Dashboard time range.
#[derive(Clone, Copy, Debug, PartialEq, Eq, Structural)]
pub enum TimeRange {
    Last24Hours,
    Last7Days,
    Last30Days,
    Last90Days,
    LastYear,
}

/// Length of a time range in seconds.
pub open spec fn range_seconds(t: TimeRange) -> i64 {
    match t {
        TimeRange::Last24Hours => 86400,
        TimeRange::Last7Days => 604800,
        TimeRange::Last30Days => 2592000,
        TimeRange::Last90Days => 7776000,
        TimeRange::LastYear => 31536000,
    }
}

impl TimeRange {
    pub fn seconds(&self) -> (s: i64)
        ensures
            s == range_seconds(*self),
    {
        match self {
            TimeRange::Last24Hours => 86400,
            TimeRange::Last7Days => 604800,
            TimeRange::Last30Days => 2592000,
            TimeRange::Last90Days => 7776000,
            TimeRange::LastYear => 31536000,
        }
    }
}

/// Trend direction.
#[derive(Clone, Copy, Debug, PartialEq, Eq, Structural)]
pub enum Trend {
    Up,
    Down,
    Stable,
}

/// The name of a trend.
pub open spec fn trend_name(t: Trend) -> Seq<char> {
    match t {
        Trend::Up => "up"@,
        Trend::Down => "down"@,
        Trend::Stable => "stable"@,
    }
}

impl Trend {
    pub fn as_str(&self) -> (s: &'static str)
        ensures
            s@ == trend_name(*self),
    {
        match self {
            Trend::Up => "up",
            Trend::Down => "down",
            Trend::Stable => "stable",
        }
    }
}

/// Drift alert summary.
#[derive(Clone, Debug)]
pub struct DriftAlertSummary {
    pub total_alerts: usize,
    pub critical_alerts: usize,
    pub high_alerts: usize,
    pub features_with_drift: Vec<String>,
}

/// Segment health summary.
#[derive(Clone, Copy, Debug)]
pub struct SegmentHealthSummary {
    pub healthy_segments: usize,
    pub at_risk_segments: usize,
    pub declining_segments: usize,
    pub growing_segments: usize,
}

} // verus!
