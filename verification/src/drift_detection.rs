//! Drift detection: methods and severity levels.

use vstd::prelude::*;

verus! {

/// Statistical drift detection methods.
#[derive(Clone, Copy, Debug, PartialEq, Eq, Structural)]
pub enum DriftMethod {
    KolmogorovSmirnov,
    KullbackLeibler,
    HellingerDistance,
    ChiSquare,
}

/// Drift severity levels, from none to critical.
#[derive(Clone, Copy, Debug, PartialEq, Eq, PartialOrd, Ord, Structural)]
pub enum DriftSeverity {
    NoDrift,
    Low,
    Medium,
    High,
    Critical,
}

/// The name of a severity.
pub open spec fn severity_name(s: DriftSeverity) -> Seq<char> {
    match s {
        DriftSeverity::NoDrift => "none"@,
        DriftSeverity::Low => "low"@,
        DriftSeverity::Medium => "medium"@,
        DriftSeverity::High => "high"@,
        DriftSeverity::Critical => "critical"@,
    }
}

impl DriftSeverity {
    pub fn as_str(&self) -> (s: &'static str)
        ensures
            s@ == severity_name(*self),
    {
        match self {
            DriftSeverity::NoDrift => "none",
            DriftSeverity::Low => "low",
            DriftSeverity::Medium => "medium",
            DriftSeverity::High => "high",
            DriftSeverity::Critical => "critical",
        }
    }
}

} // verus!
