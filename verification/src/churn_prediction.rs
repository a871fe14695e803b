//! Churn prediction: risk levels and model types.

use vstd::prelude::*;

verus! {

/// Churn risk level, from very low to critical.
#[derive(Clone, Copy, Debug, PartialEq, Eq, PartialOrd, Ord, Structural)]
pub enum ChurnRiskLevel {
    VeryLow,
    Low,
    Medium,
    High,
    Critical,
}

/// The name of a risk level.
pub open spec fn risk_level_name(l: ChurnRiskLevel) -> Seq<char> {
    match l {
        ChurnRiskLevel::VeryLow => "very_low"@,
        ChurnRiskLevel::Low => "low"@,
        ChurnRiskLevel::Medium => "medium"@,
        ChurnRiskLevel::High => "high"@,
        ChurnRiskLevel::Critical => "critical"@,
    }
}

impl ChurnRiskLevel {
    pub fn as_str(&self) -> (s: &'static str)
        ensures
            s@ == risk_level_name(*self),
    {
        match self {
            ChurnRiskLevel::VeryLow => "very_low",
            ChurnRiskLevel::Low => "low",
            ChurnRiskLevel::Medium => "medium",
            ChurnRiskLevel::High => "high",
            ChurnRiskLevel::Critical => "critical",
        }
    }
}

/// Churn prediction model types.
#[derive(Clone, Copy, Debug, PartialEq, Eq, Structural)]
pub enum ChurnModelType {
    LogisticRegression,
    RandomForest,
    GradientBoosting,
}

/// The name of a model type.
pub open spec fn model_type_name(t: ChurnModelType) -> Seq<char> {
    match t {
        ChurnModelType::LogisticRegression => "logistic_regression"@,
        ChurnModelType::RandomForest => "random_forest"@,
        ChurnModelType::GradientBoosting => "gradient_boosting"@,
    }
}

impl ChurnModelType {
    pub fn as_str(&self) -> (s: &'static str)
        ensures
            s@ == model_type_name(*self),
    {
        match self {
            ChurnModelType::LogisticRegression => "logistic_regression",
            ChurnModelType::RandomForest => "random_forest",
            ChurnModelType::GradientBoosting => "gradient_boosting",
        }
    }
}

} // verus!
