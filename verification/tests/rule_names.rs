use clusteraudiencekit::behavioral::{AggregateFunction, ComparisonOp, LogicalOp};
use clusteraudiencekit::churn_prediction::{ChurnModelType, ChurnRiskLevel};
use clusteraudiencekit::dashboard::{DriftAlertSummary, TimeRange, Trend};
use clusteraudiencekit::drift_detection::DriftSeverity;
use clusteraudiencekit::lookalike::SimilarityMetric;
use clusteraudiencekit::neural_networks::Activation;

#[test]
fn test_comparison_operators() {
    assert_eq!(ComparisonOp::GreaterThan.to_string(), ">");
    assert_eq!(ComparisonOp::Equal.to_string(), "=");
    assert_eq!(ComparisonOp::In.to_string(), "IN");
}

#[test]
fn test_logical_operators() {
    assert_eq!(LogicalOp::And.to_string(), "AND");
    assert_eq!(LogicalOp::Or.to_string(), "OR");
    assert_eq!(LogicalOp::Not.to_string(), "NOT");
}

#[test]
fn remaining_operator_symbols() {
    assert_eq!(ComparisonOp::LessThan.to_string(), "<");
    assert_eq!(ComparisonOp::GreaterOrEqual.to_string(), ">=");
    assert_eq!(ComparisonOp::LessOrEqual.to_string(), "<=");
    assert_eq!(ComparisonOp::NotEqual.to_string(), "!=");
    assert_eq!(ComparisonOp::Contains.to_string(), "CONTAINS");
    assert_eq!(AggregateFunction::Sum.to_string(), "SUM");
    assert_eq!(AggregateFunction::Average.to_string(), "AVG");
    assert_eq!(AggregateFunction::Count.to_string(), "COUNT");
    assert_eq!(AggregateFunction::Min.to_string(), "MIN");
    assert_eq!(AggregateFunction::Max.to_string(), "MAX");
}

#[test]
fn test_time_range() {
    assert_eq!(TimeRange::Last24Hours.seconds(), 86400);
    assert_eq!(TimeRange::Last7Days.seconds(), 604800);
    assert_eq!(TimeRange::Last30Days.seconds(), 2592000);
}

#[test]
fn long_time_ranges_and_trend_names() {
    assert_eq!(TimeRange::Last90Days.seconds(), 7776000);
    assert_eq!(TimeRange::LastYear.seconds(), 31536000);
    assert_eq!(Trend::Up.as_str(), "up");
    assert_eq!(Trend::Down.as_str(), "down");
    assert_eq!(Trend::Stable.as_str(), "stable");
}

#[test]
fn test_drift_alert_summary() {
    let summary = DriftAlertSummary {
        total_alerts: 5,
        critical_alerts: 1,
        high_alerts: 2,
        features_with_drift: vec!["recency".to_string(), "frequency".to_string()],
    };

    assert_eq!(summary.total_alerts, 5);
    assert_eq!(summary.features_with_drift.len(), 2);
}

#[test]
fn test_similarity_metric_names() {
    assert_eq!(SimilarityMetric::Cosine.as_str(), "cosine");
    assert_eq!(SimilarityMetric::Euclidean.as_str(), "euclidean");
}

#[test]
fn other_metric_and_model_names() {
    assert_eq!(SimilarityMetric::Manhattan.as_str(), "manhattan");
    assert_eq!(SimilarityMetric::Jaccard.as_str(), "jaccard");
    assert_eq!(ChurnRiskLevel::VeryLow.as_str(), "very_low");
    assert_eq!(ChurnRiskLevel::Critical.as_str(), "critical");
    assert_eq!(ChurnModelType::RandomForest.as_str(), "random_forest");
    assert_eq!(DriftSeverity::NoDrift.as_str(), "none");
    assert_eq!(DriftSeverity::High.as_str(), "high");
    assert_eq!(Activation::ReLU.as_str(), "relu");
    assert_eq!(Activation::Sigmoid.as_str(), "sigmoid");
}
