use clusteraudiencekit::privacy::{DPMechanism, KAnonymity, PrivacyAuditResult, QuasiIdentifier};
use clusteraudiencekit::string_map::StringMap;

fn row(pairs: &[(&str, &str)]) -> StringMap {
    let mut m = StringMap::new();
    for (k, v) in pairs {
        m.insert(k.to_string(), v.to_string());
    }
    m
}

#[test]
fn test_suppress_to_k_anonymous() {
    let row1 = row(&[("id", "1"), ("age", "25")]);
    let row2 = row(&[("id", "2"), ("age", "30")]);

    let data = vec![row1, row2];
    let quasi_ids = vec!["age".to_string()];

    let result = KAnonymity::suppress_to_k_anonymous(&data, &quasi_ids, 2).unwrap();

    assert_eq!(result.len(), 0); // Each value appears once, can't achieve k=2
}

#[test]
fn test_privacy_audit() {
    let audit = PrivacyAuditResult::new();
    assert!(audit.compliant);
    assert!(audit.k_anonymous);
}

#[test]
fn test_quasi_identifier() {
    let qi = QuasiIdentifier::new("age_group".to_string())
        .add_value("20-30".to_string())
        .add_value("30-40".to_string());

    assert_eq!(qi.name, "age_group");
    assert_eq!(qi.values.len(), 2);
}

#[test]
fn test_differential_privacy_mechanism() {
    assert_eq!(DPMechanism::Laplace.as_str(), "laplace");
    assert_eq!(DPMechanism::Gaussian.as_str(), "gaussian");
}

#[test]
fn exponential_mechanism_name() {
    assert_eq!(DPMechanism::Exponential.as_str(), "exponential");
}

#[test]
fn suppression_keeps_large_groups_in_order() {
    let data = vec![
        row(&[("id", "1"), ("age", "20-30"), ("zip", "100")]),
        row(&[("id", "2"), ("age", "30-40"), ("zip", "100")]),
        row(&[("id", "3"), ("age", "20-30"), ("zip", "100")]),
        row(&[("id", "4"), ("age", "20-30"), ("zip", "200")]),
        row(&[("id", "5"), ("age", "30-40"), ("zip", "100")]),
    ];
    let qis = vec!["age".to_string(), "zip".to_string()];
    let kept = KAnonymity::suppress_to_k_anonymous(&data, &qis, 2).unwrap();
    let ids: Vec<String> = kept.iter().map(|r| r.get("id").unwrap()).collect();
    assert_eq!(ids, vec!["1", "2", "3", "5"]);
    assert_eq!(KAnonymity::count_suppressed(&data, &qis, 2), 1);
    assert_eq!(KAnonymity::count_suppressed(&data, &qis, 3), 5);
    assert_eq!(KAnonymity::suppress_to_k_anonymous(&data, &qis, 3).unwrap().len(), 0);
}

#[test]
fn missing_quasi_identifier_counts_as_empty_value() {
    let data = vec![
        row(&[("id", "1")]),
        row(&[("id", "2"), ("age", "")]),
        row(&[("id", "3"), ("age", "40")]),
    ];
    let qis = vec!["age".to_string()];
    let kept = KAnonymity::suppress_to_k_anonymous(&data, &qis, 2).unwrap();
    assert_eq!(kept.len(), 2);
    assert_eq!(kept[0].get("id"), Some("1".to_string()));
    assert_eq!(kept[1].get("id"), Some("2".to_string()));
}

#[test]
fn k_of_zero_or_one_keeps_every_row_and_empty_input_is_empty() {
    let data = vec![row(&[("age", "1")]), row(&[("age", "2")])];
    let qis = vec!["age".to_string()];
    assert_eq!(KAnonymity::suppress_to_k_anonymous(&data, &qis, 0).unwrap().len(), 2);
    assert_eq!(KAnonymity::suppress_to_k_anonymous(&data, &qis, 1).unwrap().len(), 2);
    assert_eq!(KAnonymity::count_suppressed(&data, &qis, 1), 0);
    let empty: Vec<StringMap> = Vec::new();
    assert!(KAnonymity::suppress_to_k_anonymous(&empty, &qis, 2).unwrap().is_empty());
}

#[test]
fn audit_starts_without_issues() {
    let audit = PrivacyAuditResult::new();
    assert!(audit.dp_budget_sufficient);
    assert!(audit.issues.is_empty());
    assert!(audit.recommendations.is_empty());
}
