use clusteraudiencekit::cohorts::{CohortId, CohortPeriod};
use clusteraudiencekit::lifecycle::{LifecycleStage, LifecycleTracker};
use clusteraudiencekit::segments::{rfm_segment_label, SegmentClassifier, SegmentType};

#[test]
fn test_retention_actions_variety() {
    let actions_prospect = LifecycleTracker::retention_actions(LifecycleStage::Prospect);
    let actions_mature = LifecycleTracker::retention_actions(LifecycleStage::Mature);
    let actions_at_risk = LifecycleTracker::retention_actions(LifecycleStage::AtRisk);

    assert!(!actions_prospect.is_empty());
    assert!(!actions_mature.is_empty());
    assert!(!actions_at_risk.is_empty());
    assert_ne!(actions_prospect, actions_mature);
}

#[test]
fn test_lifecycle_stage_index() {
    assert_eq!(LifecycleStage::Prospect.to_index(), 0);
    assert_eq!(LifecycleStage::Onboarding.to_index(), 1);
    assert_eq!(LifecycleStage::Churned.to_index(), 6);
}

#[test]
fn stage_rule_cases() {
    assert_eq!(LifecycleTracker::stage_for(10, 0, 0), LifecycleStage::Prospect);
    assert_eq!(LifecycleTracker::stage_for(30, 0, 0), LifecycleStage::Dormant);
    assert_eq!(LifecycleTracker::stage_for(29, 3, 200), LifecycleStage::Onboarding);
    assert_eq!(LifecycleTracker::stage_for(400, 3, 181), LifecycleStage::Dormant);
    assert_eq!(LifecycleTracker::stage_for(400, 3, 180), LifecycleStage::AtRisk);
    assert_eq!(LifecycleTracker::stage_for(400, 3, 91), LifecycleStage::AtRisk);
    assert_eq!(LifecycleTracker::stage_for(731, 3, 90), LifecycleStage::Mature);
    assert_eq!(LifecycleTracker::stage_for(730, 3, 90), LifecycleStage::Active);
    assert_eq!(LifecycleTracker::stage_for(100, 1, 5), LifecycleStage::Active);
}

#[test]
fn stage_names_and_actions() {
    assert_eq!(LifecycleStage::AtRisk.as_str(), "At Risk");
    assert_eq!(LifecycleStage::Mature.to_index(), 3);
    assert_eq!(
        LifecycleTracker::retention_actions(LifecycleStage::Churned),
        vec!["Final win-back attempt", "Exit survey", "Sunset workflow"]
    );
    assert_eq!(LifecycleTracker::retention_actions(LifecycleStage::Dormant)[0], "Reactivation campaign");
}

#[test]
fn test_segment_type_display() {
    assert_eq!(SegmentType::Champions.as_str(), "Champions");
    assert_eq!(SegmentType::LoyalCustomers.as_str(), "Loyal Customers");
}

#[test]
fn test_recommended_action() {
    let action = SegmentClassifier::recommended_action(&SegmentType::Champions);
    assert!(!action.is_empty());
}

#[test]
fn segment_rule_cases() {
    assert_eq!(SegmentClassifier::segment_for(5, 5, 5), SegmentType::Champions);
    assert_eq!(SegmentClassifier::segment_for(2, 2, 5), SegmentType::AtRisk);
    assert_eq!(SegmentClassifier::segment_for(5, 3, 2), SegmentType::NewCustomers);
    assert_eq!(SegmentClassifier::segment_for(1, 1, 1), SegmentType::Lost);
    assert_eq!(SegmentClassifier::segment_for(5, 1, 5), SegmentType::VIP);
    assert_eq!(SegmentClassifier::segment_for(4, 4, 4), SegmentType::LoyalCustomers);
    assert_eq!(SegmentClassifier::segment_for(3, 5, 5), SegmentType::CannotLose);
    assert_eq!(SegmentClassifier::segment_for(2, 3, 3), SegmentType::AboutToSleep);
    assert_eq!(SegmentClassifier::segment_for(5, 2, 4), SegmentType::Promising);
    assert_eq!(SegmentClassifier::segment_for(1, 4, 5), SegmentType::AtRiskSleeping);
    assert_eq!(SegmentClassifier::segment_for(1, 3, 3), SegmentType::Hibernating);
    assert_eq!(SegmentClassifier::segment_for(3, 3, 3), SegmentType::NeedAttention);
    assert_eq!(SegmentClassifier::recommended_action(&SegmentType::Lost), "Sunset, or aggressive win-back");
    assert_eq!(SegmentType::CannotLose.as_str(), "Cannot Lose Them");
}

#[test]
fn cohort_ids_and_periods() {
    assert_eq!(CohortPeriod::Weekly.days(), 7);
    assert_eq!(CohortPeriod::Yearly.days(), 365);
    assert_eq!(CohortId::new(CohortPeriod::Monthly, 0).0, "cohort_0");
    // 86400 * 60 seconds = 60 days = period 2 of 30 days
    assert_eq!(CohortId::new(CohortPeriod::Monthly, 86400 * 60).0, "cohort_2");
    assert_eq!(CohortId::new(CohortPeriod::Weekly, 86400 * 13 + 5).0, "cohort_1");
    // before the epoch the division rounds toward zero
    assert_eq!(CohortId::new(CohortPeriod::Weekly, -86400 * 15).0, "cohort_-2");
    assert_eq!(CohortId::new(CohortPeriod::Weekly, -86400 * 6).0, "cohort_0");
    assert_eq!(CohortId::new(CohortPeriod::Quarterly, i64::MIN).0, format!("cohort_{}", (i64::MIN / 86400) / 90));
}

#[test]
fn journey_stage_changes() {
    assert_eq!(LifecycleTracker::stage_after_event("signup", None), Some(LifecycleStage::Prospect));
    assert_eq!(LifecycleTracker::stage_after_event("login", None), None);
    assert_eq!(
        LifecycleTracker::stage_after_event("login", Some(LifecycleStage::Active)),
        Some(LifecycleStage::Active)
    );
    let day = 86400i64;
    let steps = vec![
        (0, "login".to_string()),
        (day, "signup".to_string()),
        (3 * day + 5, "first_purchase".to_string()),
        (4 * day, "login".to_string()),
        (10 * day, "purchase".to_string()),
        (11 * day, "purchase".to_string()),
        (50 * day, "inactivity".to_string()),
        (60 * day - 1, "churn".to_string()),
    ];
    let t = LifecycleTracker::journey_transitions(&steps);
    assert_eq!(
        t,
        vec![
            (LifecycleStage::Prospect, LifecycleStage::Onboarding, 2),
            (LifecycleStage::Onboarding, LifecycleStage::Active, 6),
            (LifecycleStage::Active, LifecycleStage::AtRisk, 39),
            (LifecycleStage::AtRisk, LifecycleStage::Churned, 9),
        ]
    );
    assert!(LifecycleTracker::journey_transitions(&[]).is_empty());
    // a gap running backwards rounds toward zero
    let back = vec![(10 * day, "purchase".to_string()), (day / 2, "churn".to_string())];
    assert_eq!(
        LifecycleTracker::journey_transitions(&back),
        vec![(LifecycleStage::Active, LifecycleStage::Churned, -9)]
    );
}

#[test]
fn transitions_tallied_per_pair_in_first_occurrence_order() {
    let (p, o, a, r) = (
        LifecycleStage::Prospect,
        LifecycleStage::Onboarding,
        LifecycleStage::Active,
        LifecycleStage::AtRisk,
    );
    let changes = vec![(p, o, 2), (o, a, 6), (p, o, 4), (a, r, -1), (p, o, 0)];
    let t = LifecycleTracker::tally_transitions(&changes);
    assert_eq!(
        t,
        vec![(p, o, 3, 6), (o, a, 1, 6), (a, r, 1, -1)]
    );
    assert!(LifecycleTracker::tally_transitions(&[]).is_empty());
}

#[test]
fn rfm_labels_split_each_score_at_four() {
    assert_eq!(rfm_segment_label(5, 5, 5), "Champions");
    assert_eq!(rfm_segment_label(4, 4, 3), "Loyal Customers");
    assert_eq!(rfm_segment_label(4, 1, 4), "Potential Loyalists");
    assert_eq!(rfm_segment_label(5, 3, 3), "At Risk");
    assert_eq!(rfm_segment_label(3, 4, 4), "VIP");
    assert_eq!(rfm_segment_label(1, 5, 2), "Need Attention");
    assert_eq!(rfm_segment_label(3, 3, 4), "Promising");
    assert_eq!(rfm_segment_label(3, 3, 3), "Lost");
    assert_eq!(rfm_segment_label(1, 1, 1), "Lost");
}
