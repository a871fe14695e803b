use clusteraudiencekit::b2b_governance::{
    AccessController, AuditTracker, ChangeTracker, Genealogist, HierarchyBuilder, LineageTracker,
    OwnershipManager, PolicyEnforcer, ProvenanceTracker,
};
use clusteraudiencekit::error::KitError;
use clusteraudiencekit::b2b_segmentation::{group_by_key, segment_key, B2BSegmentation, CompanySize};

#[test]
fn test_segment_genealogy() {
    let versions = vec![
        (1, "2026-01-01".to_string(), "alice".to_string(), None, "created".to_string(), 1000),
        (2, "2026-02-01".to_string(), "bob".to_string(), Some("seg_old".to_string()), "split".to_string(), 500),
    ];
    let genealogy = Genealogist::track_genealogy("seg1", &versions).unwrap();
    assert_eq!(genealogy.current_version, 2);
}

#[test]
fn test_access_control() {
    let grants = vec![("user1".to_string(), "segment".to_string(), "read".to_string())];
    let acl = AccessController::manage_access("seg1", &grants).unwrap();
    assert_eq!(acl.grants.len(), 1);
}

#[test]
fn test_classify_company_size() {
    assert_eq!(B2BSegmentation::classify_company_size(5), CompanySize::Micro);
    assert_eq!(B2BSegmentation::classify_company_size(25), CompanySize::Small);
    assert_eq!(B2BSegmentation::classify_company_size(200), CompanySize::MidMarket);
    assert_eq!(B2BSegmentation::classify_company_size(2000), CompanySize::Enterprise);
}

#[test]
fn test_company_size_classification() {
    assert_eq!(CompanySize::Micro.as_str(), "micro");
    assert_eq!(CompanySize::Enterprise.as_str(), "enterprise");
}

#[test]
fn company_size_boundaries() {
    assert_eq!(B2BSegmentation::classify_company_size(0), CompanySize::Micro);
    assert_eq!(B2BSegmentation::classify_company_size(10), CompanySize::Micro);
    assert_eq!(B2BSegmentation::classify_company_size(11), CompanySize::Small);
    assert_eq!(B2BSegmentation::classify_company_size(50), CompanySize::Small);
    assert_eq!(B2BSegmentation::classify_company_size(51), CompanySize::MidMarket);
    assert_eq!(B2BSegmentation::classify_company_size(500), CompanySize::MidMarket);
    assert_eq!(B2BSegmentation::classify_company_size(501), CompanySize::Enterprise);
    assert_eq!(CompanySize::Small.as_str(), "small");
    assert_eq!(CompanySize::MidMarket.as_str(), "mid_market");
}

#[test]
fn genealogy_counts_parents_splits_and_merges() {
    let versions = vec![
        (3, "d1".to_string(), "a".to_string(), Some("p".to_string()), "merge of two".to_string(), 10),
        (4, "d2".to_string(), "b".to_string(), None, "resplit later".to_string(), 20),
        (7, "d3".to_string(), "c".to_string(), Some("q".to_string()), "split and merge".to_string(), 30),
        (9, "d4".to_string(), "d".to_string(), None, "Split".to_string(), 40),
    ];
    let g = Genealogist::track_genealogy("s", &versions).unwrap();
    assert_eq!(g.segment_id, "s");
    assert_eq!(g.current_version, 9);
    assert_eq!(g.versions.len(), 4);
    assert_eq!(g.versions[2].created_by, "c");
    assert_eq!(g.versions[0].parent_segment_id, Some("p".to_string()));
    assert_eq!(g.versions[3].member_count, 40);
    assert_eq!(g.ancestor_count, 2);
    assert_eq!(g.split_events, 2);
    assert_eq!(g.merge_events, 2);
}

#[test]
fn genealogy_without_versions_starts_at_one() {
    let g = Genealogist::track_genealogy("s", &[]).unwrap();
    assert_eq!(g.current_version, 1);
    assert!(g.versions.is_empty());
    assert_eq!(g.ancestor_count, 0);
}

#[test]
fn access_levels_by_grant_count() {
    let none = AccessController::manage_access("s", &[]).unwrap();
    assert_eq!(none.access_level, "private");
    assert!(!none.public_access);
    let mk = |n: usize| -> Vec<(String, String, String)> {
        (0..n).map(|i| (format!("u{}", i), "segment".to_string(), "read".to_string())).collect()
    };
    let five = AccessController::manage_access("s", &mk(5)).unwrap();
    assert_eq!(five.access_level, "restricted");
    let six = AccessController::manage_access("s", &mk(6)).unwrap();
    assert_eq!(six.access_level, "shared");
    let g = &six.grants[3];
    assert_eq!(g.user_id, "u3");
    assert_eq!(g.resource_id, "s");
    assert_eq!(g.permission, "read");
    assert_eq!(g.granted_date, "2026-07-16");
    assert_eq!(g.expires_date, None);
}

#[test]
fn test_account_hierarchy() {
    let companies = vec![
        ("corp1".to_string(), "Acme Corp".to_string(), None),
        ("sub1".to_string(), "Acme USA".to_string(), Some("corp1".to_string())),
    ];
    let hierarchy = HierarchyBuilder::build_hierarchy(&companies).unwrap();
    assert_eq!(hierarchy.total_nodes, 2);
}

#[test]
fn test_hierarchy_subsidiaries() {
    let companies = vec![
        ("parent".to_string(), "Parent Corp".to_string(), None),
        ("child1".to_string(), "Child 1".to_string(), Some("parent".to_string())),
        ("child2".to_string(), "Child 2".to_string(), Some("parent".to_string())),
    ];
    let hierarchy = HierarchyBuilder::build_hierarchy(&companies).unwrap();
    assert!(hierarchy.subsidiaries_count >= 2);
}

#[test]
fn hierarchy_links_children_to_first_parent_with_that_id() {
    let companies = vec![
        ("a".to_string(), "A".to_string(), None),
        ("b".to_string(), "B".to_string(), Some("a".to_string())),
        ("c".to_string(), "C".to_string(), Some("b".to_string())),
        ("d".to_string(), "D".to_string(), Some("a".to_string())),
        ("e".to_string(), "E".to_string(), Some("nowhere".to_string())),
        ("a".to_string(), "A again".to_string(), None),
    ];
    let h = HierarchyBuilder::build_hierarchy(&companies).unwrap();
    assert_eq!(h.root_company, "a");
    assert_eq!(h.total_nodes, 6);
    assert_eq!(h.subsidiaries_count, 5);
    assert_eq!(h.max_depth, 2);
    assert_eq!(h.total_employees, 0);
    let s = &h.hierarchy_structure;
    assert_eq!(s[0].subsidiaries, vec!["b".to_string(), "d".to_string()]);
    assert_eq!(s[1].subsidiaries, vec!["c".to_string()]);
    assert!(s[4].subsidiaries.is_empty());
    assert!(s[5].subsidiaries.is_empty());
    assert_eq!(s[4].parent_id, Some("nowhere".to_string()));
    assert_eq!(s[2].company_name, "C");
    assert_eq!(s[3].industry, "unknown");
    assert_eq!(s[3].location, "unknown");
}

#[test]
fn flat_hierarchy_has_depth_one_and_empty_is_refused() {
    let companies = vec![("x".to_string(), "X".to_string(), None)];
    let h = HierarchyBuilder::build_hierarchy(&companies).unwrap();
    assert_eq!(h.max_depth, 1);
    assert_eq!(h.subsidiaries_count, 0);
    match HierarchyBuilder::build_hierarchy(&[]) {
        Err(KitError::DataValidation(m)) => assert_eq!(m, "No companies provided"),
        _ => panic!("an empty list must be refused"),
    }
}

#[test]
fn test_data_lineage() {
    let sources = vec!["raw_db".to_string()];
    let transforms = vec![
        ("raw_db".to_string(), "cleaned".to_string(), "deduplicate".to_string()),
        ("cleaned".to_string(), "final".to_string(), "aggregate".to_string()),
    ];
    let lineage = LineageTracker::track_lineage("ds1", &sources, &transforms).unwrap();
    assert_eq!(lineage.transformation_steps, 2);
}

#[test]
fn lineage_edges_follow_the_steps() {
    let sources = vec!["crm".to_string(), "web".to_string()];
    let transforms = vec![("crm".to_string(), "joined".to_string(), "join".to_string())];
    let l = LineageTracker::track_lineage("ds", &sources, &transforms).unwrap();
    assert_eq!(l.dataset_id, "ds");
    assert_eq!(l.source_systems, sources);
    assert_eq!(l.lineage_edges.len(), 1);
    assert_eq!(l.lineage_edges[0].target, "joined");
    assert_eq!(l.lineage_edges[0].transformation, "join");
    assert_eq!(l.lineage_edges[0].timestamp, "2026-07-16");
    assert_eq!(l.last_updated, "2026-07-16");
}

#[test]
fn test_ownership_assignment() {
    let primary = ("o1".to_string(), "John".to_string(), "Manager".to_string(), "john@company.com".to_string());
    let secondary = vec![];
    let ownership = OwnershipManager::assign_ownership("seg1", primary, &secondary).unwrap();
    assert_eq!(ownership.primary_owner.owner_id, "o1");
}

#[test]
fn owners_get_their_departments() {
    let primary = ("o1".to_string(), "Ann".to_string(), "Lead".to_string(), "ann@x.com".to_string());
    let secondary = vec![
        ("o2".to_string(), "Bo".to_string(), "Analyst".to_string(), "bo@x.com".to_string()),
        ("o3".to_string(), "Cy".to_string(), "Analyst".to_string(), "cy@x.com".to_string()),
    ];
    let o = OwnershipManager::assign_ownership("s", primary, &secondary).unwrap();
    assert_eq!(o.primary_owner.department, "Marketing");
    assert_eq!(o.primary_owner.contact_email, "ann@x.com");
    assert_eq!(o.secondary_owners.len(), 2);
    assert_eq!(o.secondary_owners[1].owner_name, "Cy");
    assert_eq!(o.secondary_owners[0].department, "Analytics");
    assert_eq!(o.assignment_date, "2026-07-16");
}

#[test]
fn test_audit_trail() {
    let events = vec![
        ("2026-07-01".to_string(), "create".to_string(), "alice".to_string(), "initial".to_string(), "new_segment".to_string()),
        ("2026-07-02".to_string(), "modify".to_string(), "bob".to_string(), "rules updated".to_string(), "members changed".to_string()),
    ];
    let trail = AuditTracker::track_decision("seg1", &events).unwrap();
    assert_eq!(trail.total_changes, 2);
}

#[test]
fn audit_trail_numbers_events_and_keeps_last_timestamp() {
    let events: Vec<(String, String, String, String, String)> = (0..12)
        .map(|i| (format!("t{}", i), "a".to_string(), "u".to_string(), "d".to_string(), "i".to_string()))
        .collect();
    let t = AuditTracker::track_decision("seg", &events).unwrap();
    assert_eq!(t.events[0].event_id, "evt_0");
    assert_eq!(t.events[11].event_id, "evt_11");
    assert_eq!(t.events[5].segment_id, "seg");
    assert_eq!(t.last_modified, "t11");
    let empty = AuditTracker::track_decision("seg", &[]).unwrap();
    assert_eq!(empty.last_modified, "");
    assert_eq!(empty.total_changes, 0);
}

#[test]
fn test_change_tracking() {
    let changes = vec![
        ("rule_update".to_string(), "2026-07-01".to_string(), "alice".to_string(), "old_rule".to_string(), "new_rule".to_string(), 50),
    ];
    let changelog = ChangeTracker::track_changes("seg1", &changes).unwrap();
    assert_eq!(changelog.total_modifications, 1);
}

#[test]
fn change_log_ids_and_last_change() {
    let changes = vec![
        ("a".to_string(), "t1".to_string(), "x".to_string(), "b1".to_string(), "a1".to_string(), 5),
        ("b".to_string(), "t2".to_string(), "y".to_string(), "b2".to_string(), "a2".to_string(), 7),
    ];
    let l = ChangeTracker::track_changes("s", &changes).unwrap();
    assert_eq!(l.changes[1].change_id, "chg_1");
    assert_eq!(l.changes[1].affected_members, 7);
    assert_eq!(l.changes[0].before_state, "b1");
    assert_eq!(l.last_change, "t2");
    assert_eq!(ChangeTracker::track_changes("s", &[]).unwrap().last_change, "");
}

#[test]
fn provenance_and_policy_records() {
    let sources = vec![("crm".to_string(), "2026-07-16".to_string())];
    let transforms = vec!["normalize".to_string()];
    let p = ProvenanceTracker::track_feature_provenance("feature1", &sources, &transforms).unwrap();
    assert_eq!(p.feature_name, "feature1");
    assert_eq!(p.source_systems[0].validation_status, "valid");
    assert_eq!(p.transformations_applied, transforms);
    assert_eq!(p.data_freshness_days, 1);
    let rules = vec!["min_size > 100".to_string()];
    let policy = PolicyEnforcer::define_policy("p1", "Size Policy", &rules, "strict").unwrap();
    assert_eq!(policy.policy_name, "Size Policy");
    assert_eq!(policy.rules, rules);
    assert_eq!(policy.enforcement_level, "strict");
    assert_eq!(policy.violations, 0);
}

#[test]
fn accounts_grouped_by_key_in_first_occurrence_order() {
    let keys: Vec<String> = ["b", "a", "b", "c", "a", "b"].iter().map(|s| s.to_string()).collect();
    let g = group_by_key(&keys);
    assert_eq!(
        g,
        vec![
            ("b".to_string(), vec![0, 2, 5]),
            ("a".to_string(), vec![1, 4]),
            ("c".to_string(), vec![3]),
        ]
    );
    assert!(group_by_key(&[]).is_empty());
    assert_eq!(segment_key(CompanySize::MidMarket, "SaaS"), "mid_market-SaaS");
    assert_eq!(segment_key(CompanySize::Micro, ""), "micro-");
}

#[test]
fn each_group_size_is_the_number_of_its_keys() {
    let keys: Vec<String> = ["x", "y", "x", "x", "z", "y"].iter().map(|k| k.to_string()).collect();
    for (key, members) in group_by_key(&keys) {
        assert_eq!(members.len(), keys.iter().filter(|k| **k == key).count());
    }
    let sizes: Vec<usize> = group_by_key(&keys).iter().map(|(_, m)| m.len()).collect();
    assert_eq!(sizes, vec![3, 2, 1]);
}
