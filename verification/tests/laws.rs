use clusteraudiencekit::activation::{
    ActivationEngine, ActivationEvent, ActivationMessage, CustomerRecord, Platform, PlatformCredential,
    WebhookTrigger,
};
use clusteraudiencekit::clock::timestamp_of;
use clusteraudiencekit::platform_adapters::SalesforceAdapter;
use clusteraudiencekit::activation_orchestrator::{SegmentActivationManager, WebhookManager};
use clusteraudiencekit::b2b_segmentation::{B2BSegmentation, CompanySize};
use clusteraudiencekit::cohorts::{CohortId, CohortPeriod};
use clusteraudiencekit::governance::{Action, RBACManager, Resource, Role, User};
use clusteraudiencekit::privacy::KAnonymity;
use clusteraudiencekit::string_map::StringMap;

fn customer(id: &str) -> CustomerRecord {
    CustomerRecord {
        customer_id: id.to_string(),
        email: Some(format!("{}@x.com", id)),
        phone: None,
        external_id: None,
        attributes: StringMap::new(),
        segment: None,
    }
}

#[test]
fn deduplicating_twice_equals_once() {
    let m = |id: &str, p: Platform| ActivationMessage::new(customer(id), ActivationEvent::ListAdd, p);
    let msgs = vec![m("a", Platform::Braze), m("a", Platform::Braze), m("b", Platform::Braze), m("a", Platform::Segment)];
    let once = ActivationEngine::deduplicate_messages(&msgs).unwrap();
    let twice = ActivationEngine::deduplicate_messages(&once).unwrap();
    assert_eq!(once.len(), 3);
    assert_eq!(twice.len(), once.len());
    for (x, y) in once.iter().zip(twice.iter()) {
        assert_eq!(x.customer.customer_id, y.customer.customer_id);
        assert_eq!(x.platform, y.platform);
    }
}

#[test]
fn later_permission_change_wins_and_others_stay() {
    let mut m = RBACManager::new();
    let before_other = m.check_permission(&Role::Analyst, &Action::View, &Resource::Segment);
    m.grant_permission(Role::Viewer, Action::Delete, Resource::Segment);
    assert!(m.check_permission(&Role::Viewer, &Action::Delete, &Resource::Segment));
    m.revoke_permission(Role::Viewer, Action::Delete, Resource::Segment);
    assert!(!m.check_permission(&Role::Viewer, &Action::Delete, &Resource::Segment));
    assert_eq!(m.check_permission(&Role::Analyst, &Action::View, &Resource::Segment), before_other);
    assert!(m.check_permission(&Role::Viewer, &Action::View, &Resource::Segment));
}

#[test]
fn deactivated_user_can_do_nothing_and_roles_keep_permissions() {
    let mut m = RBACManager::new();
    m.register_user(User::new("u1".to_string(), "u1@x.com".to_string(), Role::Admin)).unwrap();
    assert!(m.can_user_perform("u1", &Action::Delete, &Resource::Segment));
    m.deactivate_user("u1").unwrap();
    for a in [Action::View, Action::Create, Action::Edit, Action::Delete, Action::Export, Action::Activate, Action::Configure, Action::Admin] {
        assert!(!m.can_user_perform("u1", &a, &Resource::Segment));
    }
    assert!(m.check_permission(&Role::Admin, &Action::Delete, &Resource::Segment));
    assert!(!m.can_user_perform("nobody", &Action::View, &Resource::Segment));
}

#[test]
fn suppressed_table_is_k_anonymous() {
    let mk = |a: &str, z: &str| {
        let mut r = StringMap::new();
        r.insert("age".to_string(), a.to_string());
        r.insert("zip".to_string(), z.to_string());
        r
    };
    let data = vec![mk("1", "a"), mk("1", "a"), mk("2", "a"), mk("1", "b"), mk("1", "a"), mk("2", "a")];
    let qis = vec!["age".to_string(), "zip".to_string()];
    for k in 0..5 {
        let kept = KAnonymity::suppress_to_k_anonymous(&data, &qis, k).unwrap();
        for r in &kept {
            let same = kept
                .iter()
                .filter(|o| o.get("age") == r.get("age") && o.get("zip") == r.get("zip"))
                .count();
            assert!(same >= k);
        }
        assert_eq!(kept.len() + KAnonymity::count_suppressed(&data, &qis, k), data.len());
    }
}

#[test]
fn segment_activation_makes_one_message_per_customer_and_platform() {
    let customers = vec![customer("a"), customer("b"), customer("c")];
    let platforms = vec![Platform::Braze, Platform::HubSpot];
    let v = SegmentActivationManager::activate_segment(&customers, "vip".to_string(), &platforms, ActivationEvent::SegmentAssignment).unwrap();
    assert_eq!(v.len(), 6);
    assert_eq!(v[3].customer.customer_id, "b");
    assert_eq!(v[3].platform, Platform::HubSpot);
    assert_eq!(v[3].customer.segment, Some("vip".to_string()));
}

#[test]
fn fired_triggers_are_active_ones() {
    let mut m = WebhookManager::new();
    m.register_trigger(WebhookTrigger::new("u1".to_string(), ActivationEvent::ListAdd)).unwrap();
    let mut off = WebhookTrigger::new("u2".to_string(), ActivationEvent::ListAdd);
    off.active = false;
    m.register_trigger(off).unwrap();
    m.register_trigger(WebhookTrigger::new("u3".to_string(), ActivationEvent::ListRemove)).unwrap();
    let fired = m.get_triggers(&ActivationEvent::ListAdd);
    assert_eq!(fired.len(), 1);
    assert_eq!(fired[0].url, "u1");
    assert!(fired.len() <= m.active_trigger_count());
    assert_eq!(m.active_trigger_count(), 2);
}

#[test]
fn size_class_and_cohort_never_go_backwards() {
    let rank = |s: CompanySize| match s {
        CompanySize::Micro => 0,
        CompanySize::Small => 1,
        CompanySize::MidMarket => 2,
        CompanySize::Enterprise => 3,
    };
    let mut prev = 0;
    for n in 0..600usize {
        let r = rank(B2BSegmentation::classify_company_size(n));
        assert!(r >= prev);
        prev = r;
    }
    let num = |d: i64| -> i64 { CohortId::new(CohortPeriod::Weekly, d).0["cohort_".len()..].parse().unwrap() };
    let mut last = num(-86400 * 30);
    let mut d = -86400 * 30;
    while d < 86400 * 30 {
        d += 43200;
        let n = num(d);
        assert!(n >= last);
        last = n;
    }
}

#[test]
fn clock_reading_to_timestamp() {
    assert_eq!(timestamp_of(Some(1_700_000_000)), 1_700_000_000);
    assert_eq!(timestamp_of(None), 0);
    assert_eq!(timestamp_of(Some(u64::MAX)), -1);
}

#[test]
fn payload_properties_override_base_and_salesforce_attributes_win() {
    let mut c = customer("c1");
    c.attributes.insert("External_Id__c".to_string(), "from-attrs".to_string());
    c.attributes.insert("tier".to_string(), "gold".to_string());
    let msg = ActivationMessage::new(c, ActivationEvent::ListAdd, Platform::Salesforce)
        .with_property("platform".to_string(), "overridden".to_string());
    let p = ActivationEngine::build_payload(&msg).unwrap();
    assert_eq!(p.get("platform"), Some("overridden".to_string()));
    assert_eq!(p.get("customer_id"), Some("c1".to_string()));
    let e = SalesforceAdapter::new(PlatformCredential::new(Platform::Salesforce, "k".to_string()))
        .format_event(&msg)
        .unwrap();
    assert_eq!(e.get("External_Id__c"), Some("from-attrs".to_string()));
    assert_eq!(e.get("tier"), Some("gold".to_string()));
    assert_eq!(e.get("Email"), Some("c1@x.com".to_string()));
}
