use clusteraudiencekit::governance::{
    Action, AuditEvent, AuditLog, Permission, RBACManager, Resource, Role, User,
};

#[test]
fn test_permission_creation() {
    let perm = Permission::new(Role::Admin, Action::View, Resource::Segment, true);

    assert_eq!(perm.role, Role::Admin);
    assert!(perm.allowed);
}

#[test]
fn test_user_creation() {
    let user = User::new("user_1".to_string(), "test@example.com".to_string(), Role::Analyst);

    assert_eq!(user.user_id, "user_1");
    assert!(user.active);
    assert_eq!(user.role, Role::Analyst);
}

#[test]
fn test_audit_event() {
    let event = AuditEvent::new(
        "user_1".to_string(),
        "view".to_string(),
        "segment".to_string(),
        "seg_1".to_string(),
    )
    .success();

    assert_eq!(event.user_id, "user_1");
    assert_eq!(event.status, "success");
}

#[test]
fn test_audit_log() {
    let mut log = AuditLog::new();
    let event = AuditEvent::new(
        "user_1".to_string(),
        "view".to_string(),
        "segment".to_string(),
        "seg_1".to_string(),
    );

    log.record(event).unwrap();
    assert_eq!(log.event_count(), 1);
}

#[test]
fn test_rbac_manager_admin() {
    let mut manager = RBACManager::new();
    let admin = User::new("admin_1".to_string(), "admin@example.com".to_string(), Role::Admin);

    manager.register_user(admin).unwrap();

    assert!(manager.can_user_perform("admin_1", &Action::Delete, &Resource::Segment));
}

#[test]
fn test_rbac_manager_viewer() {
    let mut manager = RBACManager::new();
    let viewer = User::new("viewer_1".to_string(), "viewer@example.com".to_string(), Role::Viewer);

    manager.register_user(viewer).unwrap();

    assert!(manager.can_user_perform("viewer_1", &Action::View, &Resource::Segment));
    assert!(!manager.can_user_perform("viewer_1", &Action::Delete, &Resource::Segment));
}

#[test]
fn test_grant_revoke_permission() {
    let mut manager = RBACManager::new();

    manager.grant_permission(Role::Viewer, Action::Create, Resource::Audience);
    assert!(manager.check_permission(&Role::Viewer, &Action::Create, &Resource::Audience));

    manager.revoke_permission(Role::Viewer, Action::Create, Resource::Audience);
    assert!(!manager.check_permission(&Role::Viewer, &Action::Create, &Resource::Audience));
}

#[test]
fn test_user_deactivation() {
    let mut manager = RBACManager::new();
    let user = User::new("user_1".to_string(), "test@example.com".to_string(), Role::Analyst);

    manager.register_user(user).unwrap();
    manager.deactivate_user("user_1").unwrap();

    assert!(!manager.can_user_perform("user_1", &Action::View, &Resource::Segment));
}

#[test]
fn test_audit_log_filtering() {
    let mut log = AuditLog::new();

    let event1 = AuditEvent::new(
        "user_1".to_string(),
        "view".to_string(),
        "segment".to_string(),
        "seg_1".to_string(),
    );
    let event2 = AuditEvent::new(
        "user_2".to_string(),
        "edit".to_string(),
        "segment".to_string(),
        "seg_1".to_string(),
    );

    log.record(event1).unwrap();
    log.record(event2).unwrap();

    assert_eq!(log.get_user_events("user_1").len(), 1);
    assert_eq!(log.get_resource_events("segment", "seg_1").len(), 2);
}

#[test]
fn test_audit_event_denied() {
    let event = AuditEvent::new(
        "user_1".to_string(),
        "delete".to_string(),
        "segment".to_string(),
        "seg_1".to_string(),
    )
    .denied();

    assert_eq!(event.status, "denied");
}

#[test]
fn test_role_string() {
    assert_eq!(Role::Admin.as_str(), "admin");
    assert_eq!(Role::Viewer.as_str(), "viewer");
}

#[test]
fn test_list_users() {
    let mut manager = RBACManager::new();
    let user1 = User::new("user_1".to_string(), "test1@example.com".to_string(), Role::Admin);
    let user2 = User::new("user_2".to_string(), "test2@example.com".to_string(), Role::Viewer);

    manager.register_user(user1).unwrap();
    manager.register_user(user2).unwrap();

    assert_eq!(manager.list_users().len(), 2);
}

// Further scenarios of the access rules and the audit log.

#[test]
fn default_permission_table() {
    let m = RBACManager::default();
    assert!(m.check_permission(&Role::Admin, &Action::Configure, &Resource::Integration));
    assert!(!m.check_permission(&Role::Admin, &Action::View, &Resource::Custom("x".to_string())));
    assert!(m.check_permission(&Role::Manager, &Action::Activate, &Resource::Audience));
    assert!(!m.check_permission(&Role::Manager, &Action::Delete, &Resource::Segment));
    assert!(m.check_permission(&Role::Analyst, &Action::Create, &Resource::Audience));
    assert!(!m.check_permission(&Role::Analyst, &Action::View, &Resource::AuditLog));
    assert!(m.check_permission(&Role::Viewer, &Action::View, &Resource::AuditLog));
    assert!(!m.check_permission(&Role::Viewer, &Action::Export, &Resource::Audience));
    assert!(!m.check_permission(&Role::Custom("ops".to_string()), &Action::View, &Resource::Segment));
}

#[test]
fn custom_roles_and_resources_take_grants() {
    let mut m = RBACManager::new();
    let ops = || Role::Custom("ops".to_string());
    let lake = || Resource::Custom("lake".to_string());
    m.grant_permission(ops(), Action::Export, lake());
    assert!(m.check_permission(&ops(), &Action::Export, &lake()));
    assert!(!m.check_permission(&Role::Custom("admin".to_string()), &Action::Export, &lake()));
    m.revoke_permission(Role::Admin, Action::Delete, Resource::Segment);
    assert!(!m.check_permission(&Role::Admin, &Action::Delete, &Resource::Segment));
    assert!(m.check_permission(&Role::Admin, &Action::Edit, &Resource::Segment));
    assert_eq!(ops().as_str(), "ops");
    assert_eq!(lake().as_str(), "lake");
    assert_eq!(Resource::AuditLog.as_str(), "audit_log");
    assert_eq!(Action::Configure.as_str(), "configure");
}

#[test]
fn unknown_users_cannot_act_and_reregistering_replaces() {
    let mut m = RBACManager::new();
    assert!(!m.can_user_perform("ghost", &Action::View, &Resource::Segment));
    m.deactivate_user("ghost").unwrap();
    m.register_user(User::new("u".to_string(), "a@x".to_string(), Role::Viewer)).unwrap();
    m.register_user(User::new("u".to_string(), "b@x".to_string(), Role::Admin)).unwrap();
    assert_eq!(m.list_users().len(), 1);
    assert_eq!(m.get_user("u").unwrap().email, "b@x");
    assert!(m.can_user_perform("u", &Action::Delete, &Resource::Settings));
    assert!(m.get_user("nobody").is_none());
}

#[test]
fn audit_event_ids_details_and_denials() {
    let e = AuditEvent::new("bob".to_string(), "edit".to_string(), "segment".to_string(), "s1".to_string());
    assert_eq!(e.status, "pending");
    assert_eq!(e.event_id, format!("evt_{}_bob", e.timestamp));
    let f = e.failure("timeout".to_string()).with_detail("attempt".to_string(), "2".to_string());
    assert_eq!(f.status, "failure");
    assert_eq!(f.details.get("reason"), Some("timeout".to_string()));
    assert_eq!(f.details.get("attempt"), Some("2".to_string()));

    let mut log = AuditLog::default();
    log.record(f).unwrap();
    log.record(AuditEvent::new("amy".to_string(), "view".to_string(), "audience".to_string(), "a1".to_string()).denied()).unwrap();
    log.record(AuditEvent::new("bob".to_string(), "view".to_string(), "segment".to_string(), "s2".to_string()).denied()).unwrap();
    let denied = log.get_denied_actions();
    assert_eq!(denied.len(), 2);
    assert_eq!(denied[0].user_id, "amy");
    assert_eq!(log.get_user_events("bob").len(), 2);
    assert_eq!(log.get_resource_events("segment", "s2").len(), 1);
    assert_eq!(log.get_events().len(), 3);
}
