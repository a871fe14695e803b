use clusteraudiencekit::activation::{
    ActivationEvent, ActivationMessage, BatchActivationConfig, CustomerRecord, Platform,
    PlatformCredential, WebhookTrigger,
};
use clusteraudiencekit::activation_orchestrator::{
    ActivationOrchestrator, ActivationQueue, SegmentActivationManager, WebhookManager,
};
use clusteraudiencekit::string_map::StringMap;

fn create_test_customer() -> CustomerRecord {
    let mut attributes = StringMap::new();
    attributes.insert("tier".to_string(), "gold".to_string());
    CustomerRecord {
        customer_id: "cust_123".to_string(),
        email: Some("test@example.com".to_string()),
        phone: Some("+1234567890".to_string()),
        external_id: Some("ext_456".to_string()),
        attributes,
        segment: None,
    }
}

#[test]
fn test_activation_queue() {
    let mut queue = ActivationQueue::new(3);
    let customer = create_test_customer();

    let msg = ActivationMessage::new(customer, ActivationEvent::SegmentAssignment, Platform::Braze);
    assert!(queue.push(msg).unwrap());
    assert_eq!(queue.size(), 1);
    assert!(!queue.is_full());
}

#[test]
fn test_queue_capacity() {
    let mut queue = ActivationQueue::new(2);
    let customer = create_test_customer();

    let msg1 =
        ActivationMessage::new(customer.clone(), ActivationEvent::SegmentAssignment, Platform::Braze);
    let msg2 =
        ActivationMessage::new(customer.clone(), ActivationEvent::SegmentAssignment, Platform::Braze);
    let msg3 = ActivationMessage::new(customer, ActivationEvent::SegmentAssignment, Platform::Braze);

    queue.push(msg1).unwrap();
    queue.push(msg2).unwrap();

    assert!(queue.is_full());
    assert!(!queue.push(msg3).unwrap());
}

#[test]
fn test_queue_flush() {
    let mut queue = ActivationQueue::new(3);
    let customer = create_test_customer();

    let msg = ActivationMessage::new(customer, ActivationEvent::SegmentAssignment, Platform::Braze);
    queue.push(msg).unwrap();

    let flushed = queue.flush().unwrap();
    assert_eq!(flushed.len(), 1);
    assert_eq!(queue.size(), 0);
}

#[test]
fn test_orchestrator_register_platform() {
    let mut orch = ActivationOrchestrator::new(BatchActivationConfig::default());
    let cred = PlatformCredential::new(Platform::Braze, "key_123".to_string());

    orch.register_platform(cred).unwrap();
    assert!(orch.has_platform(&Platform::Braze));
    assert_eq!(orch.platform_count(), 1);
}

#[test]
fn test_orchestrator_process_batch() {
    let mut orch = ActivationOrchestrator::new(BatchActivationConfig::default());
    let cred = PlatformCredential::new(Platform::Braze, "key_123".to_string());
    orch.register_platform(cred).unwrap();

    let customer = create_test_customer();
    let msg = ActivationMessage::new(customer, ActivationEvent::SegmentAssignment, Platform::Braze);

    let results = orch.process_batch(vec![msg]).unwrap();
    assert_eq!(results.len(), 1);
}

#[test]
fn test_segment_activation_manager() {
    let customers = vec![create_test_customer()];
    let platforms = vec![Platform::Braze, Platform::Iterable];

    let messages = SegmentActivationManager::activate_segment(
        &customers,
        "Champions".to_string(),
        &platforms,
        ActivationEvent::SegmentAssignment,
    )
    .unwrap();

    assert_eq!(messages.len(), 2);
}

#[test]
fn test_segment_deactivation() {
    let customers = vec![create_test_customer()];
    let platforms = vec![Platform::Braze];

    let messages =
        SegmentActivationManager::deactivate_segment(&customers, "Champions".to_string(), &platforms)
            .unwrap();

    assert_eq!(messages.len(), 1);
    assert_eq!(messages[0].event_type, ActivationEvent::SegmentRemoval);
}

#[test]
fn test_update_attributes() {
    let customer = create_test_customer();
    let platforms = vec![Platform::Braze, Platform::Iterable];

    let messages = SegmentActivationManager::update_attributes(&customer, &platforms).unwrap();

    assert_eq!(messages.len(), 2);
    assert_eq!(messages[0].event_type, ActivationEvent::PropertyUpdate);
}

#[test]
fn test_webhook_manager() {
    let mut manager = WebhookManager::new();

    let trigger = WebhookTrigger::new(
        "https://example.com/webhook".to_string(),
        ActivationEvent::SegmentAssignment,
    );

    manager.register_trigger(trigger).unwrap();
    assert_eq!(manager.trigger_count(), 1);
    assert_eq!(manager.active_trigger_count(), 1);
}

#[test]
fn test_webhook_get_triggers() {
    let mut manager = WebhookManager::new();

    let trigger = WebhookTrigger::new(
        "https://example.com/webhook".to_string(),
        ActivationEvent::SegmentAssignment,
    );

    manager.register_trigger(trigger).unwrap();

    let triggers = manager.get_triggers(&ActivationEvent::SegmentAssignment);
    assert_eq!(triggers.len(), 1);

    let other_triggers = manager.get_triggers(&ActivationEvent::SegmentRemoval);
    assert_eq!(other_triggers.len(), 0);
}

// Further scenarios of the orchestration rules.

#[test]
fn queue_flush_returns_messages_in_order_and_clear_empties() {
    let mut q = ActivationQueue::new(5);
    for id in ["a", "b", "c"] {
        let mut c = create_test_customer();
        c.customer_id = id.to_string();
        assert!(q.push(ActivationMessage::new(c, ActivationEvent::ListAdd, Platform::Segment)).unwrap());
    }
    let out = q.flush().unwrap();
    let ids: Vec<&str> = out.iter().map(|m| m.customer.customer_id.as_str()).collect();
    assert_eq!(ids, vec!["a", "b", "c"]);
    assert!(q.push(ActivationMessage::new(create_test_customer(), ActivationEvent::ListAdd, Platform::Segment)).unwrap());
    q.clear();
    assert_eq!(q.size(), 0);
    let mut zero = ActivationQueue::new(0);
    assert!(zero.is_full());
    assert!(!zero.push(ActivationMessage::new(create_test_customer(), ActivationEvent::ListAdd, Platform::Segment)).unwrap());
}

#[test]
fn batch_results_follow_eligibility_and_configuration() {
    let mut orch = ActivationOrchestrator::new(BatchActivationConfig::default());
    orch.register_platform(PlatformCredential::new(Platform::Braze, "k".to_string())).unwrap();
    let good = create_test_customer();
    let mut no_email = create_test_customer();
    no_email.email = None;
    no_email.external_id = None;
    let msgs = vec![
        ActivationMessage::new(good.clone(), ActivationEvent::ListAdd, Platform::Braze),
        ActivationMessage::new(no_email, ActivationEvent::ListAdd, Platform::Braze),
        ActivationMessage::new(good, ActivationEvent::ListAdd, Platform::HubSpot),
    ];
    let r = orch.process_batch(msgs).unwrap();
    assert!(r[0].success);
    assert_eq!(r[0].message_id, "msg_cust_123");
    assert!(!r[1].success);
    assert_eq!(r[1].error, Some("Customer not eligible for platform".to_string()));
    assert!(!r[2].success);
    assert_eq!(r[2].error, Some("Platform not configured".to_string()));
    assert_eq!(orch.get_results().len(), 3);
    orch.clear_results();
    assert_eq!(orch.get_results().len(), 0);
}

#[test]
fn registering_a_platform_twice_replaces_its_credential() {
    let mut orch = ActivationOrchestrator::new(BatchActivationConfig::default());
    orch.register_platform(PlatformCredential::new(Platform::Braze, "k1".to_string())).unwrap();
    orch.register_platform(PlatformCredential::new(Platform::Braze, "k2".to_string())).unwrap();
    assert_eq!(orch.platform_count(), 1);
    assert_eq!(orch.get_platform(&Platform::Braze).unwrap().api_key, "k2");
    assert!(orch.get_platform(&Platform::Klaviyo).is_none());

    orch.register_platform(PlatformCredential::new(Platform::Klaviyo, "k3".to_string())).unwrap();
    assert_eq!(orch.platform_count(), 2);
    assert_eq!(orch.get_platform(&Platform::Braze).unwrap().api_key, "k2");
}

#[test]
fn fan_out_is_customer_major_and_sets_segment() {
    let mut c2 = create_test_customer();
    c2.customer_id = "cust_2".to_string();
    let customers = vec![create_test_customer(), c2];
    let platforms = vec![Platform::Braze, Platform::Klaviyo];
    let m = SegmentActivationManager::activate_segment(&customers, "VIP".to_string(), &platforms, ActivationEvent::ListAdd)
        .unwrap();
    assert_eq!(m.len(), 4);
    assert_eq!(m[1].customer.customer_id, "cust_123");
    assert_eq!(m[1].platform, Platform::Klaviyo);
    assert_eq!(m[2].customer.customer_id, "cust_2");
    assert_eq!(m[3].customer.segment, Some("VIP".to_string()));
    assert_eq!(SegmentActivationManager::activate_segment(&[], "x".to_string(), &platforms, ActivationEvent::ListAdd).unwrap().len(), 0);
}

#[test]
fn inactive_triggers_are_not_returned() {
    let mut manager = WebhookManager::default();
    let mut t = WebhookTrigger::new("u1".to_string(), ActivationEvent::ListAdd);
    t.active = false;
    manager.register_trigger(t).unwrap();
    manager.register_trigger(WebhookTrigger::new("u2".to_string(), ActivationEvent::ListAdd)).unwrap();
    manager.register_trigger(WebhookTrigger::new("u3".to_string(), ActivationEvent::ListRemove)).unwrap();
    assert_eq!(manager.trigger_count(), 3);
    assert_eq!(manager.active_trigger_count(), 2);
    let got = manager.get_triggers(&ActivationEvent::ListAdd);
    assert_eq!(got.len(), 1);
    assert_eq!(got[0].url, "u2");
}

#[test]
fn test_orchestrator_stats() {
    let mut orch = ActivationOrchestrator::new(BatchActivationConfig::default());
    let cred = PlatformCredential::new(Platform::Braze, "key_123".to_string());
    orch.register_platform(cred).unwrap();

    let customer = create_test_customer();
    let msg = ActivationMessage::new(
        customer,
        ActivationEvent::SegmentAssignment,
        Platform::Braze,
    );

    orch.process_batch(vec![msg]).unwrap();
    let stats = orch.get_stats().unwrap();

    assert_eq!(stats.total_messages, 1);
    assert_eq!(stats.successful, 1);
}
