use clusteraudiencekit::activation::{
    ActivationEngine, ActivationEvent, ActivationMessage, ActivationResult, BatchActivationConfig,
    CustomerRecord, Platform, PlatformCredential, WebhookTrigger,
};
use clusteraudiencekit::string_map::StringMap;

fn create_test_customer() -> CustomerRecord {
    let mut attributes = StringMap::new();
    attributes.insert("tier".to_string(), "gold".to_string());
    CustomerRecord {
        customer_id: "cust_123".to_string(),
        email: Some("test@example.com".to_string()),
        phone: Some("+1234567890".to_string()),
        external_id: Some("ext_456".to_string()),
        attributes,
        segment: Some("Champions".to_string()),
    }
}

fn bare_customer(id: &str) -> CustomerRecord {
    CustomerRecord {
        customer_id: id.to_string(),
        email: None,
        phone: None,
        external_id: None,
        attributes: StringMap::new(),
        segment: None,
    }
}

#[test]
fn test_platform_credential_creation() {
    let cred = PlatformCredential::new(Platform::Braze, "api_key_123".to_string())
        .with_secret("secret_456".to_string())
        .with_endpoint("https://api.braze.com".to_string());

    assert_eq!(cred.platform, Platform::Braze);
    assert_eq!(cred.api_key, "api_key_123");
    assert_eq!(cred.api_secret, Some("secret_456".to_string()));
}

#[test]
fn test_activation_message_creation() {
    let customer = create_test_customer();
    let msg = ActivationMessage::new(customer, ActivationEvent::SegmentAssignment, Platform::Braze)
        .with_property("action".to_string(), "assign".to_string());

    assert_eq!(msg.customer.customer_id, "cust_123");
    assert_eq!(msg.event_type, ActivationEvent::SegmentAssignment);
    assert_eq!(msg.platform, Platform::Braze);
    assert!(msg.properties.contains_key("action"));
}

#[test]
fn test_format_for_braze() {
    let customer = create_test_customer();
    let formatted = ActivationEngine::format_for_platform(&customer, &Platform::Braze).unwrap();

    assert!(formatted.contains("customer_id:cust_123"));
    assert!(formatted.contains("email:test@example.com"));
    assert!(formatted.contains("segment:Champions"));
}

#[test]
fn test_format_for_klaviyo() {
    let customer = create_test_customer();
    let formatted = ActivationEngine::format_for_platform(&customer, &Platform::Klaviyo).unwrap();

    assert!(formatted.contains("customer_id:cust_123"));
    assert!(formatted.contains("email:test@example.com"));
    assert!(formatted.contains("phone:+1234567890"));
    assert!(formatted.contains("list:Champions"));
}

#[test]
fn test_validate_for_platform() {
    let customer = create_test_customer();

    assert!(ActivationEngine::validate_for_platform(&customer, &Platform::Braze).unwrap());
    assert!(ActivationEngine::validate_for_platform(&customer, &Platform::Iterable).unwrap());
    assert!(ActivationEngine::validate_for_platform(&customer, &Platform::Klaviyo).unwrap());
}

#[test]
fn test_is_eligible() {
    let customer = create_test_customer();

    assert!(ActivationEngine::is_eligible(&customer, &Platform::Braze).unwrap());

    let invalid = CustomerRecord {
        customer_id: "".to_string(),
        email: None,
        phone: None,
        external_id: None,
        attributes: StringMap::new(),
        segment: None,
    };

    assert!(!ActivationEngine::is_eligible(&invalid, &Platform::Braze).unwrap());
}

#[test]
fn test_activation_result_success() {
    let result =
        ActivationResult::success("msg_123".to_string(), Platform::Braze, "cust_123".to_string());

    assert!(result.success);
    assert_eq!(result.platform, Platform::Braze);
    assert_eq!(result.error, None);
}

#[test]
fn test_activation_result_failure() {
    let result = ActivationResult::failure(
        "msg_123".to_string(),
        Platform::Braze,
        "cust_123".to_string(),
        "API error".to_string(),
    );

    assert!(!result.success);
    assert_eq!(result.error, Some("API error".to_string()));
}

#[test]
fn test_build_payload() {
    let customer = create_test_customer();
    let msg = ActivationMessage::new(customer, ActivationEvent::SegmentAssignment, Platform::Braze);

    let payload = ActivationEngine::build_payload(&msg).unwrap();

    assert_eq!(payload.get("customer_id"), Some("cust_123".to_string()));
    assert_eq!(payload.get("email"), Some("test@example.com".to_string()));
}

#[test]
fn test_deduplicate_messages() {
    let customer1 = create_test_customer();
    let mut customer2 = create_test_customer();
    customer2.customer_id = "cust_456".to_string();

    let msg1 = ActivationMessage::new(customer1, ActivationEvent::SegmentAssignment, Platform::Braze);
    let msg2 = ActivationMessage::new(customer2, ActivationEvent::SegmentAssignment, Platform::Braze);

    let messages = vec![msg1.clone(), msg2.clone(), msg1];
    let dedup = ActivationEngine::deduplicate_messages(&messages).unwrap();

    assert_eq!(dedup.len(), 2);
}

#[test]
fn test_webhook_trigger_creation() {
    let webhook = WebhookTrigger::new(
        "https://example.com/webhook".to_string(),
        ActivationEvent::SegmentAssignment,
    )
    .with_header("Authorization".to_string(), "Bearer token".to_string());

    assert_eq!(webhook.url, "https://example.com/webhook");
    assert!(webhook.active);
    assert!(webhook.headers.contains_key("Authorization"));
}

#[test]
fn test_batch_config_defaults() {
    let config = BatchActivationConfig::default();

    assert_eq!(config.batch_size, 1000);
    assert_eq!(config.max_retries, 3);
    assert_eq!(config.timeout_ms, 30000);
}

// Exact values of the formatting and payload rules.

#[test]
fn format_exact_text_per_platform() {
    let c = create_test_customer();
    let f = |p: Platform| ActivationEngine::format_for_platform(&c, &p).unwrap();
    assert_eq!(
        f(Platform::Braze),
        "customer_id:cust_123|email:test@example.com|external_id:ext_456|segment:Champions"
    );
    assert_eq!(f(Platform::Iterable), "customer_id:cust_123|email:test@example.com|tier:gold");
    assert_eq!(
        f(Platform::Klaviyo),
        "customer_id:cust_123|email:test@example.com|phone:+1234567890|list:Champions"
    );
    assert_eq!(f(Platform::Salesforce), "customer_id:cust_123|object:Contact|Email:test@example.com");
    assert_eq!(
        f(Platform::HubSpot),
        "customer_id:cust_123|object:contact|email:test@example.com|hs_lead_status:Champions"
    );
    assert_eq!(f(Platform::Segment), "customer_id:cust_123|email:test@example.com|traits_tier:gold");
    assert_eq!(
        f(Platform::RudderStack),
        "customer_id:cust_123|email:test@example.com|anonymousId:Champions"
    );
    assert_eq!(f(Platform::Custom), "customer_id:cust_123");
}

#[test]
fn format_skips_missing_fields() {
    let c = bare_customer("c9");
    assert_eq!(ActivationEngine::format_for_platform(&c, &Platform::Braze).unwrap(), "customer_id:c9");
    assert_eq!(
        ActivationEngine::format_for_platform(&c, &Platform::Salesforce).unwrap(),
        "customer_id:c9|object:Contact"
    );
}

#[test]
fn validation_rules_without_contact_fields() {
    let c = bare_customer("c1");
    assert!(!ActivationEngine::validate_for_platform(&c, &Platform::Braze).unwrap());
    assert!(!ActivationEngine::validate_for_platform(&c, &Platform::HubSpot).unwrap());
    assert!(ActivationEngine::validate_for_platform(&c, &Platform::Segment).unwrap());
    assert!(ActivationEngine::validate_for_platform(&c, &Platform::Custom).unwrap());
    let mut with_ext = bare_customer("c2");
    with_ext.external_id = Some("x".to_string());
    assert!(ActivationEngine::validate_for_platform(&with_ext, &Platform::Braze).unwrap());
    assert!(!ActivationEngine::validate_for_platform(&with_ext, &Platform::Iterable).unwrap());
    assert!(ActivationEngine::is_eligible(&c, &Platform::RudderStack).unwrap());
    assert!(!ActivationEngine::is_eligible(&bare_customer(""), &Platform::Segment).unwrap());
}

#[test]
fn payload_exact_entries() {
    let mut c = create_test_customer();
    c.segment = None;
    let mut msg = ActivationMessage::new(c, ActivationEvent::ListAdd, Platform::Klaviyo)
        .with_property("email".to_string(), "override@example.com".to_string());
    msg.timestamp = -42;
    let p = ActivationEngine::build_payload(&msg).unwrap();
    assert_eq!(p.len(), 5);
    assert_eq!(p.get("event_type"), Some("ListAdd".to_string()));
    assert_eq!(p.get("platform"), Some("klaviyo".to_string()));
    assert_eq!(p.get("timestamp"), Some("-42".to_string()));
    assert_eq!(p.get("email"), Some("override@example.com".to_string()));
    assert_eq!(p.get("segment"), None);
}

#[test]
fn endpoints_and_names() {
    assert_eq!(
        ActivationEngine::get_platform_endpoint(&Platform::Braze),
        "https://rest.iad-01.braze.com/users/track"
    );
    assert_eq!(
        ActivationEngine::get_platform_endpoint(&Platform::Custom),
        "https://example.com/activate"
    );
    assert_eq!(Platform::HubSpot.as_str(), "hubspot");
    assert_eq!(Platform::RudderStack.as_str(), "rudderstack");
    assert_eq!(ActivationEvent::SegmentRemoval.name(), "SegmentRemoval");
}

#[test]
fn dedup_keeps_first_of_each_key_in_order() {
    let m = |id: &str, p: Platform, e: ActivationEvent| ActivationMessage::new(bare_customer(id), e, p);
    let msgs = vec![
        m("a", Platform::Braze, ActivationEvent::ListAdd).with_property("n".to_string(), "1".to_string()),
        m("b", Platform::Braze, ActivationEvent::ListAdd),
        m("a", Platform::Braze, ActivationEvent::ListAdd).with_property("n".to_string(), "2".to_string()),
        m("a", Platform::Klaviyo, ActivationEvent::ListAdd),
        m("a", Platform::Braze, ActivationEvent::ListRemove),
        m("b", Platform::Braze, ActivationEvent::ListAdd),
    ];
    let d = ActivationEngine::deduplicate_messages(&msgs).unwrap();
    assert_eq!(d.len(), 4);
    assert_eq!(d[0].customer.customer_id, "a");
    assert_eq!(d[0].properties.get("n"), Some("1".to_string()));
    assert_eq!(d[1].customer.customer_id, "b");
    assert_eq!(d[2].platform, Platform::Klaviyo);
    assert_eq!(d[3].event_type, ActivationEvent::ListRemove);
    assert_eq!(ActivationEngine::deduplicate_messages(&[]).unwrap().len(), 0);
}

#[test]
fn credential_builders_set_each_field() {
    let c = PlatformCredential::new(Platform::Segment, "k".to_string()).with_workspace("w1".to_string());
    assert_eq!(c.workspace_id, Some("w1".to_string()));
    assert_eq!(c.endpoint, None);
    assert_eq!(c.api_secret, None);
    let c2 = c.clone();
    assert_eq!(c2.api_key, "k");
}

#[test]
fn message_timestamp_is_the_current_time() {
    let msg = ActivationMessage::new(bare_customer("t"), ActivationEvent::ListAdd, Platform::Custom);
    assert!(msg.timestamp > 1_600_000_000);
}

#[test]
fn test_calculate_stats() {
    let results = vec![
        ActivationResult::success("msg_1".to_string(), Platform::Braze, "cust_1".to_string()),
        ActivationResult::success("msg_2".to_string(), Platform::Braze, "cust_2".to_string()),
        ActivationResult::failure(
            "msg_3".to_string(),
            Platform::Braze,
            "cust_3".to_string(),
            "error".to_string(),
        ),
    ];

    let stats = ActivationEngine::calculate_stats(&results).unwrap();

    assert_eq!(stats.total_messages, 3);
    assert_eq!(stats.successful, 2);
    assert_eq!(stats.failed, 1);
}

#[test]
fn stats_of_no_results_are_zero() {
    let stats = ActivationEngine::calculate_stats(&[]).unwrap();
    assert_eq!(stats.total_messages, 0);
    assert_eq!(stats.successful, 0);
    assert_eq!(stats.failed, 0);
    assert_eq!(stats.retried, 0);
    assert_eq!(stats.skipped, 0);
}
