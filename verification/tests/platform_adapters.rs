use clusteraudiencekit::activation::{
    ActivationEngine, ActivationEvent, ActivationMessage, CustomerRecord, Platform, PlatformCredential,
};
use clusteraudiencekit::platform_adapters::{
    AdapterFactory, BrazeAdapter, CustomAdapter, HubSpotAdapter, IterableAdapter, KlaviyoAdapter,
    PlatformAdapter, RudderStackAdapter, SalesforceAdapter, SegmentAdapter,
};
use clusteraudiencekit::string_map::StringMap;

fn create_test_customer() -> CustomerRecord {
    let mut attributes = StringMap::new();
    attributes.insert("tier".to_string(), "gold".to_string());
    CustomerRecord {
        customer_id: "cust_123".to_string(),
        email: Some("test@example.com".to_string()),
        phone: Some("+1234567890".to_string()),
        external_id: Some("ext_456".to_string()),
        attributes,
        segment: Some("Champions".to_string()),
    }
}

fn message(p: Platform) -> ActivationMessage {
    ActivationMessage::new(create_test_customer(), ActivationEvent::SegmentAssignment, p)
}

#[test]
fn test_braze_adapter() {
    let cred = PlatformCredential::new(Platform::Braze, "key_123".to_string());
    let adapter = BrazeAdapter::new(cred);
    let msg = message(Platform::Braze);

    let formatted = adapter.format_event(&msg).unwrap();
    assert!(formatted.contains_key("external_id"));
    assert_eq!(formatted.get("external_id"), Some("cust_123".to_string()));
}

#[test]
fn test_iterable_adapter() {
    let cred = PlatformCredential::new(Platform::Iterable, "key_123".to_string());
    let adapter = IterableAdapter::new(cred);
    let msg = message(Platform::Iterable);

    let formatted = adapter.format_event(&msg).unwrap();
    assert!(formatted.contains_key("email"));
    assert_eq!(formatted.get("email"), Some("test@example.com".to_string()));
}

#[test]
fn test_klaviyo_adapter() {
    let cred = PlatformCredential::new(Platform::Klaviyo, "key_123".to_string());
    let adapter = KlaviyoAdapter::new(cred);
    let msg = message(Platform::Klaviyo);

    let formatted = adapter.format_event(&msg).unwrap();
    assert!(formatted.contains_key("phone_number"));
    assert!(formatted.contains_key("list_id"));
}

#[test]
fn test_salesforce_adapter() {
    let cred = PlatformCredential::new(Platform::Salesforce, "key_123".to_string());
    let adapter = SalesforceAdapter::new(cred);
    let msg = message(Platform::Salesforce);

    let formatted = adapter.format_event(&msg).unwrap();
    assert!(formatted.contains_key("Email"));
    assert!(formatted.contains_key("External_Id__c"));
}

#[test]
fn test_hubspot_adapter() {
    let cred = PlatformCredential::new(Platform::HubSpot, "key_123".to_string());
    let adapter = HubSpotAdapter::new(cred);
    let msg = message(Platform::HubSpot);

    let formatted = adapter.format_event(&msg).unwrap();
    assert!(formatted.contains_key("email"));
    assert!(formatted.contains_key("hs_lead_status"));
}

#[test]
fn test_segment_adapter() {
    let cred = PlatformCredential::new(Platform::Segment, "key_123".to_string());
    let adapter = SegmentAdapter::new(cred);
    let msg = message(Platform::Segment);

    let formatted = adapter.format_event(&msg).unwrap();
    assert!(formatted.contains_key("userId"));
    assert!(formatted.contains_key("traits"));
}

#[test]
fn test_rudderstack_adapter() {
    let cred = PlatformCredential::new(Platform::RudderStack, "key_123".to_string());
    let adapter = RudderStackAdapter::new(cred);
    let msg = message(Platform::RudderStack);

    let formatted = adapter.format_event(&msg).unwrap();
    assert!(formatted.contains_key("anonymousId"));
    assert!(formatted.contains_key("traits"));
}

#[test]
fn test_adapter_factory() {
    let cred = PlatformCredential::new(Platform::Braze, "key_123".to_string());
    let adapter = AdapterFactory::create_adapter(cred).unwrap();
    assert_eq!(adapter.get_endpoint(), ActivationEngine::get_platform_endpoint(&Platform::Braze));
}

#[test]
fn test_adapter_auth_headers() {
    let cred_braze = PlatformCredential::new(Platform::Braze, "key_123".to_string());
    let adapter_braze = BrazeAdapter::new(cred_braze);
    let (header, value) = adapter_braze.get_auth_header().unwrap();
    assert_eq!(header, "Authorization");
    assert!(value.contains("Bearer"));

    let cred_iterable = PlatformCredential::new(Platform::Iterable, "key_456".to_string());
    let adapter_iterable = IterableAdapter::new(cred_iterable);
    let (header, _value) = adapter_iterable.get_auth_header().unwrap();
    assert_eq!(header, "Api-Key");
}

// Exact payloads, headers and endpoints.

#[test]
fn attribute_rendering_is_the_debug_form() {
    let msg = message(Platform::Braze);
    let e = BrazeAdapter::new(PlatformCredential::new(Platform::Braze, "k".to_string()))
        .format_event(&msg)
        .unwrap();
    assert_eq!(e.get("custom_attributes"), Some("{\"tier\": \"gold\"}".to_string()));
    assert_eq!(e.get("segment"), Some("Champions".to_string()));
    assert_eq!(e.len(), 4);
    let s = SegmentAdapter::new(PlatformCredential::new(Platform::Segment, "k".to_string()))
        .format_event(&msg)
        .unwrap();
    assert_eq!(s.get("traits"), Some("{\"tier\": \"gold\", \"segment\": \"Champions\"}".to_string()));
}

#[test]
fn quotes_inside_attribute_values_are_escaped() {
    let mut c = create_test_customer();
    c.attributes.insert("note".to_string(), "say \"hi\"".to_string());
    let msg = ActivationMessage::new(c, ActivationEvent::ListAdd, Platform::Klaviyo);
    let e = KlaviyoAdapter::new(PlatformCredential::new(Platform::Klaviyo, "k".to_string()))
        .format_event(&msg)
        .unwrap();
    assert_eq!(
        e.get("properties"),
        Some("{\"tier\": \"gold\", \"note\": \"say \\\"hi\\\"\"}".to_string())
    );
}

#[test]
fn hubspot_prefixes_attributes_and_defaults_lead_status() {
    let mut c = create_test_customer();
    c.segment = None;
    let msg = ActivationMessage::new(c, ActivationEvent::ListAdd, Platform::HubSpot);
    let e = HubSpotAdapter::new(PlatformCredential::new(Platform::HubSpot, "k".to_string()))
        .format_event(&msg)
        .unwrap();
    assert_eq!(e.get("custom_tier"), Some("gold".to_string()));
    assert_eq!(e.get("hs_lead_status"), Some("".to_string()));
    assert!(!e.contains_key("tier"));
}

#[test]
fn salesforce_copies_attributes_and_iterable_defaults_email() {
    let mut c = create_test_customer();
    c.email = None;
    let msg = ActivationMessage::new(c, ActivationEvent::ListAdd, Platform::Salesforce);
    let e = SalesforceAdapter::new(PlatformCredential::new(Platform::Salesforce, "k".to_string()))
        .format_event(&msg)
        .unwrap();
    assert_eq!(e.get("tier"), Some("gold".to_string()));
    assert!(!e.contains_key("Email"));
    let i = IterableAdapter::new(PlatformCredential::new(Platform::Iterable, "k".to_string()))
        .format_event(&msg)
        .unwrap();
    assert_eq!(i.get("email"), Some("".to_string()));
    assert_eq!(i.get("listId"), Some("Champions".to_string()));
}

#[test]
fn auth_header_values() {
    let k = |p: Platform| PlatformCredential::new(p, "abc".to_string());
    assert_eq!(KlaviyoAdapter::new(k(Platform::Klaviyo)).get_auth_header().unwrap().1, "Klaviyo-API-Key abc");
    assert_eq!(SegmentAdapter::new(k(Platform::Segment)).get_auth_header().unwrap().1, "Basic abc");
    assert_eq!(HubSpotAdapter::new(k(Platform::HubSpot)).get_auth_header().unwrap().1, "Bearer abc");
    assert_eq!(IterableAdapter::new(k(Platform::Iterable)).get_auth_header().unwrap().1, "abc");
    assert_eq!(CustomAdapter::new(k(Platform::Custom)).get_auth_header().unwrap().0, "Authorization");
}

#[test]
fn configured_endpoint_wins_over_default() {
    let cred = PlatformCredential::new(Platform::HubSpot, "k".to_string())
        .with_endpoint("https://hub.example".to_string());
    let a = AdapterFactory::create_adapter(cred).unwrap();
    assert_eq!(a.get_endpoint(), "https://hub.example");
    let custom = CustomAdapter::new(PlatformCredential::new(Platform::Custom, "k".to_string()));
    assert_eq!(custom.get_endpoint(), "https://example.com/activate");
    let rs = RudderStackAdapter::new(PlatformCredential::new(Platform::RudderStack, "k".to_string()));
    assert_eq!(rs.get_endpoint(), "https://api.rudderstack.com/v1/identify");
}

#[test]
fn factory_adapter_formats_like_its_platform() {
    let msg = message(Platform::Custom);
    let a = AdapterFactory::create_adapter(PlatformCredential::new(Platform::Custom, "k".to_string())).unwrap();
    let e = PlatformAdapter::format_event(&a, &msg).unwrap();
    assert_eq!(e.get("platform"), Some("custom".to_string()));
    assert_eq!(e.get("event_type"), Some("SegmentAssignment".to_string()));
}
