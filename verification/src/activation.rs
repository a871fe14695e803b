//! Platform activation: customer records, activation messages, credentials,
//! results, and the rules that format, validate and deduplicate them.

use vstd::prelude::*;

use crate::clock::unix_timestamp;
use crate::error::KitResult;
use crate::seqs::{keep, lemma_keep_sound, lemma_keep_step};
use crate::string_map::{
    insert_all, lemma_insert_all_distinct, lemma_insert_all_keeps, lemma_pairs_keys_distinct, seq_has_key,
    StringMap,
};
use crate::text::{decimal_string, int_decimal, string_eq};

verus! {

/// Supported activation platforms.
#[derive(Clone, Copy, Debug, PartialEq, Eq, Hash, Structural)]
pub enum Platform {
    Braze,
    Iterable,
    Klaviyo,
    Segment,
    Salesforce,
    HubSpot,
    RudderStack,
    Custom,
}

/// The lower-case name of a platform.
pub open spec fn platform_name(p: Platform) -> Seq<char> {
    match p {
        Platform::Braze => "braze"@,
        Platform::Iterable => "iterable"@,
        Platform::Klaviyo => "klaviyo"@,
        Platform::Segment => "segment"@,
        Platform::Salesforce => "salesforce"@,
        Platform::HubSpot => "hubspot"@,
        Platform::RudderStack => "rudderstack"@,
        Platform::Custom => "custom"@,
    }
}

impl Platform {
    /// The platform's lower-case name.
    pub fn as_str(&self) -> (s: &'static str)
        ensures
            s@ == platform_name(*self),
    {
        match self {
            Platform::Braze => "braze",
            Platform::Iterable => "iterable",
            Platform::Klaviyo => "klaviyo",
            Platform::Segment => "segment",
            Platform::Salesforce => "salesforce",
            Platform::HubSpot => "hubspot",
            Platform::RudderStack => "rudderstack",
            Platform::Custom => "custom",
        }
    }
}

/// Activation event types.
#[derive(Clone, Copy, Debug, PartialEq, Eq, Hash, Structural)]
pub enum ActivationEvent {
    SegmentAssignment,
    SegmentRemoval,
    PropertyUpdate,
    ListAdd,
    ListRemove,
}

/// The name of an event type as the payload carries it.
pub open spec fn event_name(e: ActivationEvent) -> Seq<char> {
    match e {
        ActivationEvent::SegmentAssignment => "SegmentAssignment"@,
        ActivationEvent::SegmentRemoval => "SegmentRemoval"@,
        ActivationEvent::PropertyUpdate => "PropertyUpdate"@,
        ActivationEvent::ListAdd => "ListAdd"@,
        ActivationEvent::ListRemove => "ListRemove"@,
    }
}

impl ActivationEvent {
    /// The variant's name, e.g. `SegmentAssignment`.
    pub fn name(&self) -> (s: &'static str)
        ensures
            s@ == event_name(*self),
    {
        match self {
            ActivationEvent::SegmentAssignment => "SegmentAssignment",
            ActivationEvent::SegmentRemoval => "SegmentRemoval",
            ActivationEvent::PropertyUpdate => "PropertyUpdate",
            ActivationEvent::ListAdd => "ListAdd",
            ActivationEvent::ListRemove => "ListRemove",
        }
    }
}

/// The characters of an optional string.
pub open spec fn opt_view(o: Option<String>) -> Option<Seq<char>> {
    match o {
        Some(s) => Some(s@),
        None => None,
    }
}

/// A copy of an optional string.
pub fn clone_opt(o: &Option<String>) -> (r: Option<String>)
    ensures
        r == *o,
{
    match o {
        Some(s) => Some(s.clone()),
        None => None,
    }
}

/// Customer record for activation.
pub struct CustomerRecord {
    pub customer_id: String,
    pub email: Option<String>,
    pub phone: Option<String>,
    pub external_id: Option<String>,
    pub attributes: StringMap,
    pub segment: Option<String>,
}

/// Abstract value of a customer record.
pub ghost struct CustomerView {
    pub customer_id: Seq<char>,
    pub email: Option<Seq<char>>,
    pub phone: Option<Seq<char>>,
    pub external_id: Option<Seq<char>>,
    pub attributes: Seq<(Seq<char>, Seq<char>)>,
    pub segment: Option<Seq<char>>,
}

impl View for CustomerRecord {
    type V = CustomerView;

    open spec fn view(&self) -> CustomerView {
        CustomerView {
            customer_id: self.customer_id@,
            email: opt_view(self.email),
            phone: opt_view(self.phone),
            external_id: opt_view(self.external_id),
            attributes: self.attributes.pairs(),
            segment: opt_view(self.segment),
        }
    }
}

impl Clone for CustomerRecord {
    fn clone(&self) -> (r: Self)
        ensures
            r@ == self@,
    {
        CustomerRecord {
            customer_id: self.customer_id.clone(),
            email: clone_opt(&self.email),
            phone: clone_opt(&self.phone),
            external_id: clone_opt(&self.external_id),
            attributes: self.attributes.clone_map(),
            segment: clone_opt(&self.segment),
        }
    }
}

/// Activation message to send to a platform.
pub struct ActivationMessage {
    pub customer: CustomerRecord,
    pub event_type: ActivationEvent,
    pub platform: Platform,
    pub timestamp: i64,
    pub properties: StringMap,
}

/// Abstract value of an activation message.
pub ghost struct MessageView {
    pub customer: CustomerView,
    pub event_type: ActivationEvent,
    pub platform: Platform,
    pub timestamp: i64,
    pub properties: Seq<(Seq<char>, Seq<char>)>,
}

impl View for ActivationMessage {
    type V = MessageView;

    open spec fn view(&self) -> MessageView {
        MessageView {
            customer: self.customer@,
            event_type: self.event_type,
            platform: self.platform,
            timestamp: self.timestamp,
            properties: self.properties.pairs(),
        }
    }
}

impl Clone for ActivationMessage {
    fn clone(&self) -> (r: Self)
        ensures
            r@ == self@,
    {
        ActivationMessage {
            customer: self.customer.clone(),
            event_type: self.event_type,
            platform: self.platform,
            timestamp: self.timestamp,
            properties: self.properties.clone_map(),
        }
    }
}

impl ActivationMessage {
    /// A message stamped with the current time and no properties.
    pub fn new(customer: CustomerRecord, event_type: ActivationEvent, platform: Platform) -> (m:
        Self)
        ensures
            m.customer@ == customer@,
            m.event_type == event_type,
            m.platform == platform,
            m.properties.pairs().len() == 0,
            m.properties@ == Map::<Seq<char>, Seq<char>>::empty(),
    {
        let now = unix_timestamp();
        ActivationMessage {
            customer,
            event_type,
            platform,
            timestamp: now,
            properties: StringMap::new(),
        }
    }

    /// The message with property `key` set to `value`.
    pub fn with_property(self, key: String, value: String) -> (m: Self)
        ensures
            m.customer@ == self.customer@,
            m.event_type == self.event_type,
            m.platform == self.platform,
            m.timestamp == self.timestamp,
            m.properties@ == self.properties@.insert(key@, value@),
    {
        let mut m = self;
        m.properties.insert(key, value);
        m
    }
}

/// Platform credential configuration.
pub struct PlatformCredential {
    pub platform: Platform,
    pub api_key: String,
    pub api_secret: Option<String>,
    pub endpoint: Option<String>,
    pub workspace_id: Option<String>,
}

impl Clone for PlatformCredential {
    fn clone(&self) -> (r: Self)
        ensures
            r == *self,
    {
        PlatformCredential {
            platform: self.platform,
            api_key: self.api_key.clone(),
            api_secret: clone_opt(&self.api_secret),
            endpoint: clone_opt(&self.endpoint),
            workspace_id: clone_opt(&self.workspace_id),
        }
    }
}

impl PlatformCredential {
    /// A credential holding only the platform and its API key.
    pub fn new(platform: Platform, api_key: String) -> (c: Self)
        ensures
            c.platform == platform,
            c.api_key == api_key,
            c.api_secret.is_none(),
            c.endpoint.is_none(),
            c.workspace_id.is_none(),
    {
        PlatformCredential { platform, api_key, api_secret: None, endpoint: None, workspace_id: None }
    }

    /// The credential with its API secret set.
    pub fn with_secret(self, secret: String) -> (c: Self)
        ensures
            c == (PlatformCredential { api_secret: Some(secret), ..self }),
    {
        let mut c = self;
        c.api_secret = Some(secret);
        c
    }

    /// The credential with its endpoint set.
    pub fn with_endpoint(self, endpoint: String) -> (c: Self)
        ensures
            c == (PlatformCredential { endpoint: Some(endpoint), ..self }),
    {
        let mut c = self;
        c.endpoint = Some(endpoint);
        c
    }

    /// The credential with its workspace set.
    pub fn with_workspace(self, workspace_id: String) -> (c: Self)
        ensures
            c == (PlatformCredential { workspace_id: Some(workspace_id), ..self }),
    {
        let mut c = self;
        c.workspace_id = Some(workspace_id);
        c
    }
}

/// Outcome of sending one activation message.
pub struct ActivationResult {
    pub message_id: String,
    pub platform: Platform,
    pub customer_id: String,
    pub success: bool,
    pub error: Option<String>,
    pub timestamp: i64,
}

impl Clone for ActivationResult {
    fn clone(&self) -> (r: Self)
        ensures
            r == *self,
    {
        ActivationResult {
            message_id: self.message_id.clone(),
            platform: self.platform,
            customer_id: self.customer_id.clone(),
            success: self.success,
            error: clone_opt(&self.error),
            timestamp: self.timestamp,
        }
    }
}

impl ActivationResult {
    /// A successful result, stamped with the current time.
    pub fn success(message_id: String, platform: Platform, customer_id: String) -> (r: Self)
        ensures
            r.message_id == message_id,
            r.platform == platform,
            r.customer_id == customer_id,
            r.success,
            r.error.is_none(),
    {
        let now = unix_timestamp();
        ActivationResult { message_id, platform, customer_id, success: true, error: None, timestamp: now }
    }

    /// A failed result carrying `error`, stamped with the current time.
    pub fn failure(message_id: String, platform: Platform, customer_id: String, error: String) -> (r:
        Self)
        ensures
            r.message_id == message_id,
            r.platform == platform,
            r.customer_id == customer_id,
            !r.success,
            r.error == Some(error),
    {
        let now = unix_timestamp();
        ActivationResult {
            message_id,
            platform,
            customer_id,
            success: false,
            error: Some(error),
            timestamp: now,
        }
    }
}

/// Batch activation settings.
pub struct BatchActivationConfig {
    pub batch_size: usize,
    pub max_retries: usize,
    pub retry_delay_ms: u64,
    pub timeout_ms: u64,
}

impl Clone for BatchActivationConfig {
    fn clone(&self) -> (r: Self)
        ensures
            r == *self,
    {
        BatchActivationConfig {
            batch_size: self.batch_size,
            max_retries: self.max_retries,
            retry_delay_ms: self.retry_delay_ms,
            timeout_ms: self.timeout_ms,
        }
    }
}

impl Default for BatchActivationConfig {
    fn default() -> (c: Self)
        ensures
            c.batch_size == 1000,
            c.max_retries == 3,
            c.retry_delay_ms == 1000,
            c.timeout_ms == 30000,
    {
        BatchActivationConfig { batch_size: 1000, max_retries: 3, retry_delay_ms: 1000, timeout_ms: 30000 }
    }
}

/// Webhook trigger configuration.
pub struct WebhookTrigger {
    pub url: String,
    pub event_type: ActivationEvent,
    pub headers: StringMap,
    pub active: bool,
}

/// Abstract value of a webhook trigger.
pub ghost struct WebhookView {
    pub url: Seq<char>,
    pub event_type: ActivationEvent,
    pub headers: Seq<(Seq<char>, Seq<char>)>,
    pub active: bool,
}

impl View for WebhookTrigger {
    type V = WebhookView;

    open spec fn view(&self) -> WebhookView {
        WebhookView {
            url: self.url@,
            event_type: self.event_type,
            headers: self.headers.pairs(),
            active: self.active,
        }
    }
}

impl Clone for WebhookTrigger {
    fn clone(&self) -> (r: Self)
        ensures
            r@ == self@,
    {
        WebhookTrigger {
            url: self.url.clone(),
            event_type: self.event_type,
            headers: self.headers.clone_map(),
            active: self.active,
        }
    }
}

impl WebhookTrigger {
    /// An active trigger with no headers.
    pub fn new(url: String, event_type: ActivationEvent) -> (w: Self)
        ensures
            w.url == url,
            w.event_type == event_type,
            w.headers@ == Map::<Seq<char>, Seq<char>>::empty(),
            w.active,
    {
        WebhookTrigger { url, event_type, headers: StringMap::new(), active: true }
    }

    /// The trigger with header `key` set to `value`.
    pub fn with_header(self, key: String, value: String) -> (w: Self)
        ensures
            w.url == self.url,
            w.event_type == self.event_type,
            w.active == self.active,
            w.headers@ == self.headers@.insert(key@, value@),
    {
        let mut w = self;
        w.headers.insert(key, value);
        w
    }
}

/// `prefix` followed by the value, or nothing when there is no value.
pub open spec fn opt_field(prefix: Seq<char>, v: Option<Seq<char>>) -> Seq<char> {
    match v {
        Some(s) => prefix + s,
        None => Seq::empty(),
    }
}

/// Each attribute rendered as `prefix key : value`, in order.
pub open spec fn attr_fields(prefix: Seq<char>, pairs: Seq<(Seq<char>, Seq<char>)>) -> Seq<char>
    decreases pairs.len(),
{
    if pairs.len() == 0 {
        Seq::empty()
    } else {
        attr_fields(prefix, pairs.drop_last()) + prefix + pairs.last().0 + ":"@ + pairs.last().1
    }
}

/// The text a customer record is formatted to for a platform.
pub open spec fn formatted_record(c: CustomerView, p: Platform) -> Seq<char> {
    "customer_id:"@ + c.customer_id + match p {
        Platform::Braze => opt_field("|email:"@, c.email) + opt_field("|external_id:"@, c.external_id)
            + opt_field("|segment:"@, c.segment),
        Platform::Iterable => opt_field("|email:"@, c.email) + attr_fields("|"@, c.attributes),
        Platform::Klaviyo => opt_field("|email:"@, c.email) + opt_field("|phone:"@, c.phone)
            + opt_field("|list:"@, c.segment),
        Platform::Salesforce => "|object:Contact"@ + opt_field("|Email:"@, c.email),
        Platform::HubSpot => "|object:contact"@ + opt_field("|email:"@, c.email) + opt_field(
            "|hs_lead_status:"@,
            c.segment,
        ),
        Platform::Segment => opt_field("|email:"@, c.email) + attr_fields("|traits_"@, c.attributes),
        Platform::RudderStack => opt_field("|email:"@, c.email) + opt_field(
            "|anonymousId:"@,
            c.segment,
        ),
        Platform::Custom => Seq::empty(),
    }
}

/// Whether a record has the fields a platform needs.
pub open spec fn valid_for(c: CustomerView, p: Platform) -> bool {
    match p {
        Platform::Braze => c.email.is_some() || c.external_id.is_some(),
        Platform::Iterable => c.email.is_some(),
        Platform::Klaviyo => c.email.is_some(),
        Platform::Salesforce => c.email.is_some(),
        Platform::HubSpot => c.email.is_some(),
        Platform::Segment => true,
        Platform::RudderStack => true,
        Platform::Custom => true,
    }
}

/// Whether a record may be activated on a platform.
pub open spec fn eligible(c: CustomerView, p: Platform) -> bool {
    c.customer_id.len() != 0 && valid_for(c, p)
}

/// `m` with `k` set to the value, when there is one.
pub open spec fn opt_insert(m: Map<Seq<char>, Seq<char>>, k: Seq<char>, v: Option<Seq<char>>) -> Map<
    Seq<char>,
    Seq<char>,
> {
    match v {
        Some(s) => m.insert(k, s),
        None => m,
    }
}

/// The payload map built for a message.
pub open spec fn payload_of(m: MessageView) -> Map<Seq<char>, Seq<char>> {
    insert_all(payload_base(m), m.properties)
}

/// The payload entries before the message's properties: customer id, event
/// type, platform, timestamp, and email and segment when present.
pub open spec fn payload_base(m: MessageView) -> Map<Seq<char>, Seq<char>> {
    let base = Map::<Seq<char>, Seq<char>>::empty().insert("customer_id"@, m.customer.customer_id).insert(
        "event_type"@,
        event_name(m.event_type),
    ).insert("platform"@, platform_name(m.platform)).insert(
        "timestamp"@,
        int_decimal(m.timestamp as int),
    );
    opt_insert(opt_insert(base, "email"@, m.customer.email), "segment"@, m.customer.segment)
}

/// What each platform needs of a record: Iterable, Klaviyo, Salesforce and
/// HubSpot need an email; Braze needs an email or an external id; Segment,
/// RudderStack and custom platforms need nothing. A record is eligible when
/// it also has a non-empty customer id.
pub proof fn law_platform_requirements(c: CustomerView, p: Platform)
    ensures
        (p == Platform::Iterable || p == Platform::Klaviyo || p == Platform::Salesforce || p
            == Platform::HubSpot) ==> (valid_for(c, p) <==> c.email is Some),
        p == Platform::Braze ==> (valid_for(c, p) <==> (c.email is Some || c.external_id is Some)),
        (p == Platform::Segment || p == Platform::RudderStack || p == Platform::Custom) ==> valid_for(c, p),
        eligible(c, p) <==> (c.customer_id.len() > 0 && valid_for(c, p)),
        (p == Platform::Iterable || p == Platform::Klaviyo || p == Platform::Salesforce || p
            == Platform::HubSpot) && c.email is None ==> !eligible(c, p),
{
}

/// Every payload carries the customer id key.
pub proof fn law_payload_has_customer_id(m: MessageView)
    ensures
        payload_of(m).dom().contains("customer_id"@),
{
    let base = Map::<Seq<char>, Seq<char>>::empty().insert("customer_id"@, m.customer.customer_id).insert(
        "event_type"@,
        event_name(m.event_type),
    ).insert("platform"@, platform_name(m.platform)).insert(
        "timestamp"@,
        int_decimal(m.timestamp as int),
    );
    let b = opt_insert(opt_insert(base, "email"@, m.customer.email), "segment"@, m.customer.segment);
    assert(b.dom().contains("customer_id"@));
    lemma_insert_all_keeps(b, m.properties, "customer_id"@);
}

/// The default endpoint URL of a platform.
pub open spec fn endpoint_url(p: Platform) -> Seq<char> {
    match p {
        Platform::Braze => "https://rest.iad-01.braze.com/users/track"@,
        Platform::Iterable => "https://api.iterable.com/api/users/bulkUpdate"@,
        Platform::Klaviyo => "https://a.klaviyo.com/api/v1/person"@,
        Platform::Segment => "https://api.segment.com/v1/batch"@,
        Platform::Salesforce => "https://instance.salesforce.com/services/data/v57.0/sobjects/Contact"@,
        Platform::HubSpot => "https://api.hubapi.com/crm/v3/objects/contacts"@,
        Platform::RudderStack => "https://api.rudderstack.com/v1/identify"@,
        Platform::Custom => "https://example.com/activate"@,
    }
}

/// The identity under which messages are deduplicated: customer, platform
/// and event type.
pub open spec fn message_key(m: MessageView) -> (Seq<char>, Platform, ActivationEvent) {
    (m.customer.customer_id, m.platform, m.event_type)
}

/// True when no message before position `i` has the key of message `i`.
pub open spec fn first_of_key(s: Seq<MessageView>, i: int) -> bool {
    forall|j: int| 0 <= j < i ==> message_key(#[trigger] s[j]) != message_key(s[i])
}

/// The messages of `s` that are the first of their key, in order.
pub open spec fn dedup_messages(s: Seq<MessageView>) -> Seq<MessageView>
    decreases s.len(),
{
    if s.len() == 0 {
        Seq::empty()
    } else if first_of_key(s, s.len() - 1) {
        dedup_messages(s.drop_last()).push(s.last())
    } else {
        dedup_messages(s.drop_last())
    }
}

/// True when some message of `s` has key `k`.
pub open spec fn has_message_key(s: Seq<MessageView>, k: (Seq<char>, Platform, ActivationEvent)) -> bool {
    exists|j: int| 0 <= j < s.len() && message_key(#[trigger] s[j]) == k
}

/// Views of a sequence of messages.
pub open spec fn message_views(s: Seq<ActivationMessage>) -> Seq<MessageView> {
    s.map_values(|m: ActivationMessage| m@)
}

/// The messages kept by deduplication carry exactly the keys of the input.
pub proof fn law_dedup_keeps_every_key(s: Seq<MessageView>, k: (Seq<char>, Platform, ActivationEvent))
    ensures
        has_message_key(dedup_messages(s), k) == has_message_key(s, k),
    decreases s.len(),
{
    if s.len() > 0 {
        let p = s.drop_last();
        let last = s.len() - 1;
        law_dedup_keeps_every_key(p, k);
        let d = dedup_messages(p);
        // has(s, k) <==> has(p, k) || key(s[last]) == k
        if has_message_key(p, k) {
            let j = choose|j: int| 0 <= j < p.len() && message_key(#[trigger] p[j]) == k;
            assert(s[j] == p[j]);
            assert(has_message_key(s, k));
        }
        if message_key(s[last]) == k {
            assert(has_message_key(s, k));
        }
        if has_message_key(s, k) {
            let j = choose|j: int| 0 <= j < s.len() && message_key(#[trigger] s[j]) == k;
            if j < last {
                assert(p[j] == s[j]);
                assert(has_message_key(p, k));
            }
        }
        if first_of_key(s, last) {
            let dd = d.push(s[last]);
            assert(dedup_messages(s) == dd);
            if has_message_key(d, k) {
                let j = choose|j: int| 0 <= j < d.len() && message_key(#[trigger] d[j]) == k;
                assert(dd[j] == d[j]);
                assert(has_message_key(dd, k));
            }
            if message_key(s[last]) == k {
                assert(dd[d.len() as int] == s[last]);
                assert(has_message_key(dd, k));
            }
            if has_message_key(dd, k) {
                let j = choose|j: int| 0 <= j < dd.len() && message_key(#[trigger] dd[j]) == k;
                if j < d.len() {
                    assert(d[j] == dd[j]);
                    assert(has_message_key(d, k));
                }
            }
        } else {
            assert(dedup_messages(s) == d);
            if message_key(s[last]) == k {
                let j = choose|j: int|
                    0 <= j < last && message_key(#[trigger] s[j]) == message_key(s[last]);
                assert(p[j] == s[j]);
                assert(message_key(p[j]) == k);
                assert(has_message_key(p, k));
            }
        }
    }
}

/// No two messages kept by deduplication share a key.
pub proof fn law_dedup_keeps_one_message_per_key(s: Seq<MessageView>)
    ensures
        forall|i: int, j: int|
            0 <= i < j < dedup_messages(s).len() ==> message_key(#[trigger] dedup_messages(s)[i])
                != message_key(#[trigger] dedup_messages(s)[j]),
    decreases s.len(),
{
    if s.len() > 0 {
        let p = s.drop_last();
        law_dedup_keeps_one_message_per_key(p);
        let d = dedup_messages(p);
        if first_of_key(s, s.len() - 1) {
            let dd = d.push(s.last());
            assert forall|i: int, j: int| 0 <= i < j < dd.len() implies message_key(#[trigger] dd[i])
                != message_key(#[trigger] dd[j]) by {
                if j == d.len() {
                    law_dedup_keeps_every_key(p, message_key(s.last()));
                    if message_key(dd[i]) == message_key(dd[j]) {
                        assert(d[i] == dd[i]);
                        assert(has_message_key(d, message_key(s.last())));
                        let w = choose|w: int|
                            0 <= w < p.len() && message_key(#[trigger] p[w]) == message_key(
                                s.last(),
                            );
                        assert(s[w] == p[w]);
                    }
                } else {
                    assert(d[i] == dd[i]);
                    assert(d[j] == dd[j]);
                }
            }
        }
    }
}

/// Messages whose keys are pairwise distinct pass deduplication unchanged.
pub proof fn lemma_dedup_of_distinct(s: Seq<MessageView>)
    requires
        forall|i: int, j: int|
            0 <= i < j < s.len() ==> message_key(#[trigger] s[i]) != message_key(#[trigger] s[j]),
    ensures
        dedup_messages(s) == s,
    decreases s.len(),
{
    if s.len() > 0 {
        let p = s.drop_last();
        assert forall|i: int, j: int| 0 <= i < j < p.len() implies message_key(#[trigger] p[i])
            != message_key(#[trigger] p[j]) by {
            assert(p[i] == s[i] && p[j] == s[j]);
        }
        lemma_dedup_of_distinct(p);
        assert forall|j: int| 0 <= j < s.len() - 1 implies message_key(#[trigger] s[j]) != message_key(
            s[s.len() - 1],
        ) by {}
        assert(first_of_key(s, s.len() - 1));
        assert(p.push(s.last()) =~= s);
    }
}

/// Deduplicating twice keeps the same messages as deduplicating once.
pub proof fn law_dedup_idempotent(s: Seq<MessageView>)
    ensures
        dedup_messages(dedup_messages(s)) == dedup_messages(s),
{
    law_dedup_keeps_one_message_per_key(s);
    lemma_dedup_of_distinct(dedup_messages(s));
}

/// Namespace for the activation rules.
pub struct ActivationEngine;

fn append_opt(s: &mut String, prefix: &str, v: &Option<String>)
    ensures
        final(s)@ == old(s)@ + opt_field(prefix@, opt_view(*v)),
{
    match v {
        Some(x) => {
            s.append(prefix);
            s.append(x.as_str());
            assert(final(s)@ =~= old(s)@ + opt_field(prefix@, opt_view(*v)));
        },
        None => {
            assert(final(s)@ =~= old(s)@ + opt_field(prefix@, opt_view(*v)));
        },
    }
}

fn append_attrs(s: &mut String, prefix: &str, attrs: &StringMap)
    ensures
        final(s)@ == old(s)@ + attr_fields(prefix@, attrs.pairs()),
{
    let n = attrs.len();
    let mut i: usize = 0;
    while i < n
        invariant
            n == attrs.pairs().len(),
            i <= n,
            s@ == old(s)@ + attr_fields(prefix@, attrs.pairs().take(i as int)),
        decreases n - i,
    {
        let (k, v) = attrs.entry_at(i);
        s.append(prefix);
        s.append(k.as_str());
        s.append(":");
        s.append(v.as_str());
        proof {
            let t = attrs.pairs().take(i + 1);
            assert(t.drop_last() =~= attrs.pairs().take(i as int));
        }
        i = i + 1;
        assert(s@ =~= old(s)@ + attr_fields(prefix@, attrs.pairs().take(i as int)));
    }
    assert(attrs.pairs().take(n as int) =~= attrs.pairs());
}

impl ActivationEngine {
    /// Formats a customer record for a platform's requirements.
    pub fn format_for_platform(customer: &CustomerRecord, platform: &Platform) -> (r: KitResult<
        String,
    >)
        ensures
            match r {
                Ok(s) => s@ == formatted_record(customer@, *platform),
                Err(_) => false,
            },
    {
        let mut s = String::from_str("customer_id:");
        s.append(customer.customer_id.as_str());
        let ghost head = s@;
        match platform {
            Platform::Braze => {
                append_opt(&mut s, "|email:", &customer.email);
                append_opt(&mut s, "|external_id:", &customer.external_id);
                append_opt(&mut s, "|segment:", &customer.segment);
            },
            Platform::Iterable => {
                append_opt(&mut s, "|email:", &customer.email);
                append_attrs(&mut s, "|", &customer.attributes);
            },
            Platform::Klaviyo => {
                append_opt(&mut s, "|email:", &customer.email);
                append_opt(&mut s, "|phone:", &customer.phone);
                append_opt(&mut s, "|list:", &customer.segment);
            },
            Platform::Salesforce => {
                s.append("|object:Contact");
                append_opt(&mut s, "|Email:", &customer.email);
            },
            Platform::HubSpot => {
                s.append("|object:contact");
                append_opt(&mut s, "|email:", &customer.email);
                append_opt(&mut s, "|hs_lead_status:", &customer.segment);
            },
            Platform::Segment => {
                append_opt(&mut s, "|email:", &customer.email);
                append_attrs(&mut s, "|traits_", &customer.attributes);
            },
            Platform::RudderStack => {
                append_opt(&mut s, "|email:", &customer.email);
                append_opt(&mut s, "|anonymousId:", &customer.segment);
            },
            Platform::Custom => {},
        }
        assert(s@ =~= formatted_record(customer@, *platform));
        Ok(s)
    }

    /// Whether a record has the fields a platform needs.
    pub fn validate_for_platform(customer: &CustomerRecord, platform: &Platform) -> (r: KitResult<
        bool,
    >)
        ensures
            r == Ok::<bool, crate::error::KitError>(valid_for(customer@, *platform)),
    {
        let ok = match platform {
            Platform::Braze => customer.email.is_some() || customer.external_id.is_some(),
            Platform::Iterable => customer.email.is_some(),
            Platform::Klaviyo => customer.email.is_some(),
            Platform::Salesforce => customer.email.is_some(),
            Platform::HubSpot => customer.email.is_some(),
            Platform::Segment => true,
            Platform::RudderStack => true,
            Platform::Custom => true,
        };
        Ok(ok)
    }

    /// Builds the key/value payload of a message.
    pub fn build_payload(msg: &ActivationMessage) -> (r: KitResult<StringMap>)
        ensures
            match r {
                Ok(p) => {
                    &&& p@ == payload_of(msg@)
                    &&& forall|i: int|
                        0 <= i < msg.properties.pairs().len() ==> p@.dom().contains(
                            #[trigger] msg.properties.pairs()[i].0,
                        ) && p@[msg.properties.pairs()[i].0] == msg.properties.pairs()[i].1
                    &&& forall|k: Seq<char>|
                        !seq_has_key(msg.properties.pairs(), k) ==> (#[trigger] p@.dom().contains(k)
                            == payload_base(msg@).dom().contains(k)) && (p@.dom().contains(k)
                            ==> p@[k] == payload_base(msg@)[k])
                },
                Err(_) => false,
            },
    {
        proof {
            lemma_pairs_keys_distinct(&msg.properties);
            lemma_insert_all_distinct(payload_base(msg@), msg.properties.pairs());
        }
        let mut payload = StringMap::new();
        payload.insert(String::from_str("customer_id"), msg.customer.customer_id.clone());
        payload.insert(String::from_str("event_type"), String::from_str(msg.event_type.name()));
        payload.insert(String::from_str("platform"), String::from_str(msg.platform.as_str()));
        payload.insert(String::from_str("timestamp"), decimal_string(msg.timestamp));
        match &msg.customer.email {
            Some(e) => payload.insert(String::from_str("email"), e.clone()),
            None => {},
        }
        match &msg.customer.segment {
            Some(g) => payload.insert(String::from_str("segment"), g.clone()),
            None => {},
        }
        payload.insert_pairs(&msg.properties);
        Ok(payload)
    }

    /// Whether a record may be activated on a platform: it needs a non-empty
    /// customer id and the fields the platform needs.
    pub fn is_eligible(customer: &CustomerRecord, platform: &Platform) -> (r: KitResult<bool>)
        ensures
            r == Ok::<bool, crate::error::KitError>(eligible(customer@, *platform)),
    {
        if customer.customer_id.as_str().is_empty() {
            return Ok(false);
        }
        Self::validate_for_platform(customer, platform)
    }

    /// The default endpoint URL of a platform.
    pub fn get_platform_endpoint(platform: &Platform) -> (s: String)
        ensures
            s@ == endpoint_url(*platform),
    {
        let u = match platform {
            Platform::Braze => "https://rest.iad-01.braze.com/users/track",
            Platform::Iterable => "https://api.iterable.com/api/users/bulkUpdate",
            Platform::Klaviyo => "https://a.klaviyo.com/api/v1/person",
            Platform::Segment => "https://api.segment.com/v1/batch",
            Platform::Salesforce => "https://instance.salesforce.com/services/data/v57.0/sobjects/Contact",
            Platform::HubSpot => "https://api.hubapi.com/crm/v3/objects/contacts",
            Platform::RudderStack => "https://api.rudderstack.com/v1/identify",
            Platform::Custom => "https://example.com/activate",
        };
        String::from_str(u)
    }

    /// Keeps the first message of each (customer, platform, event type), in
    /// order.
    pub fn deduplicate_messages(messages: &[ActivationMessage]) -> (r: KitResult<
        Vec<ActivationMessage>,
    >)
        ensures
            match r {
                Ok(v) => message_views(v@) == dedup_messages(message_views(messages@)),
                Err(_) => false,
            },
    {
        let ghost s = message_views(messages@);
        let mut kept: Vec<ActivationMessage> = Vec::new();
        let n = messages.len();
        let mut i: usize = 0;
        while i < n
            invariant
                n == messages@.len(),
                s == message_views(messages@),
                i <= n,
                message_views(kept@) == dedup_messages(s.take(i as int)),
            decreases n - i,
        {
            let m = &messages[i];
            let mut seen = false;
            let mut j: usize = 0;
            while j < kept.len()
                invariant
                    n == messages@.len(),
                    s == message_views(messages@),
                    i < n,
                    m == messages@[i as int],
                    j <= kept@.len(),
                    message_views(kept@) == dedup_messages(s.take(i as int)),
                    seen == (exists|w: int|
                        0 <= w < j && message_key(#[trigger] message_views(kept@)[w]) == message_key(
                            m@,
                        )),
                decreases kept@.len() - j,
            {
                let k = &kept[j];
                if !seen && string_eq(&k.customer.customer_id, &m.customer.customer_id)
                    && k.platform == m.platform && k.event_type == m.event_type {
                    seen = true;
                    assert(message_key(message_views(kept@)[j as int]) == message_key(m@));
                }
                j = j + 1;
            }
            proof {
                let t = s.take(i + 1);
                assert(t.drop_last() =~= s.take(i as int));
                assert(t.last() == m@);
                law_dedup_keeps_every_key(s.take(i as int), message_key(m@));
                if seen {
                    let w = choose|w: int|
                        0 <= w < kept@.len() && message_key(#[trigger] message_views(kept@)[w])
                            == message_key(m@);
                    assert(has_message_key(dedup_messages(s.take(i as int)), message_key(m@)));
                    let u = choose|u: int|
                        0 <= u < s.take(i as int).len() && message_key(#[trigger] s.take(
                            i as int,
                        )[u]) == message_key(m@);
                    assert(t[u] == s.take(i as int)[u]);
                    assert(!first_of_key(t, i as int));
                } else {
                    assert forall|u: int| 0 <= u < i implies message_key(#[trigger] t[u])
                        != message_key(t[i as int]) by {
                        assert(t[u] == s.take(i as int)[u]);
                        if message_key(t[u]) == message_key(m@) {
                            assert(has_message_key(s.take(i as int), message_key(m@)));
                            let w = choose|w: int|
                                0 <= w < kept@.len() && message_key(
                                    #[trigger] message_views(kept@)[w],
                                ) == message_key(m@);
                        }
                    }
                    assert(first_of_key(t, i as int));
                }
            }
            if !seen {
                kept.push(m.clone());
            }
            i = i + 1;
            assert(message_views(kept@) =~= dedup_messages(s.take(i as int)));
        }
        assert(s.take(n as int) =~= s);
        Ok(kept)
    }
}

/// Activation counts over a list of results.
#[derive(Clone, Copy, Debug)]
pub struct ActivationStats {
    pub total_messages: usize,
    pub successful: usize,
    pub failed: usize,
    pub retried: usize,
    pub skipped: usize,
}

impl Default for ActivationStats {
    fn default() -> (s: Self)
        ensures
            s.total_messages == 0,
            s.successful == 0,
            s.failed == 0,
            s.retried == 0,
            s.skipped == 0,
    {
        ActivationStats { total_messages: 0, successful: 0, failed: 0, retried: 0, skipped: 0 }
    }
}

/// Whether a result is a success.
pub open spec fn succeeded() -> spec_fn(ActivationResult) -> bool {
    |r: ActivationResult| r.success
}

/// Whether a result is a failure.
pub open spec fn failed() -> spec_fn(ActivationResult) -> bool {
    |r: ActivationResult| !r.success
}

/// The counts of a list of results: all of them, the successes and the
/// failures; none retried or skipped.
pub open spec fn stats_of(s: ActivationStats, results: Seq<ActivationResult>) -> bool {
    &&& s.total_messages == results.len()
    &&& s.successful == keep(results, succeeded()).len()
    &&& s.failed == keep(results, failed()).len()
    &&& s.retried == 0
    &&& s.skipped == 0
}

impl ActivationEngine {
    /// Counts the results, their successes and their failures.
    pub fn calculate_stats(results: &[ActivationResult]) -> (r: KitResult<ActivationStats>)
        ensures
            match r {
                Ok(s) => stats_of(s, results@),
                Err(_) => false,
            },
    {
        let ghost rs = results@;
        let n = results.len();
        let mut ok: usize = 0;
        let mut bad: usize = 0;
        let mut i: usize = 0;
        while i < n
            invariant
                n == results@.len(),
                rs == results@,
                i <= n,
                ok == keep(rs.take(i as int), succeeded()).len(),
                bad == keep(rs.take(i as int), failed()).len(),
            decreases n - i,
        {
            proof {
                lemma_keep_step(rs, succeeded(), i as int);
                lemma_keep_step(rs, failed(), i as int);
                lemma_keep_sound(rs.take(i as int), succeeded());
                lemma_keep_sound(rs.take(i as int), failed());
            }
            if results[i].success {
                ok = ok + 1;
            } else {
                bad = bad + 1;
            }
            i = i + 1;
        }
        assert(rs.take(n as int) =~= rs);
        Ok(ActivationStats { total_messages: n, successful: ok, failed: bad, retried: 0, skipped: 0 })
    }
}

} // verus!
