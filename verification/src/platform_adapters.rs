//! Platform-specific adapters: how each platform's event payload, endpoint
//! and authorization header are built from an activation message and a
//! credential.

use vstd::prelude::*;

use crate::activation::{
    endpoint_url, opt_insert, payload_of, ActivationEngine, ActivationMessage, MessageView,
    Platform, PlatformCredential,
};
use crate::error::KitResult;
use crate::string_map::{
    insert_all, lemma_insert_all_distinct, lemma_pairs_keys_distinct, pairs_with, seq_has_key, StringMap,
};
use crate::text::{debug_map, render_debug_map};

verus! {

/// An optional value, or the empty text when absent.
pub open spec fn or_empty(v: Option<Seq<char>>) -> Seq<char> {
    match v {
        Some(s) => s,
        None => Seq::empty(),
    }
}

/// Attributes with every key prefixed.
pub open spec fn prefixed_pairs(prefix: Seq<char>, s: Seq<(Seq<char>, Seq<char>)>) -> Seq<
    (Seq<char>, Seq<char>),
> {
    s.map_values(|e: (Seq<char>, Seq<char>)| (prefix + e.0, e.1))
}

/// The attributes with the segment added under key `segment` (when present).
pub open spec fn traits_pairs(m: MessageView) -> Seq<(Seq<char>, Seq<char>)> {
    match m.customer.segment {
        Some(g) => pairs_with(m.customer.attributes, "segment"@, g),
        None => m.customer.attributes,
    }
}

type Entries = Map<Seq<char>, Seq<char>>;

/// Braze "track users" event.
pub open spec fn braze_event(m: MessageView) -> Entries {
    let a = Map::<Seq<char>, Seq<char>>::empty().insert("external_id"@, m.customer.customer_id);
    let b = opt_insert(a, "email"@, m.customer.email);
    let c = b.insert("custom_attributes"@, debug_map(m.customer.attributes));
    opt_insert(c, "segment"@, m.customer.segment)
}

/// Iterable event.
pub open spec fn iterable_event(m: MessageView) -> Entries {
    let a = Map::<Seq<char>, Seq<char>>::empty().insert("email"@, or_empty(m.customer.email));
    let b = a.insert("dataFields"@, debug_map(m.customer.attributes));
    opt_insert(b, "listId"@, m.customer.segment)
}

/// Klaviyo event.
pub open spec fn klaviyo_event(m: MessageView) -> Entries {
    let a = Map::<Seq<char>, Seq<char>>::empty().insert("email"@, or_empty(m.customer.email));
    let b = opt_insert(a, "phone_number"@, m.customer.phone);
    let c = b.insert("properties"@, debug_map(m.customer.attributes));
    opt_insert(c, "list_id"@, m.customer.segment)
}

/// Salesforce contact record.
pub open spec fn salesforce_event(m: MessageView) -> Entries {
    insert_all(salesforce_fields(m), m.customer.attributes)
}

/// The Salesforce fields before the customer's attributes: email when
/// present, external id, segment when present.
pub open spec fn salesforce_fields(m: MessageView) -> Entries {
    let a = opt_insert(Map::<Seq<char>, Seq<char>>::empty(), "Email"@, m.customer.email);
    let b = a.insert("External_Id__c"@, m.customer.customer_id);
    opt_insert(b, "Segment__c"@, m.customer.segment)
}

/// HubSpot contact record.
pub open spec fn hubspot_event(m: MessageView) -> Entries {
    let a = opt_insert(Map::<Seq<char>, Seq<char>>::empty(), "email"@, m.customer.email);
    let b = a.insert("hs_lead_status"@, or_empty(m.customer.segment));
    insert_all(b, prefixed_pairs("custom_"@, m.customer.attributes))
}

/// Segment identify call.
pub open spec fn segment_event(m: MessageView) -> Entries {
    let a = Map::<Seq<char>, Seq<char>>::empty().insert("userId"@, m.customer.customer_id);
    let b = opt_insert(a, "email"@, m.customer.email);
    b.insert("traits"@, debug_map(traits_pairs(m)))
}

/// RudderStack identify call.
pub open spec fn rudderstack_event(m: MessageView) -> Entries {
    let a = opt_insert(Map::<Seq<char>, Seq<char>>::empty(), "email"@, m.customer.email);
    let b = a.insert("anonymousId"@, m.customer.customer_id);
    b.insert("traits"@, debug_map(traits_pairs(m)))
}

/// Pairs none of which has key `k` leave the value under `k` as it was.
pub proof fn lemma_insert_all_untouched(
    m: Map<Seq<char>, Seq<char>>,
    pairs: Seq<(Seq<char>, Seq<char>)>,
    k: Seq<char>,
)
    requires
        forall|i: int| 0 <= i < pairs.len() ==> #[trigger] pairs[i].0 != k,
    ensures
        insert_all(m, pairs).dom().contains(k) == m.dom().contains(k),
        insert_all(m, pairs)[k] == m[k],
    decreases pairs.len(),
{
    if pairs.len() > 0 {
        let rest = pairs.drop_last();
        assert forall|i: int| 0 <= i < rest.len() implies #[trigger] rest[i].0 != k by {
            assert(rest[i] == pairs[i]);
        }
        assert(pairs.last().0 != k);
        lemma_insert_all_untouched(m, rest, k);
    }
}

/// Every platform event that names the customer by id carries the
/// message's customer id: Braze under `external_id`, Segment under `userId`,
/// RudderStack under `anonymousId`, and Salesforce under `External_Id__c`
/// unless one of the customer's attributes has that very key.
pub proof fn law_events_carry_customer_id(m: MessageView)
    ensures
        braze_event(m).dom().contains("external_id"@),
        braze_event(m)["external_id"@] == m.customer.customer_id,
        segment_event(m).dom().contains("userId"@),
        segment_event(m)["userId"@] == m.customer.customer_id,
        rudderstack_event(m).dom().contains("anonymousId"@),
        rudderstack_event(m)["anonymousId"@] == m.customer.customer_id,
        (forall|i: int|
            0 <= i < m.customer.attributes.len() ==> #[trigger] m.customer.attributes[i].0
                != "External_Id__c"@) ==> salesforce_event(m).dom().contains("External_Id__c"@)
            && salesforce_event(m)["External_Id__c"@] == m.customer.customer_id,
{
    reveal_strlit("external_id");
    reveal_strlit("email");
    reveal_strlit("custom_attributes");
    reveal_strlit("segment");
    reveal_strlit("userId");
    reveal_strlit("traits");
    reveal_strlit("anonymousId");
    reveal_strlit("External_Id__c");
    reveal_strlit("Segment__c");
    assert("email"@.len() != "external_id"@.len());
    assert("custom_attributes"@.len() != "external_id"@.len());
    assert("segment"@ != "external_id"@);
    assert("email"@ != "userId"@);
    assert("traits"@[0] != "userId"@[0]);
    assert("traits"@.len() != "anonymousId"@.len());
    assert("Segment__c"@.len() != "External_Id__c"@.len());
    if forall|i: int|
        0 <= i < m.customer.attributes.len() ==> #[trigger] m.customer.attributes[i].0 != "External_Id__c"@ {
        lemma_insert_all_untouched(salesforce_fields(m), m.customer.attributes, "External_Id__c"@);
    }
}

/// Every platform event carries the customer's email and segment under the
/// platform's own keys: Iterable and Klaviyo always send the email (empty
/// when there is none); Braze, Segment, RudderStack and HubSpot send it when
/// there is one; HubSpot's lead status is the segment (empty when there is
/// none); Braze sends the segment as `segment`, Iterable as `listId` and
/// Klaviyo as `list_id` when there is one.
pub proof fn law_events_carry_contact_fields(m: MessageView)
    ensures
        iterable_event(m).dom().contains("email"@),
        iterable_event(m)["email"@] == or_empty(m.customer.email),
        klaviyo_event(m).dom().contains("email"@),
        klaviyo_event(m)["email"@] == or_empty(m.customer.email),
        m.customer.email matches Some(e) ==> braze_event(m).dom().contains("email"@) && braze_event(m)["email"@]
            == e && segment_event(m).dom().contains("email"@) && segment_event(m)["email"@] == e
            && rudderstack_event(m).dom().contains("email"@) && rudderstack_event(m)["email"@] == e
            && hubspot_event(m).dom().contains("email"@) && hubspot_event(m)["email"@] == e,
        hubspot_event(m).dom().contains("hs_lead_status"@),
        hubspot_event(m)["hs_lead_status"@] == or_empty(m.customer.segment),
        m.customer.segment matches Some(g) ==> braze_event(m).dom().contains("segment"@) && braze_event(
            m,
        )["segment"@] == g && iterable_event(m).dom().contains("listId"@) && iterable_event(m)["listId"@]
            == g && klaviyo_event(m).dom().contains("list_id"@) && klaviyo_event(m)["list_id"@] == g,
{
    reveal_strlit("email");
    reveal_strlit("dataFields");
    reveal_strlit("listId");
    reveal_strlit("phone_number");
    reveal_strlit("properties");
    reveal_strlit("list_id");
    reveal_strlit("custom_attributes");
    reveal_strlit("segment");
    reveal_strlit("traits");
    reveal_strlit("anonymousId");
    reveal_strlit("hs_lead_status");
    reveal_strlit("custom_");
    assert("dataFields"@.len() != "email"@.len());
    assert("phone_number"@.len() != "email"@.len());
    assert("properties"@.len() != "email"@.len());
    assert("list_id"@.len() != "email"@.len());
    assert("listId"@.len() != "email"@.len());
    assert("custom_attributes"@.len() != "email"@.len());
    assert("segment"@.len() != "email"@.len());
    assert("traits"@.len() != "email"@.len());
    assert("anonymousId"@.len() != "email"@.len());
    assert("hs_lead_status"@.len() != "email"@.len());
    assert("custom_attributes"@.len() != "segment"@.len());
    assert("dataFields"@.len() != "listId"@.len());
    let hp = prefixed_pairs("custom_"@, m.customer.attributes);
    assert forall|i: int| 0 <= i < hp.len() implies #[trigger] hp[i].0 != "hs_lead_status"@ && hp[i].0
        != "email"@ by {
        assert(hp[i].0 == "custom_"@ + m.customer.attributes[i].0);
        if m.customer.attributes[i].0.len() == 7 {
            assert(hp[i].0[1] != "hs_lead_status"@[1]);
        } else {
            assert(hp[i].0.len() != "hs_lead_status"@.len());
        }
        assert(hp[i].0.len() != "email"@.len());
    }
    let a = opt_insert(Map::<Seq<char>, Seq<char>>::empty(), "email"@, m.customer.email);
    let b = a.insert("hs_lead_status"@, or_empty(m.customer.segment));
    assert forall|i: int| 0 <= i < hp.len() implies #[trigger] hp[i].0 != "hs_lead_status"@ by {}
    lemma_insert_all_untouched(b, hp, "hs_lead_status"@);
    assert forall|i: int| 0 <= i < hp.len() implies #[trigger] hp[i].0 != "email"@ by {}
    lemma_insert_all_untouched(b, hp, "email"@);
}

/// The configured endpoint, or the given default.
pub open spec fn endpoint_or(c: PlatformCredential, default: Seq<char>) -> Seq<char> {
    match c.endpoint {
        Some(e) => e@,
        None => default,
    }
}

fn endpoint_or_default(c: &PlatformCredential, platform: Platform) -> (s: String)
    ensures
        s@ == endpoint_or(*c, endpoint_url(platform)),
{
    match &c.endpoint {
        Some(e) => e.clone(),
        None => ActivationEngine::get_platform_endpoint(&platform),
    }
}

fn insert_opt(m: &mut StringMap, key: &str, v: &Option<String>)
    ensures
        final(m)@ == opt_insert(old(m)@, key@, crate::activation::opt_view(*v)),
{
    match v {
        Some(x) => m.insert(String::from_str(key), x.clone()),
        None => {},
    }
}

fn value_or_empty(v: &Option<String>) -> (s: String)
    ensures
        s@ == or_empty(crate::activation::opt_view(*v)),
{
    match v {
        Some(x) => x.clone(),
        None => String::new(),
    }
}

/// An `Authorization` header whose value is `scheme` followed by the key.
fn authorization(scheme: &str, key: &String) -> (h: (String, String))
    ensures
        h.0@ == "Authorization"@,
        h.1@ == scheme@ + key@,
{
    let mut v = String::from_str(scheme);
    v.append(key.as_str());
    (String::from_str("Authorization"), v)
}

/// The attributes of a message with its segment added (when present).
fn traits_of(msg: &ActivationMessage) -> (t: StringMap)
    ensures
        t.pairs() == traits_pairs(msg@),
{
    let mut t = msg.customer.attributes.clone_map();
    match &msg.customer.segment {
        Some(g) => t.insert(String::from_str("segment"), g.clone()),
        None => {},
    }
    t
}

/// Braze API adapter.
pub struct BrazeAdapter {
    credential: PlatformCredential,
}

impl BrazeAdapter {
    /// The credential the adapter holds.
    pub closed spec fn cred(&self) -> PlatformCredential {
        self.credential
    }

    pub fn new(credential: PlatformCredential) -> (a: Self)
        ensures
            a.cred() == credential,
    {
        BrazeAdapter { credential }
    }

    /// The event for the track-users endpoint.
    pub fn format_event(&self, msg: &ActivationMessage) -> (r: KitResult<StringMap>)
        ensures
            match r {
                Ok(e) => e@ == braze_event(msg@),
                Err(_) => false,
            },
    {
        let mut e = StringMap::new();
        e.insert(String::from_str("external_id"), msg.customer.customer_id.clone());
        insert_opt(&mut e, "email", &msg.customer.email);
        e.insert(String::from_str("custom_attributes"), render_debug_map(&msg.customer.attributes));
        insert_opt(&mut e, "segment", &msg.customer.segment);
        Ok(e)
    }

    pub fn get_endpoint(&self) -> (s: String)
        ensures
            s@ == endpoint_or(self.cred(), endpoint_url(Platform::Braze)),
    {
        endpoint_or_default(&self.credential, Platform::Braze)
    }

    pub fn get_auth_header(&self) -> (r: KitResult<(String, String)>)
        ensures
            match r {
                Ok(h) => h.0@ == "Authorization"@ && h.1@ == "Bearer "@ + self.cred().api_key@,
                Err(_) => false,
            },
    {
        Ok(authorization("Bearer ", &self.credential.api_key))
    }
}

/// Iterable API adapter.
pub struct IterableAdapter {
    credential: PlatformCredential,
}

impl IterableAdapter {
    /// The credential the adapter holds.
    pub closed spec fn cred(&self) -> PlatformCredential {
        self.credential
    }

    pub fn new(credential: PlatformCredential) -> (a: Self)
        ensures
            a.cred() == credential,
    {
        IterableAdapter { credential }
    }

    pub fn format_event(&self, msg: &ActivationMessage) -> (r: KitResult<StringMap>)
        ensures
            match r {
                Ok(e) => e@ == iterable_event(msg@),
                Err(_) => false,
            },
    {
        let mut e = StringMap::new();
        e.insert(String::from_str("email"), value_or_empty(&msg.customer.email));
        e.insert(String::from_str("dataFields"), render_debug_map(&msg.customer.attributes));
        insert_opt(&mut e, "listId", &msg.customer.segment);
        Ok(e)
    }

    pub fn get_endpoint(&self) -> (s: String)
        ensures
            s@ == endpoint_or(self.cred(), endpoint_url(Platform::Iterable)),
    {
        endpoint_or_default(&self.credential, Platform::Iterable)
    }

    pub fn get_auth_header(&self) -> (r: KitResult<(String, String)>)
        ensures
            match r {
                Ok(h) => h.0@ == "Api-Key"@ && h.1@ == self.cred().api_key@,
                Err(_) => false,
            },
    {
        Ok((String::from_str("Api-Key"), self.credential.api_key.clone()))
    }
}

/// Klaviyo API adapter.
pub struct KlaviyoAdapter {
    credential: PlatformCredential,
}

impl KlaviyoAdapter {
    /// The credential the adapter holds.
    pub closed spec fn cred(&self) -> PlatformCredential {
        self.credential
    }

    pub fn new(credential: PlatformCredential) -> (a: Self)
        ensures
            a.cred() == credential,
    {
        KlaviyoAdapter { credential }
    }

    pub fn format_event(&self, msg: &ActivationMessage) -> (r: KitResult<StringMap>)
        ensures
            match r {
                Ok(e) => e@ == klaviyo_event(msg@),
                Err(_) => false,
            },
    {
        let mut e = StringMap::new();
        e.insert(String::from_str("email"), value_or_empty(&msg.customer.email));
        insert_opt(&mut e, "phone_number", &msg.customer.phone);
        e.insert(String::from_str("properties"), render_debug_map(&msg.customer.attributes));
        insert_opt(&mut e, "list_id", &msg.customer.segment);
        Ok(e)
    }

    pub fn get_endpoint(&self) -> (s: String)
        ensures
            s@ == endpoint_or(self.cred(), endpoint_url(Platform::Klaviyo)),
    {
        endpoint_or_default(&self.credential, Platform::Klaviyo)
    }

    pub fn get_auth_header(&self) -> (r: KitResult<(String, String)>)
        ensures
            match r {
                Ok(h) => h.0@ == "Authorization"@ && h.1@ == "Klaviyo-API-Key "@
                    + self.cred().api_key@,
                Err(_) => false,
            },
    {
        Ok(authorization("Klaviyo-API-Key ", &self.credential.api_key))
    }
}

/// Salesforce API adapter.
pub struct SalesforceAdapter {
    credential: PlatformCredential,
}

impl SalesforceAdapter {
    /// The credential the adapter holds.
    pub closed spec fn cred(&self) -> PlatformCredential {
        self.credential
    }

    pub fn new(credential: PlatformCredential) -> (a: Self)
        ensures
            a.cred() == credential,
    {
        SalesforceAdapter { credential }
    }

    pub fn format_event(&self, msg: &ActivationMessage) -> (r: KitResult<StringMap>)
        ensures
            match r {
                Ok(e) => {
                    &&& e@ == salesforce_event(msg@)
                    &&& forall|i: int|
                        0 <= i < msg.customer.attributes.pairs().len() ==> e@.dom().contains(
                            #[trigger] msg.customer.attributes.pairs()[i].0,
                        ) && e@[msg.customer.attributes.pairs()[i].0]
                            == msg.customer.attributes.pairs()[i].1
                    &&& forall|k: Seq<char>|
                        !seq_has_key(msg.customer.attributes.pairs(), k) ==> (#[trigger] e@.dom().contains(k)
                            == salesforce_fields(msg@).dom().contains(k)) && (e@.dom().contains(k)
                            ==> e@[k] == salesforce_fields(msg@)[k])
                },
                Err(_) => false,
            },
    {
        proof {
            lemma_pairs_keys_distinct(&msg.customer.attributes);
            lemma_insert_all_distinct(salesforce_fields(msg@), msg.customer.attributes.pairs());
        }
        let mut e = StringMap::new();
        insert_opt(&mut e, "Email", &msg.customer.email);
        e.insert(String::from_str("External_Id__c"), msg.customer.customer_id.clone());
        insert_opt(&mut e, "Segment__c", &msg.customer.segment);
        e.insert_pairs(&msg.customer.attributes);
        Ok(e)
    }

    pub fn get_endpoint(&self) -> (s: String)
        ensures
            s@ == endpoint_or(self.cred(), endpoint_url(Platform::Salesforce)),
    {
        endpoint_or_default(&self.credential, Platform::Salesforce)
    }

    pub fn get_auth_header(&self) -> (r: KitResult<(String, String)>)
        ensures
            match r {
                Ok(h) => h.0@ == "Authorization"@ && h.1@ == "Bearer "@ + self.cred().api_key@,
                Err(_) => false,
            },
    {
        Ok(authorization("Bearer ", &self.credential.api_key))
    }
}

/// HubSpot API adapter.
pub struct HubSpotAdapter {
    credential: PlatformCredential,
}

impl HubSpotAdapter {
    /// The credential the adapter holds.
    pub closed spec fn cred(&self) -> PlatformCredential {
        self.credential
    }

    pub fn new(credential: PlatformCredential) -> (a: Self)
        ensures
            a.cred() == credential,
    {
        HubSpotAdapter { credential }
    }

    pub fn format_event(&self, msg: &ActivationMessage) -> (r: KitResult<StringMap>)
        ensures
            match r {
                Ok(e) => e@ == hubspot_event(msg@),
                Err(_) => false,
            },
    {
        let mut e = StringMap::new();
        insert_opt(&mut e, "email", &msg.customer.email);
        e.insert(String::from_str("hs_lead_status"), value_or_empty(&msg.customer.segment));
        let ghost base = e@;
        let attrs = &msg.customer.attributes;
        let n = attrs.len();
        let mut i: usize = 0;
        while i < n
            invariant
                n == attrs.pairs().len(),
                i <= n,
                e@ == insert_all(base, prefixed_pairs("custom_"@, attrs.pairs().take(i as int))),
            decreases n - i,
        {
            let (k, v) = attrs.entry_at(i);
            let mut key = String::from_str("custom_");
            key.append(k.as_str());
            e.insert(key, v.clone());
            proof {
                let t = prefixed_pairs("custom_"@, attrs.pairs().take(i + 1));
                assert(t.drop_last() =~= prefixed_pairs("custom_"@, attrs.pairs().take(i as int)));
            }
            i = i + 1;
        }
        assert(attrs.pairs().take(n as int) =~= attrs.pairs());
        Ok(e)
    }

    pub fn get_endpoint(&self) -> (s: String)
        ensures
            s@ == endpoint_or(self.cred(), endpoint_url(Platform::HubSpot)),
    {
        endpoint_or_default(&self.credential, Platform::HubSpot)
    }

    pub fn get_auth_header(&self) -> (r: KitResult<(String, String)>)
        ensures
            match r {
                Ok(h) => h.0@ == "Authorization"@ && h.1@ == "Bearer "@ + self.cred().api_key@,
                Err(_) => false,
            },
    {
        Ok(authorization("Bearer ", &self.credential.api_key))
    }
}

/// Segment API adapter.
pub struct SegmentAdapter {
    credential: PlatformCredential,
}

impl SegmentAdapter {
    /// The credential the adapter holds.
    pub closed spec fn cred(&self) -> PlatformCredential {
        self.credential
    }

    pub fn new(credential: PlatformCredential) -> (a: Self)
        ensures
            a.cred() == credential,
    {
        SegmentAdapter { credential }
    }

    pub fn format_event(&self, msg: &ActivationMessage) -> (r: KitResult<StringMap>)
        ensures
            match r {
                Ok(e) => e@ == segment_event(msg@),
                Err(_) => false,
            },
    {
        let mut e = StringMap::new();
        e.insert(String::from_str("userId"), msg.customer.customer_id.clone());
        insert_opt(&mut e, "email", &msg.customer.email);
        let traits = traits_of(msg);
        e.insert(String::from_str("traits"), render_debug_map(&traits));
        Ok(e)
    }

    pub fn get_endpoint(&self) -> (s: String)
        ensures
            s@ == endpoint_or(self.cred(), endpoint_url(Platform::Segment)),
    {
        endpoint_or_default(&self.credential, Platform::Segment)
    }

    pub fn get_auth_header(&self) -> (r: KitResult<(String, String)>)
        ensures
            match r {
                Ok(h) => h.0@ == "Authorization"@ && h.1@ == "Basic "@ + self.cred().api_key@,
                Err(_) => false,
            },
    {
        Ok(authorization("Basic ", &self.credential.api_key))
    }
}

/// RudderStack API adapter.
pub struct RudderStackAdapter {
    credential: PlatformCredential,
}

impl RudderStackAdapter {
    /// The credential the adapter holds.
    pub closed spec fn cred(&self) -> PlatformCredential {
        self.credential
    }

    pub fn new(credential: PlatformCredential) -> (a: Self)
        ensures
            a.cred() == credential,
    {
        RudderStackAdapter { credential }
    }

    pub fn format_event(&self, msg: &ActivationMessage) -> (r: KitResult<StringMap>)
        ensures
            match r {
                Ok(e) => e@ == rudderstack_event(msg@),
                Err(_) => false,
            },
    {
        let mut e = StringMap::new();
        insert_opt(&mut e, "email", &msg.customer.email);
        e.insert(String::from_str("anonymousId"), msg.customer.customer_id.clone());
        let traits = traits_of(msg);
        e.insert(String::from_str("traits"), render_debug_map(&traits));
        Ok(e)
    }

    pub fn get_endpoint(&self) -> (s: String)
        ensures
            s@ == endpoint_or(self.cred(), endpoint_url(Platform::RudderStack)),
    {
        endpoint_or_default(&self.credential, Platform::RudderStack)
    }

    pub fn get_auth_header(&self) -> (r: KitResult<(String, String)>)
        ensures
            match r {
                Ok(h) => h.0@ == "Authorization"@ && h.1@ == "Bearer "@ + self.cred().api_key@,
                Err(_) => false,
            },
    {
        Ok(authorization("Bearer ", &self.credential.api_key))
    }
}

/// Custom platform adapter: the payload is the generic activation payload.
pub struct CustomAdapter {
    credential: PlatformCredential,
}

impl CustomAdapter {
    /// The credential the adapter holds.
    pub closed spec fn cred(&self) -> PlatformCredential {
        self.credential
    }

    pub fn new(credential: PlatformCredential) -> (a: Self)
        ensures
            a.cred() == credential,
    {
        CustomAdapter { credential }
    }

    pub fn format_event(&self, msg: &ActivationMessage) -> (r: KitResult<StringMap>)
        ensures
            match r {
                Ok(e) => e@ == payload_of(msg@),
                Err(_) => false,
            },
    {
        ActivationEngine::build_payload(msg)
    }

    pub fn get_endpoint(&self) -> (s: String)
        ensures
            s@ == endpoint_or(self.cred(), "https://example.com/activate"@),
    {
        match &self.credential.endpoint {
            Some(e) => e.clone(),
            None => String::from_str("https://example.com/activate"),
        }
    }

    pub fn get_auth_header(&self) -> (r: KitResult<(String, String)>)
        ensures
            match r {
                Ok(h) => h.0@ == "Authorization"@ && h.1@ == "Bearer "@ + self.cred().api_key@,
                Err(_) => false,
            },
    {
        Ok(authorization("Bearer ", &self.credential.api_key))
    }
}

/// Common interface of the platform adapters.
pub trait PlatformAdapter {
    fn format_event(&self, msg: &ActivationMessage) -> KitResult<StringMap>;

    fn get_endpoint(&self) -> String;

    fn get_auth_header(&self) -> KitResult<(String, String)>;
}

impl PlatformAdapter for BrazeAdapter {
    fn format_event(&self, msg: &ActivationMessage) -> (r: KitResult<StringMap>)
        ensures
            match r {
                Ok(e) => e@ == braze_event(msg@),
                Err(_) => false,
            },
    {
        BrazeAdapter::format_event(self, msg)
    }

    fn get_endpoint(&self) -> (s: String)
        ensures
            s@ == endpoint_or(self.cred(), endpoint_url(Platform::Braze)),
    {
        BrazeAdapter::get_endpoint(self)
    }

    fn get_auth_header(&self) -> (r: KitResult<(String, String)>)
        ensures
            match r {
                Ok(h) => h.0@ == "Authorization"@ && h.1@ == "Bearer "@ + self.cred().api_key@,
                Err(_) => false,
            },
    {
        BrazeAdapter::get_auth_header(self)
    }
}

impl PlatformAdapter for IterableAdapter {
    fn format_event(&self, msg: &ActivationMessage) -> (r: KitResult<StringMap>)
        ensures
            match r {
                Ok(e) => e@ == iterable_event(msg@),
                Err(_) => false,
            },
    {
        IterableAdapter::format_event(self, msg)
    }

    fn get_endpoint(&self) -> (s: String)
        ensures
            s@ == endpoint_or(self.cred(), endpoint_url(Platform::Iterable)),
    {
        IterableAdapter::get_endpoint(self)
    }

    fn get_auth_header(&self) -> (r: KitResult<(String, String)>)
        ensures
            match r {
                Ok(h) => h.0@ == "Api-Key"@ && h.1@ == self.cred().api_key@,
                Err(_) => false,
            },
    {
        IterableAdapter::get_auth_header(self)
    }
}

impl PlatformAdapter for KlaviyoAdapter {
    fn format_event(&self, msg: &ActivationMessage) -> (r: KitResult<StringMap>)
        ensures
            match r {
                Ok(e) => e@ == klaviyo_event(msg@),
                Err(_) => false,
            },
    {
        KlaviyoAdapter::format_event(self, msg)
    }

    fn get_endpoint(&self) -> (s: String)
        ensures
            s@ == endpoint_or(self.cred(), endpoint_url(Platform::Klaviyo)),
    {
        KlaviyoAdapter::get_endpoint(self)
    }

    fn get_auth_header(&self) -> (r: KitResult<(String, String)>)
        ensures
            match r {
                Ok(h) => h.0@ == "Authorization"@ && h.1@ == "Klaviyo-API-Key "@
                    + self.cred().api_key@,
                Err(_) => false,
            },
    {
        KlaviyoAdapter::get_auth_header(self)
    }
}

impl PlatformAdapter for SalesforceAdapter {
    fn format_event(&self, msg: &ActivationMessage) -> (r: KitResult<StringMap>)
        ensures
            match r {
                Ok(e) => {
                    &&& e@ == salesforce_event(msg@)
                    &&& forall|i: int|
                        0 <= i < msg.customer.attributes.pairs().len() ==> e@.dom().contains(
                            #[trigger] msg.customer.attributes.pairs()[i].0,
                        ) && e@[msg.customer.attributes.pairs()[i].0]
                            == msg.customer.attributes.pairs()[i].1
                    &&& forall|k: Seq<char>|
                        !seq_has_key(msg.customer.attributes.pairs(), k) ==> (#[trigger] e@.dom().contains(k)
                            == salesforce_fields(msg@).dom().contains(k)) && (e@.dom().contains(k)
                            ==> e@[k] == salesforce_fields(msg@)[k])
                },
                Err(_) => false,
            },
    {
        SalesforceAdapter::format_event(self, msg)
    }

    fn get_endpoint(&self) -> (s: String)
        ensures
            s@ == endpoint_or(self.cred(), endpoint_url(Platform::Salesforce)),
    {
        SalesforceAdapter::get_endpoint(self)
    }

    fn get_auth_header(&self) -> (r: KitResult<(String, String)>)
        ensures
            match r {
                Ok(h) => h.0@ == "Authorization"@ && h.1@ == "Bearer "@ + self.cred().api_key@,
                Err(_) => false,
            },
    {
        SalesforceAdapter::get_auth_header(self)
    }
}

impl PlatformAdapter for HubSpotAdapter {
    fn format_event(&self, msg: &ActivationMessage) -> (r: KitResult<StringMap>)
        ensures
            match r {
                Ok(e) => e@ == hubspot_event(msg@),
                Err(_) => false,
            },
    {
        HubSpotAdapter::format_event(self, msg)
    }

    fn get_endpoint(&self) -> (s: String)
        ensures
            s@ == endpoint_or(self.cred(), endpoint_url(Platform::HubSpot)),
    {
        HubSpotAdapter::get_endpoint(self)
    }

    fn get_auth_header(&self) -> (r: KitResult<(String, String)>)
        ensures
            match r {
                Ok(h) => h.0@ == "Authorization"@ && h.1@ == "Bearer "@ + self.cred().api_key@,
                Err(_) => false,
            },
    {
        HubSpotAdapter::get_auth_header(self)
    }
}

impl PlatformAdapter for SegmentAdapter {
    fn format_event(&self, msg: &ActivationMessage) -> (r: KitResult<StringMap>)
        ensures
            match r {
                Ok(e) => e@ == segment_event(msg@),
                Err(_) => false,
            },
    {
        SegmentAdapter::format_event(self, msg)
    }

    fn get_endpoint(&self) -> (s: String)
        ensures
            s@ == endpoint_or(self.cred(), endpoint_url(Platform::Segment)),
    {
        SegmentAdapter::get_endpoint(self)
    }

    fn get_auth_header(&self) -> (r: KitResult<(String, String)>)
        ensures
            match r {
                Ok(h) => h.0@ == "Authorization"@ && h.1@ == "Basic "@ + self.cred().api_key@,
                Err(_) => false,
            },
    {
        SegmentAdapter::get_auth_header(self)
    }
}

impl PlatformAdapter for RudderStackAdapter {
    fn format_event(&self, msg: &ActivationMessage) -> (r: KitResult<StringMap>)
        ensures
            match r {
                Ok(e) => e@ == rudderstack_event(msg@),
                Err(_) => false,
            },
    {
        RudderStackAdapter::format_event(self, msg)
    }

    fn get_endpoint(&self) -> (s: String)
        ensures
            s@ == endpoint_or(self.cred(), endpoint_url(Platform::RudderStack)),
    {
        RudderStackAdapter::get_endpoint(self)
    }

    fn get_auth_header(&self) -> (r: KitResult<(String, String)>)
        ensures
            match r {
                Ok(h) => h.0@ == "Authorization"@ && h.1@ == "Bearer "@ + self.cred().api_key@,
                Err(_) => false,
            },
    {
        RudderStackAdapter::get_auth_header(self)
    }
}

impl PlatformAdapter for CustomAdapter {
    fn format_event(&self, msg: &ActivationMessage) -> (r: KitResult<StringMap>)
        ensures
            match r {
                Ok(e) => e@ == payload_of(msg@),
                Err(_) => false,
            },
    {
        CustomAdapter::format_event(self, msg)
    }

    fn get_endpoint(&self) -> (s: String)
        ensures
            s@ == endpoint_or(self.cred(), "https://example.com/activate"@),
    {
        CustomAdapter::get_endpoint(self)
    }

    fn get_auth_header(&self) -> (r: KitResult<(String, String)>)
        ensures
            match r {
                Ok(h) => h.0@ == "Authorization"@ && h.1@ == "Bearer "@ + self.cred().api_key@,
                Err(_) => false,
            },
    {
        CustomAdapter::get_auth_header(self)
    }
}

/// An adapter for any supported platform.
pub enum AnyAdapter {
    Braze(BrazeAdapter),
    Iterable(IterableAdapter),
    Klaviyo(KlaviyoAdapter),
    Salesforce(SalesforceAdapter),
    HubSpot(HubSpotAdapter),
    Segment(SegmentAdapter),
    RudderStack(RudderStackAdapter),
    Custom(CustomAdapter),
}

impl AnyAdapter {
    /// The platform the adapter serves.
    pub open spec fn platform(&self) -> Platform {
        match self {
            AnyAdapter::Braze(_) => Platform::Braze,
            AnyAdapter::Iterable(_) => Platform::Iterable,
            AnyAdapter::Klaviyo(_) => Platform::Klaviyo,
            AnyAdapter::Salesforce(_) => Platform::Salesforce,
            AnyAdapter::HubSpot(_) => Platform::HubSpot,
            AnyAdapter::Segment(_) => Platform::Segment,
            AnyAdapter::RudderStack(_) => Platform::RudderStack,
            AnyAdapter::Custom(_) => Platform::Custom,
        }
    }

    /// The credential the adapter holds.
    pub open spec fn cred(&self) -> PlatformCredential {
        match self {
            AnyAdapter::Braze(a) => a.cred(),
            AnyAdapter::Iterable(a) => a.cred(),
            AnyAdapter::Klaviyo(a) => a.cred(),
            AnyAdapter::Salesforce(a) => a.cred(),
            AnyAdapter::HubSpot(a) => a.cred(),
            AnyAdapter::Segment(a) => a.cred(),
            AnyAdapter::RudderStack(a) => a.cred(),
            AnyAdapter::Custom(a) => a.cred(),
        }
    }

    /// The endpoint used when the credential names none.
    pub open spec fn default_endpoint(&self) -> Seq<char> {
        match self {
            AnyAdapter::Custom(_) => "https://example.com/activate"@,
            _ => endpoint_url(self.platform()),
        }
    }

    pub fn format_event(&self, msg: &ActivationMessage) -> (r: KitResult<StringMap>)
        ensures
            match r {
                Ok(e) => e@ == match self.platform() {
                    Platform::Braze => braze_event(msg@),
                    Platform::Iterable => iterable_event(msg@),
                    Platform::Klaviyo => klaviyo_event(msg@),
                    Platform::Salesforce => salesforce_event(msg@),
                    Platform::HubSpot => hubspot_event(msg@),
                    Platform::Segment => segment_event(msg@),
                    Platform::RudderStack => rudderstack_event(msg@),
                    Platform::Custom => payload_of(msg@),
                },
                Err(_) => false,
            },
    {
        match self {
            AnyAdapter::Braze(a) => a.format_event(msg),
            AnyAdapter::Iterable(a) => a.format_event(msg),
            AnyAdapter::Klaviyo(a) => a.format_event(msg),
            AnyAdapter::Salesforce(a) => a.format_event(msg),
            AnyAdapter::HubSpot(a) => a.format_event(msg),
            AnyAdapter::Segment(a) => a.format_event(msg),
            AnyAdapter::RudderStack(a) => a.format_event(msg),
            AnyAdapter::Custom(a) => a.format_event(msg),
        }
    }

    pub fn get_endpoint(&self) -> (s: String)
        ensures
            s@ == endpoint_or(self.cred(), self.default_endpoint()),
    {
        match self {
            AnyAdapter::Braze(a) => a.get_endpoint(),
            AnyAdapter::Iterable(a) => a.get_endpoint(),
            AnyAdapter::Klaviyo(a) => a.get_endpoint(),
            AnyAdapter::Salesforce(a) => a.get_endpoint(),
            AnyAdapter::HubSpot(a) => a.get_endpoint(),
            AnyAdapter::Segment(a) => a.get_endpoint(),
            AnyAdapter::RudderStack(a) => a.get_endpoint(),
            AnyAdapter::Custom(a) => a.get_endpoint(),
        }
    }

    pub fn get_auth_header(&self) -> (r: KitResult<(String, String)>)
        ensures
            match r {
                Ok(h) => match self.platform() {
                    Platform::Iterable => h.0@ == "Api-Key"@ && h.1@ == self.cred().api_key@,
                    Platform::Klaviyo => h.0@ == "Authorization"@ && h.1@ == "Klaviyo-API-Key "@
                        + self.cred().api_key@,
                    Platform::Segment => h.0@ == "Authorization"@ && h.1@ == "Basic "@
                        + self.cred().api_key@,
                    _ => h.0@ == "Authorization"@ && h.1@ == "Bearer "@ + self.cred().api_key@,
                },
                Err(_) => false,
            },
    {
        match self {
            AnyAdapter::Braze(a) => a.get_auth_header(),
            AnyAdapter::Iterable(a) => a.get_auth_header(),
            AnyAdapter::Klaviyo(a) => a.get_auth_header(),
            AnyAdapter::Salesforce(a) => a.get_auth_header(),
            AnyAdapter::HubSpot(a) => a.get_auth_header(),
            AnyAdapter::Segment(a) => a.get_auth_header(),
            AnyAdapter::RudderStack(a) => a.get_auth_header(),
            AnyAdapter::Custom(a) => a.get_auth_header(),
        }
    }
}

impl PlatformAdapter for AnyAdapter {
    fn format_event(&self, msg: &ActivationMessage) -> (r: KitResult<StringMap>)
        ensures
            match r {
                Ok(e) => e@ == match self.platform() {
                    Platform::Braze => braze_event(msg@),
                    Platform::Iterable => iterable_event(msg@),
                    Platform::Klaviyo => klaviyo_event(msg@),
                    Platform::Salesforce => salesforce_event(msg@),
                    Platform::HubSpot => hubspot_event(msg@),
                    Platform::Segment => segment_event(msg@),
                    Platform::RudderStack => rudderstack_event(msg@),
                    Platform::Custom => payload_of(msg@),
                },
                Err(_) => false,
            },
    {
        AnyAdapter::format_event(self, msg)
    }

    fn get_endpoint(&self) -> (s: String)
        ensures
            s@ == endpoint_or(self.cred(), self.default_endpoint()),
    {
        AnyAdapter::get_endpoint(self)
    }

    fn get_auth_header(&self) -> (r: KitResult<(String, String)>)
        ensures
            match r {
                Ok(h) => match self.platform() {
                    Platform::Iterable => h.0@ == "Api-Key"@ && h.1@ == self.cred().api_key@,
                    Platform::Klaviyo => h.0@ == "Authorization"@ && h.1@ == "Klaviyo-API-Key "@
                        + self.cred().api_key@,
                    Platform::Segment => h.0@ == "Authorization"@ && h.1@ == "Basic "@
                        + self.cred().api_key@,
                    _ => h.0@ == "Authorization"@ && h.1@ == "Bearer "@ + self.cred().api_key@,
                },
                Err(_) => false,
            },
    {
        AnyAdapter::get_auth_header(self)
    }
}

/// Builds the adapter that matches a credential's platform.
pub struct AdapterFactory;

impl AdapterFactory {
    pub fn create_adapter(credential: PlatformCredential) -> (r: KitResult<AnyAdapter>)
        ensures
            match r {
                Ok(a) => a.platform() == credential.platform && a.cred() == credential,
                Err(_) => false,
            },
    {
        match credential.platform {
            Platform::Braze => Ok(AnyAdapter::Braze(BrazeAdapter::new(credential))),
            Platform::Iterable => Ok(AnyAdapter::Iterable(IterableAdapter::new(credential))),
            Platform::Klaviyo => Ok(AnyAdapter::Klaviyo(KlaviyoAdapter::new(credential))),
            Platform::Salesforce => Ok(AnyAdapter::Salesforce(SalesforceAdapter::new(credential))),
            Platform::HubSpot => Ok(AnyAdapter::HubSpot(HubSpotAdapter::new(credential))),
            Platform::Segment => Ok(AnyAdapter::Segment(SegmentAdapter::new(credential))),
            Platform::RudderStack => Ok(AnyAdapter::RudderStack(RudderStackAdapter::new(credential))),
            Platform::Custom => Ok(AnyAdapter::Custom(CustomAdapter::new(credential))),
        }
    }
}

} // verus!
