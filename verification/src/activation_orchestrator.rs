//! Activation orchestration: a bounded message queue, batch processing
//! against configured platforms, fan-out of segment messages and webhook
//! registration.

use vstd::prelude::*;

use crate::activation::{
    eligible, message_views, stats_of, ActivationEngine, ActivationEvent, ActivationMessage,
    ActivationResult, ActivationStats, BatchActivationConfig, CustomerRecord, CustomerView, MessageView, Platform,
    PlatformCredential, WebhookTrigger, WebhookView,
};
use crate::assoc::{assoc_get, assoc_index, lemma_assoc_index, lemma_assoc_push, lemma_assoc_update};
use crate::error::KitResult;
use crate::seqs::{keep, lemma_keep_ext, lemma_keep_keep, lemma_keep_sound, lemma_keep_step};

verus! {

/// A bounded queue of activation messages.
pub struct ActivationQueue {
    messages: Vec<ActivationMessage>,
    max_size: usize,
}

impl ActivationQueue {
    /// The queued messages, oldest first.
    pub closed spec fn contents(&self) -> Seq<MessageView> {
        message_views(self.messages@)
    }

    /// The most messages the queue holds.
    pub closed spec fn capacity(&self) -> nat {
        self.max_size as nat
    }

    #[verifier::type_invariant]
    spec fn inv(self) -> bool {
        self.messages@.len() <= self.max_size
    }

    /// An empty queue holding at most `max_size` messages.
    pub fn new(max_size: usize) -> (q: Self)
        ensures
            q.contents() == Seq::<MessageView>::empty(),
            q.capacity() == max_size,
    {
        let q = ActivationQueue { messages: Vec::new(), max_size };
        assert(q.contents() =~= Seq::<MessageView>::empty());
        q
    }

    /// Appends `message` when there is room; `Ok(false)` and no change when
    /// the queue is full.
    pub fn push(&mut self, message: ActivationMessage) -> (r: KitResult<bool>)
        ensures
            final(self).capacity() == old(self).capacity(),
            old(self).contents().len() >= old(self).capacity() ==> r == Ok::<bool, crate::error::KitError>(false)
                && final(self).contents() == old(self).contents(),
            old(self).contents().len() < old(self).capacity() ==> r == Ok::<bool, crate::error::KitError>(true)
                && final(self).contents() == old(self).contents().push(message@),
    {
        proof {
            use_type_invariant(&*self);
        }
        if self.messages.len() >= self.max_size {
            return Ok(false);
        }
        let ghost before = self.messages@;
        let ghost mv = message@;
        let mut msgs: Vec<ActivationMessage> = Vec::new();
        std::mem::swap(&mut msgs, &mut self.messages);
        msgs.push(message);
        self.messages = msgs;
        assert(message_views(self.messages@) =~= message_views(before).push(mv));
        Ok(true)
    }

    /// True when the queue holds `capacity` messages.
    pub fn is_full(&self) -> (b: bool)
        ensures
            b == (self.contents().len() >= self.capacity()),
            self.contents().len() <= self.capacity(),
    {
        proof {
            use_type_invariant(self);
        }
        self.messages.len() >= self.max_size
    }

    /// Number of queued messages.
    pub fn size(&self) -> (n: usize)
        ensures
            n == self.contents().len(),
            n <= self.capacity(),
    {
        proof {
            use_type_invariant(self);
        }
        self.messages.len()
    }

    /// Removes and returns every queued message, oldest first.
    pub fn flush(&mut self) -> (r: KitResult<Vec<ActivationMessage>>)
        ensures
            final(self).contents() == Seq::<MessageView>::empty(),
            final(self).capacity() == old(self).capacity(),
            match r {
                Ok(v) => message_views(v@) == old(self).contents(),
                Err(_) => false,
            },
    {
        let mut out: Vec<ActivationMessage> = Vec::new();
        std::mem::swap(&mut out, &mut self.messages);
        assert(self.contents() =~= Seq::<MessageView>::empty());
        Ok(out)
    }

    /// Drops every queued message.
    pub fn clear(&mut self)
        ensures
            final(self).contents() == Seq::<MessageView>::empty(),
            final(self).capacity() == old(self).capacity(),
    {
        self.messages = Vec::new();
        assert(self.contents() =~= Seq::<MessageView>::empty());
    }
}

/// The registered credentials as (platform, credential) entries.
pub open spec fn credential_entries(s: Seq<PlatformCredential>) -> Seq<(Platform, PlatformCredential)> {
    s.map_values(|c: PlatformCredential| (c.platform, c))
}

/// Position of the first credential for platform `p`.
pub open spec fn first_index(s: Seq<PlatformCredential>, p: Platform) -> Option<int> {
    assoc_index(credential_entries(s), p)
}

/// The credential registered for platform `p`, if any.
pub open spec fn credential_for(s: Seq<PlatformCredential>, p: Platform) -> Option<PlatformCredential> {
    assoc_get(credential_entries(s), p)
}

proof fn lemma_first_index_bounds(s: Seq<PlatformCredential>, p: Platform)
    ensures
        match first_index(s, p) {
            Some(i) => 0 <= i < s.len() && s[i].platform == p && forall|j: int|
                0 <= j < i ==> #[trigger] s[j].platform != p,
            None => forall|j: int| 0 <= j < s.len() ==> #[trigger] s[j].platform != p,
        },
{
    let e = credential_entries(s);
    lemma_assoc_index(e, p);
    match first_index(s, p) {
        Some(i) => {
            assert(e[i].0 == s[i].platform);
            assert forall|j: int| 0 <= j < i implies #[trigger] s[j].platform != p by {
                assert(e[j].0 != p);
            }
        },
        None => {
            assert forall|j: int| 0 <= j < s.len() implies #[trigger] s[j].platform != p by {
                assert(e[j].0 != p);
            }
        },
    }
}

/// The outcome text of processing one message, `None` meaning success.
pub open spec fn processing_error(m: MessageView, table: Seq<PlatformCredential>) -> Option<
    Seq<char>,
> {
    if !eligible(m.customer, m.platform) {
        Some("Customer not eligible for platform"@)
    } else if credential_for(table, m.platform).is_none() {
        Some("Platform not configured"@)
    } else {
        None
    }
}

/// A message for a platform that needs an email, about a customer without
/// one, is refused as not eligible, whatever platforms are configured.
pub proof fn law_missing_email_is_not_eligible(m: MessageView, table: Seq<PlatformCredential>)
    requires
        m.platform == Platform::Iterable || m.platform == Platform::Klaviyo || m.platform
            == Platform::Salesforce || m.platform == Platform::HubSpot,
        m.customer.email is None,
    ensures
        processing_error(m, table) == Some("Customer not eligible for platform"@),
{
}

/// The result processing `m` gives, with the table of configured platforms.
pub open spec fn processed_as(r: ActivationResult, m: MessageView, table: Seq<PlatformCredential>) -> bool {
    &&& r.message_id@ == "msg_"@ + m.customer.customer_id
    &&& r.platform == m.platform
    &&& r.customer_id@ == m.customer.customer_id
    &&& r.success == processing_error(m, table).is_none()
    &&& match processing_error(m, table) {
        Some(e) => r.error.is_some() && r.error.unwrap()@ == e,
        None => r.error.is_none(),
    }
}

/// Sends batches of messages to the configured platforms and keeps the
/// results.
pub struct ActivationOrchestrator {
    config: BatchActivationConfig,
    platforms: Vec<PlatformCredential>,
    results: Vec<ActivationResult>,
}

/// No two registered credentials are for the same platform.
pub open spec fn platforms_distinct(s: Seq<PlatformCredential>) -> bool {
    forall|i: int, j: int| 0 <= i < j < s.len() ==> #[trigger] s[i].platform != #[trigger] s[j].platform
}

impl ActivationOrchestrator {
    /// The registered credentials, one per platform.
    pub closed spec fn table(&self) -> Seq<PlatformCredential> {
        self.platforms@
    }

    #[verifier::type_invariant]
    spec fn inv(self) -> bool {
        platforms_distinct(self.platforms@)
    }

    /// Every result recorded so far, oldest first.
    pub closed spec fn recorded(&self) -> Seq<ActivationResult> {
        self.results@
    }

    /// The batch configuration.
    pub closed spec fn batch_config(&self) -> BatchActivationConfig {
        self.config
    }

    pub fn new(config: BatchActivationConfig) -> (o: Self)
        ensures
            o.batch_config() == config,
            o.table() == Seq::<PlatformCredential>::empty(),
            o.recorded() == Seq::<ActivationResult>::empty(),
    {
        let o = ActivationOrchestrator { config, platforms: Vec::new(), results: Vec::new() };
        assert(o.table() =~= Seq::<PlatformCredential>::empty());
        assert(o.recorded() =~= Seq::<ActivationResult>::empty());
        o
    }

    fn find_platform(&self, platform: &Platform) -> (r: Option<usize>)
        ensures
            r matches Some(i) ==> first_index(self.table(), *platform) == Some(i as int) && i
                < self.table().len(),
            r is None ==> first_index(self.table(), *platform) is None,
    {
        proof {
            lemma_first_index_bounds(self.table(), *platform);
        }
        let n = self.platforms.len();
        let mut i: usize = 0;
        while i < n
            invariant
                n == self.platforms@.len(),
                i <= n,
                forall|j: int| 0 <= j < i ==> #[trigger] self.platforms@[j].platform != *platform,
            decreases n - i,
        {
            if self.platforms[i].platform == *platform {
                proof {
                    lemma_first_index_bounds(self.table(), *platform);
                    match first_index(self.table(), *platform) {
                        Some(k) => {
                            if k > i {
                                assert(self.table()[i as int].platform != *platform);
                            }
                        },
                        None => {
                            assert(self.table()[i as int].platform != *platform);
                        },
                    }
                }
                return Some(i);
            }
            i = i + 1;
        }
        proof {
            lemma_first_index_bounds(self.table(), *platform);
            if first_index(self.table(), *platform).is_some() {
                let k = first_index(self.table(), *platform).unwrap();
                assert(self.platforms@[k].platform == *platform);
            }
        }
        None
    }

    /// Registers (or replaces) the credential of its platform.
    pub fn register_platform(&mut self, credential: PlatformCredential) -> (r: KitResult<()>)
        ensures
            r is Ok,
            final(self).recorded() == old(self).recorded(),
            final(self).batch_config() == old(self).batch_config(),
            forall|p: Platform|
                #[trigger] credential_for(final(self).table(), p) == if p == credential.platform {
                    Some(credential)
                } else {
                    credential_for(old(self).table(), p)
                },
            final(self).table().len() == old(self).table().len() + if credential_for(
                old(self).table(),
                credential.platform,
            ) is Some {
                0int
            } else {
                1int
            },
    {
        proof {
            use_type_invariant(&*self);
        }
        let ghost old_table = self.platforms@;
        let ghost c = credential;
        let found = self.find_platform(&credential.platform);
        let mut platforms: Vec<PlatformCredential> = Vec::new();
        std::mem::swap(&mut platforms, &mut self.platforms);
        proof {
            lemma_first_index_bounds(old_table, c.platform);
        }
        match found {
            Some(i) => {
                platforms.set(i, credential);
                proof {
                    assert forall|a: int, b: int| 0 <= a < b < platforms@.len() implies #[trigger] platforms@[a].platform
                        != #[trigger] platforms@[b].platform by {
                        if a != i && b != i {
                            assert(old_table[a].platform != old_table[b].platform);
                        } else {
                            let o = if a == i { b } else { a };
                            assert(old_table[o].platform != old_table[i as int].platform);
                        }
                    }
                }
                self.platforms = platforms;
                proof {
                    assert(self.platforms@ == old_table.update(i as int, c));
                    assert forall|p: Platform|
                        #[trigger] credential_for(self.platforms@, p) == if p == c.platform {
                            Some(c)
                        } else {
                            credential_for(old_table, p)
                        } by {
                        assert(credential_entries(self.platforms@) =~= credential_entries(old_table).update(
                            i as int,
                            (c.platform, c),
                        ));
                        lemma_assoc_update(credential_entries(old_table), i as int, (c.platform, c), p);
                    }
                }
            },
            None => {
                platforms.push(credential);
                proof {
                    assert forall|a: int, b: int| 0 <= a < b < platforms@.len() implies #[trigger] platforms@[a].platform
                        != #[trigger] platforms@[b].platform by {
                        if b < old_table.len() {
                            assert(old_table[a].platform != old_table[b].platform);
                        } else {
                            assert(old_table[a].platform != c.platform);
                        }
                    }
                }
                self.platforms = platforms;
                proof {
                    assert forall|p: Platform|
                        #[trigger] credential_for(self.platforms@, p) == if p == c.platform {
                            Some(c)
                        } else {
                            credential_for(old_table, p)
                        } by {
                        assert(credential_entries(self.platforms@) =~= credential_entries(old_table).push(
                            (c.platform, c),
                        ));
                        lemma_assoc_push(credential_entries(old_table), (c.platform, c), p);
                    }
                }
            },
        }
        Ok(())
    }

    /// The credential registered for `platform`.
    pub fn get_platform(&self, platform: &Platform) -> (r: Option<&PlatformCredential>)
        ensures
            match r {
                Some(c) => credential_for(self.table(), *platform) == Some(*c),
                None => credential_for(self.table(), *platform).is_none(),
            },
    {
        match self.find_platform(platform) {
            Some(i) => Some(&self.platforms[i]),
            None => None,
        }
    }

    /// True when `platform` has a registered credential.
    pub fn has_platform(&self, platform: &Platform) -> (b: bool)
        ensures
            b == credential_for(self.table(), *platform).is_some(),
    {
        self.find_platform(platform).is_some()
    }

    /// Number of distinct platforms with a credential.
    pub fn platform_count(&self) -> (n: usize)
        ensures
            n == self.table().len(),
            platforms_distinct(self.table()),
    {
        proof {
            use_type_invariant(self);
        }
        self.platforms.len()
    }

    fn message_id(customer_id: &String) -> (s: String)
        ensures
            s@ == "msg_"@ + customer_id@,
    {
        let mut s = String::from_str("msg_");
        s.append(customer_id.as_str());
        s
    }

    fn process_message(&self, message: &ActivationMessage) -> (r: KitResult<ActivationResult>)
        requires
            eligible(message.customer@, message.platform),
        ensures
            match r {
                Ok(res) => processed_as(res, message@, self.table()),
                Err(_) => false,
            },
    {
        if !self.has_platform(&message.platform) {
            return Ok(
                ActivationResult::failure(
                    Self::message_id(&message.customer.customer_id),
                    message.platform,
                    message.customer.customer_id.clone(),
                    String::from_str("Platform not configured"),
                ),
            );
        }
        let payload = ActivationEngine::build_payload(message)?;
        if payload.is_empty() {
            proof {
                crate::activation::law_payload_has_customer_id(message@);
                assert(payload@.dom().contains("customer_id"@));
            }
            return Ok(
                ActivationResult::failure(
                    Self::message_id(&message.customer.customer_id),
                    message.platform,
                    message.customer.customer_id.clone(),
                    String::from_str("Empty payload"),
                ),
            );
        }
        Ok(
            ActivationResult::success(
                Self::message_id(&message.customer.customer_id),
                message.platform,
                message.customer.customer_id.clone(),
            ),
        )
    }

    /// Processes each message in order: an ineligible customer or an
    /// unconfigured platform gives a failure, any other message a success.
    /// The results are returned and also recorded.
    pub fn process_batch(&mut self, messages: Vec<ActivationMessage>) -> (r: KitResult<
        Vec<ActivationResult>,
    >)
        ensures
            final(self).table() == old(self).table(),
            final(self).batch_config() == old(self).batch_config(),
            match r {
                Ok(v) => {
                    &&& v@.len() == messages@.len()
                    &&& forall|i: int|
                        0 <= i < v@.len() ==> processed_as(
                            #[trigger] v@[i],
                            messages@[i]@,
                            old(self).table(),
                        )
                    &&& final(self).recorded() == old(self).recorded() + v@
                },
                Err(_) => false,
            },
    {
        let mut results: Vec<ActivationResult> = Vec::new();
        let n = messages.len();
        let mut i: usize = 0;
        while i < n
            invariant
                n == messages@.len(),
                i <= n,
                results@.len() == i,
                forall|j: int|
                    0 <= j < i ==> processed_as(#[trigger] results@[j], messages@[j]@, self.table()),
            decreases n - i,
        {
            let message = &messages[i];
            let ok = ActivationEngine::is_eligible(&message.customer, &message.platform)?;
            if !ok {
                let res = ActivationResult::failure(
                    Self::message_id(&message.customer.customer_id),
                    message.platform,
                    message.customer.customer_id.clone(),
                    String::from_str("Customer not eligible for platform"),
                );
                results.push(res);
            } else {
                let res = self.process_message(message)?;
                results.push(res);
            }
            i = i + 1;
        }
        proof {
            use_type_invariant(&*self);
        }
        let mut recorded: Vec<ActivationResult> = Vec::new();
        std::mem::swap(&mut recorded, &mut self.results);
        let ghost before = recorded@;
        let mut k: usize = 0;
        while k < results.len()
            invariant
                k <= results@.len(),
                recorded@ == before + results@.take(k as int),
            decreases results@.len() - k,
        {
            let c = results[k].clone();
            recorded.push(c);
            k = k + 1;
            assert(recorded@ =~= before + results@.take(k as int));
        }
        assert(results@.take(results@.len() as int) =~= results@);
        self.results = recorded;
        Ok(results)
    }

    /// Every recorded result.
    pub fn get_results(&self) -> (v: Vec<ActivationResult>)
        ensures
            v@ == self.recorded(),
    {
        let mut v: Vec<ActivationResult> = Vec::new();
        let n = self.results.len();
        let mut i: usize = 0;
        while i < n
            invariant
                n == self.results@.len(),
                i <= n,
                v@ == self.results@.take(i as int),
            decreases n - i,
        {
            v.push(self.results[i].clone());
            i = i + 1;
            assert(v@ =~= self.results@.take(i as int));
        }
        assert(self.results@.take(n as int) =~= self.results@);
        v
    }

    /// Counts of every recorded result.
    pub fn get_stats(&self) -> (r: KitResult<ActivationStats>)
        ensures
            match r {
                Ok(s) => stats_of(s, self.recorded()),
                Err(_) => false,
            },
    {
        ActivationEngine::calculate_stats(self.results.as_slice())
    }

    /// Forgets every recorded result.
    pub fn clear_results(&mut self)
        ensures
            final(self).recorded() == Seq::<ActivationResult>::empty(),
            final(self).table() == old(self).table(),
            final(self).batch_config() == old(self).batch_config(),
    {
        proof {
            use_type_invariant(&*self);
        }
        self.results = Vec::new();
        assert(self.results@ =~= Seq::<ActivationResult>::empty());
    }
}

/// The customer with its segment set to `name`.
pub open spec fn with_segment(c: CustomerView, name: Seq<char>) -> CustomerView {
    CustomerView { segment: Some(name), ..c }
}

/// Customer, event type and platform of a message (what fan-out decides).
pub open spec fn message_core(m: MessageView) -> (CustomerView, ActivationEvent, Platform) {
    (m.customer, m.event_type, m.platform)
}

/// One message core per platform, in order.
pub open spec fn fan_out(c: CustomerView, ev: ActivationEvent, ps: Seq<Platform>) -> Seq<
    (CustomerView, ActivationEvent, Platform),
> {
    ps.map_values(|p: Platform| (c, ev, p))
}

/// For each customer in order, one message core per platform, the customer
/// carrying the segment name.
pub open spec fn segment_fan_out(
    cs: Seq<CustomerView>,
    name: Seq<char>,
    ps: Seq<Platform>,
    ev: ActivationEvent,
) -> Seq<(CustomerView, ActivationEvent, Platform)>
    decreases cs.len(),
{
    if cs.len() == 0 {
        Seq::empty()
    } else {
        segment_fan_out(cs.drop_last(), name, ps, ev) + fan_out(with_segment(cs.last(), name), ev, ps)
    }
}

/// Views of a sequence of customer records.
pub open spec fn customer_views(s: Seq<CustomerRecord>) -> Seq<CustomerView> {
    s.map_values(|c: CustomerRecord| c@)
}

/// The cores of a sequence of messages.
pub open spec fn message_cores(s: Seq<ActivationMessage>) -> Seq<(CustomerView, ActivationEvent, Platform)> {
    s.map_values(|m: ActivationMessage| message_core(m@))
}

/// True when no message of `s` carries a property.
pub open spec fn no_properties(s: Seq<ActivationMessage>) -> bool {
    forall|i: int| 0 <= i < s.len() ==> (#[trigger] s[i]).properties.pairs().len() == 0
}

/// Activating a segment makes one message per customer and platform.
pub proof fn law_segment_fan_out_size(
    cs: Seq<CustomerView>,
    name: Seq<char>,
    ps: Seq<Platform>,
    ev: ActivationEvent,
)
    ensures
        segment_fan_out(cs, name, ps, ev).len() == cs.len() * ps.len(),
    decreases cs.len(),
{
    if cs.len() > 0 {
        law_segment_fan_out_size(cs.drop_last(), name, ps, ev);
        let n = cs.len() - 1;
        assert(n * ps.len() + ps.len() == cs.len() * ps.len()) by (nonlinear_arith)
            requires
                n == cs.len() - 1,
        ;
    }
}

/// Builds the activation messages of segments.
pub struct SegmentActivationManager;

impl SegmentActivationManager {
    fn push_fan_out(
        out: &mut Vec<ActivationMessage>,
        customer: &CustomerRecord,
        platforms: &[Platform],
        event_type: ActivationEvent,
    )
        requires
            no_properties(old(out)@),
        ensures
            message_cores(final(out)@) == message_cores(old(out)@) + fan_out(
                customer@,
                event_type,
                platforms@,
            ),
            no_properties(final(out)@),
    {
        let ghost start = message_cores(out@);
        let n = platforms.len();
        let mut j: usize = 0;
        while j < n
            invariant
                n == platforms@.len(),
                j <= n,
                message_cores(out@) == start + fan_out(customer@, event_type, platforms@.take(j as int)),
                no_properties(out@),
            decreases n - j,
        {
            let msg = ActivationMessage::new(customer.clone(), event_type, platforms[j]);
            let ghost prev = out@;
            out.push(msg);
            proof {
                assert(message_cores(out@) =~= message_cores(prev).push(message_core(msg@)));
                assert(fan_out(customer@, event_type, platforms@.take(j + 1)) =~= fan_out(
                    customer@,
                    event_type,
                    platforms@.take(j as int),
                ).push((customer@, event_type, platforms@[j as int])));
                assert forall|k: int| 0 <= k < out@.len() implies (#[trigger] out@[k]).properties.pairs().len() == 0 by {
                    if k < prev.len() {
                        assert(out@[k] == prev[k]);
                    }
                }
            }
            j = j + 1;
            assert(message_cores(out@) =~= start + fan_out(customer@, event_type, platforms@.take(j as int)));
        }
        assert(platforms@.take(n as int) =~= platforms@);
    }

    /// One message per customer and platform (customer-major order), each
    /// customer carrying `segment_name` as its segment.
    pub fn activate_segment(
        customers: &[CustomerRecord],
        segment_name: String,
        platforms: &[Platform],
        event_type: ActivationEvent,
    ) -> (r: KitResult<Vec<ActivationMessage>>)
        ensures
            match r {
                Ok(v) => message_cores(v@) == segment_fan_out(
                    customer_views(customers@),
                    segment_name@,
                    platforms@,
                    event_type,
                ) && no_properties(v@),
                Err(_) => false,
            },
    {
        let ghost cs = customer_views(customers@);
        let mut out: Vec<ActivationMessage> = Vec::new();
        let n = customers.len();
        let mut i: usize = 0;
        assert(message_cores(out@) =~= segment_fan_out(cs.take(0), segment_name@, platforms@, event_type));
        while i < n
            invariant
                n == customers@.len(),
                cs == customer_views(customers@),
                i <= n,
                message_cores(out@) == segment_fan_out(cs.take(i as int), segment_name@, platforms@, event_type),
                no_properties(out@),
            decreases n - i,
        {
            let mut c = customers[i].clone();
            c.segment = Some(segment_name.clone());
            assert(c@ == with_segment(cs[i as int], segment_name@));
            Self::push_fan_out(&mut out, &c, platforms, event_type);
            proof {
                let t = cs.take(i + 1);
                assert(t.drop_last() =~= cs.take(i as int));
                assert(t.last() == cs[i as int]);
            }
            i = i + 1;
        }
        assert(cs.take(n as int) =~= cs);
        Ok(out)
    }

    /// Removal messages for a segment: `activate_segment` with the
    /// `SegmentRemoval` event.
    pub fn deactivate_segment(
        customers: &[CustomerRecord],
        segment_name: String,
        platforms: &[Platform],
    ) -> (r: KitResult<Vec<ActivationMessage>>)
        ensures
            match r {
                Ok(v) => message_cores(v@) == segment_fan_out(
                    customer_views(customers@),
                    segment_name@,
                    platforms@,
                    ActivationEvent::SegmentRemoval,
                ) && no_properties(v@),
                Err(_) => false,
            },
    {
        Self::activate_segment(customers, segment_name, platforms, ActivationEvent::SegmentRemoval)
    }

    /// One `PropertyUpdate` message for the customer per platform.
    pub fn update_attributes(customer: &CustomerRecord, platforms: &[Platform]) -> (r: KitResult<
        Vec<ActivationMessage>,
    >)
        ensures
            match r {
                Ok(v) => message_cores(v@) == fan_out(
                    customer@,
                    ActivationEvent::PropertyUpdate,
                    platforms@,
                ) && no_properties(v@),
                Err(_) => false,
            },
    {
        let mut out: Vec<ActivationMessage> = Vec::new();
        assert(message_cores(out@) =~= Seq::<(CustomerView, ActivationEvent, Platform)>::empty());
        Self::push_fan_out(&mut out, customer, platforms, ActivationEvent::PropertyUpdate);
        assert(message_cores(out@) =~= fan_out(customer@, ActivationEvent::PropertyUpdate, platforms@));
        Ok(out)
    }
}

/// Views of a sequence of triggers.
pub open spec fn trigger_views(s: Seq<WebhookTrigger>) -> Seq<WebhookView> {
    s.map_values(|w: WebhookTrigger| w@)
}

/// Whether a trigger fires for `event_type`.
pub open spec fn fires_for(event_type: ActivationEvent) -> spec_fn(WebhookView) -> bool {
    |w: WebhookView| w.event_type == event_type && w.active
}

/// Whether a trigger is active.
pub open spec fn is_active() -> spec_fn(WebhookView) -> bool {
    |w: WebhookView| w.active
}

/// Webhook triggers, kept in registration order.
pub struct WebhookManager {
    triggers: Vec<WebhookTrigger>,
}

impl WebhookManager {
    /// Registered triggers, oldest first.
    pub closed spec fn registered(&self) -> Seq<WebhookView> {
        trigger_views(self.triggers@)
    }

    pub fn new() -> (m: Self)
        ensures
            m.registered() == Seq::<WebhookView>::empty(),
    {
        let m = WebhookManager { triggers: Vec::new() };
        assert(m.registered() =~= Seq::<WebhookView>::empty());
        m
    }

    pub fn register_trigger(&mut self, trigger: WebhookTrigger) -> (r: KitResult<()>)
        ensures
            r is Ok,
            final(self).registered() == old(self).registered().push(trigger@),
    {
        let ghost t = trigger@;
        self.triggers.push(trigger);
        assert(self.registered() =~= old(self).registered().push(t));
        Ok(())
    }

    /// The active triggers for `event_type`, in registration order.
    pub fn get_triggers(&self, event_type: &ActivationEvent) -> (v: Vec<WebhookTrigger>)
        ensures
            trigger_views(v@) == keep(self.registered(), fires_for(*event_type)),
    {
        let ghost s = self.registered();
        let mut v: Vec<WebhookTrigger> = Vec::new();
        let n = self.triggers.len();
        let mut i: usize = 0;
        while i < n
            invariant
                n == self.triggers@.len(),
                s == self.registered(),
                i <= n,
                trigger_views(v@) == keep(s.take(i as int), fires_for(*event_type)),
            decreases n - i,
        {
            proof {
                lemma_keep_step(s, fires_for(*event_type), i as int);
            }
            let t = &self.triggers[i];
            if t.event_type == *event_type && t.active {
                let ghost prev = v@;
                v.push(t.clone());
                assert(trigger_views(v@) =~= trigger_views(prev).push(s[i as int]));
            }
            i = i + 1;
        }
        assert(s.take(n as int) =~= s);
        v
    }

    /// Number of registered triggers.
    pub fn trigger_count(&self) -> (n: usize)
        ensures
            n == self.registered().len(),
    {
        self.triggers.len()
    }

    /// Number of active registered triggers.
    pub fn active_trigger_count(&self) -> (n: usize)
        ensures
            n == keep(self.registered(), is_active()).len(),
    {
        let ghost s = self.registered();
        let mut count: usize = 0;
        let n = self.triggers.len();
        let mut i: usize = 0;
        while i < n
            invariant
                n == self.triggers@.len(),
                s == self.registered(),
                i <= n,
                count == keep(s.take(i as int), is_active()).len(),
            decreases n - i,
        {
            proof {
                lemma_keep_step(s, is_active(), i as int);
                lemma_keep_sound(s.take(i as int), is_active());
            }
            if self.triggers[i].active {
                count = count + 1;
            }
            i = i + 1;
        }
        assert(s.take(n as int) =~= s);
        count
    }
}

/// The triggers that fire for an event are among the active triggers, in
/// the same order.
pub proof fn law_fired_triggers_are_active(s: Seq<WebhookView>, event_type: ActivationEvent)
    ensures
        keep(keep(s, is_active()), fires_for(event_type)) == keep(s, fires_for(event_type)),
        keep(s, fires_for(event_type)).len() <= keep(s, is_active()).len(),
{
    lemma_keep_keep(s, is_active(), fires_for(event_type));
    let both = |w: WebhookView| is_active()(w) && fires_for(event_type)(w);
    assert forall|i: int| 0 <= i < s.len() implies both(#[trigger] s[i]) == fires_for(event_type)(s[i]) by {}
    lemma_keep_ext(s, both, fires_for(event_type));
    lemma_keep_sound(keep(s, is_active()), fires_for(event_type));
}

impl Default for WebhookManager {
    fn default() -> (m: Self)
        ensures
            m.registered() == Seq::<WebhookView>::empty(),
    {
        WebhookManager::new()
    }
}

} // verus!
