//! Customer lifecycle stages: names, indices, the stage rule on purchase
//! history, the stage changes along a customer journey, and the retention
//! actions recommended per stage.

use vstd::prelude::*;

use crate::cohorts::{div_toward_zero, trunc_div};
use crate::seqs::{keep, lemma_keep_step};
use crate::text::str_eq;

verus! {

/// Customer lifecycle stage.
#[derive(Clone, Copy, Debug, PartialEq, Eq, Hash, PartialOrd, Ord, Structural)]
pub enum LifecycleStage {
    Prospect,
    Onboarding,
    Active,
    Mature,
    AtRisk,
    Dormant,
    Churned,
}

/// The display name of a stage.
pub open spec fn stage_name(s: LifecycleStage) -> Seq<char> {
    match s {
        LifecycleStage::Prospect => "Prospect"@,
        LifecycleStage::Onboarding => "Onboarding"@,
        LifecycleStage::Active => "Active"@,
        LifecycleStage::Mature => "Mature"@,
        LifecycleStage::AtRisk => "At Risk"@,
        LifecycleStage::Dormant => "Dormant"@,
        LifecycleStage::Churned => "Churned"@,
    }
}

/// The position of a stage in the lifecycle, from 0 (prospect) to 6 (churned).
pub open spec fn stage_index(s: LifecycleStage) -> nat {
    match s {
        LifecycleStage::Prospect => 0,
        LifecycleStage::Onboarding => 1,
        LifecycleStage::Active => 2,
        LifecycleStage::Mature => 3,
        LifecycleStage::AtRisk => 4,
        LifecycleStage::Dormant => 5,
        LifecycleStage::Churned => 6,
    }
}

impl LifecycleStage {
    pub fn as_str(&self) -> (s: &'static str)
        ensures
            s@ == stage_name(*self),
    {
        match self {
            LifecycleStage::Prospect => "Prospect",
            LifecycleStage::Onboarding => "Onboarding",
            LifecycleStage::Active => "Active",
            LifecycleStage::Mature => "Mature",
            LifecycleStage::AtRisk => "At Risk",
            LifecycleStage::Dormant => "Dormant",
            LifecycleStage::Churned => "Churned",
        }
    }

    pub fn to_index(&self) -> (i: usize)
        ensures
            i == stage_index(*self),
    {
        match self {
            LifecycleStage::Prospect => 0,
            LifecycleStage::Onboarding => 1,
            LifecycleStage::Active => 2,
            LifecycleStage::Mature => 3,
            LifecycleStage::AtRisk => 4,
            LifecycleStage::Dormant => 5,
            LifecycleStage::Churned => 6,
        }
    }
}

/// The stage a customer is in, from days since signup, number of purchases
/// and days since the last purchase.
pub open spec fn stage_rule(days_since_signup: int, purchase_count: int, days_since_last_purchase: int) -> LifecycleStage {
    if purchase_count == 0 {
        if days_since_signup < 30 {
            LifecycleStage::Prospect
        } else {
            LifecycleStage::Dormant
        }
    } else if days_since_signup < 30 {
        LifecycleStage::Onboarding
    } else if days_since_last_purchase > 180 {
        LifecycleStage::Dormant
    } else if days_since_last_purchase > 90 {
        LifecycleStage::AtRisk
    } else if days_since_signup > 730 {
        LifecycleStage::Mature
    } else {
        LifecycleStage::Active
    }
}

/// What decides a customer's stage. Without purchases: Prospect in the
/// first 30 days after signup, Dormant after. With purchases: Onboarding in
/// the first 30 days whatever else holds; after that Dormant when the last
/// purchase is more than 180 days back, At Risk when it is 91 to 180 days
/// back, and otherwise Mature after more than 730 days as a customer and
/// Active before. No customer is classified Churned.
pub proof fn law_stage_by_inputs(days_since_signup: int, purchase_count: int, days_since_last_purchase: int)
    requires
        purchase_count >= 0,
    ensures
        purchase_count == 0 && days_since_signup < 30 ==> stage_rule(
            days_since_signup,
            purchase_count,
            days_since_last_purchase,
        ) == LifecycleStage::Prospect,
        purchase_count == 0 && days_since_signup >= 30 ==> stage_rule(
            days_since_signup,
            purchase_count,
            days_since_last_purchase,
        ) == LifecycleStage::Dormant,
        purchase_count > 0 && days_since_signup < 30 ==> stage_rule(
            days_since_signup,
            purchase_count,
            days_since_last_purchase,
        ) == LifecycleStage::Onboarding,
        purchase_count > 0 && days_since_signup >= 30 && days_since_last_purchase > 180 ==> stage_rule(
            days_since_signup,
            purchase_count,
            days_since_last_purchase,
        ) == LifecycleStage::Dormant,
        purchase_count > 0 && days_since_signup >= 30 && 90 < days_since_last_purchase <= 180
            ==> stage_rule(days_since_signup, purchase_count, days_since_last_purchase)
            == LifecycleStage::AtRisk,
        purchase_count > 0 && days_since_signup > 730 && days_since_last_purchase <= 90 ==> stage_rule(
            days_since_signup,
            purchase_count,
            days_since_last_purchase,
        ) == LifecycleStage::Mature,
        purchase_count > 0 && 30 <= days_since_signup <= 730 && days_since_last_purchase <= 90
            ==> stage_rule(days_since_signup, purchase_count, days_since_last_purchase)
            == LifecycleStage::Active,
        stage_rule(days_since_signup, purchase_count, days_since_last_purchase) != LifecycleStage::Churned,
{
}

/// The retention actions recommended for a stage.
pub open spec fn retention_texts(s: LifecycleStage) -> Seq<Seq<char>> {
    match s {
        LifecycleStage::Prospect => seq![
            "Send welcome email with product overview"@,
            "Offer first-time purchase discount"@,
            "Create onboarding sequence"@,
        ],
        LifecycleStage::Onboarding => seq![
            "Guide feature discovery"@,
            "Celebrate first purchase"@,
            "Send value-building tips"@,
        ],
        LifecycleStage::Active => seq![
            "Recommend complementary products"@,
            "Send personalized offers"@,
            "Request feedback and reviews"@,
        ],
        LifecycleStage::Mature => seq![
            "VIP rewards program"@,
            "Exclusive early access"@,
            "Loyalty recognition"@,
        ],
        LifecycleStage::AtRisk => seq![
            "Targeted win-back campaign"@,
            "Special re-engagement offer"@,
            "Personalized product recommendations"@,
        ],
        LifecycleStage::Dormant => seq![
            "Reactivation campaign"@,
            "Incentivized return offer"@,
            "Survey for feedback"@,
        ],
        LifecycleStage::Churned => seq!["Final win-back attempt"@, "Exit survey"@, "Sunset workflow"@],
    }
}

/// Views of a sequence of string slices.
pub open spec fn str_views(v: Seq<&'static str>) -> Seq<Seq<char>> {
    v.map_values(|s: &'static str| s@)
}

fn three(a: &'static str, b: &'static str, c: &'static str) -> (v: Vec<&'static str>)
    ensures
        str_views(v@) == seq![a@, b@, c@],
{
    let mut v: Vec<&'static str> = Vec::new();
    v.push(a);
    v.push(b);
    v.push(c);
    assert(str_views(v@) =~= seq![a@, b@, c@]);
    v
}

/// Lifecycle rules.
pub struct LifecycleTracker;

impl LifecycleTracker {
    /// The stage rule: no purchase yet gives Prospect within 30 days of
    /// signup and Dormant after; otherwise Onboarding within 30 days, Dormant
    /// after 180 days without purchase, AtRisk after 90, Mature after two
    /// years as a customer, Active otherwise.
    pub fn stage_for(days_since_signup: i32, purchase_count: usize, days_since_last_purchase: i32) -> (s:
        LifecycleStage)
        ensures
            s == stage_rule(
                days_since_signup as int,
                purchase_count as int,
                days_since_last_purchase as int,
            ),
    {
        if purchase_count == 0 {
            if days_since_signup < 30 {
                LifecycleStage::Prospect
            } else {
                LifecycleStage::Dormant
            }
        } else if days_since_signup < 30 {
            LifecycleStage::Onboarding
        } else if days_since_last_purchase > 180 {
            LifecycleStage::Dormant
        } else if days_since_last_purchase > 90 {
            LifecycleStage::AtRisk
        } else if days_since_signup > 730 && days_since_last_purchase <= 90 {
            LifecycleStage::Mature
        } else {
            LifecycleStage::Active
        }
    }

    /// The retention actions recommended for a stage.
    pub fn retention_actions(stage: LifecycleStage) -> (v: Vec<&'static str>)
        ensures
            str_views(v@) == retention_texts(stage),
    {
        match stage {
            LifecycleStage::Prospect => three(
                "Send welcome email with product overview",
                "Offer first-time purchase discount",
                "Create onboarding sequence",
            ),
            LifecycleStage::Onboarding => three(
                "Guide feature discovery",
                "Celebrate first purchase",
                "Send value-building tips",
            ),
            LifecycleStage::Active => three(
                "Recommend complementary products",
                "Send personalized offers",
                "Request feedback and reviews",
            ),
            LifecycleStage::Mature => three(
                "VIP rewards program",
                "Exclusive early access",
                "Loyalty recognition",
            ),
            LifecycleStage::AtRisk => three(
                "Targeted win-back campaign",
                "Special re-engagement offer",
                "Personalized product recommendations",
            ),
            LifecycleStage::Dormant => three(
                "Reactivation campaign",
                "Incentivized return offer",
                "Survey for feedback",
            ),
            LifecycleStage::Churned => three("Final win-back attempt", "Exit survey", "Sunset workflow"),
        }
    }
}

/// The stage a journey event moves a customer to: `signup` to Prospect,
/// `first_purchase` to Onboarding, `purchase` to Active, `inactivity` to
/// AtRisk, `churn` to Churned; any other event keeps the stage `before` it.
pub open spec fn event_stage(event_type: Seq<char>, before: Option<LifecycleStage>) -> Option<
    LifecycleStage,
> {
    if event_type == "signup"@ {
        Some(LifecycleStage::Prospect)
    } else if event_type == "first_purchase"@ {
        Some(LifecycleStage::Onboarding)
    } else if event_type == "purchase"@ {
        Some(LifecycleStage::Active)
    } else if event_type == "inactivity"@ {
        Some(LifecycleStage::AtRisk)
    } else if event_type == "churn"@ {
        Some(LifecycleStage::Churned)
    } else {
        before
    }
}

/// A journey event given as (Unix timestamp, event type).
pub type JourneyStep = (i64, String);

/// The stage a customer is in after the events of a journey.
pub open spec fn stage_after(events: Seq<JourneyStep>) -> Option<LifecycleStage>
    decreases events.len(),
{
    if events.len() == 0 {
        None
    } else {
        event_stage(events.last().1@, stage_after(events.drop_last()))
    }
}

/// Whole days from `earlier` to `later`, rounded toward zero, as an `i32`.
pub open spec fn days_between(earlier: i64, later: i64) -> i32 {
    trunc_div(later - earlier, 86400) as i32
}

/// The stage changes along a journey, in order: for each event that moves
/// the customer from one stage to another, (from, to, whole days since the
/// event before).
pub open spec fn journey_transitions(events: Seq<JourneyStep>) -> Seq<(LifecycleStage, LifecycleStage, i32)>
    decreases events.len(),
{
    if events.len() == 0 {
        Seq::empty()
    } else {
        let p = events.drop_last();
        let before = stage_after(p);
        let after = event_stage(events.last().1@, before);
        if before is Some && after is Some && before != after {
            journey_transitions(p).push(
                (before->0, after->0, days_between(p.last().0, events.last().0)),
            )
        } else {
            journey_transitions(p)
        }
    }
}

/// Whether event `i` of the journey moves the customer from one stage to
/// another.
pub open spec fn changes_stage_at(events: Seq<JourneyStep>, i: int) -> bool {
    let before = stage_after(events.take(i));
    let after = event_stage(events[i].1@, before);
    before is Some && after is Some && before != after
}

/// At every stage change, the gap to the event before fits in an `i64`.
pub open spec fn gaps_fit(events: Seq<JourneyStep>) -> bool {
    forall|i: int|
        1 <= i < events.len() && #[trigger] changes_stage_at(events, i) ==> i64::MIN <= events[i].0
            - events[i - 1].0 <= i64::MAX
}

/// Every recorded transition changes the stage.
pub proof fn law_transitions_change_stage(events: Seq<JourneyStep>, i: int)
    requires
        0 <= i < journey_transitions(events).len(),
    ensures
        journey_transitions(events)[i].0 != journey_transitions(events)[i].1,
    decreases events.len(),
{
    if events.len() > 0 {
        let p = events.drop_last();
        if i < journey_transitions(p).len() {
            law_transitions_change_stage(p, i);
        }
    }
}

impl LifecycleTracker {
    /// The stage after an event of type `event_type`, the stage before it
    /// being `before`.
    pub fn stage_after_event(event_type: &str, before: Option<LifecycleStage>) -> (s: Option<LifecycleStage>)
        ensures
            s == event_stage(event_type@, before),
    {
        if str_eq(event_type, "signup") {
            Some(LifecycleStage::Prospect)
        } else if str_eq(event_type, "first_purchase") {
            Some(LifecycleStage::Onboarding)
        } else if str_eq(event_type, "purchase") {
            Some(LifecycleStage::Active)
        } else if str_eq(event_type, "inactivity") {
            Some(LifecycleStage::AtRisk)
        } else if str_eq(event_type, "churn") {
            Some(LifecycleStage::Churned)
        } else {
            before
        }
    }

    /// The stage changes along one customer journey, in order, with the
    /// whole days since the event before each change.
    pub fn journey_transitions(events: &[JourneyStep]) -> (r: Vec<(LifecycleStage, LifecycleStage, i32)>)
        requires
            gaps_fit(events@),
        ensures
            r@ == journey_transitions(events@),
    {
        let ghost es = events@;
        let mut out: Vec<(LifecycleStage, LifecycleStage, i32)> = Vec::new();
        let mut stage: Option<LifecycleStage> = None;
        let n = events.len();
        let mut i: usize = 0;
        while i < n
            invariant
                n == events@.len(),
                es == events@,
                gaps_fit(es),
                i <= n,
                stage == stage_after(es.take(i as int)),
                out@ == journey_transitions(es.take(i as int)),
            decreases n - i,
        {
            let ghost t = es.take(i + 1);
            proof {
                assert(t.drop_last() =~= es.take(i as int));
                assert(t.last() == es[i as int]);
            }
            let next = Self::stage_after_event(events[i].1.as_str(), stage);
            match (stage, next) {
                (Some(from), Some(to)) => {
                    if from != to {
                        proof {
                            assert(i > 0);
                            assert(t.drop_last().last() == es[i - 1]);
                            assert(changes_stage_at(es, i as int));
                            assert(i64::MIN <= es[i as int].0 - es[i - 1].0 <= i64::MAX);
                        }
                        let gap = events[i].0 - events[i - 1].0;
                        let days = div_toward_zero(gap, 86400) as i32;
                        out.push((from, to, days));
                    }
                },
                _ => {},
            }
            stage = next;
            i = i + 1;
        }
        assert(es.take(n as int) =~= es);
        out
    }
}

/// A stage change with the days it took: (from, to, days).
pub type StageChange = (LifecycleStage, LifecycleStage, i32);

/// The pair of stages of a change.
pub open spec fn stage_pair(t: StageChange) -> (LifecycleStage, LifecycleStage) {
    (t.0, t.1)
}

/// The distinct stage pairs of the changes, in order of first occurrence.
pub open spec fn pairs_in_order(ts: Seq<StageChange>) -> Seq<(LifecycleStage, LifecycleStage)>
    decreases ts.len(),
{
    if ts.len() == 0 {
        Seq::empty()
    } else {
        let p = pairs_in_order(ts.drop_last());
        if p.contains(stage_pair(ts.last())) {
            p
        } else {
            p.push(stage_pair(ts.last()))
        }
    }
}

/// Whether a change goes between the stages of `pr`.
pub open spec fn on_pair(pr: (LifecycleStage, LifecycleStage)) -> spec_fn(StageChange) -> bool {
    |t: StageChange| stage_pair(t) == pr
}

/// Number of changes between the stages of `pr`.
pub open spec fn pair_count(ts: Seq<StageChange>, pr: (LifecycleStage, LifecycleStage)) -> nat {
    keep(ts, on_pair(pr)).len()
}

/// Total days of the changes between the stages of `pr`.
pub open spec fn pair_days(ts: Seq<StageChange>, pr: (LifecycleStage, LifecycleStage)) -> int
    decreases ts.len(),
{
    if ts.len() == 0 {
        0
    } else {
        pair_days(ts.drop_last(), pr) + if stage_pair(ts.last()) == pr {
            ts.last().2 as int
        } else {
            0
        }
    }
}

/// A pair that does not occur among the changes has no count and no days.
proof fn lemma_absent_pair(ts: Seq<StageChange>, pr: (LifecycleStage, LifecycleStage))
    requires
        !pairs_in_order(ts).contains(pr),
    ensures
        pair_count(ts, pr) == 0,
        pair_days(ts, pr) == 0,
    decreases ts.len(),
{
    if ts.len() > 0 {
        let d = ts.drop_last();
        let p = pairs_in_order(d);
        if p.contains(stage_pair(ts.last())) {
            assert(stage_pair(ts.last()) != pr);
        } else {
            let q = p.push(stage_pair(ts.last()));
            assert(q[p.len() as int] == stage_pair(ts.last()));
            assert(stage_pair(ts.last()) != pr);
            if p.contains(pr) {
                let k = choose|k: int| 0 <= k < p.len() && p[k] == pr;
                assert(q[k] == pr);
            }
        }
        lemma_absent_pair(d, pr);
    }
}

/// The stage pairs in order of first occurrence are pairwise distinct.
proof fn lemma_pairs_distinct(ts: Seq<StageChange>)
    ensures
        forall|a: int, b: int|
            0 <= a < b < pairs_in_order(ts).len() ==> #[trigger] pairs_in_order(ts)[a]
                != #[trigger] pairs_in_order(ts)[b],
    decreases ts.len(),
{
    if ts.len() > 0 {
        lemma_pairs_distinct(ts.drop_last());
        let p = pairs_in_order(ts.drop_last());
        if !p.contains(stage_pair(ts.last())) {
            let q = p.push(stage_pair(ts.last()));
            assert forall|a: int, b: int| 0 <= a < b < q.len() implies #[trigger] q[a] != #[trigger] q[b] by {
                if b == p.len() {
                    if q[a] == q[b] {
                        assert(p[a] == stage_pair(ts.last()));
                    }
                } else {
                    assert(q[a] == p[a] && q[b] == p[b]);
                }
            }
        }
    }
}

/// Position of the entry for stages `from` and `to`, if any.
fn find_pair(
    r: &Vec<(LifecycleStage, LifecycleStage, usize, i128)>,
    from: LifecycleStage,
    to: LifecycleStage,
) -> (a: Option<usize>)
    ensures
        match a {
            Some(a) => a < r@.len() && r@[a as int].0 == from && r@[a as int].1 == to,
            None => forall|b: int| 0 <= b < r@.len() ==> !((#[trigger] r@[b]).0 == from && r@[b].1 == to),
        },
{
    let m = r.len();
    let mut a: usize = 0;
    while a < m
        invariant
            m == r@.len(),
            a <= m,
            forall|b: int| 0 <= b < a ==> !((#[trigger] r@[b]).0 == from && r@[b].1 == to),
        decreases m - a,
    {
        if r[a].0 == from && r[a].1 == to {
            return Some(a);
        }
        a = a + 1;
    }
    None
}

impl LifecycleTracker {
    /// The distinct stage pairs among the changes, in order of first
    /// occurrence, each with its number of changes and their total days.
    pub fn tally_transitions(transitions: &[StageChange]) -> (r: Vec<(LifecycleStage, LifecycleStage, usize, i128)>)
        ensures
            r@.len() == pairs_in_order(transitions@).len(),
            forall|a: int|
                0 <= a < r@.len() ==> {
                    let pr = pairs_in_order(transitions@)[a];
                    &&& (#[trigger] r@[a]).0 == pr.0
                    &&& r@[a].1 == pr.1
                    &&& r@[a].2 == pair_count(transitions@, pr)
                    &&& r@[a].3 == pair_days(transitions@, pr)
                },
    {
        let ghost ts = transitions@;
        let mut r: Vec<(LifecycleStage, LifecycleStage, usize, i128)> = Vec::new();
        let n = transitions.len();
        let mut i: usize = 0;
        while i < n
            invariant
                n == transitions@.len(),
                ts == transitions@,
                i <= n,
                r@.len() == pairs_in_order(ts.take(i as int)).len(),
                forall|a: int|
                    0 <= a < r@.len() ==> {
                        let pr = pairs_in_order(ts.take(i as int))[a];
                        &&& (#[trigger] r@[a]).0 == pr.0
                        &&& r@[a].1 == pr.1
                        &&& r@[a].2 == pair_count(ts.take(i as int), pr)
                        &&& r@[a].3 == pair_days(ts.take(i as int), pr)
                        &&& r@[a].2 <= i
                        &&& -(r@[a].2 as int) * 2147483648 <= r@[a].3 <= r@[a].2 * 2147483648
                    },
            decreases n - i,
        {
            let ghost prev = ts.take(i as int);
            let ghost next = ts.take(i + 1);
            let ghost p = pairs_in_order(prev);
            let ghost rv = r@;
            let x = transitions[i];
            let ghost pr = stage_pair(x);
            proof {
                assert(next.drop_last() =~= prev);
                assert(next.last() == x);
                assert forall|q: (LifecycleStage, LifecycleStage)| #[trigger] pair_count(next, q) == pair_count(prev, q)
                    + if stage_pair(x) == q {
                    1int
                } else {
                    0int
                } by {
                    lemma_keep_step(ts, on_pair(q), i as int);
                }
            }
            let m = r.len();
            let a = match find_pair(&r, x.0, x.1) {
                Some(a) => a,
                None => m,
            };
            proof {
                lemma_pairs_distinct(prev);
            }
            if a < m {
                let e = r[a];
                assert(p[a as int] == pr);
                assert(p.contains(pr));
                assert(pairs_in_order(next) == p);
                r.set(a, (e.0, e.1, e.2 + 1, e.3 + x.2 as i128));
                proof {
                    assert forall|b: int| 0 <= b < r@.len() implies {
                        let q = pairs_in_order(next)[b];
                        &&& (#[trigger] r@[b]).0 == q.0
                        &&& r@[b].1 == q.1
                        &&& r@[b].2 == pair_count(next, q)
                        &&& r@[b].3 == pair_days(next, q)
                        &&& r@[b].2 <= i + 1
                        &&& -(r@[b].2 as int) * 2147483648 <= r@[b].3 <= r@[b].2 * 2147483648
                    } by {
                        let q = p[b];
                        assert(pair_count(next, q) == pair_count(prev, q) + if pr == q { 1int } else { 0int });
                        if b != a {
                            assert(q != pr);
                        }
                    }
                }
            } else {
                proof {
                    if p.contains(pr) {
                        let k = choose|k: int| 0 <= k < p.len() && p[k] == pr;
                        assert(rv[k].0 == pr.0 && rv[k].1 == pr.1);
                    }
                    lemma_absent_pair(prev, pr);
                    assert(pairs_in_order(next) == p.push(pr));
                }
                r.push((x.0, x.1, 1, x.2 as i128));
                proof {
                    assert forall|b: int| 0 <= b < r@.len() implies {
                        let q = pairs_in_order(next)[b];
                        &&& (#[trigger] r@[b]).0 == q.0
                        &&& r@[b].1 == q.1
                        &&& r@[b].2 == pair_count(next, q)
                        &&& r@[b].3 == pair_days(next, q)
                        &&& r@[b].2 <= i + 1
                        &&& -(r@[b].2 as int) * 2147483648 <= r@[b].3 <= r@[b].2 * 2147483648
                    } by {
                        let q = pairs_in_order(next)[b];
                        assert(pair_count(next, q) == pair_count(prev, q) + if pr == q { 1int } else { 0int });
                        if b < m {
                            assert(q == p[b]);
                            assert(rv[b] == r@[b]);
                            if q == pr {
                                assert(p.contains(pr));
                            }
                        } else {
                            assert(q == pr);
                        }
                    }
                }
            }
            i = i + 1;
        }
        assert(ts.take(n as int) =~= ts);
        r
    }
}

} // verus!
