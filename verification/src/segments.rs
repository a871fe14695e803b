//! RFM customer segments: names, recommended actions and the rule that
//! assigns a segment to a triple of recency, frequency and monetary scores.

use vstd::prelude::*;

verus! {

/// Standard customer segment.
#[derive(Clone, Copy, Debug, PartialEq, Eq, Hash, Structural)]
pub enum SegmentType {
    Champions,
    LoyalCustomers,
    PotentialLoyalists,
    AtRisk,
    CannotLose,
    VIP,
    NewCustomers,
    NeedAttention,
    AboutToSleep,
    AtRiskSleeping,
    Promising,
    Lost,
    Hibernating,
}

/// The display name of a segment.
pub open spec fn segment_name(s: SegmentType) -> Seq<char> {
    match s {
        SegmentType::Champions => "Champions"@,
        SegmentType::LoyalCustomers => "Loyal Customers"@,
        SegmentType::PotentialLoyalists => "Potential Loyalists"@,
        SegmentType::AtRisk => "At Risk"@,
        SegmentType::CannotLose => "Cannot Lose Them"@,
        SegmentType::VIP => "VIP"@,
        SegmentType::NewCustomers => "New Customers"@,
        SegmentType::NeedAttention => "Need Attention"@,
        SegmentType::AboutToSleep => "About to Sleep"@,
        SegmentType::AtRiskSleeping => "At Risk - Sleeping"@,
        SegmentType::Promising => "Promising"@,
        SegmentType::Lost => "Lost"@,
        SegmentType::Hibernating => "Hibernating"@,
    }
}

/// The action recommended for a segment.
pub open spec fn action_text(s: SegmentType) -> Seq<char> {
    match s {
        SegmentType::Champions => "Reward loyalty, ask for referrals"@,
        SegmentType::LoyalCustomers => "Maintain engagement, upsell opportunities"@,
        SegmentType::PotentialLoyalists => "Personalized engagement, nurture relationship"@,
        SegmentType::AtRisk => "Win-back campaign, special offers"@,
        SegmentType::CannotLose => "Priority retention, VIP treatment"@,
        SegmentType::VIP => "Exclusive experiences, personalization"@,
        SegmentType::NewCustomers => "Welcome series, onboarding support"@,
        SegmentType::NeedAttention => "Re-engagement campaign, surveys"@,
        SegmentType::AboutToSleep => "Targeted win-back, special incentives"@,
        SegmentType::AtRiskSleeping => "Reactivation campaign, incentives"@,
        SegmentType::Promising => "Regular engagement, growth nurturing"@,
        SegmentType::Lost => "Sunset, or aggressive win-back"@,
        SegmentType::Hibernating => "Careful reactivation, special offer"@,
    }
}

impl SegmentType {
    pub fn as_str(&self) -> (s: &'static str)
        ensures
            s@ == segment_name(*self),
    {
        match self {
            SegmentType::Champions => "Champions",
            SegmentType::LoyalCustomers => "Loyal Customers",
            SegmentType::PotentialLoyalists => "Potential Loyalists",
            SegmentType::AtRisk => "At Risk",
            SegmentType::CannotLose => "Cannot Lose Them",
            SegmentType::VIP => "VIP",
            SegmentType::NewCustomers => "New Customers",
            SegmentType::NeedAttention => "Need Attention",
            SegmentType::AboutToSleep => "About to Sleep",
            SegmentType::AtRiskSleeping => "At Risk - Sleeping",
            SegmentType::Promising => "Promising",
            SegmentType::Lost => "Lost",
            SegmentType::Hibernating => "Hibernating",
        }
    }
}

/// The segment of a customer with recency, frequency and monetary scores
/// `r`, `f`, `m`; the first matching case wins.
pub open spec fn segment_rule(r: u32, f: u32, m: u32) -> SegmentType {
    if (r == 5 && f == 5 && m == 5) || (r == 5 && f == 5 && m == 4) || (r == 5 && f == 4 && m == 5)
        || (r == 4 && f == 5 && m == 5) {
        SegmentType::Champions
    } else if (r == 5 && m == 5) || (r == 5 && f == 5) {
        SegmentType::VIP
    } else if (r == 4 && f == 4 && m == 4) || (r == 4 && f == 4 && m == 5) || (r == 4 && f == 5 && m
        == 4) {
        SegmentType::LoyalCustomers
    } else if (r == 5 && f == 3 && m == 4) || (r == 4 && f == 3 && m == 5) {
        SegmentType::PotentialLoyalists
    } else if (r == 3 && f == 4 && m == 5) || (r == 3 && f == 5 && m == 5) || (r == 2 && f == 4 && m
        == 5) || (r == 2 && f == 5 && m == 5) {
        SegmentType::CannotLose
    } else if (r == 2 && f == 2 && (m == 4 || m == 5)) || (r == 2 && f == 3 && (m == 4 || m == 5))
        || (r == 3 && f == 2 && (m == 4 || m == 5)) {
        SegmentType::AtRisk
    } else if r == 2 && (f == 2 || f == 3) && (m == 2 || m == 3) {
        SegmentType::AboutToSleep
    } else if r == 5 && (f == 4 || f == 3) && (m == 3 || m == 2) {
        SegmentType::NewCustomers
    } else if r == 5 && f == 2 && (m == 3 || m == 4) {
        SegmentType::Promising
    } else if (r == 4 && f == 2 && m == 2) || (r == 4 && f == 3 && m == 2) || (r == 4 && f == 3 && m
        == 3) {
        SegmentType::NeedAttention
    } else if (r == 1 && f == 1 && m == 1) || (r == 1 && f == 1 && m == 2) || (r == 1 && f == 2 && m
        == 1) {
        SegmentType::Lost
    } else if r == 1 && (f == 3 || f == 4) && (m == 4 || m == 5) {
        SegmentType::AtRiskSleeping
    } else if (r == 1 && f == 2 && (m == 3 || m == 4 || m == 5)) || (r == 1 && f == 3 && (m == 2 || m
        == 3)) {
        SegmentType::Hibernating
    } else {
        SegmentType::NeedAttention
    }
}

/// The segment table: each listed score triple and its segment. A triple
/// with recency 5 and a frequency or monetary score of 5 that is not a
/// champion is a VIP; every triple not listed is Need Attention.
pub proof fn law_segment_table(r: u32, f: u32, m: u32)
    ensures
        set![(5int, 5int, 5int), (5, 5, 4), (5, 4, 5), (4, 5, 5)].contains((r as int, f as int, m as int))
            ==> segment_rule(r, f, m) == SegmentType::Champions,
        r == 5 && (f == 5 || m == 5) && !set![(5int, 5int, 5int), (5, 5, 4), (5, 4, 5)].contains(
            (r as int, f as int, m as int),
        ) ==> segment_rule(r, f, m) == SegmentType::VIP,
        set![(4int, 4int, 4int), (4, 4, 5), (4, 5, 4)].contains((r as int, f as int, m as int))
            ==> segment_rule(r, f, m) == SegmentType::LoyalCustomers,
        set![(5int, 3int, 4int), (4, 3, 5)].contains((r as int, f as int, m as int)) ==> segment_rule(
            r,
            f,
            m,
        ) == SegmentType::PotentialLoyalists,
        set![(3int, 4int, 5int), (3, 5, 5), (2, 4, 5), (2, 5, 5)].contains((r as int, f as int, m as int))
            ==> segment_rule(r, f, m) == SegmentType::CannotLose,
        set![(2int, 2int, 4int), (2, 2, 5), (2, 3, 4), (2, 3, 5), (3, 2, 4), (3, 2, 5)].contains(
            (r as int, f as int, m as int),
        ) ==> segment_rule(r, f, m) == SegmentType::AtRisk,
        set![(2int, 2int, 3int), (2, 2, 2), (2, 3, 2), (2, 3, 3)].contains((r as int, f as int, m as int))
            ==> segment_rule(r, f, m) == SegmentType::AboutToSleep,
        set![(5int, 4int, 3int), (5, 4, 2), (5, 3, 3), (5, 3, 2)].contains((r as int, f as int, m as int))
            ==> segment_rule(r, f, m) == SegmentType::NewCustomers,
        set![(5int, 2int, 3int), (5, 2, 4)].contains((r as int, f as int, m as int)) ==> segment_rule(
            r,
            f,
            m,
        ) == SegmentType::Promising,
        set![(4int, 2int, 2int), (4, 3, 2), (4, 3, 3)].contains((r as int, f as int, m as int))
            ==> segment_rule(r, f, m) == SegmentType::NeedAttention,
        set![(1int, 1int, 1int), (1, 1, 2), (1, 2, 1)].contains((r as int, f as int, m as int))
            ==> segment_rule(r, f, m) == SegmentType::Lost,
        set![(1int, 3int, 4int), (1, 3, 5), (1, 4, 4), (1, 4, 5)].contains((r as int, f as int, m as int))
            ==> segment_rule(r, f, m) == SegmentType::AtRiskSleeping,
        set![(1int, 2int, 3int), (1, 2, 4), (1, 2, 5), (1, 3, 2), (1, 3, 3)].contains(
            (r as int, f as int, m as int),
        ) ==> segment_rule(r, f, m) == SegmentType::Hibernating,
        r < 1 || r > 5 ==> segment_rule(r, f, m) == SegmentType::NeedAttention,
        r != 5 && (f < 1 || f > 5 || m < 1 || m > 5) ==> segment_rule(r, f, m)
            == SegmentType::NeedAttention,
{
}

/// The RFM labels split each score at 4: a customer scoring 4 or more on
/// all three is a Champion, on none is Lost, and each of the other six
/// combinations has its own name.
pub proof fn law_rfm_label_table(r: u32, f: u32, m: u32)
    ensures
        r >= 4 && f >= 4 && m >= 4 ==> rfm_label(r, f, m) == "Champions"@,
        r >= 4 && f >= 4 && m < 4 ==> rfm_label(r, f, m) == "Loyal Customers"@,
        r >= 4 && f < 4 && m >= 4 ==> rfm_label(r, f, m) == "Potential Loyalists"@,
        r >= 4 && f < 4 && m < 4 ==> rfm_label(r, f, m) == "At Risk"@,
        r < 4 && f >= 4 && m >= 4 ==> rfm_label(r, f, m) == "VIP"@,
        r < 4 && f >= 4 && m < 4 ==> rfm_label(r, f, m) == "Need Attention"@,
        r < 4 && f < 4 && m >= 4 ==> rfm_label(r, f, m) == "Promising"@,
        r < 4 && f < 4 && m < 4 ==> rfm_label(r, f, m) == "Lost"@,
{
}

/// Segment classification rules.
pub struct SegmentClassifier;

impl SegmentClassifier {
    /// The segment of a customer with recency, frequency and monetary scores.
    pub fn segment_for(recency_score: u32, frequency_score: u32, monetary_score: u32) -> (s: SegmentType)
        ensures
            s == segment_rule(recency_score, frequency_score, monetary_score),
    {
        match (recency_score, frequency_score, monetary_score) {
            (5, 5, 5) | (5, 5, 4) | (5, 4, 5) | (4, 5, 5) => SegmentType::Champions,
            (5, _, 5) | (5, 5, _) => SegmentType::VIP,
            (4, 4, 4) | (4, 4, 5) | (4, 5, 4) => SegmentType::LoyalCustomers,
            (5, 3, 4) | (4, 3, 5) => SegmentType::PotentialLoyalists,
            (3, 4, 5) | (3, 5, 5) | (2, 4, 5) | (2, 5, 5) => SegmentType::CannotLose,
            (2, 2, 4) | (2, 2, 5) | (2, 3, 4) | (2, 3, 5) | (3, 2, 4) | (3, 2, 5) => SegmentType::AtRisk,
            (2, 2, 3) | (2, 2, 2) | (2, 3, 2) | (2, 3, 3) => SegmentType::AboutToSleep,
            (5, 4, 3) | (5, 4, 2) | (5, 3, 3) | (5, 3, 2) => SegmentType::NewCustomers,
            (5, 2, 3) | (5, 2, 4) => SegmentType::Promising,
            (4, 2, 2) | (4, 3, 2) | (4, 3, 3) => SegmentType::NeedAttention,
            (1, 1, 1) | (1, 1, 2) | (1, 2, 1) => SegmentType::Lost,
            (1, 3, 4) | (1, 3, 5) | (1, 4, 4) | (1, 4, 5) => SegmentType::AtRiskSleeping,
            (1, 2, 3) | (1, 2, 4) | (1, 2, 5) | (1, 3, 2) | (1, 3, 3) => SegmentType::Hibernating,
            _ => SegmentType::NeedAttention,
        }
    }

    /// The action recommended for a segment.
    pub fn recommended_action(segment: &SegmentType) -> (s: &'static str)
        ensures
            s@ == action_text(*segment),
    {
        match segment {
            SegmentType::Champions => "Reward loyalty, ask for referrals",
            SegmentType::LoyalCustomers => "Maintain engagement, upsell opportunities",
            SegmentType::PotentialLoyalists => "Personalized engagement, nurture relationship",
            SegmentType::AtRisk => "Win-back campaign, special offers",
            SegmentType::CannotLose => "Priority retention, VIP treatment",
            SegmentType::VIP => "Exclusive experiences, personalization",
            SegmentType::NewCustomers => "Welcome series, onboarding support",
            SegmentType::NeedAttention => "Re-engagement campaign, surveys",
            SegmentType::AboutToSleep => "Targeted win-back, special incentives",
            SegmentType::AtRiskSleeping => "Reactivation campaign, incentives",
            SegmentType::Promising => "Regular engagement, growth nurturing",
            SegmentType::Lost => "Sunset, or aggressive win-back",
            SegmentType::Hibernating => "Careful reactivation, special offer",
        }
    }
}

/// The segment name that RFM scoring gives a customer: each of the three
/// scores counts as high at 4 or more, and the eight combinations of high and
/// low have a name each.
pub open spec fn rfm_label(r: u32, f: u32, m: u32) -> Seq<char> {
    if r >= 4 {
        if f >= 4 {
            if m >= 4 { "Champions"@ } else { "Loyal Customers"@ }
        } else {
            if m >= 4 { "Potential Loyalists"@ } else { "At Risk"@ }
        }
    } else {
        if f >= 4 {
            if m >= 4 { "VIP"@ } else { "Need Attention"@ }
        } else {
            if m >= 4 { "Promising"@ } else { "Lost"@ }
        }
    }
}

/// The RFM segment name for recency, frequency and monetary scores.
pub fn rfm_segment_label(recency_score: u32, frequency_score: u32, monetary_score: u32) -> (s: &'static str)
    ensures
        s@ == rfm_label(recency_score, frequency_score, monetary_score),
{
    match (recency_score >= 4, frequency_score >= 4, monetary_score >= 4) {
        (true, true, true) => "Champions",
        (true, true, false) => "Loyal Customers",
        (true, false, true) => "Potential Loyalists",
        (true, false, false) => "At Risk",
        (false, true, true) => "VIP",
        (false, true, false) => "Need Attention",
        (false, false, true) => "Promising",
        (false, false, false) => "Lost",
    }
}

} // verus!
