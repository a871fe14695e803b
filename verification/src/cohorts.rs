//! Cohorts: grouping periods and cohort identifiers.

use vstd::prelude::*;

use crate::text::{int_decimal, push_decimal_i64};
use vstd::arithmetic::div_mod::{lemma_div_is_ordered, lemma_div_pos_is_pos};

verus! {

/// Cohort grouping period.
#[derive(Clone, Copy, Debug, PartialEq, Eq, Hash, Structural)]
pub enum CohortPeriod {
    Weekly,
    Monthly,
    Quarterly,
    Yearly,
}

/// Length of a period in days.
pub open spec fn period_days(p: CohortPeriod) -> i32 {
    match p {
        CohortPeriod::Weekly => 7,
        CohortPeriod::Monthly => 30,
        CohortPeriod::Quarterly => 90,
        CohortPeriod::Yearly => 365,
    }
}

impl CohortPeriod {
    pub fn days(&self) -> (d: i32)
        ensures
            d == period_days(*self),
    {
        match self {
            CohortPeriod::Weekly => 7,
            CohortPeriod::Monthly => 30,
            CohortPeriod::Quarterly => 90,
            CohortPeriod::Yearly => 365,
        }
    }
}

/// Division rounding toward zero (for a positive divisor).
pub open spec fn trunc_div(a: int, b: int) -> int {
    if a >= 0 {
        a / b
    } else {
        -((-a) / b)
    }
}

/// The number of the period that a Unix timestamp falls in: whole days since
/// the epoch divided by the period length, both rounding toward zero.
pub open spec fn cohort_number(p: CohortPeriod, date: int) -> int {
    trunc_div(trunc_div(date, 86400), period_days(p) as int)
}

/// Division rounding toward zero by a positive number is monotone.
proof fn lemma_trunc_div_monotone(a: int, b: int, d: int)
    requires
        a <= b,
        d > 0,
    ensures
        trunc_div(a, d) <= trunc_div(b, d),
{
    if a >= 0 {
        lemma_div_is_ordered(a, b, d);
    } else if b >= 0 {
        lemma_div_pos_is_pos(-a, d);
        lemma_div_pos_is_pos(b, d);
    } else {
        lemma_div_is_ordered(-b, -a, d);
    }
}

/// A later timestamp never falls in an earlier cohort.
pub proof fn law_cohort_number_monotone(p: CohortPeriod, a: int, b: int)
    requires
        a <= b,
    ensures
        cohort_number(p, a) <= cohort_number(p, b),
{
    lemma_trunc_div_monotone(a, b, 86400);
    lemma_trunc_div_monotone(trunc_div(a, 86400), trunc_div(b, 86400), period_days(p) as int);
}

/// Cohort identifier, `cohort_<n>`.
#[derive(Debug, PartialEq, Eq, Hash, PartialOrd, Ord)]
pub struct CohortId(pub String);

pub(crate) fn div_toward_zero(a: i64, b: i64) -> (q: i64)
    requires
        b > 1,
    ensures
        q == trunc_div(a as int, b as int),
{
    if a >= 0 {
        a / b
    } else {
        let magnitude: u64 = ((-(a + 1)) as u64) + 1;
        let d: u64 = b as u64;
        let q: u64 = magnitude / d;
        assert(q * 2 <= magnitude) by (nonlinear_arith)
            requires
                q == magnitude / d,
                d >= 2,
        {
            assert(q * d <= magnitude);
            assert(q * 2 <= q * d);
        }
        assert(magnitude == -(a as int));
        -(q as i64)
    }
}

impl CohortId {
    /// The cohort of a timestamp: `cohort_` followed by the period number.
    pub fn new(period: CohortPeriod, date: i64) -> (c: Self)
        ensures
            c.0@ == "cohort_"@ + int_decimal(cohort_number(period, date as int)),
    {
        let days_since_epoch = div_toward_zero(date, 86400);
        let n = div_toward_zero(days_since_epoch, period.days() as i64);
        let mut s = String::from_str("cohort_");
        push_decimal_i64(&mut s, n);
        CohortId(s)
    }
}

} // verus!
