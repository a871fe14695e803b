//! Privacy: differential-privacy mechanism names, quasi-identifiers and
//! k-anonymity by suppression of rows whose quasi-identifier group is too
//! small.

use vstd::prelude::*;

use crate::seqs::{keep, lemma_keep_ext, lemma_keep_keep, lemma_keep_partition, lemma_keep_sound, lemma_keep_step};
use crate::string_map::StringMap;
use crate::text::{str_eq, string_views};

verus! {

/// Differential privacy mechanism.
#[derive(Clone, Copy, Debug, PartialEq, Eq, Structural)]
pub enum DPMechanism {
    Laplace,
    Gaussian,
    Exponential,
}

/// The name of a mechanism.
pub open spec fn mechanism_name(m: DPMechanism) -> Seq<char> {
    match m {
        DPMechanism::Laplace => "laplace"@,
        DPMechanism::Gaussian => "gaussian"@,
        DPMechanism::Exponential => "exponential"@,
    }
}

impl DPMechanism {
    pub fn as_str(&self) -> (s: &'static str)
        ensures
            s@ == mechanism_name(*self),
    {
        match self {
            DPMechanism::Laplace => "laplace",
            DPMechanism::Gaussian => "gaussian",
            DPMechanism::Exponential => "exponential",
        }
    }
}

/// K-anonymity quasi-identifier and its known values.
#[derive(Clone, Debug, PartialEq, Eq, Hash)]
pub struct QuasiIdentifier {
    pub name: String,
    pub values: Vec<String>,
}

impl QuasiIdentifier {
    pub fn new(name: String) -> (q: Self)
        ensures
            q.name == name,
            q.values@.len() == 0,
    {
        QuasiIdentifier { name, values: Vec::new() }
    }

    /// The identifier with `value` appended to its values.
    pub fn add_value(self, value: String) -> (q: Self)
        ensures
            q.name == self.name,
            q.values@ == self.values@.push(value),
    {
        let mut q = self;
        q.values.push(value);
        q
    }
}

/// Namespace for the differential-privacy noise functions.
pub struct DifferentialPrivacy;

/// The value of column `q` in a row, or the empty text when absent.
pub open spec fn cell(row: Map<Seq<char>, Seq<char>>, q: Seq<char>) -> Seq<char> {
    if row.dom().contains(q) {
        row[q]
    } else {
        Seq::empty()
    }
}

/// The quasi-identifier values of a row, in the order of `qis`.
pub open spec fn row_key(row: Map<Seq<char>, Seq<char>>, qis: Seq<Seq<char>>) -> Seq<Seq<char>> {
    qis.map_values(|q: Seq<char>| cell(row, q))
}

/// Number of rows of `rows` with quasi-identifier values `key`.
pub open spec fn group_size(
    rows: Seq<Map<Seq<char>, Seq<char>>>,
    qis: Seq<Seq<char>>,
    key: Seq<Seq<char>>,
) -> nat {
    keep(rows, |r: Map<Seq<char>, Seq<char>>| row_key(r, qis) == key).len()
}

/// Rows whose group (same quasi-identifier values) has at least `k` rows.
pub open spec fn in_large_group(
    rows: Seq<Map<Seq<char>, Seq<char>>>,
    qis: Seq<Seq<char>>,
    k: nat,
) -> spec_fn(Map<Seq<char>, Seq<char>>) -> bool {
    |r: Map<Seq<char>, Seq<char>>| group_size(rows, qis, row_key(r, qis)) >= k
}

/// Views of a sequence of rows.
pub open spec fn row_views(s: Seq<StringMap>) -> Seq<Map<Seq<char>, Seq<char>>> {
    s.map_values(|r: StringMap| r@)
}

/// K-anonymity by suppression.
pub struct KAnonymity;

/// The value of column `q` in `row`, or the empty text.
fn cell_of(row: &StringMap, q: &String) -> (s: String)
    ensures
        s@ == cell(row@, q@),
{
    match row.get(q.as_str()) {
        Some(v) => v,
        None => String::new(),
    }
}

/// Whether two rows agree on every quasi-identifier.
fn same_key(a: &StringMap, b: &StringMap, qis: &[String]) -> (r: bool)
    ensures
        r == (row_key(a@, string_views(qis@)) == row_key(b@, string_views(qis@))),
{
    let ghost qs = string_views(qis@);
    let n = qis.len();
    let mut i: usize = 0;
    while i < n
        invariant
            n == qis@.len(),
            qs == string_views(qis@),
            i <= n,
            forall|j: int| 0 <= j < i ==> cell(a@, #[trigger] qs[j]) == cell(b@, qs[j]),
        decreases n - i,
    {
        let x = cell_of(a, &qis[i]);
        let y = cell_of(b, &qis[i]);
        if !str_eq(x.as_str(), y.as_str()) {
            proof {
                assert(row_key(a@, qs)[i as int] != row_key(b@, qs)[i as int]);
            }
            return false;
        }
        i = i + 1;
    }
    assert(row_key(a@, qs) =~= row_key(b@, qs));
    true
}

impl KAnonymity {
    /// Size of the group of row `i`: rows that agree with it on every
    /// quasi-identifier.
    fn group_size_of(data: &[StringMap], quasi_identifiers: &[String], i: usize) -> (c: usize)
        requires
            i < data@.len(),
        ensures
            c == group_size(
                row_views(data@),
                string_views(quasi_identifiers@),
                row_key(data@[i as int]@, string_views(quasi_identifiers@)),
            ),
    {
        let ghost rows = row_views(data@);
        let ghost qs = string_views(quasi_identifiers@);
        let ghost key = row_key(data@[i as int]@, qs);
        let ghost f = |r: Map<Seq<char>, Seq<char>>| row_key(r, qs) == key;
        let n = data.len();
        let mut count: usize = 0;
        let mut j: usize = 0;
        while j < n
            invariant
                n == data@.len(),
                rows == row_views(data@),
                qs == string_views(quasi_identifiers@),
                i < n,
                key == row_key(data@[i as int]@, qs),
                f == (|r: Map<Seq<char>, Seq<char>>| row_key(r, qs) == key),
                j <= n,
                count == keep(rows.take(j as int), f).len(),
            decreases n - j,
        {
            proof {
                lemma_keep_step(rows, f, j as int);
                lemma_keep_sound(rows.take(j as int), f);
            }
            if same_key(&data[j], &data[i], quasi_identifiers) {
                count = count + 1;
            }
            j = j + 1;
        }
        assert(rows.take(n as int) =~= rows);
        count
    }

    /// The rows whose quasi-identifier group has at least `k` rows, in their
    /// input order.
    pub fn suppress_to_k_anonymous(data: &[StringMap], quasi_identifiers: &[String], k: usize) -> (r:
        crate::error::KitResult<Vec<StringMap>>)
        ensures
            match r {
                Ok(v) => row_views(v@) == keep(
                    row_views(data@),
                    in_large_group(row_views(data@), string_views(quasi_identifiers@), k as nat),
                ),
                Err(_) => false,
            },
    {
        let ghost rows = row_views(data@);
        let ghost f = in_large_group(rows, string_views(quasi_identifiers@), k as nat);
        let mut out: Vec<StringMap> = Vec::new();
        let n = data.len();
        let mut i: usize = 0;
        while i < n
            invariant
                n == data@.len(),
                rows == row_views(data@),
                f == in_large_group(rows, string_views(quasi_identifiers@), k as nat),
                i <= n,
                row_views(out@) == keep(rows.take(i as int), f),
            decreases n - i,
        {
            proof {
                lemma_keep_step(rows, f, i as int);
            }
            let size = Self::group_size_of(data, quasi_identifiers, i);
            if size >= k {
                let ghost prev = out@;
                out.push(data[i].clone_map());
                assert(row_views(out@) =~= row_views(prev).push(rows[i as int]));
            }
            i = i + 1;
        }
        assert(rows.take(n as int) =~= rows);
        Ok(out)
    }

    /// Number of rows whose quasi-identifier group has fewer than `k` rows
    /// (the rows suppression removes).
    pub fn count_suppressed(data: &[StringMap], quasi_identifiers: &[String], k: usize) -> (c: usize)
        ensures
            c == keep(
                row_views(data@),
                |r: Map<Seq<char>, Seq<char>>|
                    !(in_large_group(row_views(data@), string_views(quasi_identifiers@), k as nat))(r),
            ).len(),
    {
        let ghost rows = row_views(data@);
        let ghost g = in_large_group(rows, string_views(quasi_identifiers@), k as nat);
        let ghost f = |r: Map<Seq<char>, Seq<char>>| !g(r);
        let n = data.len();
        let mut count: usize = 0;
        let mut i: usize = 0;
        while i < n
            invariant
                n == data@.len(),
                rows == row_views(data@),
                g == in_large_group(rows, string_views(quasi_identifiers@), k as nat),
                f == (|r: Map<Seq<char>, Seq<char>>| !g(r)),
                i <= n,
                count == keep(rows.take(i as int), f).len(),
            decreases n - i,
        {
            proof {
                lemma_keep_step(rows, f, i as int);
                lemma_keep_sound(rows.take(i as int), f);
            }
            let size = Self::group_size_of(data, quasi_identifiers, i);
            if size < k {
                count = count + 1;
            }
            i = i + 1;
        }
        assert(rows.take(n as int) =~= rows);
        count
    }
}

/// Privacy audit result.
#[derive(Clone, Debug)]
pub struct PrivacyAuditResult {
    pub compliant: bool,
    pub k_anonymous: bool,
    pub dp_budget_sufficient: bool,
    pub issues: Vec<String>,
    pub recommendations: Vec<String>,
}

impl PrivacyAuditResult {
    /// A passing audit with no issues or recommendations.
    pub fn new() -> (r: Self)
        ensures
            r.compliant,
            r.k_anonymous,
            r.dp_budget_sufficient,
            r.issues@.len() == 0,
            r.recommendations@.len() == 0,
    {
        PrivacyAuditResult {
            compliant: true,
            k_anonymous: true,
            dp_budget_sufficient: true,
            issues: Vec::new(),
            recommendations: Vec::new(),
        }
    }
}

/// Suppression leaves a k-anonymous table: every row it keeps shares its
/// quasi-identifier values with at least `k` of the rows it keeps.
pub proof fn law_suppression_is_k_anonymous(
    rows: Seq<Map<Seq<char>, Seq<char>>>,
    qis: Seq<Seq<char>>,
    k: nat,
    i: int,
)
    requires
        0 <= i < keep(rows, in_large_group(rows, qis, k)).len(),
    ensures
        group_size(
            keep(rows, in_large_group(rows, qis, k)),
            qis,
            row_key(keep(rows, in_large_group(rows, qis, k))[i], qis),
        ) >= k,
{
    let f = in_large_group(rows, qis, k);
    let kept = keep(rows, f);
    let key = row_key(kept[i], qis);
    let g = |r: Map<Seq<char>, Seq<char>>| row_key(r, qis) == key;
    lemma_keep_sound(rows, f);
    assert(f(kept[i]));
    assert(group_size(rows, qis, key) >= k);
    lemma_keep_keep(rows, f, g);
    let both = |x: Map<Seq<char>, Seq<char>>| f(x) && g(x);
    assert forall|j: int| 0 <= j < rows.len() implies both(#[trigger] rows[j]) == g(rows[j]) by {
        if g(rows[j]) {
            assert(row_key(rows[j], qis) == key);
        }
    }
    lemma_keep_ext(rows, both, g);
    assert(group_size(kept, qis, key) == keep(kept, g).len());
    assert(group_size(rows, qis, key) == keep(rows, g).len());
}

/// Every row is either kept by suppression or counted as suppressed.
pub proof fn law_suppression_partitions_rows(
    rows: Seq<Map<Seq<char>, Seq<char>>>,
    qis: Seq<Seq<char>>,
    k: nat,
)
    ensures
        keep(rows, in_large_group(rows, qis, k)).len() + keep(
            rows,
            |r: Map<Seq<char>, Seq<char>>| !(in_large_group(rows, qis, k))(r),
        ).len() == rows.len(),
{
    lemma_keep_partition(rows, in_large_group(rows, qis, k));
}

} // verus!
