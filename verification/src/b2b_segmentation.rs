//! B2B firmographics: company size classes, the size rule, and the grouping
//! of accounts by segment key.

use vstd::prelude::*;

use crate::text::{str_eq, string_views};

verus! {

/// Company size category.
#[derive(Clone, Copy, Debug, PartialEq, Eq, Structural)]
pub enum CompanySize {
    Micro,
    Small,
    MidMarket,
    Enterprise,
}

/// The name of a size class.
pub open spec fn company_size_name(s: CompanySize) -> Seq<char> {
    match s {
        CompanySize::Micro => "micro"@,
        CompanySize::Small => "small"@,
        CompanySize::MidMarket => "mid_market"@,
        CompanySize::Enterprise => "enterprise"@,
    }
}

/// The size class of a company with `n` employees: up to 10 micro, up to 50
/// small, up to 500 mid-market, enterprise above.
pub open spec fn size_class(n: nat) -> CompanySize {
    if n <= 10 {
        CompanySize::Micro
    } else if n <= 50 {
        CompanySize::Small
    } else if n <= 500 {
        CompanySize::MidMarket
    } else {
        CompanySize::Enterprise
    }
}

impl CompanySize {
    pub fn as_str(&self) -> (s: &'static str)
        ensures
            s@ == company_size_name(*self),
    {
        match self {
            CompanySize::Micro => "micro",
            CompanySize::Small => "small",
            CompanySize::MidMarket => "mid_market",
            CompanySize::Enterprise => "enterprise",
        }
    }
}

/// The rank of a size class, from 0 (micro) to 3 (enterprise).
pub open spec fn size_rank(s: CompanySize) -> nat {
    match s {
        CompanySize::Micro => 0,
        CompanySize::Small => 1,
        CompanySize::MidMarket => 2,
        CompanySize::Enterprise => 3,
    }
}

/// More employees never give a smaller size class.
pub proof fn law_size_class_monotone(a: nat, b: nat)
    requires
        a <= b,
    ensures
        size_rank(size_class(a)) <= size_rank(size_class(b)),
{
}

/// Industry classification.
#[derive(Clone, Debug, PartialEq, Eq)]
pub struct Industry {
    pub primary: String,
    pub secondary: Option<String>,
    pub vertical: Option<String>,
}

/// Geographic region.
#[derive(Clone, Debug, PartialEq, Eq)]
pub struct Region {
    pub country: String,
    pub region: String,
    pub timezone: String,
}

/// B2B segmentation rules.
pub struct B2BSegmentation;

impl B2BSegmentation {
    /// The size class of a company with `employee_count` employees.
    pub fn classify_company_size(employee_count: usize) -> (s: CompanySize)
        ensures
            s == size_class(employee_count as nat),
    {
        if employee_count <= 10 {
            CompanySize::Micro
        } else if employee_count <= 50 {
            CompanySize::Small
        } else if employee_count <= 500 {
            CompanySize::MidMarket
        } else {
            CompanySize::Enterprise
        }
    }
}

/// The segment key of an account: its size class name, `-`, its primary
/// industry.
pub fn segment_key(size: CompanySize, primary_industry: &str) -> (k: String)
    ensures
        k@ == company_size_name(size) + "-"@ + primary_industry@,
{
    let mut k = String::from_str(size.as_str());
    k.append("-");
    k.append(primary_industry);
    k
}

/// Groups of positions by key, as (key, positions) views.
pub open spec fn group_views(g: Seq<(String, Vec<usize>)>) -> Seq<(Seq<char>, Seq<usize>)> {
    g.map_values(|e: (String, Vec<usize>)| (e.0@, e.1@))
}

/// What grouping the first `n` keys gives: the group keys are distinct and
/// come in order of first occurrence; every group is non-empty, its
/// positions increase and carry its key; and each position below `n` is in
/// the group of its key.
pub open spec fn grouped(keys: Seq<Seq<char>>, n: int, g: Seq<(Seq<char>, Seq<usize>)>) -> bool {
    &&& forall|a: int, b: int|
        0 <= a < b < g.len() ==> #[trigger] g[a].0 != #[trigger] g[b].0 && g[a].1[0] < g[b].1[0]
    &&& forall|a: int| 0 <= a < g.len() ==> (#[trigger] g[a]).1.len() > 0
    &&& forall|a: int, t: int|
        0 <= a < g.len() && 0 <= t < g[a].1.len() ==> #[trigger] g[a].1[t] < n && keys[g[a].1[t] as int]
            == g[a].0
    &&& forall|a: int, t: int, u: int|
        0 <= a < g.len() && 0 <= t < u < g[a].1.len() ==> #[trigger] g[a].1[t] < #[trigger] g[a].1[u]
    &&& forall|i: int| 0 <= i < n ==> #[trigger] placed(keys, g, i)
}

/// Position `i` is in a group whose key is `keys[i]`.
pub open spec fn placed(keys: Seq<Seq<char>>, g: Seq<(Seq<char>, Seq<usize>)>, i: int) -> bool {
    exists|a: int| 0 <= a < g.len() && g[a].0 == keys[i] && (#[trigger] g[a].1).contains(i as usize)
}

/// Position of the group with key `key`, if any.
fn find_group(g: &Vec<(String, Vec<usize>)>, key: &String) -> (r: Option<usize>)
    ensures
        match r {
            Some(j) => j < g@.len() && group_views(g@)[j as int].0 == key@,
            None => forall|a: int| 0 <= a < g@.len() ==> #[trigger] group_views(g@)[a].0 != key@,
        },
{
    let m = g.len();
    let mut j: usize = 0;
    while j < m
        invariant
            m == g@.len(),
            j <= m,
            forall|a: int| 0 <= a < j ==> #[trigger] group_views(g@)[a].0 != key@,
        decreases m - j,
    {
        if str_eq(g[j].0.as_str(), key.as_str()) {
            return Some(j);
        }
        j = j + 1;
    }
    None
}

/// The positions of the keys grouped by key, groups in order of first
/// occurrence and positions in increasing order.
pub fn group_by_key(keys: &[String]) -> (g: Vec<(String, Vec<usize>)>)
    ensures
        grouped(string_views(keys@), keys@.len() as int, group_views(g@)),
{
    let ghost ks = string_views(keys@);
    let mut g: Vec<(String, Vec<usize>)> = Vec::new();
    let n = keys.len();
    let mut i: usize = 0;
    while i < n
        invariant
            n == keys@.len(),
            ks == string_views(keys@),
            i <= n,
            grouped(ks, i as int, group_views(g@)),
        decreases n - i,
    {
        let ghost gv = group_views(g@);
        let m = g.len();
        let j = match find_group(&g, &keys[i]) {
            Some(j) => j,
            None => m,
        };
        if j < m {
            let (k, mut members) = g.remove(j);
            let ghost before = members@;
            members.push(i);
            g.insert(j, (k, members));
            proof {
                let nv = group_views(g@);
                assert(nv =~= gv.update(j as int, (gv[j as int].0, before.push(i))));
                assert forall|a: int, b: int|
                    0 <= a < b < nv.len() implies #[trigger] nv[a].0 != #[trigger] nv[b].0 && nv[a].1[0]
                    < nv[b].1[0] by {
                    assert(gv[a].0 != gv[b].0 && gv[a].1[0] < gv[b].1[0]);
                    assert(gv[a].1.len() > 0 && gv[b].1.len() > 0);
                }
                assert forall|a: int| 0 <= a < nv.len() implies (#[trigger] nv[a]).1.len() > 0 by {
                    assert(gv[a].1.len() > 0);
                }
                assert forall|a: int, t: int|
                    0 <= a < nv.len() && 0 <= t < nv[a].1.len() implies #[trigger] nv[a].1[t] < i + 1
                    && ks[nv[a].1[t] as int] == nv[a].0 by {
                    if a != j || t < before.len() {
                        assert(nv[a].1[t] == gv[a].1[t]);
                    }
                }
                assert forall|a: int, t: int, u: int|
                    0 <= a < nv.len() && 0 <= t < u < nv[a].1.len() implies #[trigger] nv[a].1[t]
                    < #[trigger] nv[a].1[u] by {
                    if a != j || u < before.len() {
                        assert(nv[a].1[t] == gv[a].1[t]);
                        assert(nv[a].1[u] == gv[a].1[u]);
                    } else {
                        assert(nv[a].1[t] == gv[a].1[t]);
                        assert(gv[a].1[t] < i);
                    }
                }
                assert forall|x: int| 0 <= x < i + 1 implies #[trigger] placed(ks, nv, x) by {
                    if x < i {
                        assert(placed(ks, gv, x));
                        let a = choose|a: int|
                            0 <= a < gv.len() && gv[a].0 == ks[x] && (#[trigger] gv[a].1).contains(x as usize);
                        let t = choose|t: int| 0 <= t < gv[a].1.len() && gv[a].1[t] == x as usize;
                        assert(nv[a].1[t] == x as usize);
                        assert(nv[a].1.contains(x as usize));
                    } else {
                        assert(nv[j as int].1[before.len() as int] == i);
                        assert(nv[j as int].1.contains(x as usize));
                    }
                }
            }
        } else {
            let mut members: Vec<usize> = Vec::new();
            members.push(i);
            g.push((keys[i].clone(), members));
            proof {
                let nv = group_views(g@);
                assert(nv =~= gv.push((ks[i as int], seq![i])));
                assert forall|a: int, b: int|
                    0 <= a < b < nv.len() implies #[trigger] nv[a].0 != #[trigger] nv[b].0 && nv[a].1[0]
                    < nv[b].1[0] by {
                    if b < gv.len() {
                        assert(gv[a].0 != gv[b].0 && gv[a].1[0] < gv[b].1[0]);
                    } else {
                        assert(gv[a].1.len() > 0);
                        assert(gv[a].1[0] < i);
                    }
                }
                assert forall|a: int| 0 <= a < nv.len() implies (#[trigger] nv[a]).1.len() > 0 by {
                    if a < gv.len() {
                        assert(gv[a].1.len() > 0);
                    }
                }
                assert forall|a: int, t: int|
                    0 <= a < nv.len() && 0 <= t < nv[a].1.len() implies #[trigger] nv[a].1[t] < i + 1
                    && ks[nv[a].1[t] as int] == nv[a].0 by {
                    if a < gv.len() {
                        assert(nv[a].1[t] == gv[a].1[t]);
                    }
                }
                assert forall|a: int, t: int, u: int|
                    0 <= a < nv.len() && 0 <= t < u < nv[a].1.len() implies #[trigger] nv[a].1[t]
                    < #[trigger] nv[a].1[u] by {
                    assert(a < gv.len());
                    assert(nv[a].1[t] == gv[a].1[t]);
                    assert(nv[a].1[u] == gv[a].1[u]);
                }
                assert forall|x: int| 0 <= x < i + 1 implies #[trigger] placed(ks, nv, x) by {
                    if x < i {
                        assert(placed(ks, gv, x));
                        let a = choose|a: int|
                            0 <= a < gv.len() && gv[a].0 == ks[x] && (#[trigger] gv[a].1).contains(x as usize);
                        assert(nv[a] == gv[a]);
                    } else {
                        assert(nv[gv.len() as int].1[0] == i);
                        assert(nv[gv.len() as int].1.contains(x as usize));
                    }
                }
            }
        }
        i = i + 1;
    }
    g
}

/// The positions below `n` whose key is `key`.
pub open spec fn positions_with_key(keys: Seq<Seq<char>>, n: int, key: Seq<char>) -> Set<usize> {
    Set::new(|i: usize| i < n && keys[i as int] == key)
}

/// A group holds exactly the positions whose key is the group's, so the size
/// of a segment is the number of accounts with its key.
pub proof fn law_group_size_is_key_count(
    keys: Seq<Seq<char>>,
    n: int,
    g: Seq<(Seq<char>, Seq<usize>)>,
    a: int,
)
    requires
        grouped(keys, n, g),
        0 <= a < g.len(),
    ensures
        g[a].1.to_set() == positions_with_key(keys, n, g[a].0),
        g[a].1.len() == positions_with_key(keys, n, g[a].0).len(),
{
    let members = g[a].1;
    let key = g[a].0;
    assert forall|i: usize| #[trigger] members.to_set().contains(i) == positions_with_key(keys, n, key).contains(i) by {
        if members.contains(i) {
            let t = choose|t: int| 0 <= t < members.len() && members[t] == i;
            assert(g[a].1[t] < n && keys[g[a].1[t] as int] == g[a].0);
        }
        if i < n && keys[i as int] == key {
            assert(placed(keys, g, i as int));
            let b = choose|b: int| 0 <= b < g.len() && g[b].0 == keys[i as int] && (#[trigger] g[b].1).contains(i);
            if b != a {
                if a < b {
                    assert(g[a].0 != g[b].0);
                } else {
                    assert(g[b].0 != g[a].0);
                }
            }
        }
    }
    assert(members.to_set() =~= positions_with_key(keys, n, key));
    assert forall|t: int, u: int| 0 <= t < members.len() && 0 <= u < members.len() && t != u implies members[t]
        != members[u] by {
        if t < u {
            assert(g[a].1[t] < g[a].1[u]);
        } else {
            assert(g[a].1[u] < g[a].1[t]);
        }
    }
    members.unique_seq_to_set();
}

} // verus!
