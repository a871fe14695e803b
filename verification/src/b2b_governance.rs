//! B2B account and segment governance records: account hierarchies, data
//! lineage, ownership, version genealogy, feature provenance, decision audit
//! trails, policies, access-control lists and change logs.

use vstd::prelude::*;

use crate::activation::clone_opt;
use crate::assoc::{assoc_index, lemma_assoc_index};
use crate::error::{KitError, KitResult};
use crate::seqs::{keep, lemma_keep_sound, lemma_keep_step};
use crate::text::{has_substring, nat_digits, push_decimal_u64, str_contains, str_eq, string_views};

verus! {

/// A company in an account hierarchy.
#[derive(Clone, Debug)]
pub struct CompanyNode {
    pub company_id: String,
    pub company_name: String,
    pub parent_id: Option<String>,
    pub subsidiaries: Vec<String>,
    pub employee_count: usize,
    pub industry: String,
    pub location: String,
}

/// A B2B account structure: the companies and their parent links.
#[derive(Clone, Debug)]
pub struct AccountHierarchy {
    pub root_company: String,
    pub total_nodes: usize,
    pub max_depth: usize,
    pub subsidiaries_count: usize,
    pub total_employees: usize,
    pub hierarchy_structure: Vec<CompanyNode>,
}

/// A company given as (id, name, parent id).
pub type CompanyInput = (String, String, Option<String>);

/// Companies as (id, parent id) entries, in input order.
pub open spec fn company_keys(cs: Seq<CompanyInput>) -> Seq<(Seq<char>, Option<String>)> {
    cs.map_values(|c: CompanyInput| (c.0@, c.2))
}

/// The position of the parent of `c`: the first company whose id is the
/// parent id of `c`.
pub open spec fn parent_position(cs: Seq<CompanyInput>, c: CompanyInput) -> Option<int> {
    match c.2 {
        Some(p) => assoc_index(company_keys(cs), p@),
        None => None,
    }
}

/// Whether a company's parent is the company at position `i`.
pub open spec fn child_of(cs: Seq<CompanyInput>, i: int) -> spec_fn(CompanyInput) -> bool {
    |c: CompanyInput| parent_position(cs, c) == Some(i)
}

/// The ids of the direct subsidiaries of the company at position `i`, in
/// input order.
pub open spec fn subsidiary_ids(cs: Seq<CompanyInput>, i: int) -> Seq<Seq<char>> {
    keep(cs, child_of(cs, i)).map_values(|c: CompanyInput| c.0@)
}

/// Whether some company names a parent.
pub open spec fn any_parent(cs: Seq<CompanyInput>) -> bool {
    exists|j: int| 0 <= j < cs.len() && (#[trigger] cs[j]).2 is Some
}

/// The node built for the company at position `i`.
pub open spec fn node_matches(n: CompanyNode, cs: Seq<CompanyInput>, i: int) -> bool {
    &&& n.company_id == cs[i].0
    &&& n.company_name == cs[i].1
    &&& n.parent_id == cs[i].2
    &&& string_views(n.subsidiaries@) == subsidiary_ids(cs, i)
    &&& n.employee_count == 0
    &&& n.industry@ == "unknown"@
    &&& n.location@ == "unknown"@
}

/// Position of the first company with id `id`.
fn find_company(companies: &[CompanyInput], id: &String) -> (r: Option<usize>)
    ensures
        match r {
            Some(i) => assoc_index(company_keys(companies@), id@) == Some(i as int),
            None => assoc_index(company_keys(companies@), id@) is None,
        },
{
    let ghost t = company_keys(companies@);
    proof {
        lemma_assoc_index(t, id@);
    }
    let n = companies.len();
    let mut i: usize = 0;
    while i < n
        invariant
            n == companies@.len(),
            t == company_keys(companies@),
            i <= n,
            forall|j: int| 0 <= j < i ==> #[trigger] t[j].0 != id@,
        decreases n - i,
    {
        if str_eq(companies[i].0.as_str(), id.as_str()) {
            proof {
                lemma_assoc_index(t, id@);
                assert(t[i as int].0 == id@);
                match assoc_index(t, id@) {
                    Some(k) => {
                        if k > i {
                            assert(t[i as int].0 != id@);
                        }
                    },
                    None => {},
                }
            }
            return Some(i);
        }
        i = i + 1;
    }
    proof {
        if let Some(k) = assoc_index(t, id@) {
            assert(t[k].0 == id@);
        }
    }
    None
}

/// Builds account hierarchies.
pub struct HierarchyBuilder;

impl HierarchyBuilder {
    /// The hierarchy of the given companies: the first one is the root;
    /// each company lists as subsidiaries the companies whose parent id
    /// names it first; the depth is 2 when some company has a parent and 1
    /// otherwise. An empty list is refused.
    pub fn build_hierarchy(companies: &[CompanyInput]) -> (r: KitResult<AccountHierarchy>)
        ensures
            match r {
                Ok(h) => {
                    &&& companies@.len() > 0
                    &&& h.root_company == companies@[0].0
                    &&& h.total_nodes == companies@.len()
                    &&& h.max_depth == if any_parent(companies@) {
                        2usize
                    } else {
                        1usize
                    }
                    &&& h.subsidiaries_count == companies@.len() - 1
                    &&& h.total_employees == 0
                    &&& h.hierarchy_structure@.len() == companies@.len()
                    &&& forall|i: int|
                        0 <= i < companies@.len() ==> node_matches(
                            #[trigger] h.hierarchy_structure@[i],
                            companies@,
                            i,
                        )
                },
                Err(e) => companies@.len() == 0 && (e matches KitError::DataValidation(m) && m@
                    == "No companies provided"@),
            },
    {
        let n = companies.len();
        if n == 0 {
            return Err(KitError::DataValidation(String::from_str("No companies provided")));
        }
        let ghost cs = companies@;
        let mut parents: Vec<Option<usize>> = Vec::new();
        let mut depth: usize = 1;
        let mut j: usize = 0;
        while j < n
            invariant
                n == companies@.len(),
                cs == companies@,
                j <= n,
                parents@.len() == j,
                forall|k: int|
                    0 <= k < j ==> match #[trigger] parents@[k] {
                        Some(p) => parent_position(cs, cs[k]) == Some(p as int),
                        None => parent_position(cs, cs[k]) is None,
                    },
                depth == if exists|k: int| 0 <= k < j && (#[trigger] cs[k]).2 is Some {
                    2usize
                } else {
                    1usize
                },
            decreases n - j,
        {
            let p = match &companies[j].2 {
                Some(pid) => {
                    depth = 2;
                    find_company(companies, pid)
                },
                None => None,
            };
            parents.push(p);
            proof {
                if exists|k: int| 0 <= k < j + 1 && (#[trigger] cs[k]).2 is Some {
                    if cs[j as int].2 is None {
                        let k = choose|k: int| 0 <= k < j + 1 && (#[trigger] cs[k]).2 is Some;
                        assert(k < j);
                    }
                }
            }
            j = j + 1;
        }
        let mut nodes: Vec<CompanyNode> = Vec::new();
        let mut i: usize = 0;
        while i < n
            invariant
                n == companies@.len(),
                cs == companies@,
                parents@.len() == n,
                forall|k: int|
                    0 <= k < n ==> match #[trigger] parents@[k] {
                        Some(p) => parent_position(cs, cs[k]) == Some(p as int),
                        None => parent_position(cs, cs[k]) is None,
                    },
                i <= n,
                nodes@.len() == i,
                forall|k: int| 0 <= k < i ==> node_matches(#[trigger] nodes@[k], cs, k),
            decreases n - i,
        {
            let ghost f = child_of(cs, i as int);
            let mut subs: Vec<String> = Vec::new();
            let mut k: usize = 0;
            while k < n
                invariant
                    n == companies@.len(),
                    cs == companies@,
                    parents@.len() == n,
                    forall|m: int|
                        0 <= m < n ==> match #[trigger] parents@[m] {
                            Some(p) => parent_position(cs, cs[m]) == Some(p as int),
                            None => parent_position(cs, cs[m]) is None,
                        },
                    i < n,
                    f == child_of(cs, i as int),
                    k <= n,
                    string_views(subs@) == keep(cs.take(k as int), f).map_values(
                        |c: CompanyInput| c.0@,
                    ),
                decreases n - k,
            {
                proof {
                    lemma_keep_step(cs, f, k as int);
                }
                let hit = match parents[k] {
                    Some(p) => p == i,
                    None => false,
                };
                assert(hit == f(cs[k as int]));
                if hit {
                    let ghost prev = subs@;
                    subs.push(companies[k].0.clone());
                    proof {
                        let kt = keep(cs.take(k as int), f);
                        assert(string_views(subs@) =~= string_views(prev).push(cs[k as int].0@));
                        assert(kt.push(cs[k as int]).map_values(|c: CompanyInput| c.0@) =~= kt.map_values(
                            |c: CompanyInput| c.0@,
                        ).push(cs[k as int].0@));
                    }
                }
                k = k + 1;
            }
            assert(cs.take(n as int) =~= cs);
            let c = &companies[i];
            nodes.push(
                CompanyNode {
                    company_id: c.0.clone(),
                    company_name: c.1.clone(),
                    parent_id: clone_opt(&c.2),
                    subsidiaries: subs,
                    employee_count: 0,
                    industry: String::from_str("unknown"),
                    location: String::from_str("unknown"),
                },
            );
            i = i + 1;
        }
        Ok(
            AccountHierarchy {
                root_company: companies[0].0.clone(),
                total_nodes: n,
                max_depth: depth,
                subsidiaries_count: n - 1,
                total_employees: 0,
                hierarchy_structure: nodes,
            },
        )
    }
}

/// A copy of a list of strings.
fn clone_strings(v: &[String]) -> (r: Vec<String>)
    ensures
        r@ == v@,
{
    let mut r: Vec<String> = Vec::new();
    let n = v.len();
    let mut i: usize = 0;
    while i < n
        invariant
            n == v@.len(),
            i <= n,
            r@ == v@.take(i as int),
        decreases n - i,
    {
        r.push(v[i].clone());
        i = i + 1;
        assert(r@ =~= v@.take(i as int));
    }
    assert(v@.take(n as int) =~= v@);
    r
}

/// `prefix` followed by the decimal digits of `n`.
fn numbered_id(prefix: &str, n: usize) -> (s: String)
    ensures
        s@ == prefix@ + nat_digits(n as nat),
{
    let mut s = String::from_str(prefix);
    push_decimal_u64(&mut s, n as u64);
    s
}

/// One transformation step of a dataset's lineage.
#[derive(Clone, Debug)]
pub struct LineageEdge {
    pub source: String,
    pub target: String,
    pub transformation: String,
    pub timestamp: String,
}

/// The lineage of a dataset: its sources and transformation steps.
#[derive(Clone, Debug)]
pub struct DataLineage {
    pub dataset_id: String,
    pub source_systems: Vec<String>,
    pub transformation_steps: usize,
    pub lineage_edges: Vec<LineageEdge>,
    pub last_updated: String,
}

/// Tracks data lineage.
pub struct LineageTracker;

impl LineageTracker {
    /// The lineage of a dataset: its sources, and one edge, dated
    /// 2026-07-16, per (source, target, transformation) step, in order.
    pub fn track_lineage(
        dataset_id: &str,
        sources: &[String],
        transformations: &[(String, String, String)],
    ) -> (r: KitResult<DataLineage>)
        ensures
            match r {
                Ok(l) => {
                    &&& l.dataset_id@ == dataset_id@
                    &&& l.source_systems@ == sources@
                    &&& l.transformation_steps == transformations@.len()
                    &&& l.last_updated@ == "2026-07-16"@
                    &&& l.lineage_edges@.len() == transformations@.len()
                    &&& forall|i: int|
                        0 <= i < transformations@.len() ==> {
                            let e = #[trigger] l.lineage_edges@[i];
                            &&& e.source == transformations@[i].0
                            &&& e.target == transformations@[i].1
                            &&& e.transformation == transformations@[i].2
                            &&& e.timestamp@ == "2026-07-16"@
                        }
                },
                Err(_) => false,
            },
    {
        let mut edges: Vec<LineageEdge> = Vec::new();
        let n = transformations.len();
        let mut i: usize = 0;
        while i < n
            invariant
                n == transformations@.len(),
                i <= n,
                edges@.len() == i,
                forall|j: int|
                    0 <= j < i ==> {
                        let e = #[trigger] edges@[j];
                        &&& e.source == transformations@[j].0
                        &&& e.target == transformations@[j].1
                        &&& e.transformation == transformations@[j].2
                        &&& e.timestamp@ == "2026-07-16"@
                    },
            decreases n - i,
        {
            let t = &transformations[i];
            edges.push(
                LineageEdge {
                    source: t.0.clone(),
                    target: t.1.clone(),
                    transformation: t.2.clone(),
                    timestamp: String::from_str("2026-07-16"),
                },
            );
            i = i + 1;
        }
        Ok(
            DataLineage {
                dataset_id: String::from_str(dataset_id),
                source_systems: clone_strings(sources),
                transformation_steps: n,
                lineage_edges: edges,
                last_updated: String::from_str("2026-07-16"),
            },
        )
    }
}

/// An owner of a segment.
#[derive(Clone, Debug)]
pub struct SegmentOwner {
    pub owner_id: String,
    pub owner_name: String,
    pub role: String,
    pub department: String,
    pub contact_email: String,
}

/// The owners of a segment.
#[derive(Clone, Debug)]
pub struct SegmentOwnership {
    pub segment_id: String,
    pub primary_owner: SegmentOwner,
    pub secondary_owners: Vec<SegmentOwner>,
    pub assignment_date: String,
}

/// An owner given as (id, name, role, email).
pub type OwnerInput = (String, String, String, String);

/// The owner record of an input, in department `dept`.
pub open spec fn owner_matches(o: SegmentOwner, i: OwnerInput, dept: Seq<char>) -> bool {
    &&& o.owner_id == i.0
    &&& o.owner_name == i.1
    &&& o.role == i.2
    &&& o.department@ == dept
    &&& o.contact_email == i.3
}

/// Assigns segment owners.
pub struct OwnershipManager;

impl OwnershipManager {
    /// The ownership of a segment: the primary owner in Marketing, the
    /// secondary owners, in order, in Analytics, assigned on 2026-07-16.
    pub fn assign_ownership(segment_id: &str, primary: OwnerInput, secondary: &[OwnerInput]) -> (r:
        KitResult<SegmentOwnership>)
        ensures
            match r {
                Ok(o) => {
                    &&& o.segment_id@ == segment_id@
                    &&& owner_matches(o.primary_owner, primary, "Marketing"@)
                    &&& o.secondary_owners@.len() == secondary@.len()
                    &&& forall|i: int|
                        0 <= i < secondary@.len() ==> owner_matches(
                            #[trigger] o.secondary_owners@[i],
                            secondary@[i],
                            "Analytics"@,
                        )
                    &&& o.assignment_date@ == "2026-07-16"@
                },
                Err(_) => false,
            },
    {
        let ghost p = primary;
        let (id, name, role, email) = primary;
        let primary_owner = SegmentOwner {
            owner_id: id,
            owner_name: name,
            role,
            department: String::from_str("Marketing"),
            contact_email: email,
        };
        assert(owner_matches(primary_owner, p, "Marketing"@));
        let mut others: Vec<SegmentOwner> = Vec::new();
        let n = secondary.len();
        let mut i: usize = 0;
        while i < n
            invariant
                n == secondary@.len(),
                i <= n,
                others@.len() == i,
                forall|j: int|
                    0 <= j < i ==> owner_matches(#[trigger] others@[j], secondary@[j], "Analytics"@),
            decreases n - i,
        {
            let t = &secondary[i];
            others.push(
                SegmentOwner {
                    owner_id: t.0.clone(),
                    owner_name: t.1.clone(),
                    role: t.2.clone(),
                    department: String::from_str("Analytics"),
                    contact_email: t.3.clone(),
                },
            );
            i = i + 1;
        }
        Ok(
            SegmentOwnership {
                segment_id: String::from_str(segment_id),
                primary_owner,
                secondary_owners: others,
                assignment_date: String::from_str("2026-07-16"),
            },
        )
    }
}

/// One version of a segment.
#[derive(Clone, Debug)]
pub struct SegmentVersion {
    pub version_id: u32,
    pub created_date: String,
    pub created_by: String,
    pub parent_segment_id: Option<String>,
    pub modification_reason: String,
    pub member_count: usize,
}

/// The evolution of a segment through its versions.
#[derive(Clone, Debug)]
pub struct SegmentGenealogy {
    pub segment_id: String,
    pub current_version: u32,
    pub versions: Vec<SegmentVersion>,
    pub ancestor_count: usize,
    pub split_events: usize,
    pub merge_events: usize,
}

/// A version given as (id, date, creator, parent segment, reason, members).
pub type VersionInput = (u32, String, String, Option<String>, String, usize);

/// Whether a version has a parent segment.
pub open spec fn has_parent() -> spec_fn(VersionInput) -> bool {
    |v: VersionInput| v.3.is_some()
}

/// Whether a version's reason mentions `word`.
pub open spec fn reason_mentions(word: Seq<char>) -> spec_fn(VersionInput) -> bool {
    |v: VersionInput| has_substring(v.4@, word)
}

/// A version record equal, field by field, to its input.
pub open spec fn version_matches(v: SegmentVersion, i: VersionInput) -> bool {
    &&& v.version_id == i.0
    &&& v.created_date == i.1
    &&& v.created_by == i.2
    &&& v.parent_segment_id == i.3
    &&& v.modification_reason == i.4
    &&& v.member_count == i.5
}

/// Builds segment genealogies.
pub struct Genealogist;

impl Genealogist {
    /// The genealogy of a segment: its versions in order, the last version
    /// id as current (1 when there is none), and counts of versions with a
    /// parent, versions whose reason mentions `split`, and those whose
    /// reason mentions `merge`.
    pub fn track_genealogy(segment_id: &str, versions: &[VersionInput]) -> (r: crate::error::KitResult<
        SegmentGenealogy,
    >)
        ensures
            match r {
                Ok(g) => {
                    &&& g.segment_id@ == segment_id@
                    &&& g.current_version == if versions@.len() == 0 {
                        1
                    } else {
                        versions@.last().0
                    }
                    &&& g.versions@.len() == versions@.len()
                    &&& forall|i: int|
                        0 <= i < versions@.len() ==> version_matches(
                            #[trigger] g.versions@[i],
                            versions@[i],
                        )
                    &&& g.ancestor_count == keep(versions@, has_parent()).len()
                    &&& g.split_events == keep(versions@, reason_mentions("split"@)).len()
                    &&& g.merge_events == keep(versions@, reason_mentions("merge"@)).len()
                },
                Err(_) => false,
            },
    {
        let ghost s = versions@;
        let mut out: Vec<SegmentVersion> = Vec::new();
        let mut ancestors: usize = 0;
        let mut splits: usize = 0;
        let mut merges: usize = 0;
        let n = versions.len();
        let mut i: usize = 0;
        while i < n
            invariant
                n == versions@.len(),
                s == versions@,
                i <= n,
                out@.len() == i,
                forall|j: int| 0 <= j < i ==> version_matches(#[trigger] out@[j], s[j]),
                ancestors == keep(s.take(i as int), has_parent()).len(),
                splits == keep(s.take(i as int), reason_mentions("split"@)).len(),
                merges == keep(s.take(i as int), reason_mentions("merge"@)).len(),
            decreases n - i,
        {
            proof {
                lemma_keep_step(s, has_parent(), i as int);
                lemma_keep_step(s, reason_mentions("split"@), i as int);
                lemma_keep_step(s, reason_mentions("merge"@), i as int);
                lemma_keep_sound(s.take(i as int), has_parent());
                lemma_keep_sound(s.take(i as int), reason_mentions("split"@));
                lemma_keep_sound(s.take(i as int), reason_mentions("merge"@));
            }
            let v = &versions[i];
            out.push(
                SegmentVersion {
                    version_id: v.0,
                    created_date: v.1.clone(),
                    created_by: v.2.clone(),
                    parent_segment_id: clone_opt(&v.3),
                    modification_reason: v.4.clone(),
                    member_count: v.5,
                },
            );
            if v.3.is_some() {
                ancestors = ancestors + 1;
            }
            if str_contains(v.4.as_str(), "split") {
                splits = splits + 1;
            }
            if str_contains(v.4.as_str(), "merge") {
                merges = merges + 1;
            }
            i = i + 1;
        }
        assert(s.take(n as int) =~= s);
        let current_version = if n == 0 {
            1
        } else {
            versions[n - 1].0
        };
        Ok(
            SegmentGenealogy {
                segment_id: String::from_str(segment_id),
                current_version,
                versions: out,
                ancestor_count: ancestors,
                split_events: splits,
                merge_events: merges,
            },
        )
    }
}

/// A source system a feature was extracted from.
#[derive(Clone, Debug)]
pub struct FeatureSource {
    pub source_system: String,
    pub extraction_date: String,
    pub validation_status: String,
}

/// Where a feature comes from and how it was transformed.
#[derive(Clone, Debug)]
pub struct FeatureProvenance {
    pub feature_name: String,
    pub source_systems: Vec<FeatureSource>,
    pub transformations_applied: Vec<String>,
    pub last_validation: String,
    pub data_freshness_days: u32,
}

/// Tracks feature provenance.
pub struct ProvenanceTracker;

impl ProvenanceTracker {
    /// The provenance of a feature: one validated source per (system,
    /// extraction date), in order, the transformations, last validated on
    /// 2026-07-16 and one day fresh.
    pub fn track_feature_provenance(
        feature_name: &str,
        sources: &[(String, String)],
        transformations: &[String],
    ) -> (r: KitResult<FeatureProvenance>)
        ensures
            match r {
                Ok(p) => {
                    &&& p.feature_name@ == feature_name@
                    &&& p.source_systems@.len() == sources@.len()
                    &&& forall|i: int|
                        0 <= i < sources@.len() ==> {
                            let f = #[trigger] p.source_systems@[i];
                            &&& f.source_system == sources@[i].0
                            &&& f.extraction_date == sources@[i].1
                            &&& f.validation_status@ == "valid"@
                        }
                    &&& p.transformations_applied@ == transformations@
                    &&& p.last_validation@ == "2026-07-16"@
                    &&& p.data_freshness_days == 1
                },
                Err(_) => false,
            },
    {
        let mut out: Vec<FeatureSource> = Vec::new();
        let n = sources.len();
        let mut i: usize = 0;
        while i < n
            invariant
                n == sources@.len(),
                i <= n,
                out@.len() == i,
                forall|j: int|
                    0 <= j < i ==> {
                        let f = #[trigger] out@[j];
                        &&& f.source_system == sources@[j].0
                        &&& f.extraction_date == sources@[j].1
                        &&& f.validation_status@ == "valid"@
                    },
            decreases n - i,
        {
            let t = &sources[i];
            out.push(
                FeatureSource {
                    source_system: t.0.clone(),
                    extraction_date: t.1.clone(),
                    validation_status: String::from_str("valid"),
                },
            );
            i = i + 1;
        }
        Ok(
            FeatureProvenance {
                feature_name: String::from_str(feature_name),
                source_systems: out,
                transformations_applied: clone_strings(transformations),
                last_validation: String::from_str("2026-07-16"),
                data_freshness_days: 1,
            },
        )
    }
}

/// One recorded modeling decision on a segment.
#[derive(Clone, Debug)]
pub struct AuditEvent {
    pub event_id: String,
    pub timestamp: String,
    pub action: String,
    pub actor: String,
    pub segment_id: String,
    pub details: String,
    pub impact: String,
}

/// The decisions recorded on a segment.
#[derive(Clone, Debug)]
pub struct AuditTrail {
    pub segment_id: String,
    pub events: Vec<AuditEvent>,
    pub total_changes: usize,
    pub last_modified: String,
}

/// A decision given as (timestamp, action, actor, details, impact).
pub type DecisionInput = (String, String, String, String, String);

/// Tracks modeling decisions.
pub struct AuditTracker;

impl AuditTracker {
    /// The audit trail of a segment: event `i` is `evt_<i>` with the
    /// decision's fields; the last modification is the timestamp of the
    /// last decision, or empty when there is none.
    pub fn track_decision(segment_id: &str, events: &[DecisionInput]) -> (r: KitResult<AuditTrail>)
        ensures
            match r {
                Ok(t) => {
                    &&& t.segment_id@ == segment_id@
                    &&& t.total_changes == events@.len()
                    &&& t.events@.len() == events@.len()
                    &&& forall|i: int|
                        0 <= i < events@.len() ==> {
                            let e = #[trigger] t.events@[i];
                            &&& e.event_id@ == "evt_"@ + nat_digits(i as nat)
                            &&& e.timestamp == events@[i].0
                            &&& e.action == events@[i].1
                            &&& e.actor == events@[i].2
                            &&& e.segment_id@ == segment_id@
                            &&& e.details == events@[i].3
                            &&& e.impact == events@[i].4
                        }
                    &&& t.last_modified@ == if events@.len() == 0 {
                        Seq::<char>::empty()
                    } else {
                        events@.last().0@
                    }
                },
                Err(_) => false,
            },
    {
        let mut out: Vec<AuditEvent> = Vec::new();
        let n = events.len();
        let mut i: usize = 0;
        while i < n
            invariant
                n == events@.len(),
                i <= n,
                out@.len() == i,
                forall|j: int|
                    0 <= j < i ==> {
                        let e = #[trigger] out@[j];
                        &&& e.event_id@ == "evt_"@ + nat_digits(j as nat)
                        &&& e.timestamp == events@[j].0
                        &&& e.action == events@[j].1
                        &&& e.actor == events@[j].2
                        &&& e.segment_id@ == segment_id@
                        &&& e.details == events@[j].3
                        &&& e.impact == events@[j].4
                    },
            decreases n - i,
        {
            let t = &events[i];
            out.push(
                AuditEvent {
                    event_id: numbered_id("evt_", i),
                    timestamp: t.0.clone(),
                    action: t.1.clone(),
                    actor: t.2.clone(),
                    segment_id: String::from_str(segment_id),
                    details: t.3.clone(),
                    impact: t.4.clone(),
                },
            );
            i = i + 1;
        }
        let last_modified = if n == 0 {
            String::new()
        } else {
            events[n - 1].0.clone()
        };
        Ok(AuditTrail { segment_id: String::from_str(segment_id), events: out, total_changes: n, last_modified })
    }
}

/// A segmentation policy and its rules.
#[derive(Clone, Debug)]
pub struct SegmentationPolicy {
    pub policy_id: String,
    pub policy_name: String,
    pub rules: Vec<String>,
    pub enforcement_level: String,
    pub violations: usize,
}

/// Defines segmentation policies.
pub struct PolicyEnforcer;

impl PolicyEnforcer {
    /// A policy with the given rules and no violations.
    pub fn define_policy(policy_id: &str, policy_name: &str, rules: &[String], enforcement_level: &str) -> (r:
        KitResult<SegmentationPolicy>)
        ensures
            match r {
                Ok(p) => {
                    &&& p.policy_id@ == policy_id@
                    &&& p.policy_name@ == policy_name@
                    &&& p.rules@ == rules@
                    &&& p.enforcement_level@ == enforcement_level@
                    &&& p.violations == 0
                },
                Err(_) => false,
            },
    {
        Ok(
            SegmentationPolicy {
                policy_id: String::from_str(policy_id),
                policy_name: String::from_str(policy_name),
                rules: clone_strings(rules),
                enforcement_level: String::from_str(enforcement_level),
                violations: 0,
            },
        )
    }
}

/// One access grant on a segment.
#[derive(Clone, Debug)]
pub struct AccessGrant {
    pub user_id: String,
    pub resource_type: String,
    pub resource_id: String,
    pub permission: String,
    pub granted_date: String,
    pub expires_date: Option<String>,
}

/// Access-control list of a segment.
#[derive(Clone, Debug)]
pub struct AccessControlList {
    pub segment_id: String,
    pub grants: Vec<AccessGrant>,
    pub public_access: bool,
    pub access_level: String,
}

/// The access level of a list with `n` grants: `private` with none,
/// `shared` with more than five, `restricted` otherwise.
pub open spec fn access_level_for(n: nat) -> Seq<char> {
    if n == 0 {
        "private"@
    } else if n > 5 {
        "shared"@
    } else {
        "restricted"@
    }
}

/// Builds access-control lists.
pub struct AccessController;

impl AccessController {
    /// An access-control list granting each (user, resource type,
    /// permission) on the segment, dated 2026-07-16 and without expiry; the
    /// list is not public.
    pub fn manage_access(segment_id: &str, grants: &[(String, String, String)]) -> (r:
        crate::error::KitResult<AccessControlList>)
        ensures
            match r {
                Ok(acl) => {
                    &&& acl.segment_id@ == segment_id@
                    &&& !acl.public_access
                    &&& acl.access_level@ == access_level_for(grants@.len())
                    &&& acl.grants@.len() == grants@.len()
                    &&& forall|i: int|
                        0 <= i < grants@.len() ==> {
                            let g = #[trigger] acl.grants@[i];
                            &&& g.user_id == grants@[i].0
                            &&& g.resource_type == grants@[i].1
                            &&& g.resource_id@ == segment_id@
                            &&& g.permission == grants@[i].2
                            &&& g.granted_date@ == "2026-07-16"@
                            &&& g.expires_date.is_none()
                        }
                },
                Err(_) => false,
            },
    {
        let mut out: Vec<AccessGrant> = Vec::new();
        let n = grants.len();
        let mut i: usize = 0;
        while i < n
            invariant
                n == grants@.len(),
                i <= n,
                out@.len() == i,
                forall|j: int|
                    0 <= j < i ==> {
                        let g = #[trigger] out@[j];
                        &&& g.user_id == grants@[j].0
                        &&& g.resource_type == grants@[j].1
                        &&& g.resource_id@ == segment_id@
                        &&& g.permission == grants@[j].2
                        &&& g.granted_date@ == "2026-07-16"@
                        &&& g.expires_date.is_none()
                    },
            decreases n - i,
        {
            let t = &grants[i];
            out.push(
                AccessGrant {
                    user_id: t.0.clone(),
                    resource_type: t.1.clone(),
                    resource_id: String::from_str(segment_id),
                    permission: t.2.clone(),
                    granted_date: String::from_str("2026-07-16"),
                    expires_date: None,
                },
            );
            i = i + 1;
        }
        let level = if n == 0 {
            "private"
        } else if n > 5 {
            "shared"
        } else {
            "restricted"
        };
        Ok(
            AccessControlList {
                segment_id: String::from_str(segment_id),
                grants: out,
                public_access: false,
                access_level: String::from_str(level),
            },
        )
    }
}

/// One change to a segment definition.
#[derive(Clone, Debug)]
pub struct Change {
    pub change_id: String,
    pub change_type: String,
    pub timestamp: String,
    pub actor: String,
    pub before_state: String,
    pub after_state: String,
    pub affected_members: usize,
}

/// The changes made to a segment definition.
#[derive(Clone, Debug)]
pub struct ChangeLog {
    pub segment_id: String,
    pub changes: Vec<Change>,
    pub total_modifications: usize,
    pub last_change: String,
}

/// A change given as (type, timestamp, actor, before, after, affected members).
pub type ChangeInput = (String, String, String, String, String, usize);

/// Tracks segment definition changes.
pub struct ChangeTracker;

impl ChangeTracker {
    /// The change log of a segment: change `i` is `chg_<i>` with the
    /// input's fields; the last change is the timestamp of the last input,
    /// or empty when there is none.
    pub fn track_changes(segment_id: &str, changes: &[ChangeInput]) -> (r: KitResult<ChangeLog>)
        ensures
            match r {
                Ok(l) => {
                    &&& l.segment_id@ == segment_id@
                    &&& l.total_modifications == changes@.len()
                    &&& l.changes@.len() == changes@.len()
                    &&& forall|i: int|
                        0 <= i < changes@.len() ==> {
                            let c = #[trigger] l.changes@[i];
                            &&& c.change_id@ == "chg_"@ + nat_digits(i as nat)
                            &&& c.change_type == changes@[i].0
                            &&& c.timestamp == changes@[i].1
                            &&& c.actor == changes@[i].2
                            &&& c.before_state == changes@[i].3
                            &&& c.after_state == changes@[i].4
                            &&& c.affected_members == changes@[i].5
                        }
                    &&& l.last_change@ == if changes@.len() == 0 {
                        Seq::<char>::empty()
                    } else {
                        changes@.last().1@
                    }
                },
                Err(_) => false,
            },
    {
        let mut out: Vec<Change> = Vec::new();
        let n = changes.len();
        let mut i: usize = 0;
        while i < n
            invariant
                n == changes@.len(),
                i <= n,
                out@.len() == i,
                forall|j: int|
                    0 <= j < i ==> {
                        let c = #[trigger] out@[j];
                        &&& c.change_id@ == "chg_"@ + nat_digits(j as nat)
                        &&& c.change_type == changes@[j].0
                        &&& c.timestamp == changes@[j].1
                        &&& c.actor == changes@[j].2
                        &&& c.before_state == changes@[j].3
                        &&& c.after_state == changes@[j].4
                        &&& c.affected_members == changes@[j].5
                    },
            decreases n - i,
        {
            let t = &changes[i];
            out.push(
                Change {
                    change_id: numbered_id("chg_", i),
                    change_type: t.0.clone(),
                    timestamp: t.1.clone(),
                    actor: t.2.clone(),
                    before_state: t.3.clone(),
                    after_state: t.4.clone(),
                    affected_members: t.5,
                },
            );
            i = i + 1;
        }
        let last_change = if n == 0 {
            String::new()
        } else {
            changes[n - 1].1.clone()
        };
        Ok(ChangeLog { segment_id: String::from_str(segment_id), changes: out, total_modifications: n, last_change })
    }
}

} // verus!
