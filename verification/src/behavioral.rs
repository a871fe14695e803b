//! Behavioral segmentation rules: operators, conditions, rules and segments,
//! and the SQL text they render to.

use vstd::prelude::*;

use crate::error::KitResult;
use crate::text::{nat_digits, push_decimal_u64, str_eq, string_views};

verus! {

/// Comparison operator for rules.
#[derive(Clone, Copy, Debug, PartialEq, Eq, Structural)]
pub enum ComparisonOp {
    GreaterThan,
    LessThan,
    GreaterOrEqual,
    LessOrEqual,
    Equal,
    NotEqual,
    In,
    Contains,
}

/// The symbol of a comparison operator.
pub open spec fn comparison_symbol(o: ComparisonOp) -> Seq<char> {
    match o {
        ComparisonOp::GreaterThan => ">"@,
        ComparisonOp::LessThan => "<"@,
        ComparisonOp::GreaterOrEqual => ">="@,
        ComparisonOp::LessOrEqual => "<="@,
        ComparisonOp::Equal => "="@,
        ComparisonOp::NotEqual => "!="@,
        ComparisonOp::In => "IN"@,
        ComparisonOp::Contains => "CONTAINS"@,
    }
}

impl ComparisonOp {
    /// The operator's symbol, e.g. `>=` or `IN`.
    pub fn to_string(&self) -> (s: String)
        ensures
            s@ == comparison_symbol(*self),
    {
        let t = match self {
            ComparisonOp::GreaterThan => ">",
            ComparisonOp::LessThan => "<",
            ComparisonOp::GreaterOrEqual => ">=",
            ComparisonOp::LessOrEqual => "<=",
            ComparisonOp::Equal => "=",
            ComparisonOp::NotEqual => "!=",
            ComparisonOp::In => "IN",
            ComparisonOp::Contains => "CONTAINS",
        };
        String::from_str(t)
    }
}

/// Logical operator for combining conditions.
#[derive(Clone, Copy, Debug, PartialEq, Eq, Structural)]
pub enum LogicalOp {
    And,
    Or,
    Not,
}

/// The keyword of a logical operator.
pub open spec fn logical_keyword(o: LogicalOp) -> Seq<char> {
    match o {
        LogicalOp::And => "AND"@,
        LogicalOp::Or => "OR"@,
        LogicalOp::Not => "NOT"@,
    }
}

impl LogicalOp {
    /// The operator's keyword: `AND`, `OR` or `NOT`.
    pub fn to_string(&self) -> (s: String)
        ensures
            s@ == logical_keyword(*self),
    {
        let t = match self {
            LogicalOp::And => "AND",
            LogicalOp::Or => "OR",
            LogicalOp::Not => "NOT",
        };
        String::from_str(t)
    }
}

/// Aggregate function for conditions.
#[derive(Clone, Copy, Debug, PartialEq, Eq, Structural)]
pub enum AggregateFunction {
    Sum,
    Average,
    Count,
    Min,
    Max,
}

/// The SQL name of an aggregate function.
pub open spec fn aggregate_keyword(a: AggregateFunction) -> Seq<char> {
    match a {
        AggregateFunction::Sum => "SUM"@,
        AggregateFunction::Average => "AVG"@,
        AggregateFunction::Count => "COUNT"@,
        AggregateFunction::Min => "MIN"@,
        AggregateFunction::Max => "MAX"@,
    }
}

impl AggregateFunction {
    /// The function's SQL name, e.g. `AVG`.
    pub fn to_string(&self) -> (s: String)
        ensures
            s@ == aggregate_keyword(*self),
    {
        let t = match self {
            AggregateFunction::Sum => "SUM",
            AggregateFunction::Average => "AVG",
            AggregateFunction::Count => "COUNT",
            AggregateFunction::Min => "MIN",
            AggregateFunction::Max => "MAX",
        };
        String::from_str(t)
    }
}

/// `parts` joined with `sep` between consecutive parts.
pub open spec fn join(parts: Seq<Seq<char>>, sep: Seq<char>) -> Seq<char>
    decreases parts.len(),
{
    if parts.len() == 0 {
        Seq::empty()
    } else if parts.len() == 1 {
        parts[0]
    } else {
        join(parts.drop_last(), sep) + sep + parts.last()
    }
}

/// Joining one more part adds the separator (unless it is the first part)
/// and the part.
pub proof fn lemma_join_step(parts: Seq<Seq<char>>, sep: Seq<char>, i: int)
    requires
        0 <= i < parts.len(),
    ensures
        join(parts.take(i + 1), sep) == if i == 0 {
            parts[0]
        } else {
            join(parts.take(i), sep) + sep + parts[i]
        },
{
    let t = parts.take(i + 1);
    assert(t.drop_last() =~= parts.take(i));
    assert(t.last() == parts[i]);
    if i == 0 {
        assert(t[0] == parts[0]);
    }
}

/// Joins the strings with `sep` between consecutive ones.
fn join_strings(parts: &Vec<String>, sep: &str) -> (r: String)
    ensures
        r@ == join(string_views(parts@), sep@),
{
    let ghost ps = string_views(parts@);
    let mut r = String::new();
    let n = parts.len();
    let mut i: usize = 0;
    while i < n
        invariant
            n == parts@.len(),
            ps == string_views(parts@),
            i <= n,
            r@ == join(ps.take(i as int), sep@),
        decreases n - i,
    {
        proof {
            lemma_join_step(ps, sep@, i as int);
        }
        if i > 0 {
            r.append(sep);
        }
        r.append(parts[i].as_str());
        i = i + 1;
    }
    assert(ps.take(n as int) =~= ps);
    r
}

/// Value a condition compares against; a number is held as its decimal
/// text, as it appears in SQL.
#[derive(Clone, Debug)]
pub enum RuleValue {
    Number(String),
    String(String),
    List(Vec<String>),
}

/// The SQL text of a value: a number as is, a string in single quotes, a
/// list as its items separated by `, ` in parentheses.
pub open spec fn value_sql(v: RuleValue) -> Seq<char> {
    match v {
        RuleValue::Number(t) => t@,
        RuleValue::String(t) => "'"@ + t@ + "'"@,
        RuleValue::List(items) => "("@ + join(string_views(items@), ", "@) + ")"@,
    }
}

impl RuleValue {
    /// The SQL text of the value.
    pub fn to_sql(&self) -> (s: String)
        ensures
            s@ == value_sql(*self),
    {
        match self {
            RuleValue::Number(t) => t.clone(),
            RuleValue::String(t) => {
                let mut s = String::from_str("'");
                s.append(t.as_str());
                s.append("'");
                s
            },
            RuleValue::List(items) => {
                let mut s = String::from_str("(");
                let body = join_strings(items, ", ");
                s.append(body.as_str());
                s.append(")");
                s
            },
        }
    }
}

/// One condition of a rule: a field, optionally aggregated and restricted
/// to a time window, compared with a value.
#[derive(Clone, Debug)]
pub struct Condition {
    pub field: String,
    pub operator: ComparisonOp,
    pub value: RuleValue,
    pub aggregate: Option<AggregateFunction>,
    pub time_window_days: Option<u32>,
}

/// The SQL text of a condition: `AGG(field)` or `field`, then
/// ` in last <n> days` when windowed, then the operator and the value.
pub open spec fn condition_sql(c: Condition) -> Seq<char> {
    let head = match c.aggregate {
        Some(a) => aggregate_keyword(a) + "("@ + c.field@ + ")"@,
        None => c.field@,
    };
    let window = match c.time_window_days {
        Some(d) => " in last "@ + nat_digits(d as nat) + " days"@,
        None => Seq::<char>::empty(),
    };
    head + window + " "@ + comparison_symbol(c.operator) + " "@ + value_sql(c.value)
}

impl Condition {
    /// A condition on `field` without aggregate or time window.
    pub fn new(field: &str, operator: ComparisonOp, value: RuleValue) -> (c: Self)
        ensures
            c.field@ == field@,
            c.operator == operator,
            c.value == value,
            c.aggregate.is_none(),
            c.time_window_days.is_none(),
    {
        Condition { field: String::from_str(field), operator, value, aggregate: None, time_window_days: None }
    }

    pub fn with_aggregate(self, agg: AggregateFunction) -> (c: Self)
        ensures
            c == (Condition { aggregate: Some(agg), ..self }),
    {
        let mut c = self;
        c.aggregate = Some(agg);
        c
    }

    pub fn with_time_window(self, days: u32) -> (c: Self)
        ensures
            c == (Condition { time_window_days: Some(days), ..self }),
    {
        let mut c = self;
        c.time_window_days = Some(days);
        c
    }

    /// The condition's SQL text.
    pub fn to_sql(&self) -> (s: String)
        ensures
            s@ == condition_sql(*self),
    {
        let mut s = String::new();
        match &self.aggregate {
            Some(a) => {
                let k = a.to_string();
                s.append(k.as_str());
                s.append("(");
                s.append(self.field.as_str());
                s.append(")");
            },
            None => {
                s.append(self.field.as_str());
            },
        }
        match self.time_window_days {
            Some(d) => {
                s.append(" in last ");
                push_decimal_u64(&mut s, d as u64);
                s.append(" days");
            },
            None => {},
        }
        s.append(" ");
        let op = self.operator.to_string();
        s.append(op.as_str());
        s.append(" ");
        let v = self.value.to_sql();
        s.append(v.as_str());
        s
    }
}

/// A rule: conditions combined by a logical operator.
#[derive(Clone, Debug)]
pub struct BehavioralRule {
    pub name: String,
    pub description: String,
    pub conditions: Vec<Condition>,
    pub logic: LogicalOp,
}

/// The SQL texts of conditions, in order.
pub open spec fn condition_sqls(cs: Seq<Condition>) -> Seq<Seq<char>> {
    cs.map_values(|c: Condition| condition_sql(c))
}

/// The SQL text of a rule: `1=1` without conditions; for `NOT`, the
/// conditions joined by ` OR ` inside `NOT (...)`; otherwise the conditions
/// joined by the operator's keyword.
pub open spec fn rule_sql(r: BehavioralRule) -> Seq<char> {
    let parts = condition_sqls(r.conditions@);
    if parts.len() == 0 {
        "1=1"@
    } else if r.logic == LogicalOp::Not {
        "NOT ("@ + join(parts, " OR "@) + ")"@
    } else {
        join(parts, " "@ + logical_keyword(r.logic) + " "@)
    }
}

impl BehavioralRule {
    /// A rule without conditions, combining with `AND`.
    pub fn new(name: &str, description: &str) -> (r: Self)
        ensures
            r.name@ == name@,
            r.description@ == description@,
            r.conditions@.len() == 0,
            r.logic == LogicalOp::And,
    {
        BehavioralRule {
            name: String::from_str(name),
            description: String::from_str(description),
            conditions: Vec::new(),
            logic: LogicalOp::And,
        }
    }

    pub fn add_condition(self, condition: Condition) -> (r: Self)
        ensures
            r.name == self.name,
            r.description == self.description,
            r.conditions@ == self.conditions@.push(condition),
            r.logic == self.logic,
    {
        let mut r = self;
        r.conditions.push(condition);
        r
    }

    pub fn with_logic(self, logic: LogicalOp) -> (r: Self)
        ensures
            r == (BehavioralRule { logic, ..self }),
    {
        let mut r = self;
        r.logic = logic;
        r
    }

    /// The rule's SQL text.
    pub fn to_sql(&self) -> (s: String)
        ensures
            s@ == rule_sql(*self),
    {
        let ghost cs = self.conditions@;
        let mut parts: Vec<String> = Vec::new();
        let n = self.conditions.len();
        let mut i: usize = 0;
        while i < n
            invariant
                n == self.conditions@.len(),
                cs == self.conditions@,
                i <= n,
                string_views(parts@) == condition_sqls(cs.take(i as int)),
            decreases n - i,
        {
            let c = self.conditions[i].to_sql();
            let ghost prev = parts@;
            parts.push(c);
            proof {
                assert(string_views(parts@) =~= string_views(prev).push(condition_sql(cs[i as int])));
                assert(condition_sqls(cs.take(i + 1)) =~= condition_sqls(cs.take(i as int)).push(
                    condition_sql(cs[i as int]),
                ));
            }
            i = i + 1;
        }
        assert(cs.take(n as int) =~= cs);
        if n == 0 {
            return String::from_str("1=1");
        }
        match self.logic {
            LogicalOp::Not => {
                let mut s = String::from_str("NOT (");
                let body = join_strings(&parts, " OR ");
                s.append(body.as_str());
                s.append(")");
                s
            },
            _ => {
                let mut sep = String::from_str(" ");
                let k = self.logic.to_string();
                sep.append(k.as_str());
                sep.append(" ");
                join_strings(&parts, sep.as_str())
            },
        }
    }
}

/// A segment: rules that must all hold, and a priority.
#[derive(Clone, Debug)]
pub struct BehavioralSegment {
    pub name: String,
    pub description: String,
    pub rules: Vec<BehavioralRule>,
    pub priority: u32,
}

/// The SQL texts of rules, in order.
pub open spec fn rule_sqls(rs: Seq<BehavioralRule>) -> Seq<Seq<char>> {
    rs.map_values(|r: BehavioralRule| rule_sql(r))
}

/// The SQL text of a segment: `1=1` without rules, otherwise the rules
/// joined by ` AND ` in parentheses.
pub open spec fn segment_sql(s: BehavioralSegment) -> Seq<char> {
    let parts = rule_sqls(s.rules@);
    if parts.len() == 0 {
        "1=1"@
    } else {
        "("@ + join(parts, " AND "@) + ")"@
    }
}

impl BehavioralSegment {
    /// A segment without rules and with priority 0.
    pub fn new(name: &str, description: &str) -> (s: Self)
        ensures
            s.name@ == name@,
            s.description@ == description@,
            s.rules@.len() == 0,
            s.priority == 0,
    {
        BehavioralSegment {
            name: String::from_str(name),
            description: String::from_str(description),
            rules: Vec::new(),
            priority: 0,
        }
    }

    pub fn add_rule(self, rule: BehavioralRule) -> (s: Self)
        ensures
            s.name == self.name,
            s.description == self.description,
            s.rules@ == self.rules@.push(rule),
            s.priority == self.priority,
    {
        let mut s = self;
        s.rules.push(rule);
        s
    }

    pub fn with_priority(self, priority: u32) -> (s: Self)
        ensures
            s == (BehavioralSegment { priority, ..self }),
    {
        let mut s = self;
        s.priority = priority;
        s
    }

    /// The segment's SQL text.
    pub fn to_sql(&self) -> (s: String)
        ensures
            s@ == segment_sql(*self),
    {
        let ghost rs = self.rules@;
        let mut parts: Vec<String> = Vec::new();
        let n = self.rules.len();
        let mut i: usize = 0;
        while i < n
            invariant
                n == self.rules@.len(),
                rs == self.rules@,
                i <= n,
                string_views(parts@) == rule_sqls(rs.take(i as int)),
            decreases n - i,
        {
            let r = self.rules[i].to_sql();
            let ghost prev = parts@;
            parts.push(r);
            proof {
                assert(string_views(parts@) =~= string_views(prev).push(rule_sql(rs[i as int])));
                assert(rule_sqls(rs.take(i + 1)) =~= rule_sqls(rs.take(i as int)).push(rule_sql(rs[i as int])));
            }
            i = i + 1;
        }
        assert(rs.take(n as int) =~= rs);
        if n == 0 {
            return String::from_str("1=1");
        }
        let mut s = String::from_str("(");
        let body = join_strings(&parts, " AND ");
        s.append(body.as_str());
        s.append(")");
        s
    }
}

/// The export text of segments: for each, a comment with its name and a
/// query selecting the customers in it.
pub open spec fn export_text(segs: Seq<BehavioralSegment>) -> Seq<char>
    decreases segs.len(),
{
    if segs.len() == 0 {
        Seq::empty()
    } else {
        export_text(segs.drop_last()) + "-- Segment: "@ + segs.last().name@
            + "\nSELECT * FROM customers WHERE "@ + segment_sql(segs.last()) + ";\n\n"@
    }
}

/// Position of the first segment named `name`.
pub open spec fn first_named(segs: Seq<BehavioralSegment>, name: Seq<char>) -> Option<int>
    decreases segs.len(),
{
    if segs.len() == 0 {
        None
    } else {
        match first_named(segs.drop_last(), name) {
            Some(i) => Some(i),
            None => if segs.last().name@ == name {
                Some(segs.len() - 1)
            } else {
                None
            },
        }
    }
}

/// What `first_named` finds: the first segment with the name, or none.
proof fn lemma_first_named(segs: Seq<BehavioralSegment>, name: Seq<char>)
    ensures
        match first_named(segs, name) {
            Some(i) => 0 <= i < segs.len() && segs[i].name@ == name && forall|j: int|
                0 <= j < i ==> #[trigger] segs[j].name@ != name,
            None => forall|j: int| 0 <= j < segs.len() ==> #[trigger] segs[j].name@ != name,
        },
    decreases segs.len(),
{
    if segs.len() > 0 {
        let d = segs.drop_last();
        lemma_first_named(d, name);
        assert forall|j: int| 0 <= j < d.len() implies d[j] == segs[j] by {}
    }
}

/// Behavioral segments in the order they were added.
pub struct BehavioralSegmenter {
    segments: Vec<BehavioralSegment>,
}

impl BehavioralSegmenter {
    /// The segments, in the order they were added.
    pub closed spec fn segments(&self) -> Seq<BehavioralSegment> {
        self.segments@
    }

    pub fn new() -> (m: Self)
        ensures
            m.segments() == Seq::<BehavioralSegment>::empty(),
    {
        let m = BehavioralSegmenter { segments: Vec::new() };
        assert(m.segments() =~= Seq::<BehavioralSegment>::empty());
        m
    }

    pub fn add_segment(self, segment: BehavioralSegment) -> (m: Self)
        ensures
            m.segments() == self.segments().push(segment),
    {
        let mut m = self;
        m.segments.push(segment);
        m
    }

    /// The SQL text of the first segment named `name`, if any.
    pub fn get_segment_sql(&self, name: &str) -> (r: KitResult<Option<String>>)
        ensures
            match r {
                Ok(Some(s)) => first_named(self.segments(), name@) is Some && s@ == segment_sql(
                    self.segments()[first_named(self.segments(), name@)->0],
                ),
                Ok(None) => first_named(self.segments(), name@) is None,
                Err(_) => false,
            },
    {
        proof {
            lemma_first_named(self.segments(), name@);
        }
        let n = self.segments.len();
        let mut i: usize = 0;
        while i < n
            invariant
                n == self.segments@.len(),
                i <= n,
                forall|j: int| 0 <= j < i ==> #[trigger] self.segments@[j].name@ != name@,
            decreases n - i,
        {
            if str_eq(self.segments[i].name.as_str(), name) {
                proof {
                    lemma_first_named(self.segments(), name@);
                    match first_named(self.segments(), name@) {
                        Some(k) => {
                            if k > i {
                                assert(self.segments@[i as int].name@ != name@);
                            } else if k < i {
                                assert(self.segments@[k].name@ != name@);
                            }
                        },
                        None => {
                            assert(self.segments@[i as int].name@ != name@);
                        },
                    }
                }
                return Ok(Some(self.segments[i].to_sql()));
            }
            i = i + 1;
        }
        proof {
            lemma_first_named(self.segments(), name@);
            if let Some(k) = first_named(self.segments(), name@) {
                assert(self.segments@[k].name@ == name@);
            }
        }
        Ok(None)
    }

    /// Every segment's comment and query, in order.
    pub fn export_sql(&self) -> (r: KitResult<String>)
        ensures
            match r {
                Ok(s) => s@ == export_text(self.segments()),
                Err(_) => false,
            },
    {
        let ghost segs = self.segments@;
        let mut s = String::new();
        let n = self.segments.len();
        let mut i: usize = 0;
        while i < n
            invariant
                n == self.segments@.len(),
                segs == self.segments@,
                i <= n,
                s@ == export_text(segs.take(i as int)),
            decreases n - i,
        {
            proof {
                let t = segs.take(i + 1);
                assert(t.drop_last() =~= segs.take(i as int));
                assert(t.last() == segs[i as int]);
            }
            s.append("-- Segment: ");
            s.append(self.segments[i].name.as_str());
            s.append("\nSELECT * FROM customers WHERE ");
            let q = self.segments[i].to_sql();
            s.append(q.as_str());
            s.append(";\n\n");
            i = i + 1;
        }
        assert(segs.take(n as int) =~= segs);
        Ok(s)
    }
}

impl Default for BehavioralSegmenter {
    fn default() -> (m: Self)
        ensures
            m.segments() == Seq::<BehavioralSegment>::empty(),
    {
        BehavioralSegmenter::new()
    }
}

} // verus!
