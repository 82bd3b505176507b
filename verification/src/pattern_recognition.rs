//! Pattern, anti-pattern and security-shape matching. Template patterns are
//! matched by presence of node types and type-level adjacencies, scored as
//! a matched/total ratio. Risky shapes are matched either as a fixed
//! node-type window over the node-list order or as a type-level adjacency.

use vstd::prelude::*;

use crate::traversal::{has_type_adjacency, has_connection_between, node_id_fn};
use crate::types::{Graph, Node, NodeId, NodeType};

verus! {

/// Pattern category
#[derive(Debug, Clone, Copy, PartialEq, Eq, Structural)]
pub enum PatternCategory {
    Token,
    Voting,
    Escrow,
    Marketplace,
    Governance,
    Custom,
}

/// Severity level
#[derive(Debug, Clone, Copy, PartialEq, Eq, Structural)]
pub enum Severity {
    Low,
    Medium,
    High,
    Critical,
}

/// A 0-to-1 match score kept as an exact ratio: `matched` criteria out of
/// `total`.
#[derive(Debug, Clone, Copy, PartialEq, Eq, Structural)]
pub struct Confidence {
    pub matched: u64,
    pub total: u64,
}

impl Confidence {
    /// Does the score strictly exceed the threshold `num / den`?
    pub fn exceeds(&self, num: u64, den: u64) -> (r: bool)
        requires
            den > 0,
            num <= den,
            self.matched <= self.total,
        ensures
            r == (self.matched * den > num * self.total),
    {
        proof {
            assert((self.matched as int) * (den as int) <= u64::MAX * u64::MAX) by (nonlinear_arith)
                requires
                    self.matched <= u64::MAX,
                    den <= u64::MAX,
            ;
            assert((num as int) * (self.total as int) <= u64::MAX * u64::MAX) by (nonlinear_arith)
                requires
                    num <= u64::MAX,
                    self.total <= u64::MAX,
            ;
            assert(u64::MAX * u64::MAX < u128::MAX);
        }
        (self.matched as u128) * (den as u128) > (num as u128) * (self.total as u128)
    }
}

/// How a risky shape is recognized: a node-type window slid over the node
/// list, or an edge between two node types.
#[derive(Debug, Clone, PartialEq)]
pub enum ShapeRule {
    Window(Vec<NodeType>),
    Adjacency(NodeType, NodeType),
}

/// A known-good template: a set of node types that should be present and a
/// set of type-level adjacencies that should be connected.
#[derive(Debug, PartialEq)]
pub struct PatternDefinition {
    pub name: String,
    pub category: PatternCategory,
    pub description: String,
    pub node_sequence: Vec<NodeType>,
    pub required_connections: Vec<(NodeType, NodeType)>,
    pub optional_nodes: Vec<NodeType>,
}

/// A risky structural shape, not necessarily exploitable.
#[derive(Debug, PartialEq)]
pub struct AntiPatternDefinition {
    pub name: String,
    pub description: String,
    pub severity: Severity,
    pub rule: ShapeRule,
    pub suggestion: String,
}

/// A structural shape correlated with an exploitable vulnerability class.
#[derive(Debug, PartialEq)]
pub struct SecurityPatternDefinition {
    pub name: String,
    pub description: String,
    pub severity: Severity,
    pub cve_reference: Option<String>,
    pub rule: ShapeRule,
    pub mitigation: String,
}

/// Contract pattern
#[derive(Debug, PartialEq)]
pub struct ContractPattern {
    pub name: String,
    pub description: String,
    pub confidence: Confidence,
    pub nodes: Vec<NodeId>,
    pub category: PatternCategory,
}

/// Anti-pattern
#[derive(Debug, PartialEq)]
pub struct AntiPattern {
    pub name: String,
    pub description: String,
    pub severity: Severity,
    pub nodes: Vec<NodeId>,
    pub suggestion: String,
}

/// Security issue
#[derive(Debug, PartialEq)]
pub struct SecurityIssue {
    pub name: String,
    pub description: String,
    pub severity: Severity,
    pub nodes: Vec<NodeId>,
    pub cve_reference: Option<String>,
    pub mitigation: String,
}

/// Some node of this type exists anywhere in the graph.
pub open spec fn type_present(nodes: Seq<Node>, t: NodeType) -> bool {
    exists|i: int| 0 <= i < nodes.len() && nodes[i].node_type == t
}

/// How many entries of the type list are present in the graph.
pub open spec fn count_present(nodes: Seq<Node>, ts: Seq<NodeType>) -> int
    decreases ts.len(),
{
    if ts.len() == 0 {
        0int
    } else {
        count_present(nodes, ts.drop_last()) + if type_present(nodes, ts.last()) {
            1int
        } else {
            0int
        }
    }
}

/// How many of the required adjacencies are connected in the graph.
pub open spec fn count_connected(g: Graph, cs: Seq<(NodeType, NodeType)>) -> int
    decreases cs.len(),
{
    if cs.len() == 0 {
        0int
    } else {
        count_connected(g, cs.drop_last()) + if has_type_adjacency(
            g.nodes@,
            g.edges@,
            cs.last().0,
            cs.last().1,
        ) {
            1int
        } else {
            0int
        }
    }
}

/// The criteria a pattern asks for: every sequence entry and every required
/// adjacency.
pub open spec fn pattern_total(d: PatternDefinition) -> int {
    d.node_sequence@.len() + d.required_connections@.len() as int
}

/// The criteria the graph meets.
pub open spec fn pattern_matched(g: Graph, d: PatternDefinition) -> int {
    count_present(g.nodes@, d.node_sequence@) + count_connected(g, d.required_connections@)
}

proof fn lemma_count_present_bounds(nodes: Seq<Node>, ts: Seq<NodeType>)
    ensures
        0 <= count_present(nodes, ts) <= ts.len(),
    decreases ts.len(),
{
    if ts.len() > 0 {
        lemma_count_present_bounds(nodes, ts.drop_last());
    }
}

proof fn lemma_count_connected_bounds(g: Graph, cs: Seq<(NodeType, NodeType)>)
    ensures
        0 <= count_connected(g, cs) <= cs.len(),
    decreases cs.len(),
{
    if cs.len() > 0 {
        lemma_count_connected_bounds(g, cs.drop_last());
    }
}

/// A pattern never meets more criteria than it asks for.
pub proof fn lemma_pattern_matched_bounds(g: Graph, d: PatternDefinition)
    ensures
        0 <= pattern_matched(g, d) <= pattern_total(d),
{
    lemma_count_present_bounds(g.nodes@, d.node_sequence@);
    lemma_count_connected_bounds(g, d.required_connections@);
}

/// The nodes whose type appears anywhere in the pattern's sequence: a
/// coarse membership set, not an exact matched subgraph.
pub open spec fn member_pred(ts: Seq<NodeType>) -> spec_fn(Node) -> bool {
    |n: Node| ts.contains(n.node_type)
}

pub open spec fn pattern_nodes_spec(g: Graph, ts: Seq<NodeType>) -> Seq<String> {
    g.nodes@.filter(member_pred(ts)).map_values(node_id_fn())
}

/// The window matches the node list at offset `i`: the `w.len()` node
/// types starting there equal the window, in order.
pub open spec fn window_matches_at(nodes: Seq<Node>, w: Seq<NodeType>, i: int) -> bool {
    0 <= i && i + w.len() <= nodes.len() && forall|j: int|
        0 <= j < w.len() ==> #[trigger] nodes[i + j].node_type == w[j]
}

/// The window matches somewhere in the node list.
pub open spec fn window_found(nodes: Seq<Node>, w: Seq<NodeType>) -> bool {
    exists|i: int| window_matches_at(nodes, w, i)
}

/// A shape rule matches the graph.
pub open spec fn shape_matches(g: Graph, rule: ShapeRule) -> bool {
    match rule {
        ShapeRule::Window(w) => window_found(g.nodes@, w@),
        ShapeRule::Adjacency(a, b) => has_type_adjacency(g.nodes@, g.edges@, a, b),
    }
}

/// The ids contributed by every matching window at offsets below `upto`,
/// window by window; overlapping windows repeat their members.
pub open spec fn window_nodes_upto(nodes: Seq<Node>, w: Seq<NodeType>, upto: int) -> Seq<String>
    decreases upto,
{
    if upto <= 0 {
        Seq::<String>::empty()
    } else {
        window_nodes_upto(nodes, w, upto - 1) + (if window_matches_at(nodes, w, upto - 1) {
            nodes.subrange(upto - 1, upto - 1 + w.len()).map_values(node_id_fn())
        } else {
            Seq::<String>::empty()
        })
    }
}

/// The ids contributed by every matching window.
pub open spec fn window_nodes(nodes: Seq<Node>, w: Seq<NodeType>) -> Seq<String> {
    if nodes.len() >= w.len() {
        window_nodes_upto(nodes, w, nodes.len() - w.len() + 1)
    } else {
        Seq::<String>::empty()
    }
}

/// The node ids a shape rule flags: every member of every matching window;
/// an adjacency rule flags the whole graph, so no single node.
pub open spec fn shape_nodes(g: Graph, rule: ShapeRule) -> Seq<String> {
    match rule {
        ShapeRule::Window(w) => window_nodes(g.nodes@, w@),
        ShapeRule::Adjacency(a, b) => Seq::<String>::empty(),
    }
}

/// Is some node of type `t` present in the graph?
pub fn node_type_present(g: &Graph, t: NodeType) -> (r: bool)
    ensures
        r == type_present(g.nodes@, t),
{
    let n = g.nodes.len();
    let mut i: usize = 0;
    while i < n
        invariant
            n == g.nodes@.len(),
            0 <= i <= n,
            forall|j: int| 0 <= j < i ==> g.nodes@[j].node_type != t,
        decreases n - i,
    {
        if g.nodes[i].node_type == t {
            return true;
        }
        i = i + 1;
    }
    false
}

/// Does the window match the node list at offset `i`?
fn window_matches_here(g: &Graph, w: &Vec<NodeType>, i: usize) -> (r: bool)
    requires
        i + w@.len() <= g.nodes@.len(),
    ensures
        r == window_matches_at(g.nodes@, w@, i as int),
{
    let n = g.nodes.len();
    let len = w.len();
    let mut j: usize = 0;
    while j < len
        invariant
            n == g.nodes@.len(),
            len == w@.len(),
            0 <= j <= len,
            i + len <= n,
            forall|j2: int| 0 <= j2 < j ==> #[trigger] g.nodes@[i + j2].node_type == w@[j2],
        decreases len - j,
    {
        if !(g.nodes[i + j].node_type == w[j]) {
            return false;
        }
        j = j + 1;
    }
    true
}

/// Collect the ids of every matching window of `w` over the node list.
fn collect_window_nodes(g: &Graph, w: &Vec<NodeType>) -> (r: Vec<String>)
    requires
        w@.len() >= 1,
    ensures
        r@ == window_nodes(g.nodes@, w@),
{
    let mut out: Vec<String> = Vec::new();
    let n = g.nodes.len();
    let wlen = w.len();
    if n < wlen {
        return out;
    }
    let last = n - wlen + 1;
    let mut i: usize = 0;
    while i < last
        invariant
            n == g.nodes@.len(),
            wlen == w@.len(),
            wlen >= 1,
            n >= wlen,
            last == n - wlen + 1,
            0 <= i <= last,
            out@ == window_nodes_upto(g.nodes@, w@, i as int),
        decreases last - i,
    {
        if window_matches_here(g, w, i) {
            let mut j: usize = 0;
            let ghost seg = g.nodes@.subrange(i as int, i + wlen as int).map_values(node_id_fn());
            let ghost base = out@;
            while j < wlen
                invariant
                    n == g.nodes@.len(),
                    wlen == w@.len(),
                    0 <= j <= wlen,
                    i + wlen <= n,
                    seg == g.nodes@.subrange(i as int, i + wlen as int).map_values(node_id_fn()),
                    out@ == base + seg.take(j as int),
                decreases wlen - j,
            {
                out.push(g.nodes[i + j].id.clone());
                proof {
                    assert(seg[j as int] == g.nodes@[i + j].id);
                    assert(base + seg.take(j as int) + seq![seg[j as int]] =~= base + seg.take(
                        j + 1 as int,
                    ));
                }
                j = j + 1;
            }
            proof {
                assert(seg.take(wlen as int) =~= seg);
                assert(out@ == window_nodes_upto(g.nodes@, w@, i + 1 as int));
            }
        } else {
            proof {
                assert(out@ =~= window_nodes_upto(g.nodes@, w@, i + 1 as int));
            }
        }
        i = i + 1;
    }
    out
}

/// Does the shape rule match the graph?
pub fn shape_rule_matches(g: &Graph, rule: &ShapeRule) -> (r: bool)
    requires
        rule matches ShapeRule::Window(w) ==> w@.len() >= 1,
    ensures
        r == shape_matches(*g, *rule),
{
    match rule {
        ShapeRule::Window(w) => {
            let n = g.nodes.len();
            let wlen = w.len();
            if n < wlen {
                proof {
                    if window_found(g.nodes@, w@) {
                        let i = choose|i: int| window_matches_at(g.nodes@, w@, i);
                    }
                }
                return false;
            }
            let last = n - wlen + 1;
            let mut i: usize = 0;
            while i < last
                invariant
                    n == g.nodes@.len(),
                    wlen == w@.len(),
                    n >= wlen,
                    last == n - wlen + 1,
                    0 <= i <= last,
                    *rule is Window,
                    rule->Window_0 == *w,
                    forall|i2: int| 0 <= i2 < i ==> !window_matches_at(g.nodes@, w@, i2),
                decreases last - i,
            {
                if window_matches_here(g, w, i) {
                    proof {
                        assert(window_matches_at(g.nodes@, w@, i as int));
                        assert(window_found(g.nodes@, w@));
                        assert(shape_matches(*g, *rule) == window_found(g.nodes@, w@));
                    }
                    return true;
                }
                i = i + 1;
            }
            proof {
                if window_found(g.nodes@, w@) {
                    let i2 = choose|i2: int| window_matches_at(g.nodes@, w@, i2);
                    assert(i2 < last);
                }
            }
            false
        },
        ShapeRule::Adjacency(a, b) => has_connection_between(g, *a, *b),
    }
}

/// The ids a shape rule flags.
pub fn shape_rule_nodes(g: &Graph, rule: &ShapeRule) -> (r: Vec<String>)
    requires
        rule matches ShapeRule::Window(w) ==> w@.len() >= 1,
    ensures
        r@ == shape_nodes(*g, *rule),
{
    match rule {
        ShapeRule::Window(w) => collect_window_nodes(g, w),
        ShapeRule::Adjacency(a, b) => Vec::new(),
    }
}


/// Option-of-string equality by views.
pub open spec fn opt_str_eqv(a: Option<String>, b: Option<String>) -> bool {
    match (a, b) {
        (Option::None, Option::None) => true,
        (Option::Some(x), Option::Some(y)) => x@ == y@,
        _ => false,
    }
}

/// A pattern is reported when it asks for at least one criterion and its
/// score strictly exceeds the engine's confidence threshold `num / den`.
pub open spec fn pattern_reported(g: Graph, d: PatternDefinition, num: int, den: int) -> bool {
    pattern_total(d) > 0 && pattern_matched(g, d) * den > num * pattern_total(d)
}

pub open spec fn reported_pred(g: Graph, num: int, den: int) -> spec_fn(PatternDefinition) -> bool {
    |d: PatternDefinition| pattern_reported(g, d, num, den)
}

pub open spec fn fired_anti_pred(g: Graph) -> spec_fn(AntiPatternDefinition) -> bool {
    |d: AntiPatternDefinition| shape_matches(g, d.rule)
}

pub open spec fn fired_sec_pred(g: Graph) -> spec_fn(SecurityPatternDefinition) -> bool {
    |d: SecurityPatternDefinition| shape_matches(g, d.rule)
}

/// Two id lists that agree element by element.
pub open spec fn ids_eqv(a: Seq<String>, b: Seq<String>) -> bool {
    a.len() == b.len() && forall|i: int| 0 <= i < a.len() ==> a[i]@ == b[i]@
}

/// The reported pattern result carries the definition's texts, its exact
/// score, and the coarse membership node set.
pub open spec fn cp_matches(p: ContractPattern, g: Graph, d: PatternDefinition) -> bool {
    &&& p.name@ == d.name@
    &&& p.description@ == d.description@
    &&& p.category == d.category
    &&& p.confidence.matched == pattern_matched(g, d)
    &&& p.confidence.total == pattern_total(d)
    &&& ids_eqv(p.nodes@, pattern_nodes_spec(g, d.node_sequence@))
}

/// The anti-pattern finding carries the definition's texts, severity and
/// the flagged node ids.
pub open spec fn ap_matches(a: AntiPattern, g: Graph, d: AntiPatternDefinition) -> bool {
    &&& a.name@ == d.name@
    &&& a.description@ == d.description@
    &&& a.severity == d.severity
    &&& a.suggestion@ == d.suggestion@
    &&& ids_eqv(a.nodes@, shape_nodes(g, d.rule))
}

/// The security finding carries the definition's texts, severity, reference
/// and the flagged node ids.
pub open spec fn si_matches(s: SecurityIssue, g: Graph, d: SecurityPatternDefinition) -> bool {
    &&& s.name@ == d.name@
    &&& s.description@ == d.description@
    &&& s.severity == d.severity
    &&& s.mitigation@ == d.mitigation@
    &&& opt_str_eqv(s.cve_reference, d.cve_reference)
    &&& ids_eqv(s.nodes@, shape_nodes(g, d.rule))
}

/// A shape rule the engine can evaluate: windows hold one to three types.
pub open spec fn shape_rule_wf(r: ShapeRule) -> bool {
    match r {
        ShapeRule::Window(w) => 1 <= w@.len() <= 3,
        ShapeRule::Adjacency(a, b) => true,
    }
}

/// The engine's catalogs are evaluable: window lengths are in range and
/// pattern criteria counts stay small.
pub open spec fn engine_wf(e: PatternRecognitionEngine) -> bool {
    &&& e.min_confidence_den > 0
    &&& e.min_confidence_num <= e.min_confidence_den
    &&& forall|i: int|
        0 <= i < e.patterns@.len() ==> pattern_total(#[trigger] e.patterns@[i]) <= u64::MAX
    &&& forall|i: int| 0 <= i < e.anti_patterns@.len() ==> shape_rule_wf(
        #[trigger] e.anti_patterns@[i].rule,
    )
    &&& forall|i: int| 0 <= i < e.security_patterns@.len() ==> shape_rule_wf(
        #[trigger] e.security_patterns@[i].rule,
    )
}

/// The token template: balance storage, transfer logic and an external
/// transfer notification, wired in that order.
pub open spec fn def_token(d: PatternDefinition) -> bool {
    &&& d.name@ == "ERC-20 Token"@
    &&& d.category == PatternCategory::Token
    &&& d.description@ == "Standard fungible token contract"@
    &&& d.node_sequence@ == seq![NodeType::State, NodeType::Logic, NodeType::External]
    &&& d.required_connections@ == seq![
        (NodeType::State, NodeType::Logic),
        (NodeType::Logic, NodeType::External),
    ]
    &&& d.optional_nodes@ == seq![NodeType::Control]
}

/// The voting template: vote storage, counting logic and a deadline check.
pub open spec fn def_voting(d: PatternDefinition) -> bool {
    &&& d.name@ == "Voting Mechanism"@
    &&& d.category == PatternCategory::Voting
    &&& d.description@ == "Decentralized voting system"@
    &&& d.node_sequence@ == seq![NodeType::State, NodeType::Logic, NodeType::Control]
    &&& d.required_connections@ == seq![
        (NodeType::State, NodeType::Logic),
        (NodeType::Control, NodeType::Logic),
    ]
    &&& d.optional_nodes@ == seq![NodeType::External]
}

/// The escrow template: escrow storage, release logic and a timeout check.
pub open spec fn def_escrow(d: PatternDefinition) -> bool {
    &&& d.name@ == "Escrow Contract"@
    &&& d.category == PatternCategory::Escrow
    &&& d.description@ == "Conditional payment system"@
    &&& d.node_sequence@ == seq![NodeType::State, NodeType::Logic, NodeType::Control]
    &&& d.required_connections@ == seq![
        (NodeType::State, NodeType::Logic),
        (NodeType::Control, NodeType::Logic),
    ]
    &&& d.optional_nodes@ == seq![NodeType::External]
}

pub open spec fn def_anti_arithmetic(d: AntiPatternDefinition) -> bool {
    &&& d.name@ == "Unchecked Arithmetic"@
    &&& d.description@ == "Arithmetic operations without overflow checks"@
    &&& d.severity == Severity::High
    &&& d.rule is Window
    &&& d.rule->Window_0@ == seq![NodeType::Arithmetic, NodeType::State]
    &&& d.suggestion@ == "Add overflow checks before arithmetic operations"@
}

pub open spec fn def_anti_reentrancy(d: AntiPatternDefinition) -> bool {
    &&& d.name@ == "Reentrancy Risk"@
    &&& d.description@ == "External calls before state updates"@
    &&& d.severity == Severity::Critical
    &&& d.rule is Window
    &&& d.rule->Window_0@ == seq![NodeType::External, NodeType::State]
    &&& d.suggestion@ == "Update state before making external calls"@
}

pub open spec fn def_anti_access(d: AntiPatternDefinition) -> bool {
    &&& d.name@ == "Missing Access Control"@
    &&& d.description@ == "State modifications without permission checks"@
    &&& d.severity == Severity::High
    &&& d.rule is Window
    &&& d.rule->Window_0@ == seq![NodeType::State]
    &&& d.suggestion@ == "Add access control checks before state modifications"@
}

pub open spec fn def_sec_overflow(d: SecurityPatternDefinition) -> bool {
    &&& d.name@ == "Integer Overflow"@
    &&& d.description@ == "Potential integer overflow in arithmetic operations"@
    &&& d.severity == Severity::High
    &&& d.cve_reference matches Some(c) && c@ == "CVE-2018-10299"@
    &&& d.rule is Window
    &&& d.rule->Window_0@ == seq![NodeType::Arithmetic, NodeType::State]
    &&& d.mitigation@ == "Use checked arithmetic operations or SafeMath library"@
}

/// The reentrancy rule is a pure adjacency: any edge from an External node
/// into a State node fires it, whatever the node-list order.
pub open spec fn def_sec_reentrancy(d: SecurityPatternDefinition) -> bool {
    &&& d.name@ == "Reentrancy Attack"@
    &&& d.description@ == "Vulnerable to reentrancy attacks"@
    &&& d.severity == Severity::Critical
    &&& d.cve_reference matches Some(c) && c@ == "CVE-2016-10709"@
    &&& d.rule == ShapeRule::Adjacency(NodeType::External, NodeType::State)
    &&& d.mitigation@ == "Follow checks-effects-interactions pattern"@
}

pub open spec fn def_sec_access(d: SecurityPatternDefinition) -> bool {
    &&& d.name@ == "Access Control Bypass"@
    &&& d.description@ == "Missing or insufficient access controls"@
    &&& d.severity == Severity::High
    &&& d.cve_reference is None
    &&& d.rule is Window
    &&& d.rule->Window_0@ == seq![NodeType::State]
    &&& d.mitigation@ == "Implement proper access control mechanisms"@
}

/// Pattern recognition engine: immutable catalogs of templates and risky
/// shapes, built once, plus the confidence threshold a pattern must beat.
pub struct PatternRecognitionEngine {
    pub patterns: Vec<PatternDefinition>,
    pub anti_patterns: Vec<AntiPatternDefinition>,
    pub security_patterns: Vec<SecurityPatternDefinition>,
    pub min_confidence_num: u64,
    pub min_confidence_den: u64,
}

impl PatternRecognitionEngine {
    /// The built-in catalogs: token, voting and escrow templates; three
    /// anti-pattern shapes; three security shapes. The default confidence
    /// threshold is three fifths.
    pub fn new() -> (r: PatternRecognitionEngine)
        ensures
            engine_wf(r),
            r.patterns@.len() == 3,
            def_token(r.patterns@[0]),
            def_voting(r.patterns@[1]),
            def_escrow(r.patterns@[2]),
            r.anti_patterns@.len() == 3,
            def_anti_arithmetic(r.anti_patterns@[0]),
            def_anti_reentrancy(r.anti_patterns@[1]),
            def_anti_access(r.anti_patterns@[2]),
            r.security_patterns@.len() == 3,
            def_sec_overflow(r.security_patterns@[0]),
            def_sec_reentrancy(r.security_patterns@[1]),
            def_sec_access(r.security_patterns@[2]),
            r.min_confidence_num == 3,
            r.min_confidence_den == 5,
    {
        let mut patterns: Vec<PatternDefinition> = Vec::new();
        patterns.push(
            PatternDefinition {
                name: "ERC-20 Token".to_owned(),
                category: PatternCategory::Token,
                description: "Standard fungible token contract".to_owned(),
                node_sequence: vec![NodeType::State, NodeType::Logic, NodeType::External],
                required_connections: vec![
                    (NodeType::State, NodeType::Logic),
                    (NodeType::Logic, NodeType::External),
                ],
                optional_nodes: vec![NodeType::Control],
            },
        );
        patterns.push(
            PatternDefinition {
                name: "Voting Mechanism".to_owned(),
                category: PatternCategory::Voting,
                description: "Decentralized voting system".to_owned(),
                node_sequence: vec![NodeType::State, NodeType::Logic, NodeType::Control],
                required_connections: vec![
                    (NodeType::State, NodeType::Logic),
                    (NodeType::Control, NodeType::Logic),
                ],
                optional_nodes: vec![NodeType::External],
            },
        );
        patterns.push(
            PatternDefinition {
                name: "Escrow Contract".to_owned(),
                category: PatternCategory::Escrow,
                description: "Conditional payment system".to_owned(),
                node_sequence: vec![NodeType::State, NodeType::Logic, NodeType::Control],
                required_connections: vec![
                    (NodeType::State, NodeType::Logic),
                    (NodeType::Control, NodeType::Logic),
                ],
                optional_nodes: vec![NodeType::External],
            },
        );
        let mut anti_patterns: Vec<AntiPatternDefinition> = Vec::new();
        anti_patterns.push(
            AntiPatternDefinition {
                name: "Unchecked Arithmetic".to_owned(),
                description: "Arithmetic operations without overflow checks".to_owned(),
                severity: Severity::High,
                rule: ShapeRule::Window(vec![NodeType::Arithmetic, NodeType::State]),
                suggestion: "Add overflow checks before arithmetic operations".to_owned(),
            },
        );
        anti_patterns.push(
            AntiPatternDefinition {
                name: "Reentrancy Risk".to_owned(),
                description: "External calls before state updates".to_owned(),
                severity: Severity::Critical,
                rule: ShapeRule::Window(vec![NodeType::External, NodeType::State]),
                suggestion: "Update state before making external calls".to_owned(),
            },
        );
        anti_patterns.push(
            AntiPatternDefinition {
                name: "Missing Access Control".to_owned(),
                description: "State modifications without permission checks".to_owned(),
                severity: Severity::High,
                rule: ShapeRule::Window(vec![NodeType::State]),
                suggestion: "Add access control checks before state modifications".to_owned(),
            },
        );
        let mut security_patterns: Vec<SecurityPatternDefinition> = Vec::new();
        security_patterns.push(
            SecurityPatternDefinition {
                name: "Integer Overflow".to_owned(),
                description: "Potential integer overflow in arithmetic operations".to_owned(),
                severity: Severity::High,
                cve_reference: Some("CVE-2018-10299".to_owned()),
                rule: ShapeRule::Window(vec![NodeType::Arithmetic, NodeType::State]),
                mitigation: "Use checked arithmetic operations or SafeMath library".to_owned(),
            },
        );
        security_patterns.push(
            SecurityPatternDefinition {
                name: "Reentrancy Attack".to_owned(),
                description: "Vulnerable to reentrancy attacks".to_owned(),
                severity: Severity::Critical,
                cve_reference: Some("CVE-2016-10709".to_owned()),
                rule: ShapeRule::Adjacency(NodeType::External, NodeType::State),
                mitigation: "Follow checks-effects-interactions pattern".to_owned(),
            },
        );
        security_patterns.push(
            SecurityPatternDefinition {
                name: "Access Control Bypass".to_owned(),
                description: "Missing or insufficient access controls".to_owned(),
                severity: Severity::High,
                cve_reference: None,
                rule: ShapeRule::Window(vec![NodeType::State]),
                mitigation: "Implement proper access control mechanisms".to_owned(),
            },
        );
        proof {
            assert(patterns@[0].node_sequence@ =~= seq![
                NodeType::State,
                NodeType::Logic,
                NodeType::External,
            ]);
            assert(patterns@[0].required_connections@ =~= seq![
                (NodeType::State, NodeType::Logic),
                (NodeType::Logic, NodeType::External),
            ]);
            assert(patterns@[0].optional_nodes@ =~= seq![NodeType::Control]);
            assert(patterns@[1].node_sequence@ =~= seq![
                NodeType::State,
                NodeType::Logic,
                NodeType::Control,
            ]);
            assert(patterns@[1].required_connections@ =~= seq![
                (NodeType::State, NodeType::Logic),
                (NodeType::Control, NodeType::Logic),
            ]);
            assert(patterns@[1].optional_nodes@ =~= seq![NodeType::External]);
            assert(patterns@[2].node_sequence@ =~= seq![
                NodeType::State,
                NodeType::Logic,
                NodeType::Control,
            ]);
            assert(patterns@[2].required_connections@ =~= seq![
                (NodeType::State, NodeType::Logic),
                (NodeType::Control, NodeType::Logic),
            ]);
            assert(patterns@[2].optional_nodes@ =~= seq![NodeType::External]);
            assert(anti_patterns@[0].rule->Window_0@ =~= seq![
                NodeType::Arithmetic,
                NodeType::State,
            ]);
            assert(anti_patterns@[1].rule->Window_0@ =~= seq![NodeType::External, NodeType::State]);
            assert(anti_patterns@[2].rule->Window_0@ =~= seq![NodeType::State]);
            assert(security_patterns@[0].rule->Window_0@ =~= seq![
                NodeType::Arithmetic,
                NodeType::State,
            ]);
            assert(security_patterns@[2].rule->Window_0@ =~= seq![NodeType::State]);
        }
        PatternRecognitionEngine {
            patterns,
            anti_patterns,
            security_patterns,
            min_confidence_num: 3,
            min_confidence_den: 5,
        }
    }

    /// Score one pattern against the graph: how many of its criteria the
    /// graph meets, out of how many it asks for. A pattern without criteria
    /// has no score.
    pub fn match_pattern(&self, g: &Graph, d: &PatternDefinition) -> (r: Option<Confidence>)
        requires
            pattern_total(*d) <= u64::MAX,
        ensures
            match r {
                Some(c) => pattern_total(*d) > 0 && c.matched == pattern_matched(*g, *d)
                    && c.total == pattern_total(*d) && c.matched <= c.total,
                None => pattern_total(*d) == 0,
            },
    {
        let seq_len = d.node_sequence.len();
        let conn_len = d.required_connections.len();
        if seq_len == 0 && conn_len == 0 {
            return None;
        }
        let mut matched: u64 = 0;
        let mut i: usize = 0;
        proof {
            assert(d.node_sequence@.take(0) =~= Seq::<NodeType>::empty());
            lemma_count_present_bounds(g.nodes@, d.node_sequence@.take(0));
        }
        while i < seq_len
            invariant
                seq_len == d.node_sequence@.len(),
                seq_len + conn_len <= u64::MAX,
                0 <= i <= seq_len,
                0 <= matched <= i,
                matched == count_present(g.nodes@, d.node_sequence@.take(i as int)),
            decreases seq_len - i,
        {
            proof {
                assert(d.node_sequence@.take(i + 1 as int).drop_last() == d.node_sequence@.take(
                    i as int,
                ));
                assert(d.node_sequence@.take(i + 1 as int).last() == d.node_sequence@[i as int]);
            }
            if node_type_present(g, d.node_sequence[i]) {
                matched = matched + 1;
            }
            i = i + 1;
        }
        proof {
            assert(d.node_sequence@.take(seq_len as int) =~= d.node_sequence@);
        }
        let mut k: usize = 0;
        proof {
            assert(d.required_connections@.take(0) =~= Seq::<(NodeType, NodeType)>::empty());
        }
        while k < conn_len
            invariant
                seq_len == d.node_sequence@.len(),
                conn_len == d.required_connections@.len(),
                seq_len + conn_len <= u64::MAX,
                0 <= k <= conn_len,
                matched <= seq_len + k,
                matched == count_present(g.nodes@, d.node_sequence@) + count_connected(
                    *g,
                    d.required_connections@.take(k as int),
                ),
            decreases conn_len - k,
        {
            proof {
                assert(d.required_connections@.take(k + 1 as int).drop_last()
                    == d.required_connections@.take(k as int));
                assert(d.required_connections@.take(k + 1 as int).last()
                    == d.required_connections@[k as int]);
                lemma_count_present_bounds(g.nodes@, d.node_sequence@);
            }
            if has_connection_between(g, d.required_connections[k].0, d.required_connections[k].1) {
                matched = matched + 1;
            }
            k = k + 1;
        }
        proof {
            assert(d.required_connections@.take(conn_len as int) =~= d.required_connections@);
            lemma_pattern_matched_bounds(*g, *d);
        }
        Some(Confidence { matched, total: (seq_len as u64) + (conn_len as u64) })
    }

    /// Collect the ids of every node whose type appears in the sequence.
    fn collect_pattern_nodes(g: &Graph, ts: &Vec<NodeType>) -> (r: Vec<String>)
        ensures
            r@ == pattern_nodes_spec(*g, ts@),
    {
        let mut out: Vec<String> = Vec::new();
        let n = g.nodes.len();
        let mut i: usize = 0;
        proof {
            assert(g.nodes@.take(0).filter(member_pred(ts@)) =~= Seq::<Node>::empty());
        }
        while i < n
            invariant
                n == g.nodes@.len(),
                0 <= i <= n,
                out@ == g.nodes@.take(i as int).filter(member_pred(ts@)).map_values(node_id_fn()),
            decreases n - i,
        {
            proof {
                assert(g.nodes@.take(i + 1 as int).drop_last() == g.nodes@.take(i as int));
                reveal(Seq::filter);
            }
            let tlen = ts.len();
            let mut j: usize = 0;
            let mut member = false;
            while j < tlen
                invariant
                    tlen == ts@.len(),
                    0 <= j <= tlen,
                    n == g.nodes@.len(),
                    i < n,
                    member == exists|j2: int|
                        0 <= j2 < j && ts@[j2] == g.nodes@[i as int].node_type,
                decreases tlen - j,
            {
                if ts[j] == g.nodes[i].node_type {
                    member = true;
                }
                j = j + 1;
            }
            proof {
                assert(member == ts@.contains(g.nodes@[i as int].node_type));
                assert(member_pred(ts@)(g.nodes@[i as int]) == member);
            }
            if member {
                out.push(g.nodes[i].id.clone());
                proof {
                    let pred = member_pred(ts@);
                    let f1 = g.nodes@.take(i + 1 as int).filter(pred);
                    assert(f1 == g.nodes@.take(i as int).filter(pred).push(g.nodes@[i as int]));
                    assert(out@.drop_last() == g.nodes@.take(i as int).filter(pred).map_values(
                        node_id_fn(),
                    ));
                    assert(out@ =~= f1.map_values(node_id_fn()));
                }
            }
            i = i + 1;
        }
        proof {
            assert(g.nodes@.take(n as int) =~= g.nodes@);
        }
        out
    }

    /// Recognize the catalog templates the graph matches: each pattern
    /// whose score strictly exceeds the confidence threshold is reported,
    /// in catalog order, with its exact score and the nodes whose type
    /// appears in its sequence.
    pub fn recognize_patterns(&self, g: &Graph) -> (r: Vec<ContractPattern>)
        requires
            engine_wf(*self),
        ensures
            r@.len() == self.patterns@.filter(
                reported_pred(*g, self.min_confidence_num as int, self.min_confidence_den as int),
            ).len(),
            forall|i: int|
                0 <= i < r@.len() ==> cp_matches(
                    #[trigger] r@[i],
                    *g,
                    self.patterns@.filter(
                        reported_pred(
                            *g,
                            self.min_confidence_num as int,
                            self.min_confidence_den as int,
                        ),
                    )[i],
                ),
    {
        let ghost num = self.min_confidence_num as int;
        let ghost den = self.min_confidence_den as int;
        let mut out: Vec<ContractPattern> = Vec::new();
        let n = self.patterns.len();
        let mut i: usize = 0;
        proof {
            assert(self.patterns@.take(0).filter(reported_pred(*g, num, den))
                =~= Seq::<PatternDefinition>::empty());
        }
        while i < n
            invariant
                engine_wf(*self),
                num == self.min_confidence_num as int,
                den == self.min_confidence_den as int,
                n == self.patterns@.len(),
                0 <= i <= n,
                out@.len() == self.patterns@.take(i as int).filter(
                    reported_pred(*g, num, den),
                ).len(),
                forall|j: int|
                    0 <= j < out@.len() ==> cp_matches(
                        #[trigger] out@[j],
                        *g,
                        self.patterns@.take(i as int).filter(reported_pred(*g, num, den))[j],
                    ),
            decreases n - i,
        {
            proof {
                assert(self.patterns@.take(i + 1 as int).drop_last() == self.patterns@.take(
                    i as int,
                ));
                reveal(Seq::filter);
                assert(pattern_total(self.patterns@[i as int]) <= u64::MAX);
            }
            let conf = self.match_pattern(g, &self.patterns[i]);
            let mut reported = false;
            match conf {
                Some(c) => {
                    if c.exceeds(self.min_confidence_num, self.min_confidence_den) {
                        reported = true;
                        let nodes = Self::collect_pattern_nodes(g, &self.patterns[i].node_sequence);
                        out.push(
                            ContractPattern {
                                name: self.patterns[i].name.clone(),
                                description: self.patterns[i].description.clone(),
                                confidence: c,
                                nodes,
                                category: self.patterns[i].category,
                            },
                        );
                    }
                },
                None => {
                },
            }
            proof {
                let pred = reported_pred(*g, num, den);
                assert(pred(self.patterns@[i as int]) == reported);
                let f0 = self.patterns@.take(i as int).filter(pred);
                let f1 = self.patterns@.take(i + 1 as int).filter(pred);
                if reported {
                    assert(f1 == f0.push(self.patterns@[i as int]));
                    assert(out@.len() == f1.len());
                    assert forall|j: int| 0 <= j < out@.len() implies cp_matches(
                        #[trigger] out@[j],
                        *g,
                        f1[j],
                    ) by {
                        if j < out@.len() - 1 {
                            assert(out@[j] == out@.drop_last()[j]);
                            assert(f1[j] == f0[j]);
                        } else {
                            assert(f1[j] == self.patterns@[i as int]);
                        }
                    }
                } else {
                    assert(f1 == f0);
                }
            }
            i = i + 1;
        }
        proof {
            assert(self.patterns@.take(n as int) =~= self.patterns@);
        }
        out
    }

    /// Report every anti-pattern whose shape the graph matches, in catalog
    /// order, each carrying the node ids of its matching windows.
    pub fn detect_anti_patterns(&self, g: &Graph) -> (r: Vec<AntiPattern>)
        requires
            engine_wf(*self),
        ensures
            r@.len() == self.anti_patterns@.filter(fired_anti_pred(*g)).len(),
            forall|i: int|
                0 <= i < r@.len() ==> ap_matches(
                    #[trigger] r@[i],
                    *g,
                    self.anti_patterns@.filter(fired_anti_pred(*g))[i],
                ),
    {
        let mut out: Vec<AntiPattern> = Vec::new();
        let n = self.anti_patterns.len();
        let mut i: usize = 0;
        proof {
            assert(self.anti_patterns@.take(0).filter(fired_anti_pred(*g))
                =~= Seq::<AntiPatternDefinition>::empty());
        }
        while i < n
            invariant
                engine_wf(*self),
                n == self.anti_patterns@.len(),
                0 <= i <= n,
                out@.len() == self.anti_patterns@.take(i as int).filter(fired_anti_pred(*g)).len(),
                forall|j: int|
                    0 <= j < out@.len() ==> ap_matches(
                        #[trigger] out@[j],
                        *g,
                        self.anti_patterns@.take(i as int).filter(fired_anti_pred(*g))[j],
                    ),
            decreases n - i,
        {
            proof {
                assert(self.anti_patterns@.take(i + 1 as int).drop_last()
                    == self.anti_patterns@.take(i as int));
                reveal(Seq::filter);
                assert(shape_rule_wf(self.anti_patterns@[i as int].rule));
            }
            let fired = shape_rule_matches(g, &self.anti_patterns[i].rule);
            if fired {
                let nodes = shape_rule_nodes(g, &self.anti_patterns[i].rule);
                out.push(
                    AntiPattern {
                        name: self.anti_patterns[i].name.clone(),
                        description: self.anti_patterns[i].description.clone(),
                        severity: self.anti_patterns[i].severity,
                        nodes,
                        suggestion: self.anti_patterns[i].suggestion.clone(),
                    },
                );
            }
            proof {
                let pred = fired_anti_pred(*g);
                assert(pred(self.anti_patterns@[i as int]) == fired);
                let f0 = self.anti_patterns@.take(i as int).filter(pred);
                let f1 = self.anti_patterns@.take(i + 1 as int).filter(pred);
                if fired {
                    assert(f1 == f0.push(self.anti_patterns@[i as int]));
                    assert forall|j: int| 0 <= j < out@.len() implies ap_matches(
                        #[trigger] out@[j],
                        *g,
                        f1[j],
                    ) by {
                        if j < out@.len() - 1 {
                            assert(out@[j] == out@.drop_last()[j]);
                            assert(f1[j] == f0[j]);
                        } else {
                            assert(f1[j] == self.anti_patterns@[i as int]);
                        }
                    }
                } else {
                    assert(f1 == f0);
                }
            }
            i = i + 1;
        }
        proof {
            assert(self.anti_patterns@.take(n as int) =~= self.anti_patterns@);
        }
        out
    }

    /// Report every security shape the graph matches, in catalog order,
    /// each carrying its reference tag and mitigation.
    pub fn detect_security_issues(&self, g: &Graph) -> (r: Vec<SecurityIssue>)
        requires
            engine_wf(*self),
        ensures
            r@.len() == self.security_patterns@.filter(fired_sec_pred(*g)).len(),
            forall|i: int|
                0 <= i < r@.len() ==> si_matches(
                    #[trigger] r@[i],
                    *g,
                    self.security_patterns@.filter(fired_sec_pred(*g))[i],
                ),
    {
        let mut out: Vec<SecurityIssue> = Vec::new();
        let n = self.security_patterns.len();
        let mut i: usize = 0;
        proof {
            assert(self.security_patterns@.take(0).filter(fired_sec_pred(*g))
                =~= Seq::<SecurityPatternDefinition>::empty());
        }
        while i < n
            invariant
                engine_wf(*self),
                n == self.security_patterns@.len(),
                0 <= i <= n,
                out@.len() == self.security_patterns@.take(i as int).filter(
                    fired_sec_pred(*g),
                ).len(),
                forall|j: int|
                    0 <= j < out@.len() ==> si_matches(
                        #[trigger] out@[j],
                        *g,
                        self.security_patterns@.take(i as int).filter(fired_sec_pred(*g))[j],
                    ),
            decreases n - i,
        {
            proof {
                assert(self.security_patterns@.take(i + 1 as int).drop_last()
                    == self.security_patterns@.take(i as int));
                reveal(Seq::filter);
                assert(shape_rule_wf(self.security_patterns@[i as int].rule));
            }
            let fired = shape_rule_matches(g, &self.security_patterns[i].rule);
            if fired {
                let nodes = shape_rule_nodes(g, &self.security_patterns[i].rule);
                let cve = match &self.security_patterns[i].cve_reference {
                    Some(c) => Some(c.clone()),
                    None => None,
                };
                out.push(
                    SecurityIssue {
                        name: self.security_patterns[i].name.clone(),
                        description: self.security_patterns[i].description.clone(),
                        severity: self.security_patterns[i].severity,
                        nodes,
                        cve_reference: cve,
                        mitigation: self.security_patterns[i].mitigation.clone(),
                    },
                );
            }
            proof {
                let pred = fired_sec_pred(*g);
                assert(pred(self.security_patterns@[i as int]) == fired);
                let f0 = self.security_patterns@.take(i as int).filter(pred);
                let f1 = self.security_patterns@.take(i + 1 as int).filter(pred);
                if fired {
                    assert(f1 == f0.push(self.security_patterns@[i as int]));
                    assert forall|j: int| 0 <= j < out@.len() implies si_matches(
                        #[trigger] out@[j],
                        *g,
                        f1[j],
                    ) by {
                        if j < out@.len() - 1 {
                            assert(out@[j] == out@.drop_last()[j]);
                            assert(f1[j] == f0[j]);
                        } else {
                            assert(f1[j] == self.security_patterns@[i as int]);
                        }
                    }
                } else {
                    assert(f1 == f0);
                }
            }
            i = i + 1;
        }
        proof {
            assert(self.security_patterns@.take(n as int) =~= self.security_patterns@);
        }
        out
    }
}

} // verus!
