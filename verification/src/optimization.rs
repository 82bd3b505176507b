//! Gas estimation and the optimization-suggestion engine. The estimate is
//! a pure function of the node types and the edge count; suggestions come
//! from a rewrite-rule catalog matched as node-type windows and from
//! aggregate threshold heuristics. Results are cached under a structural
//! hash of the graph; an exact signature comparison decides every hit, so
//! the cache never changes what a call returns.

use vstd::prelude::*;
use vstd::string::StrSliceExecFns;

use crate::types::{Graph, Node, NodeId, NodeType};

verus! {

/// Saturating add: the sum, capped at the largest representable value.
pub open spec fn cap64(v: int) -> int {
    if v > u64::MAX {
        u64::MAX as int
    } else {
        v
    }
}

/// Add with saturation at `u64::MAX`.
pub fn sat_add(a: u64, b: u64) -> (r: u64)
    ensures
        r as int == cap64(a as int + b as int),
{
    if a > u64::MAX - b {
        u64::MAX
    } else {
        a + b
    }
}

/// Multiply with saturation at `u64::MAX`.
pub fn sat_mul(a: u64, b: u64) -> (r: u64)
    ensures
        r as int == cap64((a as int) * (b as int)),
{
    if b == 0 {
        proof {
            assert((a as int) * 0 == 0) by (nonlinear_arith);
        }
        return 0;
    }
    if a > u64::MAX / b {
        proof {
            assert((a as int) * (b as int) > u64::MAX) by (nonlinear_arith)
                requires
                    b > 0,
                    a as int >= (u64::MAX as int) / (b as int) + 1,
            ;
        }
        u64::MAX
    } else {
        proof {
            assert((a as int) * (b as int) <= u64::MAX) by (nonlinear_arith)
                requires
                    b > 0,
                    a as int <= (u64::MAX as int) / (b as int),
            ;
        }
        a * b
    }
}

/// Capping distributes over sums of non-negative parts.
proof fn lemma_cap_add(a: int, b: int)
    requires
        a >= 0,
        b >= 0,
    ensures
        cap64(cap64(a) + cap64(b)) == cap64(a + b),
{
}

/// The structural signature of a node: its id and its type. Every
/// analysis the optimizer performs reads nothing else of a node.
pub open spec fn sig_of(nodes: Seq<Node>) -> Seq<(Seq<char>, NodeType)> {
    nodes.map_values(|n: Node| (n.id@, n.node_type))
}

/// The views of an id list.
pub open spec fn sv(a: Seq<String>) -> Seq<Seq<char>> {
    a.map_values(|s: String| s@)
}

/// Keep a signature entry of the given type.
pub open spec fn sig_type_pred(t: NodeType) -> spec_fn((Seq<char>, NodeType)) -> bool {
    |p: (Seq<char>, NodeType)| p.1 == t
}

/// A signature entry's id.
pub open spec fn sig_id_fn() -> spec_fn((Seq<char>, NodeType)) -> Seq<char> {
    |p: (Seq<char>, NodeType)| p.0
}

/// How many entries carry the given type.
pub open spec fn sig_count(sig: Seq<(Seq<char>, NodeType)>, t: NodeType) -> int {
    sig.filter(sig_type_pred(t)).len() as int
}

/// The ids of the entries of the given type, in order.
pub open spec fn sig_type_ids(sig: Seq<(Seq<char>, NodeType)>, t: NodeType) -> Seq<Seq<char>> {
    sig.filter(sig_type_pred(t)).map_values(sig_id_fn())
}

/// The window matches the signature at offset `i`.
pub open spec fn sig_window_at(sig: Seq<(Seq<char>, NodeType)>, w: Seq<NodeType>, i: int) -> bool {
    0 <= i && i + w.len() <= sig.len() && forall|j: int|
        0 <= j < w.len() ==> #[trigger] sig[i + j].1 == w[j]
}

/// The window matches somewhere.
pub open spec fn sig_window_found(sig: Seq<(Seq<char>, NodeType)>, w: Seq<NodeType>) -> bool {
    exists|i: int| sig_window_at(sig, w, i)
}

/// The window matches at `i` and nowhere earlier.
pub open spec fn sig_first_window_at(
    sig: Seq<(Seq<char>, NodeType)>,
    w: Seq<NodeType>,
    i: int,
) -> bool {
    sig_window_at(sig, w, i) && forall|j: int| 0 <= j < i ==> !sig_window_at(sig, w, j)
}

/// The ids of the `len` entries starting at `i`.
pub open spec fn sig_segment_ids(sig: Seq<(Seq<char>, NodeType)>, i: int, len: int) -> Seq<
    Seq<char>,
> {
    sig.subrange(i, i + len).map_values(sig_id_fn())
}

/// Gas cost table for the node types
#[derive(Debug, Clone, Copy, PartialEq, Eq, Structural)]
pub struct GasCostTable {
    pub start: u64,
    pub end: u64,
    pub state: u64,
    pub logic: u64,
    pub arithmetic: u64,
    pub external: u64,
    pub control: u64,
}

/// The base cost the table assigns to a node type.
pub open spec fn table_cost(tb: GasCostTable, t: NodeType) -> int {
    match t {
        NodeType::Start => tb.start as int,
        NodeType::End => tb.end as int,
        NodeType::State => tb.state as int,
        NodeType::Logic => tb.logic as int,
        NodeType::Arithmetic => tb.arithmetic as int,
        NodeType::External => tb.external as int,
        NodeType::Control => tb.control as int,
    }
}

/// The node-specific surcharge for a type: the extra storage write for a
/// State node, the call overhead for an External node, and so on.
pub open spec fn spec_surcharge(t: NodeType) -> int {
    match t {
        NodeType::Start => 0,
        NodeType::End => 0,
        NodeType::State => 20000,
        NodeType::Logic => 1,
        NodeType::Arithmetic => 3,
        NodeType::External => 2600,
        NodeType::Control => 1,
    }
}

/// Base cost plus surcharge for one node type.
pub open spec fn node_cost(tb: GasCostTable, t: NodeType) -> int {
    table_cost(tb, t) + spec_surcharge(t)
}

/// Total node cost of a signature: the sum of per-type costs.
pub open spec fn sig_gas(tb: GasCostTable, sig: Seq<(Seq<char>, NodeType)>) -> int
    decreases sig.len(),
{
    if sig.len() == 0 {
        0int
    } else {
        sig_gas(tb, sig.drop_last()) + node_cost(tb, sig.last().1)
    }
}

proof fn lemma_sig_gas_nonneg(tb: GasCostTable, sig: Seq<(Seq<char>, NodeType)>)
    ensures
        sig_gas(tb, sig) >= 0,
    decreases sig.len(),
{
    if sig.len() > 0 {
        lemma_sig_gas_nonneg(tb, sig.drop_last());
    }
}

/// The whole estimate: per-node costs plus one constant per edge, capped.
pub open spec fn gas_estimate_spec(
    tb: GasCostTable,
    edge_cost: int,
    sig: Seq<(Seq<char>, NodeType)>,
    edge_count: int,
) -> int {
    cap64(sig_gas(tb, sig) + edge_count * edge_cost)
}

impl GasCostTable {
    /// The default cost table: storage writes dominate, external calls
    /// follow, plain logic and control are near free.
    pub fn new() -> (r: GasCostTable)
        ensures
            r == (GasCostTable {
                start: 0u64,
                end: 0u64,
                state: 20000u64,
                logic: 1u64,
                arithmetic: 3u64,
                external: 2600u64,
                control: 1u64,
            }),
    {
        GasCostTable {
            start: 0,
            end: 0,
            state: 20000,
            logic: 1,
            arithmetic: 3,
            external: 2600,
            control: 1,
        }
    }

    /// The base cost of one node type.
    pub fn cost_of(&self, t: NodeType) -> (r: u64)
        ensures
            r as int == table_cost(*self, t),
    {
        match t {
            NodeType::Start => self.start,
            NodeType::End => self.end,
            NodeType::State => self.state,
            NodeType::Logic => self.logic,
            NodeType::Arithmetic => self.arithmetic,
            NodeType::External => self.external,
            NodeType::Control => self.control,
        }
    }
}

/// The node-specific surcharge, as code.
pub fn surcharge(t: NodeType) -> (r: u64)
    ensures
        r as int == spec_surcharge(t),
{
    match t {
        NodeType::Start => 0,
        NodeType::End => 0,
        NodeType::State => 20000,
        NodeType::Logic => 1,
        NodeType::Arithmetic => 3,
        NodeType::External => 2600,
        NodeType::Control => 1,
    }
}

/// A catalog rewrite rule: a node-type window, the shape it could be
/// rewritten to, and the fixed saving the rewrite is worth.
#[derive(Debug, PartialEq)]
pub struct OptimizationRule {
    pub name: String,
    pub description: String,
    pub pattern: Vec<NodeType>,
    pub replacement: Vec<NodeType>,
    pub gas_savings: u64,
    pub implementation: String,
}

/// Optimization suggestion
#[derive(Debug, PartialEq)]
pub struct OptimizationSuggestion {
    pub title: String,
    pub description: String,
    pub estimated_gas_savings: u64,
    pub nodes: Vec<NodeId>,
    pub implementation: String,
}

impl Clone for OptimizationSuggestion {
    fn clone(&self) -> (r: Self)
        ensures
            r.title@ == self.title@,
            r.description@ == self.description@,
            r.estimated_gas_savings == self.estimated_gas_savings,
            sv(r.nodes@) == sv(self.nodes@),
            r.implementation@ == self.implementation@,
    {
        let mut nodes: Vec<String> = Vec::new();
        let n = self.nodes.len();
        let mut i: usize = 0;
        while i < n
            invariant
                n == self.nodes@.len(),
                0 <= i <= n,
                nodes@.len() == i,
                forall|j: int| 0 <= j < i ==> nodes@[j]@ == self.nodes@[j]@,
            decreases n - i,
        {
            nodes.push(self.nodes[i].clone());
            i = i + 1;
        }
        proof {
            assert(sv(nodes@) =~= sv(self.nodes@));
        }
        OptimizationSuggestion {
            title: self.title.clone(),
            description: self.description.clone(),
            estimated_gas_savings: self.estimated_gas_savings,
            nodes,
            implementation: self.implementation.clone(),
        }
    }
}

/// Optimization result
#[derive(Debug, PartialEq)]
pub struct OptimizationResult {
    pub original_gas_estimate: u64,
    pub optimized_gas_estimate: u64,
    pub gas_savings: u64,
    pub suggestions: Vec<OptimizationSuggestion>,
    pub modified_graph: Option<Graph>,
}

/// Element-wise observable equality of suggestion lists.
pub open spec fn suggs_eqv(a: Seq<OptimizationSuggestion>, b: Seq<OptimizationSuggestion>) -> bool {
    a.len() == b.len() && forall|i: int|
        0 <= i < a.len() ==> {
            &&& (#[trigger] a[i]).title@ == b[i].title@
            &&& a[i].description@ == b[i].description@
            &&& a[i].estimated_gas_savings == b[i].estimated_gas_savings
            &&& sv(a[i].nodes@) == sv(b[i].nodes@)
            &&& a[i].implementation@ == b[i].implementation@
        }
}

impl Clone for OptimizationResult {
    fn clone(&self) -> (r: Self)
        ensures
            r.original_gas_estimate == self.original_gas_estimate,
            r.optimized_gas_estimate == self.optimized_gas_estimate,
            r.gas_savings == self.gas_savings,
            suggs_eqv(r.suggestions@, self.suggestions@),
            self.modified_graph is None ==> r.modified_graph is None,
    {
        let mut suggestions: Vec<OptimizationSuggestion> = Vec::new();
        let n = self.suggestions.len();
        let mut i: usize = 0;
        while i < n
            invariant
                n == self.suggestions@.len(),
                0 <= i <= n,
                suggestions@.len() == i,
                forall|j: int|
                    0 <= j < i ==> {
                        &&& (#[trigger] suggestions@[j]).title@ == self.suggestions@[j].title@
                        &&& suggestions@[j].description@ == self.suggestions@[j].description@
                        &&& suggestions@[j].estimated_gas_savings
                            == self.suggestions@[j].estimated_gas_savings
                        &&& sv(suggestions@[j].nodes@) == sv(self.suggestions@[j].nodes@)
                        &&& suggestions@[j].implementation@
                            == self.suggestions@[j].implementation@
                    },
            decreases n - i,
        {
            suggestions.push(self.suggestions[i].clone());
            i = i + 1;
        }
        let modified_graph = match &self.modified_graph {
            Some(gr) => Some(gr.clone()),
            None => None,
        };
        OptimizationResult {
            original_gas_estimate: self.original_gas_estimate,
            optimized_gas_estimate: self.optimized_gas_estimate,
            gas_savings: self.gas_savings,
            suggestions,
            modified_graph,
        }
    }
}


/// One when the condition holds, else zero.
pub open spec fn b2i(b: bool) -> int {
    if b {
        1int
    } else {
        0int
    }
}

/// A rewrite rule fires when its window matches the signature.
pub open spec fn rule_fired_pred(sig: Seq<(Seq<char>, NodeType)>) -> spec_fn(OptimizationRule) -> bool {
    |r: OptimizationRule| sig_window_found(sig, r.pattern@)
}

/// The suggestion born of a rewrite rule: the rule's texts and saving, and
/// the members of the first matching window.
pub open spec fn os_rule_matches(
    s: OptimizationSuggestion,
    sig: Seq<(Seq<char>, NodeType)>,
    r: OptimizationRule,
) -> bool {
    &&& s.title@ == r.name@
    &&& s.description@ == r.description@
    &&& s.estimated_gas_savings == r.gas_savings
    &&& s.implementation@ == r.implementation@
    &&& exists|i: int|
        #[trigger] sig_first_window_at(sig, r.pattern@, i) && sv(s.nodes@) == sig_segment_ids(
            sig,
            i,
            r.pattern@.len() as int,
        )
}

/// More than five State nodes: suggest batching the state operations.
pub open spec fn state_fires(sig: Seq<(Seq<char>, NodeType)>) -> bool {
    sig_count(sig, NodeType::State) > 5
}

pub open spec fn state_savings(sig: Seq<(Seq<char>, NodeType)>) -> int {
    cap64((sig_count(sig, NodeType::State) - 5) * 5000)
}

pub open spec fn os_state_matches(s: OptimizationSuggestion, sig: Seq<(Seq<char>, NodeType)>) -> bool {
    &&& s.title@ == "Reduce State Operations"@
    &&& s.description@ == "Consider batching state operations to reduce gas costs"@
    &&& s.estimated_gas_savings as int == state_savings(sig)
    &&& s.implementation@ == "Batch multiple state updates into a single operation"@
    &&& sv(s.nodes@) == sig_type_ids(sig, NodeType::State)
}

/// More than three External nodes: suggest caching the call results.
pub open spec fn external_fires(sig: Seq<(Seq<char>, NodeType)>) -> bool {
    sig_count(sig, NodeType::External) > 3
}

pub open spec fn external_savings(sig: Seq<(Seq<char>, NodeType)>) -> int {
    cap64((sig_count(sig, NodeType::External) - 3) * 1000)
}

pub open spec fn os_external_matches(
    s: OptimizationSuggestion,
    sig: Seq<(Seq<char>, NodeType)>,
) -> bool {
    &&& s.title@ == "Optimize External Calls"@
    &&& s.description@ == "Consider caching external call results"@
    &&& s.estimated_gas_savings as int == external_savings(sig)
    &&& s.implementation@ == "Cache external call results in state variables"@
    &&& sv(s.nodes@) == sig_type_ids(sig, NodeType::External)
}

/// More than ten Arithmetic nodes: suggest bit-shift rewrites.
pub open spec fn arithmetic_fires(sig: Seq<(Seq<char>, NodeType)>) -> bool {
    sig_count(sig, NodeType::Arithmetic) > 10
}

pub open spec fn arithmetic_savings(sig: Seq<(Seq<char>, NodeType)>) -> int {
    cap64(sig_count(sig, NodeType::Arithmetic) * 10)
}

pub open spec fn os_arithmetic_matches(
    s: OptimizationSuggestion,
    sig: Seq<(Seq<char>, NodeType)>,
) -> bool {
    &&& s.title@ == "Optimize Arithmetic Operations"@
    &&& s.description@ == "Consider using bit shifting for power-of-2 operations"@
    &&& s.estimated_gas_savings as int == arithmetic_savings(sig)
    &&& s.implementation@ == "Replace multiplication/division by powers of 2 with bit shifts"@
    &&& sv(s.nodes@) == sig_type_ids(sig, NodeType::Arithmetic)
}

/// The savings the fired rules claim, summed without a cap.
pub open spec fn rules_savings(rs: Seq<OptimizationRule>) -> int
    decreases rs.len(),
{
    if rs.len() == 0 {
        0int
    } else {
        rules_savings(rs.drop_last()) + rs.last().gas_savings as int
    }
}

proof fn lemma_rules_savings_nonneg(rs: Seq<OptimizationRule>)
    ensures
        rules_savings(rs) >= 0,
    decreases rs.len(),
{
    if rs.len() > 0 {
        lemma_rules_savings_nonneg(rs.drop_last());
    }
}

/// Everything the suggestions are worth: the fired rules' savings plus the
/// fired heuristics' savings.
pub open spec fn expected_savings(rules: Seq<OptimizationRule>, sig: Seq<(Seq<char>, NodeType)>) -> int {
    rules_savings(rules.filter(rule_fired_pred(sig))) + (if state_fires(sig) {
        state_savings(sig)
    } else {
        0int
    }) + (if external_fires(sig) {
        external_savings(sig)
    } else {
        0int
    }) + (if arithmetic_fires(sig) {
        arithmetic_savings(sig)
    } else {
        0int
    })
}

/// The suggestion list owed for a signature: one entry per fired rewrite
/// rule, in catalog order, then the fired heuristics in their fixed order.
pub open spec fn suggestions_post(
    rules: Seq<OptimizationRule>,
    sig: Seq<(Seq<char>, NodeType)>,
    ss: Seq<OptimizationSuggestion>,
) -> bool {
    let fired = rules.filter(rule_fired_pred(sig));
    let base = fired.len() as int;
    let c1 = base + b2i(state_fires(sig));
    let c2 = c1 + b2i(external_fires(sig));
    &&& ss.len() == c2 + b2i(arithmetic_fires(sig))
    &&& forall|i: int| 0 <= i < base ==> os_rule_matches(#[trigger] ss[i], sig, fired[i])
    &&& state_fires(sig) ==> os_state_matches(ss[base], sig)
    &&& external_fires(sig) ==> os_external_matches(ss[c1], sig)
    &&& arithmetic_fires(sig) ==> os_arithmetic_matches(ss[c2], sig)
}

/// Everything `optimize` promises of a result, phrased over the graph's
/// structural signature and its edge count alone.
pub open spec fn or_post(
    tb: GasCostTable,
    edge_cost: int,
    rules: Seq<OptimizationRule>,
    sig: Seq<(Seq<char>, NodeType)>,
    edge_count: int,
    r: OptimizationResult,
) -> bool {
    &&& r.original_gas_estimate as int == gas_estimate_spec(tb, edge_cost, sig, edge_count)
    &&& suggestions_post(rules, sig, r.suggestions@)
    &&& r.gas_savings as int == cap64(expected_savings(rules, sig))
    &&& r.optimized_gas_estimate as int == (if r.gas_savings > r.original_gas_estimate {
        0int
    } else {
        r.original_gas_estimate - r.gas_savings
    })
    &&& r.modified_graph is None
}

/// Observable equality carries the whole promise across a clone.
proof fn lemma_or_post_eqv(
    tb: GasCostTable,
    edge_cost: int,
    rules: Seq<OptimizationRule>,
    sig: Seq<(Seq<char>, NodeType)>,
    edge_count: int,
    a: OptimizationResult,
    b: OptimizationResult,
)
    requires
        or_post(tb, edge_cost, rules, sig, edge_count, a),
        b.original_gas_estimate == a.original_gas_estimate,
        b.optimized_gas_estimate == a.optimized_gas_estimate,
        b.gas_savings == a.gas_savings,
        suggs_eqv(b.suggestions@, a.suggestions@),
        b.modified_graph is None,
    ensures
        or_post(tb, edge_cost, rules, sig, edge_count, b),
{
    let fired = rules.filter(rule_fired_pred(sig));
    let base = fired.len() as int;
    let c1 = base + b2i(state_fires(sig));
    let c2 = c1 + b2i(external_fires(sig));
    assert forall|i: int| 0 <= i < base implies os_rule_matches(
        #[trigger] b.suggestions@[i],
        sig,
        fired[i],
    ) by {
        assert(os_rule_matches(a.suggestions@[i], sig, fired[i]));
        let w = choose|w: int|
            #[trigger] sig_first_window_at(sig, fired[i].pattern@, w) && sv(
                a.suggestions@[i].nodes@,
            ) == sig_segment_ids(sig, w, fired[i].pattern@.len() as int);
        assert(sv(b.suggestions@[i].nodes@) == sv(a.suggestions@[i].nodes@));
    }
}

/// The cached outcome for one graph signature.
pub struct CacheEntry {
    hash: u64,
    sig: Vec<(String, NodeType)>,
    edge_count: u64,
    result: OptimizationResult,
}

/// The views of a stored signature.
pub open spec fn sv_sig(s: Seq<(String, NodeType)>) -> Seq<(Seq<char>, NodeType)> {
    s.map_values(|p: (String, NodeType)| (p.0@, p.1))
}

/// A small integer tag for each node type, used by the hash.
pub open spec fn spec_type_tag(t: NodeType) -> int {
    match t {
        NodeType::Start => 1,
        NodeType::End => 2,
        NodeType::State => 3,
        NodeType::Logic => 4,
        NodeType::Arithmetic => 5,
        NodeType::External => 6,
        NodeType::Control => 7,
    }
}

fn type_tag(t: NodeType) -> (r: u64)
    ensures
        r as int == spec_type_tag(t),
{
    match t {
        NodeType::Start => 1,
        NodeType::End => 2,
        NodeType::State => 3,
        NodeType::Logic => 4,
        NodeType::Arithmetic => 5,
        NodeType::External => 6,
        NodeType::Control => 7,
    }
}

/// One mixing step of the structural hash.
pub open spec fn hash_step(h: int, x: int) -> int {
    (h * 131 + x) % 0x1_0000_0000_0000_0000
}

/// Fold the first `upto` signature entries into the hash: each entry mixes
/// in its id length and its type tag.
pub open spec fn sig_hash_upto(sig: Seq<(Seq<char>, NodeType)>, upto: int) -> int
    decreases upto,
{
    if upto <= 0 {
        5381int
    } else {
        hash_step(
            hash_step(sig_hash_upto(sig, upto - 1), sig[upto - 1].0.len() as int),
            spec_type_tag(sig[upto - 1].1),
        )
    }
}

/// The structural hash of a graph: its node signature folded entry by
/// entry, then the edge count mixed in.
pub open spec fn graph_hash_spec(sig: Seq<(Seq<char>, NodeType)>, edge_count: int) -> int {
    hash_step(sig_hash_upto(sig, sig.len() as int), edge_count)
}

fn hash_mix(h: u64, x: u64) -> (r: u64)
    ensures
        r as int == hash_step(h as int, x as int),
{
    let wide = (h as u128) * 131 + (x as u128);
    proof {
        assert((h as u128) * 131 <= (u64::MAX as u128) * 131) by (nonlinear_arith)
            requires
                h <= u64::MAX,
        ;
    }
    (wide % 0x1_0000_0000_0000_0000u128) as u64
}


/// Build the structural signature of a graph's nodes.
fn build_sig(g: &Graph) -> (r: Vec<(String, NodeType)>)
    ensures
        sv_sig(r@) == sig_of(g.nodes@),
{
    let mut out: Vec<(String, NodeType)> = Vec::new();
    let n = g.nodes.len();
    let mut i: usize = 0;
    while i < n
        invariant
            n == g.nodes@.len(),
            0 <= i <= n,
            out@.len() == i,
            forall|j: int|
                0 <= j < i ==> (#[trigger] out@[j]).0@ == g.nodes@[j].id@ && out@[j].1
                    == g.nodes@[j].node_type,
        decreases n - i,
    {
        out.push((g.nodes[i].id.clone(), g.nodes[i].node_type));
        i = i + 1;
    }
    proof {
        assert(sv_sig(out@) =~= sig_of(g.nodes@));
    }
    out
}

/// The structural hash of a stored signature and an edge count.
fn graph_hash(sig: &Vec<(String, NodeType)>, edge_count: u64) -> (r: u64)
    ensures
        r as int == graph_hash_spec(sv_sig(sig@), edge_count as int),
{
    let n = sig.len();
    let mut h: u64 = 5381;
    let mut i: usize = 0;
    while i < n
        invariant
            n == sig@.len(),
            0 <= i <= n,
            h as int == sig_hash_upto(sv_sig(sig@), i as int),
        decreases n - i,
    {
        let id_len = sig[i].0.as_str().unicode_len();
        h = hash_mix(h, id_len as u64);
        h = hash_mix(h, type_tag(sig[i].1));
        proof {
            let svs = sv_sig(sig@);
            assert(svs[i as int] == (sig@[i as int].0@, sig@[i as int].1));
            assert(sig_hash_upto(svs, i + 1 as int) == hash_step(
                hash_step(sig_hash_upto(svs, i as int), svs[i as int].0.len() as int),
                spec_type_tag(svs[i as int].1),
            ));
        }
        i = i + 1;
    }
    proof {
        assert(sv_sig(sig@).len() == sig@.len());
    }
    hash_mix(h, edge_count)
}

/// Do two stored signatures denote the same id/type sequence?
fn sig_equal(a: &Vec<(String, NodeType)>, b: &Vec<(String, NodeType)>) -> (r: bool)
    ensures
        r == (sv_sig(a@) == sv_sig(b@)),
{
    let n = a.len();
    if n != b.len() {
        proof {
            assert(sv_sig(a@).len() != sv_sig(b@).len());
        }
        return false;
    }
    let mut i: usize = 0;
    while i < n
        invariant
            n == a@.len(),
            n == b@.len(),
            0 <= i <= n,
            forall|j: int|
                0 <= j < i ==> (#[trigger] a@[j]).0@ == b@[j].0@ && a@[j].1 == b@[j].1,
        decreases n - i,
    {
        if !crate::types::string_eq(&a[i].0, &b[i].0) || !(a[i].1 == b[i].1) {
            proof {
                assert(sv_sig(a@)[i as int] != sv_sig(b@)[i as int]);
            }
            return false;
        }
        i = i + 1;
    }
    proof {
        assert(sv_sig(a@) =~= sv_sig(b@));
    }
    true
}

/// Every rewrite-rule window holds one to three types.
pub open spec fn rules_wf(rules: Seq<OptimizationRule>) -> bool {
    forall|i: int| 0 <= i < rules.len() ==> 1 <= (#[trigger] rules[i]).pattern@.len() <= 3
}

pub open spec fn def_rule_batch_arithmetic(r: OptimizationRule) -> bool {
    &&& r.name@ == "Batch Arithmetic Operations"@
    &&& r.description@ == "Combine multiple arithmetic operations into a single operation"@
    &&& r.pattern@ == seq![NodeType::Arithmetic, NodeType::Arithmetic]
    &&& r.replacement@ == seq![NodeType::Arithmetic]
    &&& r.gas_savings == 3
    &&& r.implementation@ == "Use compound assignment operators (e.g., a += b instead of a = a + b)"@
}

pub open spec fn def_rule_storage(r: OptimizationRule) -> bool {
    &&& r.name@ == "Optimize Storage Access"@
    &&& r.description@ == "Cache frequently accessed storage values"@
    &&& r.pattern@ == seq![NodeType::State, NodeType::Logic, NodeType::State]
    &&& r.replacement@ == seq![NodeType::State, NodeType::Logic]
    &&& r.gas_savings == 100
    &&& r.implementation@ == "Store storage value in memory variable for multiple uses"@
}

pub open spec fn def_rule_external(r: OptimizationRule) -> bool {
    &&& r.name@ == "Reduce External Calls"@
    &&& r.description@ == "Cache external call results to avoid repeated calls"@
    &&& r.pattern@ == seq![NodeType::External, NodeType::Logic, NodeType::External]
    &&& r.replacement@ == seq![NodeType::External, NodeType::Logic]
    &&& r.gas_savings == 2600
    &&& r.implementation@ == "Store external call result in state variable"@
}

pub open spec fn def_rule_control(r: OptimizationRule) -> bool {
    &&& r.name@ == "Optimize Control Flow"@
    &&& r.description@ == "Simplify nested control structures"@
    &&& r.pattern@ == seq![NodeType::Control, NodeType::Control]
    &&& r.replacement@ == seq![NodeType::Control]
    &&& r.gas_savings == 1
    &&& r.implementation@ == "Combine multiple conditions into a single expression"@
}

/// Optimization engine: the cost table, the per-edge constant, the rewrite
/// catalog and a cache of past results. The cache is keyed by the
/// structural hash and confirmed by an exact signature comparison, so a
/// hit returns exactly what a fresh run would.
pub struct OptimizationEngine {
    pub gas_costs: GasCostTable,
    pub edge_cost: u64,
    pub optimization_rules: Vec<OptimizationRule>,
    pub cache: Vec<CacheEntry>,
}

/// The engine's catalog is evaluable and every cache entry records the
/// outcome its signature is owed.
pub closed spec fn engine_ok(e: OptimizationEngine) -> bool {
    &&& rules_wf(e.optimization_rules@)
    &&& forall|i: int|
        0 <= i < e.cache@.len() ==> or_post(
            e.gas_costs,
            e.edge_cost as int,
            e.optimization_rules@,
            sv_sig((#[trigger] e.cache@[i]).sig@),
            e.cache@[i].edge_count as int,
            e.cache@[i].result,
        )
}

impl OptimizationEngine {
    /// The default engine: the default cost table, ten gas per edge, the
    /// four built-in rewrite rules and an empty cache.
    pub fn new() -> (r: OptimizationEngine)
        ensures
            engine_ok(r),
            r.gas_costs == (GasCostTable {
                start: 0u64,
                end: 0u64,
                state: 20000u64,
                logic: 1u64,
                arithmetic: 3u64,
                external: 2600u64,
                control: 1u64,
            }),
            r.edge_cost == 10,
            r.optimization_rules@.len() == 4,
            def_rule_batch_arithmetic(r.optimization_rules@[0]),
            def_rule_storage(r.optimization_rules@[1]),
            def_rule_external(r.optimization_rules@[2]),
            def_rule_control(r.optimization_rules@[3]),
    {
        let mut optimization_rules: Vec<OptimizationRule> = Vec::new();
        optimization_rules.push(
            OptimizationRule {
                name: "Batch Arithmetic Operations".to_owned(),
                description: "Combine multiple arithmetic operations into a single operation".to_owned(),
                pattern: vec![NodeType::Arithmetic, NodeType::Arithmetic],
                replacement: vec![NodeType::Arithmetic],
                gas_savings: 3,
                implementation: "Use compound assignment operators (e.g., a += b instead of a = a + b)".to_owned(),
            },
        );
        optimization_rules.push(
            OptimizationRule {
                name: "Optimize Storage Access".to_owned(),
                description: "Cache frequently accessed storage values".to_owned(),
                pattern: vec![NodeType::State, NodeType::Logic, NodeType::State],
                replacement: vec![NodeType::State, NodeType::Logic],
                gas_savings: 100,
                implementation: "Store storage value in memory variable for multiple uses".to_owned(),
            },
        );
        optimization_rules.push(
            OptimizationRule {
                name: "Reduce External Calls".to_owned(),
                description: "Cache external call results to avoid repeated calls".to_owned(),
                pattern: vec![NodeType::External, NodeType::Logic, NodeType::External],
                replacement: vec![NodeType::External, NodeType::Logic],
                gas_savings: 2600,
                implementation: "Store external call result in state variable".to_owned(),
            },
        );
        optimization_rules.push(
            OptimizationRule {
                name: "Optimize Control Flow".to_owned(),
                description: "Simplify nested control structures".to_owned(),
                pattern: vec![NodeType::Control, NodeType::Control],
                replacement: vec![NodeType::Control],
                gas_savings: 1,
                implementation: "Combine multiple conditions into a single expression".to_owned(),
            },
        );
        proof {
            assert(optimization_rules@[0].pattern@ =~= seq![
                NodeType::Arithmetic,
                NodeType::Arithmetic,
            ]);
            assert(optimization_rules@[0].replacement@ =~= seq![NodeType::Arithmetic]);
            assert(optimization_rules@[1].pattern@ =~= seq![
                NodeType::State,
                NodeType::Logic,
                NodeType::State,
            ]);
            assert(optimization_rules@[1].replacement@ =~= seq![NodeType::State, NodeType::Logic]);
            assert(optimization_rules@[2].pattern@ =~= seq![
                NodeType::External,
                NodeType::Logic,
                NodeType::External,
            ]);
            assert(optimization_rules@[2].replacement@ =~= seq![
                NodeType::External,
                NodeType::Logic,
            ]);
            assert(optimization_rules@[3].pattern@ =~= seq![NodeType::Control, NodeType::Control]);
            assert(optimization_rules@[3].replacement@ =~= seq![NodeType::Control]);
        }
        OptimizationEngine {
            gas_costs: GasCostTable::new(),
            edge_cost: 10,
            optimization_rules,
            cache: Vec::new(),
        }
    }

    /// Estimate the gas a graph costs: the per-node base costs and
    /// surcharges, plus one constant per edge, saturating at the top.
    pub fn estimate_gas_usage(&self, g: &Graph) -> (r: u64)
        ensures
            r as int == gas_estimate_spec(
                self.gas_costs,
                self.edge_cost as int,
                sig_of(g.nodes@),
                g.edges@.len() as int,
            ),
    {
        let n = g.nodes.len();
        let mut acc: u64 = 0;
        let mut i: usize = 0;
        proof {
            assert(sig_of(g.nodes@.take(0)) =~= Seq::<(Seq<char>, NodeType)>::empty());
        }
        while i < n
            invariant
                n == g.nodes@.len(),
                0 <= i <= n,
                acc as int == cap64(sig_gas(self.gas_costs, sig_of(g.nodes@.take(i as int)))),
            decreases n - i,
        {
            let t = g.nodes[i].node_type;
            let cost = sat_add(self.gas_costs.cost_of(t), surcharge(t));
            proof {
                let s0 = sig_of(g.nodes@.take(i as int));
                let s1 = sig_of(g.nodes@.take(i + 1 as int));
                assert(s1.drop_last() =~= s0);
                assert(s1.last() == (g.nodes@[i as int].id@, g.nodes@[i as int].node_type));
                lemma_sig_gas_nonneg(self.gas_costs, s0);
                lemma_cap_add(sig_gas(self.gas_costs, s0), node_cost(self.gas_costs, t));
            }
            acc = sat_add(acc, cost);
            i = i + 1;
        }
        proof {
            assert(g.nodes@.take(n as int) =~= g.nodes@);
        }
        let edge_part = sat_mul(g.edges.len() as u64, self.edge_cost);
        proof {
            lemma_sig_gas_nonneg(self.gas_costs, sig_of(g.nodes@));
            assert((g.edges@.len() as int) * (self.edge_cost as int) >= 0) by (nonlinear_arith)
                requires
                    g.edges@.len() as int >= 0,
                    self.edge_cost as int >= 0,
            ;
            lemma_cap_add(
                sig_gas(self.gas_costs, sig_of(g.nodes@)),
                (g.edges@.len() as int) * (self.edge_cost as int),
            );
        }
        sat_add(acc, edge_part)
    }
}


impl OptimizationEngine {
    /// Does the window match the node types at offset `i`?
    fn sig_window_here(g: &Graph, w: &Vec<NodeType>, i: usize) -> (r: bool)
        requires
            i + w@.len() <= g.nodes@.len(),
        ensures
            r == sig_window_at(sig_of(g.nodes@), w@, i as int),
    {
        let n = g.nodes.len();
        let len = w.len();
        let mut j: usize = 0;
        while j < len
            invariant
                n == g.nodes@.len(),
                len == w@.len(),
                0 <= j <= len,
                i + len <= n,
                forall|j2: int|
                    0 <= j2 < j ==> #[trigger] sig_of(g.nodes@)[i + j2].1 == w@[j2],
            decreases len - j,
        {
            proof {
                assert(sig_of(g.nodes@)[i + j].1 == g.nodes@[i + j].node_type);
            }
            if !(g.nodes[i + j].node_type == w[j]) {
                return false;
            }
            j = j + 1;
        }
        true
    }

    /// The first offset at which the window matches, if any.
    fn find_first_window(g: &Graph, w: &Vec<NodeType>) -> (r: Option<usize>)
        requires
            w@.len() >= 1,
        ensures
            match r {
                Some(i) => i + w@.len() <= g.nodes@.len() && sig_first_window_at(
                    sig_of(g.nodes@),
                    w@,
                    i as int,
                ),
                None => !sig_window_found(sig_of(g.nodes@), w@),
            },
    {
        let n = g.nodes.len();
        let wlen = w.len();
        if n < wlen {
            proof {
                if sig_window_found(sig_of(g.nodes@), w@) {
                    let i = choose|i: int| sig_window_at(sig_of(g.nodes@), w@, i);
                }
            }
            return None;
        }
        let last = n - wlen + 1;
        let mut i: usize = 0;
        while i < last
            invariant
                n == g.nodes@.len(),
                wlen == w@.len(),
                wlen >= 1,
                n >= wlen,
                last == n - wlen + 1,
                0 <= i <= last,
                forall|i2: int| 0 <= i2 < i ==> !sig_window_at(sig_of(g.nodes@), w@, i2),
            decreases last - i,
        {
            if Self::sig_window_here(g, w, i) {
                return Some(i);
            }
            i = i + 1;
        }
        proof {
            if sig_window_found(sig_of(g.nodes@), w@) {
                let i2 = choose|i2: int| sig_window_at(sig_of(g.nodes@), w@, i2);
                assert(i2 < last);
            }
        }
        None
    }

    /// The ids of the `len` nodes starting at `i`.
    fn segment_ids(g: &Graph, i: usize, len: usize) -> (r: Vec<String>)
        requires
            i + len <= g.nodes@.len(),
        ensures
            sv(r@) == sig_segment_ids(sig_of(g.nodes@), i as int, len as int),
    {
        let n = g.nodes.len();
        let mut out: Vec<String> = Vec::new();
        let mut j: usize = 0;
        while j < len
            invariant
                n == g.nodes@.len(),
                i + len <= n,
                0 <= j <= len,
                out@.len() == j,
                forall|j2: int| 0 <= j2 < j ==> (#[trigger] out@[j2])@ == g.nodes@[i + j2].id@,
            decreases len - j,
        {
            out.push(g.nodes[i + j].id.clone());
            j = j + 1;
        }
        proof {
            assert(sv(out@) =~= sig_segment_ids(sig_of(g.nodes@), i as int, len as int));
        }
        out
    }

    /// The ids of the nodes of the given type, in node-list order.
    fn type_ids(g: &Graph, t: NodeType) -> (r: Vec<String>)
        ensures
            sv(r@) == sig_type_ids(sig_of(g.nodes@), t),
    {
        let ghost s = sig_of(g.nodes@);
        let mut out: Vec<String> = Vec::new();
        let n = g.nodes.len();
        let mut i: usize = 0;
        proof {
            assert(s.take(0).filter(sig_type_pred(t)) =~= Seq::<(Seq<char>, NodeType)>::empty());
        }
        while i < n
            invariant
                s == sig_of(g.nodes@),
                n == g.nodes@.len(),
                n == s.len(),
                0 <= i <= n,
                sv(out@) == s.take(i as int).filter(sig_type_pred(t)).map_values(sig_id_fn()),
            decreases n - i,
        {
            proof {
                assert(s.take(i + 1 as int).drop_last() == s.take(i as int));
                reveal(Seq::filter);
                assert(s[i as int] == (g.nodes@[i as int].id@, g.nodes@[i as int].node_type));
                assert(sig_type_pred(t)(s[i as int]) == (g.nodes@[i as int].node_type == t));
            }
            if g.nodes[i].node_type == t {
                let ghost out0 = out@;
                out.push(g.nodes[i].id.clone());
                proof {
                    let pred = sig_type_pred(t);
                    let f0 = s.take(i as int).filter(pred);
                    let f1 = s.take(i + 1 as int).filter(pred);
                    assert(f1 == f0.push(s[i as int]));
                    assert(sv(out@) =~= sv(out0).push(g.nodes@[i as int].id@));
                    assert(f1.map_values(sig_id_fn()) =~= f0.map_values(sig_id_fn()).push(
                        s[i as int].0,
                    ));
                    assert(sv(out@) =~= f1.map_values(sig_id_fn()));
                }
            }
            i = i + 1;
        }
        proof {
            assert(s.take(n as int) =~= s);
        }
        out
    }

    /// Count the nodes of the given type.
    fn type_count(g: &Graph, t: NodeType) -> (r: usize)
        ensures
            r as int == sig_count(sig_of(g.nodes@), t),
    {
        let ghost s = sig_of(g.nodes@);
        let n = g.nodes.len();
        let mut count: usize = 0;
        let mut i: usize = 0;
        proof {
            assert(s.take(0).filter(sig_type_pred(t)) =~= Seq::<(Seq<char>, NodeType)>::empty());
        }
        while i < n
            invariant
                s == sig_of(g.nodes@),
                n == g.nodes@.len(),
                n == s.len(),
                0 <= i <= n,
                count <= i,
                count == s.take(i as int).filter(sig_type_pred(t)).len(),
            decreases n - i,
        {
            proof {
                assert(s.take(i + 1 as int).drop_last() == s.take(i as int));
                reveal(Seq::filter);
                assert(s[i as int] == (g.nodes@[i as int].id@, g.nodes@[i as int].node_type));
            }
            if g.nodes[i].node_type == t {
                count = count + 1;
            }
            i = i + 1;
        }
        proof {
            assert(s.take(n as int) =~= s);
        }
        count
    }

    /// Build the suggestion list and its saturated total saving.
    fn generate_with_savings(&self, g: &Graph) -> (r: (Vec<OptimizationSuggestion>, u64))
        requires
            rules_wf(self.optimization_rules@),
        ensures
            suggestions_post(self.optimization_rules@, sig_of(g.nodes@), r.0@),
            r.1 as int == cap64(expected_savings(self.optimization_rules@, sig_of(g.nodes@))),
    {
        let ghost s = sig_of(g.nodes@);
        let mut out: Vec<OptimizationSuggestion> = Vec::new();
        let mut savings: u64 = 0;
        let n = self.optimization_rules.len();
        let mut i: usize = 0;
        proof {
            assert(self.optimization_rules@.take(0).filter(rule_fired_pred(s))
                =~= Seq::<OptimizationRule>::empty());
        }
        while i < n
            invariant
                s == sig_of(g.nodes@),
                rules_wf(self.optimization_rules@),
                n == self.optimization_rules@.len(),
                0 <= i <= n,
                out@.len() == self.optimization_rules@.take(i as int).filter(
                    rule_fired_pred(s),
                ).len(),
                forall|j: int|
                    0 <= j < out@.len() ==> os_rule_matches(
                        #[trigger] out@[j],
                        s,
                        self.optimization_rules@.take(i as int).filter(rule_fired_pred(s))[j],
                    ),
                savings as int == cap64(rules_savings(
                    self.optimization_rules@.take(i as int).filter(rule_fired_pred(s)),
                )),
            decreases n - i,
        {
            proof {
                assert(self.optimization_rules@.take(i + 1 as int).drop_last()
                    == self.optimization_rules@.take(i as int));
                reveal(Seq::filter);
                assert(1 <= self.optimization_rules@[i as int].pattern@.len() <= 3);
            }
            let found = Self::find_first_window(g, &self.optimization_rules[i].pattern);
            let ghost fired = found is Some;
            match found {
                Some(w0) => {
                    let nodes = Self::segment_ids(g, w0, self.optimization_rules[i].pattern.len());
                    let sugg = OptimizationSuggestion {
                        title: self.optimization_rules[i].name.clone(),
                        description: self.optimization_rules[i].description.clone(),
                        estimated_gas_savings: self.optimization_rules[i].gas_savings,
                        nodes,
                        implementation: self.optimization_rules[i].implementation.clone(),
                    };
                    proof {
                        assert(os_rule_matches(sugg, s, self.optimization_rules@[i as int]));
                    }
                    out.push(sugg);
                    let ghost f0 = self.optimization_rules@.take(i as int).filter(
                        rule_fired_pred(s),
                    );
                    proof {
                        lemma_rules_savings_nonneg(f0);
                        lemma_cap_add(
                            rules_savings(f0),
                            self.optimization_rules@[i as int].gas_savings as int,
                        );
                    }
                    savings = sat_add(savings, self.optimization_rules[i].gas_savings);
                },
                None => {
                },
            }
            proof {
                let pred = rule_fired_pred(s);
                assert(pred(self.optimization_rules@[i as int]) == fired);
                let f0 = self.optimization_rules@.take(i as int).filter(pred);
                let f1 = self.optimization_rules@.take(i + 1 as int).filter(pred);
                if fired {
                    assert(f1 == f0.push(self.optimization_rules@[i as int]));
                    assert(f1.drop_last() =~= f0);
                    assert(rules_savings(f1) == rules_savings(f0)
                        + self.optimization_rules@[i as int].gas_savings as int);
                    assert forall|j: int| 0 <= j < out@.len() implies os_rule_matches(
                        #[trigger] out@[j],
                        s,
                        f1[j],
                    ) by {
                        if j < out@.len() - 1 {
                            assert(out@[j] == out@.drop_last()[j]);
                            assert(f1[j] == f0[j]);
                        } else {
                            assert(f1[j] == self.optimization_rules@[i as int]);
                        }
                    }
                } else {
                    assert(f1 == f0);
                }
            }
            i = i + 1;
        }
        proof {
            assert(self.optimization_rules@.take(n as int) =~= self.optimization_rules@);
        }
        let ghost fired_all = self.optimization_rules@.filter(rule_fired_pred(s));
        let ghost base = fired_all.len() as int;

        let state_count = Self::type_count(g, NodeType::State);
        let state_fired = state_count > 5;
        if state_fired {
            let save = sat_mul((state_count - 5) as u64, 5000);
            proof {
                lemma_rules_savings_nonneg(fired_all);
                assert((state_count - 5) as int * 5000 >= 0) by (nonlinear_arith)
                    requires
                        state_count >= 5,
                ;
                lemma_cap_add(rules_savings(fired_all), (sig_count(s, NodeType::State) - 5) * 5000);
            }
            savings = sat_add(savings, save);
            let nodes = Self::type_ids(g, NodeType::State);
            out.push(
                OptimizationSuggestion {
                    title: "Reduce State Operations".to_owned(),
                    description: "Consider batching state operations to reduce gas costs".to_owned(),
                    estimated_gas_savings: save,
                    nodes,
                    implementation: "Batch multiple state updates into a single operation".to_owned(),
                },
            );
            proof {
                assert(os_state_matches(out@[base], s));
            }
        }
        let ghost c1 = base + b2i(state_fires(s));
        let ghost savings_c1 = rules_savings(fired_all) + (if state_fires(s) {
            state_savings(s)
        } else {
            0int
        });

        let external_count = Self::type_count(g, NodeType::External);
        let external_fired = external_count > 3;
        if external_fired {
            let save = sat_mul((external_count - 3) as u64, 1000);
            proof {
                lemma_rules_savings_nonneg(fired_all);
                assert((external_count - 3) as int * 1000 >= 0) by (nonlinear_arith)
                    requires
                        external_count >= 3,
                ;
                lemma_cap_add(savings_c1, (sig_count(s, NodeType::External) - 3) * 1000);
            }
            savings = sat_add(savings, save);
            let nodes = Self::type_ids(g, NodeType::External);
            out.push(
                OptimizationSuggestion {
                    title: "Optimize External Calls".to_owned(),
                    description: "Consider caching external call results".to_owned(),
                    estimated_gas_savings: save,
                    nodes,
                    implementation: "Cache external call results in state variables".to_owned(),
                },
            );
            proof {
                assert(out@[c1].title@ == "Optimize External Calls"@);
                assert(os_external_matches(out@[c1], s));
            }
        }
        let ghost c2 = c1 + b2i(external_fires(s));
        let ghost savings_c2 = savings_c1 + (if external_fires(s) {
            external_savings(s)
        } else {
            0int
        });

        let arithmetic_count = Self::type_count(g, NodeType::Arithmetic);
        let arithmetic_fired = arithmetic_count > 10;
        if arithmetic_fired {
            let save = sat_mul(arithmetic_count as u64, 10);
            proof {
                lemma_rules_savings_nonneg(fired_all);
                assert(arithmetic_count as int * 10 >= 0) by (nonlinear_arith)
                    requires
                        arithmetic_count >= 0,
                ;
                lemma_cap_add(savings_c2, sig_count(s, NodeType::Arithmetic) * 10);
            }
            savings = sat_add(savings, save);
            let nodes = Self::type_ids(g, NodeType::Arithmetic);
            out.push(
                OptimizationSuggestion {
                    title: "Optimize Arithmetic Operations".to_owned(),
                    description: "Consider using bit shifting for power-of-2 operations".to_owned(),
                    estimated_gas_savings: save,
                    nodes,
                    implementation: "Replace multiplication/division by powers of 2 with bit shifts".to_owned(),
                },
            );
            proof {
                assert(os_arithmetic_matches(out@[c2], s));
            }
        }
        proof {
            assert(suggestions_post(self.optimization_rules@, s, out@));
        }
        (out, savings)
    }

    /// Build the suggestion list for a graph.
    pub fn generate_optimization_suggestions(&self, g: &Graph) -> (r: Vec<OptimizationSuggestion>)
        requires
            engine_ok(*self),
        ensures
            suggestions_post(self.optimization_rules@, sig_of(g.nodes@), r@),
    {
        let (out, _savings) = self.generate_with_savings(g);
        out
    }

    /// Optimize a graph: estimate its gas, gather the suggestions and the
    /// saturated total saving, and discount. The result is a function of
    /// the graph's structural signature alone; the cache only shortcuts
    /// the recomputation.
    pub fn optimize(&mut self, g: &Graph) -> (r: OptimizationResult)
        requires
            engine_ok(*old(self)),
        ensures
            engine_ok(*final(self)),
            final(self).gas_costs == old(self).gas_costs,
            final(self).edge_cost == old(self).edge_cost,
            final(self).optimization_rules@ == old(self).optimization_rules@,
            or_post(
                old(self).gas_costs,
                old(self).edge_cost as int,
                old(self).optimization_rules@,
                sig_of(g.nodes@),
                g.edges@.len() as int,
                r,
            ),
    {
        let sig = build_sig(g);
        let edge_count = g.edges.len() as u64;
        let h = graph_hash(&sig, edge_count);
        let clen = self.cache.len();
        let mut k: usize = 0;
        while k < clen
            invariant
                engine_ok(*self),
                self == old(self),
                clen == self.cache@.len(),
                0 <= k <= clen,
                sv_sig(sig@) == sig_of(g.nodes@),
                edge_count as int == g.edges@.len() as int,
            decreases clen - k,
        {
            if self.cache[k].hash == h && self.cache[k].edge_count == edge_count {
                if sig_equal(&self.cache[k].sig, &sig) {
                    let res = self.cache[k].result.clone();
                    proof {
                        assert(or_post(
                            self.gas_costs,
                            self.edge_cost as int,
                            self.optimization_rules@,
                            sv_sig(self.cache@[k as int].sig@),
                            self.cache@[k as int].edge_count as int,
                            self.cache@[k as int].result,
                        ));
                        lemma_or_post_eqv(
                            self.gas_costs,
                            self.edge_cost as int,
                            self.optimization_rules@,
                            sig_of(g.nodes@),
                            g.edges@.len() as int,
                            self.cache@[k as int].result,
                            res,
                        );
                    }
                    return res;
                }
            }
            k = k + 1;
        }
        let original = self.estimate_gas_usage(g);
        let (suggestions, savings) = self.generate_with_savings(g);
        let optimized = if savings > original {
            0
        } else {
            original - savings
        };
        let result = OptimizationResult {
            original_gas_estimate: original,
            optimized_gas_estimate: optimized,
            gas_savings: savings,
            suggestions,
            modified_graph: None,
        };
        proof {
            assert(or_post(
                self.gas_costs,
                self.edge_cost as int,
                self.optimization_rules@,
                sig_of(g.nodes@),
                g.edges@.len() as int,
                result,
            ));
        }
        let stored = result.clone();
        proof {
            lemma_or_post_eqv(
                self.gas_costs,
                self.edge_cost as int,
                self.optimization_rules@,
                sig_of(g.nodes@),
                g.edges@.len() as int,
                result,
                stored,
            );
        }
        let entry = CacheEntry { hash: h, sig, edge_count, result: stored };
        let ghost cache0 = self.cache@;
        self.cache.push(entry);
        proof {
            assert forall|i: int| 0 <= i < self.cache@.len() implies or_post(
                self.gas_costs,
                self.edge_cost as int,
                self.optimization_rules@,
                sv_sig((#[trigger] self.cache@[i]).sig@),
                self.cache@[i].edge_count as int,
                self.cache@[i].result,
            ) by {
                if i < cache0.len() {
                    assert(self.cache@[i] == cache0[i]);
                }
            }
        }
        result
    }

    /// Drop every cached result. Entries otherwise persist for the life of
    /// the engine.
    pub fn clear_cache(&mut self)
        requires
            engine_ok(*old(self)),
        ensures
            engine_ok(*final(self)),
            final(self).gas_costs == old(self).gas_costs,
            final(self).edge_cost == old(self).edge_cost,
            final(self).optimization_rules@ == old(self).optimization_rules@,
            final(self).cache@.len() == 0,
    {
        self.cache.clear();
    }
}

} // verus!
