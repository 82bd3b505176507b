//! The library's general guarantees, stated and proved once over the spec
//! functions the public contracts use: validity tracks the error findings
//! exactly, an edge cycle is always reported, unreachable nodes are listed
//! exactly once, extra unmet pattern criteria never raise confidence, the
//! gas estimate is the componentwise sum, and optimization results are a
//! function of the graph's structure alone.

use vstd::prelude::*;

use crate::optimization::{
    b2i, cap64, external_fires, gas_estimate_spec, node_cost, or_post, os_arithmetic_matches,
    os_external_matches, os_rule_matches, os_state_matches, rule_fired_pred, sig_first_window_at,
    sig_gas, sig_segment_ids, sig_window_at, state_fires, sv, GasCostTable, OptimizationResult,
    OptimizationRule,
};
use crate::pattern_recognition::{
    count_connected, lemma_pattern_matched_bounds, pattern_matched, pattern_total,
    PatternDefinition,
};
use crate::rules::{error_rules_pass, expected_errors};
use crate::traversal::{
    edge_connects, has_cycle, has_type_adjacency, is_cycle, node_id_fn, not_reachable_pred,
    reachable, unreachable_ids_spec,
};
use crate::types::{Graph, Node, NodeType};
use crate::validator::{findings_match, result_consistent, ValidationResult};

verus! {

/// A validation result is valid exactly when no error-class finding was
/// produced, and an error-class finding is produced exactly when some
/// error-class rule fails.
pub proof fn law_valid_iff_no_error_finding(g: Graph, r: ValidationResult)
    requires
        r.is_valid == error_rules_pass(g),
        result_consistent(r),
        findings_match(r.errors@, expected_errors(g)),
    ensures
        r.is_valid <==> r.errors@.len() == 0,
        r.errors@.len() == 0 <==> error_rules_pass(g),
{
    if error_rules_pass(g) {
        assert(expected_errors(g).len() == 0);
    } else {
        assert(expected_errors(g).len() > 0);
    }
}

/// A graph with a two-edge cycle between `a` and `b` always contains a
/// cycle; since the detector returns exactly cycle existence, it reports
/// this graph whatever order its traversal visits the vertices in.
pub proof fn law_edge_cycle_always_detected(g: Graph, a: Seq<char>, b: Seq<char>)
    requires
        edge_connects(g.edges@, a, b),
        edge_connects(g.edges@, b, a),
    ensures
        has_cycle(g.edges@),
{
    let c = seq![a, b];
    assert(c[0] == a && c[1] == b);
    assert(is_cycle(g.edges@, c));
}

/// Every member of a filtered sequence is a member of the source.
proof fn lemma_filter_members<A>(s: Seq<A>, pred: spec_fn(A) -> bool)
    ensures
        forall|i: int|
            0 <= i < s.filter(pred).len() ==> exists|j: int|
                0 <= j < s.len() && s[j] == #[trigger] s.filter(pred)[i],
    decreases s.len(),
{
    reveal(Seq::filter);
    if s.len() > 0 {
        lemma_filter_members(s.drop_last(), pred);
        let f0 = s.drop_last().filter(pred);
        let f = s.filter(pred);
        assert forall|i: int| 0 <= i < f.len() implies exists|j: int|
            0 <= j < s.len() && s[j] == #[trigger] f[i] by {
            if pred(s.last()) && i == f.len() - 1 {
                assert(s[s.len() - 1] == f[i]);
            } else {
                assert(f[i] == f0[i]);
                let j = choose|j: int| 0 <= j < s.drop_last().len() && s.drop_last()[j] == f0[i];
                assert(s[j] == f[i]);
            }
        }
    }
}

/// When node ids are pairwise distinct, so are the ids of any filtered
/// selection of the nodes.
proof fn lemma_filter_ids_distinct(nodes: Seq<Node>, pred: spec_fn(Node) -> bool)
    requires
        forall|i: int, j: int|
            0 <= i < j < nodes.len() ==> (#[trigger] nodes[i].id@) != (#[trigger] nodes[j].id@),
    ensures
        forall|i: int, j: int|
            0 <= i < j < nodes.filter(pred).len() ==> (#[trigger] nodes.filter(pred)[i].id@) != (
            #[trigger] nodes.filter(pred)[j].id@),
    decreases nodes.len(),
{
    reveal(Seq::filter);
    if nodes.len() > 0 {
        let prior = nodes.drop_last();
        lemma_filter_ids_distinct(prior, pred);
        lemma_filter_members(prior, pred);
        let f0 = prior.filter(pred);
        let f = nodes.filter(pred);
        assert forall|i: int, j: int| 0 <= i < j < f.len() implies (#[trigger] f[i].id@) != (
        #[trigger] f[j].id@) by {
            if pred(nodes.last()) && j == f.len() - 1 {
                assert(f[i] == f0[i]);
                let w = choose|w: int| 0 <= w < prior.len() && prior[w] == f0[i];
                assert(nodes[w] == f0[i]);
                assert(nodes[w].id@ != nodes[nodes.len() - 1].id@);
            } else {
                assert(f[i] == f0[i] && f[j] == f0[j]);
            }
        }
    }
}

/// The id belongs to some node that no walk from a Start node reaches.
pub open spec fn is_unreachable_node_id(g: Graph, x: Seq<char>) -> bool {
    exists|k: int|
        0 <= k < g.nodes@.len() && x == (#[trigger] g.nodes@[k]).id@ && !reachable(
            g.nodes@,
            g.edges@,
            g.nodes@[k].id@,
        )
}

/// When node ids are pairwise distinct, every unreachable node appears in
/// the unreachable list exactly once: the list holds no repeated id, every
/// unreachable node's id is on it, and everything on it is the id of an
/// unreachable node.
pub proof fn law_unreachable_listed_once(g: Graph)
    requires
        forall|i: int, j: int|
            0 <= i < j < g.nodes@.len() ==> (#[trigger] g.nodes@[i].id@) != (
            #[trigger] g.nodes@[j].id@),
    ensures
        forall|i: int, j: int|
            0 <= i < j < unreachable_ids_spec(g).len() ==> (#[trigger] unreachable_ids_spec(
                g,
            )[i]@) != (#[trigger] unreachable_ids_spec(g)[j]@),
        forall|k: int|
            0 <= k < g.nodes@.len() && !reachable(g.nodes@, g.edges@, g.nodes@[k].id@)
                ==> exists|t: int|
                0 <= t < unreachable_ids_spec(g).len() && (#[trigger] unreachable_ids_spec(
                    g,
                )[t])@ == g.nodes@[k].id@,
        forall|t: int|
            0 <= t < unreachable_ids_spec(g).len() ==> is_unreachable_node_id(
                g,
                (#[trigger] unreachable_ids_spec(g)[t])@,
            ),
    {
    let pred = not_reachable_pred(g);
    let f = g.nodes@.filter(pred);
    lemma_filter_ids_distinct(g.nodes@, pred);
    lemma_filter_members(g.nodes@, pred);
    assert(unreachable_ids_spec(g) == f.map_values(node_id_fn()));
    assert forall|k: int|
        0 <= k < g.nodes@.len() && !reachable(g.nodes@, g.edges@, g.nodes@[k].id@) implies exists|
        t: int,
    | 0 <= t < unreachable_ids_spec(g).len() && (#[trigger] unreachable_ids_spec(g)[t])@
        == g.nodes@[k].id@ by {
        g.nodes@.lemma_filter_contains(pred, k);
        let t = choose|t: int| 0 <= t < f.len() && f[t] == g.nodes@[k];
        assert(unreachable_ids_spec(g)[t] == g.nodes@[k].id);
    }
    assert forall|t: int| 0 <= t < unreachable_ids_spec(g).len() implies is_unreachable_node_id(
        g,
        (#[trigger] unreachable_ids_spec(g)[t])@,
    ) by {
        g.nodes@.lemma_filter_pred(pred, t);
        let k = choose|k: int| 0 <= k < g.nodes@.len() && g.nodes@[k] == f[t];
        assert(unreachable_ids_spec(g)[t] == f[t].id);
        assert(pred(f[t]));
        assert(!reachable(g.nodes@, g.edges@, f[t].id@));
        assert(0 <= k < g.nodes@.len() && f[t].id@ == g.nodes@[k].id@ && !reachable(
            g.nodes@,
            g.edges@,
            g.nodes@[k].id@,
        ));
        assert(is_unreachable_node_id(g, f[t].id@));
    }
}

/// Adding a still-missing required adjacency to a pattern's criteria keeps
/// the matched count and grows the total, so the confidence ratio cannot
/// increase: matched2 / total2 <= matched1 / total1, stated
/// cross-multiplied.
pub proof fn law_unmet_criterion_cannot_raise_confidence(
    g: Graph,
    d1: PatternDefinition,
    d2: PatternDefinition,
    a: NodeType,
    b: NodeType,
)
    requires
        d2.node_sequence@ == d1.node_sequence@,
        d2.required_connections@ == d1.required_connections@.push((a, b)),
        !has_type_adjacency(g.nodes@, g.edges@, a, b),
    ensures
        pattern_matched(g, d2) == pattern_matched(g, d1),
        pattern_total(d2) == pattern_total(d1) + 1,
        pattern_matched(g, d2) * pattern_total(d1) <= pattern_matched(g, d1) * pattern_total(d2),
{
    assert(d2.required_connections@.drop_last() =~= d1.required_connections@);
    assert(count_connected(g, d2.required_connections@) == count_connected(
        g,
        d1.required_connections@,
    ));
    lemma_pattern_matched_bounds(g, d1);
    let m = pattern_matched(g, d1);
    let t1 = pattern_total(d1);
    assert(m * t1 <= m * (t1 + 1)) by (nonlinear_arith)
        requires
            m >= 0,
    ;
}

/// The gas estimate is the componentwise sum: appending a node raises the
/// uncapped node total by exactly that node's base cost plus surcharge, and
/// one more edge raises the uncapped estimate by exactly the edge constant.
pub proof fn law_estimate_is_componentwise_sum(
    tb: GasCostTable,
    edge_cost: int,
    sig: Seq<(Seq<char>, NodeType)>,
    entry: (Seq<char>, NodeType),
    edge_count: int,
)
    ensures
        sig_gas(tb, sig.push(entry)) == sig_gas(tb, sig) + node_cost(tb, entry.1),
        sig_gas(tb, sig) + (edge_count + 1) * edge_cost == (sig_gas(tb, sig) + edge_count
            * edge_cost) + edge_cost,
{
    assert(sig.push(entry).drop_last() =~= sig);
    assert((edge_count + 1) * edge_cost == edge_count * edge_cost + edge_cost) by (nonlinear_arith);
}

/// Appending `delta` State nodes raises the uncapped node total by exactly
/// `delta` times the State cost: doubling the State nodes moves the
/// estimate by the per-State cost for each added node.
pub proof fn law_estimate_linear_in_state_nodes(
    tb: GasCostTable,
    sig: Seq<(Seq<char>, NodeType)>,
    added: Seq<(Seq<char>, NodeType)>,
)
    requires
        forall|i: int| 0 <= i < added.len() ==> (#[trigger] added[i]).1 == NodeType::State,
    ensures
        sig_gas(tb, sig + added) == sig_gas(tb, sig) + added.len() * node_cost(
            tb,
            NodeType::State,
        ),
    decreases added.len(),
{
    if added.len() == 0 {
        assert(sig + added =~= sig);
    } else {
        let prior = added.drop_last();
        law_estimate_linear_in_state_nodes(tb, sig, prior);
        assert((sig + added).drop_last() =~= sig + prior);
        assert((sig + added).last() == added.last());
        assert(added.len() * node_cost(tb, NodeType::State) == prior.len() * node_cost(
            tb,
            NodeType::State,
        ) + node_cost(tb, NodeType::State)) by (nonlinear_arith)
            requires
                added.len() == prior.len() + 1,
        ;
    }
}

/// Appending `added.len()` State nodes moves the whole estimate by exactly
/// the per-State cost for each added node, as long as the larger estimate
/// still fits in the gas word; at the cap the estimate pins to the maximum
/// instead. `estimate_gas_usage` returns exactly `gas_estimate_spec`, so
/// this carries to the executable estimate.
pub proof fn law_estimate_gas_linear_in_state(
    tb: GasCostTable,
    edge_cost: int,
    sig: Seq<(Seq<char>, NodeType)>,
    added: Seq<(Seq<char>, NodeType)>,
    edge_count: int,
)
    requires
        forall|i: int| 0 <= i < added.len() ==> (#[trigger] added[i]).1 == NodeType::State,
        edge_count >= 0,
        edge_cost >= 0,
        sig_gas(tb, sig + added) + edge_count * edge_cost <= u64::MAX,
    ensures
        gas_estimate_spec(tb, edge_cost, sig + added, edge_count) == gas_estimate_spec(
            tb,
            edge_cost,
            sig,
            edge_count,
        ) + added.len() * node_cost(tb, NodeType::State),
{
    law_estimate_linear_in_state_nodes(tb, sig, added);
    assert(added.len() * node_cost(tb, NodeType::State) >= 0) by (nonlinear_arith)
        requires
            added.len() >= 0,
            node_cost(tb, NodeType::State) >= 0,
    ;
    assert(edge_count * edge_cost >= 0) by (nonlinear_arith)
        requires
            edge_count >= 0,
            edge_cost >= 0,
    ;
    assert(cap64(sig_gas(tb, sig + added) + edge_count * edge_cost) == sig_gas(tb, sig + added)
        + edge_count * edge_cost);
    assert(cap64(sig_gas(tb, sig) + edge_count * edge_cost) == sig_gas(tb, sig) + edge_count
        * edge_cost);
}

/// Two optimization results computed for the same structural signature and
/// edge count agree on every observable: the estimate, the savings, the
/// discounted estimate, and every suggestion's texts, saving and node ids.
/// A repeated call on an unchanged graph therefore returns an identical
/// result, whether it was recomputed or served from the cache.
pub proof fn law_optimize_deterministic(
    tb: GasCostTable,
    edge_cost: int,
    rules: Seq<OptimizationRule>,
    sig: Seq<(Seq<char>, NodeType)>,
    edge_count: int,
    r1: OptimizationResult,
    r2: OptimizationResult,
)
    requires
        or_post(tb, edge_cost, rules, sig, edge_count, r1),
        or_post(tb, edge_cost, rules, sig, edge_count, r2),
    ensures
        r1.original_gas_estimate == r2.original_gas_estimate,
        r1.gas_savings == r2.gas_savings,
        r1.optimized_gas_estimate == r2.optimized_gas_estimate,
        r1.suggestions@.len() == r2.suggestions@.len(),
        forall|i: int|
            0 <= i < r1.suggestions@.len() ==> {
                &&& (#[trigger] r1.suggestions@[i]).title@ == r2.suggestions@[i].title@
                &&& r1.suggestions@[i].description@ == r2.suggestions@[i].description@
                &&& r1.suggestions@[i].estimated_gas_savings
                    == r2.suggestions@[i].estimated_gas_savings
                &&& sv(r1.suggestions@[i].nodes@) == sv(r2.suggestions@[i].nodes@)
                &&& r1.suggestions@[i].implementation@ == r2.suggestions@[i].implementation@
            },
        r1.modified_graph is None && r2.modified_graph is None,
{
    let fired = rules.filter(rule_fired_pred(sig));
    let base = fired.len() as int;
    let c1 = base + b2i(state_fires(sig));
    let c2 = c1 + b2i(external_fires(sig));
    assert forall|i: int| 0 <= i < r1.suggestions@.len() implies {
        &&& (#[trigger] r1.suggestions@[i]).title@ == r2.suggestions@[i].title@
        &&& r1.suggestions@[i].description@ == r2.suggestions@[i].description@
        &&& r1.suggestions@[i].estimated_gas_savings == r2.suggestions@[i].estimated_gas_savings
        &&& sv(r1.suggestions@[i].nodes@) == sv(r2.suggestions@[i].nodes@)
        &&& r1.suggestions@[i].implementation@ == r2.suggestions@[i].implementation@
    } by {
        if i < base {
            assert(os_rule_matches(r1.suggestions@[i], sig, fired[i]));
            assert(os_rule_matches(r2.suggestions@[i], sig, fired[i]));
            let w1 = choose|w: int|
                #[trigger] sig_first_window_at(sig, fired[i].pattern@, w) && sv(
                    r1.suggestions@[i].nodes@,
                ) == sig_segment_ids(sig, w, fired[i].pattern@.len() as int);
            let w2 = choose|w: int|
                #[trigger] sig_first_window_at(sig, fired[i].pattern@, w) && sv(
                    r2.suggestions@[i].nodes@,
                ) == sig_segment_ids(sig, w, fired[i].pattern@.len() as int);
            if w1 < w2 {
                assert(sig_window_at(sig, fired[i].pattern@, w1));
                assert(false);
            }
            if w2 < w1 {
                assert(sig_window_at(sig, fired[i].pattern@, w2));
                assert(false);
            }
            assert(w1 == w2);
        } else if state_fires(sig) && i == base {
            assert(os_state_matches(r1.suggestions@[i], sig));
            assert(os_state_matches(r2.suggestions@[i], sig));
        } else if external_fires(sig) && i == c1 {
            assert(os_external_matches(r1.suggestions@[i], sig));
            assert(os_external_matches(r2.suggestions@[i], sig));
        } else {
            assert(i == c2);
            assert(crate::optimization::arithmetic_fires(sig));
            assert(os_arithmetic_matches(r1.suggestions@[i], sig));
            assert(os_arithmetic_matches(r2.suggestions@[i], sig));
        }
    }
}

} // verus!
