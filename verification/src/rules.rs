//! The structural validator: five validation rules (cycles, reachability,
//! required inputs, start/end cardinality, complexity) and three security
//! rules (reentrancy, access control, arithmetic safety), each evaluated
//! over the whole graph. A failing rule contributes one finding; validity
//! is decided by the error-class findings alone.

use vstd::prelude::*;
use vstd::string::StringExecFns;

use crate::text::{spec_decimal, u64_to_string};
use crate::traversal::{
    count_nodes_of_type, count_type, find_missing_inputs, find_unreachable_nodes,
    has_connection_between, has_cycle, has_cycles, has_type_adjacency, missing_input_ids_spec,
    unreachable_ids_spec,
};
use crate::types::{Graph, NodeType};
use crate::validator::{findings_match, result_consistent, Finding, ValidationResult};

verus! {

/// Largest node count the complexity rule accepts without a warning.
pub const DEFAULT_MAX_REASONABLE_NODES: u64 = 50;

/// State-node count above which the access-control heuristic fires.
pub const ACCESS_CONTROL_STATE_LIMIT: u64 = 3;

pub open spec fn msg_cycles() -> Seq<char> {
    "No Cycles: contract contains cycles which may cause infinite loops"@
}

pub open spec fn msg_unreachable(n: int) -> Seq<char> {
    "No Unreachable Nodes: found "@ + spec_decimal(n) + " unreachable nodes"@
}

pub open spec fn msg_missing(n: int) -> Seq<char> {
    "All Inputs Connected: found "@ + spec_decimal(n) + " nodes with missing inputs"@
}

pub open spec fn msg_cardinality(s: int, e: int) -> Seq<char> {
    "Start and End Nodes: expected 1 start and 1 end, found "@ + spec_decimal(s)
        + " start and "@ + spec_decimal(e) + " end"@
}

pub open spec fn msg_complexity(n: int) -> Seq<char> {
    "Reasonable Complexity: contract has "@ + spec_decimal(n)
        + " nodes (consider breaking into smaller contracts)"@
}

pub open spec fn msg_reentrancy() -> Seq<char> {
    "CRITICAL: SECURITY: Reentrancy Protection - potential reentrancy vulnerability detected (CVE: CVE-2016-10709)"@
}

pub open spec fn msg_access_control() -> Seq<char> {
    "SECURITY: Access Control - missing access controls on state modifications"@
}

pub open spec fn msg_arithmetic() -> Seq<char> {
    "SECURITY: Arithmetic Safety - unchecked arithmetic operations detected (CVE: CVE-2018-10299)"@
}

/// Exactly one Start node and exactly one End node.
pub open spec fn cardinality_ok(g: Graph) -> bool {
    count_type(g.nodes@, NodeType::Start) == 1 && count_type(g.nodes@, NodeType::End) == 1
}

/// Some edge joins an External node to a State node: the reentrancy shape.
pub open spec fn reentrancy_shape(g: Graph) -> bool {
    has_type_adjacency(g.nodes@, g.edges@, NodeType::External, NodeType::State)
}

/// Some edge joins an Arithmetic node to a State node: an arithmetic
/// result is stored without a check.
pub open spec fn unchecked_arithmetic_shape(g: Graph) -> bool {
    has_type_adjacency(g.nodes@, g.edges@, NodeType::Arithmetic, NodeType::State)
}

/// More State nodes than the access-control heuristic tolerates.
pub open spec fn access_control_suspect(g: Graph) -> bool {
    count_type(g.nodes@, NodeType::State) > ACCESS_CONTROL_STATE_LIMIT
}

/// The error-class rules all pass: no cycle, no starved node, exactly one
/// Start and one End, and no reentrancy shape.
pub open spec fn error_rules_pass(g: Graph) -> bool {
    &&& !has_cycle(g.edges@)
    &&& missing_input_ids_spec(g).len() == 0
    &&& cardinality_ok(g)
    &&& !reentrancy_shape(g)
}

/// The findings the error bucket owes, in rule order.
pub open spec fn expected_errors(g: Graph) -> Seq<(Seq<char>, Seq<String>)> {
    (if has_cycle(g.edges@) {
        seq![(msg_cycles(), Seq::<String>::empty())]
    } else {
        Seq::<(Seq<char>, Seq<String>)>::empty()
    }) + (if missing_input_ids_spec(g).len() > 0 {
        seq![(msg_missing(missing_input_ids_spec(g).len() as int), missing_input_ids_spec(g))]
    } else {
        Seq::<(Seq<char>, Seq<String>)>::empty()
    }) + (if !cardinality_ok(g) {
        seq![
            (
                msg_cardinality(
                    count_type(g.nodes@, NodeType::Start),
                    count_type(g.nodes@, NodeType::End),
                ),
                Seq::<String>::empty(),
            ),
        ]
    } else {
        Seq::<(Seq<char>, Seq<String>)>::empty()
    }) + (if reentrancy_shape(g) {
        seq![(msg_reentrancy(), Seq::<String>::empty())]
    } else {
        Seq::<(Seq<char>, Seq<String>)>::empty()
    })
}

/// The findings the warning bucket owes, in rule order.
pub open spec fn expected_warnings(g: Graph, max_nodes: int) -> Seq<(Seq<char>, Seq<String>)> {
    (if unreachable_ids_spec(g).len() > 0 {
        seq![(msg_unreachable(unreachable_ids_spec(g).len() as int), unreachable_ids_spec(g))]
    } else {
        Seq::<(Seq<char>, Seq<String>)>::empty()
    }) + (if g.nodes@.len() > max_nodes {
        seq![(msg_complexity(g.nodes@.len() as int), Seq::<String>::empty())]
    } else {
        Seq::<(Seq<char>, Seq<String>)>::empty()
    }) + (if access_control_suspect(g) {
        seq![(msg_access_control(), Seq::<String>::empty())]
    } else {
        Seq::<(Seq<char>, Seq<String>)>::empty()
    }) + (if unchecked_arithmetic_shape(g) {
        seq![(msg_arithmetic(), Seq::<String>::empty())]
    } else {
        Seq::<(Seq<char>, Seq<String>)>::empty()
    })
}

fn unreachable_message(n: u64) -> (r: String)
    ensures
        r@ == msg_unreachable(n as int),
{
    let mut m = "No Unreachable Nodes: found ".to_owned();
    m.append(u64_to_string(n).as_str());
    m.append(" unreachable nodes");
    proof {
        assert(m@ =~= msg_unreachable(n as int));
    }
    m
}

fn missing_message(n: u64) -> (r: String)
    ensures
        r@ == msg_missing(n as int),
{
    let mut m = "All Inputs Connected: found ".to_owned();
    m.append(u64_to_string(n).as_str());
    m.append(" nodes with missing inputs");
    proof {
        assert(m@ =~= msg_missing(n as int));
    }
    m
}

fn cardinality_message(s: u64, e: u64) -> (r: String)
    ensures
        r@ == msg_cardinality(s as int, e as int),
{
    let mut m = "Start and End Nodes: expected 1 start and 1 end, found ".to_owned();
    m.append(u64_to_string(s).as_str());
    m.append(" start and ");
    m.append(u64_to_string(e).as_str());
    m.append(" end");
    proof {
        assert(m@ =~= msg_cardinality(s as int, e as int));
    }
    m
}

fn complexity_message(n: u64) -> (r: String)
    ensures
        r@ == msg_complexity(n as int),
{
    let mut m = "Reasonable Complexity: contract has ".to_owned();
    m.append(u64_to_string(n).as_str());
    m.append(" nodes (consider breaking into smaller contracts)");
    proof {
        assert(m@ =~= msg_complexity(n as int));
    }
    m
}

/// Rule-based validator for contract structure and security.
pub struct RuleBasedValidator {
    pub max_reasonable_nodes: u64,
}

impl RuleBasedValidator {
    /// A validator with the default complexity ceiling.
    pub fn new() -> (r: RuleBasedValidator)
        ensures
            r.max_reasonable_nodes == DEFAULT_MAX_REASONABLE_NODES,
    {
        RuleBasedValidator { max_reasonable_nodes: DEFAULT_MAX_REASONABLE_NODES }
    }

    /// Evaluate every rule over the graph. The error bucket holds exactly
    /// the failing error-class rules' findings, the warning bucket the
    /// failing warning-class rules' findings, both in rule order, and the
    /// result is valid exactly when no error-class rule failed.
    #[verifier::rlimit(50)]
    pub fn validate(&self, g: &Graph) -> (r: ValidationResult)
        ensures
            r.is_valid == error_rules_pass(*g),
            result_consistent(r),
            findings_match(r.errors@, expected_errors(*g)),
            findings_match(r.warnings@, expected_warnings(*g, self.max_reasonable_nodes as int)),
            r.info@.len() == 0,
    {
        let mut errors: Vec<Finding> = Vec::new();
        let mut warnings: Vec<Finding> = Vec::new();

        let cyclic = has_cycles(g);
        if cyclic {
            errors.push(
                Finding {
                    message: "No Cycles: contract contains cycles which may cause infinite loops".to_owned(),
                    affected_nodes: Vec::new(),
                },
            );
        }

        let missing = find_missing_inputs(g);
        let missing_len = missing.len();
        if missing_len > 0 {
            errors.push(
                Finding { message: missing_message(missing_len as u64), affected_nodes: missing },
            );
        }

        let starts = count_nodes_of_type(g, NodeType::Start);
        let ends = count_nodes_of_type(g, NodeType::End);
        let card_ok = starts == 1 && ends == 1;
        if !card_ok {
            errors.push(
                Finding {
                    message: cardinality_message(starts as u64, ends as u64),
                    affected_nodes: Vec::new(),
                },
            );
        }

        let reentrant = has_connection_between(g, NodeType::External, NodeType::State);
        if reentrant {
            errors.push(
                Finding {
                    message: "CRITICAL: SECURITY: Reentrancy Protection - potential reentrancy vulnerability detected (CVE: CVE-2016-10709)".to_owned(),
                    affected_nodes: Vec::new(),
                },
            );
        }

        let unreachable = find_unreachable_nodes(g);
        let unreachable_len = unreachable.len();
        if unreachable_len > 0 {
            warnings.push(
                Finding {
                    message: unreachable_message(unreachable_len as u64),
                    affected_nodes: unreachable,
                },
            );
        }

        let node_count = g.nodes.len();
        if node_count as u64 > self.max_reasonable_nodes {
            warnings.push(
                Finding {
                    message: complexity_message(node_count as u64),
                    affected_nodes: Vec::new(),
                },
            );
        }

        let state_count = count_nodes_of_type(g, NodeType::State);
        if state_count as u64 > ACCESS_CONTROL_STATE_LIMIT {
            warnings.push(
                Finding {
                    message: "SECURITY: Access Control - missing access controls on state modifications".to_owned(),
                    affected_nodes: Vec::new(),
                },
            );
        }

        let unchecked = has_connection_between(g, NodeType::Arithmetic, NodeType::State);
        if unchecked {
            warnings.push(
                Finding {
                    message: "SECURITY: Arithmetic Safety - unchecked arithmetic operations detected (CVE: CVE-2018-10299)".to_owned(),
                    affected_nodes: Vec::new(),
                },
            );
        }

        let is_valid = errors.len() == 0;
        proof {
            reveal_strlit("No Cycles: contract contains cycles which may cause infinite loops");
            reveal_strlit(
                "CRITICAL: SECURITY: Reentrancy Protection - potential reentrancy vulnerability detected (CVE: CVE-2016-10709)",
            );
            reveal_strlit(
                "SECURITY: Access Control - missing access controls on state modifications",
            );
            reveal_strlit(
                "SECURITY: Arithmetic Safety - unchecked arithmetic operations detected (CVE: CVE-2018-10299)",
            );
            assert(findings_match(errors@, expected_errors(*g)));
            assert(findings_match(
                warnings@,
                expected_warnings(*g, self.max_reasonable_nodes as int),
            ));
        }
        ValidationResult { is_valid, errors, warnings, info: Vec::new() }
    }
}

} // verus!
