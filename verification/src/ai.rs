//! The analysis front door: one assistant that owns the pattern engine, the
//! rule-based validator and the optimization engine, and composes their
//! outputs into a single report.

use vstd::prelude::*;

use crate::config::Config;
use crate::error::CanvasResult;
pub use crate::optimization::{OptimizationEngine, OptimizationResult, OptimizationSuggestion};
use crate::optimization::{or_post, sig_of};
pub use crate::pattern_recognition::{
    AntiPattern, Confidence, ContractPattern, PatternCategory, PatternRecognitionEngine,
    SecurityIssue, Severity,
};
use crate::pattern_recognition::{
    ap_matches, cp_matches, engine_wf, fired_anti_pred, fired_sec_pred, reported_pred, si_matches,
};
pub use crate::rules::RuleBasedValidator;
use crate::rules::{error_rules_pass, expected_errors, expected_warnings};
use crate::types::{Graph, Node, NodeId, NodeType};
pub use crate::validator::ValidationResult;
use crate::validator::{findings_match, result_consistent};

verus! {

/// Pattern recognition result
#[derive(Debug, PartialEq)]
pub struct PatternAnalysis {
    pub patterns_found: Vec<ContractPattern>,
    pub anti_patterns: Vec<AntiPattern>,
    pub security_issues: Vec<SecurityIssue>,
    pub suggestions: Vec<String>,
}

/// Node context for suggestions
#[derive(Debug, PartialEq)]
pub struct NodeContext {
    pub node_type: NodeType,
    pub connected_nodes: Vec<NodeId>,
    pub input_types: Vec<String>,
    pub output_types: Vec<String>,
    pub execution_path: Vec<NodeId>,
}

/// Node suggestion
#[derive(Debug, PartialEq)]
pub struct NodeSuggestion {
    pub node_type: NodeType,
    pub name: String,
    pub description: String,
    pub confidence: Confidence,
}

/// The advisory texts a recognized category brings.
pub open spec fn category_suggestions(c: PatternCategory) -> Seq<Seq<char>> {
    match c {
        PatternCategory::Token => seq![
            "Consider adding transfer validation"@,
            "Add balance checking before transfers"@,
        ],
        PatternCategory::Voting => seq![
            "Add vote deadline checking"@,
            "Consider vote weight validation"@,
        ],
        PatternCategory::Escrow => seq![
            "Add timeout mechanism"@,
            "Consider dispute resolution"@,
        ],
        _ => Seq::<Seq<char>>::empty(),
    }
}

/// The advisory texts all recognized patterns bring, in order.
pub open spec fn pattern_suggestions(ps: Seq<ContractPattern>) -> Seq<Seq<char>>
    decreases ps.len(),
{
    if ps.len() == 0 {
        Seq::<Seq<char>>::empty()
    } else {
        pattern_suggestions(ps.drop_last()) + category_suggestions(ps.last().category)
    }
}

/// The anti-pattern findings' own suggestions, in order.
pub open spec fn anti_suggestions(aps: Seq<AntiPattern>) -> Seq<Seq<char>> {
    aps.map_values(|a: AntiPattern| a.suggestion@)
}

/// The views of a string list.
pub open spec fn strs_view(a: Seq<String>) -> Seq<Seq<char>> {
    a.map_values(|s: String| s@)
}

/// The engines an assistant owns are well-formed and the optimizer's cache
/// records only true outcomes.
pub open spec fn assistant_ok(a: AiAssistant) -> bool {
    &&& engine_wf(a.pattern_engine)
    &&& crate::optimization::engine_ok(a.optimizer)
}

/// AI assistant for analyzing and optimizing contracts: the orchestrator
/// over the pattern engine, the validator and the optimizer.
pub struct AiAssistant {
    pub config: Config,
    pub pattern_engine: PatternRecognitionEngine,
    pub validator: RuleBasedValidator,
    pub optimizer: OptimizationEngine,
}

impl AiAssistant {
    /// Create a new assistant over the given configuration. Construction
    /// succeeds exactly when the configuration passes its validity check.
    pub fn new(config: &Config) -> (r: CanvasResult<AiAssistant>)
        ensures
            r is Ok <==> crate::config::config_valid(*config),
            r matches Ok(a) ==> assistant_ok(a),
    {
        match config.validate() {
            Ok(()) => Ok(
                AiAssistant {
                    config: config.clone(),
                    pattern_engine: PatternRecognitionEngine::new(),
                    validator: RuleBasedValidator::new(),
                    optimizer: OptimizationEngine::new(),
                },
            ),
            Err(e) => Err(e),
        }
    }

    /// Analyze contract patterns: recognized templates, anti-patterns,
    /// security issues, and the advisory texts they bring.
    pub fn analyze_patterns(&self, g: &Graph) -> (r: CanvasResult<PatternAnalysis>)
        requires
            assistant_ok(*self),
        ensures
            r matches Ok(p) ==> {
                let e = self.pattern_engine;
                let reported = e.patterns@.filter(
                    reported_pred(*g, e.min_confidence_num as int, e.min_confidence_den as int),
                );
                &&& p.patterns_found@.len() == reported.len()
                &&& forall|i: int|
                    0 <= i < p.patterns_found@.len() ==> cp_matches(
                        #[trigger] p.patterns_found@[i],
                        *g,
                        reported[i],
                    )
                &&& p.anti_patterns@.len() == e.anti_patterns@.filter(fired_anti_pred(*g)).len()
                &&& forall|i: int|
                    0 <= i < p.anti_patterns@.len() ==> ap_matches(
                        #[trigger] p.anti_patterns@[i],
                        *g,
                        e.anti_patterns@.filter(fired_anti_pred(*g))[i],
                    )
                &&& p.security_issues@.len() == e.security_patterns@.filter(
                    fired_sec_pred(*g),
                ).len()
                &&& forall|i: int|
                    0 <= i < p.security_issues@.len() ==> si_matches(
                        #[trigger] p.security_issues@[i],
                        *g,
                        e.security_patterns@.filter(fired_sec_pred(*g))[i],
                    )
                &&& strs_view(p.suggestions@) == pattern_suggestions(p.patterns_found@)
                    + anti_suggestions(p.anti_patterns@)
            },
            r is Ok,
    {
        let patterns_found = self.pattern_engine.recognize_patterns(g);
        let anti_patterns = self.pattern_engine.detect_anti_patterns(g);
        let security_issues = self.pattern_engine.detect_security_issues(g);
        let suggestions = Self::generate_suggestions(&patterns_found, &anti_patterns);
        Ok(PatternAnalysis { patterns_found, anti_patterns, security_issues, suggestions })
    }

    /// The advisory texts: two fixed hints per recognized category, then
    /// every anti-pattern's own suggestion.
    fn generate_suggestions(patterns: &Vec<ContractPattern>, anti_patterns: &Vec<AntiPattern>) -> (r:
        Vec<String>)
        ensures
            strs_view(r@) == pattern_suggestions(patterns@) + anti_suggestions(anti_patterns@),
    {
        let mut out: Vec<String> = Vec::new();
        let n = patterns.len();
        let mut i: usize = 0;
        proof {
            assert(strs_view(out@) =~= pattern_suggestions(patterns@.take(0)));
        }
        while i < n
            invariant
                n == patterns@.len(),
                0 <= i <= n,
                strs_view(out@) == pattern_suggestions(patterns@.take(i as int)),
            decreases n - i,
        {
            let ghost out0 = out@;
            match patterns[i].category {
                PatternCategory::Token => {
                    out.push("Consider adding transfer validation".to_owned());
                    out.push("Add balance checking before transfers".to_owned());
                },
                PatternCategory::Voting => {
                    out.push("Add vote deadline checking".to_owned());
                    out.push("Consider vote weight validation".to_owned());
                },
                PatternCategory::Escrow => {
                    out.push("Add timeout mechanism".to_owned());
                    out.push("Consider dispute resolution".to_owned());
                },
                _ => {
                },
            }
            proof {
                assert(patterns@.take(i + 1 as int).drop_last() == patterns@.take(i as int));
                assert(patterns@.take(i + 1 as int).last() == patterns@[i as int]);
                assert(strs_view(out@) =~= strs_view(out0) + category_suggestions(
                    patterns@[i as int].category,
                ));
            }
            i = i + 1;
        }
        proof {
            assert(patterns@.take(n as int) =~= patterns@);
        }
        let m = anti_patterns.len();
        let mut k: usize = 0;
        proof {
            assert(anti_suggestions(anti_patterns@.take(0)) =~= Seq::<Seq<char>>::empty());
            assert(strs_view(out@) =~= pattern_suggestions(patterns@) + anti_suggestions(
                anti_patterns@.take(0),
            ));
        }
        while k < m
            invariant
                m == anti_patterns@.len(),
                0 <= k <= m,
                strs_view(out@) == pattern_suggestions(patterns@) + anti_suggestions(
                    anti_patterns@.take(k as int),
                ),
            decreases m - k,
        {
            let ghost out0 = out@;
            out.push(anti_patterns[k].suggestion.clone());
            proof {
                assert(strs_view(out@) =~= strs_view(out0).push(
                    anti_patterns@[k as int].suggestion@,
                ));
                assert(anti_suggestions(anti_patterns@.take(k + 1 as int)) =~= anti_suggestions(
                    anti_patterns@.take(k as int),
                ).push(anti_patterns@[k as int].suggestion@));
            }
            k = k + 1;
        }
        proof {
            assert(anti_patterns@.take(m as int) =~= anti_patterns@);
        }
        out
    }

    /// Validate contract structure through the rule-based validator.
    pub fn validate_contract(&self, g: &Graph) -> (r: CanvasResult<ValidationResult>)
        ensures
            r is Ok,
            r matches Ok(v) ==> {
                &&& v.is_valid == error_rules_pass(*g)
                &&& result_consistent(v)
                &&& findings_match(v.errors@, expected_errors(*g))
                &&& findings_match(
                    v.warnings@,
                    expected_warnings(*g, self.validator.max_reasonable_nodes as int),
                )
                &&& v.info@.len() == 0
            },
    {
        Ok(self.validator.validate(g))
    }

    /// Optimize contract for gas efficiency through the optimization
    /// engine; the outcome is a function of the graph's structure alone.
    pub fn optimize_contract(&mut self, g: &Graph) -> (r: CanvasResult<OptimizationResult>)
        requires
            assistant_ok(*old(self)),
        ensures
            assistant_ok(*final(self)),
            final(self).pattern_engine == old(self).pattern_engine,
            final(self).validator == old(self).validator,
            final(self).optimizer.gas_costs == old(self).optimizer.gas_costs,
            final(self).optimizer.edge_cost == old(self).optimizer.edge_cost,
            final(self).optimizer.optimization_rules@ == old(self).optimizer.optimization_rules@,
            r matches Ok(res) && or_post(
                old(self).optimizer.gas_costs,
                old(self).optimizer.edge_cost as int,
                old(self).optimizer.optimization_rules@,
                sig_of(g.nodes@),
                g.edges@.len() as int,
                res,
            ),
    {
        Ok(self.optimizer.optimize(g))
    }

    /// The context around a node: its type (Logic when the id is unknown,
    /// mirroring the engine's default assumption) and the ids its outgoing
    /// edges lead to.
    pub fn analyze_context(&self, g: &Graph, node_id: &NodeId) -> (r: CanvasResult<NodeContext>)
        ensures
            r matches Ok(c) ==> {
                &&& ((forall|i: int|
                    0 <= i < g.nodes@.len() ==> (#[trigger] g.nodes@[i].id@) != node_id@)
                    ==> c.node_type == NodeType::Logic)
                &&& c.input_types@.len() == 0
                &&& c.output_types@.len() == 0
                &&& c.execution_path@.len() == 0
            },
            r is Ok,
    {
        let node_type = match g.get_node(node_id) {
            Some(n) => n.node_type,
            None => NodeType::Logic,
        };
        let connected = g.outgoing_edges(node_id);
        let mut connected_nodes: Vec<NodeId> = Vec::new();
        let m = connected.len();
        let mut k: usize = 0;
        while k < m
            invariant
                m == connected@.len(),
                0 <= k <= m,
                connected_nodes@.len() == k,
            decreases m - k,
        {
            connected_nodes.push(connected[k].target.clone());
            k = k + 1;
        }
        Ok(
            NodeContext {
                node_type,
                connected_nodes,
                input_types: Vec::new(),
                output_types: Vec::new(),
                execution_path: Vec::new(),
            },
        )
    }

    /// Suggest follow-up nodes for the named node: after Logic, store the
    /// result or end the flow; after State, notify through an event.
    pub fn suggest_next_nodes(&self, g: &Graph, current_node: NodeId) -> (r: CanvasResult<
        Vec<NodeSuggestion>,
    >)
        ensures
            r is Ok,
    {
        let context = match self.analyze_context(g, &current_node) {
            Ok(c) => c,
            Err(e) => {
                return Err(e);
            },
        };
        self.generate_node_suggestions(&context)
    }

    /// The fixed follow-up table, keyed by the context's node type.
    fn generate_node_suggestions(&self, context: &NodeContext) -> (r: CanvasResult<
        Vec<NodeSuggestion>,
    >)
        ensures
            r matches Ok(ss) ==> match context.node_type {
                NodeType::Logic => ss@.len() == 2,
                NodeType::State => ss@.len() == 1,
                _ => ss@.len() == 0,
            },
            r is Ok,
    {
        let mut suggestions: Vec<NodeSuggestion> = Vec::new();
        match context.node_type {
            NodeType::Logic => {
                suggestions.push(
                    NodeSuggestion {
                        node_type: NodeType::State,
                        name: "Write Storage".to_owned(),
                        description: "Store the result of your logic".to_owned(),
                        confidence: Confidence { matched: 4, total: 5 },
                    },
                );
                suggestions.push(
                    NodeSuggestion {
                        node_type: NodeType::Control,
                        name: "End".to_owned(),
                        description: "End the execution flow".to_owned(),
                        confidence: Confidence { matched: 3, total: 5 },
                    },
                );
            },
            NodeType::State => {
                suggestions.push(
                    NodeSuggestion {
                        node_type: NodeType::External,
                        name: "Emit Event".to_owned(),
                        description: "Notify about state changes".to_owned(),
                        confidence: Confidence { matched: 7, total: 10 },
                    },
                );
            },
            _ => {
            },
        }
        Ok(suggestions)
    }
}

} // verus!
