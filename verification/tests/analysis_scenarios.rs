use canvas_contracts::ai::{AiAssistant, Severity};
use canvas_contracts::config::Config;
use canvas_contracts::error::CanvasError;
use canvas_contracts::optimization::{GasCostTable, OptimizationEngine};
use canvas_contracts::pattern_recognition::{PatternCategory, PatternDefinition, PatternRecognitionEngine};
use canvas_contracts::rules::RuleBasedValidator;
use canvas_contracts::nodes::NodeFactory;
use canvas_contracts::traversal::{count_incoming, find_missing_inputs, find_unreachable_nodes, has_cycles};
use canvas_contracts::types::{Edge, Graph, Node, NodeType};

fn plain_node(id: &str, node_type: NodeType) -> Node {
    Node { id: id.to_string(), node_type, position: (0, 0), properties: Default::default() }
}

fn plain_edge(id: &str, source: &str, target: &str) -> Edge {
    Edge {
        id: id.to_string(),
        source: source.to_string(),
        target: target.to_string(),
        source_handle: None,
        target_handle: None,
    }
}

#[test]
fn scenario_token_pattern_fires() {
    let config = Config::default();
    let ai = AiAssistant::new(&config).unwrap();

    let mut graph = Graph::new();
    graph.add_node(plain_node("start", NodeType::Start));
    graph.add_node(plain_node("balance", NodeType::State));
    graph.add_node(plain_node("transfer", NodeType::Logic));
    graph.add_node(plain_node("event", NodeType::External));
    graph.add_edge(plain_edge("e1", "start", "balance"));
    graph.add_edge(plain_edge("e2", "balance", "transfer"));
    graph.add_edge(plain_edge("e3", "transfer", "event"));

    let analysis = ai.analyze_patterns(&graph).unwrap();
    assert_eq!(analysis.patterns_found.len(), 1);
    let token = &analysis.patterns_found[0];
    assert_eq!(token.name, "ERC-20 Token");
    // every criterion met: confidence is 5 out of 5, at least three fifths
    assert_eq!(token.confidence.matched, 5);
    assert_eq!(token.confidence.total, 5);
    assert!(token.confidence.matched * 5 >= 3 * token.confidence.total);
    // the membership set: every node whose type appears in the sequence
    assert_eq!(token.nodes, vec!["balance".to_string(), "transfer".to_string(), "event".to_string()]);
}

#[test]
fn scenario_reentrancy_fires_critical() {
    let config = Config::default();
    let ai = AiAssistant::new(&config).unwrap();

    // The edge runs External -> State while the node list order is
    // State, External: only the adjacency rule can see it.
    let mut graph = Graph::new();
    graph.add_node(plain_node("vault", NodeType::State));
    graph.add_node(plain_node("oracle", NodeType::External));
    graph.add_edge(plain_edge("e1", "oracle", "vault"));

    let analysis = ai.analyze_patterns(&graph).unwrap();
    let reentrancy: Vec<_> = analysis
        .security_issues
        .iter()
        .filter(|s| s.name == "Reentrancy Attack")
        .collect();
    assert_eq!(reentrancy.len(), 1);
    assert_eq!(reentrancy[0].severity, Severity::Critical);
    assert_eq!(reentrancy[0].cve_reference, Some("CVE-2016-10709".to_string()));
    // the window-based anti-pattern cannot fire on this node order
    assert!(analysis.anti_patterns.iter().all(|a| a.name != "Reentrancy Risk"));
}

#[test]
fn scenario_reduce_state_operations() {
    let mut engine = OptimizationEngine::new();
    let mut graph = Graph::new();
    for i in 0..6 {
        graph.add_node(plain_node(&format!("s{}", i), NodeType::State));
    }
    let result = engine.optimize(&graph);
    assert_eq!(result.suggestions.len(), 1);
    assert_eq!(result.suggestions[0].title, "Reduce State Operations");
    assert_eq!(result.gas_savings, 5000);
    assert_eq!(result.original_gas_estimate, 6 * 40000);
    assert_eq!(result.optimized_gas_estimate, 6 * 40000 - 5000);
}

#[test]
fn scenario_start_without_end() {
    let validator = RuleBasedValidator::new();
    let mut graph = Graph::new();
    graph.add_node(plain_node("start", NodeType::Start));
    let result = validator.validate(&graph);
    assert!(!result.is_valid);
    assert_eq!(result.errors.len(), 1);
    assert_eq!(
        result.errors[0].message,
        "Start and End Nodes: expected 1 start and 1 end, found 1 start and 0 end"
    );
}

#[test]
fn scenario_empty_graph() {
    let engine = OptimizationEngine::new();
    let graph = Graph::new();
    assert_eq!(engine.estimate_gas_usage(&graph), 0);

    let validator = RuleBasedValidator::new();
    let result = validator.validate(&graph);
    assert!(!result.is_valid);
    // the cardinality error is present, and nothing else fires
    assert_eq!(result.errors.len(), 1);
    assert_eq!(
        result.errors[0].message,
        "Start and End Nodes: expected 1 start and 1 end, found 0 start and 0 end"
    );
    assert_eq!(result.warnings.len(), 0);
}

#[test]
fn test_edge_cycle_detected() {
    let mut graph = Graph::new();
    graph.add_node(plain_node("a", NodeType::Logic));
    graph.add_node(plain_node("b", NodeType::Logic));
    graph.add_edge(plain_edge("e1", "a", "b"));
    graph.add_edge(plain_edge("e2", "b", "a"));
    assert!(has_cycles(&graph));

    // reversing the node list does not change the verdict
    let mut reversed = Graph::new();
    reversed.add_node(plain_node("b", NodeType::Logic));
    reversed.add_node(plain_node("a", NodeType::Logic));
    reversed.add_edge(plain_edge("e1", "a", "b"));
    reversed.add_edge(plain_edge("e2", "b", "a"));
    assert!(has_cycles(&reversed));

    let mut acyclic = Graph::new();
    acyclic.add_node(plain_node("a", NodeType::Logic));
    acyclic.add_node(plain_node("b", NodeType::Logic));
    acyclic.add_edge(plain_edge("e1", "a", "b"));
    assert!(!has_cycles(&acyclic));
}

#[test]
fn test_unreachable_listed_once() {
    let mut graph = Graph::new();
    graph.add_node(plain_node("start", NodeType::Start));
    graph.add_node(plain_node("a", NodeType::Logic));
    graph.add_node(plain_node("orphan", NodeType::State));
    graph.add_edge(plain_edge("e1", "start", "a"));
    let unreachable = find_unreachable_nodes(&graph);
    assert_eq!(unreachable, vec!["orphan".to_string()]);
}

#[test]
fn test_missing_inputs_by_degree_table() {
    let mut graph = Graph::new();
    graph.add_node(plain_node("start", NodeType::Start));
    graph.add_node(plain_node("gate", NodeType::Logic));
    graph.add_edge(plain_edge("e1", "start", "gate"));
    // Logic wants two incoming edges; it has one
    assert_eq!(find_missing_inputs(&graph), vec!["gate".to_string()]);
    assert_eq!(count_incoming(&graph, &"gate".to_string()), 1);

    graph.add_node(plain_node("aux", NodeType::Start));
    graph.add_edge(plain_edge("e2", "aux", "gate"));
    assert_eq!(find_missing_inputs(&graph), Vec::<String>::new());
}

#[test]
fn test_estimate_gas_componentwise() {
    let engine = OptimizationEngine::new();
    let mut graph = Graph::new();
    graph.add_node(plain_node("start", NodeType::Start));
    graph.add_node(plain_node("vault", NodeType::State));
    graph.add_edge(plain_edge("e1", "start", "vault"));
    graph.add_edge(plain_edge("e2", "start", "vault"));
    // Start costs nothing, the State node costs its base plus the storage
    // surcharge, and each edge costs ten.
    assert_eq!(engine.estimate_gas_usage(&graph), 20000 + 20000 + 2 * 10);

    // one more State node moves the estimate by exactly the per-State cost
    graph.add_node(plain_node("vault2", NodeType::State));
    assert_eq!(engine.estimate_gas_usage(&graph), 2 * (20000 + 20000) + 2 * 10);
}

#[test]
fn test_optimize_twice_identical() {
    let mut engine = OptimizationEngine::new();
    let mut graph = Graph::new();
    graph.add_node(plain_node("a1", NodeType::Arithmetic));
    graph.add_node(plain_node("a2", NodeType::Arithmetic));
    graph.add_edge(plain_edge("e1", "a1", "a2"));

    let first = engine.optimize(&graph);
    let second = engine.optimize(&graph);
    assert_eq!(first, second);

    // clearing the cache forces a recomputation with the same outcome
    engine.clear_cache();
    let third = engine.optimize(&graph);
    assert_eq!(first, third);
}

#[test]
fn test_batch_arithmetic_rule() {
    let mut engine = OptimizationEngine::new();
    let mut graph = Graph::new();
    graph.add_node(plain_node("a1", NodeType::Arithmetic));
    graph.add_node(plain_node("a2", NodeType::Arithmetic));
    let result = engine.optimize(&graph);
    assert_eq!(result.suggestions.len(), 1);
    assert_eq!(result.suggestions[0].title, "Batch Arithmetic Operations");
    assert_eq!(result.suggestions[0].estimated_gas_savings, 3);
    // the first matching window's members
    assert_eq!(result.suggestions[0].nodes, vec!["a1".to_string(), "a2".to_string()]);
    assert_eq!(result.gas_savings, 3);
}

#[test]
fn test_voting_pattern_at_threshold_not_reported() {
    let config = Config::default();
    let ai = AiAssistant::new(&config).unwrap();

    // State and Logic present and connected, Control absent: the voting
    // score is exactly three fifths, and the threshold is strict.
    let mut graph = Graph::new();
    graph.add_node(plain_node("vault", NodeType::State));
    graph.add_node(plain_node("tally", NodeType::Logic));
    graph.add_edge(plain_edge("e1", "vault", "tally"));

    let analysis = ai.analyze_patterns(&graph).unwrap();
    assert!(analysis.patterns_found.iter().all(|p| p.name != "Voting Mechanism"));
}

#[test]
fn test_complexity_warning_message() {
    let validator = RuleBasedValidator::new();
    let mut graph = Graph::new();
    graph.add_node(plain_node("start", NodeType::Start));
    graph.add_node(plain_node("end", NodeType::End));
    graph.add_edge(plain_edge("e", "start", "end"));
    for i in 0..49 {
        let id = format!("c{}", i);
        graph.add_node(plain_node(&id, NodeType::Control));
        graph.add_edge(plain_edge(&format!("ec{}", i), "start", &id));
    }
    // 51 nodes in all: one over the default ceiling
    let result = validator.validate(&graph);
    let complexity: Vec<_> = result
        .warnings
        .iter()
        .filter(|w| w.message.starts_with("Reasonable Complexity"))
        .collect();
    assert_eq!(complexity.len(), 1);
    assert_eq!(
        complexity[0].message,
        "Reasonable Complexity: contract has 51 nodes (consider breaking into smaller contracts)"
    );
}

#[test]
fn test_error_variants() {
    let unknown = NodeFactory::create_node(&"Bogus".to_string(), &Vec::new());
    assert!(matches!(unknown, Err(CanvasError::Node(_))));

    let mut bad_config = Config::default();
    bad_config.compiler.optimization_level = 9;
    assert!(matches!(bad_config.validate(), Err(CanvasError::Config(_))));
    assert!(AiAssistant::new(&bad_config).is_err());
}

#[test]
fn test_unreachable_warning_lists_nodes() {
    let validator = RuleBasedValidator::new();
    let mut graph = Graph::new();
    graph.add_node(plain_node("start", NodeType::Start));
    graph.add_node(plain_node("end", NodeType::End));
    graph.add_node(plain_node("lost", NodeType::Control));
    graph.add_edge(plain_edge("e1", "start", "end"));
    graph.add_edge(plain_edge("e2", "end", "lost"));
    // "lost" is reachable through end; detach it instead
    let mut detached = Graph::new();
    detached.add_node(plain_node("start", NodeType::Start));
    detached.add_node(plain_node("end", NodeType::End));
    detached.add_node(plain_node("lost", NodeType::Control));
    detached.add_edge(plain_edge("e1", "start", "end"));
    let result = validator.validate(&detached);
    let unreachable: Vec<_> = result
        .warnings
        .iter()
        .filter(|w| w.message.starts_with("No Unreachable Nodes"))
        .collect();
    assert_eq!(unreachable.len(), 1);
    assert_eq!(unreachable[0].message, "No Unreachable Nodes: found 1 unreachable nodes");
    assert_eq!(unreachable[0].affected_nodes, vec!["lost".to_string()]);
}

#[test]
fn test_unmet_criterion_lowers_confidence() {
    let engine = PatternRecognitionEngine::new();

    let mut graph = Graph::new();
    graph.add_node(plain_node("vault", NodeType::State));
    graph.add_node(plain_node("rule", NodeType::Logic));
    graph.add_edge(plain_edge("e1", "vault", "rule"));

    let base = PatternDefinition {
        name: "probe".to_string(),
        category: PatternCategory::Custom,
        description: "probe".to_string(),
        node_sequence: vec![NodeType::State, NodeType::Logic],
        required_connections: vec![(NodeType::State, NodeType::Logic)],
        optional_nodes: Vec::new(),
    };
    let extended = PatternDefinition {
        name: "probe".to_string(),
        category: PatternCategory::Custom,
        description: "probe".to_string(),
        node_sequence: vec![NodeType::State, NodeType::Logic],
        required_connections: vec![
            (NodeType::State, NodeType::Logic),
            (NodeType::External, NodeType::State),
        ],
        optional_nodes: Vec::new(),
    };

    let c1 = engine.match_pattern(&graph, &base).unwrap();
    let c2 = engine.match_pattern(&graph, &extended).unwrap();
    assert_eq!(c1.matched, 3);
    assert_eq!(c1.total, 3);
    assert_eq!(c2.matched, 3);
    assert_eq!(c2.total, 4);
    // the extended score is no higher: cross-multiplied comparison
    assert!(c2.matched * c1.total <= c1.matched * c2.total);
}

#[test]
fn test_estimate_saturates_at_the_top() {
    let mut engine = OptimizationEngine::new();
    engine.gas_costs = GasCostTable { state: u64::MAX, ..GasCostTable::new() };
    let mut graph = Graph::new();
    graph.add_node(plain_node("s1", NodeType::State));
    graph.add_node(plain_node("s2", NodeType::State));
    assert_eq!(engine.estimate_gas_usage(&graph), u64::MAX);
}
