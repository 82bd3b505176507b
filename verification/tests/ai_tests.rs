use canvas_contracts::ai::{AiAssistant, NodeSuggestion, OptimizationResult, PatternAnalysis, ValidationResult};
use canvas_contracts::config::Config;
use canvas_contracts::types::{Edge, Graph, Node, NodeType};

fn plain_node(id: &str, node_type: NodeType, x: i64, y: i64) -> Node {
    Node { id: id.to_string(), node_type, position: (x, y), properties: Default::default() }
}

fn plain_edge(id: &str, source: &str, target: &str) -> Edge {
    Edge {
        id: id.to_string(),
        source: source.to_string(),
        target: target.to_string(),
        source_handle: None,
        target_handle: None,
    }
}

#[test]
fn test_ai_assistant_creation() {
    let config = Config::default();
    let ai = AiAssistant::new(&config);
    assert!(ai.is_ok());
}

#[test]
fn test_pattern_recognition() {
    let config = Config::default();
    let ai = AiAssistant::new(&config).unwrap();

    let mut graph = Graph::new();
    graph.add_node(plain_node("start", NodeType::Start, 100, 100));
    graph.add_node(plain_node("balance", NodeType::State, 200, 100));
    graph.add_node(plain_node("transfer", NodeType::Logic, 300, 100));
    graph.add_node(plain_node("event", NodeType::External, 400, 100));

    graph.add_edge(plain_edge("edge1", "start", "balance"));
    graph.add_edge(plain_edge("edge2", "balance", "transfer"));
    graph.add_edge(plain_edge("edge3", "transfer", "event"));

    let result = ai.analyze_patterns(&graph);
    assert!(result.is_ok());

    let analysis: PatternAnalysis = result.unwrap();
    assert!(!analysis.patterns_found.is_empty());
}

#[test]
fn ai_tests_test_contract_validation() {
    let config = Config::default();
    let ai = AiAssistant::new(&config).unwrap();

    let mut graph = Graph::new();
    graph.add_node(plain_node("start", NodeType::Start, 100, 100));
    graph.add_node(plain_node("end", NodeType::End, 200, 100));
    graph.add_edge(plain_edge("edge1", "start", "end"));

    let result = ai.validate_contract(&graph);
    assert!(result.is_ok());

    let validation: ValidationResult = result.unwrap();
    assert!(validation.is_valid);
}

#[test]
fn ai_tests_test_contract_optimization() {
    let config = Config::default();
    let mut ai = AiAssistant::new(&config).unwrap();

    let mut graph = Graph::new();
    graph.add_node(plain_node("start", NodeType::Start, 100, 100));
    graph.add_node(plain_node("add1", NodeType::Arithmetic, 200, 100));
    graph.add_node(plain_node("add2", NodeType::Arithmetic, 300, 100));
    graph.add_node(plain_node("end", NodeType::End, 400, 100));

    graph.add_edge(plain_edge("edge1", "start", "add1"));
    graph.add_edge(plain_edge("edge2", "add1", "add2"));
    graph.add_edge(plain_edge("edge3", "add2", "end"));

    let result = ai.optimize_contract(&graph);
    assert!(result.is_ok());

    let optimization: OptimizationResult = result.unwrap();
    assert!(optimization.original_gas_estimate > 0);
    assert!(optimization.gas_savings >= 0);
}

#[test]
fn test_node_suggestions() {
    let config = Config::default();
    let ai = AiAssistant::new(&config).unwrap();

    let mut graph = Graph::new();
    graph.add_node(plain_node("start", NodeType::Start, 100, 100));
    graph.add_node(plain_node("logic", NodeType::Logic, 200, 100));

    let suggestions = ai.suggest_next_nodes(&graph, "logic".to_string());
    assert!(suggestions.is_ok());

    let suggestions: Vec<NodeSuggestion> = suggestions.unwrap();
    assert!(!suggestions.is_empty());
}

#[test]
fn test_security_issue_detection() {
    let config = Config::default();
    let ai = AiAssistant::new(&config).unwrap();

    let mut graph = Graph::new();
    graph.add_node(plain_node("start", NodeType::Start, 100, 100));
    graph.add_node(plain_node("external", NodeType::External, 200, 100));
    graph.add_node(plain_node("state", NodeType::State, 300, 100));

    graph.add_edge(plain_edge("edge1", "start", "external"));
    graph.add_edge(plain_edge("edge2", "external", "state"));

    let result = ai.analyze_patterns(&graph);
    assert!(result.is_ok());

    let analysis = result.unwrap();
    assert!(!analysis.security_issues.is_empty() || !analysis.anti_patterns.is_empty());
}

#[test]
fn test_anti_pattern_detection() {
    let config = Config::default();
    let ai = AiAssistant::new(&config).unwrap();

    let mut graph = Graph::new();
    graph.add_node(plain_node("start", NodeType::Start, 100, 100));
    graph.add_node(plain_node("arithmetic", NodeType::Arithmetic, 200, 100));
    graph.add_node(plain_node("state", NodeType::State, 300, 100));

    graph.add_edge(plain_edge("edge1", "start", "arithmetic"));
    graph.add_edge(plain_edge("edge2", "arithmetic", "state"));

    let result = ai.analyze_patterns(&graph);
    assert!(result.is_ok());

    let analysis = result.unwrap();
    assert!(!analysis.anti_patterns.is_empty());
}

#[test]
fn mod_test_ai_assistant_creation() {
    let config = Config::default();
    let assistant = AiAssistant::new(&config);
    assert!(assistant.is_ok());
}

#[test]
fn test_pattern_analysis() {
    let config = Config::default();
    let assistant = AiAssistant::new(&config).unwrap();

    let graph = Graph::new();
    let analysis = assistant.analyze_patterns(&graph);
    assert!(analysis.is_ok());

    let analysis = analysis.unwrap();
    assert!(analysis.suggestions.is_empty());
}

#[test]
fn mod_test_contract_validation() {
    let config = Config::default();
    let assistant = AiAssistant::new(&config).unwrap();

    // An empty graph misses its Start and End node, so the validator
    // reports it invalid with a cardinality error.
    let graph = Graph::new();
    let validation = assistant.validate_contract(&graph);
    assert!(validation.is_ok());

    let validation = validation.unwrap();
    assert!(!validation.is_valid);
    assert_eq!(validation.errors.len(), 1);
    assert_eq!(
        validation.errors[0].message,
        "Start and End Nodes: expected 1 start and 1 end, found 0 start and 0 end"
    );
}

#[test]
fn mod_test_contract_optimization() {
    let config = Config::default();
    let mut assistant = AiAssistant::new(&config).unwrap();

    // An empty graph costs nothing: no nodes, no edges.
    let graph = Graph::new();
    let optimization = assistant.optimize_contract(&graph);
    assert!(optimization.is_ok());

    let optimization = optimization.unwrap();
    assert_eq!(optimization.original_gas_estimate, 0);
}
