use canvas_contracts::types::{Port, ValueType};
use canvas_contracts::validator::ValidationResult;
use canvas_contracts::visual::{Connection, ContractValidator, Position, VisualGraph, VisualNode};

#[test]
fn test_validation_result() {
    let mut result = ValidationResult::new();
    assert!(result.is_valid);

    result = result.with_error("Test error".to_string());
    assert!(!result.is_valid);
    assert_eq!(result.errors.len(), 1);

    result = result.with_warning("Test warning".to_string());
    assert_eq!(result.warnings.len(), 1);
}

#[test]
fn validator_test_validator_creation() {
    let validator = ContractValidator::new();
    assert!(validator.validate(&VisualGraph::new("test".to_string())).is_ok());
}

#[test]
fn test_duplicate_visual_ids_rejected() {
    let mut graph = VisualGraph::new("dup".to_string());
    graph.add_node(VisualNode::new("a".to_string(), "Logic".to_string(), Position::new(0, 0)));
    graph.add_node(VisualNode::new("a".to_string(), "State".to_string(), Position::new(1, 1)));
    let validator = ContractValidator::new();
    let result = validator.validate(&graph).unwrap();
    assert!(!result.is_valid);
}

#[test]
fn test_dangling_connection_rejected() {
    let mut graph = VisualGraph::new("dangling".to_string());
    graph.add_node(VisualNode::new("a".to_string(), "Logic".to_string(), Position::new(0, 0)));
    graph.add_connection(Connection::new(
        "c1".to_string(),
        "a".to_string(),
        "out".to_string(),
        "missing".to_string(),
        "in".to_string(),
    ));
    let validator = ContractValidator::new();
    let result = validator.validate(&graph).unwrap();
    assert!(!result.is_valid);
}

#[test]
fn test_compatible_ports_accepted() {
    let mut graph = VisualGraph::new("ports".to_string());
    let a = VisualNode::new("a".to_string(), "Logic".to_string(), Position::new(0, 0))
        .with_outputs(vec![Port::new("o".to_string(), "out".to_string(), ValueType::Integer)]);
    let b = VisualNode::new("b".to_string(), "State".to_string(), Position::new(1, 0))
        .with_inputs(vec![Port::new("i".to_string(), "in".to_string(), ValueType::Any)]);
    graph.add_node(a);
    graph.add_node(b);
    graph.add_connection(Connection::new(
        "c1".to_string(),
        "a".to_string(),
        "out".to_string(),
        "b".to_string(),
        "in".to_string(),
    ));
    let validator = ContractValidator::new();
    let result = validator.validate(&graph).unwrap();
    assert!(result.is_valid);
}

#[test]
fn test_malformed_port_type_rejected() {
    let mut graph = VisualGraph::new("ports".to_string());
    let malformed = ValueType::Object(vec![
        ("amount".to_string(), ValueType::Integer),
        ("amount".to_string(), ValueType::Integer),
    ]);
    let a = VisualNode::new("a".to_string(), "Logic".to_string(), Position::new(0, 0))
        .with_outputs(vec![Port::new("o".to_string(), "out".to_string(), malformed)]);
    graph.add_node(a);
    let validator = ContractValidator::new();
    let result = validator.validate(&graph).unwrap();
    assert!(!result.is_valid);
    assert_eq!(result.errors.len(), 1);
    assert_eq!(result.errors[0].message, "a port carries a malformed value type");
}
