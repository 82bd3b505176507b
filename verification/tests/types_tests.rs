use canvas_contracts::types::{ExecutionContext, ValueType};
use canvas_contracts::visual::{Position, VisualGraph, VisualNode};

#[test]
fn test_value_type_compatibility() {
    assert!(ValueType::Boolean.is_compatible_with(&ValueType::Boolean));
    assert!(ValueType::Any.is_compatible_with(&ValueType::Boolean));
    assert!(ValueType::Boolean.is_compatible_with(&ValueType::Any));
    assert!(!ValueType::Boolean.is_compatible_with(&ValueType::Integer));
}

#[test]
fn test_visual_graph_operations() {
    let mut graph = VisualGraph::new("test graph".to_string());
    let node = VisualNode::new("n1".to_string(), "test".to_string(), Position::new(0, 0));
    let node_id = node.id.clone();

    graph.add_node(node);
    assert!(graph.get_node(&node_id).is_some());
}

#[test]
fn test_execution_context_gas() {
    let mut context = ExecutionContext::new(1000);
    assert!(context.use_gas(500).is_ok());
    assert!(context.use_gas(600).is_err());
}

#[test]
fn test_array_and_object_compatibility() {
    let ints = ValueType::Array(Box::new(ValueType::Integer));
    let ints2 = ValueType::Array(Box::new(ValueType::Integer));
    let bools = ValueType::Array(Box::new(ValueType::Boolean));
    let anys = ValueType::Array(Box::new(ValueType::Any));
    assert!(ints.is_compatible_with(&ints2));
    assert!(!ints.is_compatible_with(&bools));
    assert!(ints.is_compatible_with(&anys));

    let obj_a = ValueType::Object(vec![
        ("amount".to_string(), ValueType::Integer),
        ("memo".to_string(), ValueType::String),
    ]);
    let obj_b = ValueType::Object(vec![
        ("memo".to_string(), ValueType::String),
        ("amount".to_string(), ValueType::Integer),
    ]);
    let obj_c = ValueType::Object(vec![("amount".to_string(), ValueType::Integer)]);
    assert!(obj_a.is_compatible_with(&obj_b));
    assert!(!obj_a.is_compatible_with(&obj_c));
    assert!(!ValueType::Flow.is_compatible_with(&ValueType::Boolean));
    assert!(ValueType::Flow.is_compatible_with(&ValueType::Flow));
}

#[test]
fn test_object_well_formedness() {
    let clean = ValueType::Object(vec![
        ("amount".to_string(), ValueType::Integer),
        ("memo".to_string(), ValueType::String),
    ]);
    assert!(clean.well_formed());

    let repeated = ValueType::Object(vec![
        ("amount".to_string(), ValueType::Integer),
        ("amount".to_string(), ValueType::Integer),
    ]);
    assert!(!repeated.well_formed());

    let nested = ValueType::Array(Box::new(repeated));
    assert!(!nested.well_formed());
    assert!(ValueType::Integer.well_formed());
}

#[test]
fn test_compatibility_symmetric_on_well_formed_values() {
    let pairs = vec![
        (ValueType::Any, ValueType::Flow),
        (ValueType::Boolean, ValueType::Integer),
        (
            ValueType::Array(Box::new(ValueType::Integer)),
            ValueType::Array(Box::new(ValueType::Any)),
        ),
        (
            ValueType::Object(vec![
                ("amount".to_string(), ValueType::Integer),
                ("memo".to_string(), ValueType::String),
            ]),
            ValueType::Object(vec![
                ("memo".to_string(), ValueType::String),
                ("amount".to_string(), ValueType::Any),
            ]),
        ),
        (
            ValueType::Object(vec![("amount".to_string(), ValueType::Integer)]),
            ValueType::Object(vec![("memo".to_string(), ValueType::String)]),
        ),
    ];
    for (a, b) in pairs.iter() {
        assert!(a.well_formed());
        assert!(b.well_formed());
        assert_eq!(a.is_compatible_with(b), b.is_compatible_with(a));
    }
}
