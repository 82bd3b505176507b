use canvas_contracts::custom_nodes::{
    CustomNodeBuilder, CustomNodeImplementation, CustomNodeRegistry,
};

#[test]
fn test_custom_node_registry() {
    let mut registry = CustomNodeRegistry::new();

    let definition = CustomNodeBuilder::new("test-node".to_string(), "Test Node".to_string())
        .description("A test custom node".to_string())
        .category("Test".to_string())
        .input("input1".to_string(), "number".to_string(), true, "First input".to_string())
        .output("output1".to_string(), "number".to_string(), "First output".to_string())
        .composite("{}".to_string())
        .build();

    assert!(registry.register_node(definition).is_ok());
    assert!(registry.get_node(&"test-node".to_string()).is_some());
}

#[test]
fn test_duplicate_node_registration() {
    let mut registry = CustomNodeRegistry::new();

    let definition1 = CustomNodeBuilder::new("test-node".to_string(), "Test Node".to_string())
        .composite("{}".to_string())
        .build();

    let definition2 =
        CustomNodeBuilder::new("test-node".to_string(), "Another Test Node".to_string())
            .composite("{}".to_string())
            .build();

    assert!(registry.register_node(definition1).is_ok());
    assert!(registry.register_node(definition2).is_err());
}

#[test]
fn test_custom_node_registry_operations() {
    let mut registry = CustomNodeRegistry::new();

    let definition = CustomNodeBuilder::new(
        "test-custom-node".to_string(),
        "Test Custom Node".to_string(),
    )
    .description("A test custom node for testing".to_string())
    .category("Test".to_string())
    .input("input1".to_string(), "number".to_string(), true, "First input".to_string())
    .input("input2".to_string(), "string".to_string(), false, "Second input".to_string())
    .output("output1".to_string(), "boolean".to_string(), "First output".to_string())
    .property(
        "threshold".to_string(),
        "number".to_string(),
        true,
        Some("100".to_string()),
        "Threshold value".to_string(),
    )
    .composite(r#"{"nodes": [], "edges": []}"#.to_string())
    .build();

    assert!(registry.register_node(definition.clone()).is_ok());

    assert!(registry.get_node(&"test-custom-node".to_string()).is_some());
    assert_eq!(registry.list_nodes().len(), 1);

    let duplicate = definition.clone();
    assert!(registry.register_node(duplicate).is_err());

    assert!(registry.remove_node(&"test-custom-node".to_string()).is_ok());
    assert!(registry.get_node(&"test-custom-node".to_string()).is_none());
    assert_eq!(registry.list_nodes().len(), 0);
}

#[test]
fn test_custom_node_builder() {
    let definition = CustomNodeBuilder::new("builder-test".to_string(), "Builder Test Node".to_string())
        .description("Testing the builder pattern".to_string())
        .category("Builder".to_string())
        .input("x".to_string(), "number".to_string(), true, "X coordinate".to_string())
        .input("y".to_string(), "number".to_string(), true, "Y coordinate".to_string())
        .output("distance".to_string(), "number".to_string(), "Distance from origin".to_string())
        .property(
            "precision".to_string(),
            "number".to_string(),
            false,
            Some("2".to_string()),
            "Decimal precision".to_string(),
        )
        .script(
            "rust".to_string(),
            "fn calculate_distance(x: i64, y: i64) -> i64 { x * x + y * y }".to_string(),
        )
        .build();

    assert_eq!(definition.id, "builder-test");
    assert_eq!(definition.name, "Builder Test Node");
    assert_eq!(definition.description, "Testing the builder pattern");
    assert_eq!(definition.category, "Builder");
    assert_eq!(definition.inputs.len(), 2);
    assert_eq!(definition.outputs.len(), 1);
    assert_eq!(definition.properties.len(), 1);

    if let CustomNodeImplementation::Script { language, code } = &definition.implementation {
        assert_eq!(language, "rust");
        assert!(code.contains("calculate_distance"));
    } else {
        panic!("Expected script implementation");
    }
}

#[test]
fn test_custom_node_validation() {
    let mut registry = CustomNodeRegistry::new();

    let invalid_node = CustomNodeBuilder::new("".to_string(), "Invalid Node".to_string())
        .composite("{}".to_string())
        .build();

    assert!(registry.register_node(invalid_node).is_err());

    let invalid_node2 = CustomNodeBuilder::new("valid-id".to_string(), "".to_string())
        .composite("{}".to_string())
        .build();

    assert!(registry.register_node(invalid_node2).is_ok());

    let invalid_node3 = CustomNodeBuilder::new("test3".to_string(), "Test 3".to_string())
        .input("".to_string(), "number".to_string(), true, "Empty input".to_string())
        .composite("{}".to_string())
        .build();

    assert!(registry.register_node(invalid_node3).is_err());
}

#[test]
fn test_custom_node_categories() {
    let mut registry = CustomNodeRegistry::new();

    let categories = vec!["Logic", "Math", "Storage", "External", "Utility"];

    let mut i = 0;
    for category in categories.iter() {
        let definition = CustomNodeBuilder::new(format!("node-{}", i), format!("Node {}", i))
            .category(category.to_string())
            .composite("{}".to_string())
            .build();

        assert!(registry.register_node(definition).is_ok());
        i += 1;
    }

    let nodes = registry.list_nodes();
    assert_eq!(nodes.len(), categories.len());

    for (i, node) in nodes.iter().enumerate() {
        assert_eq!(node.category, categories[i]);
    }
}

#[test]
fn test_custom_node_property_validation() {
    let mut registry = CustomNodeRegistry::new();

    let definition = CustomNodeBuilder::new("test-props".to_string(), "Test Properties".to_string())
        .property(
            "required_prop".to_string(),
            "string".to_string(),
            true,
            None,
            "Required property".to_string(),
        )
        .property(
            "optional_prop".to_string(),
            "number".to_string(),
            false,
            Some("42".to_string()),
            "Optional property".to_string(),
        )
        .composite("{}".to_string())
        .build();

    assert!(registry.register_node(definition).is_ok());

    let node = registry.get_node(&"test-props".to_string()).unwrap();
    assert_eq!(node.properties.len(), 2);

    let required_prop = &node.properties[0];
    assert_eq!(required_prop.name, "required_prop");
    assert!(required_prop.required);
    assert_eq!(required_prop.default_value, None);

    let optional_prop = &node.properties[1];
    assert_eq!(optional_prop.name, "optional_prop");
    assert!(!optional_prop.required);
    assert_eq!(optional_prop.default_value, Some("42".to_string()));
}
