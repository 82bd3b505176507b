use canvas_contracts::sdk::GraphBuilder;
use canvas_contracts::types::NodeType;

#[test]
fn test_graph_builder() {
    let graph = GraphBuilder::new()
        .add_node(NodeType::Start, (0, 0))
        .add_node(NodeType::Logic, (100, 0))
        .add_node(NodeType::End, (200, 0))
        .connect("node_0", "node_1")
        .connect("node_1", "node_2")
        .build();

    assert_eq!(graph.get_nodes().len(), 3);
    assert_eq!(graph.get_edges().len(), 2);
}

#[test]
fn test_graph_builder_ids() {
    let graph = GraphBuilder::new()
        .add_node(NodeType::Start, (0, 0))
        .add_node(NodeType::End, (10, 10))
        .build();
    assert_eq!(graph.get_nodes()[0].id, "node_0");
    assert_eq!(graph.get_nodes()[1].id, "node_1");
}
