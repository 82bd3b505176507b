//! Developer-facing kit: the kit configuration, the graph builder with its
//! generated node ids, and the validation/optimization report shapes the
//! kit's extension points exchange.

use vstd::prelude::*;
use vstd::string::StringExecFns;

use crate::text::{spec_decimal, u64_to_string};
use crate::types::{Edge, Graph, Node, NodeType};

verus! {

/// Kit configuration
#[derive(Debug, Clone, PartialEq)]
pub struct SdkConfig {
    pub api_version: String,
    pub features: Vec<String>,
    pub debug_mode: bool,
    pub log_level: String,
    pub cache_enabled: bool,
    pub max_cache_size: usize,
}

/// Plugin capability
#[derive(Debug, Clone, Copy, PartialEq, Eq, Structural)]
pub enum PluginCapability {
    CustomNodes,
    Templates,
    Validators,
    Optimizers,
    Exporters,
    Importers,
    Visualizers,
}

/// Export format
#[derive(Debug, Clone, Copy, PartialEq, Eq, Structural)]
pub enum ExportFormat {
    Json,
    Yaml,
    Wasm,
    Wat,
    Graphviz,
    Mermaid,
}

/// Validation severity
#[derive(Debug, Clone, Copy, PartialEq, Eq, Structural)]
pub enum ValidationSeverity {
    Low,
    Medium,
    High,
    Critical,
}

/// Validation error
#[derive(Debug, PartialEq)]
pub struct ValidationError {
    pub message: String,
    pub severity: ValidationSeverity,
    pub location: Option<String>,
    pub code: Option<String>,
}

/// Validation warning
#[derive(Debug, PartialEq)]
pub struct ValidationWarning {
    pub message: String,
    pub severity: ValidationSeverity,
    pub location: Option<String>,
    pub suggestion: Option<String>,
}

/// Validation result exchanged with kit validators.
#[derive(Debug, PartialEq)]
pub struct ValidationResult {
    pub is_valid: bool,
    pub errors: Vec<ValidationError>,
    pub warnings: Vec<ValidationWarning>,
    pub suggestions: Vec<String>,
}

/// Optimization impact
#[derive(Debug, Clone, Copy, PartialEq, Eq, Structural)]
pub enum OptimizationImpact {
    Gas,
    Performance,
    Security,
    Maintainability,
}

/// Optimization improvement
#[derive(Debug, PartialEq)]
pub struct OptimizationImprovement {
    pub description: String,
    pub impact: OptimizationImpact,
    pub applied: bool,
}

/// Kit information
#[derive(Debug, PartialEq)]
pub struct SdkInfo {
    pub version: String,
    pub plugins_count: usize,
    pub exporters_count: usize,
    pub importers_count: usize,
    pub validators_count: usize,
    pub optimizers_count: usize,
}

/// The id the builder gives its `n`-th node.
pub open spec fn builder_node_id(n: int) -> Seq<char> {
    "node_"@ + spec_decimal(n)
}

/// Graph builder for programmatic graph creation: nodes get generated ids
/// in creation order; connections name the ids directly.
pub struct GraphBuilder {
    pub graph: Graph,
    pub node_counter: u64,
}

impl GraphBuilder {
    /// Create a new graph builder
    pub fn new() -> (r: GraphBuilder)
        ensures
            r.graph.nodes@.len() == 0,
            r.graph.edges@.len() == 0,
            r.node_counter == 0,
    {
        GraphBuilder { graph: Graph::new(), node_counter: 0 }
    }

    /// Add a node of the given type at the given position; it receives the
    /// next generated id.
    pub fn add_node(self, node_type: NodeType, position: (i64, i64)) -> (r: GraphBuilder)
        requires
            self.node_counter < u64::MAX,
        ensures
            r.node_counter == self.node_counter + 1,
            r.graph.edges@ == self.graph.edges@,
            r.graph.nodes@.len() == self.graph.nodes@.len() + 1,
            forall|i: int|
                0 <= i < self.graph.nodes@.len() ==> r.graph.nodes@[i] == self.graph.nodes@[i],
            r.graph.nodes@.last().id@ == builder_node_id(self.node_counter as int),
            r.graph.nodes@.last().node_type == node_type,
            r.graph.nodes@.last().position == position,
    {
        let mut id = "node_".to_owned();
        id.append(u64_to_string(self.node_counter).as_str());
        proof {
            assert(id@ =~= builder_node_id(self.node_counter as int));
        }
        let node = Node { id, node_type, position, properties: Vec::new() };
        let mut graph = self.graph;
        graph.add_node(node);
        GraphBuilder { graph, node_counter: self.node_counter + 1 }
    }

    /// Add a connection between two node ids; the edge carries the next
    /// generated id as its own.
    pub fn connect(self, from: &str, to: &str) -> (r: GraphBuilder)
        ensures
            r.node_counter == self.node_counter,
            r.graph.nodes@ == self.graph.nodes@,
            r.graph.edges@.len() == self.graph.edges@.len() + 1,
            forall|i: int|
                0 <= i < self.graph.edges@.len() ==> r.graph.edges@[i] == self.graph.edges@[i],
            r.graph.edges@.last().source@ == from@,
            r.graph.edges@.last().target@ == to@,
    {
        let mut id = "edge_".to_owned();
        id.append(u64_to_string(self.graph.edges.len() as u64).as_str());
        let edge = Edge {
            id,
            source: from.to_owned(),
            target: to.to_owned(),
            source_handle: None,
            target_handle: None,
        };
        let mut graph = self.graph;
        graph.add_edge(edge);
        GraphBuilder { graph, node_counter: self.node_counter }
    }

    /// Build the graph
    pub fn build(self) -> (r: Graph)
        ensures
            r == self.graph,
    {
        self.graph
    }
}

} // verus!
