//! Production-scaling descriptions: the optimization passes' catalog
//! shapes, resource usage report shapes, and the dead-code pass, which is
//! the one whose decision is graph analysis.

use vstd::prelude::*;

use crate::traversal::{find_unreachable_nodes, unreachable_ids_spec};
use crate::types::{Graph, NodeId};

verus! {

/// Change type
#[derive(Debug, Clone, Copy, PartialEq, Eq, Structural)]
pub enum ChangeType {
    NodeRemoval,
    NodeConsolidation,
    EdgeOptimization,
    ConstantFolding,
    DeadCodeElimination,
    LoopOptimization,
    MemoryOptimization,
}

/// Optimization impact
#[derive(Debug, Clone, Copy, PartialEq, Eq, Structural)]
pub enum OptimizationImpact {
    High,
    Medium,
    Low,
}

/// Resource category
#[derive(Debug, Clone, Copy, PartialEq, Eq, Structural)]
pub enum ResourceCategory {
    Memory,
    Cpu,
    Gas,
    Network,
    Storage,
}

/// Recommendation priority
#[derive(Debug, Clone, Copy, PartialEq, Eq, Structural)]
pub enum RecommendationPriority {
    Critical,
    High,
    Medium,
    Low,
}

/// Implementation effort
#[derive(Debug, Clone, Copy, PartialEq, Eq, Structural)]
pub enum ImplementationEffort {
    Easy,
    Medium,
    Hard,
    VeryHard,
}

/// Memory usage
#[derive(Debug, PartialEq)]
pub struct MemoryUsage {
    pub peak_memory: u64,
    pub average_memory: u64,
    pub memory_leaks: Vec<String>,
    pub optimization_suggestions: Vec<String>,
}

/// Gas usage
#[derive(Debug, PartialEq)]
pub struct GasUsage {
    pub total_gas: u64,
    pub gas_per_operation: Vec<(String, u64)>,
    pub expensive_operations: Vec<String>,
    pub optimization_suggestions: Vec<String>,
}

/// Dead code elimination pass: the nodes no walk from a Start node
/// reaches are the removal candidates.
#[derive(Debug, PartialEq)]
pub struct DeadCodeEliminationPass;

impl DeadCodeEliminationPass {
    /// The ids this pass would remove: exactly the unreachable nodes, in
    /// node-list order.
    pub fn removal_candidates(&self, g: &Graph) -> (r: Vec<NodeId>)
        ensures
            r@ == unreachable_ids_spec(*g),
    {
        find_unreachable_nodes(g)
    }
}

/// Constant folding pass
#[derive(Debug, PartialEq)]
pub struct ConstantFoldingPass;

/// Loop optimization pass
#[derive(Debug, PartialEq)]
pub struct LoopOptimizationPass;

/// Memory optimization pass
#[derive(Debug, PartialEq)]
pub struct MemoryOptimizationPass;

/// Cache optimization pass
#[derive(Debug, PartialEq)]
pub struct CacheOptimizationPass;

/// Parallel execution optimizer: plans stage splits for the surrounding
/// scheduler.
#[derive(Debug, PartialEq)]
pub struct ParallelExecutionOptimizer {
    pub max_parallelism: u32,
}

impl ParallelExecutionOptimizer {
    pub fn new(max_parallelism: u32) -> (r: ParallelExecutionOptimizer)
        ensures
            r.max_parallelism == max_parallelism,
    {
        ParallelExecutionOptimizer { max_parallelism }
    }
}

/// Resource usage analyzer: aggregates usage reports for the surrounding
/// monitor.
#[derive(Debug, PartialEq)]
pub struct ResourceUsageAnalyzer {
    pub sample_window: u64,
}

impl ResourceUsageAnalyzer {
    pub fn new(sample_window: u64) -> (r: ResourceUsageAnalyzer)
        ensures
            r.sample_window == sample_window,
    {
        ResourceUsageAnalyzer { sample_window }
    }
}

} // verus!
