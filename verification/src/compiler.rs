//! The compilation pipeline's data shapes and its validation entry point.
//! Code generation itself belongs to the surrounding system; the verified
//! part here is the validation gate and the intermediate representations.

use vstd::prelude::*;

use crate::config::Config;
use crate::error::{CanvasError, CanvasResult};
use crate::types::CompilationResult;
use crate::validator;
use crate::visual::{visual_graph_wf, ContractValidator, VisualGraph};

verus! {

/// Validation result of the compilation gate.
#[derive(Debug, PartialEq)]
pub struct ValidationResult {
    pub is_valid: bool,
    pub errors: Vec<String>,
    pub warnings: Vec<String>,
}

impl ValidationResult {
    /// An empty, valid result.
    pub fn valid() -> (r: ValidationResult)
        ensures
            r.is_valid,
            r.errors@.len() == 0,
            r.warnings@.len() == 0,
    {
        ValidationResult { is_valid: true, errors: Vec::new(), warnings: Vec::new() }
    }

    /// Add a warning; validity is untouched.
    pub fn with_warning(self, warning: String) -> (r: ValidationResult)
        ensures
            r.is_valid == self.is_valid,
            r.warnings@.len() == self.warnings@.len() + 1,
            r.warnings@[r.warnings@.len() - 1]@ == warning@,
            forall|i: int| 0 <= i < self.warnings@.len() ==> r.warnings@[i] == self.warnings@[i],
            r.errors@ == self.errors@,
    {
        let mut warnings = self.warnings;
        warnings.push(warning);
        ValidationResult { is_valid: self.is_valid, errors: self.errors, warnings }
    }

    /// Add an error; the result turns invalid.
    pub fn with_error(self, error: String) -> (r: ValidationResult)
        ensures
            !r.is_valid,
            r.errors@.len() == self.errors@.len() + 1,
            r.errors@[r.errors@.len() - 1]@ == error@,
            forall|i: int| 0 <= i < self.errors@.len() ==> r.errors@[i] == self.errors@[i],
            r.warnings@ == self.warnings@,
    {
        let mut errors = self.errors;
        errors.push(error);
        ValidationResult { is_valid: false, errors, warnings: self.warnings }
    }
}

/// AST node types
#[derive(Debug, PartialEq)]
pub enum ASTNode {
    /// Function definition
    Function { name: String, params: Vec<String>, body: Vec<Box<ASTNode>> },
    /// Variable declaration
    Variable { name: String, value: Box<ASTNode> },
    /// If statement
    If { condition: Box<ASTNode>, then_branch: Vec<Box<ASTNode>>, else_branch: Option<
        Vec<Box<ASTNode>>,
    > },
    /// Function call
    Call { function: String, arguments: Vec<Box<ASTNode>> },
    /// Literal value
    Literal { value: String, value_type: String },
    /// Binary operation
    BinaryOp { operator: String, left: Box<ASTNode>, right: Box<ASTNode> },
}

/// AST representation
#[derive(Debug, PartialEq)]
pub struct AST {
    pub nodes: Vec<ASTNode>,
}

impl AST {
    pub fn new() -> (r: AST)
        ensures
            r.nodes@.len() == 0,
    {
        AST { nodes: Vec::new() }
    }
}

/// Graph IR node
#[derive(Debug, PartialEq)]
pub struct GraphIRNode {
    pub id: String,
    pub node_type: String,
    pub inputs: Vec<String>,
    pub outputs: Vec<String>,
    pub properties: Vec<(String, String)>,
}

/// Graph IR connection
#[derive(Debug, PartialEq)]
pub struct GraphIRConnection {
    pub id: String,
    pub source: String,
    pub target: String,
    pub data_type: String,
}

/// Graph IR representation
#[derive(Debug, PartialEq)]
pub struct GraphIR {
    pub nodes: Vec<GraphIRNode>,
    pub connections: Vec<GraphIRConnection>,
}

impl GraphIR {
    pub fn new() -> (r: GraphIR)
        ensures
            r.nodes@.len() == 0,
            r.connections@.len() == 0,
    {
        GraphIR { nodes: Vec::new(), connections: Vec::new() }
    }
}

/// WASM generation result
#[derive(Debug, PartialEq)]
pub struct WasmGenResult {
    pub wasm_bytes: Vec<u8>,
    pub functions: Vec<String>,
    pub imports: Vec<String>,
    pub exports: Vec<String>,
}

/// WASM code generator
#[derive(Debug, PartialEq)]
pub struct WasmGenerator {
    pub optimization_level: u8,
}

impl WasmGenerator {
    pub fn new(optimization_level: u8) -> (r: WasmGenerator)
        ensures
            r.optimization_level == optimization_level,
    {
        WasmGenerator { optimization_level }
    }

    /// Code generation belongs to the surrounding system; this gate always
    /// reports that no generator is wired in.
    pub fn generate(&self, ast: &AST) -> (r: Result<WasmGenResult, String>)
        ensures
            r is Err,
            r matches Err(m) && m@ == "WASM generation not yet implemented"@,
    {
        Err("WASM generation not yet implemented".to_owned())
    }
}

/// Main compiler over visual graphs: it owns the validation gate; code
/// generation is left to the surrounding system.
pub struct Compiler {
    pub config: Config,
}

impl Compiler {
    /// Create a new compiler instance
    pub fn new(config: &Config) -> (r: CanvasResult<Compiler>)
        ensures
            r is Ok,
    {
        Ok(Compiler { config: config.clone() })
    }

    /// Code generation belongs to the surrounding system; compiling here
    /// always reports that the pipeline is not wired in.
    pub fn compile(&self, graph: &VisualGraph) -> (r: CanvasResult<CompilationResult>)
        ensures
            r is Err,
            r matches Err(e) && e is Compilation,
    {
        Err(
            CanvasError::Compilation("Compilation pipeline not yet implemented".to_owned()),
        )
    }

    /// Run the port-level validation gate over a visual graph.
    pub fn validate(&self, graph: &VisualGraph) -> (r: CanvasResult<
        validator::ValidationResult,
    >)
        ensures
            r is Ok,
            r matches Ok(v) ==> v.is_valid == visual_graph_wf(*graph),
    {
        let gate = ContractValidator::new();
        gate.validate(graph)
    }
}

} // verus!
