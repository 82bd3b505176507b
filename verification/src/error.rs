//! Error values shared across the library. Every variant carries a plain
//! message; construction helpers keep the call sites short.

use vstd::prelude::*;
use vstd::string::StringExecFns;

verus! {

/// Result type for analysis operations
pub type CanvasResult<T> = Result<T, CanvasError>;

/// Main error type for the analysis library
#[derive(Debug, PartialEq)]
pub enum CanvasError {
    Compilation(String),
    Wasm(String),
    Node(String),
    NodeNotFound(String),
    BreakpointNotFound(String),
    Baals(String),
    Validation(String),
    Config(String),
    Graph(String),
    Type(String),
    GasLimitExceeded(u64),
    PermissionDenied(String),
    NotFound(String),
    InvalidState(String),
    Timeout(String),
    Network(String),
    ExecutionError(String),
    Unknown(String),
}

impl CanvasError {
    /// Create a compilation error
    pub fn compilation(msg: String) -> (r: CanvasError)
        ensures
            r == CanvasError::Compilation(msg),
    {
        CanvasError::Compilation(msg)
    }

    /// Create a WASM error
    pub fn wasm(msg: String) -> (r: CanvasError)
        ensures
            r == CanvasError::Wasm(msg),
    {
        CanvasError::Wasm(msg)
    }

    /// Create a node error
    pub fn node(msg: String) -> (r: CanvasError)
        ensures
            r == CanvasError::Node(msg),
    {
        CanvasError::Node(msg)
    }

    /// Create a BaaLS error
    pub fn baals(msg: String) -> (r: CanvasError)
        ensures
            r == CanvasError::Baals(msg),
    {
        CanvasError::Baals(msg)
    }

    /// Create a validation error
    pub fn validation(msg: String) -> (r: CanvasError)
        ensures
            r == CanvasError::Validation(msg),
    {
        CanvasError::Validation(msg)
    }

    /// Create a graph error
    pub fn graph(msg: String) -> (r: CanvasError)
        ensures
            r == CanvasError::Graph(msg),
    {
        CanvasError::Graph(msg)
    }

    /// Create a type error
    pub fn type_error(msg: String) -> (r: CanvasError)
        ensures
            r == CanvasError::Type(msg),
    {
        CanvasError::Type(msg)
    }

    /// An error that ends the whole operation.
    pub fn is_fatal(&self) -> (r: bool)
        ensures
            r == (self is Compilation || self is Wasm || self is Config),
    {
        matches!(
            self,
            CanvasError::Compilation(_) | CanvasError::Wasm(_) | CanvasError::Config(_)
        )
    }

    /// An error the caller can recover from.
    pub fn is_recoverable(&self) -> (r: bool)
        ensures
            r == (self is Validation || self is Type || self is GasLimitExceeded),
    {
        matches!(
            self,
            CanvasError::Validation(_) | CanvasError::Type(_) | CanvasError::GasLimitExceeded(_)
        )
    }
}

/// The message of a contextualized error: the operation, a separator, and
/// the original message.
pub open spec fn contextualized(op: Seq<char>, msg: Seq<char>) -> Seq<char> {
    op + ": "@ + msg
}

/// `b` is `a` with the context's operation stitched into its message;
/// variants that carry no message pass through unchanged.
pub open spec fn with_context_rel(a: CanvasError, b: CanvasError, op: Seq<char>) -> bool {
    match (a, b) {
        (CanvasError::Compilation(m), CanvasError::Compilation(m2)) => m2@ == contextualized(
            op,
            m@,
        ),
        (CanvasError::Wasm(m), CanvasError::Wasm(m2)) => m2@ == contextualized(op, m@),
        (CanvasError::Node(m), CanvasError::Node(m2)) => m2@ == contextualized(op, m@),
        (CanvasError::NodeNotFound(m), CanvasError::NodeNotFound(m2)) => m2@ == contextualized(
            op,
            m@,
        ),
        (
            CanvasError::BreakpointNotFound(m),
            CanvasError::BreakpointNotFound(m2),
        ) => m2@ == contextualized(op, m@),
        (CanvasError::Baals(m), CanvasError::Baals(m2)) => m2@ == contextualized(op, m@),
        (CanvasError::Validation(m), CanvasError::Validation(m2)) => m2@ == contextualized(
            op,
            m@,
        ),
        (CanvasError::Config(m), CanvasError::Config(m2)) => m2@ == contextualized(op, m@),
        (CanvasError::Graph(m), CanvasError::Graph(m2)) => m2@ == contextualized(op, m@),
        (CanvasError::Type(m), CanvasError::Type(m2)) => m2@ == contextualized(op, m@),
        (CanvasError::GasLimitExceeded(g), CanvasError::GasLimitExceeded(g2)) => g == g2,
        (
            CanvasError::PermissionDenied(m),
            CanvasError::PermissionDenied(m2),
        ) => m2@ == contextualized(op, m@),
        (CanvasError::NotFound(m), CanvasError::NotFound(m2)) => m2@ == contextualized(op, m@),
        (CanvasError::InvalidState(m), CanvasError::InvalidState(m2)) => m2@ == contextualized(
            op,
            m@,
        ),
        (CanvasError::Timeout(m), CanvasError::Timeout(m2)) => m2@ == contextualized(op, m@),
        (CanvasError::Network(m), CanvasError::Network(m2)) => m2@ == contextualized(op, m@),
        (CanvasError::ExecutionError(m), CanvasError::ExecutionError(m2)) => m2@
            == contextualized(op, m@),
        (CanvasError::Unknown(m), CanvasError::Unknown(m2)) => m2@ == contextualized(op, m@),
        _ => false,
    }
}

/// Error context for better debugging
#[derive(Debug, PartialEq)]
pub struct ErrorContext {
    pub operation: String,
    pub details: String,
    pub location: Option<String>,
}

impl ErrorContext {
    pub fn new(operation: String) -> (r: ErrorContext)
        ensures
            r.operation@ == operation@,
            r.details@.len() == 0,
            r.location is None,
    {
        ErrorContext { operation, details: String::new(), location: None }
    }

    pub fn with_details(self, details: String) -> (r: ErrorContext)
        ensures
            r.operation@ == self.operation@,
            r.details@ == details@,
            r.location == self.location,
    {
        ErrorContext { details, ..self }
    }

    pub fn with_location(self, location: String) -> (r: ErrorContext)
        ensures
            r.operation@ == self.operation@,
            r.details@ == self.details@,
            r.location matches Some(l) && l@ == location@,
    {
        ErrorContext { location: Some(location), ..self }
    }
}

fn prefix_with(op: &String, msg: String) -> (r: String)
    ensures
        r@ == contextualized(op@, msg@),
{
    let mut m = op.clone();
    m.append(": ");
    m.append(msg.as_str());
    proof {
        assert(m@ =~= contextualized(op@, msg@));
    }
    m
}

/// Stitch a context's operation into a failed result's error message; a
/// result that unexpectedly succeeded becomes an Unknown error.
pub fn with_context<T>(r: CanvasResult<T>, context: ErrorContext) -> (out: CanvasError)
    ensures
        r matches Err(e) ==> with_context_rel(e, out, context.operation@),
        r is Ok ==> out is Unknown,
{
    match r {
        Ok(_) => CanvasError::Unknown("unexpected success in error context".to_owned()),
        Err(e) => match e {
            CanvasError::Compilation(m) => CanvasError::Compilation(
                prefix_with(&context.operation, m),
            ),
            CanvasError::Wasm(m) => CanvasError::Wasm(prefix_with(&context.operation, m)),
            CanvasError::Node(m) => CanvasError::Node(prefix_with(&context.operation, m)),
            CanvasError::NodeNotFound(m) => CanvasError::NodeNotFound(
                prefix_with(&context.operation, m),
            ),
            CanvasError::BreakpointNotFound(m) => CanvasError::BreakpointNotFound(
                prefix_with(&context.operation, m),
            ),
            CanvasError::Baals(m) => CanvasError::Baals(prefix_with(&context.operation, m)),
            CanvasError::Validation(m) => CanvasError::Validation(
                prefix_with(&context.operation, m),
            ),
            CanvasError::Config(m) => CanvasError::Config(prefix_with(&context.operation, m)),
            CanvasError::Graph(m) => CanvasError::Graph(prefix_with(&context.operation, m)),
            CanvasError::Type(m) => CanvasError::Type(prefix_with(&context.operation, m)),
            CanvasError::GasLimitExceeded(g) => CanvasError::GasLimitExceeded(g),
            CanvasError::PermissionDenied(m) => CanvasError::PermissionDenied(
                prefix_with(&context.operation, m),
            ),
            CanvasError::NotFound(m) => CanvasError::NotFound(prefix_with(&context.operation, m)),
            CanvasError::InvalidState(m) => CanvasError::InvalidState(
                prefix_with(&context.operation, m),
            ),
            CanvasError::Timeout(m) => CanvasError::Timeout(prefix_with(&context.operation, m)),
            CanvasError::Network(m) => CanvasError::Network(prefix_with(&context.operation, m)),
            CanvasError::ExecutionError(m) => CanvasError::ExecutionError(
                prefix_with(&context.operation, m),
            ),
            CanvasError::Unknown(m) => CanvasError::Unknown(prefix_with(&context.operation, m)),
        },
    }
}

} // verus!
