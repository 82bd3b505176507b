//! Module-format checks and module analysis. Executing a module belongs to
//! the surrounding runtime; the verified part is the header validation and
//! the size heuristics.

use vstd::prelude::*;

use crate::config::Config;
use crate::error::{CanvasError, CanvasResult};

verus! {

/// A byte stream that opens like a loadable module: long enough, the
/// magic marker first, then version one.
pub open spec fn wasm_header_ok(b: Seq<u8>) -> bool {
    &&& b.len() >= 8
    &&& b[0] == 0u8 && b[1] == 0x61u8 && b[2] == 0x73u8 && b[3] == 0x6du8
    &&& b[4] == 1u8 && b[5] == 0u8 && b[6] == 0u8 && b[7] == 0u8
}

/// Runtime handle for executing compiled contracts; execution itself lives
/// in the surrounding system.
pub struct WasmRuntime {
    pub config: Config,
}

impl WasmRuntime {
    /// Create a new runtime handle.
    pub fn new(config: &Config) -> (r: CanvasResult<WasmRuntime>)
        ensures
            r is Ok,
    {
        Ok(WasmRuntime { config: config.clone() })
    }

    /// Validate a module's header: accepted exactly when the bytes open
    /// with the module magic and version one.
    pub fn validate_module(&self, wasm_bytes: &[u8]) -> (r: CanvasResult<()>)
        ensures
            r is Ok <==> wasm_header_ok(wasm_bytes@),
    {
        if wasm_bytes.len() < 8 {
            return Err(CanvasError::Wasm("invalid module: too small".to_owned()));
        }
        if !(wasm_bytes[0] == 0 && wasm_bytes[1] == 0x61 && wasm_bytes[2] == 0x73
            && wasm_bytes[3] == 0x6d) {
            return Err(CanvasError::Wasm("invalid module: missing magic number".to_owned()));
        }
        if !(wasm_bytes[4] == 1 && wasm_bytes[5] == 0 && wasm_bytes[6] == 0 && wasm_bytes[7]
            == 0) {
            return Err(CanvasError::Wasm("invalid module: unsupported version".to_owned()));
        }
        Ok(())
    }
}

/// Risk level
#[derive(Debug, Clone, Copy, PartialEq, Eq, Structural)]
pub enum RiskLevel {
    Low,
    Medium,
    High,
    Critical,
}

/// Security analysis result
#[derive(Debug, PartialEq)]
pub struct SecurityAnalysis {
    pub issues: Vec<String>,
    pub warnings: Vec<String>,
    pub risk_level: RiskLevel,
}

/// Module analyzer for size and shape heuristics.
pub struct WasmAnalyzer {
    pub config: Config,
}

impl WasmAnalyzer {
    /// Create a new analyzer.
    pub fn new(config: &Config) -> (r: CanvasResult<WasmAnalyzer>)
        ensures
            r is Ok,
    {
        Ok(WasmAnalyzer { config: config.clone() })
    }

    /// Flag oversized modules; anything else passes with low risk.
    pub fn analyze_security(&self, wasm_bytes: &[u8]) -> (r: CanvasResult<SecurityAnalysis>)
        ensures
            r is Ok,
            r matches Ok(a) ==> {
                &&& a.issues@.len() == 0
                &&& a.risk_level == RiskLevel::Low
                &&& a.warnings@.len() == (if wasm_bytes@.len() > 1000000 {
                    1int
                } else {
                    0int
                })
            },
    {
        let mut warnings: Vec<String> = Vec::new();
        if wasm_bytes.len() > 1000000 {
            warnings.push("module size is very large".to_owned());
        }
        Ok(SecurityAnalysis { issues: Vec::new(), warnings, risk_level: RiskLevel::Low })
    }
}

} // verus!
