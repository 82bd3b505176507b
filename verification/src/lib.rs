//! Rule-based analysis for visual smart-contract graphs: a typed node/edge
//! model, a structural validator, pattern and anti-pattern matchers, a gas
//! cost model and an optimization-suggestion engine.

pub mod ai;
pub mod baals;
pub mod community;
pub mod compiler;
pub mod config;
pub mod custom_nodes;
pub mod debugger;
pub mod deployment;
pub mod error;
pub mod laws;
pub mod marketplace;
pub mod monitoring;
pub mod nodes;
pub mod optimization;
pub mod pattern_recognition;
pub mod performance;
pub mod rules;
pub mod sdk;
pub mod text;
pub mod traversal;
pub mod types;
pub mod validator;
pub mod visual;
pub mod wasm;

use vstd::prelude::*;

verus! {

/// Library information structure
#[derive(Debug, Clone)]
pub struct LibraryInfo {
    pub name: String,
    pub version: String,
    pub description: String,
}

/// Get library information
pub fn info() -> (r: LibraryInfo)
    ensures
        r.name@ == "canvas-contracts"@,
        r.version@.len() > 0,
        r.description@.len() > 0,
{
    proof {
        reveal_strlit("canvas-contracts");
        reveal_strlit("0.1.0");
        reveal_strlit("Visual smart contract development platform");
    }
    LibraryInfo {
        name: "canvas-contracts".to_owned(),
        version: "0.1.0".to_owned(),
        description: "Visual smart contract development platform".to_owned(),
    }
}

} // verus!
