//! The handle for the local ledger service. Network traffic belongs to the
//! surrounding system; here live the connection settings, the result
//! shapes, and the client bookkeeping.

use vstd::prelude::*;

use crate::config::Config;
use crate::error::CanvasResult;
use crate::types::{BlockNumber, ContractAddress, Gas, TransactionHash};

verus! {

/// Client handle for the ledger service.
pub struct BaalsClient {
    pub node_url: String,
    pub auth_token: Option<String>,
    pub local_node_port: u16,
    pub enable_local_node: bool,
}

/// Deployment result
#[derive(Debug, PartialEq)]
pub struct DeploymentResult {
    pub contract_address: ContractAddress,
    pub transaction_hash: TransactionHash,
    pub gas_used: Gas,
    pub block_number: u64,
}

/// Transaction state
#[derive(Debug, Clone, Copy, PartialEq, Eq, Structural)]
pub enum TransactionState {
    Pending,
    Confirmed,
    Failed,
    Reverted,
}

/// Transaction status
#[derive(Debug, PartialEq)]
pub struct TransactionStatus {
    pub hash: String,
    pub status: TransactionState,
    pub block_number: u64,
    pub gas_used: Gas,
    pub confirmations: u64,
}

/// Block information
#[derive(Debug, PartialEq)]
pub struct BlockInfo {
    pub number: BlockNumber,
    pub hash: String,
    pub timestamp: u64,
    pub transactions: Vec<String>,
}

impl BaalsClient {
    /// Create a new client from the ledger section of the configuration.
    pub fn new(config: &Config) -> (r: CanvasResult<BaalsClient>)
        ensures
            r is Ok,
            r matches Ok(c) ==> {
                &&& c.node_url@ == config.baals.node_url@
                &&& c.local_node_port == config.baals.local_node_port
                &&& c.enable_local_node == config.baals.enable_local_node
            },
    {
        Ok(
            BaalsClient {
                node_url: config.baals.node_url.clone(),
                auth_token: match &config.baals.auth_token {
                    Some(t) => Some(t.clone()),
                    None => None,
                },
                local_node_port: config.baals.local_node_port,
                enable_local_node: config.baals.enable_local_node,
            },
        )
    }

    /// No local node is managed from this library; the surrounding system
    /// owns the process, so the handle reports it as not running.
    pub fn is_local_node_running(&self) -> (r: bool)
        ensures
            !r,
    {
        false
    }
}

/// Node manager: owns a client built from the same configuration.
pub struct BaalsNodeManager {
    pub client: BaalsClient,
}

impl BaalsNodeManager {
    /// Create a new node manager.
    pub fn new(config: &Config) -> (r: CanvasResult<BaalsNodeManager>)
        ensures
            r is Ok,
    {
        match BaalsClient::new(config) {
            Ok(client) => Ok(BaalsNodeManager { client }),
            Err(e) => Err(e),
        }
    }

    /// Get the client
    pub fn client(&self) -> (r: &BaalsClient)
        ensures
            r == &self.client,
    {
        &self.client
    }
}

} // verus!
