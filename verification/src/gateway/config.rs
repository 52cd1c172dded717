//! Gateway configuration.
use vstd::prelude::*;

verus! {

/// Top-level gateway configuration.
#[derive(Debug, Clone)]
pub struct GatewayConfig {
    /// Chain connection settings.
    pub chain: ChainConfig,
    /// IPFS storage settings.
    pub ipfs: IpfsConfig,
    /// REST API settings.
    pub api: ApiConfig,
    /// Connected bank endpoints (none when the file lists none).
    pub banks: Vec<BankConfig>,
}

/// Chain connection configuration.
#[derive(Debug, Clone)]
pub struct ChainConfig {
    /// WebSocket RPC endpoint for event subscription.
    pub ws_url: String,
    /// HTTP RPC endpoint for queries.
    pub http_url: String,
    /// Chain ID for transaction signing.
    pub chain_id: u64,
}

/// IPFS node configuration.
#[derive(Debug, Clone)]
pub struct IpfsConfig {
    /// IPFS API endpoint (e.g. `http://localhost:5001`).
    pub api_url: String,
    /// Gateway URL for retrieval (e.g. `http://localhost:8080`).
    pub gateway_url: String,
}

/// REST API configuration.
#[derive(Debug, Clone)]
pub struct ApiConfig {
    /// Bind address (e.g. `0.0.0.0:3000`).
    pub bind: String,
    /// API key for authentication.
    pub api_key: String,
}

/// Configuration for a connected bank.
#[derive(Debug, Clone)]
pub struct BankConfig {
    /// Bank identifier (BIC or custom name).
    pub id: String,
    /// Webhook URL for forwarding ISO 20022 messages.
    pub webhook_url: String,
}

} // verus!
