//! The banking gateway: audit records, IPFS archival, chain polling, configuration and
//! the REST API's request and response logic.
pub mod api;
pub mod chain;
pub mod config;
pub mod ipfs;
pub mod storage;
