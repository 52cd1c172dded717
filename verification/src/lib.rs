//! Verified core of the Magnus payments chain: fee-manager governance, currency
//! registry, validator accept-sets, off-boarding escrow and ISO 20022 messaging.
pub mod primitives;
pub mod hashing;
pub mod table;
pub mod address_list;
pub mod hardfork;
pub mod currency;
pub mod escrow;
pub mod error;
pub mod fee_events;
pub mod fee_manager;
pub mod issuer_registry;
pub mod router;
pub mod precompile;
pub mod fee_inference;
pub mod iso20022;
pub mod text;
pub mod gateway;
pub mod gas;
