//! The event log of the fee manager precompile.
use crate::primitives::{Address, U256};
use vstd::prelude::*;

verus! {

/// An event the fee manager emits.
#[derive(Clone, Debug)]
pub enum FeeManagerEvent {
    ValidatorTokenSet { validator: Address, token: Address },
    UserTokenSet { user: Address, token: Address },
    FeesDistributed { validator: Address, token: Address, amount: U256 },
    CurrencyAdded { code: String, at_block: u64 },
    CurrencyEnabled { code: String, at_block: u64 },
    DeprecationGracePeriodChanged { old_grace_period: u64, new_grace_period: u64 },
    CurrencyDisabling { code: String, grace_ends_at: u64, by: Address },
    GovernanceAdminChanged { old_admin: Address, new_admin: Address },
    AcceptedTokenAdded { validator: Address, token: Address },
    AcceptedTokenRemoved { validator: Address, token: Address },
    EmergencyDisableThresholdChanged { old_threshold: u8, new_threshold: u8 },
    CurrencyDisabledEmergency { code: String, by: Address },
    CurrencyPruned { code: String, tokens_removed: U256, at_block: u64 },
    EscrowClaimWindowChanged { old_window: u64, new_window: u64 },
    FoundationEscrowAddressChanged { old_address: Address, new_address: Address },
    FeesOffboardDelivered { validator: Address, token: Address, amount: U256 },
    FeesOffboardEscrowed { validator: Address, token: Address, amount: U256 },
    ValidatorOffboarded { validator: Address, claim_deadline: u64 },
    EscrowedFeesClaimed { validator: Address, token: Address, recipient: Address, amount: U256 },
    EscrowSwept { validator: Address, token: Address, foundation: Address, amount: U256 },
}

/// A fee-manager event, with currency codes as character sequences.
pub enum FeeEvent {
    ValidatorTokenSet { validator: Address, token: Address },
    UserTokenSet { user: Address, token: Address },
    FeesDistributed { validator: Address, token: Address, amount: U256 },
    CurrencyAdded { code: Seq<char>, at_block: u64 },
    CurrencyEnabled { code: Seq<char>, at_block: u64 },
    DeprecationGracePeriodChanged { old_grace_period: u64, new_grace_period: u64 },
    CurrencyDisabling { code: Seq<char>, grace_ends_at: u64, by: Address },
    GovernanceAdminChanged { old_admin: Address, new_admin: Address },
    AcceptedTokenAdded { validator: Address, token: Address },
    AcceptedTokenRemoved { validator: Address, token: Address },
    EmergencyDisableThresholdChanged { old_threshold: u8, new_threshold: u8 },
    CurrencyDisabledEmergency { code: Seq<char>, by: Address },
    CurrencyPruned { code: Seq<char>, tokens_removed: U256, at_block: u64 },
    EscrowClaimWindowChanged { old_window: u64, new_window: u64 },
    FoundationEscrowAddressChanged { old_address: Address, new_address: Address },
    FeesOffboardDelivered { validator: Address, token: Address, amount: U256 },
    FeesOffboardEscrowed { validator: Address, token: Address, amount: U256 },
    ValidatorOffboarded { validator: Address, claim_deadline: u64 },
    EscrowedFeesClaimed { validator: Address, token: Address, recipient: Address, amount: U256 },
    EscrowSwept { validator: Address, token: Address, foundation: Address, amount: U256 },
}

impl View for FeeManagerEvent {
    type V = FeeEvent;

    open spec fn view(&self) -> FeeEvent {
        match *self {
            FeeManagerEvent::ValidatorTokenSet { validator, token } => FeeEvent::ValidatorTokenSet {
                validator,
                token,
            },
            FeeManagerEvent::UserTokenSet { user, token } => FeeEvent::UserTokenSet { user, token },
            FeeManagerEvent::FeesDistributed { validator, token, amount } =>
                FeeEvent::FeesDistributed { validator, token, amount },
            FeeManagerEvent::CurrencyAdded { code, at_block } => FeeEvent::CurrencyAdded {
                code: code@,
                at_block,
            },
            FeeManagerEvent::CurrencyEnabled { code, at_block } => FeeEvent::CurrencyEnabled {
                code: code@,
                at_block,
            },
            FeeManagerEvent::DeprecationGracePeriodChanged { old_grace_period, new_grace_period } =>
                FeeEvent::DeprecationGracePeriodChanged { old_grace_period, new_grace_period },
            FeeManagerEvent::CurrencyDisabling { code, grace_ends_at, by } =>
                FeeEvent::CurrencyDisabling { code: code@, grace_ends_at, by },
            FeeManagerEvent::GovernanceAdminChanged { old_admin, new_admin } =>
                FeeEvent::GovernanceAdminChanged { old_admin, new_admin },
            FeeManagerEvent::AcceptedTokenAdded { validator, token } =>
                FeeEvent::AcceptedTokenAdded { validator, token },
            FeeManagerEvent::AcceptedTokenRemoved { validator, token } =>
                FeeEvent::AcceptedTokenRemoved { validator, token },
            FeeManagerEvent::EmergencyDisableThresholdChanged { old_threshold, new_threshold } =>
                FeeEvent::EmergencyDisableThresholdChanged { old_threshold, new_threshold },
            FeeManagerEvent::CurrencyDisabledEmergency { code, by } =>
                FeeEvent::CurrencyDisabledEmergency { code: code@, by },
            FeeManagerEvent::CurrencyPruned { code, tokens_removed, at_block } =>
                FeeEvent::CurrencyPruned { code: code@, tokens_removed, at_block },
            FeeManagerEvent::EscrowClaimWindowChanged { old_window, new_window } =>
                FeeEvent::EscrowClaimWindowChanged { old_window, new_window },
            FeeManagerEvent::FoundationEscrowAddressChanged { old_address, new_address } =>
                FeeEvent::FoundationEscrowAddressChanged { old_address, new_address },
            FeeManagerEvent::FeesOffboardDelivered { validator, token, amount } =>
                FeeEvent::FeesOffboardDelivered { validator, token, amount },
            FeeManagerEvent::FeesOffboardEscrowed { validator, token, amount } =>
                FeeEvent::FeesOffboardEscrowed { validator, token, amount },
            FeeManagerEvent::ValidatorOffboarded { validator, claim_deadline } =>
                FeeEvent::ValidatorOffboarded { validator, claim_deadline },
            FeeManagerEvent::EscrowedFeesClaimed { validator, token, recipient, amount } =>
                FeeEvent::EscrowedFeesClaimed { validator, token, recipient, amount },
            FeeManagerEvent::EscrowSwept { validator, token, foundation, amount } =>
                FeeEvent::EscrowSwept { validator, token, foundation, amount },
        }
    }
}

/// The views of a sequence of events.
pub open spec fn event_views(events: Seq<FeeManagerEvent>) -> Seq<FeeEvent> {
    events.map_values(|e: FeeManagerEvent| e@)
}

} // verus!
