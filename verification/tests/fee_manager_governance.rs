use magnus::error::{FeeManagerError, MagnusPrecompileError};
use magnus::fee_manager::{
    FeeManagerAnswer, FeeManagerQuery, MipFeeManager, DEFAULT_EMERGENCY_THRESHOLD, DEFAULT_ESCROW_CLAIM_WINDOW_SECS,
    DEFAULT_GRACE_PERIOD_SECS, MAX_ACCEPT_SET_SIZE, MAX_ESCROW_CLAIM_WINDOW_SECS,
    MAX_GRACE_PERIOD_SECS, MIN_ESCROW_CLAIM_WINDOW_SECS, MIN_GRACE_PERIOD_SECS,
};
use magnus::error::PrecompileOutcome;
use magnus::fee_events::FeeManagerEvent;
use magnus::fee_manager::{FeeManagerCall, FeeManagerReturn};
use magnus::primitives::{Address, U256};
use std::cell::RefCell;

fn pay_ok(_token: Address, _to: Address, _amount: U256) -> Result<(), MagnusPrecompileError> {
    Ok(())
}

fn addr(b: u8) -> Address {
    Address::repeat_byte(b)
}

fn token_at(i: u8) -> Address {
    let mut bytes = [0u8; 20];
    bytes[0] = 0x20;
    bytes[1] = 0xc0;
    bytes[19] = i;
    Address::from_bytes(bytes)
}

fn fm_err(e: FeeManagerError) -> MagnusPrecompileError {
    MagnusPrecompileError::FeeManagerError(e)
}

fn fee_manager_with_admin(admin: Address) -> MipFeeManager {
    let mut fee_manager = MipFeeManager::new();
    fee_manager.set_governance_admin(Address::zero(), admin).unwrap();
    fee_manager
}

fn fee_manager_with_admin_and_usd(admin: Address) -> MipFeeManager {
    let mut fm = fee_manager_with_admin(admin);
    fm.add_currency(admin, "USD", 0).unwrap();
    fm.enable_currency(admin, "USD", 0).unwrap();
    fm
}

#[test]
fn governance_admin_zero_at_genesis() {
    let fee_manager = MipFeeManager::new();
    assert_eq!(fee_manager.governance_admin(), Address::zero());
}

#[test]
fn set_governance_admin_bootstrap_from_zero_succeeds() {
    let admin = addr(0x11);
    let any_caller = addr(0x12);
    let mut fee_manager = MipFeeManager::new();
    // Zero-address bootstrap: anyone can set the initial admin.
    fee_manager.set_governance_admin(any_caller, admin).unwrap();
    assert_eq!(fee_manager.governance_admin(), admin);
}

#[test]
fn set_governance_admin_rotates_only_via_current_admin() {
    let admin = Address::repeat_byte(0xAA);
    let new_admin = Address::repeat_byte(0xBB);
    let attacker = Address::repeat_byte(0xCC);
    let mut fee_manager = fee_manager_with_admin(admin);

    // Non-admin cannot rotate.
    let err = fee_manager.set_governance_admin(attacker, new_admin).unwrap_err();
    assert_eq!(err, fm_err(FeeManagerError::OnlyGovernanceAdmin { caller: attacker }));

    // Current admin can rotate.
    fee_manager.set_governance_admin(admin, new_admin).unwrap();
    assert_eq!(fee_manager.governance_admin(), new_admin);

    // The previous admin has lost its rights.
    let err = fee_manager.add_currency(admin, "USD", 0).unwrap_err();
    assert_eq!(err, fm_err(FeeManagerError::OnlyGovernanceAdmin { caller: admin }));
}

#[test]
fn set_governance_admin_rejects_zero_address() {
    let admin = addr(0x13);
    let mut fee_manager = fee_manager_with_admin(admin);
    let err = fee_manager.set_governance_admin(admin, Address::zero()).unwrap_err();
    assert_eq!(err, fm_err(FeeManagerError::ZeroAddressGovernanceAdmin));
}

#[test]
fn add_currency_happy_path_emits_event_and_persists() {
    let admin = addr(0x14);
    let mut fee_manager = fee_manager_with_admin(admin);
    fee_manager.add_currency(admin, "USD", 100).unwrap();

    // Persisted: registered, not yet enabled.
    let config = fee_manager.get_currency_config("USD");
    assert!(!config.enabled);
    assert_eq!(config.added_at_block, 100);
    assert_eq!(config.enabled_at_block, 0);
    assert!(!fee_manager.is_currency_enabled("USD"));
}

#[test]
fn add_currency_rejects_non_admin() {
    let admin = addr(0x15);
    let attacker = addr(0x16);
    let mut fee_manager = fee_manager_with_admin(admin);
    let err = fee_manager.add_currency(attacker, "USD", 0).unwrap_err();
    assert_eq!(err, fm_err(FeeManagerError::OnlyGovernanceAdmin { caller: attacker }));
}

#[test]
fn add_currency_rejects_invalid_code() {
    let admin = addr(0x17);
    let mut fee_manager = fee_manager_with_admin(admin);
    for bad in &["", "us", "usd", "USDT", "US1"] {
        let err = fee_manager.add_currency(admin, bad, 0).unwrap_err();
        assert_eq!(
            err,
            fm_err(FeeManagerError::InvalidCurrencyCode { currency: bad.to_string() }),
            "expected InvalidCurrencyCode for {:?}",
            bad
        );
    }
}

#[test]
fn add_currency_rejects_double_add() {
    let admin = addr(0x18);
    let mut fee_manager = fee_manager_with_admin(admin);
    fee_manager.add_currency(admin, "USD", 0).unwrap();
    let err = fee_manager.add_currency(admin, "USD", 1).unwrap_err();
    assert_eq!(err, fm_err(FeeManagerError::CurrencyAlreadyAdded { currency: "USD".to_string() }));
}

#[test]
fn enable_currency_happy_path_flips_flag_and_records_block() {
    let admin = addr(0x19);
    let mut fee_manager = fee_manager_with_admin(admin);
    fee_manager.add_currency(admin, "USD", 50).unwrap();
    fee_manager.enable_currency(admin, "USD", 200).unwrap();

    let config = fee_manager.get_currency_config("USD");
    assert!(config.enabled);
    assert_eq!(config.added_at_block, 50);
    assert_eq!(config.enabled_at_block, 200);
    assert!(fee_manager.is_currency_enabled("USD"));
}

#[test]
fn enable_currency_rejects_unregistered() {
    let admin = addr(0x1a);
    let mut fee_manager = fee_manager_with_admin(admin);
    let err = fee_manager.enable_currency(admin, "VND", 0).unwrap_err();
    assert_eq!(err, fm_err(FeeManagerError::CurrencyNotRegistered { currency: "VND".to_string() }));
}

#[test]
fn enable_currency_rejects_already_enabled() {
    let admin = addr(0x1b);
    let mut fee_manager = fee_manager_with_admin(admin);
    fee_manager.add_currency(admin, "USD", 0).unwrap();
    fee_manager.enable_currency(admin, "USD", 1).unwrap();
    let err = fee_manager.enable_currency(admin, "USD", 2).unwrap_err();
    assert_eq!(err, fm_err(FeeManagerError::CurrencyAlreadyEnabled { currency: "USD".to_string() }));
}

#[test]
fn enable_currency_rejects_non_admin() {
    let admin = addr(0x1c);
    let attacker = addr(0x1d);
    let mut fee_manager = fee_manager_with_admin(admin);
    fee_manager.add_currency(admin, "USD", 0).unwrap();
    let err = fee_manager.enable_currency(attacker, "USD", 1).unwrap_err();
    assert_eq!(err, fm_err(FeeManagerError::OnlyGovernanceAdmin { caller: attacker }));
}

#[test]
fn unregistered_currency_returns_default_config() {
    let fee_manager = MipFeeManager::new();
    let config = fee_manager.get_currency_config("USD");
    assert!(!config.enabled);
    assert_eq!(config.added_at_block, 0);
    assert_eq!(config.enabled_at_block, 0);
    assert!(!fee_manager.is_currency_enabled("USD"));
}

#[test]
fn multiple_currencies_can_be_independently_managed() {
    let admin = addr(0x1e);
    let mut fee_manager = fee_manager_with_admin(admin);
    fee_manager.add_currency(admin, "USD", 10).unwrap();
    fee_manager.add_currency(admin, "VND", 20).unwrap();
    fee_manager.add_currency(admin, "EUR", 30).unwrap();
    fee_manager.enable_currency(admin, "USD", 100).unwrap();
    fee_manager.enable_currency(admin, "VND", 200).unwrap();
    // EUR registered but not enabled.

    assert!(fee_manager.is_currency_enabled("USD"));
    assert!(fee_manager.is_currency_enabled("VND"));
    assert!(!fee_manager.is_currency_enabled("EUR"));
    assert!(!fee_manager.is_currency_enabled("GBP")); // never added

    let usd = fee_manager.get_currency_config("USD");
    assert_eq!(usd.added_at_block, 10);
    assert_eq!(usd.enabled_at_block, 100);
    let vnd = fee_manager.get_currency_config("VND");
    assert_eq!(vnd.added_at_block, 20);
    assert_eq!(vnd.enabled_at_block, 200);
    let eur = fee_manager.get_currency_config("EUR");
    assert_eq!(eur.added_at_block, 30);
    assert_eq!(eur.enabled_at_block, 0);
}

#[test]
fn disable_currency_starts_grace_period() {
    let admin = addr(0x20);
    let mut fm = fee_manager_with_admin_and_usd(admin);

    fm.disable_currency(admin, "USD", 1_000).unwrap();
    let cfg = fm.get_currency_config("USD");
    assert!(cfg.deprecating);
    assert!(cfg.enabled);
    assert_eq!(cfg.deprecation_activates_at, 1_000 + DEFAULT_GRACE_PERIOD_SECS);
    assert!(cfg.in_grace_period(1_000));
    assert!(cfg.effectively_enabled(1_000));
    assert!(!cfg.effectively_enabled(cfg.deprecation_activates_at));
    assert!(fm.is_currency_in_grace("USD", 1_000));
    assert!(fm.is_currency_effectively_enabled("USD", 1_000));
    assert!(!fm.is_currency_effectively_enabled("USD", cfg.deprecation_activates_at));
}

#[test]
fn disable_currency_rejects_non_admin() {
    let admin = addr(0x21);
    let intruder = addr(0x22);
    let mut fm = fee_manager_with_admin_and_usd(admin);
    let err = fm.disable_currency(intruder, "USD", 0).unwrap_err();
    assert_eq!(err, fm_err(FeeManagerError::OnlyGovernanceAdmin { caller: intruder }));
}

#[test]
fn disable_currency_rejects_unregistered() {
    let admin = addr(0x23);
    let mut fm = fee_manager_with_admin(admin);
    let err = fm.disable_currency(admin, "EUR", 0).unwrap_err();
    assert_eq!(err, fm_err(FeeManagerError::CurrencyNotRegistered { currency: "EUR".to_string() }));
}

#[test]
fn disable_currency_rejects_double_disable() {
    let admin = addr(0x24);
    let mut fm = fee_manager_with_admin_and_usd(admin);
    fm.disable_currency(admin, "USD", 0).unwrap();
    let err = fm.disable_currency(admin, "USD", 0).unwrap_err();
    assert_eq!(err, fm_err(FeeManagerError::CurrencyAlreadyDeprecating { currency: "USD".to_string() }));
}

#[test]
fn re_enable_clears_deprecation_flags() {
    let admin = addr(0x25);
    let mut fm = fee_manager_with_admin_and_usd(admin);
    fm.disable_currency(admin, "USD", 0).unwrap();
    assert!(fm.get_currency_config("USD").deprecating);

    // While the grace period runs the currency is still enabled, so enabling it again is
    // refused; once it is switched off, re-enabling clears every deprecation field.
    assert_eq!(
        fm.enable_currency(admin, "USD", 50).unwrap_err(),
        fm_err(FeeManagerError::CurrencyAlreadyEnabled { currency: "USD".to_string() })
    );
    fm.emergency_disable_currency(admin, "USD").unwrap();

    fm.enable_currency(admin, "USD", 100).unwrap();
    let cfg = fm.get_currency_config("USD");
    assert!(cfg.enabled);
    assert!(!cfg.deprecating);
    assert_eq!(cfg.deprecation_activates_at, 0);
    assert_eq!(cfg.enabled_at_block, 100);
}

#[test]
fn set_deprecation_grace_period_enforces_bounds() {
    let admin = addr(0x26);
    let mut fm = fee_manager_with_admin(admin);

    // Below the lower bound (1 hour - 1).
    let too_low = MIN_GRACE_PERIOD_SECS - 1;
    assert_eq!(
        fm.set_deprecation_grace_period(admin, too_low).unwrap_err(),
        fm_err(FeeManagerError::GracePeriodOutOfRange { grace_period: too_low })
    );
    // Above the upper bound.
    let too_high = MAX_GRACE_PERIOD_SECS + 1;
    assert_eq!(
        fm.set_deprecation_grace_period(admin, too_high).unwrap_err(),
        fm_err(FeeManagerError::GracePeriodOutOfRange { grace_period: too_high })
    );

    // Inside the range.
    fm.set_deprecation_grace_period(admin, 7 * 24 * 60 * 60).unwrap();
    assert_eq!(fm.deprecation_grace_period(), 7 * 24 * 60 * 60);
}

#[test]
fn grace_period_defaults_until_set() {
    let admin = addr(0x27);
    let mut fm = fee_manager_with_admin_and_usd(admin);
    assert_eq!(fm.deprecation_grace_period(), DEFAULT_GRACE_PERIOD_SECS);
    fm.set_deprecation_grace_period(admin, MIN_GRACE_PERIOD_SECS).unwrap();
    fm.disable_currency(admin, "USD", 10).unwrap();
    assert_eq!(fm.get_currency_config("USD").deprecation_activates_at, 10 + MIN_GRACE_PERIOD_SECS);
}

#[test]
fn emergency_disable_currency_flips_immediately() {
    let admin = addr(0x28);
    let mut fm = fee_manager_with_admin_and_usd(admin);
    assert!(fm.is_currency_enabled("USD"));
    fm.emergency_disable_currency(admin, "USD").unwrap();
    let cfg = fm.get_currency_config("USD");
    assert!(!cfg.enabled);
    assert!(!cfg.deprecating);
    assert!(!fm.is_currency_effectively_enabled("USD", 0));
}

#[test]
fn emergency_disable_currency_clears_active_grace() {
    let admin = addr(0x29);
    let mut fm = fee_manager_with_admin_and_usd(admin);
    fm.disable_currency(admin, "USD", 0).unwrap();
    assert!(fm.get_currency_config("USD").deprecating);
    fm.emergency_disable_currency(admin, "USD").unwrap();
    let cfg = fm.get_currency_config("USD");
    assert!(!cfg.enabled);
    assert!(!cfg.deprecating);
    assert_eq!(cfg.deprecation_activates_at, 0);
}

#[test]
fn emergency_disable_currency_rejects_already_disabled() {
    let admin = addr(0x2a);
    let mut fm = fee_manager_with_admin(admin);
    fm.add_currency(admin, "USD", 0).unwrap();
    // Never enabled.
    let err = fm.emergency_disable_currency(admin, "USD").unwrap_err();
    assert_eq!(err, fm_err(FeeManagerError::CurrencyDisabled { currency: "USD".to_string() }));
}

#[test]
fn set_emergency_threshold_enforces_bounds() {
    let admin = addr(0x2b);
    let mut fm = fee_manager_with_admin(admin);
    assert_eq!(fm.emergency_disable_threshold(), DEFAULT_EMERGENCY_THRESHOLD);
    assert_eq!(
        fm.set_emergency_disable_threshold(admin, 5).unwrap_err(),
        fm_err(FeeManagerError::EmergencyThresholdOutOfRange { threshold: 5 })
    );
    assert_eq!(
        fm.set_emergency_disable_threshold(admin, 10).unwrap_err(),
        fm_err(FeeManagerError::EmergencyThresholdOutOfRange { threshold: 10 })
    );
    fm.set_emergency_disable_threshold(admin, 8).unwrap();
    assert_eq!(fm.emergency_disable_threshold(), 8);
}

#[test]
fn prune_currency_stamps_block_when_disabled() {
    let admin = addr(0x2c);
    let mut fm = fee_manager_with_admin_and_usd(admin);
    assert_eq!(
        fm.prune_currency("USD", 1, 0, 0).unwrap_err(),
        fm_err(FeeManagerError::CurrencyNotDisabled { currency: "USD".to_string() })
    );
    fm.emergency_disable_currency(admin, "USD").unwrap();
    fm.prune_currency("USD", 1, 42, 0).unwrap();
    assert_eq!(fm.get_currency_config("USD").last_pruned_at_block, 42);
}

#[test]
fn prune_currency_allowed_once_grace_expired() {
    let admin = addr(0x2d);
    let mut fm = fee_manager_with_admin_and_usd(admin);
    fm.disable_currency(admin, "USD", 0).unwrap();
    let deadline = fm.get_currency_config("USD").deprecation_activates_at;
    assert!(fm.prune_currency("USD", 1, 5, deadline - 1).is_err());
    fm.prune_currency("USD", 1, 6, deadline).unwrap();
    assert_eq!(fm.get_currency_config("USD").last_pruned_at_block, 6);
}

#[test]
fn set_escrow_claim_window_enforces_bounds() {
    let admin = addr(0x2e);
    let mut fm = fee_manager_with_admin(admin);
    assert_eq!(fm.escrow_claim_window(), DEFAULT_ESCROW_CLAIM_WINDOW_SECS);
    assert_eq!(
        fm.set_escrow_claim_window(admin, MIN_ESCROW_CLAIM_WINDOW_SECS - 1).unwrap_err(),
        fm_err(FeeManagerError::EscrowClaimWindowOutOfRange { window: MIN_ESCROW_CLAIM_WINDOW_SECS - 1 })
    );
    assert_eq!(
        fm.set_escrow_claim_window(admin, MAX_ESCROW_CLAIM_WINDOW_SECS + 1).unwrap_err(),
        fm_err(FeeManagerError::EscrowClaimWindowOutOfRange { window: MAX_ESCROW_CLAIM_WINDOW_SECS + 1 })
    );
    fm.set_escrow_claim_window(admin, 90 * 24 * 60 * 60).unwrap();
    assert_eq!(fm.escrow_claim_window(), 90 * 24 * 60 * 60);
}

#[test]
fn set_foundation_escrow_address_rejects_zero() {
    let admin = addr(0x2f);
    let mut fm = fee_manager_with_admin(admin);
    assert_eq!(
        fm.set_foundation_escrow_address(admin, Address::zero()).unwrap_err(),
        fm_err(FeeManagerError::ZeroAddressFoundationEscrow)
    );
    let target = addr(0x30);
    fm.set_foundation_escrow_address(admin, target).unwrap();
    assert_eq!(fm.foundation_escrow_address(), target);
}

#[test]
fn add_accepted_token_happy_path() {
    let admin = addr(0x31);
    let validator = addr(0x32);
    let beneficiary = addr(0x33);
    let token = token_at(1);
    let mut fm = fee_manager_with_admin_and_usd(admin);

    fm.add_accepted_token(validator, token, beneficiary, true, "USD", 0).unwrap();

    assert!(fm.accepts_token(validator, token));
    let list = fm.get_accepted_tokens(validator);
    assert_eq!(list, vec![token]);
}

#[test]
fn add_accepted_token_rejects_non_tip20() {
    let admin = addr(0x34);
    let validator = addr(0x35);
    let beneficiary = addr(0x36);
    let mut fm = fee_manager_with_admin_and_usd(admin);
    let bogus = addr(0x37);

    let err = fm.add_accepted_token(validator, bogus, beneficiary, false, "", 0).unwrap_err();
    assert_eq!(err, fm_err(FeeManagerError::InvalidToken));
}

#[test]
fn add_accepted_token_rejects_unregistered_currency_token() {
    let admin = addr(0x38);
    let validator = addr(0x39);
    let beneficiary = addr(0x3a);
    let mut fm = fee_manager_with_admin(admin);
    // USD never registered.
    let err = fm.add_accepted_token(validator, token_at(2), beneficiary, true, "USD", 0).unwrap_err();
    assert!(matches!(
        err,
        MagnusPrecompileError::FeeManagerError(FeeManagerError::CurrencyNotRegistered { .. })
    ));
}

#[test]
fn add_accepted_token_rejects_same_block_as_beneficiary() {
    let admin = addr(0x3b);
    let validator = addr(0x3c);
    let mut fm = fee_manager_with_admin_and_usd(admin);
    let err = fm.add_accepted_token(validator, token_at(3), validator, true, "USD", 0).unwrap_err();
    assert_eq!(err, fm_err(FeeManagerError::CannotChangeWithinBlock));
}

#[test]
fn add_accepted_token_rejects_double_add() {
    let admin = addr(0x3d);
    let validator = addr(0x3e);
    let beneficiary = addr(0x3f);
    let token = token_at(4);
    let mut fm = fee_manager_with_admin_and_usd(admin);

    fm.add_accepted_token(validator, token, beneficiary, true, "USD", 0).unwrap();
    let err = fm.add_accepted_token(validator, token, beneficiary, true, "USD", 0).unwrap_err();
    assert_eq!(err, fm_err(FeeManagerError::TokenAlreadyAccepted { validator, token }));
}

#[test]
fn add_accepted_token_enforces_max_size() {
    let admin = addr(0x40);
    let validator = addr(0x41);
    let beneficiary = addr(0x42);
    let mut fm = fee_manager_with_admin_and_usd(admin);

    for i in 0..MAX_ACCEPT_SET_SIZE {
        fm.add_accepted_token(validator, token_at(i as u8), beneficiary, true, "USD", 0).unwrap();
    }

    // The 33rd add must revert.
    let extra_token = token_at(MAX_ACCEPT_SET_SIZE as u8);
    let err = fm.add_accepted_token(validator, extra_token, beneficiary, true, "USD", 0).unwrap_err();
    assert_eq!(err, fm_err(FeeManagerError::MaxAcceptSetReached { validator }));
}

#[test]
fn remove_accepted_token_happy_path() {
    let admin = addr(0x43);
    let validator = addr(0x44);
    let beneficiary = addr(0x45);
    let token = token_at(5);
    let mut fm = fee_manager_with_admin_and_usd(admin);
    fm.add_accepted_token(validator, token, beneficiary, true, "USD", 0).unwrap();

    fm.remove_accepted_token(validator, token, beneficiary).unwrap();

    assert!(!fm.accepts_token(validator, token));
    assert!(fm.get_accepted_tokens(validator).is_empty());
}

#[test]
fn remove_accepted_token_rejects_unaccepted() {
    let admin = addr(0x46);
    let validator = addr(0x47);
    let beneficiary = addr(0x48);
    let token = token_at(6);
    let mut fm = fee_manager_with_admin_and_usd(admin);

    let err = fm.remove_accepted_token(validator, token, beneficiary).unwrap_err();
    assert_eq!(err, fm_err(FeeManagerError::TokenNotInAcceptSet { validator, token }));
}

#[test]
fn remove_accepted_token_keeps_other_tokens_in_list() {
    let admin = addr(0x49);
    let validator = addr(0x4a);
    let beneficiary = addr(0x4b);
    let usdc = token_at(1);
    let usdt = token_at(2);
    let pyusd = token_at(3);
    let mut fm = fee_manager_with_admin_and_usd(admin);

    fm.add_accepted_token(validator, usdc, beneficiary, true, "USD", 0).unwrap();
    fm.add_accepted_token(validator, usdt, beneficiary, true, "USD", 0).unwrap();
    fm.add_accepted_token(validator, pyusd, beneficiary, true, "USD", 0).unwrap();

    // Remove USDT (the middle one). Order is allowed to change (swap-remove).
    fm.remove_accepted_token(validator, usdt, beneficiary).unwrap();

    assert!(fm.accepts_token(validator, usdc));
    assert!(!fm.accepts_token(validator, usdt));
    assert!(fm.accepts_token(validator, pyusd));

    let list = fm.get_accepted_tokens(validator);
    assert_eq!(list.len(), 2);
    assert!(list.contains(&usdc));
    assert!(list.contains(&pyusd));
}

#[test]
fn accepts_token_returns_false_for_unconfigured_validator() {
    let fm = MipFeeManager::new();
    let validator = addr(0x4c);
    let token = addr(0x4d);
    assert!(!fm.accepts_token(validator, token));
    assert!(fm.get_accepted_tokens(validator).is_empty());
}

#[test]
fn add_then_remove_then_re_add_works() {
    let admin = addr(0x4e);
    let validator = addr(0x4f);
    let beneficiary = addr(0x50);
    let token = token_at(7);
    let mut fm = fee_manager_with_admin_and_usd(admin);

    fm.add_accepted_token(validator, token, beneficiary, true, "USD", 0).unwrap();
    fm.remove_accepted_token(validator, token, beneficiary).unwrap();
    // Re-add must succeed cleanly (state was fully cleaned up).
    fm.add_accepted_token(validator, token, beneficiary, true, "USD", 0).unwrap();

    assert!(fm.accepts_token(validator, token));
    assert_eq!(fm.get_accepted_tokens(validator), vec![token]);
}

#[test]
fn add_then_remove_restores_lists() {
    let admin = addr(0x51);
    let validator = addr(0x52);
    let beneficiary = addr(0x53);
    let mut fm = fee_manager_with_admin_and_usd(admin);
    fm.add_accepted_token(validator, token_at(1), beneficiary, true, "USD", 0).unwrap();
    fm.add_accepted_token(validator, token_at(2), beneficiary, true, "USD", 0).unwrap();
    let before = fm.get_accepted_tokens(validator);
    fm.add_accepted_token(validator, token_at(3), beneficiary, true, "USD", 0).unwrap();
    fm.remove_accepted_token(validator, token_at(3), beneficiary).unwrap();
    assert_eq!(fm.get_accepted_tokens(validator), before);
    assert!(!fm.is_accepted_by_any_validator(token_at(3)));
}

#[test]
fn multiple_validators_have_independent_accept_sets() {
    let admin = addr(0x54);
    let v1 = addr(0x55);
    let v2 = addr(0x56);
    let beneficiary = addr(0x57);
    let usdc = token_at(11);
    let usdt = token_at(12);
    let mut fm = fee_manager_with_admin_and_usd(admin);

    fm.add_accepted_token(v1, usdc, beneficiary, true, "USD", 0).unwrap();
    fm.add_accepted_token(v1, usdt, beneficiary, true, "USD", 0).unwrap();
    fm.add_accepted_token(v2, usdc, beneficiary, true, "USD", 0).unwrap();

    assert!(fm.accepts_token(v1, usdc));
    assert!(fm.accepts_token(v1, usdt));
    assert!(fm.accepts_token(v2, usdc));
    assert!(!fm.accepts_token(v2, usdt));

    assert_eq!(fm.get_accepted_tokens(v1).len(), 2);
    assert_eq!(fm.get_accepted_tokens(v2).len(), 1);
}

#[test]
fn t4_settle_fee_direct_credits_when_validator_accepts() {
    let admin = addr(0x58);
    let validator = addr(0x59);
    let beneficiary_other = addr(0x5a);
    let token = token_at(13);
    let mut fm = fee_manager_with_admin_and_usd(admin);
    fm.add_accepted_token(validator, token, beneficiary_other, true, "USD", 0).unwrap();

    // T4 path: validator accepts USDC -> direct credit.
    fm.settle_fee_t4(validator, token, U256::from_u64(100)).unwrap();
    assert_eq!(fm.collected_fees(validator, token), U256::from_u64(100));
}

#[test]
fn t4_settle_fee_reverts_when_validator_does_not_accept() {
    let admin = addr(0x5b);
    let validator = addr(0x5c);
    let token = token_at(14);
    let mut fm = fee_manager_with_admin_and_usd(admin);
    // Validator's accept-set is empty.
    let err = fm.settle_fee_t4(validator, token, U256::from_u64(100)).unwrap_err();
    assert_eq!(err, fm_err(FeeManagerError::FeeTokenNotAccepted { validator, token }));
}

#[test]
fn is_accepted_by_any_validator_tracks_reverse_index() {
    let admin = addr(0x5d);
    let validator = addr(0x5e);
    let beneficiary = addr(0x5f);
    let token = token_at(15);
    let mut fm = fee_manager_with_admin_and_usd(admin);
    assert!(!fm.is_accepted_by_any_validator(token));
    fm.add_accepted_token(validator, token, beneficiary, true, "USD", 0).unwrap();
    assert!(fm.is_accepted_by_any_validator(token));
    fm.remove_accepted_token(validator, token, beneficiary).unwrap();
    assert!(!fm.is_accepted_by_any_validator(token));
}

#[test]
fn add_accepted_token_rejected_during_grace_period() {
    let admin = addr(0x60);
    let validator = addr(0x61);
    let beneficiary = addr(0x62);
    let token = token_at(16);
    let mut fm = fee_manager_with_admin_and_usd(admin);

    fm.disable_currency(admin, "USD", 500).unwrap();

    let err = fm.add_accepted_token(validator, token, beneficiary, true, "USD", 500).unwrap_err();
    let cfg = fm.get_currency_config("USD");
    assert_eq!(
        err,
        fm_err(FeeManagerError::CurrencyDeprecating {
            currency: "USD".to_string(),
            grace_ends_at: cfg.deprecation_activates_at
        })
    );
}

#[test]
fn prune_token_removes_validator_accept_set_entries() {
    let admin = addr(0x63);
    let v1 = addr(0x64);
    let v2 = addr(0x65);
    let beneficiary = addr(0x66);
    let token = token_at(17);
    let mut fm = fee_manager_with_admin_and_usd(admin);
    fm.add_accepted_token(v1, token, beneficiary, true, "USD", 0).unwrap();
    fm.add_accepted_token(v2, token, beneficiary, true, "USD", 0).unwrap();
    assert!(fm.is_accepted_by_any_validator(token));

    // Prune is rejected while currency is still effectively enabled.
    assert_eq!(
        fm.prune_token(token, 100, 1, true, "USD", 0).unwrap_err(),
        fm_err(FeeManagerError::CurrencyNotDisabled { currency: "USD".to_string() })
    );

    fm.emergency_disable_currency(admin, "USD").unwrap();

    // First call removes one entry (max_iter = 1, paginated).
    let removed = fm.prune_token(token, 1, 1, true, "USD", 0).unwrap();
    assert_eq!(removed, 1);
    assert_eq!(fm.get_accepted_tokens(v1).len() + fm.get_accepted_tokens(v2).len(), 1);

    // Second call drains the rest.
    let removed = fm.prune_token(token, 100, 2, true, "USD", 0).unwrap();
    assert_eq!(removed, 1);
    assert!(!fm.is_accepted_by_any_validator(token));
    assert_eq!(fm.get_accepted_tokens(v1).len(), 0);
    assert_eq!(fm.get_accepted_tokens(v2).len(), 0);

    // Third call is a no-op.
    assert_eq!(fm.prune_token(token, 100, 3, true, "USD", 0).unwrap(), 0);
}

fn fee_manager_for_offboarding(admin: Address, foundation: Address) -> MipFeeManager {
    let mut fm = fee_manager_with_admin_and_usd(admin);
    fm.set_foundation_escrow_address(admin, foundation).unwrap();
    fm
}

#[test]
fn offboard_validator_delivers_when_transfer_succeeds() {
    let admin = addr(0x67);
    let validator = addr(0x68);
    let foundation = addr(0x69);
    let beneficiary = addr(0x6a);
    let token = token_at(18);
    let mut fm = fee_manager_for_offboarding(admin, foundation);
    fm.add_accepted_token(validator, token, beneficiary, true, "USD", 0).unwrap();
    fm.increment_collected_fees(validator, token, U256::from_u64(500)).unwrap();

    let deliveries = fm.offboard_validator(admin, validator, 10_000, |_, _, _| Ok(())).unwrap();

    // Direct delivery zeroed the ledger and credited the validator.
    assert_eq!(deliveries.len(), 1);
    assert!(deliveries[0].delivered);
    assert_eq!(deliveries[0].amount, U256::from_u64(500));
    assert_eq!(fm.collected_fees(validator, token), U256::zero());
    assert_eq!(fm.escrowed_fees_amount(validator, token), U256::zero());
    assert_eq!(fm.get_accepted_tokens(validator).len(), 0);
    assert!(!fm.accepts_token(validator, token));
    assert!(fm.escrow_claim(validator).offboarded);
    assert_eq!(fm.escrow_claim(validator).claim_deadline, 10_000 + DEFAULT_ESCROW_CLAIM_WINDOW_SECS);
    let events = fm.events();
    let n = events.len();
    assert!(matches!(
        &events[n - 2],
        FeeManagerEvent::FeesOffboardDelivered { validator: v, token: t, amount }
            if *v == validator && *t == token && *amount == U256::from_u64(500)
    ));
    assert!(matches!(
        &events[n - 1],
        FeeManagerEvent::ValidatorOffboarded { validator: v, claim_deadline }
            if *v == validator && *claim_deadline == 10_000 + DEFAULT_ESCROW_CLAIM_WINDOW_SECS
    ));
}

#[test]
fn governance_and_currency_changes_emit_events() {
    let admin = addr(0xa0);
    let next_admin = addr(0xa1);
    let mut fm = MipFeeManager::new();
    assert!(fm.events().is_empty());
    fm.set_governance_admin(Address::zero(), admin).unwrap();
    fm.add_currency(admin, "EUR", 7).unwrap();
    fm.enable_currency(admin, "EUR", 8).unwrap();
    fm.disable_currency(admin, "EUR", 100).unwrap();
    fm.emergency_disable_currency(admin, "EUR").unwrap();
    fm.prune_currency("EUR", 5, 9, 200).unwrap();
    assert!(fm.add_currency(admin, "EUR", 10).is_err());
    fm.set_governance_admin(admin, next_admin).unwrap();
    let events = fm.events();
    assert_eq!(events.len(), 7);
    assert!(matches!(&events[0], FeeManagerEvent::GovernanceAdminChanged { old_admin, new_admin }
        if *old_admin == Address::zero() && *new_admin == admin));
    assert!(matches!(&events[1], FeeManagerEvent::CurrencyAdded { code, at_block } if code == "EUR" && *at_block == 7));
    assert!(matches!(&events[2], FeeManagerEvent::CurrencyEnabled { code, at_block } if code == "EUR" && *at_block == 8));
    assert!(matches!(&events[3], FeeManagerEvent::CurrencyDisabling { code, grace_ends_at, by }
        if code == "EUR" && *grace_ends_at == 100 + DEFAULT_GRACE_PERIOD_SECS && *by == admin));
    assert!(matches!(&events[4], FeeManagerEvent::CurrencyDisabledEmergency { code, by } if code == "EUR" && *by == admin));
    assert!(matches!(&events[5], FeeManagerEvent::CurrencyPruned { code, tokens_removed, at_block }
        if code == "EUR" && *tokens_removed == U256::zero() && *at_block == 9));
    assert!(matches!(&events[6], FeeManagerEvent::GovernanceAdminChanged { old_admin, new_admin }
        if *old_admin == admin && *new_admin == next_admin));
}

#[test]
fn accept_set_changes_and_prunes_emit_events() {
    let admin = addr(0xa2);
    let v1 = addr(0xa3);
    let v2 = addr(0xa4);
    let token = token_at(40);
    let mut fm = fee_manager_with_admin_and_usd(admin);
    fm.add_accepted_token(v1, token, addr(0xfe), true, "USD", 0).unwrap();
    fm.add_accepted_token(v2, token, addr(0xfe), true, "USD", 0).unwrap();
    let start = fm.events().len();
    assert!(matches!(&fm.events()[start - 1], FeeManagerEvent::AcceptedTokenAdded { validator, token: t }
        if *validator == v2 && *t == token));
    fm.emergency_disable_currency(admin, "USD").unwrap();
    assert_eq!(fm.prune_token(token, 10, 3, true, "USD", 0).unwrap(), 2);
    let events = fm.events();
    assert_eq!(events.len(), start + 3);
    // Validators are popped off the end of the reverse index: last added first.
    assert!(matches!(&events[start + 1], FeeManagerEvent::AcceptedTokenRemoved { validator, token: t }
        if *validator == v2 && *t == token));
    assert!(matches!(&events[start + 2], FeeManagerEvent::AcceptedTokenRemoved { validator, token: t }
        if *validator == v1 && *t == token));
}


#[test]
fn offboard_validator_escrows_when_transfer_fails() {
    let admin = addr(0x6b);
    let validator = addr(0x6c);
    let foundation = addr(0x6d);
    let beneficiary = addr(0x6e);
    let token = token_at(19);
    let mut fm = fee_manager_for_offboarding(admin, foundation);
    fm.add_accepted_token(validator, token, beneficiary, true, "USD", 0).unwrap();

    // A non-zero ledger whose transfer fails is escrowed.
    fm.increment_collected_fees(validator, token, U256::from_u64(750)).unwrap();

    fm.offboard_validator(admin, validator, 10_000, |_, _, _| Err(MagnusPrecompileError::under_overflow())).unwrap();

    assert_eq!(fm.collected_fees(validator, token), U256::zero());
    assert_eq!(fm.escrowed_fees_amount(validator, token), U256::from_u64(750));
}

#[test]
fn offboard_validator_rejects_double_offboard() {
    let admin = addr(0x6f);
    let validator = addr(0x70);
    let foundation = addr(0x71);
    let mut fm = fee_manager_for_offboarding(admin, foundation);
    fm.offboard_validator(admin, validator, 0, |_, _, _| Ok(())).unwrap();
    assert_eq!(
        fm.offboard_validator(admin, validator, 0, |_, _, _| Ok(())).unwrap_err(),
        fm_err(FeeManagerError::ValidatorAlreadyOffboarded { validator })
    );
}

fn escrowed_fee_manager(admin: Address, validator: Address, foundation: Address, token: Address, amount: u64) -> MipFeeManager {
    let mut fm = fee_manager_for_offboarding(admin, foundation);
    fm.add_accepted_token(validator, token, addr(0xfe), true, "USD", 0).unwrap();
    fm.increment_collected_fees(validator, token, U256::from_u64(amount)).unwrap();
    fm.offboard_validator(admin, validator, 0, |_, _, _| Err(MagnusPrecompileError::under_overflow())).unwrap();
    fm
}

#[test]
fn claim_escrowed_fees_within_window_transfers_to_recipient() {
    let admin = addr(0x72);
    let validator = addr(0x73);
    let recipient = addr(0x74);
    let foundation = addr(0x75);
    let token = token_at(20);
    let mut fm = escrowed_fee_manager(admin, validator, foundation, token, 900);

    let paid: RefCell<Vec<(Address, Address, U256)>> = RefCell::new(Vec::new());
    let claimed = fm
        .claim_escrowed_fees(validator, validator, token, recipient, 0, |t, to, a| {
            paid.borrow_mut().push((t, to, a));
            Ok(())
        })
        .unwrap();
    assert_eq!(claimed, U256::from_u64(900));
    assert_eq!(fm.escrowed_fees_amount(validator, token), U256::zero());
    assert_eq!(paid.borrow().clone(), vec![(token, recipient, U256::from_u64(900))]);
    assert!(matches!(
        fm.events().last(),
        Some(FeeManagerEvent::EscrowedFeesClaimed { validator: v, token: t, recipient: to, amount })
            if *v == validator && *t == token && *to == recipient && *amount == U256::from_u64(900)
    ));
}

#[test]
fn claim_escrowed_fees_failed_transfer_reverts() {
    let admin = addr(0x90);
    let validator = addr(0x91);
    let foundation = addr(0x92);
    let token = token_at(30);
    let mut fm = escrowed_fee_manager(admin, validator, foundation, token, 40);
    let events_before = fm.events().len();
    let err = fm
        .claim_escrowed_fees(validator, validator, token, validator, 0, |_, _, _| {
            Err(MagnusPrecompileError::under_overflow())
        })
        .unwrap_err();
    assert_eq!(err, MagnusPrecompileError::under_overflow());
    assert_eq!(fm.escrowed_fees_amount(validator, token), U256::from_u64(40));
    assert_eq!(fm.events().len(), events_before);
}

#[test]
fn claim_escrowed_fees_rejects_after_window() {
    let admin = addr(0x76);
    let validator = addr(0x77);
    let foundation = addr(0x78);
    let token = token_at(21);
    let mut fm = escrowed_fee_manager(admin, validator, foundation, token, 50);

    // Move past the deadline.
    let deadline = fm.escrow_claim(validator).claim_deadline;
    let err = fm.claim_escrowed_fees(validator, validator, token, validator, deadline + 1, pay_ok).unwrap_err();
    assert_eq!(err, fm_err(FeeManagerError::ClaimWindowExpired { validator }));
    // Still claimable on the deadline itself.
    assert_eq!(
        fm.claim_escrowed_fees(validator, validator, token, validator, deadline, pay_ok).unwrap(),
        U256::from_u64(50)
    );
}

#[test]
fn claim_escrowed_fees_rejects_non_validator_caller() {
    let admin = addr(0x79);
    let validator = addr(0x7a);
    let intruder = addr(0x7b);
    let foundation = addr(0x7c);
    let mut fm = fee_manager_for_offboarding(admin, foundation);
    assert_eq!(
        fm.claim_escrowed_fees(intruder, validator, token_at(22), intruder, 0, pay_ok).unwrap_err(),
        fm_err(FeeManagerError::OnlyValidator)
    );
}

#[test]
fn sweep_expired_escrow_after_window_sends_to_foundation() {
    let admin = addr(0x7d);
    let validator = addr(0x7e);
    let foundation = addr(0x7f);
    let token = token_at(23);
    let mut fm = escrowed_fee_manager(admin, validator, foundation, token, 123);
    let deadline = fm.escrow_claim(validator).claim_deadline;

    // Active window: sweep rejected.
    assert_eq!(
        fm.sweep_expired_escrow(admin, validator, token, deadline, pay_ok).unwrap_err(),
        fm_err(FeeManagerError::ClaimWindowActive { validator })
    );

    let paid: RefCell<Vec<(Address, Address, U256)>> = RefCell::new(Vec::new());
    let swept = fm
        .sweep_expired_escrow(admin, validator, token, deadline + 1, |t, to, a| {
            paid.borrow_mut().push((t, to, a));
            Ok(())
        })
        .unwrap();
    assert_eq!(swept, U256::from_u64(123));
    assert_eq!(paid.borrow().clone(), vec![(token, foundation, U256::from_u64(123))]);
    assert!(matches!(
        fm.events().last(),
        Some(FeeManagerEvent::EscrowSwept { foundation: f, amount, .. })
            if *f == foundation && *amount == U256::from_u64(123)
    ));
    assert_eq!(fm.escrowed_fees_amount(validator, token), U256::zero());
    assert_eq!(fm.foundation_escrow_address(), foundation);
}

#[test]
fn distribute_fees_zeroes_the_ledger() {
    let admin = addr(0x80);
    let validator = addr(0x81);
    let token = token_at(24);
    let mut fm = fee_manager_with_admin_and_usd(admin);
    fm.increment_collected_fees(validator, token, U256::from_u64(500)).unwrap();
    let paid: RefCell<Vec<(Address, Address, U256)>> = RefCell::new(Vec::new());
    let record = |t: Address, to: Address, a: U256| {
        paid.borrow_mut().push((t, to, a));
        Ok(())
    };
    assert_eq!(fm.distribute_fees(validator, token, true, &record).unwrap(), U256::from_u64(500));
    assert_eq!(fm.collected_fees(validator, token), U256::zero());
    let events_after = fm.events().len();
    assert!(matches!(
        fm.events().last(),
        Some(FeeManagerEvent::FeesDistributed { validator: v, token: t, amount })
            if *v == validator && *t == token && *amount == U256::from_u64(500)
    ));
    assert_eq!(fm.distribute_fees(validator, token, true, &record).unwrap(), U256::zero());
    assert_eq!(paid.borrow().clone(), vec![(token, validator, U256::from_u64(500))]);
    assert_eq!(fm.events().len(), events_after);
}

#[test]
fn validator_token_defaults_until_set() {
    let admin = addr(0x82);
    let validator = addr(0x83);
    let token = token_at(25);
    let mut fm = fee_manager_with_admin_and_usd(admin);
    assert_eq!(fm.get_validator_token(validator), magnus::fee_manager::default_fee_token());
    assert_eq!(
        fm.set_validator_token(validator, token, validator, true, true).unwrap_err(),
        fm_err(FeeManagerError::CannotChangeWithinBlock)
    );
    assert_eq!(
        fm.set_validator_token(validator, token, addr(0x84), false, true).unwrap_err(),
        fm_err(FeeManagerError::InvalidToken)
    );
    fm.set_validator_token(validator, token, addr(0x84), true, true).unwrap();
    assert_eq!(fm.get_validator_token(validator), token);
}

#[test]
fn test_set_validator_token() {
    let validator = addr(0x90);
    let beneficiary = addr(0x91);
    let token = token_at(30);
    let mut fee_manager = MipFeeManager::new();

    // Should fail when validator == beneficiary (same block check)
    let result = fee_manager.set_validator_token(validator, token, validator, true, true);
    assert_eq!(result, Err(fm_err(FeeManagerError::CannotChangeWithinBlock)));

    // Should succeed with different beneficiary
    let result = fee_manager.set_validator_token(validator, token, beneficiary, true, true);
    assert!(result.is_ok());

    let returned_token = fee_manager.get_validator_token(validator);
    assert_eq!(returned_token, token);
}

#[test]
fn test_set_validator_token_cannot_change_within_block() {
    let validator = addr(0x92);
    let beneficiary = addr(0x93);
    let token = token_at(31);
    let mut fee_manager = MipFeeManager::new();

    // Setting validator token when not beneficiary should succeed
    let result = fee_manager.set_validator_token(validator, token, beneficiary, true, true);
    assert!(result.is_ok());

    // But if validator is the beneficiary, should fail with CannotChangeWithinBlock
    let result = fee_manager.set_validator_token(validator, token, validator, true, true);
    assert_eq!(result, Err(fm_err(FeeManagerError::CannotChangeWithinBlock)));
}

#[test]
fn validator_token_rejects_non_usd() {
    let validator = addr(0x94);
    let beneficiary = addr(0x95);
    let mut fee_manager = MipFeeManager::new();
    let result = fee_manager.set_validator_token(validator, token_at(32), beneficiary, true, false);
    assert!(matches!(
        result,
        Err(MagnusPrecompileError::MIP20(magnus::error::Mip20Error::InvalidCurrency))
    ));
    assert_eq!(fee_manager.get_validator_token(validator), magnus::fee_manager::default_fee_token());
}

#[test]
fn test_distribute_fees_zero_balance() {
    let validator = addr(0x96);
    let token = token_at(33);
    let mut fee_manager = MipFeeManager::new();
    fee_manager.set_validator_token(validator, token, addr(0x97), true, true).unwrap();

    // collected_fees is zero by default
    assert_eq!(fee_manager.collected_fees(validator, token), U256::zero());

    // distribute_fees should be a no-op
    let result = fee_manager.distribute_fees(validator, token, true, pay_ok);
    assert!(result.is_ok(), "Should succeed even with zero balance");
    assert_eq!(result.unwrap(), U256::zero());
}

#[test]
fn test_distribute_fees() {
    let validator = addr(0x98);
    let token = token_at(34);
    let mut fee_manager = MipFeeManager::new();

    // Set validator's preferred token
    fee_manager.set_validator_token(validator, token, addr(0x99), true, true).unwrap();

    // Simulate accumulated fees
    let fee_amount = U256::from_u64(500);
    fee_manager.increment_collected_fees(validator, token, fee_amount).unwrap();

    // Distribute fees: the amount transferred to the validator is returned
    let paid = fee_manager.distribute_fees(validator, token, true, pay_ok).unwrap();
    assert_eq!(paid, fee_amount);

    // Verify collected fees cleared
    assert_eq!(fee_manager.collected_fees(validator, token), U256::zero());
}

#[test]
fn view_calls_answer_from_storage() {
    let admin = addr(0xa0);
    let validator = addr(0xa1);
    let token = token_at(40);
    let mut fm = fee_manager_with_admin_and_usd(admin);
    fm.add_accepted_token(validator, token, addr(0xa2), true, "USD", 0).unwrap();
    fm.increment_collected_fees(validator, token, U256::from_u64(9)).unwrap();

    assert!(matches!(fm.view_call(&FeeManagerQuery::GovernanceAdmin), FeeManagerAnswer::Account(a) if a == admin));
    assert!(matches!(
        fm.view_call(&FeeManagerQuery::CollectedFees { validator, token }),
        FeeManagerAnswer::Amount(x) if x == U256::from_u64(9)
    ));
    assert!(matches!(
        fm.view_call(&FeeManagerQuery::IsCurrencyEnabled { code: "USD".to_string() }),
        FeeManagerAnswer::Flag(true)
    ));
    assert!(matches!(
        fm.view_call(&FeeManagerQuery::AcceptsToken { validator, token }),
        FeeManagerAnswer::Flag(true)
    ));
    assert!(matches!(
        fm.view_call(&FeeManagerQuery::IsAcceptedByAnyValidator { token: token_at(41) }),
        FeeManagerAnswer::Flag(false)
    ));
    assert!(matches!(
        fm.view_call(&FeeManagerQuery::DeprecationGracePeriod),
        FeeManagerAnswer::Seconds(s) if s == DEFAULT_GRACE_PERIOD_SECS
    ));
    match fm.view_call(&FeeManagerQuery::GetAcceptedTokens { validator }) {
        FeeManagerAnswer::Tokens(list) => assert_eq!(list, vec![token]),
        other => panic!("unexpected answer {other:?}"),
    }
    match fm.view_call(&FeeManagerQuery::GetCurrencyConfig { code: "USD".to_string() }) {
        FeeManagerAnswer::Config(c) => assert!(c.registered && c.enabled),
        other => panic!("unexpected answer {other:?}"),
    }
}

#[test]
fn test_set_user_token() {
    let user = addr(0xb0);
    let token = token_at(50);
    let mut fm = MipFeeManager::new();
    fm.set_user_token(user, token, true, true, false, false).unwrap();
    assert_eq!(fm.user_tokens(user, false), token);
    assert!(matches!(fm.events().last(), Some(FeeManagerEvent::UserTokenSet { user: u, token: t })
        if *u == user && *t == token));
}

#[test]
fn test_set_user_token_noop_when_unchanged_pre_t3() {
    let user = addr(0xb1);
    let token = token_at(51);
    let mut fm = MipFeeManager::new();
    fm.set_user_token(user, token, true, true, false, false).unwrap();
    fm.set_user_token(user, token, true, true, false, false).unwrap();
    assert_eq!(fm.events().len(), 2, "pre-T3: event emitted even when token unchanged");
}

#[test]
fn test_set_user_token_noop_when_unchanged_t3() {
    let user = addr(0xb2);
    let token = token_at(52);
    let mut fm = MipFeeManager::new();
    fm.set_user_token(user, token, true, true, true, false).unwrap();
    assert_eq!(fm.events().len(), 1, "first set_user_token should emit event");
    fm.set_user_token(user, token, true, true, true, false).unwrap();
    assert_eq!(fm.events().len(), 1, "T3+: repeated set_user_token with same token should not emit event");
}

#[test]
fn set_user_token_rejects_invalid_tokens() {
    let user = addr(0xb3);
    let mut fm = MipFeeManager::new();
    assert_eq!(
        fm.set_user_token(user, token_at(53), false, true, false, false).unwrap_err(),
        fm_err(FeeManagerError::InvalidToken)
    );
    assert_eq!(
        fm.set_user_token(user, token_at(53), true, false, false, false).unwrap_err(),
        MagnusPrecompileError::MIP20(magnus::error::Mip20Error::InvalidCurrency)
    );
    assert_eq!(fm.user_tokens(user, false), Address::zero());
    assert!(fm.events().is_empty());
}

#[test]
fn t4_set_user_token_reverts_with_api_removed() {
    let user = addr(0xb4);
    let mut fm = MipFeeManager::new();
    let err = fm.set_user_token(user, token_at(54), true, true, true, true).unwrap_err();
    assert_eq!(err, fm_err(FeeManagerError::UserTokenApiRemoved));
}

#[test]
fn t4_user_tokens_view_returns_zero_even_when_pre_t4_value_stored() {
    let user = addr(0xb5);
    let pre_t4_token = Address::repeat_byte(0xAB);
    let mut fm = MipFeeManager::new();
    fm.set_user_token(user, pre_t4_token, true, true, true, false).unwrap();
    assert_eq!(fm.user_tokens(user, false), pre_t4_token);
    assert_eq!(fm.user_tokens(user, true), Address::zero());
}

fn ctx(block: u64, ts: u64, beneficiary: Address, tip20: bool, currency: &str) -> magnus::fee_manager::CallContext {
    magnus::fee_manager::CallContext {
        block_number: block,
        timestamp: ts,
        beneficiary,
        token_is_tip20: tip20,
        token_currency: currency.to_string(),
    }
}

#[test]
fn state_changing_calls_route_to_their_methods() {
    let admin = addr(0xc0);
    let validator = addr(0xc1);
    let token = token_at(60);
    let mut fm = MipFeeManager::new();
    let c = ctx(5, 1_000, addr(0xfe), true, "USD");
    assert!(matches!(
        fm.call(&FeeManagerCall::SetGovernanceAdmin { new_admin: admin }, Address::zero(), &c, pay_ok),
        Ok(FeeManagerReturn::Done)
    ));
    fm.call(&FeeManagerCall::AddCurrency { code: "USD".to_string() }, admin, &c, pay_ok).unwrap();
    fm.call(&FeeManagerCall::EnableCurrency { code: "USD".to_string() }, admin, &c, pay_ok).unwrap();
    assert_eq!(fm.get_currency_config("USD").added_at_block, 5);
    // A non-admin caller is refused, as by the method.
    assert_eq!(
        fm.call(&FeeManagerCall::AddCurrency { code: "EUR".to_string() }, validator, &c, pay_ok).unwrap_err(),
        fm_err(FeeManagerError::OnlyGovernanceAdmin { caller: validator })
    );
    fm.call(&FeeManagerCall::AddAcceptedToken { token }, validator, &c, pay_ok).unwrap();
    assert!(fm.accepts_token(validator, token));
    fm.increment_collected_fees(validator, token, U256::from_u64(70)).unwrap();
    fm.call(&FeeManagerCall::OffboardValidator { validator }, admin, &c, |_, _, _| {
        Err(MagnusPrecompileError::under_overflow())
    })
    .unwrap();
    assert_eq!(fm.escrowed_fees_amount(validator, token), U256::from_u64(70));
    let claimed = fm
        .call(&FeeManagerCall::ClaimEscrowedFees { validator, token, recipient: addr(0xc2) }, validator, &c, pay_ok)
        .unwrap();
    assert!(matches!(claimed, FeeManagerReturn::Amount(a) if a == U256::from_u64(70)));
    fm.call(&FeeManagerCall::EmergencyDisableCurrency { code: "USD".to_string() }, admin, &c, pay_ok).unwrap();
    let huge = U256 { lo: u128::MAX, hi: 1 };
    let pruned = fm
        .call(&FeeManagerCall::PruneToken { token, max_iterations: huge }, admin, &c, pay_ok)
        .unwrap();
    assert!(matches!(pruned, FeeManagerReturn::Count(0)));
    fm.call(&FeeManagerCall::PruneCurrency { code: "USD".to_string(), max_iterations: huge }, admin, &c, pay_ok)
        .unwrap();
    assert_eq!(fm.get_currency_config("USD").last_pruned_at_block, 5);
}

#[test]
fn precompile_outcomes_follow_the_error_kind() {
    assert_eq!(MagnusPrecompileError::OutOfGas.precompile_outcome(21, 7), PrecompileOutcome::HaltOutOfGas { reservoir: 7 });
    assert_eq!(
        MagnusPrecompileError::Fatal("boom".to_string()).precompile_outcome(21, 7),
        PrecompileOutcome::Fatal("boom".to_string())
    );
    assert_eq!(
        fm_err(FeeManagerError::InvalidToken).precompile_outcome(21, 7),
        PrecompileOutcome::Revert { gas: 21, reservoir: 7 }
    );
    assert_eq!(
        MagnusPrecompileError::under_overflow().precompile_outcome(3, 0),
        PrecompileOutcome::Revert { gas: 3, reservoir: 0 }
    );
}
