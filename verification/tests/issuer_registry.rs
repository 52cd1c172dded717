use magnus::error::{IssuerRegistryError, MagnusPrecompileError};
use magnus::fee_manager::MipFeeManager;
use magnus::issuer_registry::{IssuerRegistryAnswer, IssuerRegistryCall, IssuerRegistryEvent, MIP20IssuerRegistry};
use magnus::primitives::Address;

fn fee_manager_with_admin(admin: Address) -> MipFeeManager {
    let mut fm = MipFeeManager::new();
    fm.set_governance_admin(Address::zero(), admin).unwrap();
    fm.add_currency(admin, "USD", 0).unwrap();
    fm.enable_currency(admin, "USD", 0).unwrap();
    fm
}

#[test]
fn unconfigured_returns_false_and_empty() {
    let registry = MIP20IssuerRegistry::new();
    assert!(!registry.is_approved_issuer("USD", Address::repeat_byte(0x01)));
    assert!(registry.get_approved_issuers("USD").is_empty());
}

#[test]
fn add_approved_issuer_happy_path() {
    let admin = Address::repeat_byte(0x02);
    let issuer = Address::repeat_byte(0x03);
    let fm = fee_manager_with_admin(admin);
    let mut registry = MIP20IssuerRegistry::new();

    registry.add_approved_issuer(&fm, admin, "USD", issuer).unwrap();

    assert!(registry.is_approved_issuer("USD", issuer));
    assert_eq!(registry.get_approved_issuers("USD"), vec![issuer]);
}

#[test]
fn add_approved_issuer_rejects_non_admin() {
    let admin = Address::repeat_byte(0x04);
    let attacker = Address::repeat_byte(0x05);
    let fm = fee_manager_with_admin(admin);
    let mut registry = MIP20IssuerRegistry::new();

    let err = registry
        .add_approved_issuer(&fm, attacker, "USD", Address::repeat_byte(0x06))
        .unwrap_err();
    assert_eq!(
        err,
        MagnusPrecompileError::MIP20IssuerRegistry(IssuerRegistryError::OnlyGovernanceAdmin {
            caller: attacker
        })
    );
}

#[test]
fn add_approved_issuer_rejects_unregistered_currency() {
    let admin = Address::repeat_byte(0x07);
    let mut fm = MipFeeManager::new();
    fm.set_governance_admin(Address::zero(), admin).unwrap();
    // VND not added.
    let mut registry = MIP20IssuerRegistry::new();

    let err = registry
        .add_approved_issuer(&fm, admin, "VND", Address::repeat_byte(0x08))
        .unwrap_err();
    assert!(matches!(
        err,
        MagnusPrecompileError::MIP20IssuerRegistry(IssuerRegistryError::CurrencyNotRegistered { .. })
    ));
}

#[test]
fn add_approved_issuer_rejects_double_add() {
    let admin = Address::repeat_byte(0x09);
    let issuer = Address::repeat_byte(0x0a);
    let fm = fee_manager_with_admin(admin);
    let mut registry = MIP20IssuerRegistry::new();
    registry.add_approved_issuer(&fm, admin, "USD", issuer).unwrap();

    let err = registry.add_approved_issuer(&fm, admin, "USD", issuer).unwrap_err();
    assert!(matches!(
        err,
        MagnusPrecompileError::MIP20IssuerRegistry(IssuerRegistryError::IssuerAlreadyApproved { .. })
    ));
}

#[test]
fn remove_approved_issuer_happy_path() {
    let admin = Address::repeat_byte(0x0b);
    let issuer = Address::repeat_byte(0x0c);
    let fm = fee_manager_with_admin(admin);
    let mut registry = MIP20IssuerRegistry::new();
    registry.add_approved_issuer(&fm, admin, "USD", issuer).unwrap();

    registry.remove_approved_issuer(&fm, admin, "USD", issuer).unwrap();

    assert!(!registry.is_approved_issuer("USD", issuer));
    assert!(registry.get_approved_issuers("USD").is_empty());
}

#[test]
fn remove_approved_issuer_rejects_unapproved() {
    let admin = Address::repeat_byte(0x0d);
    let fm = fee_manager_with_admin(admin);
    let mut registry = MIP20IssuerRegistry::new();
    let err = registry
        .remove_approved_issuer(&fm, admin, "USD", Address::repeat_byte(0x0e))
        .unwrap_err();
    assert!(matches!(
        err,
        MagnusPrecompileError::MIP20IssuerRegistry(IssuerRegistryError::IssuerNotInAllowlist { .. })
    ));
}

#[test]
fn per_currency_scope_is_independent() {
    let admin = Address::repeat_byte(0x0f);
    let circle = Address::repeat_byte(0xC1);
    let mut fm = fee_manager_with_admin(admin);
    fm.add_currency(admin, "VND", 0).unwrap();
    fm.enable_currency(admin, "VND", 0).unwrap();
    let mut registry = MIP20IssuerRegistry::new();

    registry.add_approved_issuer(&fm, admin, "USD", circle).unwrap();
    assert!(registry.is_approved_issuer("USD", circle));
    // Approval for USD does NOT carry over to VND.
    assert!(!registry.is_approved_issuer("VND", circle));
}

#[test]
fn multiple_issuers_per_currency() {
    let admin = Address::repeat_byte(0x10);
    let circle = Address::repeat_byte(0xC1);
    let tether = Address::repeat_byte(0xC2);
    let paypal = Address::repeat_byte(0xC3);
    let fm = fee_manager_with_admin(admin);
    let mut registry = MIP20IssuerRegistry::new();

    registry.add_approved_issuer(&fm, admin, "USD", circle).unwrap();
    registry.add_approved_issuer(&fm, admin, "USD", tether).unwrap();
    registry.add_approved_issuer(&fm, admin, "USD", paypal).unwrap();

    assert!(registry.is_approved_issuer("USD", circle));
    assert!(registry.is_approved_issuer("USD", tether));
    assert!(registry.is_approved_issuer("USD", paypal));
    assert_eq!(registry.get_approved_issuers("USD").len(), 3);

    // Remove the middle one; others stay.
    registry.remove_approved_issuer(&fm, admin, "USD", tether).unwrap();
    assert!(registry.is_approved_issuer("USD", circle));
    assert!(!registry.is_approved_issuer("USD", tether));
    assert!(registry.is_approved_issuer("USD", paypal));
    assert_eq!(registry.get_approved_issuers("USD").len(), 2);
}

#[test]
fn approve_then_revoke_restores_enumeration() {
    let admin = Address::repeat_byte(0x11);
    let fm = fee_manager_with_admin(admin);
    let mut registry = MIP20IssuerRegistry::new();
    registry.add_approved_issuer(&fm, admin, "USD", Address::repeat_byte(0xD1)).unwrap();
    registry.add_approved_issuer(&fm, admin, "USD", Address::repeat_byte(0xD2)).unwrap();
    let before = registry.get_approved_issuers("USD");
    registry.add_approved_issuer(&fm, admin, "USD", Address::repeat_byte(0xD3)).unwrap();
    registry.remove_approved_issuer(&fm, admin, "USD", Address::repeat_byte(0xD3)).unwrap();
    assert_eq!(registry.get_approved_issuers("USD"), before);
}

#[test]
fn registry_call_routes_views_and_refuses_governance_selectors() {
    let admin = Address::repeat_byte(0x12);
    let issuer = Address::repeat_byte(0x13);
    let fm = fee_manager_with_admin(admin);
    let mut registry = MIP20IssuerRegistry::new();
    registry.add_approved_issuer(&fm, admin, "USD", issuer).unwrap();

    let approved = registry
        .call(&IssuerRegistryCall::IsApprovedIssuer { currency: "USD".to_string(), issuer })
        .unwrap();
    assert!(matches!(approved, IssuerRegistryAnswer::Approved(true)));
    match registry.call(&IssuerRegistryCall::GetApprovedIssuers { currency: "USD".to_string() }) {
        Ok(IssuerRegistryAnswer::Issuers(list)) => assert_eq!(list, vec![issuer]),
        other => panic!("unexpected answer {other:?}"),
    }
    let refused = registry
        .call(&IssuerRegistryCall::AddApprovedIssuer { currency: "USD".to_string(), issuer })
        .unwrap_err();
    assert_eq!(
        refused,
        MagnusPrecompileError::Fatal(
            "MIP20IssuerRegistry governance functions not implemented in G0".to_string()
        )
    );
}

#[test]
fn approvals_and_revocations_emit_events() {
    let admin = Address::repeat_byte(0x31);
    let issuer = Address::repeat_byte(0x32);
    let fm = fee_manager_with_admin(admin);
    let mut registry = MIP20IssuerRegistry::new();
    assert!(registry.events().is_empty());
    registry.add_approved_issuer(&fm, admin, "USD", issuer).unwrap();
    assert!(registry.add_approved_issuer(&fm, admin, "USD", issuer).is_err());
    registry.remove_approved_issuer(&fm, admin, "USD", issuer).unwrap();
    let events = registry.events();
    assert_eq!(events.len(), 2);
    assert!(matches!(&events[0], IssuerRegistryEvent::IssuerApproved { currency, issuer: i }
        if currency == "USD" && *i == issuer));
    assert!(matches!(&events[1], IssuerRegistryEvent::IssuerRevoked { currency, issuer: i }
        if currency == "USD" && *i == issuer));
}
