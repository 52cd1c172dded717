//! Per-currency allowlist of governance-approved MIP-20 issuers.
use crate::address_list::{
    copy_list, lemma_index_of_unique, lemma_push_fresh, lemma_swap_remove, lemma_swap_remove_pushed,
    lemma_view_insert, position_of, swap_removed,
};
use crate::error::{IssuerRegistryError, MagnusPrecompileError};
use crate::fee_manager::{currency_key_of, currency_key_of_chars, lemma_currency_key, MipFeeManager};
use crate::hashing::currency_key;
use crate::primitives::{Address, KeyedAddress, B256};
use crate::table::Table;
use vstd::prelude::*;
use vstd::string::*;

verus! {

/// The stored state of the registry.
pub struct IssuerRegistryView {
    /// `(keccak256(currency), issuer) -> approved`.
    pub approved: Map<KeyedAddress, bool>,
    /// Enumeration of approved issuers per currency key.
    pub lists: Map<B256, Seq<Address>>,
    /// The events emitted so far, oldest first.
    pub events: Seq<RegistryEvent>,
}

/// An event the issuer registry emits.
#[derive(Clone, Debug)]
pub enum IssuerRegistryEvent {
    IssuerApproved { currency: String, issuer: Address },
    IssuerRevoked { currency: String, issuer: Address },
}

/// An issuer registry event, with the currency code as a character sequence.
pub enum RegistryEvent {
    IssuerApproved { currency: Seq<char>, issuer: Address },
    IssuerRevoked { currency: Seq<char>, issuer: Address },
}

impl View for IssuerRegistryEvent {
    type V = RegistryEvent;

    open spec fn view(&self) -> RegistryEvent {
        match self {
            IssuerRegistryEvent::IssuerApproved { currency, issuer } => RegistryEvent::IssuerApproved {
                currency: currency@,
                issuer: *issuer,
            },
            IssuerRegistryEvent::IssuerRevoked { currency, issuer } => RegistryEvent::IssuerRevoked {
                currency: currency@,
                issuer: *issuer,
            },
        }
    }
}

/// The views of a sequence of registry events.
pub open spec fn registry_event_views(events: Seq<IssuerRegistryEvent>) -> Seq<RegistryEvent> {
    events.map_values(|e: IssuerRegistryEvent| e@)
}

impl IssuerRegistryView {
    pub open spec fn is_approved(&self, key: B256, issuer: Address) -> bool {
        let k = KeyedAddress { key, address: issuer };
        self.approved.contains_key(k) && self.approved[k]
    }

    pub open spec fn issuers(&self, key: B256) -> Seq<Address> {
        if self.lists.contains_key(key) {
            self.lists[key]
        } else {
            Seq::empty()
        }
    }

    /// The approval flags and the per-currency enumerations agree, and no enumeration
    /// lists an issuer twice.
    pub open spec fn in_sync(&self) -> bool {
        &&& forall|k: B256, a: Address| #[trigger] self.is_approved(k, a) <==> self.issuers(k).contains(a)
        &&& forall|k: B256| #[trigger] self.issuers(k).no_duplicates()
    }

    pub open spec fn with_approved(self, key: B256, issuer: Address) -> IssuerRegistryView {
        IssuerRegistryView {
            approved: self.approved.insert(KeyedAddress { key, address: issuer }, true),
            lists: self.lists.insert(key, self.issuers(key).push(issuer)),
            ..self
        }
    }

    pub open spec fn with_revoked(self, key: B256, issuer: Address) -> IssuerRegistryView {
        IssuerRegistryView {
            approved: self.approved.insert(KeyedAddress { key, address: issuer }, false),
            lists: self.lists.insert(key, swap_removed(self.issuers(key), issuer)),
            ..self
        }
    }

    /// `event` appended to the event log.
    pub open spec fn emitted(self, event: RegistryEvent) -> IssuerRegistryView {
        IssuerRegistryView { events: self.events.push(event), ..self }
    }
}

/// Approving an issuer that is not approved keeps the approval flags and the per-currency
/// enumerations in agreement.
pub proof fn lemma_approve_keeps_sync(a: IssuerRegistryView, key: B256, issuer: Address)
    requires
        a.in_sync(),
        !a.is_approved(key, issuer),
    ensures
        a.with_approved(key, issuer).in_sync(),
{
    let b = a.with_approved(key, issuer);
    lemma_push_fresh(a.issuers(key), issuer);
    assert forall|k: B256, x: Address| #[trigger] b.is_approved(k, x) <==> b.issuers(k).contains(x) by {
        assert(a.is_approved(k, x) <==> a.issuers(k).contains(x));
    }
    assert forall|k: B256| #[trigger] b.issuers(k).no_duplicates() by {
        assert(a.issuers(k).no_duplicates());
    }
}

/// Revoking an approved issuer keeps the approval flags and the per-currency enumerations
/// in agreement.
pub proof fn lemma_revoke_keeps_sync(a: IssuerRegistryView, key: B256, issuer: Address)
    requires
        a.in_sync(),
        a.is_approved(key, issuer),
    ensures
        a.with_revoked(key, issuer).in_sync(),
        a.issuers(key).contains(issuer),
{
    let b = a.with_revoked(key, issuer);
    let l = a.issuers(key);
    assert(l.contains(issuer));
    assert(l.no_duplicates());
    lemma_swap_remove(l, l.index_of(issuer));
    assert forall|k: B256, x: Address| #[trigger] b.is_approved(k, x) <==> b.issuers(k).contains(x) by {
        assert(a.is_approved(k, x) <==> a.issuers(k).contains(x));
    }
    assert forall|k: B256| #[trigger] b.issuers(k).no_duplicates() by {
        assert(a.issuers(k).no_duplicates());
    }
}

/// Approving an issuer that was not approved for a currency and then revoking it again
/// leaves every approval and every currency's enumeration as it was.
pub proof fn law_approve_then_revoke_restores(view: IssuerRegistryView, key: B256, issuer: Address)
    requires
        view.in_sync(),
        !view.is_approved(key, issuer),
    ensures
        forall|k: B256, a: Address| #[trigger] view.with_approved(key, issuer).with_revoked(
            key,
            issuer,
        ).is_approved(k, a) == view.is_approved(k, a),
        forall|k: B256| #[trigger] view.with_approved(key, issuer).with_revoked(key, issuer).issuers(k)
            == view.issuers(k),
{
    let w = view.with_approved(key, issuer).with_revoked(key, issuer);
    assert(!view.issuers(key).contains(issuer));
    lemma_swap_remove_pushed(view.issuers(key), issuer);
    assert forall|k: B256, a: Address| #[trigger] w.is_approved(k, a) == view.is_approved(k, a) by {}
    assert forall|k: B256| #[trigger] w.issuers(k) == view.issuers(k) by {}
}

/// Per-currency allowlist of governance-approved MIP-20 issuers.
pub struct MIP20IssuerRegistry {
    approved_issuers: Table<KeyedAddress, bool>,
    approved_issuer_list: Table<B256, Vec<Address>>,
    events: Vec<IssuerRegistryEvent>,
}

impl View for MIP20IssuerRegistry {
    type V = IssuerRegistryView;

    closed spec fn view(&self) -> IssuerRegistryView {
        IssuerRegistryView {
            approved: self.approved_issuers@,
            lists: self.approved_issuer_list@.map_values(|l: Vec<Address>| l@),
            events: registry_event_views(self.events@),
        }
    }
}

/// `r` is the registry revert `e`.
pub open spec fn is_registry_err<T>(r: Result<T, MagnusPrecompileError>, e: IssuerRegistryError) -> bool {
    r == Err::<T, MagnusPrecompileError>(MagnusPrecompileError::MIP20IssuerRegistry(e))
}

/// `r` is a registry revert of kind `kind` naming `issuer` (when it names one) and `code`.
pub open spec fn is_registry_currency_err<T>(
    r: Result<T, MagnusPrecompileError>,
    kind: RegistryErrorKind,
    issuer: Address,
    code: Seq<char>,
) -> bool {
    match r {
        Err(MagnusPrecompileError::MIP20IssuerRegistry(e)) => match (kind, e) {
            (RegistryErrorKind::CurrencyNotRegistered, IssuerRegistryError::CurrencyNotRegistered { currency }) =>
                currency@ == code,
            (RegistryErrorKind::AlreadyApproved, IssuerRegistryError::IssuerAlreadyApproved { issuer: i, currency }) =>
                i == issuer && currency@ == code,
            (RegistryErrorKind::NotInAllowlist, IssuerRegistryError::IssuerNotInAllowlist { issuer: i, currency }) =>
                i == issuer && currency@ == code,
            _ => false,
        },
        _ => false,
    }
}

/// The kinds of registry revert that name a currency.
pub enum RegistryErrorKind {
    CurrencyNotRegistered,
    AlreadyApproved,
    NotInAllowlist,
}

fn registry_error<T>(e: IssuerRegistryError) -> (r: Result<T, MagnusPrecompileError>)
    ensures
        is_registry_err(r, e),
{
    Err(MagnusPrecompileError::MIP20IssuerRegistry(e))
}

impl MIP20IssuerRegistry {
    pub closed spec fn wf(&self) -> bool {
        &&& self.approved_issuers.wf()
        &&& self.approved_issuer_list.wf()
        &&& self@.in_sync()
    }

    /// A registry with empty storage.
    pub fn new() -> (r: MIP20IssuerRegistry)
        ensures
            r.wf(),
            r@.approved == Map::<KeyedAddress, bool>::empty(),
            r@.lists == Map::<B256, Seq<Address>>::empty(),
            r@.events == Seq::<RegistryEvent>::empty(),
    {
        let r = MIP20IssuerRegistry {
            approved_issuers: Table::new(),
            approved_issuer_list: Table::new(),
            events: Vec::new(),
        };
        assert(r@.lists =~= Map::<B256, Seq<Address>>::empty());
        assert(r@.events =~= Seq::<RegistryEvent>::empty());
        r
    }

    /// The events emitted so far, oldest first.
    pub fn events(&self) -> (r: &Vec<IssuerRegistryEvent>)
        ensures
            registry_event_views(r@) == self@.events,
    {
        &self.events
    }

    /// Appends `event` to the event log.
    fn emit(&mut self, event: IssuerRegistryEvent)
        ensures
            final(self)@ == old(self)@.emitted(event@),
            old(self).wf() ==> final(self).wf(),
    {
        let ghost before = self@;
        self.events.push(event);
        proof {
            assert(registry_event_views(self.events@) =~= before.events.push(event@));
            assert(self@ =~= before.emitted(event@));
            if before.in_sync() {
                let after = self@;
                assert forall|k: B256, a: Address| #[trigger] after.is_approved(k, a) <==> after.issuers(k).contains(a) by {
                    assert(before.is_approved(k, a) <==> before.issuers(k).contains(a));
                }
                assert forall|k: B256| #[trigger] after.issuers(k).no_duplicates() by {
                    assert(before.issuers(k).no_duplicates());
                }
            }
        }
    }

    fn key_of(currency: &str) -> (r: B256)
        ensures
            r == currency_key_of(currency),
    {
        let key = currency_key(currency);
        proof {
            lemma_currency_key(currency, key);
        }
        key
    }

    fn approved(&self, key: &B256, issuer: &Address) -> (r: bool)
        requires
            self.approved_issuers.wf(),
        ensures
            r == self@.is_approved(*key, *issuer),
    {
        match self.approved_issuers.get(&KeyedAddress { key: *key, address: *issuer }) {
            Some(b) => *b,
            None => false,
        }
    }

    fn read_list(&self, key: &B256) -> (r: Vec<Address>)
        requires
            self.approved_issuer_list.wf(),
        ensures
            r@ == self@.issuers(*key),
    {
        match self.approved_issuer_list.get(key) {
            Some(l) => copy_list(l),
            None => Vec::new(),
        }
    }

    /// Whether `issuer` is approved for `currency`.
    pub fn is_approved_issuer(&self, currency: &str, issuer: Address) -> (r: bool)
        requires
            self.wf(),
        ensures
            r == self@.is_approved(currency_key_of(currency), issuer),
    {
        let key = Self::key_of(currency);
        self.approved(&key, &issuer)
    }

    /// The issuers approved for `currency`, in storage order.
    pub fn get_approved_issuers(&self, currency: &str) -> (r: Vec<Address>)
        requires
            self.wf(),
        ensures
            r@ == self@.issuers(currency_key_of(currency)),
            forall|a: Address| r@.contains(a) <==> self@.is_approved(currency_key_of(currency), a),
    {
        let key = Self::key_of(currency);
        self.read_list(&key)
    }

    /// Approves `issuer` to deploy MIP-20 tokens of `currency`. The currency must be
    /// registered in the fee manager and the caller must be its governance admin.
    pub fn add_approved_issuer(&mut self, fee_manager: &MipFeeManager, sender: Address, currency: &str, issuer: Address) -> (r: Result<(), MagnusPrecompileError>)
        requires
            old(self).wf(),
            fee_manager.wf(),
        ensures
            final(self).wf(),
            sender != fee_manager@.governance_admin ==> is_registry_err(
                r,
                IssuerRegistryError::OnlyGovernanceAdmin { caller: sender },
            ),
            sender == fee_manager@.governance_admin && !fee_manager@.currency_of(currency).registered
                ==> is_registry_currency_err(r, RegistryErrorKind::CurrencyNotRegistered, issuer, currency@),
            sender == fee_manager@.governance_admin && fee_manager@.currency_of(currency).registered
                && old(self)@.is_approved(currency_key_of(currency), issuer) ==> is_registry_currency_err(
                r,
                RegistryErrorKind::AlreadyApproved,
                issuer,
                currency@,
            ),
            r is Ok <==> sender == fee_manager@.governance_admin && fee_manager@.currency_of(
                currency,
            ).registered && !old(self)@.is_approved(currency_key_of(currency), issuer),
            r is Ok ==> final(self)@ == old(self)@.with_approved(currency_key_of(currency), issuer).emitted(
                RegistryEvent::IssuerApproved { currency: currency@, issuer },
            ),
            r is Err ==> final(self)@ == old(self)@,
    {
        if !sender.same(&fee_manager.governance_admin()) {
            return registry_error(IssuerRegistryError::OnlyGovernanceAdmin { caller: sender });
        }
        if !fee_manager.get_currency_config(currency).registered {
            return registry_error(
                IssuerRegistryError::CurrencyNotRegistered { currency: String::from_str(currency) },
            );
        }
        let key = Self::key_of(currency);
        if self.approved(&key, &issuer) {
            return registry_error(
                IssuerRegistryError::IssuerAlreadyApproved { issuer, currency: String::from_str(currency) },
            );
        }
        let ghost before = self@;
        proof {
            lemma_approve_keeps_sync(before, key, issuer);
        }
        let mut list = self.read_list(&key);
        list.push(issuer);
        let ghost tl = self.approved_issuer_list@;
        self.approved_issuer_list.set(key, list);
        proof {
            lemma_view_insert(tl, key, list);
        }
        self.approved_issuers.set(KeyedAddress { key, address: issuer }, true);
        proof {
            assert(self@ == before.with_approved(key, issuer));
        }
        self.emit(IssuerRegistryEvent::IssuerApproved { currency: String::from_str(currency), issuer });
        Ok(())
    }

    /// Revokes `issuer`'s approval for `currency`. The caller must be the fee manager's
    /// governance admin.
    pub fn remove_approved_issuer(&mut self, fee_manager: &MipFeeManager, sender: Address, currency: &str, issuer: Address) -> (r: Result<(), MagnusPrecompileError>)
        requires
            old(self).wf(),
            fee_manager.wf(),
        ensures
            final(self).wf(),
            sender != fee_manager@.governance_admin ==> is_registry_err(
                r,
                IssuerRegistryError::OnlyGovernanceAdmin { caller: sender },
            ),
            sender == fee_manager@.governance_admin && !old(self)@.is_approved(
                currency_key_of(currency),
                issuer,
            ) ==> is_registry_currency_err(r, RegistryErrorKind::NotInAllowlist, issuer, currency@),
            r is Ok <==> sender == fee_manager@.governance_admin && old(self)@.is_approved(
                currency_key_of(currency),
                issuer,
            ),
            r is Ok ==> final(self)@ == old(self)@.with_revoked(currency_key_of(currency), issuer).emitted(
                RegistryEvent::IssuerRevoked { currency: currency@, issuer },
            ),
            r is Err ==> final(self)@ == old(self)@,
    {
        if !sender.same(&fee_manager.governance_admin()) {
            return registry_error(IssuerRegistryError::OnlyGovernanceAdmin { caller: sender });
        }
        let key = Self::key_of(currency);
        if !self.approved(&key, &issuer) {
            return registry_error(
                IssuerRegistryError::IssuerNotInAllowlist { issuer, currency: String::from_str(currency) },
            );
        }
        let ghost before = self@;
        proof {
            lemma_revoke_keeps_sync(before, key, issuer);
        }
        let mut list = self.read_list(&key);
        let pos = match position_of(&list, &issuer) {
            Some(p) => p,
            None => {
                assert(false);
                return Err(MagnusPrecompileError::Fatal(String::from_str("approved_issuers flag set but issuer missing from list")));
            },
        };
        proof {
            lemma_index_of_unique(list@, pos as int);
        }
        list.swap_remove(pos);
        let ghost tl = self.approved_issuer_list@;
        self.approved_issuer_list.set(key, list);
        proof {
            lemma_view_insert(tl, key, list);
        }
        self.approved_issuers.set(KeyedAddress { key, address: issuer }, false);
        proof {
            assert(self@ == before.with_revoked(key, issuer));
        }
        self.emit(IssuerRegistryEvent::IssuerRevoked { currency: String::from_str(currency), issuer });
        Ok(())
    }
}

/// A decoded call of the issuer registry's ABI.
#[derive(Clone, Debug)]
pub enum IssuerRegistryCall {
    IsApprovedIssuer { currency: String, issuer: Address },
    GetApprovedIssuers { currency: String },
    AddApprovedIssuer { currency: String, issuer: Address },
    RemoveApprovedIssuer { currency: String, issuer: Address },
}

/// The answer to an issuer registry call.
#[derive(Clone, Debug)]
pub enum IssuerRegistryAnswer {
    Approved(bool),
    Issuers(Vec<Address>),
}

/// The message of the error that the governance-gated selectors answer with.
pub open spec fn governance_not_served_message() -> Seq<char> {
    "MIP20IssuerRegistry governance functions not implemented in G0"@
}

impl MIP20IssuerRegistry {
    /// Routes a decoded call of the registry's ABI: the two views answer from storage;
    /// the governance-gated mutators are not served through the precompile and end in a
    /// fatal error, distinct from a business-logic revert.
    pub fn call(&self, call: &IssuerRegistryCall) -> (r: Result<
        IssuerRegistryAnswer,
        MagnusPrecompileError,
    >)
        requires
            self.wf(),
        ensures
            match *call {
                IssuerRegistryCall::IsApprovedIssuer { currency, issuer } => r == Ok::<
                    IssuerRegistryAnswer,
                    MagnusPrecompileError,
                >(IssuerRegistryAnswer::Approved(self@.is_approved(currency_key_of_chars(currency@), issuer))),
                IssuerRegistryCall::GetApprovedIssuers { currency } => r matches Ok(
                    IssuerRegistryAnswer::Issuers(l),
                ) && l@ == self@.issuers(currency_key_of_chars(currency@)),
                IssuerRegistryCall::AddApprovedIssuer { .. } => r matches Err(
                    MagnusPrecompileError::Fatal(m),
                ) && m@ == governance_not_served_message(),
                IssuerRegistryCall::RemoveApprovedIssuer { .. } => r matches Err(
                    MagnusPrecompileError::Fatal(m),
                ) && m@ == governance_not_served_message(),
            },
    {
        match call {
            IssuerRegistryCall::IsApprovedIssuer { currency, issuer } => Ok(
                IssuerRegistryAnswer::Approved(self.is_approved_issuer(currency.as_str(), *issuer)),
            ),
            IssuerRegistryCall::GetApprovedIssuers { currency } => Ok(
                IssuerRegistryAnswer::Issuers(self.get_approved_issuers(currency.as_str())),
            ),
            IssuerRegistryCall::AddApprovedIssuer { .. } | IssuerRegistryCall::RemoveApprovedIssuer {
                ..
            } => Err(
                MagnusPrecompileError::Fatal(
                    String::from_str("MIP20IssuerRegistry governance functions not implemented in G0"),
                ),
            ),
        }
    }
}

} // verus!
