//! Fee manager precompile: governance-gated currency registry, validator fee-token
//! accept-sets, fee ledgers and off-boarding escrow.
//!
//! Every operation is one EVM call: it either returns `Ok` with its effect applied, or
//! returns `Err` and the surrounding transaction reverts. Block context the precompile
//! reads (block number, timestamp) and facts about MIP-20 tokens that live in other
//! precompiles are passed in as arguments.
use crate::currency::{is_valid_currency_code, valid_currency_code, CurrencyConfig};
use crate::error::{FeeManagerError, MagnusPrecompileError, Mip20Error, PanicKind};
use crate::escrow::{saturating_add_u64, ClaimRecord};
use crate::fee_events::{event_views, FeeEvent, FeeManagerEvent};
use crate::hashing::{currency_key, keccak256_of};
use crate::primitives::{half_word, u256_max, Address, AddressPair, B256, U256};
use crate::table::Table;
use crate::address_list::{
    copy_list, lemma_drop_first, lemma_index_of_unique, lemma_index_of_unique_any, lemma_push_fresh,
    lemma_swap_remove, lemma_swap_remove_pushed, lemma_view_insert, position_of, swap_removed,
    swap_removed_at, tail_of,
};
use vstd::prelude::*;
use vstd::string::*;
use vstd::utf8::encode_utf8;

verus! {

/// Cap on per-validator accept-set size. Prevents state-bloat abuse.
pub const MAX_ACCEPT_SET_SIZE: usize = 32;
/// Genesis default for the deprecation grace period: 30 days in seconds.
pub const DEFAULT_GRACE_PERIOD_SECS: u64 = 2592000;
/// Sanity-bound minimum grace period: 1 hour.
pub const MIN_GRACE_PERIOD_SECS: u64 = 3600;
/// Sanity-bound maximum grace period: 365 days.
pub const MAX_GRACE_PERIOD_SECS: u64 = 31536000;
/// Genesis default for the emergency-disable threshold: 7 (of a 9-signer multisig).
pub const DEFAULT_EMERGENCY_THRESHOLD: u8 = 7;
/// Sanity-bound minimum emergency threshold.
pub const MIN_EMERGENCY_THRESHOLD: u8 = 6;
/// Sanity-bound maximum emergency threshold.
pub const MAX_EMERGENCY_THRESHOLD: u8 = 9;
/// Cap on per-call prune iterations (gas safety).
pub const MAX_PRUNE_ITERATIONS: u64 = 256;
/// Genesis default escrow claim window: 365 days in seconds.
pub const DEFAULT_ESCROW_CLAIM_WINDOW_SECS: u64 = 31536000;
/// Sanity-bound minimum escrow claim window: 30 days.
pub const MIN_ESCROW_CLAIM_WINDOW_SECS: u64 = 2592000;
/// Sanity-bound maximum escrow claim window: 1825 days.
pub const MAX_ESCROW_CLAIM_WINDOW_SECS: u64 = 157680000;
/// Swap fee in basis points (0.25%).
pub const FEE_BPS: u64 = 25;
/// Basis-point denominator (10 000 = 100%).
pub const BASIS_POINTS: u64 = 10000;

/// The stored state of the fee manager, as maps from storage keys to values.
/// A key absent from a map reads as the default (zero) value.
pub struct FeeManagerView {
    pub governance_admin: Address,
    pub deprecation_grace_period: u64,
    pub emergency_disable_threshold: u8,
    pub escrow_claim_window: u64,
    pub foundation_escrow_address: Address,
    pub validator_tokens: Map<Address, Address>,
    pub user_tokens: Map<Address, Address>,
    pub currencies: Map<B256, CurrencyConfig>,
    pub collected_fees: Map<AddressPair, U256>,
    pub escrowed_fees: Map<AddressPair, U256>,
    pub escrow_claims: Map<Address, ClaimRecord>,
    pub accepted: Map<AddressPair, bool>,
    pub token_lists: Map<Address, Seq<Address>>,
    pub token_validators: Map<Address, Seq<Address>>,
    /// The events emitted so far, oldest first.
    pub events: Seq<FeeEvent>,
}

/// The storage key of a (validator, token) pair.
pub open spec fn pair(first: Address, second: Address) -> AddressPair {
    AddressPair { first, second }
}

/// The storage key under which the config of `code` lives: `keccak256(code)`.
pub open spec fn currency_key_of(code: &str) -> B256 {
    currency_key_of_chars(code@)
}

/// The storage key of the currency code with characters `code`: its Keccak-256 digest.
pub open spec fn currency_key_of_chars(code: Seq<char>) -> B256 {
    choose|b: B256| b.bytes@ == keccak256_of(encode_utf8(code))
}

/// `currency_key` computes `currency_key_of`.
pub(crate) proof fn lemma_currency_key(code: &str, b: B256)
    requires
        b.bytes@ == keccak256_of(code.spec_bytes()),
    ensures
        b == currency_key_of(code),
{
    let c = currency_key_of(code);
    assert(c.bytes@ == keccak256_of(code.spec_bytes()));
    assert(c.bytes =~= b.bytes);
}

impl FeeManagerView {
    pub open spec fn currency(&self, key: B256) -> CurrencyConfig {
        if self.currencies.contains_key(key) {
            self.currencies[key]
        } else {
            CurrencyConfig::spec_default()
        }
    }

    pub open spec fn currency_of_chars(&self, code: Seq<char>) -> CurrencyConfig {
        self.currency(currency_key_of_chars(code))
    }

    pub open spec fn currency_of(&self, code: &str) -> CurrencyConfig {
        self.currency(currency_key_of(code))
    }

    /// The fee token `user` prefers; zero when none was set.
    pub open spec fn user_token(&self, user: Address) -> Address {
        if self.user_tokens.contains_key(user) {
            self.user_tokens[user]
        } else {
            spec_zero_address()
        }
    }

    pub open spec fn with_user_token(self, user: Address, token: Address) -> FeeManagerView {
        FeeManagerView { user_tokens: self.user_tokens.insert(user, token), ..self }
    }

    pub open spec fn validator_token(&self, validator: Address) -> Address {
        if self.validator_tokens.contains_key(validator) {
            self.validator_tokens[validator]
        } else {
            spec_zero_address()
        }
    }

    pub open spec fn collected(&self, validator: Address, token: Address) -> nat {
        if self.collected_fees.contains_key(pair(validator, token)) {
            self.collected_fees[pair(validator, token)]@
        } else {
            0
        }
    }

    pub open spec fn escrowed(&self, validator: Address, token: Address) -> nat {
        if self.escrowed_fees.contains_key(pair(validator, token)) {
            self.escrowed_fees[pair(validator, token)]@
        } else {
            0
        }
    }

    pub open spec fn claim(&self, validator: Address) -> ClaimRecord {
        if self.escrow_claims.contains_key(validator) {
            self.escrow_claims[validator]
        } else {
            ClaimRecord::spec_default()
        }
    }

    pub open spec fn accepts(&self, validator: Address, token: Address) -> bool {
        self.accepted.contains_key(pair(validator, token)) && self.accepted[pair(validator, token)]
    }

    pub open spec fn token_list(&self, validator: Address) -> Seq<Address> {
        if self.token_lists.contains_key(validator) {
            self.token_lists[validator]
        } else {
            Seq::empty()
        }
    }

    pub open spec fn validators_of(&self, token: Address) -> Seq<Address> {
        if self.token_validators.contains_key(token) {
            self.token_validators[token]
        } else {
            Seq::empty()
        }
    }

    /// Effective grace period: the stored value, or the default when unset (zero).
    pub open spec fn grace_period(&self) -> u64 {
        if self.deprecation_grace_period == 0 {
            DEFAULT_GRACE_PERIOD_SECS
        } else {
            self.deprecation_grace_period
        }
    }

    /// Effective emergency threshold: the stored value, or the default when unset (zero).
    pub open spec fn emergency_threshold(&self) -> u8 {
        if self.emergency_disable_threshold == 0 {
            DEFAULT_EMERGENCY_THRESHOLD
        } else {
            self.emergency_disable_threshold
        }
    }

    /// Effective escrow claim window: the stored value, or the default when unset (zero).
    pub open spec fn claim_window(&self) -> u64 {
        if self.escrow_claim_window == 0 {
            DEFAULT_ESCROW_CLAIM_WINDOW_SECS
        } else {
            self.escrow_claim_window
        }
    }

    /// `event` appended to the event log.
    pub open spec fn emitted(self, event: FeeEvent) -> FeeManagerView {
        FeeManagerView { events: self.events.push(event), ..self }
    }

    pub open spec fn with_admin(self, admin: Address) -> FeeManagerView {
        FeeManagerView { governance_admin: admin, ..self }
    }

    pub open spec fn with_currency(self, key: B256, config: CurrencyConfig) -> FeeManagerView {
        FeeManagerView { currencies: self.currencies.insert(key, config), ..self }
    }

    pub open spec fn with_grace_period(self, grace: u64) -> FeeManagerView {
        FeeManagerView { deprecation_grace_period: grace, ..self }
    }

    pub open spec fn with_emergency_threshold(self, threshold: u8) -> FeeManagerView {
        FeeManagerView { emergency_disable_threshold: threshold, ..self }
    }

    pub open spec fn with_claim_window(self, window: u64) -> FeeManagerView {
        FeeManagerView { escrow_claim_window: window, ..self }
    }

    pub open spec fn with_foundation(self, foundation: Address) -> FeeManagerView {
        FeeManagerView { foundation_escrow_address: foundation, ..self }
    }

    pub open spec fn with_collected(self, validator: Address, token: Address, amount: U256) -> FeeManagerView {
        FeeManagerView { collected_fees: self.collected_fees.insert(pair(validator, token), amount), ..self }
    }

    pub open spec fn with_escrowed(self, validator: Address, token: Address, amount: U256) -> FeeManagerView {
        FeeManagerView { escrowed_fees: self.escrowed_fees.insert(pair(validator, token), amount), ..self }
    }

    pub open spec fn with_validator_token(self, validator: Address, token: Address) -> FeeManagerView {
        FeeManagerView { validator_tokens: self.validator_tokens.insert(validator, token), ..self }
    }

    /// The reverse index of `token` replaced by `validators`.
    pub open spec fn with_validators(self, token: Address, validators: Seq<Address>) -> FeeManagerView {
        FeeManagerView { token_validators: self.token_validators.insert(token, validators), ..self }
    }

    /// `validator`'s accept-set entry for `token` cleared, leaving the reverse index alone.
    pub open spec fn with_entry_pruned(self, validator: Address, token: Address) -> FeeManagerView {
        FeeManagerView {
            accepted: self.accepted.insert(pair(validator, token), false),
            token_lists: if self.token_list(validator).contains(token) {
                self.token_lists.insert(validator, swap_removed(self.token_list(validator), token))
            } else {
                self.token_lists
            },
            ..self
        }
    }

    pub open spec fn with_claim(self, validator: Address, record: ClaimRecord) -> FeeManagerView {
        FeeManagerView { escrow_claims: self.escrow_claims.insert(validator, record), ..self }
    }

    /// One token of an off-boarding: `validator` stops accepting `token`, its list becomes
    /// `rest`, it leaves the token's reverse index and its fee balance of `token` is zeroed.
    pub open spec fn with_offboard_step(self, validator: Address, token: Address, rest: Seq<Address>) -> FeeManagerView {
        FeeManagerView {
            accepted: self.accepted.insert(pair(validator, token), false),
            token_lists: self.token_lists.insert(validator, rest),
            token_validators: self.token_validators.insert(
                token,
                swap_removed(self.validators_of(token), validator),
            ),
            collected_fees: self.collected_fees.insert(pair(validator, token), U256 { lo: 0, hi: 0 }),
            ..self
        }
    }

    /// `validator` adds `token` to its accept-set.
    pub open spec fn with_accept_added(self, validator: Address, token: Address) -> FeeManagerView {
        FeeManagerView {
            accepted: self.accepted.insert(pair(validator, token), true),
            token_lists: self.token_lists.insert(validator, self.token_list(validator).push(token)),
            token_validators: self.token_validators.insert(
                token,
                self.validators_of(token).push(validator),
            ),
            ..self
        }
    }

    /// `validator` removes `token` from its accept-set.
    pub open spec fn with_accept_removed(self, validator: Address, token: Address) -> FeeManagerView {
        FeeManagerView {
            accepted: self.accepted.insert(pair(validator, token), false),
            token_lists: self.token_lists.insert(
                validator,
                swap_removed(self.token_list(validator), token),
            ),
            token_validators: self.token_validators.insert(
                token,
                swap_removed(self.validators_of(token), validator),
            ),
            ..self
        }
    }

    /// The accept-set map, its per-validator list and the per-token reverse index agree:
    /// a validator accepts a token exactly when the token is in the validator's list and
    /// the validator is in the token's list; no list holds an entry twice; no accept-set
    /// exceeds `MAX_ACCEPT_SET_SIZE`.
    pub open spec fn accept_sets_in_sync(&self) -> bool {
        &&& forall|v: Address, t: Address|
            #[trigger] self.accepts(v, t) <==> self.token_list(v).contains(t)
        &&& forall|v: Address, t: Address|
            #[trigger] self.accepts(v, t) <==> self.validators_of(t).contains(v)
        &&& forall|v: Address| #[trigger] self.token_list(v).no_duplicates()
        &&& forall|t: Address| #[trigger] self.validators_of(t).no_duplicates()
        &&& forall|v: Address| #[trigger] self.token_list(v).len() <= MAX_ACCEPT_SET_SIZE
    }
}

/// Accept-set agreement depends only on the three accept-set tables.
proof fn lemma_sync_frame(a: FeeManagerView, b: FeeManagerView)
    requires
        a.accept_sets_in_sync(),
        a.accepted == b.accepted,
        a.token_lists == b.token_lists,
        a.token_validators == b.token_validators,
    ensures
        b.accept_sets_in_sync(),
{
    assert forall|v: Address, t: Address| #[trigger] b.accepts(v, t) <==> b.token_list(v).contains(t) by {
        assert(a.accepts(v, t) == b.accepts(v, t));
        assert(a.token_list(v) == b.token_list(v));
    }
    assert forall|v: Address, t: Address| #[trigger] b.accepts(v, t) <==> b.validators_of(t).contains(v) by {
        assert(a.accepts(v, t) == b.accepts(v, t));
        assert(a.validators_of(t) == b.validators_of(t));
    }
    assert forall|v: Address| #[trigger] b.token_list(v).no_duplicates() by {
        assert(a.token_list(v) == b.token_list(v));
    }
    assert forall|t: Address| #[trigger] b.validators_of(t).no_duplicates() by {
        assert(a.validators_of(t) == b.validators_of(t));
    }
    assert forall|v: Address| #[trigger] b.token_list(v).len() <= MAX_ACCEPT_SET_SIZE by {
        assert(a.token_list(v) == b.token_list(v));
    }
}

/// `config` after `enable_currency` at `current_block`.
pub open spec fn enabled_config(config: CurrencyConfig, current_block: u64) -> CurrencyConfig {
    CurrencyConfig {
        enabled: true,
        enabled_at_block: current_block,
        deprecating: false,
        deprecation_activates_at: 0,
        ..config
    }
}

/// `config` after `disable_currency` starts a grace period ending at `ends_at`.
pub open spec fn deprecating_config(config: CurrencyConfig, ends_at: u64) -> CurrencyConfig {
    CurrencyConfig { deprecating: true, deprecation_activates_at: ends_at, ..config }
}

/// `config` after `emergency_disable_currency`.
pub open spec fn emergency_disabled_config(config: CurrencyConfig) -> CurrencyConfig {
    CurrencyConfig { enabled: false, deprecating: false, deprecation_activates_at: 0, ..config }
}

/// `config` stamped as pruned at `current_block`.
pub open spec fn pruned_config(config: CurrencyConfig, current_block: u64) -> CurrencyConfig {
    CurrencyConfig { last_pruned_at_block: current_block, ..config }
}


/// Adding a token to an accept-set that has room for it and does not hold it keeps the
/// accept-set map, the validators' token lists and the tokens' reverse index in agreement.
pub proof fn lemma_add_keeps_sync(a: FeeManagerView, v: Address, t: Address)
    requires
        a.accept_sets_in_sync(),
        !a.accepts(v, t),
        a.token_list(v).len() < MAX_ACCEPT_SET_SIZE,
    ensures
        a.with_accept_added(v, t).accept_sets_in_sync(),
{
    let b = a.with_accept_added(v, t);
    lemma_push_fresh(a.token_list(v), t);
    lemma_push_fresh(a.validators_of(t), v);
    assert(b.token_list(v) == a.token_list(v).push(t));
    assert(b.validators_of(t) == a.validators_of(t).push(v));
    assert forall|v2: Address, t2: Address| #[trigger] b.accepts(v2, t2) <==> b.token_list(v2).contains(t2) by {
        assert(a.accepts(v2, t2) <==> a.token_list(v2).contains(t2));
        if pair(v2, t2) == pair(v, t) {
        } else if v2 == v {
        } else {
            assert(b.token_list(v2) == a.token_list(v2));
        }
    }
    assert forall|v2: Address, t2: Address| #[trigger] b.accepts(v2, t2) <==> b.validators_of(t2).contains(v2) by {
        assert(a.accepts(v2, t2) <==> a.validators_of(t2).contains(v2));
        if pair(v2, t2) == pair(v, t) {
        } else if t2 == t {
        } else {
            assert(b.validators_of(t2) == a.validators_of(t2));
        }
    }
    assert forall|v2: Address| #[trigger] b.token_list(v2).no_duplicates() by {
        assert(a.token_list(v2).no_duplicates());
    }
    assert forall|t2: Address| #[trigger] b.validators_of(t2).no_duplicates() by {
        assert(a.validators_of(t2).no_duplicates());
    }
    assert forall|v2: Address| #[trigger] b.token_list(v2).len() <= MAX_ACCEPT_SET_SIZE by {
        assert(a.token_list(v2).len() <= MAX_ACCEPT_SET_SIZE);
    }
}

/// Removing a token from an accept-set that holds it keeps the accept-set map, the
/// validators' token lists and the tokens' reverse index in agreement.
pub proof fn lemma_remove_keeps_sync(a: FeeManagerView, v: Address, t: Address)
    requires
        a.accept_sets_in_sync(),
        a.accepts(v, t),
    ensures
        a.with_accept_removed(v, t).accept_sets_in_sync(),
        a.token_list(v).contains(t),
        a.validators_of(t).contains(v),
{
    let b = a.with_accept_removed(v, t);
    let l = a.token_list(v);
    let w = a.validators_of(t);
    assert(l.contains(t));
    assert(w.contains(v));
    assert(l.no_duplicates());
    assert(w.no_duplicates());
    let i = l.index_of(t);
    let j = w.index_of(v);
    lemma_swap_remove(l, i);
    lemma_swap_remove(w, j);
    assert(b.token_list(v) == swap_removed_at(l, i));
    assert(b.validators_of(t) == swap_removed_at(w, j));
    assert forall|v2: Address, t2: Address| #[trigger] b.accepts(v2, t2) <==> b.token_list(v2).contains(t2) by {
        assert(a.accepts(v2, t2) <==> a.token_list(v2).contains(t2));
        if pair(v2, t2) == pair(v, t) {
        } else if v2 == v {
        } else {
            assert(b.token_list(v2) == a.token_list(v2));
        }
    }
    assert forall|v2: Address, t2: Address| #[trigger] b.accepts(v2, t2) <==> b.validators_of(t2).contains(v2) by {
        assert(a.accepts(v2, t2) <==> a.validators_of(t2).contains(v2));
        if pair(v2, t2) == pair(v, t) {
        } else if t2 == t {
        } else {
            assert(b.validators_of(t2) == a.validators_of(t2));
        }
    }
    assert forall|v2: Address| #[trigger] b.token_list(v2).no_duplicates() by {
        assert(a.token_list(v2).no_duplicates());
    }
    assert forall|t2: Address| #[trigger] b.validators_of(t2).no_duplicates() by {
        assert(a.validators_of(t2).no_duplicates());
    }
    assert forall|v2: Address| #[trigger] b.token_list(v2).len() <= MAX_ACCEPT_SET_SIZE by {
        assert(a.token_list(v2).len() <= MAX_ACCEPT_SET_SIZE);
    }
}

/// Accepting a token a validator did not accept and then removing it again leaves every
/// accept-set, every validator's token list and every token's reverse index as it was.
pub proof fn law_accept_add_then_remove_restores(view: FeeManagerView, validator: Address, token: Address)
    requires
        view.accept_sets_in_sync(),
        !view.accepts(validator, token),
    ensures
        forall|v: Address, t: Address| #[trigger] view.with_accept_added(validator, token).with_accept_removed(
            validator,
            token,
        ).accepts(v, t) == view.accepts(v, t),
        forall|v: Address| #[trigger] view.with_accept_added(validator, token).with_accept_removed(
            validator,
            token,
        ).token_list(v) == view.token_list(v),
        forall|t: Address| #[trigger] view.with_accept_added(validator, token).with_accept_removed(
            validator,
            token,
        ).validators_of(t) == view.validators_of(t),
{
    let added = view.with_accept_added(validator, token);
    let w = added.with_accept_removed(validator, token);
    assert(!view.token_list(validator).contains(token));
    assert(!view.validators_of(token).contains(validator));
    lemma_swap_remove_pushed(view.token_list(validator), token);
    lemma_swap_remove_pushed(view.validators_of(token), validator);
    assert(added.token_list(validator) == view.token_list(validator).push(token));
    assert(added.validators_of(token) == view.validators_of(token).push(validator));
    assert forall|v: Address, t: Address| #[trigger] w.accepts(v, t) == view.accepts(v, t) by {
        if pair(v, t) != pair(validator, token) {
            assert(w.accepted[pair(v, t)] == view.accepted[pair(v, t)] || !view.accepted.contains_key(
                pair(v, t),
            ));
        }
    }
    assert forall|v: Address| #[trigger] w.token_list(v) == view.token_list(v) by {
        if v != validator {
            assert(w.token_list(v) == added.token_list(v));
        }
    }
    assert forall|t: Address| #[trigger] w.validators_of(t) == view.validators_of(t) by {
        if t != token {
            assert(w.validators_of(t) == added.validators_of(t));
        }
    }
}

/// Off-boarding that went through every token of a validator's accept-set leaves the
/// validator accepting no token and with an empty token list.
pub proof fn law_offboarding_empties_accept_set(
    start: FeeManagerView,
    end: FeeManagerView,
    validator: Address,
    deliveries: Seq<FeeDelivery>,
)
    requires
        start.accept_sets_in_sync(),
        offboard_progress(
            start,
            end,
            validator,
            start.token_list(validator),
            start.token_list(validator).len() as int,
            deliveries,
        ),
    ensures
        forall|t: Address| !(#[trigger] end.accepts(validator, t)),
        end.token_list(validator).len() == 0,
{
    let tokens = start.token_list(validator);
    assert(tokens.take(tokens.len() as int) =~= tokens);
    assert forall|t: Address| !(#[trigger] end.accepts(validator, t)) by {
        assert(start.accepts(validator, t) <==> tokens.contains(t));
    }
}

/// A prune that removed every validator of a token's reverse index leaves no validator
/// accepting that token.
pub proof fn law_complete_prune_clears_token(before: FeeManagerView, after: FeeManagerView, token: Address)
    requires
        before.accept_sets_in_sync(),
        pruned(before, after, token, before.validators_of(token).len()),
    ensures
        forall|v: Address| !(#[trigger] after.accepts(v, token)),
        after.validators_of(token).len() == 0,
{
    let all = before.validators_of(token);
    assert(all.subrange(0, all.len() as int) =~= all);
    assert forall|v: Address| !(#[trigger] after.accepts(v, token)) by {
        assert(before.accepts(v, token) <==> all.contains(v));
    }
}

/// A token of a currency with config `config` may be used for fees at `now_ts`.
pub open spec fn currency_supported(config: CurrencyConfig, now_ts: u64) -> bool {
    config.registered && config.spec_effectively_enabled(now_ts)
}

/// New accept-set entries for a currency with config `config` are allowed at `now_ts`:
/// supported and not inside a deprecation grace window.
pub open spec fn currency_open_for_adds(config: CurrencyConfig, now_ts: u64) -> bool {
    currency_supported(config, now_ts) && !config.spec_in_grace_period(now_ts)
}

/// `r` is the revert `CurrencyDeprecating(code, config.deprecation_activates_at)`.
pub open spec fn is_deprecating_err<T>(r: Result<T, MagnusPrecompileError>, code: Seq<char>, config: CurrencyConfig) -> bool {
    match r {
        Err(MagnusPrecompileError::FeeManagerError(FeeManagerError::CurrencyDeprecating { currency, grace_ends_at })) =>
            currency@ == code && grace_ends_at == config.deprecation_activates_at,
        _ => false,
    }
}

/// The 256-bit word holding `n`.
pub open spec fn u256_of(n: nat) -> U256 {
    choose|u: U256| u@ == n
}

proof fn lemma_u256_of(u: U256)
    ensures
        u256_of(u@) == u,
{
    let c = u256_of(u@);
    assert(c@ == u@);
    U256::lemma_view_injective(c, u);
}

/// The default fee token: the path-USD MIP-20, `0x20c0000000000000000000000000000000000000`.
pub open spec fn spec_default_fee_token() -> Address {
    Address { bytes: [0x20u8, 0xc0u8, 0u8, 0u8, 0u8, 0u8, 0u8, 0u8, 0u8, 0u8, 0u8, 0u8, 0u8, 0u8, 0u8, 0u8, 0u8, 0u8, 0u8, 0u8] }
}

/// The default fee token: the path-USD MIP-20, `0x20c0000000000000000000000000000000000000`.
pub fn default_fee_token() -> (r: Address)
    ensures
        r == spec_default_fee_token(),
{
    Address { bytes: [0x20u8, 0xc0u8, 0u8, 0u8, 0u8, 0u8, 0u8, 0u8, 0u8, 0u8, 0u8, 0u8, 0u8, 0u8, 0u8, 0u8, 0u8, 0u8, 0u8, 0u8] }
}

/// Validators the prune of `token` visits: `min(min(max_iterations, MAX_PRUNE_ITERATIONS), len)`.
pub open spec fn prune_count(max_iterations: u64, len: nat) -> u64 {
    let budget = if max_iterations < MAX_PRUNE_ITERATIONS { max_iterations } else { MAX_PRUNE_ITERATIONS };
    if (budget as nat) < len { budget } else { len as u64 }
}

/// Relative to `start`, `cur` has cleared `token` from the accept-set of every validator in
/// `removed` (map flag and list entry), and nothing else.
pub open spec fn prune_progress(start: FeeManagerView, cur: FeeManagerView, token: Address, removed: Seq<Address>) -> bool {
    &&& forall|v: Address, t: Address| #[trigger] cur.accepts(v, t) == (start.accepts(v, t) && !(t
        == token && removed.contains(v)))
    &&& forall|v: Address| #[trigger] cur.token_list(v) == (if removed.contains(v) {
        swap_removed(start.token_list(v), token)
    } else {
        start.token_list(v)
    })
    &&& cur.token_validators == start.token_validators
    &&& cur.governance_admin == start.governance_admin
    &&& cur.deprecation_grace_period == start.deprecation_grace_period
    &&& cur.emergency_disable_threshold == start.emergency_disable_threshold
    &&& cur.escrow_claim_window == start.escrow_claim_window
    &&& cur.foundation_escrow_address == start.foundation_escrow_address
    &&& cur.validator_tokens == start.validator_tokens
    &&& cur.currencies == start.currencies
    &&& cur.collected_fees == start.collected_fees
    &&& cur.escrowed_fees == start.escrowed_fees
    &&& cur.escrow_claims == start.escrow_claims
}

/// `after` is `before` with `token` pruned from the last `count` validators of its reverse
/// index: those validators no longer accept it and their lists no longer hold it, the
/// reverse index keeps its first entries, and no other accept-set or ledger changes.
/// The `AcceptedTokenRemoved` events of a prune of `token` that took `count` validators off
/// the end of `all`, last first.
pub open spec fn prune_events(all: Seq<Address>, token: Address, count: nat) -> Seq<FeeEvent> {
    Seq::new(
        count,
        |i: int| FeeEvent::AcceptedTokenRemoved { validator: all[all.len() - 1 - i], token },
    )
}

pub open spec fn pruned(before: FeeManagerView, after: FeeManagerView, token: Address, count: nat) -> bool {
    let all = before.validators_of(token);
    let removed = all.subrange(all.len() - count, all.len() as int);
    &&& count <= all.len()
    &&& after.validators_of(token) == all.take(all.len() - count)
    &&& forall|v: Address, t: Address| #[trigger] after.accepts(v, t) == (before.accepts(v, t) && !(t
        == token && removed.contains(v)))
    &&& forall|v: Address| #[trigger] after.token_list(v) == (if removed.contains(v) {
        swap_removed(before.token_list(v), token)
    } else {
        before.token_list(v)
    })
    &&& after.collected_fees == before.collected_fees
    &&& after.escrowed_fees == before.escrowed_fees
    &&& after.escrow_claims == before.escrow_claims
    &&& after.validator_tokens == before.validator_tokens
    &&& after.governance_admin == before.governance_admin
    &&& after.events == before.events + prune_events(all, token, count)
}

/// Re-storing a token's reverse index under its own value keeps agreement.
proof fn lemma_sync_validators_same(a: FeeManagerView, t: Address)
    requires
        a.accept_sets_in_sync(),
    ensures
        a.with_validators(t, a.validators_of(t)).accept_sets_in_sync(),
{
    let b = a.with_validators(t, a.validators_of(t));
    assert forall|x: Address| #[trigger] b.validators_of(x) == a.validators_of(x) by {}
    assert forall|v: Address| #[trigger] b.token_list(v) == a.token_list(v) by {}
    assert forall|v: Address, x: Address| #[trigger] b.accepts(v, x) == a.accepts(v, x) by {}
    assert forall|v: Address, x: Address| #[trigger] b.accepts(v, x) <==> b.token_list(v).contains(x) by {
        assert(a.accepts(v, x) <==> a.token_list(v).contains(x));
    }
    assert forall|v: Address, x: Address| #[trigger] b.accepts(v, x) <==> b.validators_of(x).contains(v) by {
        assert(a.accepts(v, x) <==> a.validators_of(x).contains(v));
    }
    assert forall|v: Address| #[trigger] b.token_list(v).no_duplicates() by {
        assert(a.token_list(v).no_duplicates());
    }
    assert forall|x: Address| #[trigger] b.validators_of(x).no_duplicates() by {
        assert(a.validators_of(x).no_duplicates());
    }
    assert forall|v: Address| #[trigger] b.token_list(v).len() <= MAX_ACCEPT_SET_SIZE by {
        assert(a.token_list(v).len() <= MAX_ACCEPT_SET_SIZE);
    }
}

/// One iteration of the prune loop keeps the loop's facts.
proof fn lemma_prune_step(start: FeeManagerView, cur: FeeManagerView, token: Address, all: Seq<Address>, k: int, rest: Seq<Address>)
    requires
        start.accept_sets_in_sync(),
        all == start.validators_of(token),
        0 < k <= all.len(),
        rest == all.take(k - 1),
        cur.with_validators(token, all.take(k)).accept_sets_in_sync(),
        prune_progress(start, cur, token, all.subrange(k, all.len() as int)),
    ensures
        cur.token_list(all[k - 1]).no_duplicates(),
        cur.with_entry_pruned(all[k - 1], token).with_validators(token, rest).accept_sets_in_sync(),
        prune_progress(start, cur.with_entry_pruned(all[k - 1], token), token, all.subrange(k - 1, all.len() as int)),
{
    let v = all[k - 1];
    let n = all.len();
    let virt = cur.with_validators(token, all.take(k));
    let next = cur.with_entry_pruned(v, token);
    let removed = all.subrange(k, n as int);
    let removed2 = all.subrange(k - 1, n as int);
    assert(all.no_duplicates());
    assert(virt.validators_of(token) == all.take(k));
    assert(all.take(k)[k - 1] == v);
    assert(virt.validators_of(token).contains(v));
    assert(virt.accepts(v, token));
    assert(virt.token_list(v) == cur.token_list(v));
    assert(cur.token_list(v).contains(token));
    assert(all.take(k).no_duplicates()) by {
        assert forall|a: int, b: int| 0 <= a < k && 0 <= b < k && a != b implies all.take(k)[a] != all.take(k)[b] by {
            assert(all.take(k)[a] == all[a]);
            assert(all.take(k)[b] == all[b]);
        }
    }
    lemma_index_of_unique(all.take(k), k - 1);
    lemma_remove_keeps_sync(virt, v, token);
    let virt2 = virt.with_accept_removed(v, token);
    assert(swap_removed(all.take(k), v) =~= rest);
    assert(virt2.validators_of(token) == rest);
    assert(next.with_validators(token, rest).token_lists == virt2.token_lists);
    assert(next.with_validators(token, rest).accepted == virt2.accepted);
    assert(next.with_validators(token, rest).token_validators =~= virt2.token_validators);
    lemma_sync_frame(virt2, next.with_validators(token, rest));
    assert(!removed.contains(v)) by {
        if removed.contains(v) {
            let j = choose|j: int| 0 <= j < removed.len() && removed[j] == v;
            assert(all[k + j] == v);
        }
    }
    assert forall|x: Address| #[trigger] removed2.contains(x) <==> (removed.contains(x) || x == v) by {
        if removed2.contains(x) {
            let j = choose|j: int| 0 <= j < removed2.len() && removed2[j] == x;
            if j > 0 {
                assert(removed[j - 1] == x);
            }
        }
        if removed.contains(x) {
            let j = choose|j: int| 0 <= j < removed.len() && removed[j] == x;
            assert(removed2[j + 1] == x);
        }
        if x == v {
            assert(removed2[0] == x);
        }
    }
    assert(cur.token_list(v) == start.token_list(v));
    assert forall|v2: Address, t2: Address| #[trigger] next.accepts(v2, t2) == (start.accepts(v2, t2) && !(t2
        == token && removed2.contains(v2))) by {
        assert(cur.accepts(v2, t2) == (start.accepts(v2, t2) && !(t2 == token && removed.contains(v2))));
        if v2 == v && t2 == token {
            assert(!next.accepts(v2, t2));
        }
    }
    assert forall|v2: Address| #[trigger] next.token_list(v2) == (if removed2.contains(v2) {
        swap_removed(start.token_list(v2), token)
    } else {
        start.token_list(v2)
    }) by {
        assert(cur.token_list(v2) == (if removed.contains(v2) {
            swap_removed(start.token_list(v2), token)
        } else {
            start.token_list(v2)
        }));
    }
}

/// The outcome of one off-boarding fee transfer: `amount` of `token` was delivered to the
/// validator directly, or, when `delivered` is false, moved into escrow.
#[derive(Clone, Copy, Debug, PartialEq, Eq)]
pub struct FeeDelivery {
    pub token: Address,
    pub amount: U256,
    pub delivered: bool,
}

/// Total amount of `token` that the outcomes `ds` moved into escrow.
pub open spec fn undelivered(ds: Seq<FeeDelivery>, token: Address) -> nat
    decreases ds.len(),
{
    if ds.len() == 0 {
        0
    } else {
        (if ds.last().token == token && !ds.last().delivered {
            ds.last().amount@
        } else {
            0
        }) + undelivered(ds.drop_last(), token)
    }
}

proof fn lemma_undelivered_absent(ds: Seq<FeeDelivery>, token: Address)
    requires
        forall|j: int| 0 <= j < ds.len() ==> (#[trigger] ds[j]).token != token,
    ensures
        undelivered(ds, token) == 0,
    decreases ds.len(),
{
    if ds.len() > 0 {
        assert(ds.last() == ds[ds.len() - 1]);
        lemma_undelivered_absent(ds.drop_last(), token);
    }
}

proof fn lemma_undelivered_push(ds: Seq<FeeDelivery>, d: FeeDelivery, token: Address)
    ensures
        undelivered(ds.push(d), token) == (if d.token == token && !d.delivered {
            d.amount@
        } else {
            0
        }) + undelivered(ds, token),
{
    assert(ds.push(d).drop_last() =~= ds);
}

/// Relative to `start`, `cur` has off-boarded `validator` from the first `i` tokens of
/// `tokens`, with transfer outcomes `ds`.
pub open spec fn offboard_progress(
    start: FeeManagerView,
    cur: FeeManagerView,
    validator: Address,
    tokens: Seq<Address>,
    i: int,
    ds: Seq<FeeDelivery>,
) -> bool {
    let done = tokens.take(i);
    &&& 0 <= i <= tokens.len()
    &&& cur.token_list(validator) == tokens.subrange(i, tokens.len() as int)
    &&& forall|t: Address| #[trigger] cur.validators_of(t) == (if done.contains(t) {
        swap_removed(start.validators_of(t), validator)
    } else {
        start.validators_of(t)
    })
    &&& forall|v: Address, t: Address| #[trigger] cur.accepts(v, t) == (start.accepts(v, t) && !(v
        == validator && done.contains(t)))
    &&& forall|v: Address| v != validator ==> #[trigger] cur.token_list(v) == start.token_list(v)
    &&& forall|v: Address, t: Address| #[trigger] cur.collected(v, t) == (if v == validator
        && done.contains(t) {
        0
    } else {
        start.collected(v, t)
    })
    &&& forall|v: Address, t: Address| #[trigger] cur.escrowed(v, t) == start.escrowed(v, t) + (
    if v == validator {
        undelivered(ds, t)
    } else {
        0
    })
    &&& forall|j: int| 0 <= j < ds.len() ==> done.contains((#[trigger] ds[j]).token) && ds[j].amount@
        == start.collected(validator, ds[j].token) && ds[j].amount@ != 0
    &&& forall|t: Address| (done.contains(t) && start.collected(validator, t) != 0) <==> exists|j: int|
        0 <= j < ds.len() && (#[trigger] ds[j]).token == t
    &&& forall|j: int, k: int| 0 <= j < k < ds.len() ==> (#[trigger] ds[j]).token != (#[trigger] ds[k]).token
    &&& cur.governance_admin == start.governance_admin
    &&& cur.deprecation_grace_period == start.deprecation_grace_period
    &&& cur.emergency_disable_threshold == start.emergency_disable_threshold
    &&& cur.escrow_claim_window == start.escrow_claim_window
    &&& cur.foundation_escrow_address == start.foundation_escrow_address
    &&& cur.validator_tokens == start.validator_tokens
    &&& cur.currencies == start.currencies
    &&& cur.escrow_claims == start.escrow_claims
}

/// Off-boarding the first token of a validator's list keeps the accept-set agreement.
proof fn lemma_offboard_step_keeps_sync(a: FeeManagerView, v: Address, t: Address)
    requires
        a.accept_sets_in_sync(),
        a.token_list(v).len() > 0,
        a.token_list(v)[0] == t,
    ensures
        a.with_offboard_step(v, t, a.token_list(v).drop_first()).accept_sets_in_sync(),
        a.accepts(v, t),
{
    let l = a.token_list(v);
    assert(l.contains(t));
    lemma_remove_keeps_sync(a, v, t);
    let r = a.with_accept_removed(v, t);
    let b = a.with_offboard_step(v, t, l.drop_first());
    lemma_drop_first(l);
    lemma_swap_remove(l, l.index_of(t));
    assert(b.accepted == r.accepted);
    assert(b.token_validators == r.token_validators);
    assert forall|v2: Address, t2: Address| #[trigger] b.accepts(v2, t2) <==> b.token_list(v2).contains(t2) by {
        assert(r.accepts(v2, t2) <==> r.token_list(v2).contains(t2));
        if v2 != v {
            assert(b.token_list(v2) == r.token_list(v2));
        }
    }
    assert forall|v2: Address, t2: Address| #[trigger] b.accepts(v2, t2) <==> b.validators_of(t2).contains(v2) by {
        assert(r.accepts(v2, t2) <==> r.validators_of(t2).contains(v2));
    }
    assert forall|v2: Address| #[trigger] b.token_list(v2).no_duplicates() by {
        assert(r.token_list(v2).no_duplicates());
    }
    assert forall|t2: Address| #[trigger] b.validators_of(t2).no_duplicates() by {
        assert(r.validators_of(t2).no_duplicates());
    }
    assert forall|v2: Address| #[trigger] b.token_list(v2).len() <= MAX_ACCEPT_SET_SIZE by {
        assert(a.token_list(v2).len() <= MAX_ACCEPT_SET_SIZE);
    }
}

/// One iteration of the off-boarding loop keeps the loop's facts.
proof fn lemma_offboard_progress_step(
    start: FeeManagerView,
    cur: FeeManagerView,
    next: FeeManagerView,
    v: Address,
    tokens: Seq<Address>,
    i: int,
    ds: Seq<FeeDelivery>,
    ds2: Seq<FeeDelivery>,
    amount: U256,
    delivered: bool,
)
    requires
        offboard_progress(start, cur, v, tokens, i, ds),
        cur.accept_sets_in_sync(),
        tokens == start.token_list(v),
        start.token_list(v).no_duplicates(),
        i < tokens.len(),
        amount@ == cur.collected(v, tokens[i]),
        amount@ == 0 ==> next == cur.with_offboard_step(v, tokens[i], tokens.subrange(i + 1, tokens.len() as int)) && ds2 == ds,
        amount@ != 0 && delivered ==> next == cur.with_offboard_step(v, tokens[i], tokens.subrange(i + 1, tokens.len() as int))
            && ds2 == ds.push(FeeDelivery { token: tokens[i], amount, delivered: true }),
        amount@ != 0 && !delivered ==> u256_of(cur.escrowed(v, tokens[i]) + amount@)@ == cur.escrowed(v, tokens[i]) + amount@,
        amount@ != 0 && !delivered ==> next == cur.with_offboard_step(v, tokens[i], tokens.subrange(i + 1, tokens.len() as int)).with_escrowed(
            v,
            tokens[i],
            u256_of(cur.escrowed(v, tokens[i]) + amount@),
        ) && ds2 == ds.push(FeeDelivery { token: tokens[i], amount, delivered: false }),
    ensures
        offboard_progress(start, next, v, tokens, i + 1, ds2),
        next.accept_sets_in_sync(),
{
    let t = tokens[i];
    let n = tokens.len() as int;
    let rest = tokens.subrange(i + 1, n);
    let mid = cur.with_offboard_step(v, t, rest);
    let done = tokens.take(i);
    let done2 = tokens.take(i + 1);
    assert(cur.token_list(v) == tokens.subrange(i, n));
    assert(cur.token_list(v)[0] == t);
    assert(cur.token_list(v).drop_first() =~= rest);
    lemma_offboard_step_keeps_sync(cur, v, t);
    assert(!done.contains(t)) by {
        if done.contains(t) {
            let k = choose|k: int| 0 <= k < done.len() && done[k] == t;
            assert(tokens[k] == t);
        }
    }
    assert forall|x: Address| #[trigger] done2.contains(x) <==> (done.contains(x) || x == t) by {
        if done2.contains(x) {
            let k = choose|k: int| 0 <= k < done2.len() && done2[k] == x;
            if k < i {
                assert(done[k] == x);
            }
        }
        if done.contains(x) {
            let k = choose|k: int| 0 <= k < done.len() && done[k] == x;
            assert(done2[k] == x);
        }
        if x == t {
            assert(done2[i] == x);
        }
    }
    assert(cur.validators_of(t) == start.validators_of(t));
    assert(cur.collected(v, t) == start.collected(v, t));
    assert forall|j: int| 0 <= j < ds.len() implies (#[trigger] ds[j]).token != t by {
        assert(done.contains(ds[j].token));
    }
    if amount@ != 0 {
        let d = FeeDelivery { token: t, amount, delivered };
        assert(ds2 == ds.push(d));
        assert forall|x: Address| #[trigger] undelivered(ds2, x) == (if x == t && !delivered {
            amount@
        } else {
            0
        }) + undelivered(ds, x) by {
            lemma_undelivered_push(ds, d, x);
        }
        lemma_undelivered_absent(ds, t);
        assert forall|x: Address| (done2.contains(x) && start.collected(v, x) != 0) <==> exists|j: int|
            0 <= j < ds2.len() && (#[trigger] ds2[j]).token == x by {
            if done2.contains(x) && start.collected(v, x) != 0 {
                if x == t {
                    assert(ds2[ds.len() as int].token == x);
                } else {
                    assert(done.contains(x));
                    let j = choose|j: int| 0 <= j < ds.len() && (#[trigger] ds[j]).token == x;
                    assert(ds2[j].token == x);
                }
            }
            if exists|j: int| 0 <= j < ds2.len() && (#[trigger] ds2[j]).token == x {
                let j = choose|j: int| 0 <= j < ds2.len() && (#[trigger] ds2[j]).token == x;
                if j < ds.len() {
                    assert(ds[j].token == x);
                }
            }
        }
        assert forall|j: int| 0 <= j < ds2.len() implies done2.contains((#[trigger] ds2[j]).token)
            && ds2[j].amount@ == start.collected(v, ds2[j].token) && ds2[j].amount@ != 0 by {
            if j < ds.len() {
                assert(ds2[j] == ds[j]);
            }
        }
        assert forall|j: int, k: int| 0 <= j < k < ds2.len() implies (#[trigger] ds2[j]).token != (
        #[trigger] ds2[k]).token by {
            if k < ds.len() {
                assert(ds2[j] == ds[j] && ds2[k] == ds[k]);
            } else {
                assert(ds2[j] == ds[j]);
            }
        }
    } else {
        assert forall|x: Address| (done2.contains(x) && start.collected(v, x) != 0) <==> exists|j: int|
            0 <= j < ds2.len() && (#[trigger] ds2[j]).token == x by {
            if done2.contains(x) && start.collected(v, x) != 0 && x != t {
                assert(done.contains(x));
            }
        }
    }
    assert(next.accept_sets_in_sync()) by {
        if amount@ != 0 && !delivered {
            lemma_sync_frame(mid, next);
        }
    }
    assert forall|x: Address| #[trigger] next.validators_of(x) == (if done2.contains(x) {
        swap_removed(start.validators_of(x), v)
    } else {
        start.validators_of(x)
    }) by {
        assert(cur.validators_of(x) == (if done.contains(x) {
            swap_removed(start.validators_of(x), v)
        } else {
            start.validators_of(x)
        }));
    }
    assert forall|v2: Address, x: Address| #[trigger] next.accepts(v2, x) == (start.accepts(v2, x) && !(v2
        == v && done2.contains(x))) by {
        assert(cur.accepts(v2, x) == (start.accepts(v2, x) && !(v2 == v && done.contains(x))));
    }
    assert forall|v2: Address| v2 != v implies #[trigger] next.token_list(v2) == start.token_list(v2) by {
        assert(cur.token_list(v2) == start.token_list(v2));
    }
    assert forall|v2: Address, x: Address| #[trigger] next.collected(v2, x) == (if v2 == v
        && done2.contains(x) {
        0
    } else {
        start.collected(v2, x)
    }) by {
        assert(cur.collected(v2, x) == (if v2 == v && done.contains(x) {
            0
        } else {
            start.collected(v2, x)
        }));
    }
    assert forall|v2: Address, x: Address| #[trigger] next.escrowed(v2, x) == start.escrowed(v2, x) + (
    if v2 == v {
        undelivered(ds2, x)
    } else {
        0
    }) by {
        assert(cur.escrowed(v2, x) == start.escrowed(v2, x) + (if v2 == v {
            undelivered(ds, x)
        } else {
            0
        }));
        if amount@ != 0 && !delivered && v2 == v && x == t {
            assert(next.escrowed(v2, x) == cur.escrowed(v, t) + amount@);
        }
    }
    assert(next.token_list(v) == tokens.subrange(i + 1, n));
}

/// The outcome `d` records what `transfer(d.token, to, d.amount)` returned: delivered
/// exactly when the transfer succeeded.
pub open spec fn transfer_reported<F: Fn(Address, Address, U256) -> Result<(), MagnusPrecompileError>>(
    transfer: F,
    to: Address,
    d: FeeDelivery,
) -> bool {
    exists|res: Result<(), MagnusPrecompileError>|
        #[trigger] call_ensures(transfer, (d.token, to, d.amount), res) && d.delivered == (res is Ok)
}

/// The event an off-boarding transfer outcome is reported by.
pub open spec fn delivery_event(validator: Address, d: FeeDelivery) -> FeeEvent {
    if d.delivered {
        FeeEvent::FeesOffboardDelivered { validator, token: d.token, amount: d.amount }
    } else {
        FeeEvent::FeesOffboardEscrowed { validator, token: d.token, amount: d.amount }
    }
}

/// The events of the off-boarding transfer outcomes `ds`, in order.
pub open spec fn offboard_events(validator: Address, ds: Seq<FeeDelivery>) -> Seq<FeeEvent> {
    ds.map_values(|d: FeeDelivery| delivery_event(validator, d))
}

/// Emitting an event keeps off-boarding progress and accept-set agreement.
proof fn lemma_offboard_progress_emitted(
    start: FeeManagerView,
    cur: FeeManagerView,
    v: Address,
    tokens: Seq<Address>,
    i: int,
    ds: Seq<FeeDelivery>,
    e: FeeEvent,
)
    requires
        offboard_progress(start, cur, v, tokens, i, ds),
        cur.accept_sets_in_sync(),
    ensures
        offboard_progress(start, cur.emitted(e), v, tokens, i, ds),
        cur.emitted(e).accept_sets_in_sync(),
{
    let next = cur.emitted(e);
    assert forall|x: Address, t: Address| #[trigger] next.accepts(x, t) == cur.accepts(x, t) by {}
    assert forall|x: Address| #[trigger] next.token_list(x) == cur.token_list(x) by {}
    assert forall|t: Address| #[trigger] next.validators_of(t) == cur.validators_of(t) by {}
    assert forall|x: Address, t: Address| #[trigger] next.collected(x, t) == cur.collected(x, t) by {}
    assert forall|x: Address, t: Address| #[trigger] next.escrowed(x, t) == cur.escrowed(x, t) by {}
    lemma_sync_frame(cur, next);
}

/// The all-zero address.
pub open spec fn spec_zero_address() -> Address {
    choose|a: Address| a.spec_is_zero()
}

/// Fee manager precompile that handles the currency registry, validator accept-sets,
/// fee collection and off-boarding escrow.
pub struct MipFeeManager {
    governance_admin: Address,
    deprecation_grace_period: u64,
    emergency_disable_threshold: u8,
    escrow_claim_window: u64,
    foundation_escrow_address: Address,
    validator_tokens: Table<Address, Address>,
    user_tokens: Table<Address, Address>,
    supported_currencies: Table<B256, CurrencyConfig>,
    collected_fees: Table<AddressPair, U256>,
    escrowed_fees: Table<AddressPair, U256>,
    escrow_claims: Table<Address, ClaimRecord>,
    validator_accepted_tokens: Table<AddressPair, bool>,
    validator_token_list: Table<Address, Vec<Address>>,
    token_validators: Table<Address, Vec<Address>>,
    events: Vec<FeeManagerEvent>,
}

impl View for MipFeeManager {
    type V = FeeManagerView;

    closed spec fn view(&self) -> FeeManagerView {
        FeeManagerView {
            governance_admin: self.governance_admin,
            deprecation_grace_period: self.deprecation_grace_period,
            emergency_disable_threshold: self.emergency_disable_threshold,
            escrow_claim_window: self.escrow_claim_window,
            foundation_escrow_address: self.foundation_escrow_address,
            validator_tokens: self.validator_tokens@,
            user_tokens: self.user_tokens@,
            currencies: self.supported_currencies@,
            collected_fees: self.collected_fees@,
            escrowed_fees: self.escrowed_fees@,
            escrow_claims: self.escrow_claims@,
            accepted: self.validator_accepted_tokens@,
            token_lists: self.validator_token_list@.map_values(|l: Vec<Address>| l@),
            token_validators: self.token_validators@.map_values(|l: Vec<Address>| l@),
            events: event_views(self.events@),
        }
    }
}

/// `r` is the fee-manager revert `e`.
pub open spec fn is_fm_err<T>(r: Result<T, MagnusPrecompileError>, e: FeeManagerError) -> bool {
    r == Err::<T, MagnusPrecompileError>(MagnusPrecompileError::FeeManagerError(e))
}

/// `r` is the revert `OnlyGovernanceAdmin(caller)`.
pub open spec fn is_not_admin_err<T>(r: Result<T, MagnusPrecompileError>, caller: Address) -> bool {
    is_fm_err(r, FeeManagerError::OnlyGovernanceAdmin { caller })
}

/// `r` reverts with a currency-carrying fee-manager error of kind `kind` naming `code`.
pub open spec fn is_currency_err<T>(
    r: Result<T, MagnusPrecompileError>,
    kind: CurrencyErrorKind,
    code: Seq<char>,
) -> bool {
    match r {
        Err(MagnusPrecompileError::FeeManagerError(e)) => match (kind, e) {
            (CurrencyErrorKind::NotRegistered, FeeManagerError::CurrencyNotRegistered { currency }) =>
                currency@ == code,
            (CurrencyErrorKind::Disabled, FeeManagerError::CurrencyDisabled { currency }) =>
                currency@ == code,
            (CurrencyErrorKind::AlreadyAdded, FeeManagerError::CurrencyAlreadyAdded { currency }) =>
                currency@ == code,
            (CurrencyErrorKind::AlreadyEnabled, FeeManagerError::CurrencyAlreadyEnabled { currency }) =>
                currency@ == code,
            (CurrencyErrorKind::InvalidCode, FeeManagerError::InvalidCurrencyCode { currency }) =>
                currency@ == code,
            (CurrencyErrorKind::AlreadyDeprecating, FeeManagerError::CurrencyAlreadyDeprecating {
                currency,
            }) => currency@ == code,
            (CurrencyErrorKind::NotDisabled, FeeManagerError::CurrencyNotDisabled { currency }) =>
                currency@ == code,
            _ => false,
        },
        _ => false,
    }
}

/// The kinds of fee-manager revert that name a currency code.
pub enum CurrencyErrorKind {
    NotRegistered,
    Disabled,
    AlreadyAdded,
    AlreadyEnabled,
    InvalidCode,
    AlreadyDeprecating,
    NotDisabled,
}

/// The contract of [`MipFeeManager::set_governance_admin`], over the views before and after the call.
pub open spec fn set_governance_admin_post(
    before: FeeManagerView,
    after: FeeManagerView,
    r: Result<(), MagnusPrecompileError>,
    sender: Address,
    new_admin: Address,
) -> bool {
    &&& new_admin.spec_is_zero() ==> is_fm_err(r, FeeManagerError::ZeroAddressGovernanceAdmin)
    &&& !new_admin.spec_is_zero() && !before.governance_admin.spec_is_zero() && sender != before.governance_admin ==> is_not_admin_err(r, sender)
    &&& r is Ok <==> !new_admin.spec_is_zero() && (before.governance_admin.spec_is_zero() || sender == before.governance_admin)
    &&& r is Ok ==> after == before.with_admin(new_admin).emitted(FeeEvent::GovernanceAdminChanged { old_admin: before.governance_admin, new_admin })
    &&& r is Err ==> after == before
}

/// The contract of [`MipFeeManager::add_currency`], over the views before and after the call.
pub open spec fn add_currency_post(
    before: FeeManagerView,
    after: FeeManagerView,
    r: Result<(), MagnusPrecompileError>,
    sender: Address,
    code: Seq<char>,
    current_block: u64,
) -> bool {
    &&& sender != before.governance_admin ==> is_not_admin_err(r, sender)
    &&& sender == before.governance_admin && !code_ok_chars(code) ==> is_currency_err(r, CurrencyErrorKind::InvalidCode, code)
    &&& sender == before.governance_admin && code_ok_chars(code) && before.currency_of_chars(code).registered ==> is_currency_err(r, CurrencyErrorKind::AlreadyAdded, code)
    &&& r is Ok <==> sender == before.governance_admin && code_ok_chars(code) && !before.currency_of_chars(code).registered
    &&& r is Ok ==> after == before.with_currency(currency_key_of_chars(code), CurrencyConfig::spec_newly_added(current_block)).emitted(FeeEvent::CurrencyAdded { code, at_block: current_block })
    &&& r is Err ==> after == before
}

/// The contract of [`MipFeeManager::enable_currency`], over the views before and after the call.
pub open spec fn enable_currency_post(
    before: FeeManagerView,
    after: FeeManagerView,
    r: Result<(), MagnusPrecompileError>,
    sender: Address,
    code: Seq<char>,
    current_block: u64,
) -> bool {
    &&& sender != before.governance_admin ==> is_not_admin_err(r, sender)
    &&& sender == before.governance_admin && !code_ok_chars(code) ==> is_currency_err(r, CurrencyErrorKind::InvalidCode, code)
    &&& sender == before.governance_admin && code_ok_chars(code) && !before.currency_of_chars(code).registered ==> is_currency_err(r, CurrencyErrorKind::NotRegistered, code)
    &&& sender == before.governance_admin && code_ok_chars(code) && before.currency_of_chars(code).registered && before.currency_of_chars(code).enabled ==> is_currency_err(r, CurrencyErrorKind::AlreadyEnabled, code)
    &&& r is Ok <==> sender == before.governance_admin && code_ok_chars(code) && before.currency_of_chars(code).registered && !before.currency_of_chars(code).enabled
    &&& r is Ok ==> after == before.with_currency(currency_key_of_chars(code), enabled_config(before.currency_of_chars(code), current_block)).emitted(FeeEvent::CurrencyEnabled { code, at_block: current_block })
    &&& r is Err ==> after == before
}

/// The contract of [`MipFeeManager::set_deprecation_grace_period`], over the views before and after the call.
pub open spec fn set_deprecation_grace_period_post(
    before: FeeManagerView,
    after: FeeManagerView,
    r: Result<(), MagnusPrecompileError>,
    sender: Address,
    new_grace: u64,
) -> bool {
    &&& sender != before.governance_admin ==> is_not_admin_err(r, sender)
    &&& sender == before.governance_admin && !(MIN_GRACE_PERIOD_SECS <= new_grace <= MAX_GRACE_PERIOD_SECS) ==> is_fm_err(r, FeeManagerError::GracePeriodOutOfRange { grace_period: new_grace })
    &&& r is Ok <==> sender == before.governance_admin && MIN_GRACE_PERIOD_SECS <= new_grace <= MAX_GRACE_PERIOD_SECS
    &&& r is Ok ==> after == before.with_grace_period(new_grace).emitted(FeeEvent::DeprecationGracePeriodChanged { old_grace_period: before.deprecation_grace_period, new_grace_period: new_grace, })
    &&& r is Err ==> after == before
}

/// The contract of [`MipFeeManager::disable_currency`], over the views before and after the call.
pub open spec fn disable_currency_post(
    before: FeeManagerView,
    after: FeeManagerView,
    r: Result<(), MagnusPrecompileError>,
    sender: Address,
    code: Seq<char>,
    now_ts: u64,
) -> bool {
    &&& sender != before.governance_admin ==> is_not_admin_err(r, sender)
    &&& sender == before.governance_admin && !code_ok_chars(code) ==> is_currency_err(r, CurrencyErrorKind::InvalidCode, code)
    &&& sender == before.governance_admin && code_ok_chars(code) && !before.currency_of_chars(code).registered ==> is_currency_err(r, CurrencyErrorKind::NotRegistered, code)
    &&& sender == before.governance_admin && code_ok_chars(code) && before.currency_of_chars(code).registered && !before.currency_of_chars(code).enabled ==> is_currency_err(r, CurrencyErrorKind::Disabled, code)
    &&& sender == before.governance_admin && code_ok_chars(code) && before.currency_of_chars(code).registered && before.currency_of_chars(code).enabled && before.currency_of_chars(code).deprecating ==> is_currency_err(r, CurrencyErrorKind::AlreadyDeprecating, code)
    &&& r is Ok <==> sender == before.governance_admin && code_ok_chars(code) && before.currency_of_chars(code).registered && before.currency_of_chars(code).enabled && !before.currency_of_chars(code).deprecating
    &&& r is Ok ==> after == before.with_currency(currency_key_of_chars(code), deprecating_config(before.currency_of_chars(code), saturating_add_u64(now_ts, before.grace_period()))).emitted(FeeEvent::CurrencyDisabling { code, grace_ends_at: saturating_add_u64(now_ts, before.grace_period()), by: sender, })
    &&& r is Err ==> after == before
}

/// The contract of [`MipFeeManager::set_emergency_disable_threshold`], over the views before and after the call.
pub open spec fn set_emergency_disable_threshold_post(
    before: FeeManagerView,
    after: FeeManagerView,
    r: Result<(), MagnusPrecompileError>,
    sender: Address,
    new_threshold: u8,
) -> bool {
    &&& sender != before.governance_admin ==> is_not_admin_err(r, sender)
    &&& sender == before.governance_admin && !(MIN_EMERGENCY_THRESHOLD <= new_threshold <= MAX_EMERGENCY_THRESHOLD) ==> is_fm_err(r, FeeManagerError::EmergencyThresholdOutOfRange { threshold: new_threshold })
    &&& r is Ok <==> sender == before.governance_admin && MIN_EMERGENCY_THRESHOLD <= new_threshold <= MAX_EMERGENCY_THRESHOLD
    &&& r is Ok ==> after == before.with_emergency_threshold(new_threshold).emitted(FeeEvent::EmergencyDisableThresholdChanged { old_threshold: before.emergency_threshold(), new_threshold, })
    &&& r is Err ==> after == before
}

/// The contract of [`MipFeeManager::emergency_disable_currency`], over the views before and after the call.
pub open spec fn emergency_disable_currency_post(
    before: FeeManagerView,
    after: FeeManagerView,
    r: Result<(), MagnusPrecompileError>,
    sender: Address,
    code: Seq<char>,
) -> bool {
    &&& sender != before.governance_admin ==> is_not_admin_err(r, sender)
    &&& sender == before.governance_admin && !code_ok_chars(code) ==> is_currency_err(r, CurrencyErrorKind::InvalidCode, code)
    &&& sender == before.governance_admin && code_ok_chars(code) && !before.currency_of_chars(code).registered ==> is_currency_err(r, CurrencyErrorKind::NotRegistered, code)
    &&& sender == before.governance_admin && code_ok_chars(code) && before.currency_of_chars(code).registered && !before.currency_of_chars(code).enabled ==> is_currency_err(r, CurrencyErrorKind::Disabled, code)
    &&& r is Ok <==> sender == before.governance_admin && code_ok_chars(code) && before.currency_of_chars(code).registered && before.currency_of_chars(code).enabled
    &&& r is Ok ==> after == before.with_currency(currency_key_of_chars(code), emergency_disabled_config(before.currency_of_chars(code))).emitted(FeeEvent::CurrencyDisabledEmergency { code, by: sender })
    &&& r is Err ==> after == before
}

/// The contract of [`MipFeeManager::prune_currency`], over the views before and after the call.
pub open spec fn prune_currency_post(
    before: FeeManagerView,
    after: FeeManagerView,
    r: Result<(), MagnusPrecompileError>,
    code: Seq<char>,
    current_block: u64,
    now_ts: u64,
) -> bool {
    &&& !code_ok_chars(code) ==> is_currency_err(r, CurrencyErrorKind::InvalidCode, code)
    &&& code_ok_chars(code) && !before.currency_of_chars(code).registered ==> is_currency_err(r, CurrencyErrorKind::NotRegistered, code)
    &&& code_ok_chars(code) && before.currency_of_chars(code).registered && before.currency_of_chars(code).spec_effectively_enabled(now_ts) ==> is_currency_err(r, CurrencyErrorKind::NotDisabled, code)
    &&& r is Ok <==> code_ok_chars(code) && before.currency_of_chars(code).registered && !before.currency_of_chars(code).spec_effectively_enabled(now_ts)
    &&& r is Ok ==> after == before.with_currency(currency_key_of_chars(code), pruned_config(before.currency_of_chars(code), current_block)).emitted(FeeEvent::CurrencyPruned { code, tokens_removed: U256 { lo: 0, hi: 0 }, at_block: current_block, })
    &&& r is Err ==> after == before
}

/// The contract of [`MipFeeManager::set_escrow_claim_window`], over the views before and after the call.
pub open spec fn set_escrow_claim_window_post(
    before: FeeManagerView,
    after: FeeManagerView,
    r: Result<(), MagnusPrecompileError>,
    sender: Address,
    new_window: u64,
) -> bool {
    &&& sender != before.governance_admin ==> is_not_admin_err(r, sender)
    &&& sender == before.governance_admin && !(MIN_ESCROW_CLAIM_WINDOW_SECS <= new_window <= MAX_ESCROW_CLAIM_WINDOW_SECS) ==> is_fm_err(r, FeeManagerError::EscrowClaimWindowOutOfRange { window: new_window })
    &&& r is Ok <==> sender == before.governance_admin && MIN_ESCROW_CLAIM_WINDOW_SECS <= new_window <= MAX_ESCROW_CLAIM_WINDOW_SECS
    &&& r is Ok ==> after == before.with_claim_window(new_window).emitted(FeeEvent::EscrowClaimWindowChanged { old_window: before.claim_window(), new_window, })
    &&& r is Err ==> after == before
}

/// The contract of [`MipFeeManager::set_foundation_escrow_address`], over the views before and after the call.
pub open spec fn set_foundation_escrow_address_post(
    before: FeeManagerView,
    after: FeeManagerView,
    r: Result<(), MagnusPrecompileError>,
    sender: Address,
    new_address: Address,
) -> bool {
    &&& sender != before.governance_admin ==> is_not_admin_err(r, sender)
    &&& sender == before.governance_admin && new_address.spec_is_zero() ==> is_fm_err(r, FeeManagerError::ZeroAddressFoundationEscrow)
    &&& r is Ok <==> sender == before.governance_admin && !new_address.spec_is_zero()
    &&& r is Ok ==> after == before.with_foundation(new_address).emitted(FeeEvent::FoundationEscrowAddressChanged { old_address: before.foundation_escrow_address, new_address, })
    &&& r is Err ==> after == before
}

/// The contract of [`MipFeeManager::add_accepted_token`], over the views before and after the call.
pub open spec fn add_accepted_token_post(
    before: FeeManagerView,
    after: FeeManagerView,
    r: Result<(), MagnusPrecompileError>,
    sender: Address,
    token: Address,
    beneficiary: Address,
    token_is_tip20: bool,
    token_currency: Seq<char>,
    now_ts: u64,
) -> bool {
    &&& !token_is_tip20 ==> is_fm_err(r, FeeManagerError::InvalidToken)
    &&& token_is_tip20 && !before.currency_of_chars(token_currency).registered ==> is_currency_err(r, CurrencyErrorKind::NotRegistered, token_currency)
    &&& token_is_tip20 && before.currency_of_chars(token_currency).registered && !before.currency_of_chars(token_currency).spec_effectively_enabled(now_ts) ==> is_currency_err(r, CurrencyErrorKind::Disabled, token_currency)
    &&& token_is_tip20 && currency_supported(before.currency_of_chars(token_currency), now_ts) && before.currency_of_chars(token_currency).spec_in_grace_period(now_ts) ==> is_deprecating_err(r, token_currency, before.currency_of_chars(token_currency))
    &&& token_is_tip20 && currency_open_for_adds(before.currency_of_chars(token_currency), now_ts) && sender == beneficiary ==> is_fm_err(r, FeeManagerError::CannotChangeWithinBlock)
    &&& token_is_tip20 && currency_open_for_adds(before.currency_of_chars(token_currency), now_ts) && sender != beneficiary && before.accepts(sender, token) ==> is_fm_err(r, FeeManagerError::TokenAlreadyAccepted { validator: sender, token })
    &&& token_is_tip20 && currency_open_for_adds(before.currency_of_chars(token_currency), now_ts) && sender != beneficiary && !before.accepts(sender, token) && before.token_list(sender).len() >= MAX_ACCEPT_SET_SIZE ==> is_fm_err(r, FeeManagerError::MaxAcceptSetReached { validator: sender })
    &&& r is Ok <==> token_is_tip20 && currency_open_for_adds(before.currency_of_chars(token_currency), now_ts) && sender != beneficiary && !before.accepts(sender, token) && before.token_list(sender).len() < MAX_ACCEPT_SET_SIZE
    &&& r is Ok ==> after == before.with_accept_added(sender, token).emitted(FeeEvent::AcceptedTokenAdded { validator: sender, token })
    &&& after.accept_sets_in_sync()
    &&& r is Err ==> after == before
}

/// The contract of [`MipFeeManager::remove_accepted_token`], over the views before and after the call.
pub open spec fn remove_accepted_token_post(
    before: FeeManagerView,
    after: FeeManagerView,
    r: Result<(), MagnusPrecompileError>,
    sender: Address,
    token: Address,
    beneficiary: Address,
) -> bool {
    &&& sender == beneficiary ==> is_fm_err(r, FeeManagerError::CannotChangeWithinBlock)
    &&& sender != beneficiary && !before.accepts(sender, token) ==> is_fm_err(r, FeeManagerError::TokenNotInAcceptSet { validator: sender, token })
    &&& r is Ok <==> sender != beneficiary && before.accepts(sender, token)
    &&& r is Ok ==> after == before.with_accept_removed(sender, token).emitted(FeeEvent::AcceptedTokenRemoved { validator: sender, token })
    &&& after.accept_sets_in_sync()
    &&& r is Err ==> after == before
}

/// The contract of [`MipFeeManager::prune_token`], over the views before and after the call.
pub open spec fn prune_token_post(
    before: FeeManagerView,
    after: FeeManagerView,
    r: Result<u64, MagnusPrecompileError>,
    token: Address,
    max_iterations: u64,
    current_block: u64,
    token_is_tip20: bool,
    token_currency: Seq<char>,
    now_ts: u64,
) -> bool {
    &&& !token_is_tip20 ==> is_fm_err(r, FeeManagerError::InvalidToken)
    &&& token_is_tip20 && !before.currency_of_chars(token_currency).registered ==> is_currency_err(r, CurrencyErrorKind::NotRegistered, token_currency)
    &&& token_is_tip20 && before.currency_of_chars(token_currency).registered && before.currency_of_chars(token_currency).spec_effectively_enabled(now_ts) ==> is_currency_err(r, CurrencyErrorKind::NotDisabled, token_currency)
    &&& r is Ok <==> token_is_tip20 && before.currency_of_chars(token_currency).registered && !before.currency_of_chars(token_currency).spec_effectively_enabled(now_ts)
    &&& r is Err ==> after == before
    &&& r matches Ok(n) ==> n == prune_count(max_iterations, before.validators_of(token).len()) && pruned(before, after, token, n as nat) && after.currencies == before.currencies.insert(currency_key_of_chars(token_currency), pruned_config(before.currency_of_chars(token_currency), current_block))
}

/// The contract of [`MipFeeManager::distribute_fees`], over the views before and after the call.
pub open spec fn distribute_fees_post<F: Fn(Address, Address, U256) -> Result<(), MagnusPrecompileError>>(
    before: FeeManagerView,
    after: FeeManagerView,
    r: Result<U256, MagnusPrecompileError>,
    validator: Address,
    token: Address,
    token_is_tip20: bool,
    transfer: F,
) -> bool {
    &&& before.collected(validator, token) == 0 ==> r == Ok::<U256, MagnusPrecompileError>(
        U256 { lo: 0, hi: 0 },
    ) && after == before
    &&& before.collected(validator, token) != 0 && !token_is_tip20 ==> is_fm_err(
        r,
        FeeManagerError::InvalidToken,
    ) && after == before
    &&& before.collected(validator, token) != 0 && token_is_tip20 ==> exists|
        a: U256,
        t: Result<(), MagnusPrecompileError>,
    |
        {
            &&& a@ == before.collected(validator, token)
            &&& #[trigger] call_ensures(transfer, (token, validator, a), t)
            &&& t is Ok ==> r == Ok::<U256, MagnusPrecompileError>(a) && after == before.with_collected(validator, token, U256 { lo: 0, hi: 0 }).emitted(
                FeeEvent::FeesDistributed { validator, token, amount: a },
            )
            &&& t matches Err(e) ==> r == Err::<U256, MagnusPrecompileError>(e) && after == before
        }
}

/// The contract of [`MipFeeManager::claim_escrowed_fees`], over the views before and after the call.
pub open spec fn claim_escrowed_fees_post<F: Fn(Address, Address, U256) -> Result<(), MagnusPrecompileError>>(
    before: FeeManagerView,
    after: FeeManagerView,
    r: Result<U256, MagnusPrecompileError>,
    sender: Address,
    validator: Address,
    token: Address,
    recipient: Address,
    now_ts: u64,
    transfer: F,
) -> bool {
    &&& sender != validator ==> is_fm_err(r, FeeManagerError::OnlyValidator)
    &&& sender == validator && !before.claim(validator).offboarded ==> is_fm_err(
        r,
        FeeManagerError::ValidatorNotOffboarded { validator },
    )
    &&& sender == validator && before.claim(validator).offboarded && !before.claim(
        validator,
    ).spec_within_claim_window(now_ts) ==> is_fm_err(
        r,
        FeeManagerError::ClaimWindowExpired { validator },
    )
    &&& sender == validator && before.claim(validator).spec_within_claim_window(now_ts)
        && before.escrowed(validator, token) == 0 ==> is_fm_err(
        r,
        FeeManagerError::NoEscrowedFees { validator, token },
    )
    &&& r is Ok ==> sender == validator && before.claim(validator).spec_within_claim_window(
        now_ts,
    ) && before.escrowed(validator, token) != 0
    &&& sender == validator && before.claim(validator).spec_within_claim_window(now_ts)
        && before.escrowed(validator, token) != 0 ==> exists|
        a: U256,
        t: Result<(), MagnusPrecompileError>,
    |
        {
            &&& a@ == before.escrowed(validator, token)
            &&& #[trigger] call_ensures(transfer, (token, recipient, a), t)
            &&& t is Ok ==> r == Ok::<U256, MagnusPrecompileError>(a) && after == before.with_escrowed(validator, token, U256 { lo: 0, hi: 0 }).emitted(
                FeeEvent::EscrowedFeesClaimed { validator, token, recipient, amount: a },
            )
            &&& t matches Err(e) ==> r == Err::<U256, MagnusPrecompileError>(e)
        }
    &&& r is Err ==> after == before
}

/// The contract of [`MipFeeManager::sweep_expired_escrow`], over the views before and after the call.
pub open spec fn sweep_expired_escrow_post<F: Fn(Address, Address, U256) -> Result<(), MagnusPrecompileError>>(
    before: FeeManagerView,
    after: FeeManagerView,
    r: Result<U256, MagnusPrecompileError>,
    sender: Address,
    validator: Address,
    token: Address,
    now_ts: u64,
    transfer: F,
) -> bool {
    &&& sender != before.governance_admin ==> is_not_admin_err(r, sender)
    &&& sender == before.governance_admin && !before.claim(validator).offboarded
        ==> is_fm_err(r, FeeManagerError::ValidatorNotOffboarded { validator })
    &&& sender == before.governance_admin && before.claim(validator).offboarded && !before.claim(validator).spec_after_claim_window(now_ts) ==> is_fm_err(
        r,
        FeeManagerError::ClaimWindowActive { validator },
    )
    &&& sender == before.governance_admin && before.claim(validator).spec_after_claim_window(
        now_ts,
    ) && before.escrowed(validator, token) == 0 ==> is_fm_err(
        r,
        FeeManagerError::NoEscrowedFees { validator, token },
    )
    &&& sender == before.governance_admin && before.claim(validator).spec_after_claim_window(
        now_ts,
    ) && before.escrowed(validator, token) != 0
        && before.foundation_escrow_address.spec_is_zero() ==> is_fm_err(
        r,
        FeeManagerError::ZeroAddressFoundationEscrow,
    )
    &&& r is Ok ==> sender == before.governance_admin && before.claim(
        validator,
    ).spec_after_claim_window(now_ts) && before.escrowed(validator, token) != 0 && !before.foundation_escrow_address.spec_is_zero()
    &&& sender == before.governance_admin && before.claim(validator).spec_after_claim_window(
        now_ts,
    ) && before.escrowed(validator, token) != 0 && !before.foundation_escrow_address.spec_is_zero() ==> exists|
        a: U256,
        t: Result<(), MagnusPrecompileError>,
    |
        {
            &&& a@ == before.escrowed(validator, token)
            &&& #[trigger] call_ensures(
                transfer,
                (token, before.foundation_escrow_address, a),
                t,
            )
            &&& t is Ok ==> r == Ok::<U256, MagnusPrecompileError>(a) && after == before.with_escrowed(validator, token, U256 { lo: 0, hi: 0 }).emitted(
                FeeEvent::EscrowSwept {
                    validator,
                    token,
                    foundation: before.foundation_escrow_address,
                    amount: a,
                },
            )
            &&& t matches Err(e) ==> r == Err::<U256, MagnusPrecompileError>(e)
        }
    &&& r is Err ==> after == before
}

/// The contract of [`MipFeeManager::offboard_validator`], over the views before and after the call.
pub open spec fn offboard_validator_post<F: Fn(Address, Address, U256) -> Result<(), MagnusPrecompileError>>(
    before: FeeManagerView,
    after: FeeManagerView,
    r: Result<Vec<FeeDelivery>, MagnusPrecompileError>,
    sender: Address,
    validator: Address,
    now_ts: u64,
    transfer: F,
) -> bool {
    &&& sender != before.governance_admin ==> is_not_admin_err(r, sender) && after
        == before
    &&& sender == before.governance_admin && before.claim(validator).offboarded ==> is_fm_err(
        r,
        FeeManagerError::ValidatorAlreadyOffboarded { validator },
    ) && after == before
    &&& r is Ok ==> sender == before.governance_admin && !before.claim(validator).offboarded
    &&& r is Err ==> after == before || r == Err::<Vec<FeeDelivery>, MagnusPrecompileError>(
        MagnusPrecompileError::Panic(PanicKind::UnderOverflow),
    )
    &&& r matches Ok(ds) ==> offboard_progress(
        before.with_claim(validator, ClaimRecord::spec_new(now_ts, before.claim_window())),
        after,
        validator,
        before.token_list(validator),
        before.token_list(validator).len() as int,
        ds@,
    )
    &&& r matches Ok(ds) ==> after.events == (before.events + offboard_events(
        validator,
        ds@,
    )).push(
        FeeEvent::ValidatorOffboarded {
            validator,
            claim_deadline: ClaimRecord::spec_new(now_ts, before.claim_window()).claim_deadline,
        },
    )
    &&& r matches Ok(ds) ==> forall|j: int|
        0 <= j < ds@.len() ==> transfer_reported(transfer, validator, #[trigger] ds@[j])
    &&& sender == before.governance_admin && !before.claim(validator).offboarded && (
    forall|t: Address, a: U256, e: MagnusPrecompileError|
        before.token_list(validator).contains(t) && a@ == before.collected(validator, t)
            && #[trigger] call_ensures(transfer, (t, validator, a), Err(e)) ==> before.escrowed(
            validator,
            t,
        ) + before.collected(validator, t) <= u256_max()) ==> r is Ok
}

/// `code` passes the ISO 4217 syntax check.
pub open spec fn code_ok_chars(code: Seq<char>) -> bool {
    valid_currency_code(code, encode_utf8(code).len())
}

/// `code` passes the ISO 4217 syntax check.
pub open spec fn code_ok(code: &str) -> bool {
    valid_currency_code(code@, code.spec_bytes().len())
}

fn fm_error<T>(e: FeeManagerError) -> (r: Result<T, MagnusPrecompileError>)
    ensures
        is_fm_err(r, e),
{
    Err(MagnusPrecompileError::FeeManagerError(e))
}

impl MipFeeManager {
    /// Well-formedness: every table is well formed and the accept-set structures agree.
    pub closed spec fn wf(&self) -> bool {
        &&& self.tables_wf()
        &&& self@.accept_sets_in_sync()
    }

    /// A well-formed fee manager's accept-sets agree: flag, list and reverse index name the
    /// same pairs, no list repeats an entry, and no accept-set exceeds its cap.
    pub proof fn lemma_wf_accept_sets_in_sync(&self)
        requires
            self.wf(),
        ensures
            self@.accept_sets_in_sync(),
    {
    }

    /// Every storage table is well formed.
    closed spec fn tables_wf(&self) -> bool {
        &&& self.validator_tokens.wf()
        &&& self.user_tokens.wf()
        &&& self.supported_currencies.wf()
        &&& self.collected_fees.wf()
        &&& self.escrowed_fees.wf()
        &&& self.escrow_claims.wf()
        &&& self.validator_accepted_tokens.wf()
        &&& self.validator_token_list.wf()
        &&& self.token_validators.wf()
    }

    /// A fee manager with empty storage.
    pub fn new() -> (r: MipFeeManager)
        ensures
            r.wf(),
            r@.governance_admin.spec_is_zero(),
            r@.foundation_escrow_address.spec_is_zero(),
            r@.deprecation_grace_period == 0,
            r@.emergency_disable_threshold == 0,
            r@.escrow_claim_window == 0,
            r@.validator_tokens == Map::<Address, Address>::empty(),
            r@.user_tokens == Map::<Address, Address>::empty(),
            r@.currencies == Map::<B256, CurrencyConfig>::empty(),
            r@.collected_fees == Map::<AddressPair, U256>::empty(),
            r@.escrowed_fees == Map::<AddressPair, U256>::empty(),
            r@.escrow_claims == Map::<Address, ClaimRecord>::empty(),
            r@.accepted == Map::<AddressPair, bool>::empty(),
            r@.token_lists == Map::<Address, Seq<Address>>::empty(),
            r@.token_validators == Map::<Address, Seq<Address>>::empty(),
            r@.events == Seq::<FeeEvent>::empty(),
    {
        let r = MipFeeManager {
            governance_admin: Address::zero(),
            deprecation_grace_period: 0,
            emergency_disable_threshold: 0,
            escrow_claim_window: 0,
            foundation_escrow_address: Address::zero(),
            validator_tokens: Table::new(),
            user_tokens: Table::new(),
            supported_currencies: Table::new(),
            collected_fees: Table::new(),
            escrowed_fees: Table::new(),
            escrow_claims: Table::new(),
            validator_accepted_tokens: Table::new(),
            validator_token_list: Table::new(),
            token_validators: Table::new(),
            events: Vec::new(),
        };
        assert(r@.events =~= Seq::<FeeEvent>::empty());
        assert(r@.token_lists =~= Map::<Address, Seq<Address>>::empty());
        assert(r@.token_validators =~= Map::<Address, Seq<Address>>::empty());
        assert(r@.accept_sets_in_sync());
        r
    }

    /// The events emitted so far, oldest first.
    pub fn events(&self) -> (r: &Vec<FeeManagerEvent>)
        ensures
            event_views(r@) == self@.events,
    {
        &self.events
    }

    /// Appends `event` to the event log.
    fn emit(&mut self, event: FeeManagerEvent)
        ensures
            final(self)@ == old(self)@.emitted(event@),
            old(self).tables_wf() ==> final(self).tables_wf(),
            old(self).wf() ==> final(self).wf(),
    {
        let ghost before = self@;
        self.events.push(event);
        proof {
            assert(event_views(self.events@) =~= before.events.push(event@));
            assert(self@ =~= before.emitted(event@));
            if before.accept_sets_in_sync() {
                lemma_sync_frame(before, self@);
            }
        }
    }

    // Governance.

    /// Address authorized to call governance setters. Zero = unconfigured.
    pub fn governance_admin(&self) -> (r: Address)
        ensures
            r == self@.governance_admin,
    {
        self.governance_admin
    }

    fn assert_governance(&self, sender: &Address) -> (r: Result<(), MagnusPrecompileError>)
        ensures
            r is Ok <==> *sender == self@.governance_admin,
            r is Err ==> is_not_admin_err(r, *sender),
    {
        if !sender.same(&self.governance_admin) {
            return fm_error(FeeManagerError::OnlyGovernanceAdmin { caller: *sender });
        }
        Ok(())
    }

    /// Rotates governance authority. Bootstrap: while the current admin is zero, any
    /// caller may set it.
    pub fn set_governance_admin(&mut self, sender: Address, new_admin: Address) -> (r: Result<(), MagnusPrecompileError>)
        requires
            old(self).wf(),
        ensures
            final(self).wf(),
            set_governance_admin_post(old(self)@, final(self)@, r, sender, new_admin),
    {
        if new_admin.is_zero() {
            return fm_error(FeeManagerError::ZeroAddressGovernanceAdmin);
        }
        let old_admin = self.governance_admin;
        if !old_admin.is_zero() && !sender.same(&old_admin) {
            return fm_error(FeeManagerError::OnlyGovernanceAdmin { caller: sender });
        }
        let ghost before = self@;
        self.governance_admin = new_admin;
        proof {
            lemma_sync_frame(before, self@);
        }
        self.emit(FeeManagerEvent::GovernanceAdminChanged { old_admin, new_admin });
        Ok(())
    }

    // Currency registry.

    fn read_config(&self, key: &B256) -> (r: CurrencyConfig)
        requires
            self.wf(),
        ensures
            r == self@.currency(*key),
    {
        match self.supported_currencies.get(key) {
            Some(c) => *c,
            None => CurrencyConfig::default(),
        }
    }

    /// The config of `code`; the all-default config for unregistered codes.
    pub fn get_currency_config(&self, code: &str) -> (r: CurrencyConfig)
        requires
            self.wf(),
        ensures
            r == self@.currency_of(code),
    {
        let key = currency_key(code);
        proof {
            lemma_currency_key(code, key);
        }
        self.read_config(&key)
    }

    /// Whether `code` is currently flagged enabled.
    pub fn is_currency_enabled(&self, code: &str) -> (r: bool)
        requires
            self.wf(),
        ensures
            r == self@.currency_of(code).enabled,
    {
        self.get_currency_config(code).enabled
    }

    /// Lazy effective-enabled check at `now_ts` (timestamp in seconds).
    pub fn is_currency_effectively_enabled(&self, code: &str, now_ts: u64) -> (r: bool)
        requires
            self.wf(),
        ensures
            r == self@.currency_of(code).spec_effectively_enabled(now_ts),
    {
        self.get_currency_config(code).effectively_enabled(now_ts)
    }

    /// True iff `code` is currently in the deprecation grace window.
    pub fn is_currency_in_grace(&self, code: &str, now_ts: u64) -> (r: bool)
        requires
            self.wf(),
        ensures
            r == self@.currency_of(code).spec_in_grace_period(now_ts),
    {
        self.get_currency_config(code).in_grace_period(now_ts)
    }

    fn write_config(&mut self, key: B256, config: CurrencyConfig)
        requires
            old(self).wf(),
        ensures
            final(self).wf(),
            final(self)@ == old(self)@.with_currency(key, config),
    {
        let ghost before = self@;
        self.supported_currencies.set(key, config);
        proof {
            lemma_sync_frame(before, self@);
        }
    }

    /// Registers a currency in disabled state. It must be enabled separately.
    pub fn add_currency(&mut self, sender: Address, code: &str, current_block: u64) -> (r: Result<(), MagnusPrecompileError>)
        requires
            old(self).wf(),
        ensures
            final(self).wf(),
            add_currency_post(old(self)@, final(self)@, r, sender, code@, current_block),
    {
        self.assert_governance(&sender)?;
        if !is_valid_currency_code(code) {
            return fm_error(FeeManagerError::InvalidCurrencyCode { currency: String::from_str(code) });
        }
        let key = currency_key(code);
        proof {
            lemma_currency_key(code, key);
        }
        let existing = self.read_config(&key);
        if existing.registered {
            return fm_error(FeeManagerError::CurrencyAlreadyAdded { currency: String::from_str(code) });
        }
        let config = CurrencyConfig::newly_added(current_block);
        self.write_config(key, config);
        self.emit(FeeManagerEvent::CurrencyAdded { code: String::from_str(code), at_block: current_block });
        Ok(())
    }

    /// Marks a registered currency as gas-eligible. Re-enabling clears any prior
    /// deprecation flags.
    pub fn enable_currency(&mut self, sender: Address, code: &str, current_block: u64) -> (r: Result<(), MagnusPrecompileError>)
        requires
            old(self).wf(),
        ensures
            final(self).wf(),
            enable_currency_post(old(self)@, final(self)@, r, sender, code@, current_block),
    {
        self.assert_governance(&sender)?;
        if !is_valid_currency_code(code) {
            return fm_error(FeeManagerError::InvalidCurrencyCode { currency: String::from_str(code) });
        }
        let key = currency_key(code);
        proof {
            lemma_currency_key(code, key);
        }
        let mut config = self.read_config(&key);
        if !config.registered {
            return fm_error(FeeManagerError::CurrencyNotRegistered { currency: String::from_str(code) });
        }
        if config.enabled {
            return fm_error(FeeManagerError::CurrencyAlreadyEnabled { currency: String::from_str(code) });
        }
        config.enabled = true;
        config.enabled_at_block = current_block;
        config.deprecating = false;
        config.deprecation_activates_at = 0;
        self.write_config(key, config);
        self.emit(FeeManagerEvent::CurrencyEnabled { code: String::from_str(code), at_block: current_block });
        Ok(())
    }

    /// Effective grace period; falls back to the default when storage is zero.
    pub fn deprecation_grace_period(&self) -> (r: u64)
        ensures
            r == self@.grace_period(),
    {
        if self.deprecation_grace_period == 0 {
            DEFAULT_GRACE_PERIOD_SECS
        } else {
            self.deprecation_grace_period
        }
    }

    /// Sets the grace period. Caller must be the governance admin; the value is bounded
    /// to `[MIN_GRACE_PERIOD_SECS, MAX_GRACE_PERIOD_SECS]`.
    pub fn set_deprecation_grace_period(&mut self, sender: Address, new_grace: u64) -> (r: Result<(), MagnusPrecompileError>)
        requires
            old(self).wf(),
        ensures
            final(self).wf(),
            set_deprecation_grace_period_post(old(self)@, final(self)@, r, sender, new_grace),
    {
        self.assert_governance(&sender)?;
        if !(MIN_GRACE_PERIOD_SECS <= new_grace && new_grace <= MAX_GRACE_PERIOD_SECS) {
            return fm_error(FeeManagerError::GracePeriodOutOfRange { grace_period: new_grace });
        }
        let ghost before = self@;
        let old_grace_period = self.deprecation_grace_period;
        self.deprecation_grace_period = new_grace;
        proof {
            lemma_sync_frame(before, self@);
        }
        self.emit(FeeManagerEvent::DeprecationGracePeriodChanged { old_grace_period, new_grace_period: new_grace });
        Ok(())
    }

    /// Starts the deprecation grace period for `code`: after the grace window (which ends
    /// at `now_ts + grace`, saturating) the currency is no longer effectively enabled.
    pub fn disable_currency(&mut self, sender: Address, code: &str, now_ts: u64) -> (r: Result<(), MagnusPrecompileError>)
        requires
            old(self).wf(),
        ensures
            final(self).wf(),
            disable_currency_post(old(self)@, final(self)@, r, sender, code@, now_ts),
    {
        self.assert_governance(&sender)?;
        if !is_valid_currency_code(code) {
            return fm_error(FeeManagerError::InvalidCurrencyCode { currency: String::from_str(code) });
        }
        let key = currency_key(code);
        proof {
            lemma_currency_key(code, key);
        }
        let mut config = self.read_config(&key);
        if !config.registered {
            return fm_error(FeeManagerError::CurrencyNotRegistered { currency: String::from_str(code) });
        }
        if !config.enabled {
            return fm_error(FeeManagerError::CurrencyDisabled { currency: String::from_str(code) });
        }
        if config.deprecating {
            return fm_error(
                FeeManagerError::CurrencyAlreadyDeprecating { currency: String::from_str(code) },
            );
        }
        let grace = self.deprecation_grace_period();
        let ends_at = now_ts.saturating_add(grace);
        config.deprecating = true;
        config.deprecation_activates_at = ends_at;
        self.write_config(key, config);
        self.emit(
            FeeManagerEvent::CurrencyDisabling { code: String::from_str(code), grace_ends_at: ends_at, by: sender },
        );
        Ok(())
    }

    /// Effective emergency threshold; falls back to the default when storage is zero.
    pub fn emergency_disable_threshold(&self) -> (r: u8)
        ensures
            r == self@.emergency_threshold(),
    {
        if self.emergency_disable_threshold == 0 {
            DEFAULT_EMERGENCY_THRESHOLD
        } else {
            self.emergency_disable_threshold
        }
    }

    /// Updates the emergency threshold, bounded to `[MIN_EMERGENCY_THRESHOLD,
    /// MAX_EMERGENCY_THRESHOLD]`. Caller must be the governance admin.
    pub fn set_emergency_disable_threshold(&mut self, sender: Address, new_threshold: u8) -> (r: Result<(), MagnusPrecompileError>)
        requires
            old(self).wf(),
        ensures
            final(self).wf(),
            set_emergency_disable_threshold_post(old(self)@, final(self)@, r, sender, new_threshold),
    {
        self.assert_governance(&sender)?;
        if !(MIN_EMERGENCY_THRESHOLD <= new_threshold && new_threshold <= MAX_EMERGENCY_THRESHOLD) {
            return fm_error(
                FeeManagerError::EmergencyThresholdOutOfRange { threshold: new_threshold },
            );
        }
        let old_threshold = self.emergency_disable_threshold();
        let ghost before = self@;
        self.emergency_disable_threshold = new_threshold;
        proof {
            lemma_sync_frame(before, self@);
        }
        self.emit(FeeManagerEvent::EmergencyDisableThresholdChanged { old_threshold, new_threshold });
        Ok(())
    }

    /// Immediately flips a currency to disabled, with no grace period, clearing any
    /// running deprecation.
    pub fn emergency_disable_currency(&mut self, sender: Address, code: &str) -> (r: Result<(), MagnusPrecompileError>)
        requires
            old(self).wf(),
        ensures
            final(self).wf(),
            emergency_disable_currency_post(old(self)@, final(self)@, r, sender, code@),
    {
        self.assert_governance(&sender)?;
        if !is_valid_currency_code(code) {
            return fm_error(FeeManagerError::InvalidCurrencyCode { currency: String::from_str(code) });
        }
        let key = currency_key(code);
        proof {
            lemma_currency_key(code, key);
        }
        let mut config = self.read_config(&key);
        if !config.registered {
            return fm_error(FeeManagerError::CurrencyNotRegistered { currency: String::from_str(code) });
        }
        if !config.enabled {
            return fm_error(FeeManagerError::CurrencyDisabled { currency: String::from_str(code) });
        }
        config.enabled = false;
        config.deprecating = false;
        config.deprecation_activates_at = 0;
        self.write_config(key, config);
        self.emit(FeeManagerEvent::CurrencyDisabledEmergency { code: String::from_str(code), by: sender });
        Ok(())
    }

    /// Stamps `code` as pruned at `current_block`. Permissionless; the currency must be
    /// registered and not effectively enabled at `now_ts`. The iteration budget is
    /// accepted for interface compatibility and unused.
    pub fn prune_currency(&mut self, code: &str, max_iterations: u64, current_block: u64, now_ts: u64) -> (r: Result<(), MagnusPrecompileError>)
        requires
            old(self).wf(),
        ensures
            final(self).wf(),
            prune_currency_post(old(self)@, final(self)@, r, code@, current_block, now_ts),
    {
        if !is_valid_currency_code(code) {
            return fm_error(FeeManagerError::InvalidCurrencyCode { currency: String::from_str(code) });
        }
        let key = currency_key(code);
        proof {
            lemma_currency_key(code, key);
        }
        let mut config = self.read_config(&key);
        if !config.registered {
            return fm_error(FeeManagerError::CurrencyNotRegistered { currency: String::from_str(code) });
        }
        if config.effectively_enabled(now_ts) {
            return fm_error(FeeManagerError::CurrencyNotDisabled { currency: String::from_str(code) });
        }
        config.last_pruned_at_block = current_block;
        self.write_config(key, config);
        self.emit(
            FeeManagerEvent::CurrencyPruned {
                code: String::from_str(code),
                tokens_removed: U256::zero(),
                at_block: current_block,
            },
        );
        Ok(())
    }

    // Escrow configuration.

    /// Effective escrow claim window; falls back to the default when storage is zero.
    pub fn escrow_claim_window(&self) -> (r: u64)
        ensures
            r == self@.claim_window(),
    {
        if self.escrow_claim_window == 0 {
            DEFAULT_ESCROW_CLAIM_WINDOW_SECS
        } else {
            self.escrow_claim_window
        }
    }

    /// Sets the escrow claim window, bounded to `[MIN_ESCROW_CLAIM_WINDOW_SECS,
    /// MAX_ESCROW_CLAIM_WINDOW_SECS]`. Caller must be the governance admin.
    pub fn set_escrow_claim_window(&mut self, sender: Address, new_window: u64) -> (r: Result<(), MagnusPrecompileError>)
        requires
            old(self).wf(),
        ensures
            final(self).wf(),
            set_escrow_claim_window_post(old(self)@, final(self)@, r, sender, new_window),
    {
        self.assert_governance(&sender)?;
        if !(MIN_ESCROW_CLAIM_WINDOW_SECS <= new_window && new_window <= MAX_ESCROW_CLAIM_WINDOW_SECS) {
            return fm_error(FeeManagerError::EscrowClaimWindowOutOfRange { window: new_window });
        }
        let old_window = self.escrow_claim_window();
        let ghost before = self@;
        self.escrow_claim_window = new_window;
        proof {
            lemma_sync_frame(before, self@);
        }
        self.emit(FeeManagerEvent::EscrowClaimWindowChanged { old_window, new_window });
        Ok(())
    }

    /// The off-boarding escrow recipient. Zero = unconfigured.
    pub fn foundation_escrow_address(&self) -> (r: Address)
        ensures
            r == self@.foundation_escrow_address,
    {
        self.foundation_escrow_address
    }

    /// Sets the off-boarding escrow recipient. Caller must be the governance admin; the
    /// zero address is rejected.
    pub fn set_foundation_escrow_address(&mut self, sender: Address, new_address: Address) -> (r: Result<(), MagnusPrecompileError>)
        requires
            old(self).wf(),
        ensures
            final(self).wf(),
            set_foundation_escrow_address_post(old(self)@, final(self)@, r, sender, new_address),
    {
        self.assert_governance(&sender)?;
        if new_address.is_zero() {
            return fm_error(FeeManagerError::ZeroAddressFoundationEscrow);
        }
        let old_address = self.foundation_escrow_address;
        let ghost before = self@;
        self.foundation_escrow_address = new_address;
        proof {
            lemma_sync_frame(before, self@);
        }
        self.emit(FeeManagerEvent::FoundationEscrowAddressChanged { old_address, new_address });
        Ok(())
    }

    /// Escrowed fees held for `(validator, token)`.
    pub fn escrowed_fees_amount(&self, validator: Address, token: Address) -> (r: U256)
        requires
            self.wf(),
        ensures
            r@ == self@.escrowed(validator, token),
    {
        match self.escrowed_fees.get(&AddressPair { first: validator, second: token }) {
            Some(a) => *a,
            None => U256::zero(),
        }
    }

    /// Fees collected for `(validator, token)` and not yet distributed.
    pub fn collected_fees(&self, validator: Address, token: Address) -> (r: U256)
        requires
            self.wf(),
        ensures
            r@ == self@.collected(validator, token),
    {
        match self.collected_fees.get(&AddressPair { first: validator, second: token }) {
            Some(a) => *a,
            None => U256::zero(),
        }
    }

    /// The off-board record of `validator`; the default record if never off-boarded.
    pub fn escrow_claim(&self, validator: Address) -> (r: ClaimRecord)
        requires
            self.wf(),
        ensures
            r == self@.claim(validator),
    {
        match self.escrow_claims.get(&validator) {
            Some(c) => *c,
            None => ClaimRecord::default(),
        }
    }

    // Accept-set views.

    /// Whether `validator`'s accept-set includes `token`.
    pub fn accepts_token(&self, validator: Address, token: Address) -> (r: bool)
        requires
            self.wf(),
        ensures
            r == self@.accepts(validator, token),
    {
        match self.validator_accepted_tokens.get(&AddressPair { first: validator, second: token }) {
            Some(b) => *b,
            None => false,
        }
    }

    fn read_token_list(&self, validator: &Address) -> (r: Vec<Address>)
        requires
            self.tables_wf(),
        ensures
            r@ == self@.token_list(*validator),
    {
        match self.validator_token_list.get(validator) {
            Some(l) => copy_list(l),
            None => Vec::new(),
        }
    }

    fn read_token_validators(&self, token: &Address) -> (r: Vec<Address>)
        requires
            self.tables_wf(),
        ensures
            r@ == self@.validators_of(*token),
    {
        match self.token_validators.get(token) {
            Some(l) => copy_list(l),
            None => Vec::new(),
        }
    }

    /// The tokens in `validator`'s accept-set, in storage order.
    pub fn get_accepted_tokens(&self, validator: Address) -> (r: Vec<Address>)
        requires
            self.wf(),
        ensures
            r@ == self@.token_list(validator),
            forall|t: Address| r@.contains(t) <==> self@.accepts(validator, t),
    {
        self.read_token_list(&validator)
    }

    /// True iff at least one validator has `token` in its accept-set.
    pub fn is_accepted_by_any_validator(&self, token: Address) -> (r: bool)
        requires
            self.wf(),
        ensures
            r == (self@.validators_of(token).len() > 0),
            r == exists|v: Address| self@.accepts(v, token),
    {
        let l = self.read_token_validators(&token);
        proof {
            if l@.len() > 0 {
                assert(self@.validators_of(token).contains(l@[0]));
                assert(self@.accepts(l@[0], token));
            }
        }
        l.len() > 0
    }

    /// Checks that a token of `currency` may be used for fees at `now_ts`: the currency is
    /// registered and effectively enabled.
    pub fn validate_supported_currency(&self, currency: &str, now_ts: u64) -> (r: Result<(), MagnusPrecompileError>)
        requires
            self.wf(),
        ensures
            !self@.currency_of(currency).registered ==> is_currency_err(
                r,
                CurrencyErrorKind::NotRegistered,
                currency@,
            ),
            self@.currency_of(currency).registered && !self@.currency_of(
                currency,
            ).spec_effectively_enabled(now_ts) ==> is_currency_err(
                r,
                CurrencyErrorKind::Disabled,
                currency@,
            ),
            r is Ok <==> currency_supported(self@.currency_of(currency), now_ts),
    {
        let cfg = self.get_currency_config(currency);
        if !cfg.registered {
            return fm_error(FeeManagerError::CurrencyNotRegistered { currency: String::from_str(currency) });
        }
        if !cfg.effectively_enabled(now_ts) {
            return fm_error(FeeManagerError::CurrencyDisabled { currency: String::from_str(currency) });
        }
        Ok(())
    }

    /// Adds `token` to the caller's accept-set.
    ///
    /// `token_is_tip20` says whether the MIP-20 factory deployed `token`, and
    /// `token_currency` is the token's ISO 4217 currency. Adds are blocked while the
    /// currency is in its deprecation grace window, from the block's own beneficiary, for
    /// tokens already accepted, and once the accept-set holds `MAX_ACCEPT_SET_SIZE` tokens.
    pub fn add_accepted_token(
        &mut self,
        sender: Address,
        token: Address,
        beneficiary: Address,
        token_is_tip20: bool,
        token_currency: &str,
        now_ts: u64,
    ) -> (r: Result<(), MagnusPrecompileError>)
        requires
            old(self).wf(),
        ensures
            final(self).wf(),
            add_accepted_token_post(old(self)@, final(self)@, r, sender, token, beneficiary, token_is_tip20, token_currency@, now_ts),
    {
        if !token_is_tip20 {
            return fm_error(FeeManagerError::InvalidToken);
        }
        self.validate_supported_currency(token_currency, now_ts)?;
        let cfg = self.get_currency_config(token_currency);
        if cfg.in_grace_period(now_ts) {
            return fm_error(
                FeeManagerError::CurrencyDeprecating {
                    currency: String::from_str(token_currency),
                    grace_ends_at: cfg.deprecation_activates_at,
                },
            );
        }
        if sender.same(&beneficiary) {
            return fm_error(FeeManagerError::CannotChangeWithinBlock);
        }
        if self.accepts_token(sender, token) {
            return fm_error(FeeManagerError::TokenAlreadyAccepted { validator: sender, token });
        }
        let mut list = self.read_token_list(&sender);
        if list.len() >= MAX_ACCEPT_SET_SIZE {
            return fm_error(FeeManagerError::MaxAcceptSetReached { validator: sender });
        }
        let mut validators = self.read_token_validators(&token);
        let ghost before = self@;
        proof {
            lemma_add_keeps_sync(before, sender, token);
        }
        list.push(token);
        let ghost tl = self.validator_token_list@;
        self.validator_token_list.set(sender, list);
        proof {
            lemma_view_insert(tl, sender, list);
        }
        self.validator_accepted_tokens.set(AddressPair { first: sender, second: token }, true);
        validators.push(sender);
        let ghost tv = self.token_validators@;
        self.token_validators.set(token, validators);
        proof {
            lemma_view_insert(tv, token, validators);
            assert(self@ == before.with_accept_added(sender, token));
        }
        self.emit(FeeManagerEvent::AcceptedTokenAdded { validator: sender, token });
        Ok(())
    }

    /// Removes `token` from the caller's accept-set. The map flag, the caller's token list
    /// and the token's validator list change together.
    pub fn remove_accepted_token(&mut self, sender: Address, token: Address, beneficiary: Address) -> (r: Result<(), MagnusPrecompileError>)
        requires
            old(self).wf(),
        ensures
            final(self).wf(),
            remove_accepted_token_post(old(self)@, final(self)@, r, sender, token, beneficiary),
    {
        if sender.same(&beneficiary) {
            return fm_error(FeeManagerError::CannotChangeWithinBlock);
        }
        if !self.accepts_token(sender, token) {
            return fm_error(FeeManagerError::TokenNotInAcceptSet { validator: sender, token });
        }
        let ghost before = self@;
        proof {
            lemma_remove_keeps_sync(before, sender, token);
        }
        let mut list = self.read_token_list(&sender);
        let mut validators = self.read_token_validators(&token);
        let pos = match position_of(&list, &token) {
            Some(p) => p,
            None => {
                assert(false);
                return Err(MagnusPrecompileError::Fatal(String::from_str("validator_accepted_tokens flag set but token missing from list")));
            },
        };
        proof {
            lemma_index_of_unique(list@, pos as int);
        }
        list.swap_remove(pos);
        let ghost tl = self.validator_token_list@;
        self.validator_token_list.set(sender, list);
        proof {
            lemma_view_insert(tl, sender, list);
        }
        self.validator_accepted_tokens.set(AddressPair { first: sender, second: token }, false);
        let vpos = match position_of(&validators, &sender) {
            Some(p) => p,
            None => {
                assert(false);
                return Err(MagnusPrecompileError::Fatal(String::from_str("token_validators entry missing for accepted token")));
            },
        };
        proof {
            lemma_index_of_unique(validators@, vpos as int);
        }
        validators.swap_remove(vpos);
        let ghost tv = self.token_validators@;
        self.token_validators.set(token, validators);
        proof {
            lemma_view_insert(tv, token, validators);
            assert(self@ == before.with_accept_removed(sender, token));
        }
        self.emit(FeeManagerEvent::AcceptedTokenRemoved { validator: sender, token });
        Ok(())
    }

    // Fee ledger.

    /// Returns the validator's preferred fee token, falling back to the default fee token
    /// when none is set.
    /// Sets `sender`'s preferred fee token. The token must be a deployed MIP-20
    /// (`token_is_tip20`) denominated in USD (`token_is_usd`). Once T3 rules are active
    /// (`t3_active`), setting the token already stored is a no-op without an event; once T4
    /// rules are active (`t4_active`) the call is refused.
    pub fn set_user_token(
        &mut self,
        sender: Address,
        token: Address,
        token_is_tip20: bool,
        token_is_usd: bool,
        t3_active: bool,
        t4_active: bool,
    ) -> (r: Result<(), MagnusPrecompileError>)
        requires
            old(self).wf(),
        ensures
            final(self).wf(),
            t4_active ==> is_fm_err(r, FeeManagerError::UserTokenApiRemoved),
            !t4_active && !token_is_tip20 ==> is_fm_err(r, FeeManagerError::InvalidToken),
            !t4_active && token_is_tip20 && !token_is_usd ==> r == Err::<(), MagnusPrecompileError>(
                MagnusPrecompileError::MIP20(Mip20Error::InvalidCurrency),
            ),
            r is Ok <==> !t4_active && token_is_tip20 && token_is_usd,
            r is Ok && t3_active && old(self)@.user_token(sender) == token ==> final(self)@ == old(
                self,
            )@,
            r is Ok && !(t3_active && old(self)@.user_token(sender) == token) ==> final(self)@ == old(
                self,
            )@.with_user_token(sender, token).emitted(FeeEvent::UserTokenSet { user: sender, token }),
            r is Err ==> final(self)@ == old(self)@,
    {
        if t4_active {
            return fm_error(FeeManagerError::UserTokenApiRemoved);
        }
        if !token_is_tip20 {
            return fm_error(FeeManagerError::InvalidToken);
        }
        if !token_is_usd {
            return Err(MagnusPrecompileError::MIP20(Mip20Error::InvalidCurrency));
        }
        if t3_active {
            let current = self.user_tokens(sender, false);
            if current.same(&token) {
                return Ok(());
            }
        }
        let ghost before = self@;
        self.user_tokens.set(sender, token);
        proof {
            lemma_sync_frame(before, self@);
        }
        self.emit(FeeManagerEvent::UserTokenSet { user: sender, token });
        Ok(())
    }

    /// The fee token `user` prefers (zero when unset); zero once T4 rules are active.
    pub fn user_tokens(&self, user: Address, t4_active: bool) -> (r: Address)
        requires
            self.wf(),
        ensures
            r == (if t4_active {
                spec_zero_address()
            } else {
                self@.user_token(user)
            }),
    {
        if t4_active {
            let z = Address::zero();
            proof {
                crate::primitives::lemma_zero_address_unique(z, spec_zero_address());
            }
            return z;
        }
        match self.user_tokens.get(&user) {
            Some(t) => *t,
            None => {
                let z = Address::zero();
                proof {
                    crate::primitives::lemma_zero_address_unique(z, spec_zero_address());
                }
                z
            },
        }
    }

    pub fn get_validator_token(&self, beneficiary: Address) -> (r: Address)
        requires
            self.wf(),
        ensures
            self@.validator_token(beneficiary).spec_is_zero() ==> r == spec_default_fee_token(),
            !self@.validator_token(beneficiary).spec_is_zero() ==> r == self@.validator_token(
                beneficiary,
            ),
    {
        let token = match self.validator_tokens.get(&beneficiary) {
            Some(t) => *t,
            None => {
                let z = Address::zero();
                proof {
                    crate::primitives::lemma_zero_address_unique(z, spec_zero_address());
                }
                z
            },
        };
        if token.is_zero() {
            default_fee_token()
        } else {
            token
        }
    }

    /// Sets the caller's preferred fee token as a validator.
    ///
    /// `token_is_tip20` says whether the MIP-20 factory deployed `token`; `token_is_usd`
    /// whether the token is USD-denominated.
    pub fn set_validator_token(
        &mut self,
        sender: Address,
        token: Address,
        beneficiary: Address,
        token_is_tip20: bool,
        token_is_usd: bool,
    ) -> (r: Result<(), MagnusPrecompileError>)
        requires
            old(self).wf(),
        ensures
            final(self).wf(),
            !token_is_tip20 ==> is_fm_err(r, FeeManagerError::InvalidToken),
            token_is_tip20 && sender == beneficiary ==> is_fm_err(
                r,
                FeeManagerError::CannotChangeWithinBlock,
            ),
            token_is_tip20 && sender != beneficiary && !token_is_usd ==> r == Err::<
                (),
                MagnusPrecompileError,
            >(MagnusPrecompileError::MIP20(Mip20Error::InvalidCurrency)),
            r is Ok <==> token_is_tip20 && sender != beneficiary && token_is_usd,
            r is Ok ==> final(self)@ == old(self)@.with_validator_token(sender, token).emitted(
                FeeEvent::ValidatorTokenSet { validator: sender, token },
            ),
            r is Err ==> final(self)@ == old(self)@,
    {
        if !token_is_tip20 {
            return fm_error(FeeManagerError::InvalidToken);
        }
        if sender.same(&beneficiary) {
            return fm_error(FeeManagerError::CannotChangeWithinBlock);
        }
        if !token_is_usd {
            return Err(MagnusPrecompileError::MIP20(Mip20Error::InvalidCurrency));
        }
        let ghost before = self@;
        self.validator_tokens.set(sender, token);
        proof {
            lemma_sync_frame(before, self@);
        }
        self.emit(FeeManagerEvent::ValidatorTokenSet { validator: sender, token });
        Ok(())
    }

    fn write_collected(&mut self, validator: Address, token: Address, amount: U256)
        requires
            old(self).wf(),
        ensures
            final(self).wf(),
            final(self)@ == old(self)@.with_collected(validator, token, amount),
    {
        let ghost before = self@;
        self.collected_fees.set(AddressPair { first: validator, second: token }, amount);
        proof {
            lemma_sync_frame(before, self@);
        }
    }

    fn write_escrowed(&mut self, validator: Address, token: Address, amount: U256)
        requires
            old(self).wf(),
        ensures
            final(self).wf(),
            final(self)@ == old(self)@.with_escrowed(validator, token, amount),
    {
        let ghost before = self@;
        self.escrowed_fees.set(AddressPair { first: validator, second: token }, amount);
        proof {
            lemma_sync_frame(before, self@);
        }
    }

    /// Credits `amount` to the fees collected for `(validator, token)`. A zero amount
    /// leaves storage untouched; a sum beyond 256 bits reverts with an under/overflow panic.
    pub fn increment_collected_fees(&mut self, validator: Address, token: Address, amount: U256) -> (r: Result<(), MagnusPrecompileError>)
        requires
            old(self).wf(),
        ensures
            final(self).wf(),
            amount@ == 0 ==> r is Ok && final(self)@ == old(self)@,
            amount@ != 0 && old(self)@.collected(validator, token) + amount@ > u256_max() ==> r
                == Err::<(), MagnusPrecompileError>(
                MagnusPrecompileError::Panic(PanicKind::UnderOverflow),
            ),
            r is Ok <==> amount@ == 0 || old(self)@.collected(validator, token) + amount@
                <= u256_max(),
            r is Ok && amount@ != 0 ==> final(self)@ == old(self)@.with_collected(
                validator,
                token,
                u256_of(old(self)@.collected(validator, token) + amount@),
            ),
            r is Err ==> final(self)@ == old(self)@,
    {
        if amount.is_zero() {
            return Ok(());
        }
        let current = self.collected_fees(validator, token);
        match current.checked_add(&amount) {
            Some(sum) => {
                proof {
                    lemma_u256_of(sum);
                }
                self.write_collected(validator, token, sum);
                Ok(())
            },
            None => Err(MagnusPrecompileError::under_overflow()),
        }
    }

    /// Fee settlement: credits `actual_spending` of `fee_token` to the block's
    /// `beneficiary` when its accept-set includes the token, and reverts otherwise.
    /// No AMM swap, no currency conversion.
    pub fn settle_fee_t4(&mut self, beneficiary: Address, fee_token: Address, actual_spending: U256) -> (r: Result<(), MagnusPrecompileError>)
        requires
            old(self).wf(),
        ensures
            final(self).wf(),
            !old(self)@.accepts(beneficiary, fee_token) ==> is_fm_err(
                r,
                FeeManagerError::FeeTokenNotAccepted { validator: beneficiary, token: fee_token },
            ),
            r is Ok <==> old(self)@.accepts(beneficiary, fee_token) && (actual_spending@ == 0
                || old(self)@.collected(beneficiary, fee_token) + actual_spending@ <= u256_max()),
            r is Ok && actual_spending@ == 0 ==> final(self)@ == old(self)@,
            r is Ok && actual_spending@ != 0 ==> final(self)@ == old(self)@.with_collected(
                beneficiary,
                fee_token,
                u256_of(old(self)@.collected(beneficiary, fee_token) + actual_spending@),
            ),
            r is Err ==> final(self)@ == old(self)@,
    {
        if !self.accepts_token(beneficiary, fee_token) {
            return fm_error(
                FeeManagerError::FeeTokenNotAccepted { validator: beneficiary, token: fee_token },
            );
        }
        self.increment_collected_fees(beneficiary, fee_token, actual_spending)
    }

    /// Pays out the fee balance of `(validator, token)`: `transfer(token, validator, amount)`
    /// moves the balance from the fee manager to the validator; on success the ledger entry
    /// is zeroed, `FeesDistributed` is emitted and the amount returned. A failed transfer
    /// reverts with its error. A zero balance is a no-op. `token_is_tip20` says whether
    /// `token` carries the MIP-20 address prefix.
    pub fn distribute_fees<F: Fn(Address, Address, U256) -> Result<(), MagnusPrecompileError>>(
        &mut self,
        validator: Address,
        token: Address,
        token_is_tip20: bool,
        transfer: F,
    ) -> (r: Result<U256, MagnusPrecompileError>)
        requires
            old(self).wf(),
            forall|t: Address, to: Address, a: U256| transfer.requires((t, to, a)),
        ensures
            final(self).wf(),
            distribute_fees_post(old(self)@, final(self)@, r, validator, token, token_is_tip20, transfer),
    {
        let amount = self.collected_fees(validator, token);
        if amount.is_zero() {
            proof {
                U256::lemma_view_injective(amount, U256 { lo: 0, hi: 0 });
            }
            return Ok(amount);
        }
        if !token_is_tip20 {
            return fm_error(FeeManagerError::InvalidToken);
        }
        let sent = transfer(token, validator, amount);
        match sent {
            Ok(()) => {},
            Err(e) => {
                return Err(e);
            },
        }
        self.write_collected(validator, token, U256::zero());
        self.emit(FeeManagerEvent::FeesDistributed { validator, token, amount });
        Ok(amount)
    }

    /// A validator claims its escrowed fees of `token` within the claim window:
    /// `transfer(token, recipient, amount)` moves them from the fee manager to `recipient`;
    /// on success the escrow entry is zeroed, `EscrowedFeesClaimed` is emitted and the amount
    /// returned. A failed transfer reverts with its error.
    pub fn claim_escrowed_fees<F: Fn(Address, Address, U256) -> Result<(), MagnusPrecompileError>>(
        &mut self,
        sender: Address,
        validator: Address,
        token: Address,
        recipient: Address,
        now_ts: u64,
        transfer: F,
    ) -> (r: Result<U256, MagnusPrecompileError>)
        requires
            old(self).wf(),
            forall|t: Address, to: Address, a: U256| transfer.requires((t, to, a)),
        ensures
            final(self).wf(),
            claim_escrowed_fees_post(old(self)@, final(self)@, r, sender, validator, token, recipient, now_ts, transfer),
    {
        if !sender.same(&validator) {
            return fm_error(FeeManagerError::OnlyValidator);
        }
        let record = self.escrow_claim(validator);
        if !record.offboarded {
            return fm_error(FeeManagerError::ValidatorNotOffboarded { validator });
        }
        if !record.within_claim_window(now_ts) {
            return fm_error(FeeManagerError::ClaimWindowExpired { validator });
        }
        let amount = self.escrowed_fees_amount(validator, token);
        if amount.is_zero() {
            return fm_error(FeeManagerError::NoEscrowedFees { validator, token });
        }
        let sent = transfer(token, recipient, amount);
        match sent {
            Ok(()) => {},
            Err(e) => {
                return Err(e);
            },
        }
        self.write_escrowed(validator, token, U256::zero());
        self.emit(FeeManagerEvent::EscrowedFeesClaimed { validator, token, recipient, amount });
        Ok(amount)
    }

    /// Governance sweeps the escrow of `(validator, token)` after the claim window closed:
    /// `transfer(token, foundation, amount)` moves it from the fee manager to the foundation
    /// address; on success the escrow entry is zeroed, `EscrowSwept` is emitted and the amount
    /// returned. A failed transfer reverts with its error.
    pub fn sweep_expired_escrow<F: Fn(Address, Address, U256) -> Result<(), MagnusPrecompileError>>(
        &mut self,
        sender: Address,
        validator: Address,
        token: Address,
        now_ts: u64,
        transfer: F,
    ) -> (r: Result<U256, MagnusPrecompileError>)
        requires
            old(self).wf(),
            forall|t: Address, to: Address, a: U256| transfer.requires((t, to, a)),
        ensures
            final(self).wf(),
            sweep_expired_escrow_post(old(self)@, final(self)@, r, sender, validator, token, now_ts, transfer),
    {
        self.assert_governance(&sender)?;
        let record = self.escrow_claim(validator);
        if !record.offboarded {
            return fm_error(FeeManagerError::ValidatorNotOffboarded { validator });
        }
        if !record.after_claim_window(now_ts) {
            return fm_error(FeeManagerError::ClaimWindowActive { validator });
        }
        let amount = self.escrowed_fees_amount(validator, token);
        if amount.is_zero() {
            return fm_error(FeeManagerError::NoEscrowedFees { validator, token });
        }
        let foundation = self.foundation_escrow_address;
        if foundation.is_zero() {
            return fm_error(FeeManagerError::ZeroAddressFoundationEscrow);
        }
        let sent = transfer(token, foundation, amount);
        match sent {
            Ok(()) => {},
            Err(e) => {
                return Err(e);
            },
        }
        self.write_escrowed(validator, token, U256::zero());
        self.emit(FeeManagerEvent::EscrowSwept { validator, token, foundation, amount });
        Ok(amount)
    }

    fn prune_entry(&mut self, validator: Address, token: Address)
        requires
            old(self).tables_wf(),
            old(self)@.token_list(validator).no_duplicates(),
        ensures
            final(self).tables_wf(),
            final(self)@ == old(self)@.with_entry_pruned(validator, token),
    {
        self.validator_accepted_tokens.set(AddressPair { first: validator, second: token }, false);
        let mut list = self.read_token_list(&validator);
        match position_of(&list, &token) {
            Some(pos) => {
                list.swap_remove(pos);
                proof {
                    lemma_index_of_unique_any(old(self)@.token_list(validator), pos as int, token);
                }
                let ghost tl = self.validator_token_list@;
                self.validator_token_list.set(validator, list);
                proof {
                    lemma_view_insert(tl, validator, list);
                }
            },
            None => {},
        }
    }

    /// Per-token prune: removes `token` from validators' accept-sets, taking validators
    /// from the end of the token's reverse index, at most `min(max_iterations,
    /// MAX_PRUNE_ITERATIONS)` of them. Permissionless; the token's currency must be
    /// registered and not effectively enabled at `now_ts`. Returns the count removed.
    ///
    /// `token_is_tip20` says whether the MIP-20 factory deployed `token`, and
    /// `token_currency` is the token's ISO 4217 currency.
    pub fn prune_token(
        &mut self,
        token: Address,
        max_iterations: u64,
        current_block: u64,
        token_is_tip20: bool,
        token_currency: &str,
        now_ts: u64,
    ) -> (r: Result<u64, MagnusPrecompileError>)
        requires
            old(self).wf(),
        ensures
            final(self).wf(),
            prune_token_post(old(self)@, final(self)@, r, token, max_iterations, current_block, token_is_tip20, token_currency@, now_ts),
    {
        if !token_is_tip20 {
            return fm_error(FeeManagerError::InvalidToken);
        }
        let key = currency_key(token_currency);
        proof {
            lemma_currency_key(token_currency, key);
        }
        let mut config = self.read_config(&key);
        if !config.registered {
            return fm_error(
                FeeManagerError::CurrencyNotRegistered { currency: String::from_str(token_currency) },
            );
        }
        if config.effectively_enabled(now_ts) {
            return fm_error(
                FeeManagerError::CurrencyNotDisabled { currency: String::from_str(token_currency) },
            );
        }
        let budget = if max_iterations < MAX_PRUNE_ITERATIONS {
            max_iterations
        } else {
            MAX_PRUNE_ITERATIONS
        };
        let mut validators = self.read_token_validators(&token);
        let take: usize = if (budget as usize) < validators.len() {
            budget as usize
        } else {
            validators.len()
        };
        let ghost start = self@;
        let ghost all = validators@;
        let ghost n = all.len();
        let mut removed: u64 = 0;
        proof {
            lemma_sync_validators_same(start, token);
            assert(start.events + prune_events(all, token, 0) =~= start.events);
            assert(all.take(n as int) =~= all);
            assert(all.subrange(n as int, n as int) =~= Seq::<Address>::empty());
            assert(prune_progress(start, self@, token, all.subrange(n as int, n as int)));
        }
        while (removed as usize) < take
            invariant
                self.tables_wf(),
                start.accept_sets_in_sync(),
                take <= n,
                n == all.len(),
                all == start.validators_of(token),
                removed <= take,
                take <= MAX_PRUNE_ITERATIONS,
                validators@ == all.take(n - removed),
                self@.with_validators(token, validators@).accept_sets_in_sync(),
                prune_progress(start, self@, token, all.subrange(n - removed, n as int)),
                self@.events == start.events + prune_events(all, token, removed as nat),
            decreases take - removed,
        {
            let ghost before = self@;
            let ghost k = validators@.len();
            let v = validators.pop().unwrap();
            proof {
                assert(validators@ =~= all.take(k - 1));
                lemma_prune_step(start, before, token, all, k as int, validators@);
            }
            self.prune_entry(v, token);
            let ghost mid = self@;
            self.emit(FeeManagerEvent::AcceptedTokenRemoved { validator: v, token });
            proof {
                lemma_sync_frame(
                    mid.with_validators(token, validators@),
                    self@.with_validators(token, validators@),
                );
                assert forall|x: Address, t: Address| #[trigger] self@.accepts(x, t) == mid.accepts(x, t) by {}
                assert forall|x: Address| #[trigger] self@.token_list(x) == mid.token_list(x) by {}
                assert(v == all[n - 1 - removed]);
                assert(prune_events(all, token, (removed + 1) as nat) =~= prune_events(
                    all,
                    token,
                    removed as nat,
                ).push(FeeEvent::AcceptedTokenRemoved { validator: v, token }));
            }
            removed = removed + 1;
            proof {
                assert(validators@ == all.take(n - removed));
            }
        }
        let ghost cur = self@;
        let ghost tv = self.token_validators@;
        self.token_validators.set(token, validators);
        proof {
            lemma_view_insert(tv, token, validators);
            assert(self@ == cur.with_validators(token, validators@));
        }
        config.last_pruned_at_block = current_block;
        self.write_config(key, config);
        proof {
            let fin = self@;
            let removed_set = all.subrange(n - removed, n as int);
            assert(fin.validators_of(token) == all.take(n - removed));
            assert forall|v: Address, t: Address| #[trigger] fin.accepts(v, t) == (start.accepts(v, t)
                && !(t == token && removed_set.contains(v))) by {
                assert(cur.accepts(v, t) == fin.accepts(v, t));
            }
            assert forall|v: Address| #[trigger] fin.token_list(v) == (if removed_set.contains(v) {
                swap_removed(start.token_list(v), token)
            } else {
                start.token_list(v)
            }) by {
                assert(cur.token_list(v) == fin.token_list(v));
            }
            assert(pruned(start, fin, token, removed as nat));
        }
        Ok(removed)
    }

    fn offboard_step(&mut self, validator: Address, token: Address, rest: Vec<Address>)
        requires
            old(self).wf(),
            old(self)@.token_list(validator).len() > 0,
            old(self)@.token_list(validator)[0] == token,
            rest@ == old(self)@.token_list(validator).drop_first(),
        ensures
            final(self).wf(),
            final(self)@ == old(self)@.with_offboard_step(validator, token, rest@),
    {
        let ghost before = self@;
        proof {
            lemma_offboard_step_keeps_sync(before, validator, token);
        }
        let mut validators = self.read_token_validators(&token);
        let vpos = match position_of(&validators, &validator) {
            Some(p) => p,
            None => {
                assert(false);
                return;
            },
        };
        proof {
            lemma_index_of_unique(validators@, vpos as int);
        }
        validators.swap_remove(vpos);
        self.collected_fees.set(AddressPair { first: validator, second: token }, U256::zero());
        self.validator_accepted_tokens.set(AddressPair { first: validator, second: token }, false);
        let ghost tl = self.validator_token_list@;
        self.validator_token_list.set(validator, rest);
        proof {
            lemma_view_insert(tl, validator, rest);
        }
        let ghost tv = self.token_validators@;
        self.token_validators.set(token, validators);
        proof {
            lemma_view_insert(tv, token, validators);
            assert(self@ == before.with_offboard_step(validator, token, rest@));
        }
    }

    /// Off-boards a validator: stamps its claim record (deadline `now_ts` plus the claim
    /// window, saturating), then walks its accept-set in list order, zeroing each fee
    /// balance, dropping the token from the accept-set and the reverse index, and handing
    /// each non-zero balance to `transfer(token, validator, amount)`. When the transfer
    /// fails the balance moves into escrow instead. Returns one outcome per non-zero balance,
    /// in list order.
    ///
    /// `transfer(token, to, amount)` moves `amount` of `token` from the fee manager to `to`.
    /// An escrow sum beyond 256 bits reverts with an under/overflow panic; the transaction,
    /// transfers included, is then rolled back.
    pub fn offboard_validator<F: Fn(Address, Address, U256) -> Result<(), MagnusPrecompileError>>(
        &mut self,
        sender: Address,
        validator: Address,
        now_ts: u64,
        transfer: F,
    ) -> (r: Result<Vec<FeeDelivery>, MagnusPrecompileError>)
        requires
            old(self).wf(),
            forall|t: Address, to: Address, a: U256| transfer.requires((t, to, a)),
        ensures
            final(self).wf(),
            offboard_validator_post(old(self)@, final(self)@, r, sender, validator, now_ts, transfer),
    {
        self.assert_governance(&sender)?;
        let existing = self.escrow_claim(validator);
        if existing.offboarded {
            return fm_error(FeeManagerError::ValidatorAlreadyOffboarded { validator });
        }
        let claim_window = self.escrow_claim_window();
        let record = ClaimRecord::new(now_ts, claim_window);
        let ghost before = self@;
        self.escrow_claims.set(validator, record);
        proof {
            lemma_sync_frame(before, self@);
        }
        let ghost start = self@;
        let tokens = self.read_token_list(&validator);
        let ghost n = tokens@.len() as int;
        let mut deliveries: Vec<FeeDelivery> = Vec::new();
        let mut i: usize = 0;
        proof {
            assert(start.token_list(validator).no_duplicates());
            assert(tokens@.take(0) =~= Seq::<Address>::empty());
            assert(tokens@.subrange(0, n) =~= tokens@);
            assert forall|t: Address| #[trigger] undelivered(deliveries@, t) == 0 by {}
            assert(start.events + offboard_events(validator, deliveries@) =~= start.events);
        }
        while i < tokens.len()
            invariant
                self.wf(),
                tokens@ == start.token_list(validator),
                start.token_list(validator).no_duplicates(),
                start == before.with_claim(validator, record),
                n == tokens@.len(),
                i <= n,
                offboard_progress(start, self@, validator, tokens@, i as int, deliveries@),
                self@.events == start.events + offboard_events(validator, deliveries@),
                forall|j: int|
                    0 <= j < deliveries@.len() ==> transfer_reported(
                        transfer,
                        validator,
                        #[trigger] deliveries@[j],
                    ),
                before == old(self)@,
                sender == before.governance_admin,
                !before.claim(validator).offboarded,
                forall|t: Address, to: Address, a: U256| transfer.requires((t, to, a)),
            decreases n - i,
        {
            let token = tokens[i];
            let ghost cur = self@;
            let amount = self.collected_fees(validator, token);
            let rest = tail_of(&tokens, i + 1);
            proof {
                assert(cur.token_list(validator) == tokens@.subrange(i as int, n));
                assert(cur.token_list(validator).drop_first() =~= tokens@.subrange(i + 1, n));
            }
            self.offboard_step(validator, token, rest);
            if !amount.is_zero() {
                let sent = transfer(token, validator, amount);
                let delivered = sent.is_ok();
                if !delivered {
                    let prior = self.escrowed_fees_amount(validator, token);
                    match prior.checked_add(&amount) {
                        Some(next) => {
                            proof {
                                lemma_u256_of(next);
                                assert(u256_of(cur.escrowed(validator, token) + amount@)@ == cur.escrowed(validator, token) + amount@);
                            }
                            self.write_escrowed(validator, token, next);
                        },
                        None => {
                            proof {
                                let done = tokens@.take(i as int);
                                assert(!done.contains(token)) by {
                                    if done.contains(token) {
                                        let k = choose|k: int| 0 <= k < done.len() && done[k] == token;
                                        assert(tokens@[k] == token);
                                    }
                                }
                                assert forall|j: int| 0 <= j < deliveries@.len() implies (#[trigger] deliveries@[j]).token != token by {
                                    assert(done.contains(deliveries@[j].token));
                                }
                                lemma_undelivered_absent(deliveries@, token);
                                assert(cur.escrowed(validator, token) == before.escrowed(validator, token));
                                assert(cur.collected(validator, token) == before.collected(validator, token));
                                assert(before.token_list(validator).contains(token)) by {
                                    assert(tokens@[i as int] == token);
                                }
                                let e = sent->Err_0;
                                assert(call_ensures(transfer, (token, validator, amount), Err::<(), MagnusPrecompileError>(e)));
                            }
                            return Err(MagnusPrecompileError::under_overflow());
                        },
                    }
                }
                let ghost ds = deliveries@;
                let outcome = FeeDelivery { token, amount, delivered };
                deliveries.push(outcome);
                proof {
                    assert(transfer_reported(transfer, validator, outcome));
                    assert forall|j: int| 0 <= j < deliveries@.len() implies transfer_reported(
                        transfer,
                        validator,
                        #[trigger] deliveries@[j],
                    ) by {
                        if j < ds.len() {
                            assert(deliveries@[j] == ds[j]);
                        }
                    }
                    lemma_offboard_progress_step(start, cur, self@, validator, tokens@, i as int, ds, deliveries@, amount, delivered);
                    lemma_offboard_progress_emitted(
                        start,
                        self@,
                        validator,
                        tokens@,
                        i + 1,
                        deliveries@,
                        delivery_event(validator, outcome),
                    );
                    assert(offboard_events(validator, deliveries@) =~= offboard_events(validator, ds).push(
                        delivery_event(validator, outcome),
                    ));
                }
                if delivered {
                    self.emit(FeeManagerEvent::FeesOffboardDelivered { validator, token, amount });
                } else {
                    self.emit(FeeManagerEvent::FeesOffboardEscrowed { validator, token, amount });
                }
            } else {
                proof {
                    lemma_offboard_progress_step(start, cur, self@, validator, tokens@, i as int, deliveries@, deliveries@, amount, true);
                }
            }
            i = i + 1;
        }
        proof {
            lemma_offboard_progress_emitted(
                start,
                self@,
                validator,
                tokens@,
                n,
                deliveries@,
                FeeEvent::ValidatorOffboarded { validator, claim_deadline: record.claim_deadline },
            );
        }
        self.emit(FeeManagerEvent::ValidatorOffboarded { validator, claim_deadline: record.claim_deadline });
        Ok(deliveries)
    }
}

/// A decoded read-only call of the fee manager's ABI.
#[derive(Clone, Debug)]
pub enum FeeManagerQuery {
    CollectedFees { validator: Address, token: Address },
    GovernanceAdmin,
    GetCurrencyConfig { code: String },
    IsCurrencyEnabled { code: String },
    DeprecationGracePeriod,
    EmergencyDisableThreshold,
    AcceptsToken { validator: Address, token: Address },
    GetAcceptedTokens { validator: Address },
    IsAcceptedByAnyValidator { token: Address },
    EscrowedFees { validator: Address, token: Address },
    EscrowClaim { validator: Address },
    EscrowClaimWindow,
    FoundationEscrowAddress,
}

/// The answer to a read-only call.
#[derive(Clone, Debug)]
pub enum FeeManagerAnswer {
    Amount(U256),
    Account(Address),
    Config(CurrencyConfig),
    Flag(bool),
    Seconds(u64),
    Threshold(u8),
    Tokens(Vec<Address>),
    Claim(ClaimRecord),
}

/// The answer the fee manager in state `v` owes to query `q`.
pub open spec fn spec_answer(v: FeeManagerView, q: FeeManagerQuery, a: FeeManagerAnswer) -> bool {
    match q {
        FeeManagerQuery::CollectedFees { validator, token } => a matches FeeManagerAnswer::Amount(x)
            && x@ == v.collected(validator, token),
        FeeManagerQuery::GovernanceAdmin => a == FeeManagerAnswer::Account(v.governance_admin),
        FeeManagerQuery::GetCurrencyConfig { code } => a == FeeManagerAnswer::Config(
            v.currency(currency_key_of_chars(code@)),
        ),
        FeeManagerQuery::IsCurrencyEnabled { code } => a == FeeManagerAnswer::Flag(
            v.currency(currency_key_of_chars(code@)).enabled,
        ),
        FeeManagerQuery::DeprecationGracePeriod => a == FeeManagerAnswer::Seconds(v.grace_period()),
        FeeManagerQuery::EmergencyDisableThreshold => a == FeeManagerAnswer::Threshold(
            v.emergency_threshold(),
        ),
        FeeManagerQuery::AcceptsToken { validator, token } => a == FeeManagerAnswer::Flag(
            v.accepts(validator, token),
        ),
        FeeManagerQuery::GetAcceptedTokens { validator } => a matches FeeManagerAnswer::Tokens(l)
            && l@ == v.token_list(validator),
        FeeManagerQuery::IsAcceptedByAnyValidator { token } => a == FeeManagerAnswer::Flag(
            v.validators_of(token).len() > 0,
        ),
        FeeManagerQuery::EscrowedFees { validator, token } => a matches FeeManagerAnswer::Amount(x)
            && x@ == v.escrowed(validator, token),
        FeeManagerQuery::EscrowClaim { validator } => a == FeeManagerAnswer::Claim(v.claim(validator)),
        FeeManagerQuery::EscrowClaimWindow => a == FeeManagerAnswer::Seconds(v.claim_window()),
        FeeManagerQuery::FoundationEscrowAddress => a == FeeManagerAnswer::Account(
            v.foundation_escrow_address,
        ),
    }
}

impl MipFeeManager {
    /// Routes a read-only call of the fee manager's ABI to its getter.
    pub fn view_call(&self, query: &FeeManagerQuery) -> (r: FeeManagerAnswer)
        requires
            self.wf(),
        ensures
            spec_answer(self@, *query, r),
    {
        match query {
            FeeManagerQuery::CollectedFees { validator, token } => FeeManagerAnswer::Amount(
                self.collected_fees(*validator, *token),
            ),
            FeeManagerQuery::GovernanceAdmin => FeeManagerAnswer::Account(self.governance_admin()),
            FeeManagerQuery::GetCurrencyConfig { code } => FeeManagerAnswer::Config(
                self.get_currency_config(code.as_str()),
            ),
            FeeManagerQuery::IsCurrencyEnabled { code } => FeeManagerAnswer::Flag(
                self.is_currency_enabled(code.as_str()),
            ),
            FeeManagerQuery::DeprecationGracePeriod => FeeManagerAnswer::Seconds(
                self.deprecation_grace_period(),
            ),
            FeeManagerQuery::EmergencyDisableThreshold => FeeManagerAnswer::Threshold(
                self.emergency_disable_threshold(),
            ),
            FeeManagerQuery::AcceptsToken { validator, token } => FeeManagerAnswer::Flag(
                self.accepts_token(*validator, *token),
            ),
            FeeManagerQuery::GetAcceptedTokens { validator } => FeeManagerAnswer::Tokens(
                self.get_accepted_tokens(*validator),
            ),
            FeeManagerQuery::IsAcceptedByAnyValidator { token } => FeeManagerAnswer::Flag(
                self.is_accepted_by_any_validator(*token),
            ),
            FeeManagerQuery::EscrowedFees { validator, token } => FeeManagerAnswer::Amount(
                self.escrowed_fees_amount(*validator, *token),
            ),
            FeeManagerQuery::EscrowClaim { validator } => FeeManagerAnswer::Claim(
                self.escrow_claim(*validator),
            ),
            FeeManagerQuery::EscrowClaimWindow => FeeManagerAnswer::Seconds(self.escrow_claim_window()),
            FeeManagerQuery::FoundationEscrowAddress => FeeManagerAnswer::Account(
                self.foundation_escrow_address(),
            ),
        }
    }
}

/// The block context of a call and what the MIP-20 precompiles say of the token it names.
#[derive(Clone, Debug)]
pub struct CallContext {
    pub block_number: u64,
    pub timestamp: u64,
    pub beneficiary: Address,
    /// Whether the token the call names is a deployed MIP-20.
    pub token_is_tip20: bool,
    /// The currency code of the token the call names.
    pub token_currency: String,
}

/// A decoded state-changing call of the fee manager's ABI.
#[derive(Clone, Debug)]
pub enum FeeManagerCall {
    DistributeFees { validator: Address, token: Address },
    AddCurrency { code: String },
    EnableCurrency { code: String },
    DisableCurrency { code: String },
    EmergencyDisableCurrency { code: String },
    PruneCurrency { code: String, max_iterations: U256 },
    PruneToken { token: Address, max_iterations: U256 },
    SetDeprecationGracePeriod { new_grace_period: u64 },
    SetEmergencyDisableThreshold { new_threshold: u8 },
    SetGovernanceAdmin { new_admin: Address },
    AddAcceptedToken { token: Address },
    RemoveAcceptedToken { token: Address },
    OffboardValidator { validator: Address },
    ClaimEscrowedFees { validator: Address, token: Address, recipient: Address },
    SweepExpiredEscrow { validator: Address, token: Address },
    SetEscrowClaimWindow { new_window: u64 },
    SetFoundationEscrowAddress { new_address: Address },
}

/// What a state-changing call returns.
#[derive(Clone, Debug)]
pub enum FeeManagerReturn {
    /// The call returns nothing.
    Done,
    /// An amount of a token.
    Amount(U256),
    /// A number of entries.
    Count(u64),
}

/// The outcome of a call that returns nothing, as the routed method's result.
pub open spec fn as_unit(r: Result<FeeManagerReturn, MagnusPrecompileError>) -> Result<(), MagnusPrecompileError> {
    match r {
        Ok(_) => Ok(()),
        Err(e) => Err(e),
    }
}

/// The outcome of a call that returns an amount, as the routed method's result.
pub open spec fn as_amount(r: Result<FeeManagerReturn, MagnusPrecompileError>) -> Result<U256, MagnusPrecompileError> {
    match r {
        Ok(FeeManagerReturn::Amount(a)) => Ok(a),
        Ok(_) => Ok(U256 { lo: 0, hi: 0 }),
        Err(e) => Err(e),
    }
}

/// The outcome of a call that returns a count, as the routed method's result.
pub open spec fn as_count(r: Result<FeeManagerReturn, MagnusPrecompileError>) -> Result<u64, MagnusPrecompileError> {
    match r {
        Ok(FeeManagerReturn::Count(n)) => Ok(n),
        Ok(_) => Ok(0),
        Err(e) => Err(e),
    }
}

/// `r` succeeds only with a value of the kind `kind` says.
pub open spec fn returns_kind(r: Result<FeeManagerReturn, MagnusPrecompileError>, kind: int) -> bool {
    r matches Ok(v) ==> (kind == 0 && v is Done) || (kind == 1 && v is Amount) || (kind == 2
        && v is Count)
}

/// An ABI iteration budget saturated to 64 bits.
pub open spec fn saturated_u64(x: U256) -> u64 {
    if x@ > u64::MAX {
        u64::MAX
    } else {
        x@ as u64
    }
}

/// Saturates a 256-bit iteration budget to 64 bits.
fn saturate_u64(x: U256) -> (r: u64)
    ensures
        r == saturated_u64(x),
{
    if x.hi != 0 {
        assert(x@ > u64::MAX) by (nonlinear_arith)
            requires
                x.hi >= 1,
                x@ == (x.hi as nat) * half_word() + (x.lo as nat),
                half_word() == 0x1_0000_0000_0000_0000_0000_0000_0000_0000nat,
        ;
        u64::MAX
    } else if x.lo > u64::MAX as u128 {
        u64::MAX
    } else {
        x.lo as u64
    }
}

/// How a call of the fee manager routes: each call meets the contract of the method it
/// routes to, with the block context and the token facts of `ctx`, and `sender` as caller
/// where the method checks one.
pub open spec fn call_post<F: Fn(Address, Address, U256) -> Result<(), MagnusPrecompileError>>(
    before: FeeManagerView,
    after: FeeManagerView,
    r: Result<FeeManagerReturn, MagnusPrecompileError>,
    call: FeeManagerCall,
    sender: Address,
    ctx: CallContext,
    transfer: F,
) -> bool {
    match call {
        FeeManagerCall::DistributeFees { validator, token } => returns_kind(r, 0) && match r {
            Ok(_) => exists|a: U256|
                #[trigger] distribute_fees_post(
                    before,
                    after,
                    Ok(a),
                    validator,
                    token,
                    ctx.token_is_tip20,
                    transfer,
                ),
            Err(e) => distribute_fees_post(
                before,
                after,
                Err(e),
                validator,
                token,
                ctx.token_is_tip20,
                transfer,
            ),
        },
        FeeManagerCall::AddCurrency { code } => returns_kind(r, 0) && add_currency_post(
            before,
            after,
            as_unit(r),
            sender,
            code@,
            ctx.block_number,
        ),
        FeeManagerCall::EnableCurrency { code } => returns_kind(r, 0) && enable_currency_post(
            before,
            after,
            as_unit(r),
            sender,
            code@,
            ctx.block_number,
        ),
        FeeManagerCall::DisableCurrency { code } => returns_kind(r, 0) && disable_currency_post(
            before,
            after,
            as_unit(r),
            sender,
            code@,
            ctx.timestamp,
        ),
        FeeManagerCall::EmergencyDisableCurrency { code } => returns_kind(r, 0)
            && emergency_disable_currency_post(before, after, as_unit(r), sender, code@),
        FeeManagerCall::PruneCurrency { code, max_iterations } => returns_kind(r, 0)
            && prune_currency_post(before, after, as_unit(r), code@, ctx.block_number, ctx.timestamp),
        FeeManagerCall::PruneToken { token, max_iterations } => returns_kind(r, 2)
            && prune_token_post(
            before,
            after,
            as_count(r),
            token,
            saturated_u64(max_iterations),
            ctx.block_number,
            ctx.token_is_tip20,
            ctx.token_currency@,
            ctx.timestamp,
        ),
        FeeManagerCall::SetDeprecationGracePeriod { new_grace_period } => returns_kind(r, 0)
            && set_deprecation_grace_period_post(before, after, as_unit(r), sender, new_grace_period),
        FeeManagerCall::SetEmergencyDisableThreshold { new_threshold } => returns_kind(r, 0)
            && set_emergency_disable_threshold_post(before, after, as_unit(r), sender, new_threshold),
        FeeManagerCall::SetGovernanceAdmin { new_admin } => returns_kind(r, 0)
            && set_governance_admin_post(before, after, as_unit(r), sender, new_admin),
        FeeManagerCall::AddAcceptedToken { token } => returns_kind(r, 0) && add_accepted_token_post(
            before,
            after,
            as_unit(r),
            sender,
            token,
            ctx.beneficiary,
            ctx.token_is_tip20,
            ctx.token_currency@,
            ctx.timestamp,
        ),
        FeeManagerCall::RemoveAcceptedToken { token } => returns_kind(r, 0)
            && remove_accepted_token_post(before, after, as_unit(r), sender, token, ctx.beneficiary),
        FeeManagerCall::OffboardValidator { validator } => returns_kind(r, 0) && match r {
            Ok(_) => exists|ds: Vec<FeeDelivery>|
                #[trigger] offboard_validator_post(
                    before,
                    after,
                    Ok(ds),
                    sender,
                    validator,
                    ctx.timestamp,
                    transfer,
                ),
            Err(e) => offboard_validator_post(
                before,
                after,
                Err(e),
                sender,
                validator,
                ctx.timestamp,
                transfer,
            ),
        },
        FeeManagerCall::ClaimEscrowedFees { validator, token, recipient } => returns_kind(r, 1)
            && claim_escrowed_fees_post(
            before,
            after,
            as_amount(r),
            sender,
            validator,
            token,
            recipient,
            ctx.timestamp,
            transfer,
        ),
        FeeManagerCall::SweepExpiredEscrow { validator, token } => returns_kind(r, 1)
            && sweep_expired_escrow_post(before, after, as_amount(r), sender, validator, token, ctx.timestamp, transfer),
        FeeManagerCall::SetEscrowClaimWindow { new_window } => returns_kind(r, 0)
            && set_escrow_claim_window_post(before, after, as_unit(r), sender, new_window),
        FeeManagerCall::SetFoundationEscrowAddress { new_address } => returns_kind(r, 0)
            && set_foundation_escrow_address_post(before, after, as_unit(r), sender, new_address),
    }
}

impl MipFeeManager {
    /// Routes a decoded state-changing call: each call goes to the method of the same name,
    /// with the block number, timestamp and beneficiary of `ctx`, the facts `ctx` gives of
    /// the token the call names, iteration budgets saturated to 64 bits, and `transfer`
    /// for moving tokens out of the fee manager.
    pub fn call<F: Fn(Address, Address, U256) -> Result<(), MagnusPrecompileError>>(
        &mut self,
        call: &FeeManagerCall,
        sender: Address,
        ctx: &CallContext,
        transfer: F,
    ) -> (r: Result<FeeManagerReturn, MagnusPrecompileError>)
        requires
            old(self).wf(),
            forall|t: Address, to: Address, a: U256| transfer.requires((t, to, a)),
        ensures
            final(self).wf(),
            call_post(old(self)@, final(self)@, r, *call, sender, *ctx, transfer),
    {
        match call {
            FeeManagerCall::DistributeFees { validator, token } => {
                match self.distribute_fees(*validator, *token, ctx.token_is_tip20, transfer) {
                    Ok(_) => Ok(FeeManagerReturn::Done),
                    Err(e) => Err(e),
                }
            },
            FeeManagerCall::AddCurrency { code } => match self.add_currency(
                sender,
                code.as_str(),
                ctx.block_number,
            ) {
                Ok(()) => Ok(FeeManagerReturn::Done),
                Err(e) => Err(e),
            },
            FeeManagerCall::EnableCurrency { code } => match self.enable_currency(
                sender,
                code.as_str(),
                ctx.block_number,
            ) {
                Ok(()) => Ok(FeeManagerReturn::Done),
                Err(e) => Err(e),
            },
            FeeManagerCall::DisableCurrency { code } => match self.disable_currency(
                sender,
                code.as_str(),
                ctx.timestamp,
            ) {
                Ok(()) => Ok(FeeManagerReturn::Done),
                Err(e) => Err(e),
            },
            FeeManagerCall::EmergencyDisableCurrency { code } => match self.emergency_disable_currency(
                sender,
                code.as_str(),
            ) {
                Ok(()) => Ok(FeeManagerReturn::Done),
                Err(e) => Err(e),
            },
            FeeManagerCall::PruneCurrency { code, max_iterations } => match self.prune_currency(
                code.as_str(),
                saturate_u64(*max_iterations),
                ctx.block_number,
                ctx.timestamp,
            ) {
                Ok(()) => Ok(FeeManagerReturn::Done),
                Err(e) => Err(e),
            },
            FeeManagerCall::PruneToken { token, max_iterations } => match self.prune_token(
                *token,
                saturate_u64(*max_iterations),
                ctx.block_number,
                ctx.token_is_tip20,
                ctx.token_currency.as_str(),
                ctx.timestamp,
            ) {
                Ok(n) => Ok(FeeManagerReturn::Count(n)),
                Err(e) => Err(e),
            },
            FeeManagerCall::SetDeprecationGracePeriod { new_grace_period } => match self.set_deprecation_grace_period(
                sender,
                *new_grace_period,
            ) {
                Ok(()) => Ok(FeeManagerReturn::Done),
                Err(e) => Err(e),
            },
            FeeManagerCall::SetEmergencyDisableThreshold { new_threshold } => match self.set_emergency_disable_threshold(
                sender,
                *new_threshold,
            ) {
                Ok(()) => Ok(FeeManagerReturn::Done),
                Err(e) => Err(e),
            },
            FeeManagerCall::SetGovernanceAdmin { new_admin } => match self.set_governance_admin(
                sender,
                *new_admin,
            ) {
                Ok(()) => Ok(FeeManagerReturn::Done),
                Err(e) => Err(e),
            },
            FeeManagerCall::AddAcceptedToken { token } => match self.add_accepted_token(
                sender,
                *token,
                ctx.beneficiary,
                ctx.token_is_tip20,
                ctx.token_currency.as_str(),
                ctx.timestamp,
            ) {
                Ok(()) => Ok(FeeManagerReturn::Done),
                Err(e) => Err(e),
            },
            FeeManagerCall::RemoveAcceptedToken { token } => match self.remove_accepted_token(
                sender,
                *token,
                ctx.beneficiary,
            ) {
                Ok(()) => Ok(FeeManagerReturn::Done),
                Err(e) => Err(e),
            },
            FeeManagerCall::OffboardValidator { validator } => match self.offboard_validator(
                sender,
                *validator,
                ctx.timestamp,
                transfer,
            ) {
                Ok(_) => Ok(FeeManagerReturn::Done),
                Err(e) => Err(e),
            },
            FeeManagerCall::ClaimEscrowedFees { validator, token, recipient } => match self.claim_escrowed_fees(
                sender,
                *validator,
                *token,
                *recipient,
                ctx.timestamp,
                transfer,
            ) {
                Ok(a) => Ok(FeeManagerReturn::Amount(a)),
                Err(e) => Err(e),
            },
            FeeManagerCall::SweepExpiredEscrow { validator, token } => match self.sweep_expired_escrow(
                sender,
                *validator,
                *token,
                ctx.timestamp,
                transfer,
            ) {
                Ok(a) => Ok(FeeManagerReturn::Amount(a)),
                Err(e) => Err(e),
            },
            FeeManagerCall::SetEscrowClaimWindow { new_window } => match self.set_escrow_claim_window(
                sender,
                *new_window,
            ) {
                Ok(()) => Ok(FeeManagerReturn::Done),
                Err(e) => Err(e),
            },
            FeeManagerCall::SetFoundationEscrowAddress { new_address } => match self.set_foundation_escrow_address(
                sender,
                *new_address,
            ) {
                Ok(()) => Ok(FeeManagerReturn::Done),
                Err(e) => Err(e),
            },
        }
    }
}

} // verus!
