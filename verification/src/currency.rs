//! Currency registry: the on-chain allowlist of fiat currencies that are gas-eligible.
use vstd::prelude::*;
use vstd::string::*;

verus! {

/// True iff `c` is an ASCII uppercase letter.
pub open spec fn is_upper_ascii(c: char) -> bool {
    'A' <= c && c <= 'Z'
}

/// An ISO 4217 code at the syntactic level: exactly three bytes, all ASCII uppercase letters.
pub open spec fn valid_currency_code(code: Seq<char>, byte_len: nat) -> bool {
    &&& byte_len == 3
    &&& forall|i: int| 0 <= i < code.len() ==> #[trigger] is_upper_ascii(code[i])
}

/// Validates an ISO 4217 three-letter currency code at a basic syntactic level.
pub fn is_valid_currency_code(code: &str) -> (r: bool)
    ensures
        r == valid_currency_code(code@, code.spec_bytes().len()),
{
    let byte_len = code.as_bytes().len();
    if byte_len != 3 {
        return false;
    }
    assert(code.spec_bytes().len() == 3);
    let n = code.unicode_len();
    let mut i: usize = 0;
    while i < n
        invariant
            n == code@.len(),
            i <= n,
            forall|j: int| 0 <= j < i ==> #[trigger] is_upper_ascii(code@[j]),
        decreases n - i,
    {
        let c = code.get_char(i);
        if !(c >= 'A' && c <= 'Z') {
            assert(!is_upper_ascii(code@[i as int]));
            return false;
        }
        i = i + 1;
    }
    true
}

/// On-chain config for a registered currency.
///
/// `registered` is the existence flag: `false` for any never-added currency, since a
/// genesis-added currency legitimately has `added_at_block == 0`.
#[derive(Clone, Copy, Debug, PartialEq, Eq, Structural)]
pub struct CurrencyConfig {
    /// Whether this currency code has been added to the registry.
    pub registered: bool,
    /// Whether the currency is currently gas-eligible.
    pub enabled: bool,
    /// Block height at which `add_currency` was called for this code.
    pub added_at_block: u64,
    /// Block height at which the currency last transitioned to `enabled = true`.
    pub enabled_at_block: u64,
    /// Whether a deprecation grace period is running.
    pub deprecating: bool,
    /// Timestamp (seconds) at which the deprecation takes effect.
    pub deprecation_activates_at: u64,
    /// Block height of the last prune of this currency.
    pub last_pruned_at_block: u64,
}

impl CurrencyConfig {
    /// The all-zero config of a never-added currency.
    pub open spec fn spec_default() -> CurrencyConfig {
        CurrencyConfig {
            registered: false,
            enabled: false,
            added_at_block: 0,
            enabled_at_block: 0,
            deprecating: false,
            deprecation_activates_at: 0,
            last_pruned_at_block: 0,
        }
    }

    /// Config of a currency added at `at_block`, not yet enabled.
    pub open spec fn spec_newly_added(at_block: u64) -> CurrencyConfig {
        CurrencyConfig { registered: true, added_at_block: at_block, ..CurrencyConfig::spec_default() }
    }

    /// Enabled and not past the end of a deprecation grace period at `now_ts`.
    pub open spec fn spec_effectively_enabled(&self, now_ts: u64) -> bool {
        self.enabled && !(self.deprecating && now_ts >= self.deprecation_activates_at)
    }

    /// Enabled and inside a running deprecation grace period at `now_ts`.
    pub open spec fn spec_in_grace_period(&self, now_ts: u64) -> bool {
        self.enabled && self.deprecating && now_ts < self.deprecation_activates_at
    }

    /// Constructs a config for a newly-added (not-yet-enabled) currency.
    pub fn newly_added(at_block: u64) -> (r: CurrencyConfig)
        ensures
            r == CurrencyConfig::spec_newly_added(at_block),
    {
        CurrencyConfig {
            registered: true,
            enabled: false,
            added_at_block: at_block,
            enabled_at_block: 0,
            deprecating: false,
            deprecation_activates_at: 0,
            last_pruned_at_block: 0,
        }
    }

    /// Whether the currency may be used for gas at `now_ts`: enabled, and any deprecation
    /// grace period has not yet run out.
    pub fn effectively_enabled(&self, now_ts: u64) -> (r: bool)
        ensures
            r == self.spec_effectively_enabled(now_ts),
    {
        self.enabled && !(self.deprecating && now_ts >= self.deprecation_activates_at)
    }

    /// Whether the currency is inside its deprecation grace window at `now_ts`.
    pub fn in_grace_period(&self, now_ts: u64) -> (r: bool)
        ensures
            r == self.spec_in_grace_period(now_ts),
    {
        self.enabled && self.deprecating && now_ts < self.deprecation_activates_at
    }
}

/// A deprecation grace period is exactly the time before its deadline during which a
/// deprecating currency stays usable: an enabled, deprecating currency is effectively
/// enabled exactly while it is in its grace period, that is before the deadline.
pub proof fn law_grace_period_bounds_enablement(config: CurrencyConfig, now_ts: u64)
    requires
        config.enabled,
        config.deprecating,
    ensures
        config.spec_effectively_enabled(now_ts) == config.spec_in_grace_period(now_ts),
        config.spec_in_grace_period(now_ts) == (now_ts < config.deprecation_activates_at),
{
}

/// A currency that is not deprecating has no grace period, and is effectively enabled
/// exactly when it is enabled.
pub proof fn law_enablement_without_deprecation(config: CurrencyConfig, now_ts: u64)
    requires
        !config.deprecating,
    ensures
        !config.spec_in_grace_period(now_ts),
        config.spec_effectively_enabled(now_ts) == config.enabled,
{
}

impl Default for CurrencyConfig {
    fn default() -> (r: CurrencyConfig)
        ensures
            r == CurrencyConfig::spec_default(),
    {
        CurrencyConfig {
            registered: false,
            enabled: false,
            added_at_block: 0,
            enabled_at_block: 0,
            deprecating: false,
            deprecation_activates_at: 0,
            last_pruned_at_block: 0,
        }
    }
}

} // verus!
