use magnus::currency::{is_valid_currency_code, CurrencyConfig};
use magnus::escrow::ClaimRecord;
use magnus::gas::{calc_gas_balance_spending, MAGNUS_GAS_PRICE_SCALING_FACTOR};
use magnus::primitives::U256;
use magnus::fee_inference::{is_mip20_fee_inference_call, is_tip20_fee_inference_call};
use magnus::hardfork::{magnus_hardfork_at, ForkCondition, MagnusGenesisInfo, MagnusHardfork};
use magnus::hashing::{currency_key, function_selector};
use magnus::precompile::{input_cost, INPUT_PER_WORD_COST};
use magnus::router::{selector_key, RouterDescriptor};

#[test]
fn test_genesis_hardfork_name() {
    let fork = MagnusHardfork::Genesis;
    assert_eq!(fork.name(), "Genesis");
}

#[test]
fn test_t0_hardfork_name() {
    let fork = MagnusHardfork::T0;
    assert_eq!(fork.name(), "T0");
}

#[test]
fn test_is_t0() {
    assert!(!MagnusHardfork::Genesis.is_t0());
    assert!(MagnusHardfork::T0.is_t0());
}

#[test]
fn test_hardfork_trait_implementation() {
    let fork = MagnusHardfork::Genesis;
    let _name: &str = fork.name();
}

#[test]
fn hardfork_default_is_t0_and_ordering_follows_activation() {
    assert_eq!(MagnusHardfork::default(), MagnusHardfork::T0);
    assert!(MagnusHardfork::Genesis.activates_no_later_than(&MagnusHardfork::T0));
    assert!(!MagnusHardfork::T0.activates_no_later_than(&MagnusHardfork::Genesis));
}

#[test]
fn hardfork_at_timestamp_follows_t0_activation() {
    let t0 = ForkCondition::Timestamp(1_000);
    assert_eq!(magnus_hardfork_at(&t0, 999), MagnusHardfork::Genesis);
    assert_eq!(magnus_hardfork_at(&t0, 1_000), MagnusHardfork::T0);
    assert_eq!(magnus_hardfork_at(&ForkCondition::Never, u64::MAX), MagnusHardfork::Genesis);
}

#[test]
fn genesis_info_getters_return_fields() {
    let info = MagnusGenesisInfo { epoch_length: Some(100), t0_time: Some(7) };
    assert_eq!(info.epoch_length(), Some(100));
    assert_eq!(info.t0_time(), Some(7));
    let empty = MagnusGenesisInfo::default();
    assert_eq!(empty.epoch_length(), None);
    assert_eq!(empty.t0_time(), None);
}

#[test]
fn test_input_cost_returns_non_zero_for_input() {
    // Empty input should cost 0
    assert_eq!(input_cost(0), 0);
    // 1 byte should cost INPUT_PER_WORD_COST (rounds up to 1 word)
    assert_eq!(input_cost(1), INPUT_PER_WORD_COST);
    // 32 bytes (1 word) should cost INPUT_PER_WORD_COST
    assert_eq!(input_cost(32), INPUT_PER_WORD_COST);
    // 33 bytes (2 words) should cost 2 * INPUT_PER_WORD_COST
    assert_eq!(input_cost(33), INPUT_PER_WORD_COST * 2);
}

#[test]
fn input_cost_of_large_calldata() {
    assert_eq!(input_cost(64), 12);
    assert_eq!(input_cost(65), 18);
    assert_eq!(input_cost(1024), 192);
}

#[test]
fn iso_4217_three_letter_uppercase_codes_are_valid() {
    assert!(is_valid_currency_code("USD"));
    assert!(is_valid_currency_code("VND"));
    assert!(is_valid_currency_code("EUR"));
    assert!(is_valid_currency_code("GBP"));
}

#[test]
fn lowercase_or_wrong_length_codes_are_invalid() {
    assert!(!is_valid_currency_code("usd"));
    assert!(!is_valid_currency_code("US"));
    assert!(!is_valid_currency_code("USDT"));
    assert!(!is_valid_currency_code(""));
    assert!(!is_valid_currency_code("US1"));
}

#[test]
fn non_ascii_codes_are_invalid() {
    assert!(!is_valid_currency_code("ÜSD"));
    assert!(!is_valid_currency_code("US€"));
}

#[test]
fn currency_key_is_deterministic_keccak256() {
    let usd_key = currency_key("USD");
    let usd_key_again = currency_key("USD");
    let vnd_key = currency_key("VND");

    assert_eq!(usd_key, usd_key_again);
    assert_ne!(usd_key, vnd_key);
    // Verify it's literally keccak256("USD")
    assert_eq!(usd_key.bytes, alloy_primitives::keccak256(b"USD").0);
}

#[test]
fn currency_config_default_is_unregistered_and_disabled() {
    let config = CurrencyConfig::default();
    assert!(!config.registered);
    assert!(!config.enabled);
    assert_eq!(config.added_at_block, 0);
    assert_eq!(config.enabled_at_block, 0);
}

#[test]
fn newly_added_constructor_marks_registered_at_genesis_block() {
    let config = CurrencyConfig::newly_added(0);
    assert!(config.registered);
    assert!(!config.enabled);
    assert_eq!(config.added_at_block, 0);
    assert_eq!(config.enabled_at_block, 0);
}

#[test]
fn newly_added_with_nonzero_block() {
    let config = CurrencyConfig::newly_added(42);
    assert!(config.registered);
    assert!(!config.enabled);
    assert_eq!(config.added_at_block, 42);
    assert_eq!(config.enabled_at_block, 0);
}

#[test]
fn grace_period_bounds_effective_enablement() {
    let config = CurrencyConfig {
        registered: true,
        enabled: true,
        added_at_block: 0,
        enabled_at_block: 0,
        deprecating: true,
        deprecation_activates_at: 500,
        last_pruned_at_block: 0,
    };
    assert!(config.in_grace_period(499));
    assert!(config.effectively_enabled(499));
    assert!(!config.in_grace_period(500));
    assert!(!config.effectively_enabled(500));
    let stable = CurrencyConfig { deprecating: false, ..config };
    assert!(!stable.in_grace_period(0));
    assert!(stable.effectively_enabled(u64::MAX));
}

#[test]
fn new_marks_offboarded_and_computes_deadline() {
    let r = ClaimRecord::new(1_000, 365 * 24 * 60 * 60);
    assert!(r.offboarded);
    assert_eq!(r.offboarded_at, 1_000);
    assert_eq!(r.claim_deadline, 1_000 + 365 * 24 * 60 * 60);
}

#[test]
fn window_predicates_split_at_deadline_inclusively() {
    let r = ClaimRecord::new(0, 100);
    assert!(r.within_claim_window(0));
    assert!(r.within_claim_window(100));
    assert!(!r.within_claim_window(101));
    assert!(r.after_claim_window(101));
    assert!(!r.after_claim_window(100));
}

#[test]
fn default_record_is_not_offboarded() {
    let r = ClaimRecord::default();
    assert!(!r.offboarded);
    assert!(!r.within_claim_window(0));
    assert!(!r.after_claim_window(u64::MAX));
}

#[test]
fn claim_deadline_saturates() {
    let r = ClaimRecord::new(u64::MAX - 5, 100);
    assert_eq!(r.claim_deadline, u64::MAX);
    assert!(r.within_claim_window(u64::MAX));
    assert!(!r.after_claim_window(u64::MAX));
}

#[test]
fn claim_windows_partition_an_offboarded_record() {
    let r = ClaimRecord::new(10, 20);
    for now in [0u64, 10, 29, 30, 31, 1_000] {
        assert!(r.within_claim_window(now) != r.after_claim_window(now));
    }
}

#[test]
fn router_descriptor_default_is_unregistered() {
    let d = RouterDescriptor::default();
    assert!(!d.registered);
    assert_eq!(d.token_input_arg_index, 0);
}

#[test]
fn selector_key_left_aligns_4_bytes_with_zero_padding() {
    let sel = [0xde, 0xad, 0xbe, 0xef];
    let key = selector_key(sel);
    assert_eq!(&key.bytes[..4], &sel[..]);
    assert!(key.bytes[4..].iter().all(|b| *b == 0));
}

#[test]
fn selector_key_distinguishes_different_selectors() {
    let a = [0xaa, 0xaa, 0xaa, 0xaa];
    let b = [0xbb, 0xbb, 0xbb, 0xbb];
    assert_ne!(selector_key(a), selector_key(b));
}

#[test]
fn function_selector_matches_known_selectors() {
    assert_eq!(function_selector("transfer(address,uint256)"), [0xa9, 0x05, 0x9c, 0xbb]);
    assert_eq!(function_selector("approve(address,uint256)"), [0x09, 0x5e, 0xa7, 0xb3]);
    assert_eq!(function_selector("mint(address,uint256)"), [0x40, 0xc1, 0x0f, 0x19]);
    assert_eq!(function_selector("grantRole(bytes32,address)"), [0x2f, 0x2f, 0xf1, 0x5d]);
}

#[test]
fn test_is_tip20_fee_inference_call() {
    let transfer = function_selector("transfer(address,uint256)");
    let transfer_with_memo = function_selector("transferWithMemo(address,uint256,bytes32)");
    let distribute_reward = function_selector("distributeReward(uint256)");
    let grant_role = function_selector("grantRole(bytes32,address)");
    let mint = function_selector("mint(address,uint256)");
    let approve = function_selector("approve(address,uint256)");

    // Allowed selectors
    assert!(is_tip20_fee_inference_call(&transfer));
    assert!(is_tip20_fee_inference_call(&transfer_with_memo));
    assert!(is_tip20_fee_inference_call(&distribute_reward));

    // Disallowed selectors
    assert!(!is_tip20_fee_inference_call(&grant_role));
    assert!(!is_tip20_fee_inference_call(&mint));
    assert!(!is_tip20_fee_inference_call(&approve));

    // Edge cases
    assert!(!is_tip20_fee_inference_call(&[]));
    assert!(!is_tip20_fee_inference_call(&[0x00, 0x01, 0x02]));
}

#[test]
fn fee_inference_reads_only_the_selector() {
    let mut call = function_selector("transfer(address,uint256)").to_vec();
    call.extend_from_slice(&[0u8; 64]);
    assert!(is_tip20_fee_inference_call(&call));
    assert!(is_mip20_fee_inference_call(&call));
    call[0] ^= 1;
    assert!(!is_mip20_fee_inference_call(&call));
}

fn reference_spending(gas_limit: u64, gas_price: u128) -> alloy_primitives::U256 {
    alloy_primitives::U256::from(gas_limit)
        .saturating_mul(alloy_primitives::U256::from(gas_price))
        .div_ceil(alloy_primitives::U256::from(MAGNUS_GAS_PRICE_SCALING_FACTOR))
}

fn as_wide(v: U256) -> alloy_primitives::U256 {
    (alloy_primitives::U256::from(v.hi) << 128) + alloy_primitives::U256::from(v.lo)
}

#[test]
fn gas_balance_spending_rounds_up() {
    assert_eq!(calc_gas_balance_spending(1, 1), U256::from_u64(1));
    assert_eq!(calc_gas_balance_spending(0, u128::MAX), U256::zero());
    assert_eq!(calc_gas_balance_spending(21_000, 1_000_000_000_000), U256::from_u64(21_000));
    assert_eq!(calc_gas_balance_spending(21_000, 1_000_000_000_001), U256::from_u64(21_001));
}

#[test]
fn gas_balance_spending_matches_wide_arithmetic() {
    let limits = [0u64, 1, 21_000, 30_000_000, u64::MAX / 3, u64::MAX];
    let prices = [
        0u128,
        1,
        999_999_999_999,
        1_000_000_000_000,
        20_000_000_000_000_000,
        u64::MAX as u128 + 12_345,
        u128::MAX / 7,
        u128::MAX,
    ];
    for gl in limits {
        for gp in prices {
            assert_eq!(as_wide(calc_gas_balance_spending(gl, gp)), reference_spending(gl, gp), "{gl} * {gp}");
        }
    }
}
