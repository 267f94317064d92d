use toy_amm::amm::{TokenMetadata, ToyAMM};
use toy_amm::error::AmmError;
use toy_amm::ledger::Ledger;
use toy_amm::pricing::get_amount_out;

const E24: u128 = 1_000_000_000_000_000_000_000_000;

fn s(name: &str) -> String {
    name.to_string()
}

/// A pool owned by "owner.near" over "token-a.near" and "token-b.near".
fn pool() -> ToyAMM {
    ToyAMM::new(s("owner.near"), s("token-a.near"), s("token-b.near")).unwrap()
}

/// A pool with reserves (100, 300) added by its owner.
fn liquid_pool() -> ToyAMM {
    let mut c = pool();
    c.deposit_token(&s("owner.near"), &s("token-a.near"), 100).unwrap();
    c.deposit_token(&s("owner.near"), &s("token-b.near"), 300).unwrap();
    c.add_liquidity(&s("owner.near"), &s("token-a.near"), 100, &s("token-b.near"), 300).unwrap();
    c
}

#[test]
fn amount_out_matches_formula_at_scale() {
    // floor(1e24 * 997 * 300e24 / (100e24 * 1000 + 1e24 * 997)); the
    // numerator exceeds 128 bits, so the value is written out.
    assert_eq!(get_amount_out(E24, 100 * E24, 300 * E24), Some(2_961_474_103_191_183_896_551_382));
}

#[test]
fn amount_out_small_values() {
    assert_eq!(get_amount_out(1, 100, 300), Some(2));
    assert_eq!(get_amount_out(1000, 1000, 1000), Some(499));
    assert_eq!(get_amount_out(10, 0, 50), Some(50));
}

#[test]
fn amount_out_zero_input_is_zero() {
    assert_eq!(get_amount_out(0, 100, 300), Some(0));
    assert_eq!(get_amount_out(0, 0, 0), Some(0));
}

#[test]
fn amount_out_numerator_too_wide() {
    assert_eq!(get_amount_out(u128::MAX, 1, u128::MAX), None);
}

#[test]
fn amount_out_largest_fitting_values() {
    // 2^118 * 997 * 2^128 < 2^256
    let a: u128 = 1 << 118;
    let r = get_amount_out(a, u128::MAX, u128::MAX).unwrap();
    assert!(r < u128::MAX);
    assert!(r > 0);
}

#[test]
fn concrete_swap_scenario() {
    let mut c = liquid_pool();
    assert_eq!(c.get_reserves(), (100, 300));
    c.deposit_token(&s("trader.near"), &s("token-a.near"), 1).unwrap();
    let (out, transfer) = c.swap_for_token(&s("trader.near"), &s("token-a.near"), &s("token-b.near"), 1).unwrap();
    assert_eq!(out, 2);
    assert_eq!(c.get_reserves(), (101, 298));
    assert_eq!(transfer.receiver_id, "trader.near");
    assert_eq!(transfer.token_id, "token-b.near");
    assert_eq!(transfer.amount, 2);
    assert_eq!(c.get_user_deposit(&s("token-a.near"), &s("trader.near")), Ok(0));
    assert_eq!(c.get_user_deposit(&s("token-b.near"), &s("trader.near")), Ok(0));
}

#[test]
fn swap_round_trip_reserves() {
    let mut c = liquid_pool();
    c.deposit_token(&s("trader.near"), &s("token-b.near"), 50).unwrap();
    let (r0, r1) = c.get_reserves();
    let (out, _) = c.swap_for_token(&s("trader.near"), &s("token-b.near"), &s("token-a.near"), 50).unwrap();
    let (n0, n1) = c.get_reserves();
    assert_eq!(out, 14);
    assert_eq!(n0 + out, r0);
    assert_eq!(n1 - 50, r1);
}

#[test]
fn swap_zero_amount_is_safe() {
    let mut c = liquid_pool();
    let (out, _) = c.swap_for_token(&s("trader.near"), &s("token-a.near"), &s("token-b.near"), 0).unwrap();
    assert_eq!(out, 0);
    assert_eq!(c.get_reserves(), (100, 300));
}

#[test]
fn swap_with_one_zero_reserve_fails() {
    let mut c = pool();
    c.deposit_token(&s("owner.near"), &s("token-a.near"), 100).unwrap();
    c.add_liquidity(&s("owner.near"), &s("token-a.near"), 100, &s("token-b.near"), 0).unwrap();
    assert_eq!(c.get_reserves(), (100, 0));
    c.deposit_token(&s("trader.near"), &s("token-a.near"), 5).unwrap();
    let r = c.swap_for_token(&s("trader.near"), &s("token-a.near"), &s("token-b.near"), 5);
    assert!(matches!(r, Err(AmmError::InsufficientLiquidity)));
    assert_eq!(c.get_reserves(), (100, 0));
}

#[test]
fn swap_without_deposit_fails() {
    let mut c = liquid_pool();
    let r = c.swap_for_token(&s("trader.near"), &s("token-a.near"), &s("token-b.near"), 1);
    assert!(matches!(r, Err(AmmError::InsufficientBalance)));
    assert_eq!(c.get_reserves(), (100, 300));
}

#[test]
fn swap_unknown_asset_fails() {
    let mut c = liquid_pool();
    let r = c.swap_for_token(&s("trader.near"), &s("other.near"), &s("token-b.near"), 1);
    assert!(matches!(r, Err(AmmError::UnknownAsset)));
}

#[test]
fn non_owner_add_liquidity_is_unauthorized() {
    let mut c = liquid_pool();
    c.deposit_token(&s("mallory.near"), &s("token-a.near"), 10).unwrap();
    c.deposit_token(&s("mallory.near"), &s("token-b.near"), 10).unwrap();
    let r = c.add_liquidity(&s("mallory.near"), &s("token-a.near"), 10, &s("token-b.near"), 10);
    assert_eq!(r, Err(AmmError::Unauthorized));
    assert_eq!(c.get_reserves(), (100, 300));
    assert_eq!(c.get_user_deposit(&s("token-a.near"), &s("mallory.near")), Ok(10));
}

#[test]
fn add_liquidity_second_debit_short_changes_nothing() {
    let mut c = pool();
    c.deposit_token(&s("owner.near"), &s("token-a.near"), 100).unwrap();
    c.deposit_token(&s("owner.near"), &s("token-b.near"), 10).unwrap();
    let r = c.add_liquidity(&s("owner.near"), &s("token-a.near"), 100, &s("token-b.near"), 300);
    assert_eq!(r, Err(AmmError::InsufficientBalance));
    assert_eq!(c.get_reserves(), (0, 0));
    assert_eq!(c.get_user_deposit(&s("token-a.near"), &s("owner.near")), Ok(100));
}

#[test]
fn ledger_debit_beyond_balance_fails() {
    let mut l = Ledger::new();
    let who = s("alice.near");
    l.credit(&who, 10);
    assert_eq!(l.debit(&who, 11), Err(AmmError::InsufficientBalance));
    assert_eq!(l.balance_of(&who), 10);
    assert_eq!(l.debit(&who, 4), Ok(()));
    assert_eq!(l.balance_of(&who), 6);
    assert_eq!(l.debit(&who, 6), Ok(()));
    assert_eq!(l.balance_of(&who), 0);
    assert_eq!(l.debit(&who, 1), Err(AmmError::InsufficientBalance));
    assert_eq!(l.balance_of(&s("bob.near")), 0);
}

#[test]
fn remove_deposit_beyond_balance_fails() {
    let mut c = pool();
    c.deposit_token(&s("alice.near"), &s("token-b.near"), 7).unwrap();
    assert_eq!(c.remove_deposit(&s("alice.near"), &s("token-b.near"), 8), Err(AmmError::InsufficientBalance));
    assert_eq!(c.get_user_deposit(&s("token-b.near"), &s("alice.near")), Ok(7));
    assert_eq!(c.remove_deposit(&s("alice.near"), &s("token-b.near"), 7), Ok(()));
    assert_eq!(c.get_user_deposit(&s("token-b.near"), &s("alice.near")), Ok(0));
}

#[test]
fn reads_are_idempotent() {
    let c = liquid_pool();
    assert_eq!(c.get_reserves(), c.get_reserves());
    let a = c.get_user_deposit(&s("token-a.near"), &s("owner.near"));
    let b = c.get_user_deposit(&s("token-a.near"), &s("owner.near"));
    assert_eq!(a, b);
    assert_eq!(a, Ok(0));
}

#[test]
fn unknown_asset_is_refused() {
    let mut c = pool();
    assert_eq!(c.deposit_token(&s("alice.near"), &s("other.near"), 1), Err(AmmError::UnknownAsset));
    assert_eq!(c.get_user_deposit(&s("other.near"), &s("alice.near")), Err(AmmError::UnknownAsset));
    assert!(matches!(c.withdraw_token(&s("alice.near"), &s("other.near"), 0), Err(AmmError::UnknownAsset)));
    assert_eq!(c.ft_on_transfer(&s("other.near"), &s("alice.near"), 1), Err(AmmError::UnknownAsset));
}

#[test]
fn deposit_overflow_is_refused() {
    let mut c = pool();
    c.deposit_token(&s("alice.near"), &s("token-a.near"), u128::MAX).unwrap();
    assert_eq!(c.deposit_token(&s("alice.near"), &s("token-a.near"), 1), Err(AmmError::Overflow));
    assert_eq!(c.get_user_deposit(&s("token-a.near"), &s("alice.near")), Ok(u128::MAX));
}

#[test]
fn ft_on_transfer_credits_sender() {
    let mut c = pool();
    assert_eq!(c.ft_on_transfer(&s("token-b.near"), &s("alice.near"), 42), Ok(0));
    assert_eq!(c.get_user_deposit(&s("token-b.near"), &s("alice.near")), Ok(42));
}

#[test]
fn withdraw_token_debits_and_pays_out() {
    let mut c = pool();
    c.deposit_token(&s("alice.near"), &s("token-a.near"), 9).unwrap();
    let t = c.withdraw_token(&s("alice.near"), &s("token-a.near"), 4).unwrap();
    assert_eq!((t.receiver_id.as_str(), t.token_id.as_str(), t.amount), ("alice.near", "token-a.near", 4));
    assert_eq!(c.get_user_deposit(&s("token-a.near"), &s("alice.near")), Ok(5));
}

#[test]
fn malformed_owner_is_refused() {
    for bad in ["a", "Bob.near", "a..b", ".ab", "ab-", "a b", "caf\u{e9}"] {
        assert!(matches!(ToyAMM::new(s(bad), s("x1"), s("x2")), Err(AmmError::InvalidOwner)), "{}", bad);
    }
    for good in ["ab", "a-b_c.d", "100", "owner.near"] {
        assert!(ToyAMM::new(s(good), s("x1"), s("x2")).is_ok(), "{}", good);
    }
}

#[test]
fn initialize_twice_is_refused() {
    assert!(matches!(
        ToyAMM::initialize(true, s("owner.near"), s("x1"), s("x2")),
        Err(AmmError::AlreadyInitialized)
    ));
    assert!(matches!(
        ToyAMM::initialize(true, s("Owner"), s("x1"), s("x2")),
        Err(AmmError::InvalidOwner)
    ));
    let c = ToyAMM::initialize(false, s("owner.near"), s("x1"), s("x2")).unwrap();
    assert_eq!(c.get_reserves(), (0, 0));
}

#[test]
fn metadata_defaults_and_updates() {
    let mut c = pool();
    let (m0, m1) = c.get_metadata();
    assert_eq!(m0.spec, "ft-1.0.0");
    assert_eq!(m0.name, "Example NEAR fungible token");
    assert_eq!(m1.symbol, "EXAMPLE");
    assert_eq!(m1.decimals, 24);
    let reported = TokenMetadata {
        spec: s("ft-1.0.0"),
        name: s("Token B"),
        symbol: s("TKB"),
        icon: None,
        reference: None,
        reference_hash: Some(vec![1, 2, 3]),
        decimals: 18,
    };
    assert_eq!(c.metadata(&s("token-b.near"), reported), Ok(()));
    let (m0, m1) = c.get_metadata();
    assert_eq!(m0.decimals, 24);
    assert_eq!(m1.decimals, 18);
    assert_eq!(m1.symbol, "TKB");
    assert_eq!(m1.reference_hash, Some(vec![1, 2, 3]));
}

#[test]
fn ledger_entries_round_trip() {
    let mut l = Ledger::new();
    l.credit(&s("alice.near"), 5);
    l.credit(&s("bob.near"), 7);
    l.credit(&s("alice.near"), 1);
    let e = l.entries();
    assert_eq!(e.len(), 2);
    let back = Ledger::from_entries(&e);
    assert_eq!(back.balance_of(&s("alice.near")), 6);
    assert_eq!(back.balance_of(&s("bob.near")), 7);
    assert_eq!(back.balance_of(&s("carol.near")), 0);
}

#[test]
fn ledger_from_entries_last_pair_wins() {
    let l = Ledger::from_entries(&vec![(s("a1"), 3), (s("b2"), 4), (s("a1"), 9)]);
    assert_eq!(l.balance_of(&s("a1")), 9);
    assert_eq!(l.balance_of(&s("b2")), 4);
    assert_eq!(l.entries().len(), 2);
}
