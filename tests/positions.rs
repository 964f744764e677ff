use dsc_system::health::{calculate_health_factor, get_token_amount_from_usd, value_of_holding};
use dsc_system::ops::{burn_dsc, deposit_collateral, liquidate, mint_dsc, redeem_collateral};
use dsc_system::registry::initialize;
use dsc_system::types::{custody_error, AccountKey, Collateral, CustodyAction, DscError, DscState, UserPosition};
use dsc_system::MIN_HEALTH_FACTOR;

const UNIT: u64 = 1_000_000_000;

fn key(n: u128) -> AccountKey {
    AccountKey { hi: 0, lo: n }
}

fn asset_a() -> AccountKey {
    key(1)
}

fn asset_b() -> AccountKey {
    key(2)
}

fn user() -> AccountKey {
    key(7)
}

fn liquidator() -> AccountKey {
    key(8)
}

fn registry() -> DscState {
    initialize(vec![asset_a(), asset_b()], vec![key(101), key(102)], key(500)).unwrap()
}

/// Quote for asset A at `price` dollars per unit; asset B has no quote.
fn quotes(price: u64) -> Vec<Option<u64>> {
    vec![Some(price * UNIT), None]
}

fn snapshot(p: &UserPosition) -> (AccountKey, u64, Vec<Collateral>) {
    (p.user, p.dsc_minted, p.collateral.clone())
}

fn funded_position(st: &DscState) -> UserPosition {
    let mut p = UserPosition::new(AccountKey::zero());
    deposit_collateral(st, &quotes(100), &mut p, user(), asset_a(), 10 * UNIT).unwrap();
    mint_dsc(st, &quotes(100), &mut p, 400 * UNIT).unwrap();
    p
}

#[test]
fn mint_within_limit_then_beyond_limit() {
    let st = registry();
    let q = quotes(100);
    let mut p = UserPosition::new(AccountKey::zero());
    let acts = deposit_collateral(&st, &q, &mut p, user(), asset_a(), 10 * UNIT).unwrap();
    assert_eq!(acts, vec![CustodyAction::TransferToVault { token: asset_a(), from: user(), amount: 10 * UNIT }]);
    assert_eq!(p.user, user());
    let acts = mint_dsc(&st, &q, &mut p, 400 * UNIT).unwrap();
    assert_eq!(acts, vec![CustodyAction::MintDebt { to: user(), amount: 400 * UNIT }]);
    assert_eq!(
        calculate_health_factor(&st, &q, p.dsc_minted, &p.collateral),
        Ok(1_250_000_000_000_000_000)
    );
    let before = snapshot(&p);
    assert_eq!(mint_dsc(&st, &q, &mut p, 200 * UNIT), Err(DscError::BreaksHealthFactor));
    assert_eq!(snapshot(&p), before);
}

#[test]
fn collateral_value_of_ten_units_at_hundred_dollars() {
    assert_eq!(value_of_holding(100 * UNIT, 10 * UNIT), Ok(1000 * UNIT));
    assert_eq!(value_of_holding(u64::MAX, u64::MAX), Err(DscError::ArithmeticOverflow));
}

#[test]
fn zero_debt_gives_largest_health_factor() {
    let st = registry();
    let holdings = vec![Collateral { token: asset_a(), amount: 5 }, Collateral { token: key(99), amount: 1 }];
    assert_eq!(calculate_health_factor(&st, &vec![], 0, &holdings), Ok(u128::MAX));
    assert_eq!(calculate_health_factor(&st, &vec![], 0, &vec![]), Ok(u128::MAX));
}

#[test]
fn health_factor_needs_a_quote() {
    let st = registry();
    let holdings = vec![Collateral { token: asset_b(), amount: 5 }];
    assert_eq!(calculate_health_factor(&st, &quotes(100), 1, &holdings), Err(DscError::PriceUnavailable));
    let stray = vec![Collateral { token: key(99), amount: 5 }];
    assert_eq!(calculate_health_factor(&st, &quotes(100), 1, &stray), Err(DscError::NotAllowedToken));
}

#[test]
fn health_factor_without_debt_collateral_is_zero() {
    let st = registry();
    assert_eq!(calculate_health_factor(&st, &quotes(100), 5, &vec![]), Ok(0));
}

#[test]
fn initialize_rejects_length_mismatch() {
    let r = initialize(vec![asset_a()], vec![], key(500));
    assert!(matches!(r, Err(DscError::TokenAndPriceFeedLengthMismatch)));
    let st = registry();
    assert!(st.is_approved(asset_b()));
    assert!(!st.is_approved(key(99)));
    assert_eq!(st.lookup_feed(asset_b()), Ok(key(102)));
    assert_eq!(st.lookup_feed(key(99)), Err(DscError::NotAllowedToken));
}

#[test]
fn zero_amounts_are_rejected() {
    let st = registry();
    let q = quotes(100);
    let mut p = funded_position(&st);
    let before = snapshot(&p);
    assert_eq!(deposit_collateral(&st, &q, &mut p, user(), asset_a(), 0), Err(DscError::NeedMoreThanZero));
    assert_eq!(mint_dsc(&st, &q, &mut p, 0), Err(DscError::NeedMoreThanZero));
    assert_eq!(redeem_collateral(&st, &q, &mut p, asset_a(), 0), Err(DscError::NeedMoreThanZero));
    assert_eq!(burn_dsc(&mut p, 0), Err(DscError::NeedMoreThanZero));
    assert_eq!(liquidate(&st, &q, &mut p, liquidator(), 0, asset_a()), Err(DscError::NeedMoreThanZero));
    assert_eq!(snapshot(&p), before);
}

#[test]
fn unapproved_asset_is_rejected() {
    let st = registry();
    let q = quotes(100);
    let mut p = funded_position(&st);
    let before = snapshot(&p);
    assert_eq!(deposit_collateral(&st, &q, &mut p, user(), key(99), 5), Err(DscError::NotAllowedToken));
    assert_eq!(redeem_collateral(&st, &q, &mut p, key(99), 5), Err(DscError::NotAllowedToken));
    assert_eq!(snapshot(&p), before);
}

#[test]
fn redeem_more_than_held_fails() {
    let st = registry();
    let q = quotes(100);
    let mut p = funded_position(&st);
    let before = snapshot(&p);
    assert_eq!(
        redeem_collateral(&st, &q, &mut p, asset_a(), 11 * UNIT),
        Err(DscError::InsufficientCollateral)
    );
    assert_eq!(redeem_collateral(&st, &q, &mut p, asset_a(), 3 * UNIT), Err(DscError::BreaksHealthFactor));
    assert_eq!(snapshot(&p), before);
}

#[test]
fn redeem_then_deposit_restores_holdings() {
    let st = registry();
    let q = quotes(100);
    let mut p = funded_position(&st);
    let before = snapshot(&p);
    let acts = redeem_collateral(&st, &q, &mut p, asset_a(), UNIT).unwrap();
    assert_eq!(acts, vec![CustodyAction::TransferFromVault { token: asset_a(), to: user(), amount: UNIT }]);
    assert_eq!(p.collateral, vec![Collateral { token: asset_a(), amount: 9 * UNIT }]);
    deposit_collateral(&st, &q, &mut p, user(), asset_a(), UNIT).unwrap();
    assert_eq!(snapshot(&p), before);
}

#[test]
fn burn_lowers_debt_and_checks_it() {
    let st = registry();
    let q = quotes(100);
    let mut p = funded_position(&st);
    let h0 = calculate_health_factor(&st, &q, p.dsc_minted, &p.collateral).unwrap();
    assert_eq!(burn_dsc(&mut p, 401 * UNIT), Err(DscError::InsufficientDebt));
    let acts = burn_dsc(&mut p, 100 * UNIT).unwrap();
    assert_eq!(acts, vec![CustodyAction::BurnDebt { from: user(), amount: 100 * UNIT }]);
    assert_eq!(p.dsc_minted, 300 * UNIT);
    let h1 = calculate_health_factor(&st, &q, p.dsc_minted, &p.collateral).unwrap();
    assert!(h1 >= h0);
}

#[test]
fn deposit_overflow_and_mint_overflow() {
    let st = registry();
    let q = vec![Some(0), None];
    let mut p = UserPosition::new(user());
    deposit_collateral(&st, &q, &mut p, user(), asset_a(), u64::MAX).unwrap();
    let before = snapshot(&p);
    assert_eq!(deposit_collateral(&st, &q, &mut p, user(), asset_a(), 1), Err(DscError::ArithmeticOverflow));
    p.dsc_minted = u64::MAX;
    assert_eq!(mint_dsc(&st, &q, &mut p, 1), Err(DscError::ArithmeticOverflow));
    p.dsc_minted = before.1;
    assert_eq!(snapshot(&p), before);
}

#[test]
fn liquidation_of_healthy_position_fails() {
    let st = registry();
    let q = quotes(100);
    let mut p = funded_position(&st);
    let before = snapshot(&p);
    assert_eq!(liquidate(&st, &q, &mut p, liquidator(), 100 * UNIT, asset_a()), Err(DscError::HealthFactorOk));
    assert_eq!(snapshot(&p), before);
}

#[test]
fn partial_liquidation_seizes_equivalent_plus_bonus() {
    let st = registry();
    let mut p = funded_position(&st);
    let q = quotes(70);
    assert_eq!(
        calculate_health_factor(&st, &q, p.dsc_minted, &p.collateral),
        Ok(875_000_000_000_000_000)
    );
    assert_eq!(get_token_amount_from_usd(&st, &q, asset_a(), 100 * UNIT), Ok(1_428_571_428));
    let acts = liquidate(&st, &q, &mut p, liquidator(), 100 * UNIT, asset_a()).unwrap();
    assert_eq!(
        acts,
        vec![
            CustodyAction::TransferFromVault { token: asset_a(), to: liquidator(), amount: 1_571_428_570 },
            CustodyAction::BurnDebt { from: liquidator(), amount: 100 * UNIT },
        ]
    );
    assert_eq!(p.dsc_minted, 300 * UNIT);
    assert_eq!(p.collateral, vec![Collateral { token: asset_a(), amount: 8_428_571_430 }]);
    assert_eq!(
        calculate_health_factor(&st, &q, p.dsc_minted, &p.collateral),
        Ok(983_333_333_500_000_000)
    );
}

#[test]
fn full_liquidation_beyond_holding_fails() {
    let st = registry();
    let mut p = funded_position(&st);
    let q = quotes(40);
    let h = calculate_health_factor(&st, &q, p.dsc_minted, &p.collateral).unwrap();
    assert!(h < MIN_HEALTH_FACTOR);
    assert_eq!(get_token_amount_from_usd(&st, &q, asset_a(), 400 * UNIT), Ok(10 * UNIT));
    let before = snapshot(&p);
    assert_eq!(
        liquidate(&st, &q, &mut p, liquidator(), 400 * UNIT, asset_a()),
        Err(DscError::InsufficientCollateral)
    );
    assert_eq!(snapshot(&p), before);
}

#[test]
fn zero_quote_cannot_price_a_seizure() {
    let st = registry();
    assert_eq!(get_token_amount_from_usd(&st, &vec![Some(0)], asset_a(), 5), Err(DscError::PriceUnavailable));
    assert_eq!(get_token_amount_from_usd(&st, &vec![], asset_a(), 5), Err(DscError::PriceUnavailable));
    assert_eq!(get_token_amount_from_usd(&st, &vec![Some(1)], key(99), 5), Err(DscError::NotAllowedToken));
}

#[test]
fn custody_failures_map_to_errors() {
    let t = CustodyAction::TransferToVault { token: asset_a(), from: user(), amount: 1 };
    assert_eq!(custody_error(&t), DscError::TransferFailed);
    let t = CustodyAction::TransferFromVault { token: asset_a(), to: user(), amount: 1 };
    assert_eq!(custody_error(&t), DscError::TransferFailed);
    assert_eq!(custody_error(&CustodyAction::MintDebt { to: user(), amount: 1 }), DscError::MintFailed);
    assert_eq!(custody_error(&CustodyAction::BurnDebt { from: user(), amount: 1 }), DscError::BurnFailed);
}

#[test]
fn deposit_raises_and_mint_lowers_health() {
    let st = registry();
    let q = quotes(100);
    let mut p = funded_position(&st);
    let h0 = calculate_health_factor(&st, &q, p.dsc_minted, &p.collateral).unwrap();
    deposit_collateral(&st, &q, &mut p, user(), asset_a(), 2 * UNIT).unwrap();
    let h1 = calculate_health_factor(&st, &q, p.dsc_minted, &p.collateral).unwrap();
    assert_eq!(h1, 1_500_000_000_000_000_000);
    assert!(h1 >= h0);
    mint_dsc(&st, &q, &mut p, 100 * UNIT).unwrap();
    let h2 = calculate_health_factor(&st, &q, p.dsc_minted, &p.collateral).unwrap();
    assert_eq!(h2, 1_200_000_000_000_000_000);
    assert!(h2 <= h1);
    assert_eq!(p.user, user());
}
