use marscorp_exchange::errors::UnifiedError;
use marscorp_exchange::launch::{create_business, initialize_config};
use marscorp_exchange::market::{create_market, place_bet, resolve_market};
use marscorp_exchange::state::{Sector, TRADING_SUPPLY, VESTING_SUPPLY};

#[test]
fn config_records_what_it_was_given() {
    let cfg = initialize_config(11, 100, 50, 12);
    assert_eq!(cfg.admin, 11);
    assert_eq!(cfg.platform_fee_bps, 100);
    assert_eq!(cfg.yield_fee_bps, 50);
    assert_eq!(cfg.yield_distributor, 12);
}

#[test]
fn launch_builds_curve_and_vesting_with_the_default_constants() {
    let now = 1_700_000_000;
    let (curve, vesting, ev) =
        create_business(1, 2, "Mars Water Works".to_string(), "MWW".to_string(), Sector::Terraforming, now)
            .unwrap();
    assert_eq!(curve.creator, 1);
    assert_eq!(curve.mint, 2);
    assert_eq!(curve.sector, Sector::Terraforming);
    assert_eq!(curve.virtual_sol, 30_000_000_000);
    assert_eq!(curve.virtual_tokens, 1_073_000_000_000_000);
    assert_eq!(curve.real_sol, 0);
    assert!(!curve.graduated);
    assert!(!curve.takeover_active);
    assert_eq!(curve.sabotage_penalty_bps, 0);
    assert_eq!(curve.sabotage_end_ts, 0);
    assert_eq!(vesting.owner, 1);
    assert_eq!(vesting.mint, 2);
    assert_eq!(vesting.total_amount, 200_000_000_000_000);
    assert_eq!(vesting.released_amount, 0);
    assert_eq!(vesting.start_ts, now);
    assert_eq!(vesting.end_ts, now + 365 * 24 * 60 * 60);
    assert_eq!(ev.name, "Mars Water Works");
    assert_eq!(ev.symbol, "MWW");
    assert_eq!(ev.creator, 1);
    assert_eq!(ev.timestamp, now);
}

#[test]
fn minted_supply_splits_eighty_twenty() {
    assert_eq!(TRADING_SUPPLY, 800_000_000_000_000);
    assert_eq!(VESTING_SUPPLY, 200_000_000_000_000);
    assert_eq!(TRADING_SUPPLY + VESTING_SUPPLY, 1_000_000_000_000_000);
}

#[test]
fn launch_validates_name_and_symbol_lengths() {
    let err = create_business(1, 2, "".to_string(), "MWW".to_string(), Sector::Tech, 0).unwrap_err();
    assert_eq!(err, UnifiedError::InvalidInput);
    let err = create_business(1, 2, "x".repeat(50), "MWW".to_string(), Sector::Tech, 0).unwrap_err();
    assert_eq!(err, UnifiedError::InvalidInput);
    let err = create_business(1, 2, "ok".to_string(), "".to_string(), Sector::Tech, 0).unwrap_err();
    assert_eq!(err, UnifiedError::InvalidInput);
    let err = create_business(1, 2, "ok".to_string(), "TOOLONGSYM".to_string(), Sector::Tech, 0)
        .unwrap_err();
    assert_eq!(err, UnifiedError::InvalidInput);
    // the widest accepted lengths pass
    create_business(1, 2, "y".repeat(49), "NINECHARS".to_string(), Sector::Tech, 0).unwrap();
}

#[test]
fn launch_near_the_end_of_time_overflows() {
    let err = create_business(1, 2, "ok".to_string(), "OK".to_string(), Sector::Tech, i64::MAX)
        .unwrap_err();
    assert_eq!(err, UnifiedError::Overflow);
}

#[test]
fn market_lifecycle_accumulates_and_resolves_once() {
    let mut market = create_market(1, "Will the dome hold?".to_string(), 9_999, 21).unwrap();
    assert_eq!(market.oracle, 21);
    assert!(!market.resolved);
    assert_eq!(market.result, None);
    place_bet(&mut market, true, 700).unwrap();
    place_bet(&mut market, false, 300).unwrap();
    place_bet(&mut market, true, 50).unwrap();
    assert_eq!(market.total_pool, 1_050);
    assert_eq!(market.yes_pool, 750);
    assert_eq!(market.no_pool, 300);
    resolve_market(&mut market, true).unwrap();
    assert!(market.resolved);
    assert_eq!(market.result, Some(true));
    let err = resolve_market(&mut market, false).unwrap_err();
    assert_eq!(err, UnifiedError::AlreadyResolved);
    assert_eq!(market.result, Some(true));
    let err = place_bet(&mut market, true, 1).unwrap_err();
    assert_eq!(err, UnifiedError::AlreadyResolved);
    assert_eq!(market.total_pool, 1_050);
}

#[test]
fn market_title_is_capped_at_one_hundred_bytes() {
    let err = create_market(1, "t".repeat(101), 9_999, 21).unwrap_err();
    assert_eq!(err, UnifiedError::InvalidInput);
    create_market(1, "t".repeat(100), 9_999, 21).unwrap();
}

#[test]
fn overflowing_pool_rejects_the_bet() {
    let mut market = create_market(1, "pool".to_string(), 9_999, 21).unwrap();
    place_bet(&mut market, true, u64::MAX).unwrap();
    let before = market.clone();
    let err = place_bet(&mut market, false, 1).unwrap_err();
    assert_eq!(err, UnifiedError::Overflow);
    assert_eq!(market, before);
}
