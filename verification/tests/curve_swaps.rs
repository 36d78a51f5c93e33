use marscorp_exchange::curve::swap;
use marscorp_exchange::errors::UnifiedError;
use marscorp_exchange::state::{BondingCurve, GlobalConfig, Sector};

fn default_config() -> GlobalConfig {
    GlobalConfig { admin: 11, platform_fee_bps: 100, yield_fee_bps: 50, yield_distributor: 12 }
}

fn fresh_curve() -> BondingCurve {
    BondingCurve {
        creator: 1,
        mint: 2,
        sector: Sector::Tech,
        virtual_sol: 30_000_000_000,
        virtual_tokens: 1_073_000_000_000_000,
        real_sol: 0,
        graduated: false,
        takeover_active: false,
        takeover_initiator: 0,
        sabotage_penalty_bps: 0,
        sabotage_end_ts: 0,
    }
}

#[test]
fn buy_on_fresh_curve_uses_constant_product() {
    let cfg = default_config();
    let mut curve = fresh_curve();
    let out = swap(&cfg, &mut curve, true, 1_000_000_000, 0, 0).unwrap();
    assert_eq!(out.platform_fee, 10_000_000);
    assert_eq!(out.yield_fee, 5_000_000);
    assert_eq!(out.sol_to_curve, 985_000_000);
    assert_eq!(out.sol_out_net, 0);
    assert_eq!(out.tokens_out, 34_110_214_619_978);
    assert_eq!(curve.virtual_sol, 30_985_000_000);
    assert_eq!(curve.virtual_tokens, 1_038_889_785_380_022);
    assert_eq!(curve.real_sol, 985_000_000);
    assert!(!curve.graduated);
    assert!(out.graduation.is_none());
    assert_eq!(out.price.sol_reserves, 30_985_000_000);
    assert_eq!(out.price.token_reserves, 1_038_889_785_380_022);
}

#[test]
fn buy_slippage_fails_one_unit_above_computed_output() {
    let cfg = default_config();
    let mut curve = fresh_curve();
    let snapshot = curve;
    let err = swap(&cfg, &mut curve, true, 1_000_000_000, 34_110_214_619_979, 0).unwrap_err();
    assert_eq!(err, UnifiedError::SlippageExceeded);
    assert_eq!(curve, snapshot);
    let out = swap(&cfg, &mut curve, true, 1_000_000_000, 34_110_214_619_978, 0).unwrap();
    assert_eq!(out.tokens_out, 34_110_214_619_978);
}

#[test]
fn product_shrinks_by_less_than_divisor_on_buy() {
    let cfg = default_config();
    let mut curve = fresh_curve();
    let k_before = curve.virtual_sol * curve.virtual_tokens;
    swap(&cfg, &mut curve, true, 1_000_000_000, 0, 0).unwrap();
    let k_after = curve.virtual_sol * curve.virtual_tokens;
    assert!(k_after <= k_before);
    assert!(k_before - k_after < curve.virtual_sol);
}

#[test]
fn product_shrinks_by_less_than_divisor_on_sell() {
    let cfg = default_config();
    let mut curve = fresh_curve();
    swap(&cfg, &mut curve, true, 1_000_000_000, 0, 0).unwrap();
    let k_before = curve.virtual_sol * curve.virtual_tokens;
    swap(&cfg, &mut curve, false, 10_000_000_000_000, 0, 0).unwrap();
    let k_after = curve.virtual_sol * curve.virtual_tokens;
    assert!(k_after <= k_before);
    assert!(k_before - k_after < curve.virtual_tokens);
}

#[test]
fn sell_takes_fees_from_penalized_gross_output() {
    let cfg = default_config();
    let mut curve = fresh_curve();
    swap(&cfg, &mut curve, true, 1_000_000_000, 0, 0).unwrap();
    let out = swap(&cfg, &mut curve, false, 10_000_000_000_000, 0, 0).unwrap();
    assert_eq!(out.platform_fee, 2_954_075);
    assert_eq!(out.yield_fee, 1_477_037);
    assert_eq!(out.sol_out_net, 290_976_475);
    assert_eq!(out.tokens_out, 0);
    assert_eq!(out.sol_to_curve, 0);
    assert_eq!(curve.virtual_sol, 30_689_592_413);
    assert_eq!(curve.virtual_tokens, 1_048_889_785_380_022);
    assert_eq!(curve.real_sol, 689_592_413);
}

#[test]
fn sabotaged_buy_delivers_exactly_the_haircut_output() {
    let cfg = default_config();
    let mut plain = fresh_curve();
    let mut sabotaged = fresh_curve();
    sabotaged.sabotage_penalty_bps = 100;
    sabotaged.sabotage_end_ts = 1_000;
    let full = swap(&cfg, &mut plain, true, 1_000_000_000, 0, 0).unwrap();
    let cut = swap(&cfg, &mut sabotaged, true, 1_000_000_000, 0, 0).unwrap();
    assert_eq!(cut.tokens_out, full.tokens_out * 9_900 / 10_000);
    assert_eq!(cut.tokens_out, 33_769_112_473_778);
    assert!(cut.tokens_out <= full.tokens_out);
    // the reserves update with the full figures either way: the difference
    // is removed from circulation, a deliberate sink
    assert_eq!(sabotaged.virtual_sol, plain.virtual_sol);
    assert_eq!(sabotaged.virtual_tokens, plain.virtual_tokens);
    assert_eq!(sabotaged.real_sol, plain.real_sol);
}

#[test]
fn expired_sabotage_window_has_no_effect() {
    let cfg = default_config();
    let mut curve = fresh_curve();
    curve.sabotage_penalty_bps = 100;
    curve.sabotage_end_ts = 50;
    let out = swap(&cfg, &mut curve, true, 1_000_000_000, 0, 50).unwrap();
    assert_eq!(out.tokens_out, 34_110_214_619_978);
}

#[test]
fn swap_on_graduated_curve_fails_before_any_arithmetic() {
    let cfg = default_config();
    let mut curve = fresh_curve();
    curve.real_sol = 86_000_000_000;
    curve.graduated = true;
    let snapshot = curve;
    let err = swap(&cfg, &mut curve, true, 1_000_000_000, 0, 0).unwrap_err();
    assert_eq!(err, UnifiedError::AlreadyGraduated);
    assert_eq!(curve, snapshot);
    let err = swap(&cfg, &mut curve, false, 1_000_000_000, 0, 0).unwrap_err();
    assert_eq!(err, UnifiedError::AlreadyGraduated);
    assert_eq!(curve, snapshot);
}

#[test]
fn zero_amount_is_rejected() {
    let cfg = default_config();
    let mut curve = fresh_curve();
    let err = swap(&cfg, &mut curve, true, 0, 0, 0).unwrap_err();
    assert_eq!(err, UnifiedError::InvalidInput);
    let err = swap(&cfg, &mut curve, false, 0, 0, 0).unwrap_err();
    assert_eq!(err, UnifiedError::InvalidInput);
}

#[test]
fn fees_exceeding_the_amount_overflow() {
    let cfg = GlobalConfig {
        admin: 11,
        platform_fee_bps: 9_000,
        yield_fee_bps: 2_000,
        yield_distributor: 12,
    };
    let mut curve = fresh_curve();
    let snapshot = curve;
    let err = swap(&cfg, &mut curve, true, 1_000_000_000, 0, 0).unwrap_err();
    assert_eq!(err, UnifiedError::Overflow);
    assert_eq!(curve, snapshot);
}

#[test]
fn sell_without_backing_value_overflows() {
    let cfg = default_config();
    let mut curve = fresh_curve();
    let snapshot = curve;
    let err = swap(&cfg, &mut curve, false, 1_000_000_000_000, 0, 0).unwrap_err();
    assert_eq!(err, UnifiedError::Overflow);
    assert_eq!(curve, snapshot);
}

#[test]
fn drained_curve_with_full_fees_cannot_price_a_buy() {
    // fees eat the whole amount and the value reserve is empty, so the
    // constant-product division has no divisor
    let cfg = GlobalConfig {
        admin: 11,
        platform_fee_bps: 10_000,
        yield_fee_bps: 0,
        yield_distributor: 12,
    };
    let mut curve = fresh_curve();
    curve.virtual_sol = 0;
    let err = swap(&cfg, &mut curve, true, 10, 0, 0).unwrap_err();
    assert_eq!(err, UnifiedError::Overflow);
}

#[test]
fn oversized_reserves_overflow_the_product() {
    let cfg = default_config();
    let mut curve = fresh_curve();
    curve.virtual_sol = u128::MAX;
    curve.virtual_tokens = 2;
    let err = swap(&cfg, &mut curve, true, 1_000, 0, 0).unwrap_err();
    assert_eq!(err, UnifiedError::Overflow);
    let err = swap(&cfg, &mut curve, false, 1_000, 0, 0).unwrap_err();
    assert_eq!(err, UnifiedError::Overflow);
}

#[test]
fn buy_crossing_the_threshold_graduates_the_curve() {
    let cfg = default_config();
    let mut curve = fresh_curve();
    curve.real_sol = 85_000_000_000;
    let out = swap(&cfg, &mut curve, true, 1_000_000_000, 0, 7).unwrap();
    assert!(curve.graduated);
    assert_eq!(curve.real_sol, 85_985_000_000);
    let grad = out.graduation.unwrap();
    assert_eq!(grad.sol_amount, 85_985_000_000);
    assert_eq!(grad.mint, 2);
    assert_eq!(grad.timestamp, 7);
    // graduation is terminal: the next swap is refused
    let err = swap(&cfg, &mut curve, true, 1, 0, 7).unwrap_err();
    assert_eq!(err, UnifiedError::AlreadyGraduated);
}
