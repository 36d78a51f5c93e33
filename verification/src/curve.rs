//! The bonding-curve pricing engine: constant-product swap execution with
//! fee extraction, the sabotage output haircut, and graduation detection.
//!
//! A swap is a pure state transition on a [`BondingCurve`] record. On
//! success it updates the virtual reserves with the full (unpenalized)
//! figures, moves the real backing value, and reports the transfers the
//! host must execute atomically; on any error it leaves the record
//! untouched. Every intermediate product is computed in 128 bits and every
//! step is checked, so no arithmetic ever wraps.

use vstd::arithmetic::div_mod::{
    lemma_div_is_ordered, lemma_div_is_ordered_by_denominator, lemma_div_multiples_vanish,
    lemma_fundamental_div_mod, lemma_mod_division_less_than_divisor,
};
use vstd::arithmetic::mul::{
    lemma_mul_by_zero_is_zero, lemma_mul_inequality, lemma_mul_is_commutative,
    lemma_mul_upper_bound,
};
use vstd::prelude::*;
use crate::errors::UnifiedError;
use crate::events::{GraduationReady, PriceUpdated};
use crate::state::{BondingCurve, GlobalConfig, BPS_DENOMINATOR, GRADUATION_THRESHOLD};

verus! {

/// Everything a successful swap asks the host to do, besides persisting the
/// updated curve record: the fee transfers, the value and token movements,
/// and the signals to emit.
#[derive(Clone, Copy, Debug, PartialEq, Eq)]
pub struct SwapOutcome {
    /// Tokens delivered to the trader; 0 on a sell.
    pub tokens_out: u64,
    /// Value currency moved into the curve's holding; 0 on a sell.
    pub sol_to_curve: u64,
    /// Net value currency delivered to the trader; 0 on a buy.
    pub sol_out_net: u64,
    /// Fee owed to the admin treasury.
    pub platform_fee: u64,
    /// Fee owed to the yield distributor.
    pub yield_fee: u64,
    /// Reserve snapshot to emit after the swap.
    pub price: PriceUpdated,
    /// Terminal readiness signal, present exactly when this swap graduated
    /// the curve.
    pub graduation: Option<GraduationReady>,
}

/// The output multiplier in basis points: reduced while a sabotage window
/// is open, neutral (10000) otherwise.
pub open spec fn spec_penalty_multiplier(c: BondingCurve, now: i64) -> int {
    if c.sabotage_end_ts > now {
        BPS_DENOMINATOR - c.sabotage_penalty_bps
    } else {
        BPS_DENOMINATOR as int
    }
}

/// A basis-point fee, rounded down.
pub open spec fn spec_fee(amount: int, bps: int) -> int {
    amount * bps / (BPS_DENOMINATOR as int)
}

/// The constant product of the curve's virtual reserves.
pub open spec fn spec_k(c: BondingCurve) -> int {
    c.virtual_sol * c.virtual_tokens
}

// ─── Buy path: value in, tokens out; fees are taken from the input. ───

pub open spec fn spec_buy_platform_fee(cfg: GlobalConfig, amount: u64) -> int {
    spec_fee(amount as int, cfg.platform_fee_bps as int)
}

pub open spec fn spec_buy_yield_fee(cfg: GlobalConfig, amount: u64) -> int {
    spec_fee(amount as int, cfg.yield_fee_bps as int)
}

/// What remains of the paid amount once both fees are taken; negative when
/// the configured fees exceed the amount itself.
pub open spec fn spec_buy_after_fee(cfg: GlobalConfig, amount: u64) -> int {
    amount - spec_buy_platform_fee(cfg, amount) - spec_buy_yield_fee(cfg, amount)
}

pub open spec fn spec_buy_new_sol(cfg: GlobalConfig, c: BondingCurve, amount: u64) -> int {
    c.virtual_sol + spec_buy_after_fee(cfg, amount)
}

pub open spec fn spec_buy_new_tokens(cfg: GlobalConfig, c: BondingCurve, amount: u64) -> int {
    spec_k(c) / spec_buy_new_sol(cfg, c, amount)
}

/// Tokens priced out by the reserve update, before any penalty.
pub open spec fn spec_buy_tokens_full(cfg: GlobalConfig, c: BondingCurve, amount: u64) -> int {
    c.virtual_tokens - spec_buy_new_tokens(cfg, c, amount)
}

/// Tokens actually delivered to the trader: the full figure cut by the
/// penalty multiplier.
pub open spec fn spec_buy_tokens_out(
    cfg: GlobalConfig,
    c: BondingCurve,
    amount: u64,
    now: i64,
) -> int {
    spec_buy_tokens_full(cfg, c, amount) * spec_penalty_multiplier(c, now) / (
    BPS_DENOMINATOR as int)
}

/// The first failure of the buy computation, in evaluation order, or `None`
/// when the buy succeeds.
pub open spec fn spec_buy_err(
    cfg: GlobalConfig,
    c: BondingCurve,
    amount: u64,
    min_out: u64,
    now: i64,
) -> Option<UnifiedError> {
    if spec_buy_after_fee(cfg, amount) < 0 {
        Some(UnifiedError::Overflow)
    } else if spec_k(c) > u128::MAX {
        Some(UnifiedError::Overflow)
    } else if spec_buy_new_sol(cfg, c, amount) > u128::MAX {
        Some(UnifiedError::Overflow)
    } else if spec_buy_new_sol(cfg, c, amount) == 0 {
        Some(UnifiedError::Overflow)
    } else if spec_buy_tokens_full(cfg, c, amount) * spec_penalty_multiplier(c, now)
        > u128::MAX {
        Some(UnifiedError::Overflow)
    } else if spec_buy_tokens_out(cfg, c, amount, now) > u64::MAX {
        Some(UnifiedError::Overflow)
    } else if spec_buy_tokens_out(cfg, c, amount, now) < min_out {
        Some(UnifiedError::SlippageExceeded)
    } else if c.real_sol + spec_buy_after_fee(cfg, amount) > u64::MAX {
        Some(UnifiedError::Overflow)
    } else {
        None
    }
}

/// The curve record after a successful buy: reserves updated with the full
/// figures, backing value increased by the amount after fees, graduation
/// flagged when the threshold is crossed.
pub open spec fn spec_buy_post(cfg: GlobalConfig, c: BondingCurve, amount: u64) -> BondingCurve {
    BondingCurve {
        virtual_sol: spec_buy_new_sol(cfg, c, amount) as u128,
        virtual_tokens: spec_buy_new_tokens(cfg, c, amount) as u128,
        real_sol: (c.real_sol + spec_buy_after_fee(cfg, amount)) as u64,
        graduated: c.real_sol + spec_buy_after_fee(cfg, amount) > GRADUATION_THRESHOLD,
        ..c
    }
}

// ─── Sell path: tokens in, value out; the penalty is applied to the gross
// output first, then fees are taken from the adjusted output. ───

pub open spec fn spec_sell_new_tokens(c: BondingCurve, amount: u64) -> int {
    c.virtual_tokens + amount
}

pub open spec fn spec_sell_new_sol(c: BondingCurve, amount: u64) -> int {
    spec_k(c) / spec_sell_new_tokens(c, amount)
}

/// Gross value priced out by the reserve update, before any penalty.
pub open spec fn spec_sell_gross(c: BondingCurve, amount: u64) -> int {
    c.virtual_sol - spec_sell_new_sol(c, amount)
}

/// Gross output cut by the penalty multiplier; this figure leaves the
/// curve's backing value.
pub open spec fn spec_sell_gross_adjusted(c: BondingCurve, amount: u64, now: i64) -> int {
    spec_sell_gross(c, amount) * spec_penalty_multiplier(c, now) / (BPS_DENOMINATOR as int)
}

pub open spec fn spec_sell_platform_fee(
    cfg: GlobalConfig,
    c: BondingCurve,
    amount: u64,
    now: i64,
) -> int {
    spec_fee(spec_sell_gross_adjusted(c, amount, now), cfg.platform_fee_bps as int)
}

pub open spec fn spec_sell_yield_fee(
    cfg: GlobalConfig,
    c: BondingCurve,
    amount: u64,
    now: i64,
) -> int {
    spec_fee(spec_sell_gross_adjusted(c, amount, now), cfg.yield_fee_bps as int)
}

/// Net value delivered to the trader; negative when the configured fees
/// exceed the adjusted gross output.
pub open spec fn spec_sell_net(cfg: GlobalConfig, c: BondingCurve, amount: u64, now: i64) -> int {
    spec_sell_gross_adjusted(c, amount, now) - spec_sell_platform_fee(cfg, c, amount, now)
        - spec_sell_yield_fee(cfg, c, amount, now)
}

/// The first failure of the sell computation, in evaluation order, or
/// `None` when the sell succeeds.
pub open spec fn spec_sell_err(
    cfg: GlobalConfig,
    c: BondingCurve,
    amount: u64,
    min_out: u64,
    now: i64,
) -> Option<UnifiedError> {
    if spec_k(c) > u128::MAX {
        Some(UnifiedError::Overflow)
    } else if spec_sell_new_tokens(c, amount) > u128::MAX {
        Some(UnifiedError::Overflow)
    } else if spec_sell_gross(c, amount) * spec_penalty_multiplier(c, now) > u128::MAX {
        Some(UnifiedError::Overflow)
    } else if spec_sell_gross_adjusted(c, amount, now) * cfg.platform_fee_bps > u128::MAX {
        Some(UnifiedError::Overflow)
    } else if spec_sell_gross_adjusted(c, amount, now) * cfg.yield_fee_bps > u128::MAX {
        Some(UnifiedError::Overflow)
    } else if spec_sell_net(cfg, c, amount, now) < 0 {
        Some(UnifiedError::Overflow)
    } else if spec_sell_net(cfg, c, amount, now) > u64::MAX {
        Some(UnifiedError::Overflow)
    } else if spec_sell_net(cfg, c, amount, now) < min_out {
        Some(UnifiedError::SlippageExceeded)
    } else if spec_sell_gross_adjusted(c, amount, now) > u64::MAX {
        Some(UnifiedError::Overflow)
    } else if c.real_sol < spec_sell_gross_adjusted(c, amount, now) {
        Some(UnifiedError::Overflow)
    } else {
        None
    }
}

/// The curve record after a successful sell: reserves updated with the full
/// figures, backing value reduced by the adjusted gross output.
pub open spec fn spec_sell_post(c: BondingCurve, amount: u64, now: i64) -> BondingCurve {
    BondingCurve {
        virtual_sol: spec_sell_new_sol(c, amount) as u128,
        virtual_tokens: spec_sell_new_tokens(c, amount) as u128,
        real_sol: (c.real_sol - spec_sell_gross_adjusted(c, amount, now)) as u64,
        graduated: c.real_sol - spec_sell_gross_adjusted(c, amount, now) > GRADUATION_THRESHOLD,
        ..c
    }
}

/// The first failure of a swap, in evaluation order: the graduation and
/// input guards, then the chosen path's computation.
pub open spec fn spec_swap_err(
    cfg: GlobalConfig,
    c: BondingCurve,
    is_buy: bool,
    amount: u64,
    min_out: u64,
    now: i64,
) -> Option<UnifiedError> {
    if c.graduated {
        Some(UnifiedError::AlreadyGraduated)
    } else if amount == 0 {
        Some(UnifiedError::InvalidInput)
    } else if is_buy {
        spec_buy_err(cfg, c, amount, min_out, now)
    } else {
        spec_sell_err(cfg, c, amount, min_out, now)
    }
}

/// A basis-point haircut never enlarges the amount it is applied to, and
/// the neutral multiplier delivers the full amount exactly.
pub proof fn lemma_penalty_haircut(full: int, bps: int)
    requires
        0 <= full,
        0 <= bps <= BPS_DENOMINATOR,
    ensures
        full * (BPS_DENOMINATOR - bps) / (BPS_DENOMINATOR as int) <= full,
        full * (BPS_DENOMINATOR as int) / (BPS_DENOMINATOR as int) == full,
{
    let den = BPS_DENOMINATOR as int;
    lemma_mul_is_commutative(full, den);
    lemma_div_multiples_vanish(full, den);
    lemma_mul_inequality(BPS_DENOMINATOR - bps, den, full);
    lemma_mul_is_commutative(full, den - bps);
    lemma_div_is_ordered(full * (den - bps), full * den, den);
}

/// Under an active sabotage window, the amount a successful buy actually
/// delivers is the unpenalized figure cut by exactly the window's basis
/// points, and never exceeds it.
pub proof fn lemma_sabotage_caps_buy(
    cfg: GlobalConfig,
    c: BondingCurve,
    amount: u64,
    min_out: u64,
    now: i64,
)
    requires
        c.wf(),
        c.sabotage_end_ts > now,
        spec_buy_err(cfg, c, amount, min_out, now) is None,
    ensures
        spec_buy_tokens_out(cfg, c, amount, now) == spec_buy_tokens_full(cfg, c, amount) * (
        BPS_DENOMINATOR - c.sabotage_penalty_bps) / (BPS_DENOMINATOR as int),
        spec_buy_tokens_out(cfg, c, amount, now) <= spec_buy_tokens_full(cfg, c, amount),
        spec_buy_tokens_out(cfg, (BondingCurve { sabotage_end_ts: now, ..c }), amount, now)
            == spec_buy_tokens_full(cfg, c, amount),
{
    let x = c.virtual_sol as int;
    let y = c.virtual_tokens as int;
    let new_x = spec_buy_new_sol(cfg, c, amount);
    if x == 0 {
        lemma_mul_by_zero_is_zero(y);
        assert(spec_k(c) / new_x == 0);
    } else {
        lemma_div_is_ordered_by_denominator(spec_k(c), x, new_x);
        lemma_div_multiples_vanish(y, x);
    }
    lemma_penalty_haircut(spec_buy_tokens_full(cfg, c, amount), c.sabotage_penalty_bps as int);
}

/// Under an active sabotage window, the gross value a successful sell
/// actually moves out of the curve is the unpenalized figure cut by exactly
/// the window's basis points, and never exceeds it.
pub proof fn lemma_sabotage_caps_sell(
    cfg: GlobalConfig,
    c: BondingCurve,
    amount: u64,
    min_out: u64,
    now: i64,
)
    requires
        c.wf(),
        c.sabotage_end_ts > now,
        amount > 0,
        spec_sell_err(cfg, c, amount, min_out, now) is None,
    ensures
        spec_sell_gross_adjusted(c, amount, now) == spec_sell_gross(c, amount) * (BPS_DENOMINATOR
            - c.sabotage_penalty_bps) / (BPS_DENOMINATOR as int),
        spec_sell_gross_adjusted(c, amount, now) <= spec_sell_gross(c, amount),
        spec_sell_gross_adjusted((BondingCurve { sabotage_end_ts: now, ..c }), amount, now)
            == spec_sell_gross(c, amount),
{
    let x = c.virtual_sol as int;
    let y = c.virtual_tokens as int;
    let new_y = spec_sell_new_tokens(c, amount);
    if y == 0 {
        lemma_mul_by_zero_is_zero(x);
        assert(spec_k(c) / new_y == 0);
    } else {
        lemma_div_is_ordered_by_denominator(spec_k(c), y, new_y);
        lemma_mul_is_commutative(x, y);
        lemma_div_multiples_vanish(x, y);
    }
    lemma_penalty_haircut(spec_sell_gross(c, amount), c.sabotage_penalty_bps as int);
}

/// A well-formed curve whose backing value already passed the graduation
/// threshold is graduated, so any swap attempt on it fails with
/// `AlreadyGraduated` before any arithmetic is considered.
pub proof fn lemma_graduation_blocks_swaps(
    cfg: GlobalConfig,
    c: BondingCurve,
    is_buy: bool,
    amount: u64,
    min_out: u64,
    now: i64,
)
    requires
        c.wf(),
        c.real_sol > GRADUATION_THRESHOLD,
    ensures
        spec_swap_err(cfg, c, is_buy, amount, min_out, now) == Some(UnifiedError::AlreadyGraduated),
{
}

/// Executes one swap against the curve.
///
/// On success the virtual reserves are updated with the full, unpenalized
/// figures while the outcome carries the penalized amounts actually moved;
/// under an active sabotage window the difference is a deliberate economic
/// sink. The last two groups of ensures state the constant-product
/// conservation of the reserve update: the product can only shrink by the
/// truncation of one division, i.e. by less than the updated divisor.
pub fn swap(
    config: &GlobalConfig,
    curve: &mut BondingCurve,
    is_buy: bool,
    amount: u64,
    min_out: u64,
    now: i64,
) -> (r: Result<SwapOutcome, UnifiedError>)
    requires
        old(curve).wf(),
    ensures
        final(curve).wf(),
        old(curve).graduated ==> final(curve).graduated,
        match r {
            Ok(out) => {
                &&& spec_swap_err(*config, *old(curve), is_buy, amount, min_out, now) is None
                &&& is_buy ==> {
                    &&& *final(curve) == spec_buy_post(*config, *old(curve), amount)
                    &&& out.tokens_out == spec_buy_tokens_out(*config, *old(curve), amount, now)
                    &&& out.sol_to_curve == spec_buy_after_fee(*config, amount)
                    &&& out.sol_out_net == 0
                    &&& out.platform_fee == spec_buy_platform_fee(*config, amount)
                    &&& out.yield_fee == spec_buy_yield_fee(*config, amount)
                }
                &&& !is_buy ==> {
                    &&& *final(curve) == spec_sell_post(*old(curve), amount, now)
                    &&& out.tokens_out == 0
                    &&& out.sol_to_curve == 0
                    &&& out.sol_out_net == spec_sell_net(*config, *old(curve), amount, now)
                    &&& out.platform_fee == spec_sell_platform_fee(
                        *config,
                        *old(curve),
                        amount,
                        now,
                    )
                    &&& out.yield_fee == spec_sell_yield_fee(*config, *old(curve), amount, now)
                }
                &&& out.price == (PriceUpdated {
                    mint: old(curve).mint,
                    sol_reserves: #[verifier::truncate] (final(curve).virtual_sol as u64),
                    token_reserves: #[verifier::truncate] (final(curve).virtual_tokens as u64),
                    timestamp: now,
                })
                &&& out.graduation == (if final(curve).graduated {
                    Some(
                        GraduationReady {
                            mint: old(curve).mint,
                            sol_amount: final(curve).real_sol,
                            token_amount: final(curve).virtual_tokens as u64,
                            timestamp: now,
                        },
                    )
                } else {
                    None::<GraduationReady>
                })
            },
            Err(e) => {
                &&& spec_swap_err(*config, *old(curve), is_buy, amount, min_out, now) == Some(e)
                &&& *final(curve) == *old(curve)
            },
        },
        r is Ok ==> final(curve).virtual_sol * final(curve).virtual_tokens <= spec_k(*old(curve)),
        r is Ok && is_buy ==> spec_k(*old(curve)) < final(curve).virtual_sol * (final(curve).virtual_tokens + 1),
        r is Ok && !is_buy ==> spec_k(*old(curve)) < (final(curve).virtual_sol + 1) * final(curve).virtual_tokens,
{
    if curve.graduated {
        return Err(UnifiedError::AlreadyGraduated);
    }
    if amount == 0 {
        return Err(UnifiedError::InvalidInput);
    }
    let penalty_multiplier: u128 = if curve.sabotage_end_ts > now {
        (BPS_DENOMINATOR as u128) - (curve.sabotage_penalty_bps as u128)
    } else {
        BPS_DENOMINATOR as u128
    };
    assert(penalty_multiplier == spec_penalty_multiplier(*curve, now));
    let amount_u128 = amount as u128;
    let platform_fee_bps = config.platform_fee_bps as u128;
    let yield_fee_bps = config.yield_fee_bps as u128;
    let x = curve.virtual_sol;
    let y = curve.virtual_tokens;

    if is_buy {
        proof {
            lemma_mul_upper_bound(amount as int, u64::MAX as int, platform_fee_bps as int, u16::MAX as int);
            lemma_mul_upper_bound(amount as int, u64::MAX as int, yield_fee_bps as int, u16::MAX as int);
        }
        let platform_fee = amount_u128 * platform_fee_bps / (BPS_DENOMINATOR as u128);
        let yield_fee = amount_u128 * yield_fee_bps / (BPS_DENOMINATOR as u128);
        let total_fee = platform_fee + yield_fee;
        let amount_after_fee = match amount_u128.checked_sub(total_fee) {
            Some(v) => v,
            None => {
                return Err(UnifiedError::Overflow);
            },
        };
        let k = match x.checked_mul(y) {
            Some(v) => v,
            None => {
                return Err(UnifiedError::Overflow);
            },
        };
        let new_x = match x.checked_add(amount_after_fee) {
            Some(v) => v,
            None => {
                return Err(UnifiedError::Overflow);
            },
        };
        let new_y = match k.checked_div(new_x) {
            Some(v) => v,
            None => {
                return Err(UnifiedError::Overflow);
            },
        };
        proof {
            if x == 0 {
                lemma_mul_by_zero_is_zero(y as int);
                assert(k == 0);
                assert(k as int / new_x as int == 0);
            } else {
                lemma_div_is_ordered_by_denominator(k as int, x as int, new_x as int);
                lemma_div_multiples_vanish(y as int, x as int);
            }
        }
        let tokens_out_full = y - new_y;
        let penalized = match tokens_out_full.checked_mul(penalty_multiplier) {
            Some(v) => v,
            None => {
                return Err(UnifiedError::Overflow);
            },
        };
        let tokens_out_adjusted = penalized / (BPS_DENOMINATOR as u128);
        if tokens_out_adjusted > u64::MAX as u128 {
            return Err(UnifiedError::Overflow);
        }
        let tokens_out = tokens_out_adjusted as u64;
        if tokens_out < min_out {
            return Err(UnifiedError::SlippageExceeded);
        }
        let new_real = match curve.real_sol.checked_add(amount_after_fee as u64) {
            Some(v) => v,
            None => {
                return Err(UnifiedError::Overflow);
            },
        };
        proof {
            lemma_fundamental_div_mod(k as int, new_x as int);
            lemma_mod_division_less_than_divisor(k as int, new_x as int);
            assert(new_x as int * (new_y as int + 1) == new_x as int * new_y as int + new_x as int)
                by (nonlinear_arith);
        }
        curve.virtual_sol = new_x;
        curve.virtual_tokens = new_y;
        curve.real_sol = new_real;
        let graduated_now = new_real > GRADUATION_THRESHOLD;
        if graduated_now {
            curve.graduated = true;
        }
        let price = PriceUpdated {
            mint: curve.mint,
            sol_reserves: #[verifier::truncate] (new_x as u64),
            token_reserves: #[verifier::truncate] (new_y as u64),
            timestamp: now,
        };
        let graduation = if graduated_now {
            Some(
                GraduationReady {
                    mint: curve.mint,
                    sol_amount: new_real,
                    token_amount: #[verifier::truncate] (new_y as u64),
                    timestamp: now,
                },
            )
        } else {
            None
        };
        Ok(
            SwapOutcome {
                tokens_out,
                sol_to_curve: amount_after_fee as u64,
                sol_out_net: 0,
                platform_fee: platform_fee as u64,
                yield_fee: yield_fee as u64,
                price,
                graduation,
            },
        )
    } else {
        let k = match x.checked_mul(y) {
            Some(v) => v,
            None => {
                return Err(UnifiedError::Overflow);
            },
        };
        let new_y = match y.checked_add(amount_u128) {
            Some(v) => v,
            None => {
                return Err(UnifiedError::Overflow);
            },
        };
        let new_x = k / new_y;
        proof {
            if y == 0 {
                lemma_mul_by_zero_is_zero(x as int);
                assert(k == 0);
                assert(k as int / new_y as int == 0);
            } else {
                lemma_div_is_ordered_by_denominator(k as int, y as int, new_y as int);
                lemma_mul_is_commutative(x as int, y as int);
                lemma_div_multiples_vanish(x as int, y as int);
            }
        }
        let gross = x - new_x;
        let penalized = match gross.checked_mul(penalty_multiplier) {
            Some(v) => v,
            None => {
                return Err(UnifiedError::Overflow);
            },
        };
        let gross_adjusted = penalized / (BPS_DENOMINATOR as u128);
        let pf_scaled = match gross_adjusted.checked_mul(platform_fee_bps) {
            Some(v) => v,
            None => {
                return Err(UnifiedError::Overflow);
            },
        };
        let platform_fee = pf_scaled / (BPS_DENOMINATOR as u128);
        let yf_scaled = match gross_adjusted.checked_mul(yield_fee_bps) {
            Some(v) => v,
            None => {
                return Err(UnifiedError::Overflow);
            },
        };
        let yield_fee = yf_scaled / (BPS_DENOMINATOR as u128);
        proof {
            lemma_div_is_ordered(pf_scaled as int, u128::MAX as int, BPS_DENOMINATOR as int);
            lemma_div_is_ordered(yf_scaled as int, u128::MAX as int, BPS_DENOMINATOR as int);
        }
        let total_fee = platform_fee + yield_fee;
        let net = match gross_adjusted.checked_sub(total_fee) {
            Some(v) => v,
            None => {
                return Err(UnifiedError::Overflow);
            },
        };
        if net > u64::MAX as u128 {
            return Err(UnifiedError::Overflow);
        }
        let net_out = net as u64;
        if net_out < min_out {
            return Err(UnifiedError::SlippageExceeded);
        }
        if gross_adjusted > u64::MAX as u128 {
            return Err(UnifiedError::Overflow);
        }
        let new_real = match curve.real_sol.checked_sub(gross_adjusted as u64) {
            Some(v) => v,
            None => {
                return Err(UnifiedError::Overflow);
            },
        };
        proof {
            lemma_fundamental_div_mod(k as int, new_y as int);
            lemma_mod_division_less_than_divisor(k as int, new_y as int);
            lemma_mul_is_commutative(new_x as int, new_y as int);
            assert((new_x as int + 1) * new_y as int == new_y as int * new_x as int + new_y as int)
                by (nonlinear_arith);
        }
        curve.virtual_sol = new_x;
        curve.virtual_tokens = new_y;
        curve.real_sol = new_real;
        let graduated_now = new_real > GRADUATION_THRESHOLD;
        if graduated_now {
            curve.graduated = true;
        }
        let price = PriceUpdated {
            mint: curve.mint,
            sol_reserves: #[verifier::truncate] (new_x as u64),
            token_reserves: #[verifier::truncate] (new_y as u64),
            timestamp: now,
        };
        let graduation = if graduated_now {
            Some(
                GraduationReady {
                    mint: curve.mint,
                    sol_amount: new_real,
                    token_amount: #[verifier::truncate] (new_y as u64),
                    timestamp: now,
                },
            )
        } else {
            None
        };
        Ok(
            SwapOutcome {
                tokens_out: 0,
                sol_to_curve: 0,
                sol_out_net: net_out,
                platform_fee: platform_fee as u64,
                yield_fee: yield_fee as u64,
                price,
                graduation,
            },
        )
    }
}

} // verus!
