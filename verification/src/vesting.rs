//! The linear vesting release calculator and the claim transition.
//!
//! A vesting record releases its fixed allocation linearly between
//! `start_ts` and `end_ts`. A claim computes the amount unlockable now,
//! pays out the part not yet released, and advances `released_amount`; the
//! payout and the record update must be committed together by the host.

use vstd::arithmetic::div_mod::{
    lemma_div_is_ordered, lemma_div_multiples_vanish, lemma_div_of0, lemma_div_pos_is_pos,
};
use vstd::arithmetic::mul::{
    lemma_mul_by_zero_is_zero, lemma_mul_inequality, lemma_mul_is_commutative,
    lemma_mul_nonnegative, lemma_mul_upper_bound,
};
use vstd::prelude::*;
use crate::errors::UnifiedError;
use crate::state::{AccountId, VestingAccount};

verus! {

/// The error the vesting calculator reports, if any, in evaluation order:
/// the clock must have reached the start, the schedule length must be
/// representable and positive, and the elapsed time must be representable.
pub open spec fn spec_vested_err(start: i64, end: i64, now: i64) -> Option<UnifiedError> {
    if now < start {
        Some(UnifiedError::InvalidTime)
    } else if !(i64::MIN <= end - start <= i64::MAX) {
        Some(UnifiedError::Overflow)
    } else if end - start <= 0 {
        Some(UnifiedError::InvalidTime)
    } else if now - start > i64::MAX {
        Some(UnifiedError::Overflow)
    } else {
        None
    }
}

/// The cumulative amount unlockable at `now`: everything at or after the
/// end of the schedule, and the elapsed share, rounded down, inside it.
pub open spec fn spec_vested_value(total: u64, start: i64, end: i64, now: i64) -> int {
    if now >= end {
        total as int
    } else {
        total * (now - start) / (end - start)
    }
}

/// What a claim at `now` would pay out: the vested amount not yet
/// released, clamped to zero if rounding ever left `released_amount` ahead.
pub open spec fn spec_claimable(v: VestingAccount, now: i64) -> int {
    let vested = spec_vested_value(v.total_amount, v.start_ts, v.end_ts, now);
    if vested >= v.released_amount {
        vested - v.released_amount
    } else {
        0
    }
}

/// The error a claim reports, if any: the caller must own the record, the
/// calculator must accept the clock, and something must be claimable.
pub open spec fn spec_claim_err(v: VestingAccount, caller: AccountId, now: i64) -> Option<
    UnifiedError,
> {
    if caller != v.owner {
        Some(UnifiedError::Unauthorized)
    } else if spec_vested_err(v.start_ts, v.end_ts, now) is Some {
        spec_vested_err(v.start_ts, v.end_ts, now)
    } else if spec_claimable(v, now) == 0 {
        Some(UnifiedError::NothingToClaim)
    } else {
        None
    }
}

/// Inside a positive schedule the vested amount is between 0 and the
/// allocation.
pub proof fn lemma_vested_in_range(total: u64, start: i64, end: i64, now: i64)
    requires
        start < end,
        start <= now,
    ensures
        0 <= spec_vested_value(total, start, end, now) <= total,
{
    if now < end {
        let e = now - start;
        let d = end - start;
        lemma_mul_nonnegative(total as int, e);
        lemma_div_pos_is_pos(total * e, d);
        lemma_mul_inequality(e, d, total as int);
        lemma_mul_is_commutative(total as int, e);
        lemma_mul_is_commutative(total as int, d);
        lemma_div_is_ordered(total * e, total * d, d);
        lemma_div_multiples_vanish(total as int, d);
    }
}

/// The vested amount never decreases as the clock advances.
pub proof fn lemma_vested_monotonic(total: u64, start: i64, end: i64, n1: i64, n2: i64)
    requires
        start < end,
        start <= n1 <= n2,
    ensures
        spec_vested_value(total, start, end, n1) <= spec_vested_value(total, start, end, n2),
{
    if n2 >= end {
        lemma_vested_in_range(total, start, end, n1);
    } else {
        let e1 = n1 - start;
        let e2 = n2 - start;
        let d = end - start;
        lemma_mul_inequality(e1, e2, total as int);
        lemma_mul_is_commutative(total as int, e1);
        lemma_mul_is_commutative(total as int, e2);
        lemma_div_is_ordered(total * e1, total * e2, d);
    }
}

/// Nothing is vested at the start of the schedule, and the whole
/// allocation is vested at and after its end.
pub proof fn lemma_vested_at_boundaries(total: u64, start: i64, end: i64, now: i64)
    requires
        start < end,
    ensures
        spec_vested_value(total, start, end, start) == 0,
        now >= end ==> spec_vested_value(total, start, end, now) == total,
{
    lemma_mul_by_zero_is_zero(total as int);
    lemma_div_of0(end - start);
}

/// A claim that succeeds exhausts the instant: a second claim with the
/// same clock reading finds nothing to claim.
pub proof fn lemma_claim_idempotent(v: VestingAccount, caller: AccountId, now: i64)
    requires
        spec_claim_err(v, caller, now) is None,
    ensures
        spec_claim_err(
            (VestingAccount {
                released_amount: spec_vested_value(v.total_amount, v.start_ts, v.end_ts, now) as u64,
                ..v
            }),
            caller,
            now,
        ) == Some(UnifiedError::NothingToClaim),
{
    lemma_vested_in_range(v.total_amount, v.start_ts, v.end_ts, now);
}

/// Computes the cumulative unlockable amount at `now`, widening every
/// intermediate product to 128 bits.
pub fn vested_amount(total: u64, start: i64, end: i64, now: i64) -> (r: Result<u64, UnifiedError>)
    ensures
        match r {
            Ok(v) => {
                &&& spec_vested_err(start, end, now) is None
                &&& v == spec_vested_value(total, start, end, now)
                &&& v <= total
            },
            Err(e) => spec_vested_err(start, end, now) == Some(e),
        },
{
    if now < start {
        return Err(UnifiedError::InvalidTime);
    }
    let total_duration = match end.checked_sub(start) {
        Some(d) => d,
        None => {
            return Err(UnifiedError::Overflow);
        },
    };
    if !(total_duration > 0) {
        return Err(UnifiedError::InvalidTime);
    }
    let elapsed = match now.checked_sub(start) {
        Some(e) => e,
        None => {
            return Err(UnifiedError::Overflow);
        },
    };
    if now >= end {
        return Ok(total);
    }
    proof {
        lemma_mul_upper_bound(total as int, u64::MAX as int, elapsed as int, i64::MAX as int);
        lemma_vested_in_range(total, start, end, now);
    }
    let vested = (total as u128) * (elapsed as u128) / (total_duration as u128);
    Ok(vested as u64)
}

/// Executes one vesting claim: pays the owner everything vested but not
/// yet released, and advances `released_amount` to the vested figure. The
/// returned amount is what the host must transfer from the vesting vault
/// to the owner, atomically with persisting the record.
pub fn claim_vested(vesting: &mut VestingAccount, caller: AccountId, now: i64) -> (r: Result<
    u64,
    UnifiedError,
>)
    ensures
        old(vesting).wf() ==> final(vesting).wf(),
        final(vesting).released_amount >= old(vesting).released_amount,
        match r {
            Ok(c) => {
                &&& spec_claim_err(*old(vesting), caller, now) is None
                &&& c == spec_claimable(*old(vesting), now)
                &&& c > 0
                &&& *final(vesting) == (VestingAccount {
                    released_amount: (old(vesting).released_amount + c) as u64,
                    ..*old(vesting)
                })
                &&& final(vesting).released_amount == spec_vested_value(
                    old(vesting).total_amount,
                    old(vesting).start_ts,
                    old(vesting).end_ts,
                    now,
                )
            },
            Err(e) => {
                &&& spec_claim_err(*old(vesting), caller, now) == Some(e)
                &&& *final(vesting) == *old(vesting)
            },
        },
{
    if caller != vesting.owner {
        return Err(UnifiedError::Unauthorized);
    }
    let vested = match vested_amount(vesting.total_amount, vesting.start_ts, vesting.end_ts, now) {
        Ok(v) => v,
        Err(e) => {
            return Err(e);
        },
    };
    let claimable = if vested >= vesting.released_amount {
        vested - vesting.released_amount
    } else {
        0
    };
    if claimable == 0 {
        return Err(UnifiedError::NothingToClaim);
    }
    vesting.released_amount = vesting.released_amount + claimable;
    Ok(claimable)
}

} // verus!
