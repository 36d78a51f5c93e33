//! The temporal game modifiers: takeover initiation, the sabotage penalty
//! window, and the admin seizure of a vesting record.

use vstd::prelude::*;
use crate::errors::UnifiedError;
use crate::events::{AssetsSeized, SabotageEvent, TakeoverInitiated};
use crate::state::{
    AccountId, BondingCurve, GlobalConfig, VestingAccount, SABOTAGE_PENALTY_BPS,
    SABOTAGE_WINDOW_SECS, TAKEOVER_REQUIRED_STAKE,
};

verus! {

/// The error a takeover attempt reports, if any: no second takeover while
/// one is active, no takeover of a graduated curve, and the caller must
/// hold at least [`TAKEOVER_REQUIRED_STAKE`] tokens of the asset.
pub open spec fn spec_takeover_err(c: BondingCurve, trader_balance: u64) -> Option<UnifiedError> {
    if c.takeover_active {
        Some(UnifiedError::TakeoverInProgress)
    } else if c.graduated {
        Some(UnifiedError::AlreadyGraduated)
    } else if trader_balance < TAKEOVER_REQUIRED_STAKE {
        Some(UnifiedError::InsufficientStakeForTakeover)
    } else {
        None
    }
}

/// Activates a takeover on the curve. `trader_balance` is the caller's
/// balance in the asset's token, read by the host from the caller's token
/// account; eligibility compares it against a fixed reference supply, not
/// the live one. Resolving or reverting the flag is an external concern.
pub fn initiate_takeover(
    curve: &mut BondingCurve,
    trader: AccountId,
    trader_balance: u64,
    now: i64,
) -> (r: Result<TakeoverInitiated, UnifiedError>)
    ensures
        old(curve).wf() ==> final(curve).wf(),
        match r {
            Ok(ev) => {
                &&& spec_takeover_err(*old(curve), trader_balance) is None
                &&& *final(curve) == (BondingCurve {
                    takeover_active: true,
                    takeover_initiator: trader,
                    ..*old(curve)
                })
                &&& ev == (TakeoverInitiated {
                    mint: old(curve).mint,
                    initiator: trader,
                    stake: trader_balance,
                    timestamp: now,
                })
            },
            Err(e) => {
                &&& spec_takeover_err(*old(curve), trader_balance) == Some(e)
                &&& *final(curve) == *old(curve)
            },
        },
{
    if curve.takeover_active {
        return Err(UnifiedError::TakeoverInProgress);
    }
    if curve.graduated {
        return Err(UnifiedError::AlreadyGraduated);
    }
    if trader_balance < TAKEOVER_REQUIRED_STAKE {
        return Err(UnifiedError::InsufficientStakeForTakeover);
    }
    curve.takeover_active = true;
    curve.takeover_initiator = trader;
    Ok(
        TakeoverInitiated {
            mint: curve.mint,
            initiator: trader,
            stake: trader_balance,
            timestamp: now,
        },
    )
}

/// The curve record after a sabotage at `now`: the penalty rate is set to
/// [`SABOTAGE_PENALTY_BPS`] unconditionally and the window end to `now`
/// plus [`SABOTAGE_WINDOW_SECS`]; nothing else changes.
pub open spec fn spec_sabotage_post(c: BondingCurve, now: i64) -> BondingCurve {
    BondingCurve {
        sabotage_penalty_bps: SABOTAGE_PENALTY_BPS,
        sabotage_end_ts: (now + SABOTAGE_WINDOW_SECS) as i64,
        ..c
    }
}

/// Re-invoking sabotage before a prior window expires does not change the
/// penalty rate, only the window's end: repetition refreshes, it never
/// compounds.
pub proof fn lemma_sabotage_refresh(c: BondingCurve, t1: i64, t2: i64)
    requires
        t1 + SABOTAGE_WINDOW_SECS <= i64::MAX,
        t2 + SABOTAGE_WINDOW_SECS <= i64::MAX,
        t2 < spec_sabotage_post(c, t1).sabotage_end_ts,
    ensures
        spec_sabotage_post(spec_sabotage_post(c, t1), t2).sabotage_penalty_bps
            == spec_sabotage_post(c, t1).sabotage_penalty_bps,
        spec_sabotage_post(spec_sabotage_post(c, t1), t2) == (BondingCurve {
            sabotage_end_ts: (t2 + SABOTAGE_WINDOW_SECS) as i64,
            ..spec_sabotage_post(c, t1)
        }),
{
}

/// Opens or refreshes the sabotage penalty window on the curve. The caller
/// pays the fixed cost [`SABOTAGE_COST`](crate::state::SABOTAGE_COST),
/// which the host splits into
/// [`SABOTAGE_TO_CURVE`](crate::state::SABOTAGE_TO_CURVE),
/// [`SABOTAGE_TO_ADMIN`](crate::state::SABOTAGE_TO_ADMIN) and
/// [`SABOTAGE_TO_YIELD`](crate::state::SABOTAGE_TO_YIELD), atomically with
/// persisting the record.
pub fn sabotage(curve: &mut BondingCurve, perpetrator: AccountId, now: i64) -> (ev: SabotageEvent)
    requires
        now + SABOTAGE_WINDOW_SECS <= i64::MAX,
    ensures
        *final(curve) == spec_sabotage_post(*old(curve), now),
        old(curve).wf() ==> final(curve).wf(),
        ev == (SabotageEvent {
            mint: old(curve).mint,
            perpetrator,
            penalty_bps: SABOTAGE_PENALTY_BPS,
            timestamp: now,
        }),
{
    curve.sabotage_penalty_bps = SABOTAGE_PENALTY_BPS;
    curve.sabotage_end_ts = now + SABOTAGE_WINDOW_SECS;
    SabotageEvent {
        mint: curve.mint,
        perpetrator,
        penalty_bps: SABOTAGE_PENALTY_BPS,
        timestamp: now,
    }
}

/// The error a seizure reports, if any: only the admin identity may seize.
pub open spec fn spec_seize_err(cfg: GlobalConfig, caller: AccountId) -> Option<UnifiedError> {
    if caller != cfg.admin {
        Some(UnifiedError::Unauthorized)
    } else {
        None
    }
}

/// Reassigns a vesting record to a new owner. This trusts the admin
/// identity unconditionally; it does not itself verify that a takeover
/// resolved in the new owner's favor.
pub fn seize_locked_tokens(
    config: &GlobalConfig,
    vesting: &mut VestingAccount,
    caller: AccountId,
    new_owner: AccountId,
) -> (r: Result<AssetsSeized, UnifiedError>)
    ensures
        old(vesting).wf() ==> final(vesting).wf(),
        match r {
            Ok(ev) => {
                &&& spec_seize_err(*config, caller) is None
                &&& *final(vesting) == (VestingAccount { owner: new_owner, ..*old(vesting) })
                &&& ev == (AssetsSeized {
                    mint: old(vesting).mint,
                    old_owner: old(vesting).owner,
                    new_owner,
                    amount: old(vesting).total_amount,
                })
            },
            Err(e) => {
                &&& spec_seize_err(*config, caller) == Some(e)
                &&& *final(vesting) == *old(vesting)
            },
        },
{
    if caller != config.admin {
        return Err(UnifiedError::Unauthorized);
    }
    let old_owner = vesting.owner;
    vesting.owner = new_owner;
    Ok(
        AssetsSeized {
            mint: vesting.mint,
            old_owner,
            new_owner,
            amount: vesting.total_amount,
        },
    )
}

} // verus!
