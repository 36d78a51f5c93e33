//! Signals the engine hands back to the host for emission. The engine only
//! fills their fields; formatting and delivery are the host's concern.

use vstd::prelude::*;
use crate::state::AccountId;

verus! {

/// A new asset was launched: curve and vesting record created, supply minted.
#[derive(Clone, Debug, PartialEq, Eq)]
pub struct BusinessLaunched {
    pub mint: AccountId,
    pub name: String,
    pub symbol: String,
    pub creator: AccountId,
    pub timestamp: i64,
}

/// Reserve snapshot after a swap.
#[derive(Clone, Copy, Debug, PartialEq, Eq, Structural)]
pub struct PriceUpdated {
    pub mint: AccountId,
    pub sol_reserves: u64,
    pub token_reserves: u64,
    pub timestamp: i64,
}

/// Terminal readiness signal: the curve's backing value crossed the
/// graduation threshold during this swap.
#[derive(Clone, Copy, Debug, PartialEq, Eq, Structural)]
pub struct GraduationReady {
    pub mint: AccountId,
    pub sol_amount: u64,
    pub token_amount: u64,
    pub timestamp: i64,
}

/// A takeover was activated on the curve.
#[derive(Clone, Copy, Debug, PartialEq, Eq, Structural)]
pub struct TakeoverInitiated {
    pub mint: AccountId,
    pub initiator: AccountId,
    pub stake: u64,
    pub timestamp: i64,
}

/// A sabotage window was opened or refreshed on the curve.
#[derive(Clone, Copy, Debug, PartialEq, Eq, Structural)]
pub struct SabotageEvent {
    pub mint: AccountId,
    pub perpetrator: AccountId,
    pub penalty_bps: u16,
    pub timestamp: i64,
}

/// A vesting record was reassigned to a new owner by the admin.
#[derive(Clone, Copy, Debug, PartialEq, Eq, Structural)]
pub struct AssetsSeized {
    pub mint: AccountId,
    pub old_owner: AccountId,
    pub new_owner: AccountId,
    pub amount: u64,
}

} // verus!
