//! The prediction-market pool accumulator: a simple wager ledger with an
//! external resolution authority.

use vstd::prelude::*;
use crate::errors::UnifiedError;
use crate::launch::spec_text_bytes;
use crate::state::{AccountId, Market};

verus! {

/// A market title is at most 100 bytes.
pub open spec fn spec_title_ok(title: Seq<char>) -> bool {
    spec_text_bytes(title) <= 100
}

/// Creates a new, unresolved market with empty pools, owned by the
/// resolution authority that creates it.
pub fn create_market(id: u64, title: String, end_timestamp: i64, oracle: AccountId) -> (r: Result<
    Market,
    UnifiedError,
>)
    ensures
        match r {
            Ok(m) => {
                &&& spec_title_ok(title@)
                &&& m == (Market {
                    id,
                    title,
                    end_timestamp,
                    resolved: false,
                    result: None::<bool>,
                    total_pool: 0,
                    yes_pool: 0,
                    no_pool: 0,
                    oracle,
                })
            },
            Err(e) => !spec_title_ok(title@) && e == UnifiedError::InvalidInput,
        },
{
    if title.as_str().as_bytes().len() > 100 {
        return Err(UnifiedError::InvalidInput);
    }
    Ok(
        Market {
            id,
            title,
            end_timestamp,
            resolved: false,
            result: None,
            total_pool: 0,
            yes_pool: 0,
            no_pool: 0,
            oracle,
        },
    )
}

/// Marks the market resolved with the given outcome. Only the market's
/// resolution authority may call this; the host checks that identity
/// before invoking the transition.
pub fn resolve_market(market: &mut Market, outcome: bool) -> (r: Result<(), UnifiedError>)
    ensures
        match r {
            Ok(_) => {
                &&& !old(market).resolved
                &&& *final(market) == (Market {
                    resolved: true,
                    result: Some(outcome),
                    ..*old(market)
                })
            },
            Err(e) => {
                &&& old(market).resolved
                &&& e == UnifiedError::AlreadyResolved
                &&& *final(market) == *old(market)
            },
        },
{
    if market.resolved {
        return Err(UnifiedError::AlreadyResolved);
    }
    market.resolved = true;
    market.result = Some(outcome);
    Ok(())
}

/// The error a bet reports, if any: no bets on a resolved market, and the
/// pools must not overflow.
pub open spec fn spec_bet_err(m: Market, outcome: bool, amount: u64) -> Option<UnifiedError> {
    if m.resolved {
        Some(UnifiedError::AlreadyResolved)
    } else if m.total_pool + amount > u64::MAX {
        Some(UnifiedError::Overflow)
    } else if outcome && m.yes_pool + amount > u64::MAX {
        Some(UnifiedError::Overflow)
    } else if !outcome && m.no_pool + amount > u64::MAX {
        Some(UnifiedError::Overflow)
    } else {
        None
    }
}

/// Records a wager of `amount` on the given outcome. The host transfers
/// the staked value into the market's holding atomically with persisting
/// the updated pools.
pub fn place_bet(market: &mut Market, outcome: bool, amount: u64) -> (r: Result<(), UnifiedError>)
    ensures
        match r {
            Ok(_) => {
                &&& spec_bet_err(*old(market), outcome, amount) is None
                &&& *final(market) == (Market {
                    total_pool: (old(market).total_pool + amount) as u64,
                    yes_pool: (if outcome {
                        old(market).yes_pool + amount
                    } else {
                        old(market).yes_pool as int
                    }) as u64,
                    no_pool: (if outcome {
                        old(market).no_pool as int
                    } else {
                        old(market).no_pool + amount
                    }) as u64,
                    ..*old(market)
                })
            },
            Err(e) => {
                &&& spec_bet_err(*old(market), outcome, amount) == Some(e)
                &&& *final(market) == *old(market)
            },
        },
{
    if market.resolved {
        return Err(UnifiedError::AlreadyResolved);
    }
    let new_total = match market.total_pool.checked_add(amount) {
        Some(v) => v,
        None => {
            return Err(UnifiedError::Overflow);
        },
    };
    if outcome {
        let new_yes = match market.yes_pool.checked_add(amount) {
            Some(v) => v,
            None => {
                return Err(UnifiedError::Overflow);
            },
        };
        market.total_pool = new_total;
        market.yes_pool = new_yes;
    } else {
        let new_no = match market.no_pool.checked_add(amount) {
            Some(v) => v,
            None => {
                return Err(UnifiedError::Overflow);
            },
        };
        market.total_pool = new_total;
        market.no_pool = new_no;
    }
    Ok(())
}

} // verus!
