//! Creation of the platform configuration and of a new asset's records.
//!
//! Launching an asset creates its bonding curve and its vesting record in
//! one step; the host then mints [`TRADING_SUPPLY`] tokens to the curve's
//! trading vault and [`VESTING_SUPPLY`] tokens to the vesting vault, atomically
//! with persisting the two records.

use vstd::prelude::*;
use crate::errors::UnifiedError;
use crate::events::BusinessLaunched;
use crate::state::{
    AccountId, BondingCurve, GlobalConfig, Sector, VestingAccount, INITIAL_VIRTUAL_SOL,
    INITIAL_VIRTUAL_TOKENS, VESTING_DURATION_SECS, VESTING_SUPPLY,
};

verus! {

/// Byte length of a name or symbol as validation sees it.
pub open spec fn spec_text_bytes(s: Seq<char>) -> nat {
    vstd::utf8::encode_utf8(s).len()
}

/// An asset name is between 1 and 49 bytes.
pub open spec fn spec_name_ok(name: Seq<char>) -> bool {
    0 < spec_text_bytes(name) < 50
}

/// An asset symbol is between 1 and 9 bytes.
pub open spec fn spec_symbol_ok(symbol: Seq<char>) -> bool {
    0 < spec_text_bytes(symbol) < 10
}

/// The error a launch reports, if any: input validation first, then the
/// vesting schedule's end time must be representable.
pub open spec fn spec_launch_err(name: Seq<char>, symbol: Seq<char>, now: i64) -> Option<
    UnifiedError,
> {
    if !spec_name_ok(name) {
        Some(UnifiedError::InvalidInput)
    } else if !spec_symbol_ok(symbol) {
        Some(UnifiedError::InvalidInput)
    } else if now + VESTING_DURATION_SECS > i64::MAX {
        Some(UnifiedError::Overflow)
    } else {
        None
    }
}

/// Creates the single platform configuration record.
pub fn initialize_config(
    admin: AccountId,
    platform_fee_bps: u16,
    yield_fee_bps: u16,
    yield_distributor: AccountId,
) -> (cfg: GlobalConfig)
    ensures
        cfg == (GlobalConfig { admin, platform_fee_bps, yield_fee_bps, yield_distributor }),
{
    GlobalConfig { admin, platform_fee_bps, yield_fee_bps, yield_distributor }
}

/// Launches a new asset: validates the name and symbol, and builds the
/// bonding curve (initial virtual reserves, nothing real yet) and the
/// vesting record (the creator's allocation over [`VESTING_DURATION_SECS`])
/// together with the launch signal. `now` is the ledger clock, read once
/// for the whole invocation.
pub fn create_business(
    creator: AccountId,
    mint: AccountId,
    name: String,
    symbol: String,
    sector: Sector,
    now: i64,
) -> (r: Result<(BondingCurve, VestingAccount, BusinessLaunched), UnifiedError>)
    ensures
        match r {
            Ok(out) => {
                &&& spec_launch_err(name@, symbol@, now) is None
                &&& out.0 == (BondingCurve {
                    creator,
                    mint,
                    sector,
                    virtual_sol: INITIAL_VIRTUAL_SOL,
                    virtual_tokens: INITIAL_VIRTUAL_TOKENS,
                    real_sol: 0,
                    graduated: false,
                    takeover_active: false,
                    takeover_initiator: 0,
                    sabotage_penalty_bps: 0,
                    sabotage_end_ts: 0,
                })
                &&& out.1 == (VestingAccount {
                    owner: creator,
                    mint,
                    total_amount: VESTING_SUPPLY,
                    released_amount: 0,
                    start_ts: now,
                    end_ts: (now + VESTING_DURATION_SECS) as i64,
                })
                &&& out.0.wf()
                &&& out.1.wf()
                &&& out.2 == (BusinessLaunched {
                    mint,
                    name,
                    symbol,
                    creator,
                    timestamp: now,
                })
            },
            Err(e) => spec_launch_err(name@, symbol@, now) == Some(e),
        },
{
    let name_len = name.as_str().as_bytes().len();
    if !(name_len > 0 && name_len < 50) {
        return Err(UnifiedError::InvalidInput);
    }
    let symbol_len = symbol.as_str().as_bytes().len();
    if !(symbol_len > 0 && symbol_len < 10) {
        return Err(UnifiedError::InvalidInput);
    }
    let end_ts = match now.checked_add(VESTING_DURATION_SECS) {
        Some(t) => t,
        None => {
            return Err(UnifiedError::Overflow);
        },
    };
    let curve = BondingCurve {
        creator,
        mint,
        sector,
        virtual_sol: INITIAL_VIRTUAL_SOL,
        virtual_tokens: INITIAL_VIRTUAL_TOKENS,
        real_sol: 0,
        graduated: false,
        takeover_active: false,
        takeover_initiator: 0,
        sabotage_penalty_bps: 0,
        sabotage_end_ts: 0,
    };
    let vesting = VestingAccount {
        owner: creator,
        mint,
        total_amount: VESTING_SUPPLY,
        released_amount: 0,
        start_ts: now,
        end_ts,
    };
    let signal = BusinessLaunched { mint, name, symbol, creator, timestamp: now };
    Ok((curve, vesting, signal))
}

} // verus!
