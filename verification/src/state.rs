//! The persisted records of the engine and their invariants, together with
//! the economic constants every operation is defined over.

use vstd::prelude::*;

verus! {

/// An account identity. The engine never inspects an identity beyond
/// comparing it for equality, so identities are carried as plain numbers;
/// the host maps them to its own addressing scheme.
pub type AccountId = u64;

/// Initial virtual value-currency reserve of a freshly launched curve.
pub const INITIAL_VIRTUAL_SOL: u128 = 30_000_000_000;
/// Initial virtual token reserve of a freshly launched curve.
pub const INITIAL_VIRTUAL_TOKENS: u128 = 1_073_000_000_000_000;
/// Tokens minted to the curve's trading vault at launch (80% of issuance).
pub const TRADING_SUPPLY: u64 = 800_000_000_000_000;
/// Tokens minted to the vesting vault at launch (20% of issuance).
pub const VESTING_SUPPLY: u64 = 200_000_000_000_000;
/// Length of the linear vesting schedule.
pub const VESTING_DURATION_SECS: i64 = 365 * 24 * 60 * 60;
/// Real backing value above which a curve graduates and stops trading.
pub const GRADUATION_THRESHOLD: u64 = 85_000_000_000;
/// Denominator of all basis-point rates.
pub const BPS_DENOMINATOR: u64 = 10_000;
/// Fixed reference circulating supply used for takeover eligibility. This is
/// deliberately a constant (80% of total issuance) and not the live supply.
pub const TAKEOVER_REFERENCE_SUPPLY: u64 = 800_000_000_000_000;
/// Stake required to initiate a takeover: 5% of the reference supply.
pub const TAKEOVER_REQUIRED_STAKE: u64 = 800_000_000_000_000 / 20;
/// Penalty rate installed by every sabotage invocation.
pub const SABOTAGE_PENALTY_BPS: u16 = 100;
/// Length of the sabotage penalty window.
pub const SABOTAGE_WINDOW_SECS: i64 = 24 * 60 * 60;
/// Fixed value cost of one sabotage invocation.
pub const SABOTAGE_COST: u64 = 2_000_000_000;
/// Share of the sabotage cost paid into the curve's own holding.
pub const SABOTAGE_TO_CURVE: u64 = 2_000_000_000 / 2;
/// Share of the sabotage cost paid to the admin treasury.
pub const SABOTAGE_TO_ADMIN: u64 = 2_000_000_000 * 3 / 10;
/// Share of the sabotage cost paid to the yield distributor.
pub const SABOTAGE_TO_YIELD: u64 = 2_000_000_000 - 2_000_000_000 / 2 - 2_000_000_000 * 3 / 10;

/// Informational sector tag of a launched asset.
#[derive(Clone, Copy, Debug, PartialEq, Eq, Structural)]
pub enum Sector {
    Tech,
    Mining,
    Energy,
    Terraforming,
}

/// The single platform-wide configuration record. Immutable after creation.
///
/// The fee rates are stored as given; they are not forced below 100%, so the
/// swap path re-checks that fees never exceed the amount they are taken from.
#[derive(Clone, Copy, Debug, PartialEq, Eq, Structural)]
pub struct GlobalConfig {
    pub admin: AccountId,
    pub platform_fee_bps: u16,
    pub yield_fee_bps: u16,
    pub yield_distributor: AccountId,
}

/// One bonding curve per launched asset.
#[derive(Clone, Copy, Debug, PartialEq, Eq, Structural)]
pub struct BondingCurve {
    pub creator: AccountId,
    pub mint: AccountId,
    pub sector: Sector,
    /// Virtual value-currency reserve used for pricing.
    pub virtual_sol: u128,
    /// Virtual token reserve used for pricing.
    pub virtual_tokens: u128,
    /// Actual value currency backing the curve.
    pub real_sol: u64,
    /// Terminal flag: once set, the curve never trades again.
    pub graduated: bool,
    pub takeover_active: bool,
    /// Identity that initiated the active takeover; 0 when none is active.
    pub takeover_initiator: AccountId,
    /// Output haircut in basis points while the sabotage window is open.
    pub sabotage_penalty_bps: u16,
    /// End of the sabotage window; 0 when no window was ever opened.
    pub sabotage_end_ts: i64,
}

impl BondingCurve {
    /// Well-formedness of a curve record. Launch establishes it and every
    /// engine operation preserves it: the penalty rate never exceeds 100%,
    /// and a curve whose backing value passed the graduation threshold has
    /// its terminal flag set, so a swap can never run on such a curve.
    pub open spec fn wf(self) -> bool {
        &&& self.sabotage_penalty_bps <= BPS_DENOMINATOR
        &&& self.real_sol > GRADUATION_THRESHOLD ==> self.graduated
    }
}

/// One vesting schedule per launched asset, held by one beneficiary.
#[derive(Clone, Copy, Debug, PartialEq, Eq, Structural)]
pub struct VestingAccount {
    pub owner: AccountId,
    pub mint: AccountId,
    /// Allocation fixed at creation.
    pub total_amount: u64,
    /// Cumulative amount already released; monotone non-decreasing.
    pub released_amount: u64,
    pub start_ts: i64,
    pub end_ts: i64,
}

impl VestingAccount {
    /// Well-formedness of a vesting record: the schedule has positive
    /// length and never releases more than the allocation.
    pub open spec fn wf(self) -> bool {
        &&& self.start_ts < self.end_ts
        &&& self.released_amount <= self.total_amount
    }
}

/// One prediction-market pool accumulator.
#[derive(Clone, Debug, PartialEq, Eq)]
pub struct Market {
    pub id: u64,
    pub title: String,
    pub end_timestamp: i64,
    pub resolved: bool,
    pub result: Option<bool>,
    pub total_pool: u64,
    pub yes_pool: u64,
    pub no_pool: u64,
    pub oracle: AccountId,
}

} // verus!
