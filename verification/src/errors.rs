//! The error taxonomy shared by every operation of the engine.

use vstd::prelude::*;

verus! {

/// Every failure an engine operation can report. Each operation's contract
/// states exactly which inputs produce which variant; on any error the
/// operation leaves every record unchanged and no transfer is requested.
#[derive(Clone, Copy, Debug, PartialEq, Eq, Structural)]
pub enum UnifiedError {
    /// A slippage bound was not met by the computed output.
    SlippageExceeded,
    /// The curve has graduated and no longer trades.
    AlreadyGraduated,
    /// The caller is not the identity the operation demands.
    Unauthorized,
    /// No vested tokens are currently claimable.
    NothingToClaim,
    /// A checked addition, subtraction, multiplication, division, or
    /// narrowing conversion could not represent its result.
    Overflow,
    /// An input parameter failed validation.
    InvalidInput,
    /// A timestamp is outside the range the operation accepts.
    InvalidTime,
    /// The caller's token balance is below the takeover threshold.
    InsufficientStakeForTakeover,
    /// A takeover is already active on the curve.
    TakeoverInProgress,
    /// The prediction market was already resolved.
    AlreadyResolved,
}

} // verus!
