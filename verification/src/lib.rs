//! Economic engine for a token launch platform.
//!
//! Each tradable asset is backed by a constant-product bonding curve that
//! converts a native value currency into a fungible token and back, subject
//! to platform and yield fees, a time-limited sabotage penalty, a linear
//! vesting release for creator-held supply, and a takeover flag consumed by
//! surrounding game logic.
//!
//! The engine is pure: every operation reads the relevant records, computes
//! new balances and transfer amounts, and either mutates the records and
//! reports the transfers the host ledger must execute atomically, or fails
//! with an error and leaves every record untouched. The host ledger, account
//! addressing, and the transfer primitives themselves live outside of this
//! crate.

pub mod curve;
pub mod errors;
pub mod events;
pub mod game;
pub mod launch;
pub mod market;
pub mod state;
pub mod vesting;
