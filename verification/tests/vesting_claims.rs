use marscorp_exchange::errors::UnifiedError;
use marscorp_exchange::state::VestingAccount;
use marscorp_exchange::vesting::{claim_vested, vested_amount};

const TOTAL: u64 = 200_000_000_000_000;
const START: i64 = 1_000_000;
const END: i64 = START + 365 * 24 * 60 * 60;

fn account() -> VestingAccount {
    VestingAccount {
        owner: 5,
        mint: 2,
        total_amount: TOTAL,
        released_amount: 0,
        start_ts: START,
        end_ts: END,
    }
}

#[test]
fn nothing_is_vested_at_the_start() {
    assert_eq!(vested_amount(TOTAL, START, END, START).unwrap(), 0);
}

#[test]
fn everything_is_vested_at_and_after_the_end() {
    assert_eq!(vested_amount(TOTAL, START, END, END).unwrap(), TOTAL);
    assert_eq!(vested_amount(TOTAL, START, END, END + 123_456).unwrap(), TOTAL);
}

#[test]
fn vesting_is_linear_with_floor_rounding() {
    let hundred_days = START + 100 * 24 * 60 * 60;
    assert_eq!(vested_amount(TOTAL, START, END, hundred_days).unwrap(), 54_794_520_547_945);
}

#[test]
fn vested_amount_is_monotone_over_sample_points() {
    let mut previous = 0;
    for days in [0i64, 1, 10, 100, 200, 364, 365, 400] {
        let now = START + days * 24 * 60 * 60;
        let v = vested_amount(TOTAL, START, END, now).unwrap();
        assert!(v >= previous);
        assert!(v <= TOTAL);
        previous = v;
    }
}

#[test]
fn clock_before_start_is_invalid() {
    let err = vested_amount(TOTAL, START, END, START - 1).unwrap_err();
    assert_eq!(err, UnifiedError::InvalidTime);
}

#[test]
fn empty_or_inverted_schedule_is_invalid() {
    let err = vested_amount(TOTAL, START, START, START).unwrap_err();
    assert_eq!(err, UnifiedError::InvalidTime);
    let err = vested_amount(TOTAL, START, START - 5, START).unwrap_err();
    assert_eq!(err, UnifiedError::InvalidTime);
}

#[test]
fn unrepresentable_schedule_length_overflows() {
    let err = vested_amount(TOTAL, i64::MIN, i64::MAX, 0).unwrap_err();
    assert_eq!(err, UnifiedError::Overflow);
}

#[test]
fn claim_pays_the_vested_remainder_once() {
    let mut vesting = account();
    let hundred_days = START + 100 * 24 * 60 * 60;
    let paid = claim_vested(&mut vesting, 5, hundred_days).unwrap();
    assert_eq!(paid, 54_794_520_547_945);
    assert_eq!(vesting.released_amount, 54_794_520_547_945);
    // a second claim within the same instant finds nothing to claim
    let snapshot = vesting;
    let err = claim_vested(&mut vesting, 5, hundred_days).unwrap_err();
    assert_eq!(err, UnifiedError::NothingToClaim);
    assert_eq!(vesting, snapshot);
    // later the schedule releases more
    let paid = claim_vested(&mut vesting, 5, END).unwrap();
    assert_eq!(paid, TOTAL - 54_794_520_547_945);
    assert_eq!(vesting.released_amount, TOTAL);
}

#[test]
fn claim_by_anyone_but_the_owner_is_unauthorized() {
    let mut vesting = account();
    let snapshot = vesting;
    let err = claim_vested(&mut vesting, 6, END).unwrap_err();
    assert_eq!(err, UnifiedError::Unauthorized);
    assert_eq!(vesting, snapshot);
}

#[test]
fn claim_at_the_start_finds_nothing() {
    let mut vesting = account();
    let err = claim_vested(&mut vesting, 5, START).unwrap_err();
    assert_eq!(err, UnifiedError::NothingToClaim);
}

#[test]
fn claim_with_released_ahead_of_vested_finds_nothing() {
    // rounding can momentarily leave released_amount ahead; that is
    // treated as nothing to claim, not as a fault
    let mut vesting = account();
    vesting.released_amount = TOTAL;
    let err = claim_vested(&mut vesting, 5, START + 24 * 60 * 60).unwrap_err();
    assert_eq!(err, UnifiedError::NothingToClaim);
}
