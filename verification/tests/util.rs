use std::time::{Duration, UNIX_EPOCH};

use cli_farm::util::{millis_since_epoch, seconds_to_millis, timestamp, GameError};

#[test]
fn seconds_to_millis_multiplies_by_a_thousand() {
    assert_eq!(seconds_to_millis(0), 0);
    assert_eq!(seconds_to_millis(1), 1_000);
    assert_eq!(seconds_to_millis(100), 100_000);
    assert_eq!(seconds_to_millis(u128::MAX / 1000), u128::MAX - u128::MAX % 1000);
}

#[test]
fn timestamp_counts_milliseconds_since_the_epoch() {
    let first = timestamp();
    // Later than the first of January 2020, and earlier than the year 3000.
    assert!(first > 1_577_836_800_000);
    assert!(first < 32_503_680_000_000);
    let system = std::time::SystemTime::now()
        .duration_since(std::time::UNIX_EPOCH)
        .unwrap()
        .as_millis();
    assert!(system >= first);
    assert!(system - first < 60_000);
}

#[test]
fn error_messages() {
    assert_eq!(GameError::InsufficientFunds.message(), "Insufficient funds");
    assert_eq!(GameError::MaxLevelReached.message(), "Max level reached");
    assert_eq!(GameError::OutOfBounds.message(), "Out of bounds");
    assert_eq!(GameError::AlreadyPlanted.message(), "Already planted");
    assert_eq!(GameError::AlreadyFarmed.message(), "Already farmed");
    assert_eq!(GameError::NotYetReady.message(), "Not yet ready");
    assert_eq!(GameError::TooManyFields.message(), "Too many fields");
}

#[test]
fn millis_since_epoch_counts_whole_milliseconds() {
    assert_eq!(millis_since_epoch(Ok(Duration::from_millis(1_500))), 1_500);
    assert_eq!(millis_since_epoch(Ok(Duration::new(2, 999_999_999))), 2_999);
    assert_eq!(millis_since_epoch(Ok(Duration::from_secs(100))), 100_000);
    assert_eq!(millis_since_epoch(Ok(Duration::ZERO)), 0);
}

#[test]
fn millis_since_epoch_is_zero_before_the_epoch() {
    let later = UNIX_EPOCH + Duration::from_secs(5);
    let before = UNIX_EPOCH.duration_since(later);
    assert!(before.is_err());
    assert_eq!(millis_since_epoch(before), 0);
}
