use vstd::prelude::*;
use std::time::{Duration, SystemTime, SystemTimeError};

verus! {

/// Why an operation on a field or a farm was rejected. A rejected operation
/// leaves the state it was applied to unchanged.
#[derive(Clone, Copy, Debug, PartialEq, Eq, Structural)]
pub enum GameError {
    InsufficientFunds,
    MaxLevelReached,
    OutOfBounds,
    AlreadyPlanted,
    AlreadyFarmed,
    NotYetReady,
    TooManyFields,
}

impl GameError {
    /// The characters of the error's message.
    pub open spec fn message_text(self) -> Seq<char> {
        match self {
            GameError::InsufficientFunds => "Insufficient funds"@,
            GameError::MaxLevelReached => "Max level reached"@,
            GameError::OutOfBounds => "Out of bounds"@,
            GameError::AlreadyPlanted => "Already planted"@,
            GameError::AlreadyFarmed => "Already farmed"@,
            GameError::NotYetReady => "Not yet ready"@,
            GameError::TooManyFields => "Too many fields"@,
        }
    }

    /// The message shown to the player for this error.
    pub fn message(&self) -> (text: &'static str)
        ensures
            text@ == self.message_text(),
    {
        match self {
            GameError::InsufficientFunds => "Insufficient funds",
            GameError::MaxLevelReached => "Max level reached",
            GameError::OutOfBounds => "Out of bounds",
            GameError::AlreadyPlanted => "Already planted",
            GameError::AlreadyFarmed => "Already farmed",
            GameError::NotYetReady => "Not yet ready",
            GameError::TooManyFields => "Too many fields",
        }
    }
}

/// Milliseconds in `seconds` seconds.
pub open spec fn millis_of_seconds(seconds: int) -> int {
    seconds * 1000
}

/// Converts a number of seconds to milliseconds.
pub fn seconds_to_millis(seconds: u128) -> (millis: u128)
    requires
        millis_of_seconds(seconds as int) <= u128::MAX,
    ensures
        millis == millis_of_seconds(seconds as int),
{
    seconds * 1000
}

/// A reading of the system clock. Nothing inside it is visible to proofs.
#[verifier::external_type_specification]
#[verifier::external_body]
pub struct ExSystemTime(SystemTime);

/// The failure of a clock reading that lies before the instant it is measured
/// from.
#[verifier::external_type_specification]
#[verifier::external_body]
pub struct ExSystemTimeError(SystemTimeError);

/// `SystemTime::now`: the current reading of the system clock. Nothing is
/// claimed of it: two readings may differ in either direction.
pub assume_specification[ SystemTime::now ]() -> (reading: SystemTime)
;

/// `SystemTime::duration_since`, measured from `std::time::UNIX_EPOCH`: the
/// time elapsed since the epoch, or the error std reports for a reading that
/// lies before it. Nothing is claimed of which one comes back.
#[verifier::external_body]
fn since_unix_epoch(reading: &SystemTime) -> (elapsed: Result<Duration, SystemTimeError>) {
    reading.duration_since(std::time::UNIX_EPOCH)
}

/// The whole milliseconds that a duration holds: what `Duration::as_millis`
/// returns for it.
pub uninterp spec fn whole_millis(elapsed: Duration) -> u128;

/// `Duration::as_millis`: the whole milliseconds of a duration. The claim is
/// only that the number depends on the duration alone; a `Duration` is opaque
/// here, so the number itself is not stated.
pub assume_specification[ Duration::as_millis ](elapsed: &Duration) -> (millis: u128)
    ensures
        millis == whole_millis(*elapsed),
;

/// What a clock's distance from the epoch comes to in milliseconds: the whole
/// milliseconds of the time elapsed, and 0 for a clock that reads a time
/// before the epoch.
pub fn millis_since_epoch(offset: Result<Duration, SystemTimeError>) -> (millis: u128)
    ensures
        millis == match offset {
            Ok(elapsed) => whole_millis(elapsed),
            Err(_) => 0,
        },
{
    match offset {
        Ok(since_the_epoch) => since_the_epoch.as_millis(),
        Err(_) => 0,
    }
}

/// Milliseconds since the UNIX epoch, by the system clock; 0 where the clock
/// reads a time before the epoch. Nothing is promised of the number: it is
/// what the machine's clock shows, and successive readings need not increase.
pub fn timestamp() -> u128 {
    let now: SystemTime = SystemTime::now();
    millis_since_epoch(since_unix_epoch(&now))
}

} // verus!
