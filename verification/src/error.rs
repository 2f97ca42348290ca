use vstd::prelude::*;

verus! {

/// Why the engine turned a request down. Every rejection is final for the
/// request that met it and leaves all state as it was.
#[derive(Clone, Copy, Debug, PartialEq, Eq, Structural)]
pub enum ErrorCode {
    /// A stream was requested for an amount of zero.
    InvalidAmount,
    /// A stream was requested for a duration of zero or less.
    InvalidDuration,
    /// The vesting ratio has no value: the window of the stream is empty or
    /// reversed, or the entitlement does not fit in 64 bits.
    CalculationError,
    /// Less has vested than was already withdrawn.
    InsufficientFunds,
    /// A timestamp or a running total left the range of its type.
    Overflow,
    /// The withdrawal came before the stream's start.
    StreamNotStarted,
    /// A stream is already recorded for this sender and recipient.
    StreamAlreadyExists,
    /// The caller is not the recorded recipient of a stream from this sender.
    Unauthorized,
}

impl ErrorCode {
    /// The text that goes with each rejection.
    pub open spec fn message_text(self) -> Seq<char> {
        match self {
            ErrorCode::InvalidAmount => "Invalid amount"@,
            ErrorCode::InvalidDuration => "Invalid duration"@,
            ErrorCode::CalculationError => "Calculation error"@,
            ErrorCode::InsufficientFunds => "Insufficient funds"@,
            ErrorCode::Overflow => "Overflow"@,
            ErrorCode::StreamNotStarted => "Stream has not started yet"@,
            ErrorCode::StreamAlreadyExists => "Stream already exists"@,
            ErrorCode::Unauthorized => "Caller is not the stream's recipient"@,
        }
    }

    /// A short description of the rejection, for the caller to show.
    pub fn message(&self) -> (text: &'static str)
        ensures
            text@ == self.message_text(),
    {
        match self {
            ErrorCode::InvalidAmount => "Invalid amount",
            ErrorCode::InvalidDuration => "Invalid duration",
            ErrorCode::CalculationError => "Calculation error",
            ErrorCode::InsufficientFunds => "Insufficient funds",
            ErrorCode::Overflow => "Overflow",
            ErrorCode::StreamNotStarted => "Stream has not started yet",
            ErrorCode::StreamAlreadyExists => "Stream already exists",
            ErrorCode::Unauthorized => "Caller is not the stream's recipient",
        }
    }
}

} // verus!
