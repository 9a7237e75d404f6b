//! The tagged failures that the engine's operations report.

use vstd::prelude::*;

verus! {

/// Every way an operation on the engine can be rejected. Each operation
/// aborts with the first failing check's tag and leaves all state unchanged.
#[derive(Clone, Copy, Debug, PartialEq, Eq, Structural)]
pub enum ErrorCode {
    /// The caller is not the lock's recorded owner, or the supplied token
    /// account is not controlled by the caller.
    Unauthorized,
    /// A deposit or top-up of zero tokens.
    AmountZero,
    /// A new lock's release time is not strictly in the future.
    TimestampInPast,
    /// A release attempted before the lock's release time.
    TooEarly,
    /// The lock has already been released.
    AlreadyUnlocked,
    /// The supplied token account's asset type does not match.
    InvalidMint,
    /// An extension that does not strictly increase the release time.
    CannotShortenTimestamp,
    /// The supplied token account is the lock's own holding vault.
    DuplicateAccounts,
    /// The supplied fee recipient is not the configured one.
    InvalidFeeRecipient,
    /// The registry does not accept a second initialization.
    AlreadyInitialized,
    /// A token or native-currency balance is too small for the transfer.
    InsufficientFunds,
    /// A counter or balance would exceed the 64-bit range.
    Overflow,
}

} // verus!
