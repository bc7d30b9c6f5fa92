use vstd::prelude::*;

verus! {

/// Why an operation was refused. Every refused operation leaves all records unchanged.
#[derive(Clone, Copy, Debug, PartialEq, Eq, Structural)]
pub enum ClawbackError {
    /// The agent's policy is paused.
    AgentPaused,
    /// The amount is above the policy's per-transaction cap.
    ExceedsMaxPerTx,
    /// The amount would take the agent past its daily limit.
    ExceedsDailyLimit,
    /// The payment has already been finalized or clawed back.
    PaymentNotPending,
    /// The payment's cooling-off deadline has not been reached.
    CoolingOffNotExpired,
    /// The caller is not the owner or agent that the operation requires.
    Unauthorized,
    /// A record handed in belongs to another vault, agent or recipient.
    AccountMismatch,
    /// The record to be created exists already.
    AlreadyExists,
    /// The intent URI is longer than the record can hold.
    IntentUriTooLong,
    /// The source token account holds less than the amount.
    InsufficientFunds,
    /// A balance, counter or deadline would leave its integer range.
    Overflow,
}

} // verus!
