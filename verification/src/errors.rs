//! The error taxonomy of the settlement pipeline.
//!
//! Input errors reject a claim before any ledger call; eligibility errors
//! reject it before verification; verification errors mean the on-chain
//! evidence does not support the claim. None of these leaves a settlement
//! record behind. Settlement errors arise only after a pending record
//! exists, and the record then persists as the audit trail.

use vstd::prelude::*;

verus! {

/// A malformed claim, rejected before any ledger call.
#[derive(Clone, Copy, PartialEq, Eq, Structural, Debug)]
pub enum InputError {
    /// The payment identifier is empty, too long, or holds a character
    /// that no ledger transaction reference can hold.
    MalformedIdentifier,
    /// The buyer address is empty, too long, or holds a character that no
    /// ledger address can hold.
    MalformedAddress,
    /// A claim for zero tokens buys nothing.
    AmountZero,
    /// The claimed amount cannot be priced or minted within the machine's
    /// integer range.
    AmountOverflow,
}

/// A whitelist or allocation rejection, raised before verification so that
/// an ineligible claim costs no ledger work.
#[derive(Clone, Copy, PartialEq, Eq, Structural, Debug)]
pub enum EligibilityError {
    /// The whitelist is enabled and the buyer is not on it.
    NotWhitelisted,
    /// The claim exceeds what is left of the buyer's allocation.
    ExceedsAllocation { remaining: u64 },
}

/// The on-chain evidence does not support the claim.
#[derive(Clone, Copy, PartialEq, Eq, Structural, Debug)]
pub enum VerificationError {
    /// The payment identifier is not a well-formed transaction reference.
    InvalidIdentifier,
    /// The ledger holds no finalized transaction under this identifier.
    PaymentNotFound,
    /// The ledger could not be reached within the bounded retries; the
    /// caller may retry the same claim later.
    GatewayUnavailable,
    /// The transaction exists but its on-chain execution failed.
    OnChainFailure,
    /// The expected recipient does not appear among the transaction's
    /// participants with balance data.
    RecipientNotFound,
    /// The recipient's balance delta falls short of the tolerance band;
    /// both sides are reported so the buyer can decide what to resubmit.
    InsufficientPayment { expected_base_units: u128, actual_delta: i128 },
    /// The transaction's declared sender is not the claimed buyer.
    SenderMismatch,
}

/// Everything that can reject a claim before a settlement record exists.
#[derive(Clone, Copy, PartialEq, Eq, Structural, Debug)]
pub enum ClaimError {
    Input(InputError),
    Eligibility(EligibilityError),
    Verification(VerificationError),
}

} // verus!
