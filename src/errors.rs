use vstd::prelude::*;

verus! {

/// Why an operation on a schedule or a grant was refused. Every refusal
/// leaves the persisted records as they were.
#[derive(Debug, Clone, Copy, PartialEq, Eq, Structural)]
pub enum ErrorCode {
    /// Malformed timestamps or an oversized company name, found at creation.
    PreconditionViolation,
    /// A claim before the grant's cliff.
    CliffNotReached,
    /// A claim when nothing is vested beyond what was already paid.
    NothingToClaim,
    /// The vesting arithmetic cannot be carried out on the stored record.
    CalculationOverflow,
    /// A signer or an account address does not match what it must be.
    AuthorizationMismatch,
    /// The token transfer out of (or into) the escrow did not complete.
    TransferFailure,
}

/// What the token program answered to a transfer request.
#[derive(Debug, Clone, Copy, PartialEq, Eq, Structural)]
pub enum TransferOutcome {
    Completed,
    InsufficientFunds,
    Unauthorized,
}

} // verus!
