use vstd::prelude::*;

verus! {

/// Every way an engine operation can fail. Validation, authorization and
/// state-conflict errors are all reported before any state is mutated;
/// `InsufficientFunds` is detected at the point of transfer and leaves the
/// transaction approved so that a retry is possible once funded.
#[derive(Clone, Copy, PartialEq, Eq, Structural, Debug)]
pub enum MultisigError {
    InvalidOwnerCount,
    InvalidThreshold,
    ThresholdTooHigh,
    DuplicateOwner,
    NotAnOwner,
    InvalidAmount,
    MemoTooLong,
    InvalidTransactionStatus,
    AlreadyApproved,
    AlreadyRejected,
    NotApproved,
    NotProposer,
    TooManyOwners,
    AlreadyOwner,
    CannotRemoveLastOwner,
    InsufficientFunds,
}

} // verus!
