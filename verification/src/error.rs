//! The errors that the contracts return.

use vstd::prelude::*;

verus! {

/// Why a contract refused a call.
#[derive(Debug, Clone, Copy, PartialEq, Eq, Structural)]
pub enum ContractError {
    AlreadyInitialized,
    NotInitialized,
    FeeBpsExceedsMaximum,
    MissingRole,
    AccountDoesNotHoldRole,
    ContractIsPaused,
    NotAuthorized,
    AmountMustBePositive,
    ExpiryMustBeInFuture,
    AlreadyExists,
    PaymentNotFound,
    PaymentNotLocked,
    EscrowAlreadyExists,
    EscrowNotFound,
    EscrowNotActive,
    EscrowNotYetExpired,
    EscrowCancelled,
    EscrowFinalized,
    AlreadyReleased,
    AlreadyCancelled,
    BatchTooLarge,
    MultiSigEscrowAlreadyExists,
    MultiSigEscrowNotFound,
    InvalidThreshold,
    NotASigner,
    AlreadyApproved,
    ArbitrationAlreadyRequested,
    ArbitrationNotFound,
    InvalidArbitrator,
    NotAnArbitrator,
    AlreadyResolved,
    WrongSchemaVersion,
    WorkerNotFound,
    DelegateNotFound,
    CallerIsNotCurator,
    UnknownCategory,
    ScoreOutOfRange,
    RatingOutOfRange,
    InvalidSubscriptionTier,
    MismatchedInputLengths,
    NoActiveStake,
    UnstakeAlreadyRequested,
    UnstakeNotRequested,
    CooldownNotElapsed,
    BadgeNotFound,
    UpgradeAlreadyPending,
    NoPendingUpgrade,
    TimelockNotExpired,
    SkillNotFound,
}

} // verus!
