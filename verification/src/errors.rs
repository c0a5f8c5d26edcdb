use vstd::prelude::*;

verus! {

/// Errors raised by the shipment contract. Each one is reported on-chain
/// under a numeric code (its discriminant on-chain), given by
/// `crate::error_map::error_info(e).code` and specified by
/// `crate::error_map::error_code`.
///
/// The variants carry no explicit discriminants here, so `e as u32` is the
/// variant's position in this list (0 to 60), not its on-chain code (1 to 63,
/// with no 12 or 13). Callers that need the on-chain number must use
/// `error_info(e).code`, never a cast.
#[derive(Copy, Clone, Debug, PartialEq, Eq, Structural)]
pub enum AnchorError {
    AlreadyInitialized,
    NotInitialized,
    Unauthorized,
    ShipmentNotFound,
    InvalidStatus,
    InvalidHash,
    EscrowLocked,
    InsufficientFunds,
    ShipmentAlreadyCompleted,
    InvalidTimestamp,
    CounterOverflow,
    InvalidAmount,
    ReentrancyDetected,
    BatchTooLarge,
    InvalidShipmentInput,
    MilestoneSumInvalid,
    MilestoneAlreadyPaid,
    MetadataLimitExceeded,
    RateLimitExceeded,
    ProposalNotFound,
    ProposalAlreadyExecuted,
    ProposalExpired,
    AlreadyApproved,
    InsufficientApprovals,
    NotAnAdmin,
    InvalidMultiSigConfig,
    NotExpired,
    ShipmentLimitReached,
    InvalidConfig,
    CannotSelfRevoke,
    CarrierSuspended,
    ForceCancelReasonHashMissing,
    ArithmeticError,
    DisputeReasonHashMissing,
    CompanySuspended,
    ShipmentFinalized,
    TokenTransferFailed,
    TokenMintFailed,
    DuplicateAction,
    ShipmentUnavailable,
    ContractPaused,
    StatusHashNotFound,
    DataHashMismatch,
    CircuitBreakerOpen,
    InvalidMigrationEdge,
    MilestoneLimitExceeded,
    NoteLimitExceeded,
    EvidenceLimitExceeded,
    BreachLimitExceeded,
    InvalidTokenDecimals,
    CreationQuotaExceeded,
    DependenciesNotMet,
    CircularDependency,
    ProposalSaltReused,
    InvalidShipmentParticipants,
    InvalidShipmentDeadline,
    InvalidPaymentMilestones,
    DuplicatePaymentMilestone,
    InvalidTokenAddress,
    InvalidPaymentMilestoneName,
    MetadataSymbolCollision,
}

} // verus!
