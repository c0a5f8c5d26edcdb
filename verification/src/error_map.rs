use vstd::prelude::*;

use crate::errors::AnchorError;

verus! {

/// Broad category a contract error belongs to.
#[derive(Copy, Clone, Debug, PartialEq, Eq, Structural)]
pub enum ErrorCategory {
    /// Caller supplied bad input (wrong hash, invalid amount, etc.).
    InvalidInput,
    /// Caller lacks the required role or signature.
    Unauthorized,
    /// The requested resource does not exist.
    NotFound,
    /// The operation is not allowed in the current state.
    InvalidState,
    /// A resource limit or rate cap was hit.
    LimitExceeded,
    /// A transient infrastructure or arithmetic failure.
    Transient,
    /// Contract-level configuration or initialisation problem.
    Configuration,
}

/// Retry posture the caller should adopt after receiving this error.
#[derive(Copy, Clone, Debug, PartialEq, Eq, Structural)]
pub enum RetryGuidance {
    /// Do not retry; fix the request before resubmitting.
    NoRetry,
    /// Retry after a short delay (network / rate-limit transient).
    RetryAfterDelay,
    /// Retry only after the on-chain state changes (e.g. wait for expiry).
    RetryAfterStateChange,
}

/// Structured metadata for a single `AnchorError` variant.
#[derive(Copy, Clone, Debug)]
pub struct ContractErrorInfo {
    pub error: AnchorError,
    /// Numeric discriminant as exposed on-chain. This is the on-chain code,
    /// not `error as u32` (which is the variant's position in `AnchorError`).
    pub code: u32,
    pub category: ErrorCategory,
    pub retry: RetryGuidance,
    /// Short human-readable description suitable for operator logs / UI.
    pub message: &'static str,
}

/// The numeric code under which `e` is reported on-chain.
pub open spec fn error_code(e: AnchorError) -> u32 {
    match e {
        AnchorError::AlreadyInitialized => 1,
        AnchorError::NotInitialized => 2,
        AnchorError::Unauthorized => 3,
        AnchorError::ShipmentNotFound => 4,
        AnchorError::InvalidStatus => 5,
        AnchorError::InvalidHash => 6,
        AnchorError::EscrowLocked => 7,
        AnchorError::InsufficientFunds => 8,
        AnchorError::ShipmentAlreadyCompleted => 9,
        AnchorError::InvalidTimestamp => 10,
        AnchorError::CounterOverflow => 11,
        AnchorError::InvalidAmount => 14,
        AnchorError::ReentrancyDetected => 15,
        AnchorError::BatchTooLarge => 16,
        AnchorError::InvalidShipmentInput => 17,
        AnchorError::MilestoneSumInvalid => 18,
        AnchorError::MilestoneAlreadyPaid => 19,
        AnchorError::MetadataLimitExceeded => 20,
        AnchorError::RateLimitExceeded => 21,
        AnchorError::ProposalNotFound => 22,
        AnchorError::ProposalAlreadyExecuted => 23,
        AnchorError::ProposalExpired => 24,
        AnchorError::AlreadyApproved => 25,
        AnchorError::InsufficientApprovals => 26,
        AnchorError::NotAnAdmin => 27,
        AnchorError::InvalidMultiSigConfig => 28,
        AnchorError::NotExpired => 29,
        AnchorError::ShipmentLimitReached => 30,
        AnchorError::InvalidConfig => 31,
        AnchorError::CannotSelfRevoke => 32,
        AnchorError::CarrierSuspended => 33,
        AnchorError::ForceCancelReasonHashMissing => 34,
        AnchorError::ArithmeticError => 35,
        AnchorError::DisputeReasonHashMissing => 36,
        AnchorError::CompanySuspended => 37,
        AnchorError::ShipmentFinalized => 38,
        AnchorError::TokenTransferFailed => 39,
        AnchorError::TokenMintFailed => 40,
        AnchorError::DuplicateAction => 41,
        AnchorError::ShipmentUnavailable => 42,
        AnchorError::ContractPaused => 43,
        AnchorError::StatusHashNotFound => 44,
        AnchorError::DataHashMismatch => 45,
        AnchorError::CircuitBreakerOpen => 46,
        AnchorError::InvalidMigrationEdge => 47,
        AnchorError::MilestoneLimitExceeded => 48,
        AnchorError::NoteLimitExceeded => 49,
        AnchorError::EvidenceLimitExceeded => 50,
        AnchorError::BreachLimitExceeded => 51,
        AnchorError::InvalidTokenDecimals => 52,
        AnchorError::CreationQuotaExceeded => 53,
        AnchorError::DependenciesNotMet => 54,
        AnchorError::CircularDependency => 55,
        AnchorError::ProposalSaltReused => 56,
        AnchorError::InvalidShipmentParticipants => 57,
        AnchorError::InvalidShipmentDeadline => 58,
        AnchorError::InvalidPaymentMilestones => 59,
        AnchorError::DuplicatePaymentMilestone => 60,
        AnchorError::InvalidTokenAddress => 61,
        AnchorError::InvalidPaymentMilestoneName => 62,
        AnchorError::MetadataSymbolCollision => 63,
    }
}

/// The category of `e`, listed category by category.
pub open spec fn error_category(e: AnchorError) -> ErrorCategory {
    match e {
        AnchorError::InvalidHash
        | AnchorError::InsufficientFunds
        | AnchorError::InvalidTimestamp
        | AnchorError::InvalidAmount
        | AnchorError::InvalidShipmentInput
        | AnchorError::MilestoneSumInvalid
        | AnchorError::InvalidMultiSigConfig
        | AnchorError::InvalidConfig
        | AnchorError::CannotSelfRevoke
        | AnchorError::ForceCancelReasonHashMissing
        | AnchorError::DisputeReasonHashMissing
        | AnchorError::DuplicateAction
        | AnchorError::DataHashMismatch
        | AnchorError::InvalidMigrationEdge
        | AnchorError::InvalidTokenDecimals
        | AnchorError::CircularDependency
        | AnchorError::ProposalSaltReused
        | AnchorError::InvalidShipmentParticipants
        | AnchorError::InvalidShipmentDeadline
        | AnchorError::InvalidPaymentMilestones
        | AnchorError::DuplicatePaymentMilestone
        | AnchorError::InvalidTokenAddress
        | AnchorError::InvalidPaymentMilestoneName
        | AnchorError::MetadataSymbolCollision => ErrorCategory::InvalidInput,
        AnchorError::Unauthorized
        | AnchorError::NotAnAdmin
        | AnchorError::CarrierSuspended
        | AnchorError::CompanySuspended => ErrorCategory::Unauthorized,
        AnchorError::ShipmentNotFound
        | AnchorError::ProposalNotFound
        | AnchorError::StatusHashNotFound => ErrorCategory::NotFound,
        AnchorError::InvalidStatus
        | AnchorError::EscrowLocked
        | AnchorError::ShipmentAlreadyCompleted
        | AnchorError::ReentrancyDetected
        | AnchorError::MilestoneAlreadyPaid
        | AnchorError::ProposalAlreadyExecuted
        | AnchorError::ProposalExpired
        | AnchorError::AlreadyApproved
        | AnchorError::InsufficientApprovals
        | AnchorError::NotExpired
        | AnchorError::ShipmentFinalized
        | AnchorError::ShipmentUnavailable
        | AnchorError::ContractPaused
        | AnchorError::DependenciesNotMet => ErrorCategory::InvalidState,
        AnchorError::BatchTooLarge
        | AnchorError::MetadataLimitExceeded
        | AnchorError::RateLimitExceeded
        | AnchorError::ShipmentLimitReached
        | AnchorError::MilestoneLimitExceeded
        | AnchorError::NoteLimitExceeded
        | AnchorError::EvidenceLimitExceeded
        | AnchorError::BreachLimitExceeded
        | AnchorError::CreationQuotaExceeded => ErrorCategory::LimitExceeded,
        AnchorError::CounterOverflow
        | AnchorError::ArithmeticError
        | AnchorError::TokenTransferFailed
        | AnchorError::TokenMintFailed
        | AnchorError::CircuitBreakerOpen => ErrorCategory::Transient,
        AnchorError::AlreadyInitialized
        | AnchorError::NotInitialized => ErrorCategory::Configuration,
    }
}

/// The retry posture a caller should adopt after `e`, listed posture by posture.
pub open spec fn retry_guidance(e: AnchorError) -> RetryGuidance {
    match e {
        AnchorError::AlreadyInitialized
        | AnchorError::NotInitialized
        | AnchorError::Unauthorized
        | AnchorError::ShipmentNotFound
        | AnchorError::InvalidHash
        | AnchorError::InsufficientFunds
        | AnchorError::ShipmentAlreadyCompleted
        | AnchorError::InvalidTimestamp
        | AnchorError::CounterOverflow
        | AnchorError::InvalidAmount
        | AnchorError::BatchTooLarge
        | AnchorError::InvalidShipmentInput
        | AnchorError::MilestoneSumInvalid
        | AnchorError::MilestoneAlreadyPaid
        | AnchorError::MetadataLimitExceeded
        | AnchorError::ProposalNotFound
        | AnchorError::ProposalAlreadyExecuted
        | AnchorError::ProposalExpired
        | AnchorError::AlreadyApproved
        | AnchorError::NotAnAdmin
        | AnchorError::InvalidMultiSigConfig
        | AnchorError::InvalidConfig
        | AnchorError::CannotSelfRevoke
        | AnchorError::ForceCancelReasonHashMissing
        | AnchorError::ArithmeticError
        | AnchorError::DisputeReasonHashMissing
        | AnchorError::ShipmentFinalized
        | AnchorError::DuplicateAction
        | AnchorError::StatusHashNotFound
        | AnchorError::DataHashMismatch
        | AnchorError::InvalidMigrationEdge
        | AnchorError::MilestoneLimitExceeded
        | AnchorError::NoteLimitExceeded
        | AnchorError::EvidenceLimitExceeded
        | AnchorError::BreachLimitExceeded
        | AnchorError::InvalidTokenDecimals
        | AnchorError::CircularDependency
        | AnchorError::ProposalSaltReused
        | AnchorError::InvalidShipmentParticipants
        | AnchorError::InvalidShipmentDeadline
        | AnchorError::InvalidPaymentMilestones
        | AnchorError::DuplicatePaymentMilestone
        | AnchorError::InvalidTokenAddress
        | AnchorError::InvalidPaymentMilestoneName
        | AnchorError::MetadataSymbolCollision => RetryGuidance::NoRetry,
        AnchorError::ReentrancyDetected
        | AnchorError::RateLimitExceeded
        | AnchorError::TokenTransferFailed
        | AnchorError::TokenMintFailed
        | AnchorError::CircuitBreakerOpen => RetryGuidance::RetryAfterDelay,
        AnchorError::InvalidStatus
        | AnchorError::EscrowLocked
        | AnchorError::InsufficientApprovals
        | AnchorError::NotExpired
        | AnchorError::ShipmentLimitReached
        | AnchorError::CarrierSuspended
        | AnchorError::CompanySuspended
        | AnchorError::ShipmentUnavailable
        | AnchorError::ContractPaused
        | AnchorError::CreationQuotaExceeded
        | AnchorError::DependenciesNotMet => RetryGuidance::RetryAfterStateChange,
    }
}

/// The description of `e` shown to operators.
pub open spec fn error_message(e: AnchorError) -> Seq<char> {
    match e {
        AnchorError::AlreadyInitialized => "Contract is already initialised; call init only once."@,
        AnchorError::NotInitialized => "Contract has not been initialised; call init first."@,
        AnchorError::Unauthorized => "Caller does not hold the required role or signature."@,
        AnchorError::ShipmentNotFound => "Shipment ID does not exist."@,
        AnchorError::InvalidStatus => "State transition is not allowed from the current shipment status."@,
        AnchorError::InvalidHash => "Provided data hash does not match the stored value."@,
        AnchorError::EscrowLocked => "Escrow is locked; wait for the shipment to reach a terminal state."@,
        AnchorError::InsufficientFunds => "Caller balance is too low to cover the escrow deposit."@,
        AnchorError::ShipmentAlreadyCompleted => "Shipment is already in a terminal state (Delivered or Disputed)."@,
        AnchorError::InvalidTimestamp => "Timestamp is invalid (e.g. ETA is in the past)."@,
        AnchorError::CounterOverflow => "Internal counter overflowed; contact the contract operator."@,
        AnchorError::InvalidAmount => "Amount must be a positive non-zero value."@,
        AnchorError::ReentrancyDetected => "Reentrancy lock is active; retry once the current escrow operation completes."@,
        AnchorError::BatchTooLarge => "Batch exceeds the maximum allowed item count; split into smaller batches."@,
        AnchorError::InvalidShipmentInput => "Shipment parameters are invalid (e.g. receiver equals carrier)."@,
        AnchorError::MilestoneSumInvalid => "Milestone percentages must sum to exactly 100."@,
        AnchorError::MilestoneAlreadyPaid => "This milestone has already been paid."@,
        AnchorError::MetadataLimitExceeded => "Maximum of 5 metadata entries per shipment reached."@,
        AnchorError::RateLimitExceeded => "Minimum interval between status updates has not elapsed; retry later."@,
        AnchorError::ProposalNotFound => "Multi-sig proposal ID does not exist."@,
        AnchorError::ProposalAlreadyExecuted => "Proposal has already been executed."@,
        AnchorError::ProposalExpired => "Proposal has expired; create a new proposal."@,
        AnchorError::AlreadyApproved => "This admin has already approved the proposal."@,
        AnchorError::InsufficientApprovals => "Not enough admin approvals; wait for additional signers."@,
        AnchorError::NotAnAdmin => "Caller is not in the admin list."@,
        AnchorError::InvalidMultiSigConfig => "Multi-sig config is invalid (e.g. threshold exceeds admin count)."@,
        AnchorError::NotExpired => "Shipment deadline has not yet passed; wait for expiry."@,
        AnchorError::ShipmentLimitReached => "Company has reached its active shipment cap; close existing shipments first."@,
        AnchorError::InvalidConfig => "Configuration parameters are invalid."@,
        AnchorError::CannotSelfRevoke => "An admin cannot revoke their own role; use transfer_admin instead."@,
        AnchorError::CarrierSuspended => "Carrier account is suspended; contact the contract operator."@,
        AnchorError::ForceCancelReasonHashMissing => "Force-cancel requires a non-zero reason hash."@,
        AnchorError::ArithmeticError => "Arithmetic overflow/underflow in escrow calculation; check amounts."@,
        AnchorError::DisputeReasonHashMissing => "Dispute resolution requires a non-zero reason hash."@,
        AnchorError::CompanySuspended => "Company account is suspended; contact the contract operator."@,
        AnchorError::ShipmentFinalized => "Shipment is finalised and locked; no further mutations are allowed."@,
        AnchorError::TokenTransferFailed => "Cross-contract token transfer failed; retry after verifying token contract state."@,
        AnchorError::TokenMintFailed => "Cross-contract token mint failed; retry after verifying token contract state."@,
        AnchorError::DuplicateAction => "Action hash was already processed within the idempotency window."@,
        AnchorError::ShipmentUnavailable => "Shipment state is unavailable (archived or expired); restore before retrying."@,
        AnchorError::ContractPaused => "Contract is paused; wait for the operator to resume operations."@,
        AnchorError::StatusHashNotFound => "No status hash found for the given shipment and status."@,
        AnchorError::DataHashMismatch => "Provided hash does not match the stored hash; recompute and resubmit."@,
        AnchorError::CircuitBreakerOpen => "Circuit breaker is open; token transfers are temporarily disabled."@,
        AnchorError::InvalidMigrationEdge => "Migration version transition is not permitted."@,
        AnchorError::MilestoneLimitExceeded => "Maximum milestone events per shipment reached."@,
        AnchorError::NoteLimitExceeded => "Maximum note events per shipment reached."@,
        AnchorError::EvidenceLimitExceeded => "Maximum evidence entries per dispute reached."@,
        AnchorError::BreachLimitExceeded => "Maximum condition breach events per shipment reached."@,
        AnchorError::InvalidTokenDecimals => "Token decimals do not match the expected value (7); use a Stellar-standard token."@,
        AnchorError::CreationQuotaExceeded => "Company has exceeded the shipment creation quota for the current time window."@,
        AnchorError::DependenciesNotMet => "Shipment cannot transition to InTransit or Delivered because its prerequisite shipments are not yet completed."@,
        AnchorError::CircularDependency => "A circular dependency was detected in the shipment prerequisites."@,
        AnchorError::ProposalSaltReused => "Proposal salt was already used in a prior proposal; replay attack prevented."@,
        AnchorError::InvalidShipmentParticipants => "Shipment sender, receiver, and carrier must be three distinct addresses."@,
        AnchorError::InvalidShipmentDeadline => "Shipment deadline must be strictly in the future."@,
        AnchorError::InvalidPaymentMilestones => "Payment milestone structure is invalid; each percentage must be 1-100."@,
        AnchorError::DuplicatePaymentMilestone => "Payment milestone checkpoint names must be unique."@,
        AnchorError::InvalidTokenAddress => "Shipment token address is invalid for this shipment."@,
        AnchorError::InvalidPaymentMilestoneName => "Payment milestone checkpoint name has an invalid format."@,
        AnchorError::MetadataSymbolCollision => "Metadata key and value symbols are identical; use distinct symbols."@,
    }
}

/// Returns the `ContractErrorInfo` for the given `AnchorError`.
///
/// Consumers (backends, frontends, indexers) call this to translate a raw
/// contract error into a category and retry decision without hard-coding
/// the mapping themselves.
///
/// Example: `error_info(AnchorError::RateLimitExceeded).retry` is
/// `RetryGuidance::RetryAfterDelay`.
pub fn error_info(error: AnchorError) -> (info: ContractErrorInfo)
    ensures
        info.error == error,
        info.code == error_code(error),
        info.category == error_category(error),
        info.retry == retry_guidance(error),
        info.message@ == error_message(error),
{
    let (code, category, retry, message): (u32, ErrorCategory, RetryGuidance, &'static str) =
        match error {
        AnchorError::AlreadyInitialized => (
            1,
            ErrorCategory::Configuration,
            RetryGuidance::NoRetry,
            "Contract is already initialised; call init only once.",
        ),
        AnchorError::NotInitialized => (
            2,
            ErrorCategory::Configuration,
            RetryGuidance::NoRetry,
            "Contract has not been initialised; call init first.",
        ),
        AnchorError::Unauthorized => (
            3,
            ErrorCategory::Unauthorized,
            RetryGuidance::NoRetry,
            "Caller does not hold the required role or signature.",
        ),
        AnchorError::ShipmentNotFound => (
            4,
            ErrorCategory::NotFound,
            RetryGuidance::NoRetry,
            "Shipment ID does not exist.",
        ),
        AnchorError::InvalidStatus => (
            5,
            ErrorCategory::InvalidState,
            RetryGuidance::RetryAfterStateChange,
            "State transition is not allowed from the current shipment status.",
        ),
        AnchorError::InvalidHash => (
            6,
            ErrorCategory::InvalidInput,
            RetryGuidance::NoRetry,
            "Provided data hash does not match the stored value.",
        ),
        AnchorError::EscrowLocked => (
            7,
            ErrorCategory::InvalidState,
            RetryGuidance::RetryAfterStateChange,
            "Escrow is locked; wait for the shipment to reach a terminal state.",
        ),
        AnchorError::InsufficientFunds => (
            8,
            ErrorCategory::InvalidInput,
            RetryGuidance::NoRetry,
            "Caller balance is too low to cover the escrow deposit.",
        ),
        AnchorError::ShipmentAlreadyCompleted => (
            9,
            ErrorCategory::InvalidState,
            RetryGuidance::NoRetry,
            "Shipment is already in a terminal state (Delivered or Disputed).",
        ),
        AnchorError::InvalidTimestamp => (
            10,
            ErrorCategory::InvalidInput,
            RetryGuidance::NoRetry,
            "Timestamp is invalid (e.g. ETA is in the past).",
        ),
        AnchorError::CounterOverflow => (
            11,
            ErrorCategory::Transient,
            RetryGuidance::NoRetry,
            "Internal counter overflowed; contact the contract operator.",
        ),
        AnchorError::InvalidAmount => (
            14,
            ErrorCategory::InvalidInput,
            RetryGuidance::NoRetry,
            "Amount must be a positive non-zero value.",
        ),
        AnchorError::ReentrancyDetected => (
            15,
            ErrorCategory::InvalidState,
            RetryGuidance::RetryAfterDelay,
            "Reentrancy lock is active; retry once the current escrow operation completes.",
        ),
        AnchorError::BatchTooLarge => (
            16,
            ErrorCategory::LimitExceeded,
            RetryGuidance::NoRetry,
            "Batch exceeds the maximum allowed item count; split into smaller batches.",
        ),
        AnchorError::InvalidShipmentInput => (
            17,
            ErrorCategory::InvalidInput,
            RetryGuidance::NoRetry,
            "Shipment parameters are invalid (e.g. receiver equals carrier).",
        ),
        AnchorError::MilestoneSumInvalid => (
            18,
            ErrorCategory::InvalidInput,
            RetryGuidance::NoRetry,
            "Milestone percentages must sum to exactly 100.",
        ),
        AnchorError::MilestoneAlreadyPaid => (
            19,
            ErrorCategory::InvalidState,
            RetryGuidance::NoRetry,
            "This milestone has already been paid.",
        ),
        AnchorError::MetadataLimitExceeded => (
            20,
            ErrorCategory::LimitExceeded,
            RetryGuidance::NoRetry,
            "Maximum of 5 metadata entries per shipment reached.",
        ),
        AnchorError::RateLimitExceeded => (
            21,
            ErrorCategory::LimitExceeded,
            RetryGuidance::RetryAfterDelay,
            "Minimum interval between status updates has not elapsed; retry later.",
        ),
        AnchorError::ProposalNotFound => (
            22,
            ErrorCategory::NotFound,
            RetryGuidance::NoRetry,
            "Multi-sig proposal ID does not exist.",
        ),
        AnchorError::ProposalAlreadyExecuted => (
            23,
            ErrorCategory::InvalidState,
            RetryGuidance::NoRetry,
            "Proposal has already been executed.",
        ),
        AnchorError::ProposalExpired => (
            24,
            ErrorCategory::InvalidState,
            RetryGuidance::NoRetry,
            "Proposal has expired; create a new proposal.",
        ),
        AnchorError::AlreadyApproved => (
            25,
            ErrorCategory::InvalidState,
            RetryGuidance::NoRetry,
            "This admin has already approved the proposal.",
        ),
        AnchorError::InsufficientApprovals => (
            26,
            ErrorCategory::InvalidState,
            RetryGuidance::RetryAfterStateChange,
            "Not enough admin approvals; wait for additional signers.",
        ),
        AnchorError::NotAnAdmin => (
            27,
            ErrorCategory::Unauthorized,
            RetryGuidance::NoRetry,
            "Caller is not in the admin list.",
        ),
        AnchorError::InvalidMultiSigConfig => (
            28,
            ErrorCategory::InvalidInput,
            RetryGuidance::NoRetry,
            "Multi-sig config is invalid (e.g. threshold exceeds admin count).",
        ),
        AnchorError::NotExpired => (
            29,
            ErrorCategory::InvalidState,
            RetryGuidance::RetryAfterStateChange,
            "Shipment deadline has not yet passed; wait for expiry.",
        ),
        AnchorError::ShipmentLimitReached => (
            30,
            ErrorCategory::LimitExceeded,
            RetryGuidance::RetryAfterStateChange,
            "Company has reached its active shipment cap; close existing shipments first.",
        ),
        AnchorError::InvalidConfig => (
            31,
            ErrorCategory::InvalidInput,
            RetryGuidance::NoRetry,
            "Configuration parameters are invalid.",
        ),
        AnchorError::CannotSelfRevoke => (
            32,
            ErrorCategory::InvalidInput,
            RetryGuidance::NoRetry,
            "An admin cannot revoke their own role; use transfer_admin instead.",
        ),
        AnchorError::CarrierSuspended => (
            33,
            ErrorCategory::Unauthorized,
            RetryGuidance::RetryAfterStateChange,
            "Carrier account is suspended; contact the contract operator.",
        ),
        AnchorError::ForceCancelReasonHashMissing => (
            34,
            ErrorCategory::InvalidInput,
            RetryGuidance::NoRetry,
            "Force-cancel requires a non-zero reason hash.",
        ),
        AnchorError::ArithmeticError => (
            35,
            ErrorCategory::Transient,
            RetryGuidance::NoRetry,
            "Arithmetic overflow/underflow in escrow calculation; check amounts.",
        ),
        AnchorError::DisputeReasonHashMissing => (
            36,
            ErrorCategory::InvalidInput,
            RetryGuidance::NoRetry,
            "Dispute resolution requires a non-zero reason hash.",
        ),
        AnchorError::CompanySuspended => (
            37,
            ErrorCategory::Unauthorized,
            RetryGuidance::RetryAfterStateChange,
            "Company account is suspended; contact the contract operator.",
        ),
        AnchorError::ShipmentFinalized => (
            38,
            ErrorCategory::InvalidState,
            RetryGuidance::NoRetry,
            "Shipment is finalised and locked; no further mutations are allowed.",
        ),
        AnchorError::TokenTransferFailed => (
            39,
            ErrorCategory::Transient,
            RetryGuidance::RetryAfterDelay,
            "Cross-contract token transfer failed; retry after verifying token contract state.",
        ),
        AnchorError::TokenMintFailed => (
            40,
            ErrorCategory::Transient,
            RetryGuidance::RetryAfterDelay,
            "Cross-contract token mint failed; retry after verifying token contract state.",
        ),
        AnchorError::DuplicateAction => (
            41,
            ErrorCategory::InvalidInput,
            RetryGuidance::NoRetry,
            "Action hash was already processed within the idempotency window.",
        ),
        AnchorError::ShipmentUnavailable => (
            42,
            ErrorCategory::InvalidState,
            RetryGuidance::RetryAfterStateChange,
            "Shipment state is unavailable (archived or expired); restore before retrying.",
        ),
        AnchorError::ContractPaused => (
            43,
            ErrorCategory::InvalidState,
            RetryGuidance::RetryAfterStateChange,
            "Contract is paused; wait for the operator to resume operations.",
        ),
        AnchorError::StatusHashNotFound => (
            44,
            ErrorCategory::NotFound,
            RetryGuidance::NoRetry,
            "No status hash found for the given shipment and status.",
        ),
        AnchorError::DataHashMismatch => (
            45,
            ErrorCategory::InvalidInput,
            RetryGuidance::NoRetry,
            "Provided hash does not match the stored hash; recompute and resubmit.",
        ),
        AnchorError::CircuitBreakerOpen => (
            46,
            ErrorCategory::Transient,
            RetryGuidance::RetryAfterDelay,
            "Circuit breaker is open; token transfers are temporarily disabled.",
        ),
        AnchorError::InvalidMigrationEdge => (
            47,
            ErrorCategory::InvalidInput,
            RetryGuidance::NoRetry,
            "Migration version transition is not permitted.",
        ),
        AnchorError::MilestoneLimitExceeded => (
            48,
            ErrorCategory::LimitExceeded,
            RetryGuidance::NoRetry,
            "Maximum milestone events per shipment reached.",
        ),
        AnchorError::NoteLimitExceeded => (
            49,
            ErrorCategory::LimitExceeded,
            RetryGuidance::NoRetry,
            "Maximum note events per shipment reached.",
        ),
        AnchorError::EvidenceLimitExceeded => (
            50,
            ErrorCategory::LimitExceeded,
            RetryGuidance::NoRetry,
            "Maximum evidence entries per dispute reached.",
        ),
        AnchorError::BreachLimitExceeded => (
            51,
            ErrorCategory::LimitExceeded,
            RetryGuidance::NoRetry,
            "Maximum condition breach events per shipment reached.",
        ),
        AnchorError::InvalidTokenDecimals => (
            52,
            ErrorCategory::InvalidInput,
            RetryGuidance::NoRetry,
            "Token decimals do not match the expected value (7); use a Stellar-standard token.",
        ),
        AnchorError::CreationQuotaExceeded => (
            53,
            ErrorCategory::LimitExceeded,
            RetryGuidance::RetryAfterStateChange,
            "Company has exceeded the shipment creation quota for the current time window.",
        ),
        AnchorError::DependenciesNotMet => (
            54,
            ErrorCategory::InvalidState,
            RetryGuidance::RetryAfterStateChange,
            "Shipment cannot transition to InTransit or Delivered because its prerequisite shipments are not yet completed.",
        ),
        AnchorError::CircularDependency => (
            55,
            ErrorCategory::InvalidInput,
            RetryGuidance::NoRetry,
            "A circular dependency was detected in the shipment prerequisites.",
        ),
        AnchorError::ProposalSaltReused => (
            56,
            ErrorCategory::InvalidInput,
            RetryGuidance::NoRetry,
            "Proposal salt was already used in a prior proposal; replay attack prevented.",
        ),
        AnchorError::InvalidShipmentParticipants => (
            57,
            ErrorCategory::InvalidInput,
            RetryGuidance::NoRetry,
            "Shipment sender, receiver, and carrier must be three distinct addresses.",
        ),
        AnchorError::InvalidShipmentDeadline => (
            58,
            ErrorCategory::InvalidInput,
            RetryGuidance::NoRetry,
            "Shipment deadline must be strictly in the future.",
        ),
        AnchorError::InvalidPaymentMilestones => (
            59,
            ErrorCategory::InvalidInput,
            RetryGuidance::NoRetry,
            "Payment milestone structure is invalid; each percentage must be 1-100.",
        ),
        AnchorError::DuplicatePaymentMilestone => (
            60,
            ErrorCategory::InvalidInput,
            RetryGuidance::NoRetry,
            "Payment milestone checkpoint names must be unique.",
        ),
        AnchorError::InvalidTokenAddress => (
            61,
            ErrorCategory::InvalidInput,
            RetryGuidance::NoRetry,
            "Shipment token address is invalid for this shipment.",
        ),
        AnchorError::InvalidPaymentMilestoneName => (
            62,
            ErrorCategory::InvalidInput,
            RetryGuidance::NoRetry,
            "Payment milestone checkpoint name has an invalid format.",
        ),
        AnchorError::MetadataSymbolCollision => (
            63,
            ErrorCategory::InvalidInput,
            RetryGuidance::NoRetry,
            "Metadata key and value symbols are identical; use distinct symbols.",
        ),
    };
    ContractErrorInfo { error, code, category, retry, message }
}

} // verus!
