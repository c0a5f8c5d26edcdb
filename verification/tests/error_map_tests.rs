use shipment::error_map::{error_info, ErrorCategory, RetryGuidance};
use shipment::errors::AnchorError;

const ALL_ERRORS: [AnchorError; 61] = [
    AnchorError::AlreadyInitialized,
    AnchorError::NotInitialized,
    AnchorError::Unauthorized,
    AnchorError::ShipmentNotFound,
    AnchorError::InvalidStatus,
    AnchorError::InvalidHash,
    AnchorError::EscrowLocked,
    AnchorError::InsufficientFunds,
    AnchorError::ShipmentAlreadyCompleted,
    AnchorError::InvalidTimestamp,
    AnchorError::CounterOverflow,
    AnchorError::InvalidAmount,
    AnchorError::ReentrancyDetected,
    AnchorError::BatchTooLarge,
    AnchorError::InvalidShipmentInput,
    AnchorError::MilestoneSumInvalid,
    AnchorError::MilestoneAlreadyPaid,
    AnchorError::MetadataLimitExceeded,
    AnchorError::RateLimitExceeded,
    AnchorError::ProposalNotFound,
    AnchorError::ProposalAlreadyExecuted,
    AnchorError::ProposalExpired,
    AnchorError::AlreadyApproved,
    AnchorError::InsufficientApprovals,
    AnchorError::NotAnAdmin,
    AnchorError::InvalidMultiSigConfig,
    AnchorError::NotExpired,
    AnchorError::ShipmentLimitReached,
    AnchorError::InvalidConfig,
    AnchorError::CannotSelfRevoke,
    AnchorError::CarrierSuspended,
    AnchorError::ForceCancelReasonHashMissing,
    AnchorError::ArithmeticError,
    AnchorError::DisputeReasonHashMissing,
    AnchorError::CompanySuspended,
    AnchorError::ShipmentFinalized,
    AnchorError::TokenTransferFailed,
    AnchorError::TokenMintFailed,
    AnchorError::DuplicateAction,
    AnchorError::ShipmentUnavailable,
    AnchorError::ContractPaused,
    AnchorError::StatusHashNotFound,
    AnchorError::DataHashMismatch,
    AnchorError::CircuitBreakerOpen,
    AnchorError::InvalidMigrationEdge,
    AnchorError::MilestoneLimitExceeded,
    AnchorError::NoteLimitExceeded,
    AnchorError::EvidenceLimitExceeded,
    AnchorError::BreachLimitExceeded,
    AnchorError::InvalidTokenDecimals,
    AnchorError::CreationQuotaExceeded,
    AnchorError::DependenciesNotMet,
    AnchorError::CircularDependency,
    AnchorError::ProposalSaltReused,
    AnchorError::InvalidShipmentParticipants,
    AnchorError::InvalidShipmentDeadline,
    AnchorError::InvalidPaymentMilestones,
    AnchorError::DuplicatePaymentMilestone,
    AnchorError::InvalidTokenAddress,
    AnchorError::InvalidPaymentMilestoneName,
    AnchorError::MetadataSymbolCollision,
];

#[test]
fn test_token_transfer_failed_info() {
    let info = error_info(AnchorError::TokenTransferFailed);
    assert_eq!(info.error, AnchorError::TokenTransferFailed);
    assert_eq!(info.code, 39);
    assert_eq!(info.category, ErrorCategory::Transient);
    assert_eq!(info.retry, RetryGuidance::RetryAfterDelay);
    assert!(
        !info.message.is_empty(),
        "TokenTransferFailed must have a non-empty message"
    );
}

#[test]
fn test_circuit_breaker_open_info() {
    let info = error_info(AnchorError::CircuitBreakerOpen);
    assert_eq!(info.error, AnchorError::CircuitBreakerOpen);
    assert_eq!(info.code, 46);
    assert_eq!(info.category, ErrorCategory::Transient);
    assert_eq!(info.retry, RetryGuidance::RetryAfterDelay);
}

/// error_info must be deterministic: calling it twice on the same variant
/// must return identical results.
#[test]
fn test_error_info_is_deterministic() {
    let a = error_info(AnchorError::TokenTransferFailed);
    let b = error_info(AnchorError::TokenTransferFailed);
    assert_eq!(a.code, b.code);
    assert_eq!(a.category, b.category);
    assert_eq!(a.retry, b.retry);
    assert_eq!(a.message, b.message);

    let c = error_info(AnchorError::CircuitBreakerOpen);
    let d = error_info(AnchorError::CircuitBreakerOpen);
    assert_eq!(c.code, d.code);
    assert_eq!(c.category, d.category);
    assert_eq!(c.retry, d.retry);
}

/// Token-related transient errors must use RetryAfterDelay, not NoRetry,
/// so callers know they can retry after a backoff.
#[test]
fn test_token_and_circuit_breaker_errors_use_retry_after_delay() {
    let transient_errors = [
        AnchorError::TokenTransferFailed,
        AnchorError::TokenMintFailed,
        AnchorError::CircuitBreakerOpen,
    ];
    for err in &transient_errors {
        let info = error_info(*err);
        assert_eq!(
            info.retry,
            RetryGuidance::RetryAfterDelay,
            "{:?} must have RetryAfterDelay guidance",
            err
        );
        assert_eq!(
            info.category,
            ErrorCategory::Transient,
            "{:?} must be categorised as Transient",
            err
        );
    }
}

/// Every error code in error_info must match its AnchorError discriminant.
#[test]
fn test_error_codes_match_discriminants() {
    let cases: &[(AnchorError, u32)] = &[
        (AnchorError::TokenTransferFailed, 39),
        (AnchorError::TokenMintFailed, 40),
        (AnchorError::CircuitBreakerOpen, 46),
        (AnchorError::ShipmentFinalized, 38),
        (AnchorError::ShipmentNotFound, 4),
        (AnchorError::Unauthorized, 3),
    ];
    for (err, expected_code) in cases {
        let info = error_info(*err);
        assert_eq!(
            info.code, *expected_code,
            "{:?} must map to code {}",
            err, expected_code
        );
    }
}

#[test]
fn rate_limit_is_retried_after_delay() {
    let info = error_info(AnchorError::RateLimitExceeded);
    assert_eq!(info.retry, RetryGuidance::RetryAfterDelay);
    assert_eq!(info.category, ErrorCategory::LimitExceeded);
    assert_eq!(info.code, 21);
}

#[test]
fn first_and_last_codes() {
    let first = error_info(AnchorError::AlreadyInitialized);
    assert_eq!(first.code, 1);
    assert_eq!(first.category, ErrorCategory::Configuration);
    assert_eq!(first.retry, RetryGuidance::NoRetry);
    assert_eq!(
        first.message,
        "Contract is already initialised; call init only once."
    );

    let last = error_info(AnchorError::MetadataSymbolCollision);
    assert_eq!(last.code, 63);
    assert_eq!(last.category, ErrorCategory::InvalidInput);
    assert_eq!(last.retry, RetryGuidance::NoRetry);
}

#[test]
fn codes_skip_twelve_and_thirteen() {
    assert_eq!(error_info(AnchorError::CounterOverflow).code, 11);
    assert_eq!(error_info(AnchorError::InvalidAmount).code, 14);
    for err in ALL_ERRORS.iter() {
        let code = error_info(*err).code;
        assert!(code != 12 && code != 13);
    }
}

#[test]
fn every_category_and_posture_occurs() {
    assert_eq!(error_info(AnchorError::InvalidHash).category, ErrorCategory::InvalidInput);
    assert_eq!(error_info(AnchorError::NotAnAdmin).category, ErrorCategory::Unauthorized);
    assert_eq!(error_info(AnchorError::ProposalNotFound).category, ErrorCategory::NotFound);
    assert_eq!(error_info(AnchorError::EscrowLocked).category, ErrorCategory::InvalidState);
    assert_eq!(error_info(AnchorError::BatchTooLarge).category, ErrorCategory::LimitExceeded);
    assert_eq!(error_info(AnchorError::ArithmeticError).category, ErrorCategory::Transient);
    assert_eq!(error_info(AnchorError::NotInitialized).category, ErrorCategory::Configuration);

    assert_eq!(error_info(AnchorError::InvalidHash).retry, RetryGuidance::NoRetry);
    assert_eq!(error_info(AnchorError::ReentrancyDetected).retry, RetryGuidance::RetryAfterDelay);
    assert_eq!(error_info(AnchorError::NotExpired).retry, RetryGuidance::RetryAfterStateChange);
    assert_eq!(
        error_info(AnchorError::CarrierSuspended).retry,
        RetryGuidance::RetryAfterStateChange
    );
}

#[test]
fn info_echoes_the_error() {
    for err in ALL_ERRORS.iter() {
        assert_eq!(error_info(*err).error, *err);
    }
}

#[test]
fn codes_are_distinct() {
    for (i, a) in ALL_ERRORS.iter().enumerate() {
        for b in ALL_ERRORS.iter().skip(i + 1) {
            assert_ne!(error_info(*a).code, error_info(*b).code, "{:?} and {:?}", a, b);
        }
    }
}

#[test]
fn codes_lie_between_one_and_sixty_three() {
    for err in ALL_ERRORS.iter() {
        let code = error_info(*err).code;
        assert!(1 <= code && code <= 63);
    }
}

#[test]
fn every_message_is_nonempty() {
    for err in ALL_ERRORS.iter() {
        assert!(!error_info(*err).message.is_empty(), "{:?}", err);
    }
}

#[test]
fn request_errors_are_not_retryable() {
    for err in ALL_ERRORS.iter() {
        let info = error_info(*err);
        if info.category == ErrorCategory::InvalidInput
            || info.category == ErrorCategory::NotFound
            || info.category == ErrorCategory::Configuration
        {
            assert_eq!(info.retry, RetryGuidance::NoRetry, "{:?}", err);
        }
    }
}
