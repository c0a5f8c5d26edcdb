use vstd::prelude::*;

use crate::error_map::{
    error_category, error_code, error_message, retry_guidance, ErrorCategory, RetryGuidance,
};
use crate::errors::AnchorError;

verus! {

/// The error reports that a requested resource (shipment, proposal, status hash) does not exist.
pub open spec fn reports_missing_resource(e: AnchorError) -> bool {
    match e {
        AnchorError::ShipmentNotFound
        | AnchorError::ProposalNotFound
        | AnchorError::StatusHashNotFound => true,
        _ => false,
    }
}

/// The error is an infrastructure or arithmetic failure: an overflow, a failed token call, or an open circuit breaker.
pub open spec fn is_infrastructure_failure(e: AnchorError) -> bool {
    match e {
        AnchorError::CounterOverflow
        | AnchorError::ArithmeticError
        | AnchorError::TokenTransferFailed
        | AnchorError::TokenMintFailed
        | AnchorError::CircuitBreakerOpen => true,
        _ => false,
    }
}

/// The error concerns the contract's own initialisation.
pub open spec fn is_initialisation_problem(e: AnchorError) -> bool {
    match e {
        AnchorError::AlreadyInitialized
        | AnchorError::NotInitialized => true,
        _ => false,
    }
}

/// The error says the caller lacks a role or signature, or that its account is suspended.
pub open spec fn is_permission_failure(e: AnchorError) -> bool {
    match e {
        AnchorError::Unauthorized
        | AnchorError::NotAnAdmin
        | AnchorError::CarrierSuspended
        | AnchorError::CompanySuspended => true,
        _ => false,
    }
}

/// The error says a count, quota or rate cap was reached.
pub open spec fn is_limit_hit(e: AnchorError) -> bool {
    match e {
        AnchorError::BatchTooLarge
        | AnchorError::MetadataLimitExceeded
        | AnchorError::RateLimitExceeded
        | AnchorError::ShipmentLimitReached
        | AnchorError::MilestoneLimitExceeded
        | AnchorError::NoteLimitExceeded
        | AnchorError::EvidenceLimitExceeded
        | AnchorError::BreachLimitExceeded
        | AnchorError::CreationQuotaExceeded => true,
        _ => false,
    }
}

/// The error says the operation is not allowed in the current on-chain state.
pub open spec fn is_state_conflict(e: AnchorError) -> bool {
    match e {
        AnchorError::InvalidStatus
        | AnchorError::EscrowLocked
        | AnchorError::ShipmentAlreadyCompleted
        | AnchorError::ReentrancyDetected
        | AnchorError::MilestoneAlreadyPaid
        | AnchorError::ProposalAlreadyExecuted
        | AnchorError::ProposalExpired
        | AnchorError::AlreadyApproved
        | AnchorError::InsufficientApprovals
        | AnchorError::NotExpired
        | AnchorError::ShipmentFinalized
        | AnchorError::ShipmentUnavailable
        | AnchorError::ContractPaused
        | AnchorError::DependenciesNotMet => true,
        _ => false,
    }
}

/// The error reports a state that will not change back: a shipment already completed or finalised, a proposal already executed, expired or approved by this admin, a milestone already paid.
pub open spec fn is_terminal_outcome(e: AnchorError) -> bool {
    match e {
        AnchorError::ShipmentAlreadyCompleted
        | AnchorError::ShipmentFinalized
        | AnchorError::ProposalAlreadyExecuted
        | AnchorError::MilestoneAlreadyPaid
        | AnchorError::ProposalExpired
        | AnchorError::AlreadyApproved => true,
        _ => false,
    }
}

/// The error clears by itself after a short wait: a held lock, a rate limit, a failed token call, an open circuit breaker.
pub open spec fn clears_after_delay(e: AnchorError) -> bool {
    match e {
        AnchorError::ReentrancyDetected
        | AnchorError::RateLimitExceeded
        | AnchorError::TokenTransferFailed
        | AnchorError::TokenMintFailed
        | AnchorError::CircuitBreakerOpen => true,
        _ => false,
    }
}

/// The error clears once some on-chain state changes: a status, a lock, approvals, a deadline, a cap or quota, a suspension, a pause, prerequisites.
pub open spec fn clears_after_state_change(e: AnchorError) -> bool {
    match e {
        AnchorError::InvalidStatus
        | AnchorError::EscrowLocked
        | AnchorError::InsufficientApprovals
        | AnchorError::NotExpired
        | AnchorError::ShipmentLimitReached
        | AnchorError::CarrierSuspended
        | AnchorError::CompanySuspended
        | AnchorError::ShipmentUnavailable
        | AnchorError::ContractPaused
        | AnchorError::CreationQuotaExceeded
        | AnchorError::DependenciesNotMet => true,
        _ => false,
    }
}

/// Each error's on-chain code follows the order in which `AnchorError`
/// declares its variants: the first eleven are numbered 1 to 11, and the rest
/// continue from 14 (12 and 13 are not used).
pub proof fn lemma_code_follows_declaration_order(e: AnchorError)
    ensures
        (e as u32) < 11 ==> error_code(e) == (e as u32) + 1,
        (e as u32) >= 11 ==> error_code(e) == (e as u32) + 3,
{
}

/// Each category holds exactly the errors that its description names:
/// missing resources are `NotFound`, infrastructure failures `Transient`,
/// initialisation problems `Configuration`, permission failures
/// `Unauthorized`, reached caps `LimitExceeded`, state conflicts
/// `InvalidState`, and every other error is bad input (`InvalidInput`).
pub proof fn lemma_category_meaning(e: AnchorError)
    ensures
        error_category(e) == ErrorCategory::NotFound <==> reports_missing_resource(e),
        error_category(e) == ErrorCategory::Transient <==> is_infrastructure_failure(e),
        error_category(e) == ErrorCategory::Configuration <==> is_initialisation_problem(e),
        error_category(e) == ErrorCategory::Unauthorized <==> is_permission_failure(e),
        error_category(e) == ErrorCategory::LimitExceeded <==> is_limit_hit(e),
        error_category(e) == ErrorCategory::InvalidState <==> is_state_conflict(e),
        error_category(e) == ErrorCategory::InvalidInput <==> !reports_missing_resource(e)
            && !is_infrastructure_failure(e) && !is_initialisation_problem(e)
            && !is_permission_failure(e) && !is_limit_hit(e) && !is_state_conflict(e),
{
}

/// The retry posture follows from how the error clears: after a short delay,
/// after a change of on-chain state, or not at all (`NoRetry`).
pub proof fn lemma_retry_meaning(e: AnchorError)
    ensures
        retry_guidance(e) == RetryGuidance::RetryAfterDelay <==> clears_after_delay(e),
        retry_guidance(e) == RetryGuidance::RetryAfterStateChange <==> clears_after_state_change(e),
        retry_guidance(e) == RetryGuidance::NoRetry <==> !clears_after_delay(e)
            && !clears_after_state_change(e),
{
}

/// A state conflict is not worth retrying exactly when it reports a terminal
/// outcome; every other state conflict is retryable.
pub proof fn lemma_state_conflicts_retryable_unless_terminal(e: AnchorError)
    requires
        error_category(e) == ErrorCategory::InvalidState,
    ensures
        retry_guidance(e) == RetryGuidance::NoRetry <==> is_terminal_outcome(e),
{
}

/// Each error's description, word for word.
pub proof fn lemma_message_text(e: AnchorError)
    ensures
        match e {
            AnchorError::AlreadyInitialized => error_message(e) == "Contract is already initialised; call init only once."@,
            AnchorError::NotInitialized => error_message(e) == "Contract has not been initialised; call init first."@,
            AnchorError::Unauthorized => error_message(e) == "Caller does not hold the required role or signature."@,
            AnchorError::ShipmentNotFound => error_message(e) == "Shipment ID does not exist."@,
            AnchorError::InvalidStatus => error_message(e) == "State transition is not allowed from the current shipment status."@,
            AnchorError::InvalidHash => error_message(e) == "Provided data hash does not match the stored value."@,
            AnchorError::EscrowLocked => error_message(e) == "Escrow is locked; wait for the shipment to reach a terminal state."@,
            AnchorError::InsufficientFunds => error_message(e) == "Caller balance is too low to cover the escrow deposit."@,
            AnchorError::ShipmentAlreadyCompleted => error_message(e) == "Shipment is already in a terminal state (Delivered or Disputed)."@,
            AnchorError::InvalidTimestamp => error_message(e) == "Timestamp is invalid (e.g. ETA is in the past)."@,
            AnchorError::CounterOverflow => error_message(e) == "Internal counter overflowed; contact the contract operator."@,
            AnchorError::InvalidAmount => error_message(e) == "Amount must be a positive non-zero value."@,
            AnchorError::ReentrancyDetected => error_message(e) == "Reentrancy lock is active; retry once the current escrow operation completes."@,
            AnchorError::BatchTooLarge => error_message(e) == "Batch exceeds the maximum allowed item count; split into smaller batches."@,
            AnchorError::InvalidShipmentInput => error_message(e) == "Shipment parameters are invalid (e.g. receiver equals carrier)."@,
            AnchorError::MilestoneSumInvalid => error_message(e) == "Milestone percentages must sum to exactly 100."@,
            AnchorError::MilestoneAlreadyPaid => error_message(e) == "This milestone has already been paid."@,
            AnchorError::MetadataLimitExceeded => error_message(e) == "Maximum of 5 metadata entries per shipment reached."@,
            AnchorError::RateLimitExceeded => error_message(e) == "Minimum interval between status updates has not elapsed; retry later."@,
            AnchorError::ProposalNotFound => error_message(e) == "Multi-sig proposal ID does not exist."@,
            AnchorError::ProposalAlreadyExecuted => error_message(e) == "Proposal has already been executed."@,
            AnchorError::ProposalExpired => error_message(e) == "Proposal has expired; create a new proposal."@,
            AnchorError::AlreadyApproved => error_message(e) == "This admin has already approved the proposal."@,
            AnchorError::InsufficientApprovals => error_message(e) == "Not enough admin approvals; wait for additional signers."@,
            AnchorError::NotAnAdmin => error_message(e) == "Caller is not in the admin list."@,
            AnchorError::InvalidMultiSigConfig => error_message(e) == "Multi-sig config is invalid (e.g. threshold exceeds admin count)."@,
            AnchorError::NotExpired => error_message(e) == "Shipment deadline has not yet passed; wait for expiry."@,
            AnchorError::ShipmentLimitReached => error_message(e) == "Company has reached its active shipment cap; close existing shipments first."@,
            AnchorError::InvalidConfig => error_message(e) == "Configuration parameters are invalid."@,
            AnchorError::CannotSelfRevoke => error_message(e) == "An admin cannot revoke their own role; use transfer_admin instead."@,
            AnchorError::CarrierSuspended => error_message(e) == "Carrier account is suspended; contact the contract operator."@,
            AnchorError::ForceCancelReasonHashMissing => error_message(e) == "Force-cancel requires a non-zero reason hash."@,
            AnchorError::ArithmeticError => error_message(e) == "Arithmetic overflow/underflow in escrow calculation; check amounts."@,
            AnchorError::DisputeReasonHashMissing => error_message(e) == "Dispute resolution requires a non-zero reason hash."@,
            AnchorError::CompanySuspended => error_message(e) == "Company account is suspended; contact the contract operator."@,
            AnchorError::ShipmentFinalized => error_message(e) == "Shipment is finalised and locked; no further mutations are allowed."@,
            AnchorError::TokenTransferFailed => error_message(e) == "Cross-contract token transfer failed; retry after verifying token contract state."@,
            AnchorError::TokenMintFailed => error_message(e) == "Cross-contract token mint failed; retry after verifying token contract state."@,
            AnchorError::DuplicateAction => error_message(e) == "Action hash was already processed within the idempotency window."@,
            AnchorError::ShipmentUnavailable => error_message(e) == "Shipment state is unavailable (archived or expired); restore before retrying."@,
            AnchorError::ContractPaused => error_message(e) == "Contract is paused; wait for the operator to resume operations."@,
            AnchorError::StatusHashNotFound => error_message(e) == "No status hash found for the given shipment and status."@,
            AnchorError::DataHashMismatch => error_message(e) == "Provided hash does not match the stored hash; recompute and resubmit."@,
            AnchorError::CircuitBreakerOpen => error_message(e) == "Circuit breaker is open; token transfers are temporarily disabled."@,
            AnchorError::InvalidMigrationEdge => error_message(e) == "Migration version transition is not permitted."@,
            AnchorError::MilestoneLimitExceeded => error_message(e) == "Maximum milestone events per shipment reached."@,
            AnchorError::NoteLimitExceeded => error_message(e) == "Maximum note events per shipment reached."@,
            AnchorError::EvidenceLimitExceeded => error_message(e) == "Maximum evidence entries per dispute reached."@,
            AnchorError::BreachLimitExceeded => error_message(e) == "Maximum condition breach events per shipment reached."@,
            AnchorError::InvalidTokenDecimals => error_message(e) == "Token decimals do not match the expected value (7); use a Stellar-standard token."@,
            AnchorError::CreationQuotaExceeded => error_message(e) == "Company has exceeded the shipment creation quota for the current time window."@,
            AnchorError::DependenciesNotMet => error_message(e) == "Shipment cannot transition to InTransit or Delivered because its prerequisite shipments are not yet completed."@,
            AnchorError::CircularDependency => error_message(e) == "A circular dependency was detected in the shipment prerequisites."@,
            AnchorError::ProposalSaltReused => error_message(e) == "Proposal salt was already used in a prior proposal; replay attack prevented."@,
            AnchorError::InvalidShipmentParticipants => error_message(e) == "Shipment sender, receiver, and carrier must be three distinct addresses."@,
            AnchorError::InvalidShipmentDeadline => error_message(e) == "Shipment deadline must be strictly in the future."@,
            AnchorError::InvalidPaymentMilestones => error_message(e) == "Payment milestone structure is invalid; each percentage must be 1-100."@,
            AnchorError::DuplicatePaymentMilestone => error_message(e) == "Payment milestone checkpoint names must be unique."@,
            AnchorError::InvalidTokenAddress => error_message(e) == "Shipment token address is invalid for this shipment."@,
            AnchorError::InvalidPaymentMilestoneName => error_message(e) == "Payment milestone checkpoint name has an invalid format."@,
            AnchorError::MetadataSymbolCollision => error_message(e) == "Metadata key and value symbols are identical; use distinct symbols."@,
        },
{
}


/// Distinct errors are reported under distinct on-chain codes, so a code
/// identifies the error it was raised for.
pub proof fn lemma_codes_distinct(a: AnchorError, b: AnchorError)
    requires
        a != b,
    ensures
        error_code(a) != error_code(b),
{
}

/// Every error is reported under a code between 1 and 63.
pub proof fn lemma_code_in_range(e: AnchorError)
    ensures
        1 <= error_code(e) <= 63,
{
}

/// Errors caused by the request itself (bad input, a missing resource, or a
/// configuration problem) are never worth retrying as they stand: they carry
/// the posture `NoRetry`.
pub proof fn lemma_request_errors_not_retryable(e: AnchorError)
    requires
        error_category(e) == ErrorCategory::InvalidInput
            || error_category(e) == ErrorCategory::NotFound
            || error_category(e) == ErrorCategory::Configuration,
    ensures
        retry_guidance(e) == RetryGuidance::NoRetry,
{
}

/// Every error comes with a non-empty description.
pub proof fn lemma_message_nonempty(e: AnchorError)
    ensures
        error_message(e).len() > 0,
{
    match e {
        AnchorError::AlreadyInitialized => reveal_strlit("Contract is already initialised; call init only once."),
        AnchorError::NotInitialized => reveal_strlit("Contract has not been initialised; call init first."),
        AnchorError::Unauthorized => reveal_strlit("Caller does not hold the required role or signature."),
        AnchorError::ShipmentNotFound => reveal_strlit("Shipment ID does not exist."),
        AnchorError::InvalidStatus => reveal_strlit("State transition is not allowed from the current shipment status."),
        AnchorError::InvalidHash => reveal_strlit("Provided data hash does not match the stored value."),
        AnchorError::EscrowLocked => reveal_strlit("Escrow is locked; wait for the shipment to reach a terminal state."),
        AnchorError::InsufficientFunds => reveal_strlit("Caller balance is too low to cover the escrow deposit."),
        AnchorError::ShipmentAlreadyCompleted => reveal_strlit("Shipment is already in a terminal state (Delivered or Disputed)."),
        AnchorError::InvalidTimestamp => reveal_strlit("Timestamp is invalid (e.g. ETA is in the past)."),
        AnchorError::CounterOverflow => reveal_strlit("Internal counter overflowed; contact the contract operator."),
        AnchorError::InvalidAmount => reveal_strlit("Amount must be a positive non-zero value."),
        AnchorError::ReentrancyDetected => reveal_strlit("Reentrancy lock is active; retry once the current escrow operation completes."),
        AnchorError::BatchTooLarge => reveal_strlit("Batch exceeds the maximum allowed item count; split into smaller batches."),
        AnchorError::InvalidShipmentInput => reveal_strlit("Shipment parameters are invalid (e.g. receiver equals carrier)."),
        AnchorError::MilestoneSumInvalid => reveal_strlit("Milestone percentages must sum to exactly 100."),
        AnchorError::MilestoneAlreadyPaid => reveal_strlit("This milestone has already been paid."),
        AnchorError::MetadataLimitExceeded => reveal_strlit("Maximum of 5 metadata entries per shipment reached."),
        AnchorError::RateLimitExceeded => reveal_strlit("Minimum interval between status updates has not elapsed; retry later."),
        AnchorError::ProposalNotFound => reveal_strlit("Multi-sig proposal ID does not exist."),
        AnchorError::ProposalAlreadyExecuted => reveal_strlit("Proposal has already been executed."),
        AnchorError::ProposalExpired => reveal_strlit("Proposal has expired; create a new proposal."),
        AnchorError::AlreadyApproved => reveal_strlit("This admin has already approved the proposal."),
        AnchorError::InsufficientApprovals => reveal_strlit("Not enough admin approvals; wait for additional signers."),
        AnchorError::NotAnAdmin => reveal_strlit("Caller is not in the admin list."),
        AnchorError::InvalidMultiSigConfig => reveal_strlit("Multi-sig config is invalid (e.g. threshold exceeds admin count)."),
        AnchorError::NotExpired => reveal_strlit("Shipment deadline has not yet passed; wait for expiry."),
        AnchorError::ShipmentLimitReached => reveal_strlit("Company has reached its active shipment cap; close existing shipments first."),
        AnchorError::InvalidConfig => reveal_strlit("Configuration parameters are invalid."),
        AnchorError::CannotSelfRevoke => reveal_strlit("An admin cannot revoke their own role; use transfer_admin instead."),
        AnchorError::CarrierSuspended => reveal_strlit("Carrier account is suspended; contact the contract operator."),
        AnchorError::ForceCancelReasonHashMissing => reveal_strlit("Force-cancel requires a non-zero reason hash."),
        AnchorError::ArithmeticError => reveal_strlit("Arithmetic overflow/underflow in escrow calculation; check amounts."),
        AnchorError::DisputeReasonHashMissing => reveal_strlit("Dispute resolution requires a non-zero reason hash."),
        AnchorError::CompanySuspended => reveal_strlit("Company account is suspended; contact the contract operator."),
        AnchorError::ShipmentFinalized => reveal_strlit("Shipment is finalised and locked; no further mutations are allowed."),
        AnchorError::TokenTransferFailed => reveal_strlit("Cross-contract token transfer failed; retry after verifying token contract state."),
        AnchorError::TokenMintFailed => reveal_strlit("Cross-contract token mint failed; retry after verifying token contract state."),
        AnchorError::DuplicateAction => reveal_strlit("Action hash was already processed within the idempotency window."),
        AnchorError::ShipmentUnavailable => reveal_strlit("Shipment state is unavailable (archived or expired); restore before retrying."),
        AnchorError::ContractPaused => reveal_strlit("Contract is paused; wait for the operator to resume operations."),
        AnchorError::StatusHashNotFound => reveal_strlit("No status hash found for the given shipment and status."),
        AnchorError::DataHashMismatch => reveal_strlit("Provided hash does not match the stored hash; recompute and resubmit."),
        AnchorError::CircuitBreakerOpen => reveal_strlit("Circuit breaker is open; token transfers are temporarily disabled."),
        AnchorError::InvalidMigrationEdge => reveal_strlit("Migration version transition is not permitted."),
        AnchorError::MilestoneLimitExceeded => reveal_strlit("Maximum milestone events per shipment reached."),
        AnchorError::NoteLimitExceeded => reveal_strlit("Maximum note events per shipment reached."),
        AnchorError::EvidenceLimitExceeded => reveal_strlit("Maximum evidence entries per dispute reached."),
        AnchorError::BreachLimitExceeded => reveal_strlit("Maximum condition breach events per shipment reached."),
        AnchorError::InvalidTokenDecimals => reveal_strlit("Token decimals do not match the expected value (7); use a Stellar-standard token."),
        AnchorError::CreationQuotaExceeded => reveal_strlit("Company has exceeded the shipment creation quota for the current time window."),
        AnchorError::DependenciesNotMet => reveal_strlit("Shipment cannot transition to InTransit or Delivered because its prerequisite shipments are not yet completed."),
        AnchorError::CircularDependency => reveal_strlit("A circular dependency was detected in the shipment prerequisites."),
        AnchorError::ProposalSaltReused => reveal_strlit("Proposal salt was already used in a prior proposal; replay attack prevented."),
        AnchorError::InvalidShipmentParticipants => reveal_strlit("Shipment sender, receiver, and carrier must be three distinct addresses."),
        AnchorError::InvalidShipmentDeadline => reveal_strlit("Shipment deadline must be strictly in the future."),
        AnchorError::InvalidPaymentMilestones => reveal_strlit("Payment milestone structure is invalid; each percentage must be 1-100."),
        AnchorError::DuplicatePaymentMilestone => reveal_strlit("Payment milestone checkpoint names must be unique."),
        AnchorError::InvalidTokenAddress => reveal_strlit("Shipment token address is invalid for this shipment."),
        AnchorError::InvalidPaymentMilestoneName => reveal_strlit("Payment milestone checkpoint name has an invalid format."),
        AnchorError::MetadataSymbolCollision => reveal_strlit("Metadata key and value symbols are identical; use distinct symbols."),
    }
}

} // verus!
