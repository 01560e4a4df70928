//! The contract's error taxonomy.
//!
//! A failing entry point ends in one of two ways. A *typed error*
//! ([`SinkError`]) is returned to the caller as a normal "transaction
//! failed, nothing moved" outcome. A *fatal abort* ([`FatalError`]) stops
//! the whole invocation and signals an unexpected condition that deserves
//! operator attention. Either way the hosting environment rolls back every
//! state change of the invocation, and the model's entry points promise
//! the same.

use crate::address::Address;
use vstd::prelude::*;

verus! {

/// The caller-facing errors. Their numeric identities (see
/// [`sink_error_code`]) are externally observable and must stay stable.
#[derive(Clone, Copy, Debug, PartialEq, Eq, Structural)]
pub enum SinkError {
    /// A swap was attempted while the contract is deactivated.
    ContractDeactivated,
    /// The quantized amount is below the minimum sink amount.
    AmountTooLow,
    /// A negative minimum sink amount was proposed.
    NegativeAmount,
    /// The funder's CARBON balance cannot cover the burn.
    InsufficientBalance,
    /// The funder or the recipient lacks the ledger entry needed to hold
    /// or move the asset.
    AccountOrTrustlineMissing,
    /// The credit would push the recipient's CarbonSINK holding past its
    /// trustline limit.
    TrustlineLimitReached,
}

/// The stable numeric identity of each caller-facing error.
pub open spec fn spec_sink_error_code(e: SinkError) -> u32 {
    match e {
        SinkError::ContractDeactivated => 1066u32,
        SinkError::AmountTooLow => 1067u32,
        SinkError::NegativeAmount => 1068u32,
        SinkError::InsufficientBalance => 1069u32,
        SinkError::AccountOrTrustlineMissing => 1070u32,
        SinkError::TrustlineLimitReached => 1071u32,
    }
}

/// The stable numeric identity of each caller-facing error.
#[verifier::when_used_as_spec(spec_sink_error_code)]
pub fn sink_error_code(e: SinkError) -> (c: u32)
    ensures
        c == spec_sink_error_code(e),
{
    match e {
        SinkError::ContractDeactivated => 1066,
        SinkError::AmountTooLow => 1067,
        SinkError::NegativeAmount => 1068,
        SinkError::InsufficientBalance => 1069,
        SinkError::AccountOrTrustlineMissing => 1070,
        SinkError::TrustlineLimitReached => 1071,
    }
}

/// The error codes of the external asset service (the Stellar Asset
/// Contract). The service reports each as a bare number (see
/// [`sac_error_code`]); codes outside this list may appear in newer
/// service versions and are never treated as success.
#[derive(Clone, Copy, Debug, PartialEq, Eq, Structural)]
pub enum SACError {
    InternalError,
    OperationNotSupportedError,
    AlreadyInitializedError,
    UnauthorizedError,
    AuthenticationError,
    AccountMissingError,
    AccountIsNotClassic,
    NegativeAmountError,
    AllowanceError,
    BalanceError,
    BalanceDeauthorizedError,
    OverflowError,
    TrustlineMissingError,
}

/// The numeric code under which the asset service reports each error.
pub open spec fn spec_sac_error_code(e: SACError) -> u32 {
    match e {
        SACError::InternalError => 1u32,
        SACError::OperationNotSupportedError => 2u32,
        SACError::AlreadyInitializedError => 3u32,
        SACError::UnauthorizedError => 4u32,
        SACError::AuthenticationError => 5u32,
        SACError::AccountMissingError => 6u32,
        SACError::AccountIsNotClassic => 7u32,
        SACError::NegativeAmountError => 8u32,
        SACError::AllowanceError => 9u32,
        SACError::BalanceError => 10u32,
        SACError::BalanceDeauthorizedError => 11u32,
        SACError::OverflowError => 12u32,
        SACError::TrustlineMissingError => 13u32,
    }
}

/// The numeric code under which the asset service reports each error.
#[verifier::when_used_as_spec(spec_sac_error_code)]
pub fn sac_error_code(e: SACError) -> (c: u32)
    ensures
        c == spec_sac_error_code(e),
{
    match e {
        SACError::InternalError => 1,
        SACError::OperationNotSupportedError => 2,
        SACError::AlreadyInitializedError => 3,
        SACError::UnauthorizedError => 4,
        SACError::AuthenticationError => 5,
        SACError::AccountMissingError => 6,
        SACError::AccountIsNotClassic => 7,
        SACError::NegativeAmountError => 8,
        SACError::AllowanceError => 9,
        SACError::BalanceError => 10,
        SACError::BalanceDeauthorizedError => 11,
        SACError::OverflowError => 12,
        SACError::TrustlineMissingError => 13,
    }
}

/// A condition that aborts the whole invocation. Unlike a typed error it
/// is never handed to the caller as a value by the hosting environment;
/// the model surfaces it so that callers and tests can observe which
/// abort occurred.
#[derive(Clone, Copy, Debug, PartialEq, Eq, Structural)]
pub enum FatalError {
    /// The named principal has not authorized this invocation.
    MissingAuthorization(Address),
    /// An asset-service call failed with a code outside the recognized
    /// taxonomy; it is re-raised rather than swallowed.
    UnexpectedServiceError(u32),
    /// An asset-service call did not return at all (the callee aborted or
    /// could not be invoked).
    InvocationFailed,
}

/// How a failed entry point ended: rejected with a typed error, or
/// aborted fatally. Both leave every balance and every stored field
/// exactly as it was.
#[derive(Clone, Copy, Debug, PartialEq, Eq, Structural)]
pub enum SinkFailure {
    Rejected(SinkError),
    Aborted(FatalError),
}

} // verus!
