//! Classification of asset-service sub-call outcomes.
//!
//! Every call into an external asset service comes back as one of: a
//! normal return, a service-level error code, or no return at all. The
//! swap recognizes a fixed set of codes per sub-call and maps each to a
//! caller-facing error; everything else — unrecognized codes as well as
//! failed invocations — is re-raised as a fatal abort, so that a new
//! upstream error code can never be mistaken for success or for a known
//! business error.

use crate::errors::{sac_error_code, spec_sac_error_code, FatalError, SACError, SinkError};
use vstd::prelude::*;

verus! {

/// What a single asset-service sub-call came back with.
#[derive(Clone, Copy, Debug, PartialEq, Eq, Structural)]
pub enum SubCallOutcome {
    /// The call returned normally.
    Success,
    /// The call failed with a service-level error code.
    ContractError(u32),
    /// The call did not return: the callee aborted or could not be
    /// invoked.
    InvokeFailure,
}

/// What the swap does with a classified sub-call outcome.
#[derive(Clone, Copy, Debug, PartialEq, Eq, Structural)]
pub enum Classification {
    /// The sub-call succeeded; carry on with the next step.
    Proceed,
    /// A recognized business failure; return the typed error.
    Reject(SinkError),
    /// An unrecognized or transport-level failure; abort the invocation.
    Abort(FatalError),
}

/// Classification of the CARBON burn: an insufficient balance and a
/// missing trustline are business errors, everything else is fatal.
pub open spec fn spec_classify_burn(o: SubCallOutcome) -> Classification {
    match o {
        SubCallOutcome::Success => Classification::Proceed,
        SubCallOutcome::ContractError(code) => if code == spec_sac_error_code(
            SACError::BalanceError,
        ) {
            Classification::Reject(SinkError::InsufficientBalance)
        } else if code == spec_sac_error_code(SACError::TrustlineMissingError) {
            Classification::Reject(SinkError::AccountOrTrustlineMissing)
        } else {
            Classification::Abort(FatalError::UnexpectedServiceError(code))
        },
        SubCallOutcome::InvokeFailure => Classification::Abort(FatalError::InvocationFailed),
    }
}

/// Classification of the CARBON burn (see [`spec_classify_burn`]).
#[verifier::when_used_as_spec(spec_classify_burn)]
pub fn classify_burn(o: SubCallOutcome) -> (c: Classification)
    ensures
        c == spec_classify_burn(o),
{
    match o {
        SubCallOutcome::Success => Classification::Proceed,
        SubCallOutcome::ContractError(code) => if code == sac_error_code(
            SACError::BalanceError,
        ) {
            Classification::Reject(SinkError::InsufficientBalance)
        } else if code == sac_error_code(SACError::TrustlineMissingError) {
            Classification::Reject(SinkError::AccountOrTrustlineMissing)
        } else {
            Classification::Abort(FatalError::UnexpectedServiceError(code))
        },
        SubCallOutcome::InvokeFailure => Classification::Abort(FatalError::InvocationFailed),
    }
}

/// Classification of enabling the recipient's CarbonSINK receipt: only a
/// missing trustline is a business error, everything else is fatal.
pub open spec fn spec_classify_set_authorized(o: SubCallOutcome) -> Classification {
    match o {
        SubCallOutcome::Success => Classification::Proceed,
        SubCallOutcome::ContractError(code) => if code == spec_sac_error_code(
            SACError::TrustlineMissingError,
        ) {
            Classification::Reject(SinkError::AccountOrTrustlineMissing)
        } else {
            Classification::Abort(FatalError::UnexpectedServiceError(code))
        },
        SubCallOutcome::InvokeFailure => Classification::Abort(FatalError::InvocationFailed),
    }
}

/// Classification of enabling the recipient's CarbonSINK receipt (see
/// [`spec_classify_set_authorized`]).
#[verifier::when_used_as_spec(spec_classify_set_authorized)]
pub fn classify_set_authorized(o: SubCallOutcome) -> (c: Classification)
    ensures
        c == spec_classify_set_authorized(o),
{
    match o {
        SubCallOutcome::Success => Classification::Proceed,
        SubCallOutcome::ContractError(code) => if code == sac_error_code(
            SACError::TrustlineMissingError,
        ) {
            Classification::Reject(SinkError::AccountOrTrustlineMissing)
        } else {
            Classification::Abort(FatalError::UnexpectedServiceError(code))
        },
        SubCallOutcome::InvokeFailure => Classification::Abort(FatalError::InvocationFailed),
    }
}

/// Classification of the CarbonSINK mint: a balance error here means the
/// credit would exceed the recipient's trustline limit; everything else
/// is fatal.
pub open spec fn spec_classify_mint(o: SubCallOutcome) -> Classification {
    match o {
        SubCallOutcome::Success => Classification::Proceed,
        SubCallOutcome::ContractError(code) => if code == spec_sac_error_code(
            SACError::BalanceError,
        ) {
            Classification::Reject(SinkError::TrustlineLimitReached)
        } else {
            Classification::Abort(FatalError::UnexpectedServiceError(code))
        },
        SubCallOutcome::InvokeFailure => Classification::Abort(FatalError::InvocationFailed),
    }
}

/// Classification of the CarbonSINK mint (see [`spec_classify_mint`]).
#[verifier::when_used_as_spec(spec_classify_mint)]
pub fn classify_mint(o: SubCallOutcome) -> (c: Classification)
    ensures
        c == spec_classify_mint(o),
{
    match o {
        SubCallOutcome::Success => Classification::Proceed,
        SubCallOutcome::ContractError(code) => if code == sac_error_code(
            SACError::BalanceError,
        ) {
            Classification::Reject(SinkError::TrustlineLimitReached)
        } else {
            Classification::Abort(FatalError::UnexpectedServiceError(code))
        },
        SubCallOutcome::InvokeFailure => Classification::Abort(FatalError::InvocationFailed),
    }
}

/// The sub-call outcome that reports a service-level error `e`.
pub open spec fn spec_service_error(e: SACError) -> SubCallOutcome {
    SubCallOutcome::ContractError(spec_sac_error_code(e))
}

/// Folds a model asset-service result into a sub-call outcome. The model
/// service always replies, so a failed invocation never arises here; the
/// live host can additionally report [`SubCallOutcome::InvokeFailure`].
#[verifier::when_used_as_spec(spec_subcall_outcome)]
pub fn subcall_outcome(r: Result<(), SACError>) -> (o: SubCallOutcome)
    ensures
        o == spec_subcall_outcome(r),
{
    match r {
        Ok(()) => SubCallOutcome::Success,
        Err(e) => SubCallOutcome::ContractError(sac_error_code(e)),
    }
}

/// See [`subcall_outcome`].
pub open spec fn spec_subcall_outcome(r: Result<(), SACError>) -> SubCallOutcome {
    match r {
        Ok(()) => SubCallOutcome::Success,
        Err(e) => spec_service_error(e),
    }
}

} // verus!
