use sink_carbon::classify::{
    classify_burn, classify_mint, classify_set_authorized, subcall_outcome, Classification,
    SubCallOutcome,
};
use sink_carbon::errors::{sac_error_code, sink_error_code, FatalError, SACError, SinkError};

#[test]
fn test_sink_error_codes_are_stable() {
    assert_eq!(sink_error_code(SinkError::ContractDeactivated), 1066);
    assert_eq!(sink_error_code(SinkError::AmountTooLow), 1067);
    assert_eq!(sink_error_code(SinkError::NegativeAmount), 1068);
    assert_eq!(sink_error_code(SinkError::InsufficientBalance), 1069);
    assert_eq!(sink_error_code(SinkError::AccountOrTrustlineMissing), 1070);
    assert_eq!(sink_error_code(SinkError::TrustlineLimitReached), 1071);
}

#[test]
fn test_sac_error_codes_are_stable() {
    assert_eq!(sac_error_code(SACError::InternalError), 1);
    assert_eq!(sac_error_code(SACError::UnauthorizedError), 4);
    assert_eq!(sac_error_code(SACError::BalanceError), 10);
    assert_eq!(sac_error_code(SACError::BalanceDeauthorizedError), 11);
    assert_eq!(sac_error_code(SACError::OverflowError), 12);
    assert_eq!(sac_error_code(SACError::TrustlineMissingError), 13);
}

#[test]
fn test_classify_burn_recognized_codes() {
    assert_eq!(
        classify_burn(SubCallOutcome::ContractError(10)),
        Classification::Reject(SinkError::InsufficientBalance)
    );
    assert_eq!(
        classify_burn(SubCallOutcome::ContractError(13)),
        Classification::Reject(SinkError::AccountOrTrustlineMissing)
    );
    assert_eq!(classify_burn(SubCallOutcome::Success), Classification::Proceed);
}

#[test]
fn test_classify_set_authorized_recognized_codes() {
    assert_eq!(
        classify_set_authorized(SubCallOutcome::ContractError(13)),
        Classification::Reject(SinkError::AccountOrTrustlineMissing)
    );
    // a balance error is not recognized on this sub-call
    assert_eq!(
        classify_set_authorized(SubCallOutcome::ContractError(10)),
        Classification::Abort(FatalError::UnexpectedServiceError(10))
    );
    assert_eq!(classify_set_authorized(SubCallOutcome::Success), Classification::Proceed);
}

#[test]
fn test_classify_mint_recognized_codes() {
    assert_eq!(
        classify_mint(SubCallOutcome::ContractError(10)),
        Classification::Reject(SinkError::TrustlineLimitReached)
    );
    // a missing trustline is not recognized on this sub-call
    assert_eq!(
        classify_mint(SubCallOutcome::ContractError(13)),
        Classification::Abort(FatalError::UnexpectedServiceError(13))
    );
    assert_eq!(classify_mint(SubCallOutcome::Success), Classification::Proceed);
}

#[test]
fn test_classify_unrecognized_code_is_fatal() {
    // a brand-new upstream code must never be treated as success or as a
    // known business error
    for code in [0_u32, 1, 2, 99, 4096] {
        assert_eq!(
            classify_burn(SubCallOutcome::ContractError(code)),
            Classification::Abort(FatalError::UnexpectedServiceError(code))
        );
        assert_eq!(
            classify_set_authorized(SubCallOutcome::ContractError(code)),
            Classification::Abort(FatalError::UnexpectedServiceError(code))
        );
        assert_eq!(
            classify_mint(SubCallOutcome::ContractError(code)),
            Classification::Abort(FatalError::UnexpectedServiceError(code))
        );
    }
}

#[test]
fn test_classify_invoke_failure_is_fatal() {
    assert_eq!(
        classify_burn(SubCallOutcome::InvokeFailure),
        Classification::Abort(FatalError::InvocationFailed)
    );
    assert_eq!(
        classify_set_authorized(SubCallOutcome::InvokeFailure),
        Classification::Abort(FatalError::InvocationFailed)
    );
    assert_eq!(
        classify_mint(SubCallOutcome::InvokeFailure),
        Classification::Abort(FatalError::InvocationFailed)
    );
}

#[test]
fn test_subcall_outcome_folding() {
    assert_eq!(subcall_outcome(Ok(())), SubCallOutcome::Success);
    assert_eq!(
        subcall_outcome(Err(SACError::BalanceError)),
        SubCallOutcome::ContractError(10)
    );
    assert_eq!(
        subcall_outcome(Err(SACError::TrustlineMissingError)),
        SubCallOutcome::ContractError(13)
    );
}
