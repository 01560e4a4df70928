use sink_carbon::address::Address;
use sink_carbon::auth::AuthContext;
use sink_carbon::contract::SinkContract;
use sink_carbon::errors::{FatalError, SACError, SinkError, SinkFailure};
use sink_carbon::token::{TokenContract, Trustline};

const LEDGER_SEQ: u32 = 100_000;
const FUNDER: Address = Address(1);
const CARBONSINK_ISSUER: Address = Address(2);
const CARBON_ISSUER: Address = Address(3);
const CARBON_ID: Address = Address(10);
const CARBONSINK_ID: Address = Address(11);
const CONTRACT_ID: Address = Address(20);

fn set_up_contracts_and_funder(
    funder_balance: i64,
) -> (SinkContract, TokenContract, TokenContract) {
    let contract = SinkContract::initialize(
        CONTRACT_ID,
        CARBONSINK_ISSUER,
        CARBON_ID,
        CARBONSINK_ID,
        135_000,
    );
    let mut carbon = TokenContract::new(CARBON_ID, CARBON_ISSUER);
    let mut carbonsink = TokenContract::new(CARBONSINK_ID, CARBONSINK_ISSUER);
    // the sink contract administers the CarbonSINK service
    assert!(carbonsink.set_admin(CARBONSINK_ISSUER, CONTRACT_ID).is_ok());
    // the funder holds `funder_balance` of CARBON and a locked CarbonSINK line
    carbon.set_line(
        FUNDER,
        Trustline { balance: funder_balance, limit: i64::MAX, authorized: true },
    );
    carbonsink.set_line(FUNDER, Trustline { balance: 0, limit: i64::MAX, authorized: false });
    (contract, carbon, carbonsink)
}

fn sink_carbon_with_auth(
    contract: &mut SinkContract,
    carbon: &mut TokenContract,
    carbonsink: &mut TokenContract,
    funder: Address,
    recipient: Address,
    amount: i64,
    project_id: &str,
    memo_text: &str,
) -> Result<(), SinkFailure> {
    let auth = AuthContext::approved_by(funder);
    contract.sink_carbon(
        carbon,
        carbonsink,
        &auth,
        funder,
        recipient,
        amount,
        project_id,
        memo_text,
        LEDGER_SEQ,
    )
}

fn check_sink_carbon_happy() {
    let (mut contract, mut carbon, mut carbonsink) = set_up_contracts_and_funder(10_000_000);

    // have the funder sink 0.1 CARBON
    let res = sink_carbon_with_auth(
        &mut contract,
        &mut carbon,
        &mut carbonsink,
        FUNDER,
        FUNDER,
        1_000_000,
        "VCS1360",
        "100 kg 🌳🌴",
    );
    assert!(res.is_ok());

    // assert the effect on balances
    assert_eq!(carbon.balance(FUNDER), Ok(9_000_000));
    assert_eq!(carbonsink.balance(FUNDER), Ok(1_000_000));
}

fn check_sink_carbon_twice() {
    let (mut contract, mut carbon, mut carbonsink) = set_up_contracts_and_funder(10_000_000);

    // have the funder sink 0.3 CARBON, then 0.1 CARBON
    let res_a = sink_carbon_with_auth(
        &mut contract,
        &mut carbon,
        &mut carbonsink,
        FUNDER,
        FUNDER,
        3_000_000,
        "VCS1360",
        "300 kg 🌳🌴",
    );
    assert!(res_a.is_ok());
    let res_b = sink_carbon_with_auth(
        &mut contract,
        &mut carbon,
        &mut carbonsink,
        FUNDER,
        FUNDER,
        1_000_000,
        "VCS1360",
        "100 kg 🌳🌴",
    );
    assert!(res_b.is_ok());

    // assert the effect on balances
    assert_eq!(carbon.balance(FUNDER), Ok(6_000_000));
    assert_eq!(carbonsink.balance(FUNDER), Ok(4_000_000));
}

fn check_sink_carbon_separate_recipient() {
    let (mut contract, mut carbon, mut carbonsink) = set_up_contracts_and_funder(10_000_000);
    let recipient = Address(4);
    carbon.set_line(recipient, Trustline { balance: 0, limit: i64::MAX, authorized: true });
    carbonsink.set_line(recipient, Trustline { balance: 0, limit: i64::MAX, authorized: false });

    // have the funder sink 0.333 CARBON for the recipient
    let res = sink_carbon_with_auth(
        &mut contract,
        &mut carbon,
        &mut carbonsink,
        FUNDER,
        recipient,
        3_330_000,
        "OFP1234567890",
        "333 kg 🍄‍🟫🍄🍄‍🟫",
    );
    assert!(res.is_ok());

    // assert the effect on balances
    assert_eq!(carbon.balance(FUNDER), Ok(6_670_000));
    assert_eq!(carbon.balance(recipient), Ok(0));
    assert_eq!(carbonsink.balance(FUNDER), Ok(0));
    assert_eq!(carbonsink.balance(recipient), Ok(3_330_000));
}

fn check_sink_amount_too_low() {
    let (mut contract, mut carbon, mut carbonsink) = set_up_contracts_and_funder(10_000_000);

    // attempt to sink 0.099 CARBON: below the default minimum of 0.1
    let res = sink_carbon_with_auth(
        &mut contract,
        &mut carbon,
        &mut carbonsink,
        FUNDER,
        FUNDER,
        990_000,
        "SOMEPROJECT",
        "99 kg 🌳🌴",
    );
    assert_eq!(res, Err(SinkFailure::Rejected(SinkError::AmountTooLow)));

    // assert the lack of effect on balances
    assert_eq!(carbon.balance(FUNDER), Ok(10_000_000));
    assert_eq!(carbonsink.balance(FUNDER), Ok(0));
}

#[test]
fn test_sink_contract_inactive() {
    let (mut contract, mut carbon, mut carbonsink) = set_up_contracts_and_funder(10_000_000);
    let admin_auth = AuthContext::approved_by(CARBONSINK_ISSUER);
    assert!(contract.deactivate(&admin_auth, LEDGER_SEQ).is_ok());

    // attempt to sink 1 CARBON: it fails because the contract is inactive
    let res = sink_carbon_with_auth(
        &mut contract,
        &mut carbon,
        &mut carbonsink,
        FUNDER,
        FUNDER,
        10_000_000,
        "SOMEPROJECT",
        "A TON",
    );
    assert_eq!(res, Err(SinkFailure::Rejected(SinkError::ContractDeactivated)));
    assert_eq!(carbon.balance(FUNDER), Ok(10_000_000));
}

#[test]
fn test_funder_balance_too_low() {
    let (mut contract, mut carbon, mut carbonsink) = set_up_contracts_and_funder(500);

    // attempt to sink 0.1 CARBON with only 500 decigrams funded
    let res = sink_carbon_with_auth(
        &mut contract,
        &mut carbon,
        &mut carbonsink,
        FUNDER,
        FUNDER,
        1_000_000,
        "VCS1360",
        "100 kg 🌳🌴",
    );
    assert_eq!(res, Err(SinkFailure::Rejected(SinkError::InsufficientBalance)));
}

#[test]
fn test_funder_account_or_trustline_missing() {
    let (mut contract, mut carbon, mut carbonsink) = set_up_contracts_and_funder(0);
    let stranger = Address(8);

    // the stranger holds no CARBON entry at all
    assert_eq!(carbon.balance(stranger), Err(SACError::TrustlineMissingError));

    // attempt to sink without any CARBON account or trustline
    let res = sink_carbon_with_auth(
        &mut contract,
        &mut carbon,
        &mut carbonsink,
        stranger,
        stranger,
        1_000_000,
        "VCS1360",
        "100 kg 🌳🌴",
    );
    assert_eq!(res, Err(SinkFailure::Rejected(SinkError::AccountOrTrustlineMissing)));
}

#[test]
fn test_recipient_account_or_trustline_issues() {
    let (mut contract, mut carbon, mut carbonsink) = set_up_contracts_and_funder(10_000_000);
    let recipient = Address(9);

    // the recipient holds no CarbonSINK entry yet
    let res = sink_carbon_with_auth(
        &mut contract,
        &mut carbon,
        &mut carbonsink,
        FUNDER,
        recipient,
        1_000_000,
        "VCS1360",
        "100 kg 🌳🌴",
    );
    assert_eq!(res, Err(SinkFailure::Rejected(SinkError::AccountOrTrustlineMissing)));

    // a trustline with a limit of 100 is too small for the credit
    carbonsink.set_line(recipient, Trustline { balance: 0, limit: 100, authorized: false });
    let res = sink_carbon_with_auth(
        &mut contract,
        &mut carbon,
        &mut carbonsink,
        FUNDER,
        recipient,
        1_000_000,
        "VCS1360",
        "100 kg 🌳🌴",
    );
    assert_eq!(res, Err(SinkFailure::Rejected(SinkError::TrustlineLimitReached)));

    // for good measure, test the happy flow as well
    carbonsink.set_line(recipient, Trustline { balance: 0, limit: i64::MAX, authorized: false });
    let res = sink_carbon_with_auth(
        &mut contract,
        &mut carbon,
        &mut carbonsink,
        FUNDER,
        recipient,
        1_000_000,
        "VCS1360",
        "100 kg 🌳🌴",
    );
    assert!(res.is_ok());

    // assert the effect on balances
    assert_eq!(carbon.balance(FUNDER), Ok(9_000_000));
    assert_eq!(carbon.balance(recipient), Err(SACError::TrustlineMissingError));
    assert_eq!(carbonsink.balance(FUNDER), Ok(0));
    assert_eq!(carbonsink.balance(recipient), Ok(1_000_000));
}

#[test]
fn test_sink_without_funder_approval() {
    let (mut contract, mut carbon, mut carbonsink) = set_up_contracts_and_funder(10_000_000);

    // nobody approved the invocation: the authorization gate fails closed
    let auth = AuthContext::none();
    let res = contract.sink_carbon(
        &mut carbon,
        &mut carbonsink,
        &auth,
        FUNDER,
        FUNDER,
        1_000_000,
        "VCS1360",
        "100 kg 🌳🌴",
        LEDGER_SEQ,
    );
    assert_eq!(res, Err(SinkFailure::Aborted(FatalError::MissingAuthorization(FUNDER))));
    assert_eq!(carbon.balance(FUNDER), Ok(10_000_000));
    assert_eq!(carbonsink.balance(FUNDER), Ok(0));
}

#[test]
fn test_swap_leaves_other_parties_unchanged() {
    let (mut contract, mut carbon, mut carbonsink) = set_up_contracts_and_funder(10_000_000);
    let bystander = Address(6);
    carbon.set_line(bystander, Trustline { balance: 777, limit: i64::MAX, authorized: true });
    carbonsink.set_line(bystander, Trustline { balance: 55, limit: i64::MAX, authorized: false });

    let res = sink_carbon_with_auth(
        &mut contract,
        &mut carbon,
        &mut carbonsink,
        FUNDER,
        FUNDER,
        1_000_000,
        "VCS1360",
        "100 kg 🌳🌴",
    );
    assert!(res.is_ok());

    // the bystander's balances of both assets are untouched, and the
    // contract itself still holds nothing of either asset
    assert_eq!(carbon.balance(bystander), Ok(777));
    assert_eq!(carbonsink.balance(bystander), Ok(55));
    assert_eq!(carbon.balance(CONTRACT_ID), Err(SACError::TrustlineMissingError));
    assert_eq!(carbonsink.balance(CONTRACT_ID), Err(SACError::TrustlineMissingError));
}

#[test]
fn test_sink_carbon_happy() {
    check_sink_carbon_happy();
}

#[test]
fn test_test_sink_carbon_happy() {
    check_sink_carbon_happy();
}

#[test]
fn test_sink_carbon_twice() {
    check_sink_carbon_twice();
}

#[test]
fn test_test_sink_carbon_twice() {
    check_sink_carbon_twice();
}

#[test]
fn test_sink_carbon_separate_recipient() {
    check_sink_carbon_separate_recipient();
}

#[test]
fn test_test_sink_carbon_separate_recipient() {
    check_sink_carbon_separate_recipient();
}

#[test]
fn test_sink_amount_too_low() {
    check_sink_amount_too_low();
}

#[test]
fn test_test_sink_amount_too_low() {
    check_sink_amount_too_low();
}
