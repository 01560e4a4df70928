//! The sink contract: policy checks, the swap orchestration, and the
//! administrative state machine.
//!
//! Every entry point refreshes the persisted state's time-to-live and
//! then reads or mutates the contract state, and — for the swap — drives
//! the two asset services. An entry point that fails, whether with a
//! typed error or a fatal abort, leaves the contract state and both
//! services exactly as they were: the hosting environment runs each
//! invocation transactionally, and the model reproduces that by staging
//! every service mutation and committing only on success.

use crate::address::Address;
use crate::auth::AuthContext;
use crate::classify::{
    classify_burn, classify_mint, classify_set_authorized, spec_classify_burn, spec_classify_mint,
    spec_classify_set_authorized, spec_subcall_outcome, subcall_outcome, Classification,
};
use crate::errors::{spec_sac_error_code, sac_error_code, FatalError, SinkError, SinkFailure};
use crate::quantize::{quantize_to_kg, quantized};
use crate::storage_types::{extended_live_until, INSTANCE_EXTEND_AMOUNT, INSTANCE_TTL_THRESHOLD};
use crate::token::{spec_mint_line, updated_line, TokenContract, Trustline};
use vstd::prelude::*;

verus! {

/// The minimum sink amount a fresh contract starts with: one hundred
/// resolution units (100 kg).
pub const DEFAULT_SINK_MINIMUM: i64 = 1_000_000;

/// The contract's persisted state, together with its own ledger identity
/// and the lifetime horizon of the persisted record.
pub struct SinkContract {
    /// This instance's own address on the ledger.
    pub contract_address: Address,
    /// The principal allowed to perform administrative mutations.
    pub admin: Address,
    /// The address of the CARBON asset service (the asset being retired).
    pub carbon_id: Address,
    /// The address of the CarbonSINK asset service (the receipt asset).
    pub carbonsink_id: Address,
    /// Gates the swap alone; administrative operations stay available.
    pub active: bool,
    /// Inclusive lower bound on the quantized swap amount.
    pub sink_minimum: i64,
    /// The newer instance this one defers to, when one was recorded.
    pub successor: Option<Address>,
    /// The ledger until which the persisted state lives.
    pub live_until_ledger: u32,
}

impl SinkContract {
    /// The state invariant: the minimum sink amount is never negative.
    pub open spec fn wf(self) -> bool {
        self.sink_minimum >= 0
    }

    /// The persisted record has not expired at ledger `ledger_seq` and a
    /// refresh there stays within the ledger-sequence type.
    pub open spec fn ttl_refreshable(self, ledger_seq: u32) -> bool {
        &&& ledger_seq <= self.live_until_ledger
        &&& ledger_seq + INSTANCE_EXTEND_AMOUNT <= u32::MAX
    }

    /// `self` after one TTL refresh at ledger `ledger_seq`.
    pub open spec fn refreshed(self, ledger_seq: u32) -> SinkContract {
        SinkContract {
            live_until_ledger: extended_live_until(self.live_until_ledger, ledger_seq),
            ..self
        }
    }

    /// `self` after a successful `activate` at ledger `ledger_seq`.
    pub open spec fn activated(self, ledger_seq: u32) -> SinkContract {
        SinkContract { active: true, ..self.refreshed(ledger_seq) }
    }

    /// `self` after a successful `deactivate` at ledger `ledger_seq`.
    pub open spec fn deactivated(self, ledger_seq: u32) -> SinkContract {
        SinkContract { active: false, ..self.refreshed(ledger_seq) }
    }

    /// The recorded successor, or this instance's own address while none
    /// was recorded.
    pub open spec fn successor_or_self(self) -> Address {
        match self.successor {
            Some(a) => a,
            None => self.contract_address,
        }
    }

    /// The abort every administrative entry point answers when the
    /// invocation lacks the administrator's approval.
    pub open spec fn admin_gate_failure(self) -> SinkFailure {
        SinkFailure::Aborted(FatalError::MissingAuthorization(self.admin))
    }

    /// Creates the contract state. Called exactly once, at deployment,
    /// before any other entry point; the instance starts active, with the
    /// default minimum and no successor.
    pub fn initialize(
        contract_address: Address,
        admin: Address,
        carbon_id: Address,
        carbonsink_id: Address,
        live_until_ledger: u32,
    ) -> (c: SinkContract)
        ensures
            c.wf(),
            c == (SinkContract {
                contract_address,
                admin,
                carbon_id,
                carbonsink_id,
                active: true,
                sink_minimum: DEFAULT_SINK_MINIMUM,
                successor: None,
                live_until_ledger,
            }),
    {
        SinkContract {
            contract_address,
            admin,
            carbon_id,
            carbonsink_id,
            active: true,
            sink_minimum: DEFAULT_SINK_MINIMUM,
            successor: None,
            live_until_ledger,
        }
    }

    /// Refreshes the persisted record's lifetime: pushed out to the full
    /// window once the remaining lifetime fell below the threshold.
    pub fn extend_instance_ttl(&mut self, ledger_seq: u32)
        requires
            old(self).ttl_refreshable(ledger_seq),
        ensures
            *final(self) == old(self).refreshed(ledger_seq),
    {
        if self.live_until_ledger - ledger_seq < INSTANCE_TTL_THRESHOLD {
            self.live_until_ledger = ledger_seq + INSTANCE_EXTEND_AMOUNT;
        }
    }

    /// The minimum amount a swap must reach after quantization.
    pub fn get_minimum_sink_amount(&mut self, ledger_seq: u32) -> (r: i64)
        requires
            old(self).ttl_refreshable(ledger_seq),
        ensures
            r == old(self).sink_minimum,
            *final(self) == old(self).refreshed(ledger_seq),
    {
        self.extend_instance_ttl(ledger_seq);
        self.sink_minimum
    }

    /// Whether the contract currently performs swaps.
    pub fn is_active(&mut self, ledger_seq: u32) -> (r: bool)
        requires
            old(self).ttl_refreshable(ledger_seq),
        ensures
            r == old(self).active,
            *final(self) == old(self).refreshed(ledger_seq),
    {
        self.extend_instance_ttl(ledger_seq);
        self.active
    }

    /// The recorded successor instance, or this instance's own address
    /// while none was recorded. A successor may itself be superseded;
    /// callers walk the chain until an instance returns itself.
    pub fn get_contract_successor(&mut self, ledger_seq: u32) -> (r: Address)
        requires
            old(self).ttl_refreshable(ledger_seq),
        ensures
            r == old(self).successor_or_self(),
            *final(self) == old(self).refreshed(ledger_seq),
    {
        self.extend_instance_ttl(ledger_seq);
        match self.successor {
            Some(a) => a,
            None => self.contract_address,
        }
    }

    /// Records the successor instance. Requires the administrator's
    /// approval; fails closed with a fatal abort without it.
    pub fn set_contract_successor(
        &mut self,
        auth: &AuthContext,
        successor: Address,
        ledger_seq: u32,
    ) -> (r: Result<(), SinkFailure>)
        requires
            old(self).wf(),
            old(self).ttl_refreshable(ledger_seq),
        ensures
            final(self).wf(),
            r is Ok <==> auth.approves(old(self).admin),
            r is Err ==> r == Err::<(), SinkFailure>(old(self).admin_gate_failure()) && *final(self)
                == *old(self),
            r is Ok ==> *final(self) == (SinkContract {
                successor: Some(successor),
                ..old(self).refreshed(ledger_seq)
            }),
    {
        if !auth.is_approved(self.admin) {
            return Err(SinkFailure::Aborted(FatalError::MissingAuthorization(self.admin)));
        }
        self.extend_instance_ttl(ledger_seq);
        self.successor = Some(successor);
        Ok(())
    }

    /// What `set_minimum_sink_amount` answers: a fatal abort without the
    /// administrator's approval, `NegativeAmount` for a negative proposal,
    /// success otherwise.
    pub open spec fn set_minimum_decision(self, auth: AuthContext, amount: i64) -> Result<
        (),
        SinkFailure,
    > {
        if !auth.approves(self.admin) {
            Err(self.admin_gate_failure())
        } else if amount < 0 {
            Err(SinkFailure::Rejected(SinkError::NegativeAmount))
        } else {
            Ok(())
        }
    }

    /// Sets the minimum sink amount. Requires the administrator's
    /// approval and a non-negative amount.
    pub fn set_minimum_sink_amount(&mut self, auth: &AuthContext, amount: i64, ledger_seq: u32) -> (r:
        Result<(), SinkFailure>)
        requires
            old(self).wf(),
            old(self).ttl_refreshable(ledger_seq),
        ensures
            final(self).wf(),
            r == old(self).set_minimum_decision(*auth, amount),
            r is Err ==> *final(self) == *old(self),
            r is Ok ==> *final(self) == (SinkContract {
                sink_minimum: amount,
                ..old(self).refreshed(ledger_seq)
            }),
    {
        if !auth.is_approved(self.admin) {
            return Err(SinkFailure::Aborted(FatalError::MissingAuthorization(self.admin)));
        }
        if amount < 0 {
            return Err(SinkFailure::Rejected(SinkError::NegativeAmount));
        }
        self.extend_instance_ttl(ledger_seq);
        self.sink_minimum = amount;
        Ok(())
    }

    /// Allows swaps again. Requires the administrator's approval.
    pub fn activate(&mut self, auth: &AuthContext, ledger_seq: u32) -> (r: Result<(), SinkFailure>)
        requires
            old(self).wf(),
            old(self).ttl_refreshable(ledger_seq),
        ensures
            final(self).wf(),
            r is Ok <==> auth.approves(old(self).admin),
            r is Err ==> r == Err::<(), SinkFailure>(old(self).admin_gate_failure()) && *final(self)
                == *old(self),
            r is Ok ==> *final(self) == old(self).activated(ledger_seq),
    {
        if !auth.is_approved(self.admin) {
            return Err(SinkFailure::Aborted(FatalError::MissingAuthorization(self.admin)));
        }
        self.extend_instance_ttl(ledger_seq);
        self.active = true;
        Ok(())
    }

    /// Stops swaps. Requires the administrator's approval.
    pub fn deactivate(&mut self, auth: &AuthContext, ledger_seq: u32) -> (r: Result<
        (),
        SinkFailure,
    >)
        requires
            old(self).wf(),
            old(self).ttl_refreshable(ledger_seq),
        ensures
            final(self).wf(),
            r is Ok <==> auth.approves(old(self).admin),
            r is Err ==> r == Err::<(), SinkFailure>(old(self).admin_gate_failure()) && *final(self)
                == *old(self),
            r is Ok ==> *final(self) == old(self).deactivated(ledger_seq),
    {
        if !auth.is_approved(self.admin) {
            return Err(SinkFailure::Aborted(FatalError::MissingAuthorization(self.admin)));
        }
        self.extend_instance_ttl(ledger_seq);
        self.active = false;
        Ok(())
    }

    /// What `reset_admin` answers: a fatal abort without the
    /// administrator's approval or when this contract no longer
    /// administers the CarbonSINK service, the administrator's address on
    /// success.
    pub open spec fn reset_admin_decision(self, carbonsink: TokenContract, auth: AuthContext) -> Result<
        Address,
        SinkFailure,
    > {
        if !auth.approves(self.admin) {
            Err(self.admin_gate_failure())
        } else {
            match carbonsink.set_admin_check(self.contract_address) {
                Err(e) => Err(
                    SinkFailure::Aborted(FatalError::UnexpectedServiceError(spec_sac_error_code(e))),
                ),
                Ok(()) => Ok(self.admin),
            }
        }
    }

    /// Hands the CarbonSINK service's administrator role back to this
    /// contract's administrator — removing this contract's own minting
    /// authority — and deactivates the contract. The irreversible first
    /// step of decommissioning an instance.
    pub fn reset_admin(
        &mut self,
        carbonsink: &mut TokenContract,
        auth: &AuthContext,
        ledger_seq: u32,
    ) -> (r: Result<Address, SinkFailure>)
        requires
            old(self).wf(),
            old(self).ttl_refreshable(ledger_seq),
            old(carbonsink).wf(),
            old(carbonsink).address == old(self).carbonsink_id,
        ensures
            final(self).wf(),
            final(carbonsink).wf(),
            r == old(self).reset_admin_decision(*old(carbonsink), *auth),
            r is Err ==> *final(self) == *old(self) && *final(carbonsink) == *old(carbonsink),
            r is Ok ==> {
                &&& *final(self) == old(self).deactivated(ledger_seq)
                &&& final(carbonsink).admin == old(self).admin
                &&& final(carbonsink).address == old(carbonsink).address
                &&& forall|a: Address| #[trigger]
                    final(carbonsink).line_of(a) == old(carbonsink).line_of(a)
            },
    {
        if !auth.is_approved(self.admin) {
            return Err(SinkFailure::Aborted(FatalError::MissingAuthorization(self.admin)));
        }
        match carbonsink.set_admin(self.contract_address, self.admin) {
            Err(e) => Err(SinkFailure::Aborted(FatalError::UnexpectedServiceError(sac_error_code(e)))),
            Ok(()) => {
                self.extend_instance_ttl(ledger_seq);
                self.active = false;
                Ok(self.admin)
            },
        }
    }

    /// What `sink_carbon` answers on given contract, service and
    /// authorization states: each gate of the swap in order, with every
    /// asset-service reply run through its classification.
    pub open spec fn sink_decision(
        self,
        carbon: TokenContract,
        carbonsink: TokenContract,
        auth: AuthContext,
        funder: Address,
        recipient: Address,
        amount: i64,
    ) -> Result<(), SinkFailure> {
        let q = quantized(amount as int) as i64;
        if !self.active {
            Err(SinkFailure::Rejected(SinkError::ContractDeactivated))
        } else if quantized(amount as int) < self.sink_minimum {
            Err(SinkFailure::Rejected(SinkError::AmountTooLow))
        } else if !auth.approves(funder) {
            Err(SinkFailure::Aborted(FatalError::MissingAuthorization(funder)))
        } else {
            match spec_classify_burn(spec_subcall_outcome(carbon.burn_check(funder, q))) {
                Classification::Reject(e) => Err(SinkFailure::Rejected(e)),
                Classification::Abort(f) => Err(SinkFailure::Aborted(f)),
                Classification::Proceed => match spec_classify_set_authorized(
                    spec_subcall_outcome(
                        carbonsink.set_authorized_check(self.contract_address, recipient),
                    ),
                ) {
                    Classification::Reject(e) => Err(SinkFailure::Rejected(e)),
                    Classification::Abort(f) => Err(SinkFailure::Aborted(f)),
                    Classification::Proceed => {
                        let enabled = Trustline {
                            authorized: true,
                            ..carbonsink.line_of(recipient).unwrap()
                        };
                        match spec_classify_mint(
                            spec_subcall_outcome(
                                spec_mint_line(
                                    carbonsink.admin,
                                    self.contract_address,
                                    Some(enabled),
                                    q,
                                ),
                            ),
                        ) {
                            Classification::Reject(e) => Err(SinkFailure::Rejected(e)),
                            Classification::Abort(f) => Err(SinkFailure::Aborted(f)),
                            Classification::Proceed => Ok(()),
                        }
                    },
                },
            }
        }
    }

    /// Swaps: burns the quantized amount of CARBON from the funder and
    /// mints the same amount of CarbonSINK to the recipient, leaving the
    /// recipient's entry locked again. On any failure — typed or fatal —
    /// the contract state and both services are exactly as before.
    ///
    /// `_project_id` and `_memo_text` tag the retirement for off-ledger
    /// bookkeeping and play no part in the decision.
    pub fn sink_carbon(
        &mut self,
        carbon: &mut TokenContract,
        carbonsink: &mut TokenContract,
        auth: &AuthContext,
        funder: Address,
        recipient: Address,
        amount: i64,
        _project_id: &str,
        _memo_text: &str,
        ledger_seq: u32,
    ) -> (r: Result<(), SinkFailure>)
        requires
            old(self).wf(),
            old(self).ttl_refreshable(ledger_seq),
            old(carbon).wf(),
            old(carbonsink).wf(),
            old(carbon).address == old(self).carbon_id,
            old(carbonsink).address == old(self).carbonsink_id,
        ensures
            final(self).wf(),
            final(carbon).wf(),
            final(carbonsink).wf(),
            r == old(self).sink_decision(
                *old(carbon),
                *old(carbonsink),
                *auth,
                funder,
                recipient,
                amount,
            ),
            r is Err ==> *final(self) == *old(self) && *final(carbon) == *old(carbon)
                && *final(carbonsink) == *old(carbonsink),
            r is Ok ==> sink_success_transition(
                *old(self),
                *final(self),
                *old(carbon),
                *final(carbon),
                *old(carbonsink),
                *final(carbonsink),
                funder,
                recipient,
                amount,
                ledger_seq,
            ),
    {
        if !self.is_active_unrefreshed() {
            return Err(SinkFailure::Rejected(SinkError::ContractDeactivated));
        }

        // quantize `amount` to kg resolution
        let q = quantize_to_kg(amount);

        // check whether the quantized amount reaches the minimum
        if q < self.sink_minimum {
            return Err(SinkFailure::Rejected(SinkError::AmountTooLow));
        }

        // the funder must have approved this invocation
        if !auth.is_approved(funder) {
            return Err(SinkFailure::Aborted(FatalError::MissingAuthorization(funder)));
        }

        // `funder` burns `q` of CARBON, on a staged copy of the service
        let mut staged_carbon = carbon.snapshot();
        let burn_res = staged_carbon.burn(funder, q);
        match classify_burn(subcall_outcome(burn_res)) {
            Classification::Proceed => (),
            Classification::Reject(e) => {
                return Err(SinkFailure::Rejected(e));
            },
            Classification::Abort(f) => {
                return Err(SinkFailure::Aborted(f));
            },
        }

        // `recipient` receives `q` of CarbonSINK: unlock, mint, re-lock,
        // all on a staged copy of the service
        let mut staged_sink = carbonsink.snapshot();
        let unlock_res = staged_sink.set_authorized(self.contract_address, recipient, true);
        match classify_set_authorized(subcall_outcome(unlock_res)) {
            Classification::Proceed => (),
            Classification::Reject(e) => {
                return Err(SinkFailure::Rejected(e));
            },
            Classification::Abort(f) => {
                return Err(SinkFailure::Aborted(f));
            },
        }
        let mint_res = staged_sink.mint(self.contract_address, recipient, q);
        match classify_mint(subcall_outcome(mint_res)) {
            Classification::Proceed => (),
            Classification::Reject(e) => {
                return Err(SinkFailure::Rejected(e));
            },
            Classification::Abort(f) => {
                return Err(SinkFailure::Aborted(f));
            },
        }
        let relock_res = staged_sink.set_authorized(self.contract_address, recipient, false);
        // the re-lock cannot fail: the entry exists and this contract is
        // still the service's administrator
        assert(relock_res is Ok);

        // every step succeeded: commit the staged services and the refresh
        *carbon = staged_carbon;
        *carbonsink = staged_sink;
        self.extend_instance_ttl(ledger_seq);
        Ok(())
    }

    /// Reads the activation flag without touching the TTL; the refresh is
    /// committed only when the swap succeeds.
    fn is_active_unrefreshed(&self) -> (r: bool)
        ensures
            r == self.active,
    {
        self.active
    }
}

/// The exact effect of a successful swap: the funder's CARBON entry is
/// debited by the quantized amount; the recipient's CarbonSINK entry is
/// credited by the same amount and left deauthorized; every other entry
/// of both services, both administrators and both addresses are
/// untouched; and the contract state changes only by its TTL refresh.
pub open spec fn sink_success_transition(
    pre: SinkContract,
    post: SinkContract,
    pre_carbon: TokenContract,
    post_carbon: TokenContract,
    pre_sink: TokenContract,
    post_sink: TokenContract,
    funder: Address,
    recipient: Address,
    amount: i64,
    ledger_seq: u32,
) -> bool {
    let q = quantized(amount as int) as i64;
    let funder_line = pre_carbon.line_of(funder).unwrap();
    let recipient_line = pre_sink.line_of(recipient).unwrap();
    &&& pre_carbon.line_of(funder) is Some
    &&& pre_sink.line_of(recipient) is Some
    &&& post == pre.refreshed(ledger_seq)
    &&& updated_line(
        pre_carbon,
        post_carbon,
        funder,
        (Trustline { balance: (funder_line.balance - q) as i64, ..funder_line }),
    )
    &&& updated_line(
        pre_sink,
        post_sink,
        recipient,
        (Trustline {
            balance: (recipient_line.balance + q) as i64,
            limit: recipient_line.limit,
            authorized: false,
        }),
    )
}

/// A swap on a deactivated contract is rejected with
/// `ContractDeactivated`, whatever the funder's balance, the amount or
/// the approvals — and a rejected swap moves nothing.
pub proof fn lemma_sink_rejects_when_inactive(
    pre: SinkContract,
    carbon: TokenContract,
    carbonsink: TokenContract,
    auth: AuthContext,
    funder: Address,
    recipient: Address,
    amount: i64,
)
    requires
        !pre.active,
    ensures
        pre.sink_decision(carbon, carbonsink, auth, funder, recipient, amount) == Err::<
            (),
            SinkFailure,
        >(SinkFailure::Rejected(SinkError::ContractDeactivated)),
{
}

/// A swap whose quantized amount stays under the minimum is rejected
/// with `AmountTooLow` before any approval or balance is even consulted.
pub proof fn lemma_sink_rejects_low_amount(
    pre: SinkContract,
    carbon: TokenContract,
    carbonsink: TokenContract,
    auth: AuthContext,
    funder: Address,
    recipient: Address,
    amount: i64,
)
    requires
        pre.active,
        quantized(amount as int) < pre.sink_minimum,
    ensures
        pre.sink_decision(carbon, carbonsink, auth, funder, recipient, amount) == Err::<
            (),
            SinkFailure,
        >(SinkFailure::Rejected(SinkError::AmountTooLow)),
{
}

/// Activation is idempotent: activating twice within one ledger leaves
/// the same state as activating once.
pub proof fn lemma_activate_idempotent(pre: SinkContract, ledger_seq: u32)
    requires
        pre.ttl_refreshable(ledger_seq),
    ensures
        pre.activated(ledger_seq).activated(ledger_seq) == pre.activated(ledger_seq),
{
    crate::storage_types::lemma_extend_ttl_idempotent(pre.live_until_ledger, ledger_seq);
}

/// Deactivation is idempotent: deactivating twice within one ledger
/// leaves the same state as deactivating once.
pub proof fn lemma_deactivate_idempotent(pre: SinkContract, ledger_seq: u32)
    requires
        pre.ttl_refreshable(ledger_seq),
    ensures
        pre.deactivated(ledger_seq).deactivated(ledger_seq) == pre.deactivated(ledger_seq),
{
    crate::storage_types::lemma_extend_ttl_idempotent(pre.live_until_ledger, ledger_seq);
}

/// The balance accounting of a successful swap, for a funder and a
/// recipient distinct from the contract itself: the funder's CARBON
/// balance falls by exactly the quantized amount, the recipient's
/// CarbonSINK balance rises by exactly the quantized amount, every other
/// party's balances of both assets are unchanged, and the contract's own
/// balances of both assets stay zero when they were zero.
pub proof fn lemma_sink_swap_balances(
    pre: SinkContract,
    post: SinkContract,
    pre_carbon: TokenContract,
    post_carbon: TokenContract,
    pre_sink: TokenContract,
    post_sink: TokenContract,
    auth: AuthContext,
    funder: Address,
    recipient: Address,
    amount: i64,
    ledger_seq: u32,
)
    requires
        pre.wf(),
        pre_carbon.wf(),
        pre_sink.wf(),
        pre.sink_decision(pre_carbon, pre_sink, auth, funder, recipient, amount) == Ok::<
            (),
            SinkFailure,
        >(()),
        sink_success_transition(
            pre,
            post,
            pre_carbon,
            post_carbon,
            pre_sink,
            post_sink,
            funder,
            recipient,
            amount,
            ledger_seq,
        ),
        funder != pre.contract_address,
        recipient != pre.contract_address,
    ensures
        post_carbon.balance_of(funder) == pre_carbon.balance_of(funder) - quantized(amount as int),
        post_sink.balance_of(recipient) == pre_sink.balance_of(recipient) + quantized(
            amount as int,
        ),
        forall|a: Address|
            a != funder ==> #[trigger] post_carbon.balance_of(a) == pre_carbon.balance_of(a),
        forall|a: Address|
            a != recipient ==> #[trigger] post_sink.balance_of(a) == pre_sink.balance_of(a),
        pre_carbon.balance_of(pre.contract_address) == 0 ==> post_carbon.balance_of(
            pre.contract_address,
        ) == 0,
        pre_sink.balance_of(pre.contract_address) == 0 ==> post_sink.balance_of(
            pre.contract_address,
        ) == 0,
{
    let q = quantized(amount as int);
    let funder_line = pre_carbon.line_of(funder).unwrap();
    let recipient_line = pre_sink.line_of(recipient).unwrap();
    // the decision succeeded, so each gate passed: the quantized amount
    // reaches the non-negative minimum, the burn covered, the credit
    // within the limit
    assert(q >= pre.sink_minimum >= 0);
    pre_carbon.lemma_wf_line(funder);
    pre_sink.lemma_wf_line(recipient);
    assert(funder_line.balance >= q);
    assert(recipient_line.limit - recipient_line.balance >= q);
    assert(post_carbon.line_of(funder) == Some(
        Trustline { balance: (funder_line.balance - q as i64) as i64, ..funder_line },
    ));
}

} // verus!

