//! Persisted-state layout and the storage-lifetime policy.
//!
//! The contract's configuration lives in one keyed record on the host,
//! under the symbolic keys of [`DataKey`]. The host garbage-collects
//! records whose time-to-live ran out, so every entry point refreshes the
//! record's horizon: whenever the remaining lifetime has fallen below a
//! threshold of a day under the full window, the horizon is pushed out to
//! the full thirty-day window again.

use vstd::prelude::*;

verus! {

/// The symbolic keys under which the contract's configuration is
/// persisted on the host.
#[derive(Clone, Copy, Debug, PartialEq, Eq, Structural)]
pub enum DataKey {
    Admin,
    CarbonID,
    CarbonSinkID,
    IsActive,
    SinkMinimum,
    ContractSuccessor,
}

/// One day in the host's native time unit, the ledger count.
pub const DAY_IN_LEDGERS: u32 = 17280;

/// The full lifetime window a refresh extends to: thirty days.
pub const INSTANCE_EXTEND_AMOUNT: u32 = 30 * DAY_IN_LEDGERS;

/// Refresh once the remaining lifetime is more than a day under the window.
pub const INSTANCE_TTL_THRESHOLD: u32 = INSTANCE_EXTEND_AMOUNT - DAY_IN_LEDGERS;

/// The record's live-until ledger after one refresh at ledger
/// `ledger_seq`: pushed out to the full window when the remaining
/// lifetime has fallen below the threshold, untouched otherwise.
pub open spec fn extended_live_until(live_until: u32, ledger_seq: u32) -> u32 {
    if live_until - ledger_seq < INSTANCE_TTL_THRESHOLD {
        (ledger_seq + INSTANCE_EXTEND_AMOUNT) as u32
    } else {
        live_until
    }
}

/// A refresh never shortens the record's lifetime.
pub proof fn lemma_extend_ttl_monotonic(live_until: u32, ledger_seq: u32)
    requires
        ledger_seq <= live_until,
        ledger_seq + INSTANCE_EXTEND_AMOUNT <= u32::MAX,
    ensures
        extended_live_until(live_until, ledger_seq) >= live_until,
{
}

/// Within one invocation — at one and the same current ledger — a second
/// refresh has no further effect.
pub proof fn lemma_extend_ttl_idempotent(live_until: u32, ledger_seq: u32)
    requires
        ledger_seq <= live_until,
        ledger_seq + INSTANCE_EXTEND_AMOUNT <= u32::MAX,
    ensures
        extended_live_until(extended_live_until(live_until, ledger_seq), ledger_seq)
            == extended_live_until(live_until, ledger_seq),
{
}

} // verus!
