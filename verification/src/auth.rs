//! The caller-authorization context.
//!
//! On the hosting ledger every invocation carries cryptographically
//! verified approvals: the set of principals that signed off on exactly
//! this call. The contract never verifies signatures itself — it only
//! asks whether a required principal is among the approvals, and fails
//! closed when it is not. The model therefore carries the approvals as a
//! plain set of identities supplied by the calling context.

use crate::address::Address;
use vstd::prelude::*;

verus! {

/// The principals that approved the current invocation.
pub struct AuthContext {
    /// Public so that a calling context can state exactly who signed.
    pub approvals: Vec<Address>,
}

impl AuthContext {
    /// Whether `principal` approved the invocation.
    pub open spec fn approves(self, principal: Address) -> bool {
        self.approvals@.contains(principal)
    }

    /// An invocation nobody approved.
    pub fn none() -> (c: AuthContext)
        ensures
            forall|a: Address| !c.approves(a),
    {
        AuthContext { approvals: Vec::new() }
    }

    /// An invocation approved by `principal` alone.
    pub fn approved_by(principal: Address) -> (c: AuthContext)
        ensures
            c.approves(principal),
            forall|a: Address| a != principal ==> !c.approves(a),
    {
        let mut approvals: Vec<Address> = Vec::new();
        approvals.push(principal);
        proof {
            assert(approvals@[0] == principal);
            assert forall|a: Address| a != principal implies !AuthContext {
                approvals,
            }.approves(a) by {
                assert(forall|k: int| 0 <= k < approvals@.len() ==> approvals@[k] == principal);
            }
        }
        AuthContext { approvals }
    }

    /// Whether `principal` approved the invocation.
    pub fn is_approved(&self, principal: Address) -> (b: bool)
        ensures
            b == self.approves(principal),
    {
        let n = self.approvals.len();
        let mut i: usize = 0;
        while i < n
            invariant
                n == self.approvals@.len(),
                i <= n,
                forall|k: int| 0 <= k < i ==> self.approvals@[k] != principal,
            decreases n - i,
        {
            if self.approvals[i] == principal {
                return true;
            }
            i += 1;
        }
        false
    }
}

} // verus!
