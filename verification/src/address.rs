//! Identities of principals and contracts.

use vstd::prelude::*;

verus! {

/// The identity of a principal (an account or a contract) on the hosting
/// ledger. The swap logic only ever compares identities for equality, so
/// an opaque numeric identity models them completely.
#[derive(Clone, Copy, Debug, Hash, PartialEq, Eq, Structural)]
pub struct Address(pub u64);

} // verus!
