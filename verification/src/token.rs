//! A model of an external asset service (a Stellar Asset Contract) at the
//! interface the swap consumes.
//!
//! The service keeps one entry (a trustline) per holder, carries an
//! administrator that alone may mint, toggle authorization flags or hand
//! the role on, and answers every call either normally or with one of its
//! error codes ([`crate::errors::SACError`]). Each operation is atomic:
//! a failing call leaves the service untouched. One simplification is
//! deliberate: where the live service lets a call by a non-administrator
//! die in its own authorization check, the model answers
//! [`SACError::UnauthorizedError`] — a code the swap never recognizes, so
//! both worlds end in the same fatal abort.

use crate::address::Address;
use crate::errors::SACError;
use vstd::pervasive::VecAdditionalExecFns;
use vstd::prelude::*;

verus! {

/// One holder's entry with an asset service: the balance held, the
/// largest balance the holder admits, and whether the holder is currently
/// authorized to send and receive the asset.
#[derive(Clone, Copy, Debug, PartialEq, Eq, Structural)]
pub struct Trustline {
    pub balance: i64,
    pub limit: i64,
    pub authorized: bool,
}

impl Trustline {
    /// An entry never holds a negative amount nor more than its limit.
    pub open spec fn wf(self) -> bool {
        0 <= self.balance <= self.limit
    }
}

/// What the service's `burn` answers on an entry: the first failing check
/// in the service's own order, or success.
pub open spec fn spec_burn_line(line: Option<Trustline>, amount: i64) -> Result<(), SACError> {
    if amount < 0 {
        Err(SACError::NegativeAmountError)
    } else {
        match line {
            None => Err(SACError::TrustlineMissingError),
            Some(t) => if !t.authorized {
                Err(SACError::BalanceDeauthorizedError)
            } else if t.balance < amount {
                Err(SACError::BalanceError)
            } else {
                Ok(())
            },
        }
    }
}

/// What the service's `mint` answers on an entry, for a given caller and
/// administrator.
pub open spec fn spec_mint_line(
    admin: Address,
    caller: Address,
    line: Option<Trustline>,
    amount: i64,
) -> Result<(), SACError> {
    if caller != admin {
        Err(SACError::UnauthorizedError)
    } else if amount < 0 {
        Err(SACError::NegativeAmountError)
    } else {
        match line {
            None => Err(SACError::TrustlineMissingError),
            Some(t) => if !t.authorized {
                Err(SACError::BalanceDeauthorizedError)
            } else if t.limit - t.balance < amount {
                Err(SACError::BalanceError)
            } else {
                Ok(())
            },
        }
    }
}

/// What the service's `set_authorized` answers, for a given caller and
/// administrator.
pub open spec fn spec_set_authorized_line(
    admin: Address,
    caller: Address,
    line: Option<Trustline>,
) -> Result<(), SACError> {
    if caller != admin {
        Err(SACError::UnauthorizedError)
    } else {
        match line {
            None => Err(SACError::TrustlineMissingError),
            Some(_) => Ok(()),
        }
    }
}

/// A model of one asset service: its own ledger address, its
/// administrator, and one entry per holder.
pub struct TokenContract {
    /// The address under which the service is reachable on the ledger.
    pub address: Address,
    /// The administrator: the only principal that may mint, toggle
    /// authorization flags, or hand the role on.
    pub admin: Address,
    /// Per-holder entries, public so that specifications can speak of
    /// them; [`TokenContract::wf`] keeps each holder unique.
    pub lines: Vec<(Address, Trustline)>,
}

/// The first entry for `holder`, scanning from the front.
pub open spec fn lookup(s: Seq<(Address, Trustline)>, holder: Address) -> Option<Trustline>
    decreases s.len(),
{
    if s.len() == 0 {
        None
    } else if s[0].0 == holder {
        Some(s[0].1)
    } else {
        lookup(s.skip(1), holder)
    }
}

/// `post` is `pre` with `holder`'s entry replaced by `line`: same address,
/// same administrator, every other holder's entry untouched.
pub open spec fn updated_line(
    pre: TokenContract,
    post: TokenContract,
    holder: Address,
    line: Trustline,
) -> bool {
    &&& post.address == pre.address
    &&& post.admin == pre.admin
    &&& post.line_of(holder) == Some(line)
    &&& forall|a: Address| a != holder ==> #[trigger] post.line_of(a) == pre.line_of(a)
}

impl TokenContract {
    /// The entry the service keeps for `holder`, if any.
    pub open spec fn line_of(self, holder: Address) -> Option<Trustline> {
        lookup(self.lines@, holder)
    }

    /// `holder`'s balance as an integer, zero when it has no entry.
    pub open spec fn balance_of(self, holder: Address) -> int {
        match self.line_of(holder) {
            Some(t) => t.balance as int,
            None => 0,
        }
    }

    /// Every holder appears at most once and every entry is well-formed.
    pub open spec fn wf(self) -> bool {
        &&& forall|i: int, j: int|
            0 <= i < j < self.lines@.len() ==> (#[trigger] self.lines@[i]).0 != (
            #[trigger] self.lines@[j]).0
        &&& forall|i: int| 0 <= i < self.lines@.len() ==> (#[trigger] self.lines@[i]).1.wf()
    }

    /// What `burn(from, amount)` answers on the current state.
    pub open spec fn burn_check(self, from: Address, amount: i64) -> Result<(), SACError> {
        spec_burn_line(self.line_of(from), amount)
    }

    /// What `mint(caller, to, amount)` answers on the current state.
    pub open spec fn mint_check(self, caller: Address, to: Address, amount: i64) -> Result<
        (),
        SACError,
    > {
        spec_mint_line(self.admin, caller, self.line_of(to), amount)
    }

    /// What `set_authorized(caller, holder, _)` answers on the current state.
    pub open spec fn set_authorized_check(self, caller: Address, holder: Address) -> Result<
        (),
        SACError,
    > {
        spec_set_authorized_line(self.admin, caller, self.line_of(holder))
    }

    /// What `set_admin(caller, _)` answers on the current state.
    pub open spec fn set_admin_check(self, caller: Address) -> Result<(), SACError> {
        if caller != self.admin {
            Err(SACError::UnauthorizedError)
        } else {
            Ok(())
        }
    }

    /// A well-formed service only keeps well-formed entries.
    pub proof fn lemma_wf_line(self, holder: Address)
        requires
            self.wf(),
            self.line_of(holder) is Some,
        ensures
            self.line_of(holder).unwrap().wf(),
    {
        lemma_lookup_is_entry(self.lines@, holder);
    }

    /// Creates an empty asset service administered by `admin`.
    pub fn new(address: Address, admin: Address) -> (t: TokenContract)
        ensures
            t.wf(),
            t.address == address,
            t.admin == admin,
            forall|a: Address| #[trigger] t.line_of(a) is None,
    {
        TokenContract { address, admin, lines: Vec::new() }
    }

    /// The position of `holder`'s entry, scanning from the front.
    fn find_index(&self, holder: Address) -> (r: Option<usize>)
        ensures
            match r {
                Some(j) => {
                    &&& (j as int) < self.lines@.len()
                    &&& self.lines@[j as int].0 == holder
                    &&& self.line_of(holder) == Some(self.lines@[j as int].1)
                    &&& forall|k: int| 0 <= k < j ==> (#[trigger] self.lines@[k]).0 != holder
                },
                None => {
                    &&& self.line_of(holder) is None
                    &&& forall|k: int|
                        0 <= k < self.lines@.len() ==> (#[trigger] self.lines@[k]).0 != holder
                },
            },
    {
        let n = self.lines.len();
        let mut i: usize = 0;
        while i < n
            invariant
                n == self.lines@.len(),
                i <= n,
                forall|k: int| 0 <= k < i ==> (#[trigger] self.lines@[k]).0 != holder,
            decreases n - i,
        {
            if self.lines[i].0 == holder {
                proof {
                    lemma_lookup_after_prefix(self.lines@, holder, i as int);
                }
                return Some(i);
            }
            i += 1;
        }
        proof {
            lemma_lookup_after_prefix(self.lines@, holder, n as int);
        }
        None
    }

    /// An exact copy of the service's state.
    pub fn snapshot(&self) -> (t: TokenContract)
        requires
            self.wf(),
        ensures
            t.wf(),
            t.address == self.address,
            t.admin == self.admin,
            forall|a: Address| #[trigger] t.line_of(a) == self.line_of(a),
    {
        let n = self.lines.len();
        let mut lines: Vec<(Address, Trustline)> = Vec::new();
        let mut i: usize = 0;
        while i < n
            invariant
                n == self.lines@.len(),
                i <= n,
                lines@ == self.lines@.subrange(0, i as int),
            decreases n - i,
        {
            let pair = self.lines[i];
            lines.push(pair);
            i += 1;
        }
        proof {
            assert(lines@ =~= self.lines@);
        }
        TokenContract { address: self.address, admin: self.admin, lines }
    }

    /// Creates or replaces `holder`'s entry. This models ledger-level
    /// account and trustline setup, not an asset-service operation.
    pub fn set_line(&mut self, holder: Address, line: Trustline)
        requires
            old(self).wf(),
            line.wf(),
        ensures
            final(self).wf(),
            updated_line(*old(self), *final(self), holder, line),
    {
        match self.find_index(holder) {
            Some(j) => {
                let ghost pre = self.lines@;
                self.lines.set(j, (holder, line));
                proof {
                    lemma_update_effects(pre, j as int, line, holder);
                }
            },
            None => {
                let ghost pre = self.lines@;
                self.lines.push((holder, line));
                proof {
                    lemma_push_effects(pre, (holder, line));
                }
            },
        }
    }

    /// The holder's balance; `TrustlineMissingError` when it has no entry.
    pub fn balance(&self, holder: Address) -> (r: Result<i64, SACError>)
        ensures
            r == match self.line_of(holder) {
                Some(t) => Ok::<i64, SACError>(t.balance),
                None => Err::<i64, SACError>(SACError::TrustlineMissingError),
            },
    {
        match self.find_index(holder) {
            Some(j) => Ok(self.lines[j].1.balance),
            None => Err(SACError::TrustlineMissingError),
        }
    }

    /// Burns `amount` from `from`'s entry: the service's `burn` operation.
    pub fn burn(&mut self, from: Address, amount: i64) -> (r: Result<(), SACError>)
        requires
            old(self).wf(),
        ensures
            final(self).wf(),
            r == old(self).burn_check(from, amount),
            r is Err ==> *final(self) == *old(self),
            r is Ok ==> updated_line(
                *old(self),
                *final(self),
                from,
                (Trustline {
                    balance: (old(self).line_of(from).unwrap().balance - amount) as i64,
                    ..old(self).line_of(from).unwrap()
                }),
            ),
    {
        if amount < 0 {
            return Err(SACError::NegativeAmountError);
        }
        match self.find_index(from) {
            None => Err(SACError::TrustlineMissingError),
            Some(j) => {
                let line = self.lines[j].1;
                if !line.authorized {
                    Err(SACError::BalanceDeauthorizedError)
                } else if line.balance < amount {
                    Err(SACError::BalanceError)
                } else {
                    let ghost pre = self.lines@;
                    let debited = Trustline { balance: line.balance - amount, ..line };
                    self.lines.set(j, (from, debited));
                    proof {
                        lemma_update_effects(pre, j as int, debited, from);
                    }
                    Ok(())
                }
            },
        }
    }

    /// Mints `amount` onto `to`'s entry: the service's `mint` operation,
    /// allowed to its administrator alone.
    pub fn mint(&mut self, caller: Address, to: Address, amount: i64) -> (r: Result<(), SACError>)
        requires
            old(self).wf(),
        ensures
            final(self).wf(),
            r == old(self).mint_check(caller, to, amount),
            r is Err ==> *final(self) == *old(self),
            r is Ok ==> updated_line(
                *old(self),
                *final(self),
                to,
                (Trustline {
                    balance: (old(self).line_of(to).unwrap().balance + amount) as i64,
                    ..old(self).line_of(to).unwrap()
                }),
            ),
    {
        if caller != self.admin {
            return Err(SACError::UnauthorizedError);
        }
        if amount < 0 {
            return Err(SACError::NegativeAmountError);
        }
        match self.find_index(to) {
            None => Err(SACError::TrustlineMissingError),
            Some(j) => {
                let line = self.lines[j].1;
                proof {
                    lemma_lookup_is_entry(self.lines@, to);
                }
                if !line.authorized {
                    Err(SACError::BalanceDeauthorizedError)
                } else if line.limit - line.balance < amount {
                    Err(SACError::BalanceError)
                } else {
                    let ghost pre = self.lines@;
                    let credited = Trustline { balance: line.balance + amount, ..line };
                    self.lines.set(j, (to, credited));
                    proof {
                        lemma_update_effects(pre, j as int, credited, to);
                    }
                    Ok(())
                }
            },
        }
    }

    /// Sets the authorization flag on `holder`'s entry: the service's
    /// `set_authorized` operation, allowed to its administrator alone.
    pub fn set_authorized(&mut self, caller: Address, holder: Address, authorized: bool) -> (r:
        Result<(), SACError>)
        requires
            old(self).wf(),
        ensures
            final(self).wf(),
            r == old(self).set_authorized_check(caller, holder),
            r is Err ==> *final(self) == *old(self),
            r is Ok ==> updated_line(
                *old(self),
                *final(self),
                holder,
                (Trustline { authorized, ..old(self).line_of(holder).unwrap() }),
            ),
    {
        if caller != self.admin {
            return Err(SACError::UnauthorizedError);
        }
        match self.find_index(holder) {
            None => Err(SACError::TrustlineMissingError),
            Some(j) => {
                let line = self.lines[j].1;
                let ghost pre = self.lines@;
                let toggled = Trustline { authorized, ..line };
                self.lines.set(j, (holder, toggled));
                proof {
                    lemma_update_effects(pre, j as int, toggled, holder);
                }
                Ok(())
            },
        }
    }

    /// Hands the administrator role on: the service's `set_admin`
    /// operation, allowed to its current administrator alone.
    pub fn set_admin(&mut self, caller: Address, new_admin: Address) -> (r: Result<(), SACError>)
        requires
            old(self).wf(),
        ensures
            final(self).wf(),
            r == old(self).set_admin_check(caller),
            r is Err ==> *final(self) == *old(self),
            r is Ok ==> {
                &&& final(self).admin == new_admin
                &&& final(self).address == old(self).address
                &&& forall|a: Address| #[trigger] final(self).line_of(a) == old(self).line_of(a)
            },
    {
        if caller != self.admin {
            return Err(SACError::UnauthorizedError);
        }
        self.admin = new_admin;
        Ok(())
    }
}

/// Scanning past a prefix free of `holder` does not change the lookup.
proof fn lemma_lookup_after_prefix(s: Seq<(Address, Trustline)>, holder: Address, i: int)
    requires
        0 <= i <= s.len(),
        forall|k: int| 0 <= k < i ==> (#[trigger] s[k]).0 != holder,
    ensures
        lookup(s, holder) == lookup(s.skip(i), holder),
    decreases i,
{
    if i > 0 {
        assert(s[0].0 != holder);
        assert forall|k: int| 0 <= k < i - 1 implies (#[trigger] s.skip(1)[k]).0 != holder by {
            assert(s.skip(1)[k] == s[k + 1]);
        }
        lemma_lookup_after_prefix(s.skip(1), holder, i - 1);
        assert(s.skip(1).skip(i - 1) =~= s.skip(i));
    } else {
        assert(s.skip(0) =~= s);
    }
}

/// A found entry is one of the sequence's elements.
proof fn lemma_lookup_is_entry(s: Seq<(Address, Trustline)>, holder: Address)
    requires
        lookup(s, holder) is Some,
    ensures
        exists|i: int|
            0 <= i < s.len() && (#[trigger] s[i]).0 == holder && s[i].1 == lookup(
                s,
                holder,
            ).unwrap(),
    decreases s.len(),
{
    if s.len() > 0 && s[0].0 != holder {
        lemma_lookup_is_entry(s.skip(1), holder);
        let i = choose|i: int|
            0 <= i < s.skip(1).len() && (#[trigger] s.skip(1)[i]).0 == holder && s.skip(1)[i].1
                == lookup(s.skip(1), holder).unwrap();
        assert(s[i + 1] == s.skip(1)[i]);
    }
}

/// Replacing the entry at a position keeps every other holder's lookup.
proof fn lemma_lookup_update_other(
    s: Seq<(Address, Trustline)>,
    j: int,
    p: (Address, Trustline),
    a: Address,
)
    requires
        0 <= j < s.len(),
        a != p.0,
        a != s[j].0,
    ensures
        lookup(s.update(j, p), a) == lookup(s, a),
    decreases s.len(),
{
    let t = s.update(j, p);
    if j == 0 {
        assert(t[0] == p);
        assert(t.skip(1) =~= s.skip(1));
    } else {
        assert(t[0] == s[0]);
        if s[0].0 != a {
            assert(t.skip(1) =~= s.skip(1).update(j - 1, p));
            lemma_lookup_update_other(s.skip(1), j - 1, p, a);
        }
    }
}

/// The combined effect of replacing position `j`, whose key is `holder`
/// and which is the first occurrence of `holder`, with `(holder, line)`:
/// `holder` now looks up to `line`, everyone else is untouched, and
/// well-formedness is kept.
proof fn lemma_update_effects(s: Seq<(Address, Trustline)>, j: int, line: Trustline, holder: Address)
    requires
        0 <= j < s.len(),
        s[j].0 == holder,
        forall|k: int| 0 <= k < j ==> (#[trigger] s[k]).0 != holder,
    ensures
        lookup(s.update(j, (holder, line)), holder) == Some(line),
        forall|a: Address| a != holder ==> lookup(s.update(j, (holder, line)), a) == lookup(s, a),
{
    let t = s.update(j, (holder, line));
    assert forall|k: int| 0 <= k < j implies (#[trigger] t[k]).0 != holder by {
        assert(t[k] == s[k]);
    }
    lemma_lookup_after_prefix(t, holder, j);
    assert(t.skip(j)[0] == (holder, line));
    assert forall|a: Address| a != holder implies lookup(t, a) == lookup(s, a) by {
        lemma_lookup_update_other(s, j, (holder, line), a);
    }
}

/// The effect of appending an entry: a holder that already had one keeps
/// it, the appended holder gains the new one, everyone else still has
/// none.
proof fn lemma_lookup_push(s: Seq<(Address, Trustline)>, p: (Address, Trustline), a: Address)
    ensures
        lookup(s.push(p), a) == if lookup(s, a) is Some {
            lookup(s, a)
        } else if p.0 == a {
            Some(p.1)
        } else {
            None
        },
    decreases s.len(),
{
    let t = s.push(p);
    if s.len() == 0 {
        assert(t[0] == p);
        assert(t.skip(1) =~= Seq::<(Address, Trustline)>::empty());
        assert(lookup(t.skip(1), a) is None);
    } else {
        assert(t[0] == s[0]);
        if s[0].0 != a {
            assert(t.skip(1) =~= s.skip(1).push(p));
            lemma_lookup_push(s.skip(1), p, a);
        }
    }
}

/// The combined effect of appending an entry for a holder that had none.
proof fn lemma_push_effects(s: Seq<(Address, Trustline)>, p: (Address, Trustline))
    requires
        lookup(s, p.0) is None,
        forall|k: int| 0 <= k < s.len() ==> (#[trigger] s[k]).0 != p.0,
    ensures
        lookup(s.push(p), p.0) == Some(p.1),
        forall|a: Address| a != p.0 ==> lookup(s.push(p), a) == lookup(s, a),
{
    lemma_lookup_push(s, p, p.0);
    assert forall|a: Address| a != p.0 implies lookup(s.push(p), a) == lookup(s, a) by {
        lemma_lookup_push(s, p, a);
        if lookup(s, a) is None {
        }
    }
}

} // verus!
