//! The laws of the ledger: properties of the transition rules,
//! stated over the mathematical model and proved once and for all.

use vstd::prelude::*;
use crate::account::{account_fits, EventKind, EventModel};
use crate::ledger::{
    acct_or_new, deposit_fits, dispute_fits, lemma_apply_preserves_inv, spec_apply, state_inv,
    LedgerState,
};

verus! {

/// The ledger after a whole sequence of events, applied in order.
pub open spec fn spec_apply_all(s: LedgerState, es: Seq<EventModel>) -> LedgerState
    decreases es.len(),
{
    if es.len() == 0 {
        s
    } else {
        spec_apply_all(spec_apply(s, es[0]), es.subrange(1, es.len() as int))
    }
}

/// For every sequence of events, every account satisfies
/// `total == available + held` after each event: the balance
/// invariant, once established, survives any event stream.
pub proof fn lemma_apply_all_preserves_inv(s: LedgerState, es: Seq<EventModel>)
    requires
        state_inv(s),
    ensures
        state_inv(spec_apply_all(s, es)),
    decreases es.len(),
{
    if es.len() > 0 {
        lemma_apply_preserves_inv(s, es[0]);
        lemma_apply_all_preserves_inv(spec_apply(s, es[0]), es.subrange(1, es.len() as int));
    }
}

/// A deposit followed immediately by a dispute of the same (client,
/// transaction) pair moves exactly the deposited amount from
/// available to held and leaves total unchanged.
pub proof fn lemma_deposit_then_dispute(s: LedgerState, c: u16, tx: u32, m: int)
    requires
        !acct_or_new(s, c).locked,
        account_fits(acct_or_new(s, c)),
        deposit_fits(acct_or_new(s, c), m),
        acct_or_new(s, c).held + m <= i128::MAX,
    ensures
        ({
            let e1 = EventModel { kind: EventKind::Deposit, client: c, tx, amount: Some(m) };
            let e2 = EventModel { kind: EventKind::Dispute, client: c, tx, amount: None };
            let s1 = spec_apply(s, e1);
            let s2 = spec_apply(s1, e2);
            &&& s2.accounts[c].available == s1.accounts[c].available - m
            &&& s2.accounts[c].held == s1.accounts[c].held + m
            &&& s2.accounts[c].total == s1.accounts[c].total
        }),
{
}

/// A dispute followed by a resolve of the same (client, transaction)
/// pair restores the account's pre-dispute available/held split
/// exactly, and closes the deposit record.
pub proof fn lemma_dispute_then_resolve(s: LedgerState, c: u16, tx: u32)
    requires
        s.deposits.contains_key(tx),
        s.deposits[tx].0 == c,
        !acct_or_new(s, c).locked,
        account_fits(acct_or_new(s, c)),
        dispute_fits(acct_or_new(s, c), s.deposits[tx].1),
    ensures
        ({
            let e1 = EventModel { kind: EventKind::Dispute, client: c, tx, amount: None };
            let e2 = EventModel { kind: EventKind::Resolve, client: c, tx, amount: None };
            let s2 = spec_apply(spec_apply(s, e1), e2);
            &&& s2.accounts[c].available == acct_or_new(s, c).available
            &&& s2.accounts[c].held == acct_or_new(s, c).held
            &&& s2.accounts[c].total == acct_or_new(s, c).total
            &&& !s2.accounts[c].locked
            &&& s2.deposits == s.deposits.remove(tx)
        }),
{
}

/// A dispute followed by a chargeback of the same (client,
/// transaction) pair reduces total by the disputed amount, locks the
/// account, and closes the deposit record. With
/// `lemma_locked_account_frozen`, every subsequent event for that
/// client is then a no-op.
pub proof fn lemma_dispute_then_chargeback(s: LedgerState, c: u16, tx: u32)
    requires
        s.deposits.contains_key(tx),
        s.deposits[tx].0 == c,
        !acct_or_new(s, c).locked,
        account_fits(acct_or_new(s, c)),
        dispute_fits(acct_or_new(s, c), s.deposits[tx].1),
        acct_or_new(s, c).total - s.deposits[tx].1 >= i128::MIN,
    ensures
        ({
            let m = s.deposits[tx].1;
            let e1 = EventModel { kind: EventKind::Dispute, client: c, tx, amount: None };
            let e2 = EventModel { kind: EventKind::Chargeback, client: c, tx, amount: None };
            let s2 = spec_apply(spec_apply(s, e1), e2);
            &&& s2.accounts[c].total == acct_or_new(s, c).total - m
            &&& s2.accounts[c].available == acct_or_new(s, c).available - m
            &&& s2.accounts[c].held == acct_or_new(s, c).held
            &&& s2.accounts[c].locked
            &&& s2.deposits == s.deposits.remove(tx)
        }),
{
}

/// Once an account is locked, no event whatsoever changes it again.
pub proof fn lemma_locked_account_frozen(s: LedgerState, c: u16, e: EventModel)
    requires
        s.accounts.contains_key(c),
        s.accounts[c].locked,
    ensures
        spec_apply(s, e).accounts.contains_key(c),
        spec_apply(s, e).accounts[c] == s.accounts[c],
{
}

/// A withdrawal requesting more than the available balance leaves
/// the account, and the rest of the ledger, completely unchanged;
/// the only trace is that the client now has an account at all.
pub proof fn lemma_overdrawn_withdrawal_unchanged(s: LedgerState, c: u16, tx: u32, m: int)
    requires
        acct_or_new(s, c).available < m,
    ensures
        ({
            let e = EventModel { kind: EventKind::Withdrawal, client: c, tx, amount: Some(m) };
            let s2 = spec_apply(s, e);
            &&& s2.accounts[c] == acct_or_new(s, c)
            &&& s2.accounts == s.accounts.insert(c, acct_or_new(s, c))
            &&& s2.deposits == s.deposits
        }),
{
}

/// A dispute naming a transaction owned by a different client is a
/// no-op for both clients' accounts.
pub proof fn lemma_dispute_owner_mismatch_noop(s: LedgerState, c: u16, tx: u32)
    requires
        s.deposits.contains_key(tx),
        s.deposits[tx].0 != c,
    ensures
        ({
            let e = EventModel { kind: EventKind::Dispute, client: c, tx, amount: None };
            let s2 = spec_apply(s, e);
            &&& s2.accounts == s.accounts.insert(c, acct_or_new(s, c))
            &&& acct_or_new(s2, c) == acct_or_new(s, c)
            &&& acct_or_new(s2, s.deposits[tx].0) == acct_or_new(s, s.deposits[tx].0)
            &&& s2.deposits == s.deposits
        }),
{
}

} // verus!
