//! The ledger state store and the event processor.
//!
//! The ledger pairs a map from client to account with a map from
//! transaction identifier to disputable-deposit record. `spec_apply`
//! is the full transition rule set, one case per event kind;
//! `Ledger::apply` is the executable processor, proved to follow it
//! exactly. An event whose effect would overflow the machine
//! representation of a balance is discarded whole, like any other
//! business no-op, so every event either applies in full or leaves
//! the ledger unchanged.

use vstd::prelude::*;
use std::collections::HashMap;
use crate::account::{
    Account, AccountState, EventKind, EventModel, Transaction, account_inv, init_account,
    parse_kind,
};

verus! {

broadcast use vstd::std_specs::hash::group_hash_axioms;

/// Mathematical model of the whole ledger: every client's account,
/// and for every deposit still open to dispute, its owner and amount.
#[verifier::ext_equal]
pub struct LedgerState {
    pub accounts: Map<u16, AccountState>,
    pub deposits: Map<u32, (u16, int)>,
}

/// The account an event works on: the client's account if one
/// exists, otherwise a fresh one (accounts are created lazily on
/// first reference).
pub open spec fn acct_or_new(s: LedgerState, c: u16) -> AccountState {
    if s.accounts.contains_key(c) {
        s.accounts[c]
    } else {
        init_account()
    }
}

/// A deposit of `m` into `a` stays within the machine representation.
pub open spec fn deposit_fits(a: AccountState, m: int) -> bool {
    &&& a.available + m <= i128::MAX
    &&& a.total + m <= i128::MAX
}

/// A withdrawal of `m` from `a` stays within the machine representation.
pub open spec fn withdrawal_fits(a: AccountState, m: int) -> bool {
    a.total - m >= i128::MIN
}

/// A dispute of `m` against `a` stays within the machine representation.
pub open spec fn dispute_fits(a: AccountState, m: int) -> bool {
    &&& a.available - m >= i128::MIN
    &&& a.held + m <= i128::MAX
}

/// A resolve of `m` on `a` stays within the machine representation.
pub open spec fn resolve_fits(a: AccountState, m: int) -> bool {
    &&& a.held - m >= i128::MIN
    &&& a.available + m <= i128::MAX
}

/// A chargeback of `m` against `a` stays within the machine representation.
pub open spec fn chargeback_fits(a: AccountState, m: int) -> bool {
    &&& a.held - m >= i128::MIN
    &&& a.total - m >= i128::MIN
}

/// The ledger after the event's account has been created (lazily) but
/// before — or instead of — any effect of the event itself.
pub open spec fn spec_touch(s: LedgerState, c: u16) -> LedgerState {
    LedgerState { accounts: s.accounts.insert(c, acct_or_new(s, c)), deposits: s.deposits }
}

/// The full transition rule set: what one event does to the ledger.
///
/// The event's client gets an account on first reference, whatever
/// the event. A locked account accepts no further mutation. A deposit
/// or withdrawal without an amount, a withdrawal beyond `available`,
/// a dispute/resolve/chargeback whose transaction is unknown or owned
/// by another client, an unrecognised event kind, and an effect that
/// would not fit the machine representation are all silent no-ops.
pub open spec fn spec_apply(s: LedgerState, e: EventModel) -> LedgerState {
    let a = acct_or_new(s, e.client);
    let touched = spec_touch(s, e.client);
    if a.locked {
        touched
    } else {
        match e.kind {
            EventKind::Deposit => match e.amount {
                Some(m) => if deposit_fits(a, m) {
                    LedgerState {
                        accounts: s.accounts.insert(
                            e.client,
                            AccountState {
                                available: a.available + m,
                                held: a.held,
                                total: a.total + m,
                                locked: a.locked,
                            },
                        ),
                        deposits: s.deposits.insert(e.tx, (e.client, m)),
                    }
                } else {
                    touched
                },
                None => touched,
            },
            EventKind::Withdrawal => match e.amount {
                Some(m) => if a.available >= m && withdrawal_fits(a, m) {
                    LedgerState {
                        accounts: s.accounts.insert(
                            e.client,
                            AccountState {
                                available: a.available - m,
                                held: a.held,
                                total: a.total - m,
                                locked: a.locked,
                            },
                        ),
                        deposits: s.deposits,
                    }
                } else {
                    touched
                },
                None => touched,
            },
            EventKind::Dispute => if s.deposits.contains_key(e.tx) && s.deposits[e.tx].0
                == e.client && dispute_fits(a, s.deposits[e.tx].1) {
                let m = s.deposits[e.tx].1;
                LedgerState {
                    accounts: s.accounts.insert(
                        e.client,
                        AccountState {
                            available: a.available - m,
                            held: a.held + m,
                            total: a.total,
                            locked: a.locked,
                        },
                    ),
                    deposits: s.deposits,
                }
            } else {
                touched
            },
            EventKind::Resolve => if s.deposits.contains_key(e.tx) && s.deposits[e.tx].0
                == e.client && resolve_fits(a, s.deposits[e.tx].1) {
                let m = s.deposits[e.tx].1;
                LedgerState {
                    accounts: s.accounts.insert(
                        e.client,
                        AccountState {
                            available: a.available + m,
                            held: a.held - m,
                            total: a.total,
                            locked: a.locked,
                        },
                    ),
                    deposits: s.deposits.remove(e.tx),
                }
            } else {
                touched
            },
            EventKind::Chargeback => if s.deposits.contains_key(e.tx) && s.deposits[e.tx].0
                == e.client && chargeback_fits(a, s.deposits[e.tx].1) {
                let m = s.deposits[e.tx].1;
                LedgerState {
                    accounts: s.accounts.insert(
                        e.client,
                        AccountState {
                            available: a.available,
                            held: a.held - m,
                            total: a.total - m,
                            locked: true,
                        },
                    ),
                    deposits: s.deposits.remove(e.tx),
                }
            } else {
                touched
            },
            EventKind::Unknown => touched,
        }
    }
}

/// Every account of the ledger satisfies the balance invariant
/// `total == available + held`.
pub open spec fn state_inv(s: LedgerState) -> bool {
    forall|c: u16| s.accounts.contains_key(c) ==> account_inv(#[trigger] s.accounts[c])
}

/// Applying any single event preserves the balance invariant of
/// every account.
pub proof fn lemma_apply_preserves_inv(s: LedgerState, e: EventModel)
    requires
        state_inv(s),
    ensures
        state_inv(spec_apply(s, e)),
{
    let s2 = spec_apply(s, e);
    assert forall|c: u16| s2.accounts.contains_key(c) implies account_inv(#[trigger] s2.accounts[c]) by {
        if c != e.client {
            assert(s2.accounts[c] == s.accounts[c]);
        }
    }
}

/// The executable ledger: the two maps, plus the clients in order of
/// first reference so the final snapshot can be walked.
pub struct Ledger {
    accounts: HashMap<u16, Account>,
    deposits: HashMap<u32, (u16, u64)>,
    clients: Vec<u16>,
}

impl View for Ledger {
    type V = LedgerState;

    closed spec fn view(&self) -> LedgerState {
        LedgerState {
            accounts: Map::new(
                |c: u16| self.accounts@.contains_key(c),
                |c: u16| self.accounts@[c]@,
            ),
            deposits: Map::new(
                |t: u32| self.deposits@.contains_key(t),
                |t: u32| (self.deposits@[t].0, self.deposits@[t].1 as int),
            ),
        }
    }
}

impl Ledger {
    /// The clients the ledger has seen, in order of first reference.
    pub closed spec fn client_seq(&self) -> Seq<u16> {
        self.clients@
    }

    /// Well-formedness: the client list names each known client
    /// exactly once, and every account satisfies the balance
    /// invariant.
    pub closed spec fn wf(&self) -> bool {
        &&& forall|i: int, j: int|
            0 <= i < j < self.clients@.len() ==> self.clients@[i] != self.clients@[j]
        &&& forall|i: int|
            0 <= i < self.clients@.len() ==> self.accounts@.contains_key(#[trigger] self.clients@[i])
        &&& forall|c: u16| self.accounts@.contains_key(c) ==> self.clients@.contains(c)
        &&& state_inv(self@)
    }

    /// An empty ledger: no accounts, no disputable deposits.
    pub fn new() -> (r: Ledger)
        ensures
            r.wf(),
            r@.accounts == Map::<u16, AccountState>::empty(),
            r@.deposits == Map::<u32, (u16, int)>::empty(),
            r.client_seq() == Seq::<u16>::empty(),
    {
        let r = Ledger {
            accounts: HashMap::new(),
            deposits: HashMap::new(),
            clients: Vec::new(),
        };
        proof {
            assert(r@.accounts =~= Map::<u16, AccountState>::empty());
            assert(r@.deposits =~= Map::<u32, (u16, int)>::empty());
        }
        r
    }

    /// The clients the ledger has seen, in order of first reference.
    pub fn client_ids(&self) -> (r: &Vec<u16>)
        ensures
            r@ == self.client_seq(),
    {
        &self.clients
    }

    /// The account of `client`, if any event has referenced that client.
    pub fn account(&self, client: u16) -> (r: Option<Account>)
        ensures
            match r {
                Some(a) => self@.accounts.contains_key(client) && a@ == self@.accounts[client],
                None => !self@.accounts.contains_key(client),
            },
    {
        match self.accounts.get(&client) {
            Some(a) => Some(*a),
            None => None,
        }
    }

    /// The disputable-deposit record of `tx`: the owning client and
    /// the deposited amount, if the record is still open.
    pub fn deposit_record(&self, tx: u32) -> (r: Option<(u16, u64)>)
        ensures
            match r {
                Some(p) => self@.deposits.contains_key(tx) && self@.deposits[tx] == (
                    p.0,
                    p.1 as int,
                ),
                None => !self@.deposits.contains_key(tx),
            },
    {
        match self.deposits.get(&tx) {
            Some(p) => Some(*p),
            None => None,
        }
    }

    /// Applies one event to the ledger, exactly as `spec_apply` says.
    pub fn apply(&mut self, t: &Transaction)
        requires
            old(self).wf(),
        ensures
            final(self).wf(),
            final(self)@ == spec_apply(old(self)@, t@),
            final(self).client_seq() == if old(self)@.accounts.contains_key(t.client) {
                old(self).client_seq()
            } else {
                old(self).client_seq().push(t.client)
            },
    {
        let ghost s0 = old(self)@;
        let ghost e = t@;
        let c = t.client;
        if !self.accounts.contains_key(&c) {
            self.accounts.insert(c, Account::new());
            self.clients.push(c);
        }
        proof {
            assert(self@ =~= spec_touch(s0, c));
            if !s0.accounts.contains_key(c) {
                assert(self.clients@ == old(self).clients@.push(c));
                assert forall|i: int|
                    0 <= i < self.clients@.len() implies self.accounts@.contains_key(
                    #[trigger] self.clients@[i],
                ) by {
                    if i < self.clients@.len() - 1 {
                        assert(self.clients@[i] == old(self).clients@[i]);
                    } else {
                        assert(self.clients@[i] == c);
                    }
                }
                assert forall|cc: u16|
                    self.accounts@.contains_key(cc) implies self.clients@.contains(cc) by {
                    if cc == c {
                        assert(self.clients@[self.clients@.len() - 1] == cc);
                    } else {
                        assert(old(self).accounts@.contains_key(cc));
                        assert(old(self).clients@.contains(cc));
                        let i = choose|i: int|
                            0 <= i < old(self).clients@.len() && old(self).clients@[i] == cc;
                        assert(self.clients@[i] == cc);
                    }
                }
                assert forall|i: int, j: int|
                    0 <= i < j < self.clients@.len() implies self.clients@[i]
                    != self.clients@[j] by {
                    if j == self.clients@.len() - 1 {
                        assert(old(self).accounts@.contains_key(old(self).clients@[i]));
                    }
                }
            }
        }
        let ghost mid_clients: Seq<u16> = self.clients@;
        let ghost mid_accounts: Map<u16, Account> = self.accounts@;
        let a: Account = *self.accounts.get(&c).unwrap();
        proof {
            assert(a@ == acct_or_new(s0, c));
        }
        if !a.locked {
            match parse_kind(&t.kind) {
                EventKind::Deposit => {
                    match t.amount {
                        Some(m) => {
                            if a.available <= i128::MAX - (m as i128) && a.total <= i128::MAX
                                - (m as i128) {
                                let mut na = a;
                                na.deposit(m);
                                self.accounts.insert(c, na);
                                self.deposits.insert(t.tx, (c, m));
                            }
                        },
                        None => {},
                    }
                },
                EventKind::Withdrawal => {
                    match t.amount {
                        Some(m) => {
                            if a.available >= m as i128 && a.total >= i128::MIN + (m as i128) {
                                let mut na = a;
                                na.withdrawal(m);
                                self.accounts.insert(c, na);
                            }
                        },
                        None => {},
                    }
                },
                EventKind::Dispute => {
                    let rec: Option<(u16, u64)> = match self.deposits.get(&t.tx) {
                        Some(p) => Some(*p),
                        None => None,
                    };
                    match rec {
                        Some((rc, m)) => {
                            if rc == c && a.available >= i128::MIN + (m as i128) && a.held
                                <= i128::MAX - (m as i128) {
                                let mut na = a;
                                na.dispute(m);
                                self.accounts.insert(c, na);
                            }
                        },
                        None => {},
                    }
                },
                EventKind::Resolve => {
                    let rec: Option<(u16, u64)> = match self.deposits.get(&t.tx) {
                        Some(p) => Some(*p),
                        None => None,
                    };
                    match rec {
                        Some((rc, m)) => {
                            if rc == c && a.held >= i128::MIN + (m as i128) && a.available
                                <= i128::MAX - (m as i128) {
                                let mut na = a;
                                na.resolve(m);
                                self.accounts.insert(c, na);
                                self.deposits.remove(&t.tx);
                            }
                        },
                        None => {},
                    }
                },
                EventKind::Chargeback => {
                    let rec: Option<(u16, u64)> = match self.deposits.get(&t.tx) {
                        Some(p) => Some(*p),
                        None => None,
                    };
                    match rec {
                        Some((rc, m)) => {
                            if rc == c && a.held >= i128::MIN + (m as i128) && a.total >= i128::MIN
                                + (m as i128) {
                                let mut na = a;
                                na.chargeback(m);
                                self.accounts.insert(c, na);
                                self.deposits.remove(&t.tx);
                            }
                        },
                        None => {},
                    }
                },
                EventKind::Unknown => {},
            }
        }
        proof {
            assert(self@ =~= spec_apply(s0, e));
            lemma_apply_preserves_inv(s0, e);
            assert(self.clients@ == mid_clients);
            assert(mid_accounts.contains_key(c));
            assert forall|i: int|
                0 <= i < self.clients@.len() implies self.accounts@.contains_key(
                #[trigger] self.clients@[i],
            ) by {
                assert(mid_accounts.contains_key(mid_clients[i]));
            }
            assert forall|cc: u16|
                self.accounts@.contains_key(cc) implies self.clients@.contains(cc) by {
                assert(mid_accounts.contains_key(cc));
                assert(mid_clients.contains(cc));
            }
        }
    }
}

} // verus!
