//! Per-client account state and the events that mutate it.
//!
//! All monetary amounts are fixed-point decimals scaled by 10^4:
//! the integer 12_3456 stands for 12.3456 currency units. Event
//! amounts are non-negative (`u64`); balances are signed (`i128`),
//! since a dispute of an already-withdrawn deposit can drive
//! `available` below zero.

use vstd::prelude::*;

verus! {

/// Mathematical model of an account: unbounded integers, so the
/// transition rules can be stated without machine-width noise.
pub struct AccountState {
    pub available: int,
    pub held: int,
    pub total: int,
    pub locked: bool,
}

/// The account every client starts from: all balances zero, unlocked.
pub open spec fn init_account() -> AccountState {
    AccountState { available: 0, held: 0, total: 0, locked: false }
}

/// The central balance invariant: `total` is always the sum of
/// `available` and `held`.
pub open spec fn account_inv(a: AccountState) -> bool {
    a.total == a.available + a.held
}

/// Every balance of `a` fits the machine representation.
pub open spec fn account_fits(a: AccountState) -> bool {
    &&& i128::MIN <= a.available <= i128::MAX
    &&& i128::MIN <= a.held <= i128::MAX
    &&& i128::MIN <= a.total <= i128::MAX
}

/// One client's account: funds usable for withdrawal (`available`),
/// funds frozen pending a dispute (`held`), their sum (`total`), and
/// whether a chargeback has frozen the account for good (`locked`).
#[derive(Debug, Clone, Copy, PartialEq, Eq, Structural)]
pub struct Account {
    pub available: i128,
    pub held: i128,
    pub total: i128,
    pub locked: bool,
}

impl View for Account {
    type V = AccountState;

    open spec fn view(&self) -> AccountState {
        AccountState {
            available: self.available as int,
            held: self.held as int,
            total: self.total as int,
            locked: self.locked,
        }
    }
}

impl Account {
    /// A fresh account: all balances zero, unlocked.
    pub fn new() -> (r: Account)
        ensures
            r@ == init_account(),
    {
        Account { available: 0, held: 0, total: 0, locked: false }
    }

    /// Deposits the given amount into the account.
    pub fn deposit(&mut self, amount: u64)
        requires
            old(self)@.available + amount <= i128::MAX,
            old(self)@.total + amount <= i128::MAX,
        ensures
            final(self)@.available == old(self)@.available + amount,
            final(self)@.held == old(self)@.held,
            final(self)@.total == old(self)@.total + amount,
            final(self)@.locked == old(self)@.locked,
    {
        self.available = self.available + amount as i128;
        self.total = self.total + amount as i128;
    }

    /// Withdraws the given amount from the account if it is available.
    /// Returns true if the withdrawal was successful, false otherwise.
    pub fn withdrawal(&mut self, amount: u64) -> (ok: bool)
        requires
            old(self)@.available >= amount ==> old(self)@.total - amount >= i128::MIN,
        ensures
            ok == (old(self)@.available >= amount),
            ok ==> {
                &&& final(self)@.available == old(self)@.available - amount
                &&& final(self)@.held == old(self)@.held
                &&& final(self)@.total == old(self)@.total - amount
                &&& final(self)@.locked == old(self)@.locked
            },
            !ok ==> *final(self) == *old(self),
    {
        if self.available >= amount as i128 {
            self.available = self.available - amount as i128;
            self.total = self.total - amount as i128;
            true
        } else {
            false
        }
    }

    /// Disputes the given amount, moving it from available to held.
    pub fn dispute(&mut self, amount: u64)
        requires
            old(self)@.available - amount >= i128::MIN,
            old(self)@.held + amount <= i128::MAX,
        ensures
            final(self)@.available == old(self)@.available - amount,
            final(self)@.held == old(self)@.held + amount,
            final(self)@.total == old(self)@.total,
            final(self)@.locked == old(self)@.locked,
    {
        self.available = self.available - amount as i128;
        self.held = self.held + amount as i128;
    }

    /// Resolves the given amount, moving it from held to available.
    pub fn resolve(&mut self, amount: u64)
        requires
            old(self)@.held - amount >= i128::MIN,
            old(self)@.available + amount <= i128::MAX,
        ensures
            final(self)@.available == old(self)@.available + amount,
            final(self)@.held == old(self)@.held - amount,
            final(self)@.total == old(self)@.total,
            final(self)@.locked == old(self)@.locked,
    {
        self.held = self.held - amount as i128;
        self.available = self.available + amount as i128;
    }

    /// Charges back the given amount, removing it from held and total
    /// and locking the account.
    pub fn chargeback(&mut self, amount: u64)
        requires
            old(self)@.held - amount >= i128::MIN,
            old(self)@.total - amount >= i128::MIN,
        ensures
            final(self)@.available == old(self)@.available,
            final(self)@.held == old(self)@.held - amount,
            final(self)@.total == old(self)@.total - amount,
            final(self)@.locked,
    {
        self.held = self.held - amount as i128;
        self.total = self.total - amount as i128;
        self.locked = true;
    }
}

/// The kind of a ledger event, as recognised from the textual tag of
/// an input record. Any unrecognised tag is `Unknown` and has no
/// effect on the ledger.
#[derive(Debug, Clone, Copy, PartialEq, Eq, Structural)]
pub enum EventKind {
    Deposit,
    Withdrawal,
    Dispute,
    Resolve,
    Chargeback,
    Unknown,
}

/// Which event kind a textual tag denotes.
pub open spec fn spec_kind(s: Seq<char>) -> EventKind {
    if s == "deposit"@ {
        EventKind::Deposit
    } else if s == "withdrawal"@ {
        EventKind::Withdrawal
    } else if s == "dispute"@ {
        EventKind::Dispute
    } else if s == "resolve"@ {
        EventKind::Resolve
    } else if s == "chargeback"@ {
        EventKind::Chargeback
    } else {
        EventKind::Unknown
    }
}

/// Recognises the textual tag of an event.
pub fn parse_kind(kind: &String) -> (k: EventKind)
    ensures
        k == spec_kind(kind@),
{
    let deposit: String = "deposit".to_owned();
    let withdrawal: String = "withdrawal".to_owned();
    let dispute_tag: String = "dispute".to_owned();
    let resolve_tag: String = "resolve".to_owned();
    let chargeback_tag: String = "chargeback".to_owned();
    if *kind == deposit {
        EventKind::Deposit
    } else if *kind == withdrawal {
        EventKind::Withdrawal
    } else if *kind == dispute_tag {
        EventKind::Dispute
    } else if *kind == resolve_tag {
        EventKind::Resolve
    } else if *kind == chargeback_tag {
        EventKind::Chargeback
    } else {
        EventKind::Unknown
    }
}

/// Mathematical model of one input event: its recognised kind, the
/// client and transaction identifiers, and the amount (scaled by
/// 10^4) where one was supplied.
pub struct EventModel {
    pub kind: EventKind,
    pub client: u16,
    pub tx: u32,
    pub amount: Option<int>,
}

/// One parsed input record: an event tag (`kind`), the client it
/// concerns, a transaction identifier, and, for deposits and
/// withdrawals, the amount scaled by 10^4.
#[derive(Debug)]
pub struct Transaction {
    pub kind: String,
    pub client: u16,
    pub tx: u32,
    pub amount: Option<u64>,
}

impl View for Transaction {
    type V = EventModel;

    open spec fn view(&self) -> EventModel {
        EventModel {
            kind: spec_kind(self.kind@),
            client: self.client,
            tx: self.tx,
            amount: match self.amount {
                Some(m) => Some(m as int),
                None => None,
            },
        }
    }
}

} // verus!
