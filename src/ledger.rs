//! The ledger: client accounts and the history of transactions, and the state
//! machine that applies one transaction record at a time.

use crate::amount::{checked_add, checked_sub, difference_of, sum_of, Amount};
use std::collections::HashMap;
use vstd::prelude::*;
use vstd::string::StringSliceAdditionalSpecFns;

verus! {

broadcast use vstd::std_specs::hash::group_hash_axioms;

/// The five kinds of transaction record.
#[derive(Clone, Copy, Debug, PartialEq, Eq, Structural)]
pub enum TxKind {
    Deposit,
    Withdraw,
    Dispute,
    Resolve,
    Chargeback,
}

/// ASCII upper-case letters turned to lower case; other bytes kept.
pub open spec fn ascii_lower(b: u8) -> u8 {
    if 65 <= b <= 90 {
        (b + 32) as u8
    } else {
        b
    }
}

/// `b` spells the lower-case word `w`, ignoring ASCII case.
pub open spec fn spells(b: Seq<u8>, w: Seq<u8>) -> bool {
    &&& b.len() == w.len()
    &&& forall|i: int| 0 <= i < b.len() ==> ascii_lower(#[trigger] b[i]) == w[i]
}

/// "deposit", "withdraw", "dispute", "resolve", "chargeback" as bytes.
pub open spec fn kind_words() -> Seq<Seq<u8>> {
    seq![
        seq![100u8, 101, 112, 111, 115, 105, 116],
        seq![119u8, 105, 116, 104, 100, 114, 97, 119],
        seq![100u8, 105, 115, 112, 117, 116, 101],
        seq![114u8, 101, 115, 111, 108, 118, 101],
        seq![99u8, 104, 97, 114, 103, 101, 98, 97, 99, 107],
    ]
}

/// The kind that a tag names, in any mix of ASCII case.
pub open spec fn kind_of_tag(b: Seq<u8>) -> Result<TxKind, Rejection> {
    if spells(b, kind_words()[0]) {
        Ok(TxKind::Deposit)
    } else if spells(b, kind_words()[1]) {
        Ok(TxKind::Withdraw)
    } else if spells(b, kind_words()[2]) {
        Ok(TxKind::Dispute)
    } else if spells(b, kind_words()[3]) {
        Ok(TxKind::Resolve)
    } else if spells(b, kind_words()[4]) {
        Ok(TxKind::Chargeback)
    } else {
        Err(Rejection::UnknownTransactionType)
    }
}

fn lower_byte(b: u8) -> (r: u8)
    ensures
        r == ascii_lower(b),
{
    if 65 <= b && b <= 90 {
        b + 32
    } else {
        b
    }
}

fn spells_word(b: &[u8], w: &Vec<u8>) -> (r: bool)
    ensures
        r == spells(b@, w@),
{
    if b.len() != w.len() {
        return false;
    }
    let mut i: usize = 0;
    while i < b.len()
        invariant
            b@.len() == w@.len(),
            i <= b@.len(),
            forall|j: int| 0 <= j < i ==> ascii_lower(#[trigger] b@[j]) == w@[j],
        decreases b@.len() - i,
    {
        if lower_byte(b[i]) != w[i] {
            return false;
        }
        i = i + 1;
    }
    true
}

impl TxKind {
    /// The kind named by a tag such as "deposit" or "Chargeback"; any other
    /// tag is `UnknownTransactionType`.
    pub fn from_tag(tag: &str) -> (r: Result<TxKind, Rejection>)
        ensures
            r == kind_of_tag(tag.spec_bytes()),
    {
        let b = tag.as_bytes();
        let words = vec![
            vec![100u8, 101, 112, 111, 115, 105, 116],
            vec![119u8, 105, 116, 104, 100, 114, 97, 119],
            vec![100u8, 105, 115, 112, 117, 116, 101],
            vec![114u8, 101, 115, 111, 108, 118, 101],
            vec![99u8, 104, 97, 114, 103, 101, 98, 97, 99, 107],
        ];
        assert(words@[0]@ == kind_words()[0]);
        assert(words@[1]@ == kind_words()[1]);
        assert(words@[2]@ == kind_words()[2]);
        assert(words@[3]@ == kind_words()[3]);
        assert(words@[4]@ == kind_words()[4]);
        if spells_word(b, &words[0]) {
            Ok(TxKind::Deposit)
        } else if spells_word(b, &words[1]) {
            Ok(TxKind::Withdraw)
        } else if spells_word(b, &words[2]) {
            Ok(TxKind::Dispute)
        } else if spells_word(b, &words[3]) {
            Ok(TxKind::Resolve)
        } else if spells_word(b, &words[4]) {
            Ok(TxKind::Chargeback)
        } else {
            Err(Rejection::UnknownTransactionType)
        }
    }
}

/// One transaction record. `amount` is given for deposits and withdrawals;
/// `is_disputed` is the flag that the history keeps for a stored record.
#[derive(Clone, Copy, Debug, PartialEq, Eq, Structural)]
pub struct Transaction {
    pub kind: TxKind,
    pub client: u16,
    pub tx: u32,
    pub amount: Option<Amount>,
    pub is_disputed: bool,
}

/// The balances of one client.
#[derive(Clone, Copy, Debug, PartialEq, Eq, Structural)]
pub struct ClientAccount {
    pub client: u16,
    pub available: Amount,
    pub held: Amount,
    pub total: Amount,
    pub locked: bool,
}

/// Why a transaction record was rejected. A rejected record changes nothing.
#[derive(Clone, Copy, Debug, PartialEq, Eq, Structural)]
pub enum Rejection {
    /// A deposit or withdrawal without an amount, or a referenced record without one.
    AmountRequired,
    /// The transaction id is already in the history.
    DuplicateTransaction,
    /// The client has no account.
    AccountNotFound,
    /// The referenced transaction id is not in the history.
    TransactionNotFound,
    /// A dispute that references a record other than a deposit.
    OnlyDepositsDisputable,
    /// A resolve or chargeback of a record that is not disputed.
    NotDisputed,
    /// The kind tag of a record is none of the five kinds.
    UnknownTransactionType,
    /// A balance would leave the range of a decimal.
    Overflow,
}

/// The abstract state of a ledger: accounts by client id, records by transaction id.
pub type LedgerState = (Map<u16, ClientAccount>, Map<u32, Transaction>);

/// `total` is the sum of `available` and `held`, and all three are decimals.
pub open spec fn account_balanced(a: ClientAccount) -> bool {
    &&& a.available.wf()
    &&& a.held.wf()
    &&& a.total.wf()
    &&& sum_of(a.available, a.held) == Some(a.total)
}

pub open spec fn record_wf(t: Transaction) -> bool {
    t.amount matches Some(x) ==> x.wf()
}

pub open spec fn state_wf(s: LedgerState) -> bool {
    &&& forall|c: u16| #[trigger] s.0.contains_key(c) ==> s.0[c].client == c && account_balanced(s.0[c])
    &&& forall|t: u32| #[trigger] s.1.contains_key(t) ==> s.1[t].tx == t && record_wf(s.1[t])
}

/// The account that a client gets on its first deposit or withdrawal.
pub open spec fn fresh_account(client: u16) -> ClientAccount {
    ClientAccount {
        client,
        available: Amount { mantissa: 0, scale: 0 },
        held: Amount { mantissa: 0, scale: 0 },
        total: Amount { mantissa: 0, scale: 0 },
        locked: false,
    }
}

/// `a` with new `available` and `held`, and `total` recomputed from them.
pub open spec fn rebalanced(a: ClientAccount, available: Option<Amount>, held: Option<Amount>) -> Result<
    ClientAccount,
    Rejection,
> {
    match (available, held) {
        (Some(av), Some(h)) => match sum_of(av, h) {
            Some(t) => Ok(ClientAccount { available: av, held: h, total: t, ..a }),
            None => Err(Rejection::Overflow),
        },
        _ => Err(Rejection::Overflow),
    }
}

/// A deposit (`credit`) or a withdrawal of `x` from the client's account,
/// which is created empty if it is not there.
pub open spec fn step_transfer(s: LedgerState, tx: Transaction, credit: bool) -> Result<LedgerState, Rejection> {
    match tx.amount {
        None => Err(Rejection::AmountRequired),
        Some(x) => if s.1.contains_key(tx.tx) {
            Err(Rejection::DuplicateTransaction)
        } else {
            let a = if s.0.contains_key(tx.client) { s.0[tx.client] } else { fresh_account(tx.client) };
            let av = if credit { sum_of(a.available, x) } else { difference_of(a.available, x) };
            match rebalanced(a, av, Some(a.held)) {
                Ok(na) => Ok((s.0.insert(tx.client, na), s.1.insert(tx.tx, Transaction { is_disputed: false, ..tx }))),
                Err(e) => Err(e),
            }
        },
    }
}

/// A dispute, resolve or chargeback of the record `tx.tx`, on the account of `tx.client`.
pub open spec fn step_reference(s: LedgerState, tx: Transaction) -> Result<LedgerState, Rejection> {
    if !s.0.contains_key(tx.client) {
        Err(Rejection::AccountNotFound)
    } else if !s.1.contains_key(tx.tx) {
        Err(Rejection::TransactionNotFound)
    } else {
        let a = s.0[tx.client];
        let t = s.1[tx.tx];
        match tx.kind {
            TxKind::Dispute => if t.kind != TxKind::Deposit {
                Err(Rejection::OnlyDepositsDisputable)
            } else {
                match t.amount {
                    None => Err(Rejection::AmountRequired),
                    Some(x) => match rebalanced(a, difference_of(a.available, x), sum_of(a.held, x)) {
                        Ok(na) => Ok((s.0.insert(tx.client, na), s.1.insert(tx.tx, Transaction { is_disputed: true, ..t }))),
                        Err(e) => Err(e),
                    },
                }
            },
            TxKind::Resolve => if !t.is_disputed {
                Err(Rejection::NotDisputed)
            } else {
                match t.amount {
                    None => Err(Rejection::AmountRequired),
                    Some(x) => match rebalanced(a, sum_of(a.available, x), difference_of(a.held, x)) {
                        Ok(na) => Ok((s.0.insert(tx.client, na), s.1.insert(tx.tx, Transaction { is_disputed: false, ..t }))),
                        Err(e) => Err(e),
                    },
                }
            },
            _ => if !t.is_disputed {
                Err(Rejection::NotDisputed)
            } else {
                match t.amount {
                    None => Err(Rejection::AmountRequired),
                    Some(x) => match rebalanced(a, Some(a.available), difference_of(a.held, x)) {
                        Ok(na) => Ok((s.0.insert(tx.client, ClientAccount { locked: true, ..na }), s.1)),
                        Err(e) => Err(e),
                    },
                }
            },
        }
    }
}

/// The state after applying `tx` to `s`, or why `tx` is rejected.
pub open spec fn step(s: LedgerState, tx: Transaction) -> Result<LedgerState, Rejection> {
    match tx.kind {
        TxKind::Deposit => step_transfer(s, tx, true),
        TxKind::Withdraw => step_transfer(s, tx, false),
        _ => step_reference(s, tx),
    }
}

/// The ledger: every client account, and every deposit and withdrawal seen so far.
#[derive(Debug)]
pub struct AccountManager {
    accounts: HashMap<u16, ClientAccount>,
    transactions: HashMap<u32, Transaction>,
}

impl View for AccountManager {
    type V = LedgerState;

    closed spec fn view(&self) -> LedgerState {
        (self.accounts@, self.transactions@)
    }
}

/// `a` with the given balances and `total` recomputed from them; `Overflow`
/// where a balance or the total is out of range.
fn rebalance(a: ClientAccount, available: Option<Amount>, held: Option<Amount>) -> (r: Result<
    ClientAccount,
    Rejection,
>)
    requires
        available matches Some(x) ==> x.wf(),
        held matches Some(x) ==> x.wf(),
    ensures
        r == rebalanced(a, available, held),
        r matches Ok(na) ==> account_balanced(na),
{
    match (available, held) {
        (Some(av), Some(h)) => match checked_add(av, h) {
            Some(t) => Ok(
                ClientAccount { client: a.client, available: av, held: h, total: t, locked: a.locked },
            ),
            None => Err(Rejection::Overflow),
        },
        _ => Err(Rejection::Overflow),
    }
}

impl AccountManager {
    pub open spec fn wf(&self) -> bool {
        state_wf(self@)
    }

    /// An empty ledger.
    pub fn new() -> (r: Self)
        ensures
            r@.0 == Map::<u16, ClientAccount>::empty(),
            r@.1 == Map::<u32, Transaction>::empty(),
            r.wf(),
    {
        AccountManager { accounts: HashMap::new(), transactions: HashMap::new() }
    }

    fn process_transfer(&mut self, tx: &Transaction, credit: bool) -> (r: Result<(), Rejection>)
        requires
            old(self).wf(),
            record_wf(*tx),
        ensures
            final(self).wf(),
            match step_transfer(old(self)@, *tx, credit) {
                Ok(s) => r == Ok::<(), Rejection>(()) && final(self)@ == s,
                Err(e) => r == Err::<(), Rejection>(e) && final(self)@ == old(self)@,
            },
    {
        let x = match tx.amount {
            Some(x) => x,
            None => return Err(Rejection::AmountRequired),
        };
        if self.transactions.contains_key(&tx.tx) {
            return Err(Rejection::DuplicateTransaction);
        }
        let a = match self.accounts.get(&tx.client) {
            Some(a) => *a,
            None => ClientAccount {
                client: tx.client,
                available: Amount::zero(),
                held: Amount::zero(),
                total: Amount::zero(),
                locked: false,
            },
        };
        let available = if credit {
            checked_add(a.available, x)
        } else {
            checked_sub(a.available, x)
        };
        let na = match rebalance(a, available, Some(a.held)) {
            Ok(na) => na,
            Err(e) => return Err(e),
        };
        self.accounts.insert(tx.client, na);
        self.transactions.insert(
            tx.tx,
            Transaction { kind: tx.kind, client: tx.client, tx: tx.tx, amount: tx.amount, is_disputed: false },
        );
        Ok(())
    }

    /// Adds `tx.amount` to the client's available funds.
    fn process_deposit(&mut self, tx: &Transaction) -> (r: Result<(), Rejection>)
        requires
            old(self).wf(),
            record_wf(*tx),
            tx.kind == TxKind::Deposit,
        ensures
            final(self).wf(),
            match step(old(self)@, *tx) {
                Ok(s) => r == Ok::<(), Rejection>(()) && final(self)@ == s,
                Err(e) => r == Err::<(), Rejection>(e) && final(self)@ == old(self)@,
            },
    {
        self.process_transfer(tx, true)
    }

    /// Takes `tx.amount` from the client's available funds; no balance check is made.
    fn process_withdraw(&mut self, tx: &Transaction) -> (r: Result<(), Rejection>)
        requires
            old(self).wf(),
            record_wf(*tx),
            tx.kind == TxKind::Withdraw,
        ensures
            final(self).wf(),
            match step(old(self)@, *tx) {
                Ok(s) => r == Ok::<(), Rejection>(()) && final(self)@ == s,
                Err(e) => r == Err::<(), Rejection>(e) && final(self)@ == old(self)@,
            },
    {
        self.process_transfer(tx, false)
    }

    /// Moves the amount of a deposit from available to held funds.
    fn process_dispute(&mut self, tx: &Transaction) -> (r: Result<(), Rejection>)
        requires
            old(self).wf(),
            tx.kind == TxKind::Dispute,
        ensures
            final(self).wf(),
            match step_reference(old(self)@, *tx) {
                Ok(s) => r == Ok::<(), Rejection>(()) && final(self)@ == s,
                Err(e) => r == Err::<(), Rejection>(e) && final(self)@ == old(self)@,
            },
    {
        let a = match self.accounts.get(&tx.client) {
            Some(a) => *a,
            None => return Err(Rejection::AccountNotFound),
        };
        let t = match self.transactions.get(&tx.tx) {
            Some(t) => *t,
            None => return Err(Rejection::TransactionNotFound),
        };
        if t.kind != TxKind::Deposit {
            return Err(Rejection::OnlyDepositsDisputable);
        }
        let x = match t.amount {
            Some(x) => x,
            None => return Err(Rejection::AmountRequired),
        };
        let na = match rebalance(a, checked_sub(a.available, x), checked_add(a.held, x)) {
            Ok(na) => na,
            Err(e) => return Err(e),
        };
        self.accounts.insert(tx.client, na);
        self.transactions.insert(
            tx.tx,
            Transaction { kind: t.kind, client: t.client, tx: t.tx, amount: t.amount, is_disputed: true },
        );
        Ok(())
    }

    /// Moves the amount of a disputed record back from held to available funds.
    fn process_resolve(&mut self, tx: &Transaction) -> (r: Result<(), Rejection>)
        requires
            old(self).wf(),
            tx.kind == TxKind::Resolve,
        ensures
            final(self).wf(),
            match step_reference(old(self)@, *tx) {
                Ok(s) => r == Ok::<(), Rejection>(()) && final(self)@ == s,
                Err(e) => r == Err::<(), Rejection>(e) && final(self)@ == old(self)@,
            },
    {
        let a = match self.accounts.get(&tx.client) {
            Some(a) => *a,
            None => return Err(Rejection::AccountNotFound),
        };
        let t = match self.transactions.get(&tx.tx) {
            Some(t) => *t,
            None => return Err(Rejection::TransactionNotFound),
        };
        if !t.is_disputed {
            return Err(Rejection::NotDisputed);
        }
        let x = match t.amount {
            Some(x) => x,
            None => return Err(Rejection::AmountRequired),
        };
        let na = match rebalance(a, checked_add(a.available, x), checked_sub(a.held, x)) {
            Ok(na) => na,
            Err(e) => return Err(e),
        };
        self.accounts.insert(tx.client, na);
        self.transactions.insert(
            tx.tx,
            Transaction { kind: t.kind, client: t.client, tx: t.tx, amount: t.amount, is_disputed: false },
        );
        Ok(())
    }

    /// Removes the amount of a disputed record from held funds and locks the account;
    /// the record stays disputed.
    fn process_chargeback(&mut self, tx: &Transaction) -> (r: Result<(), Rejection>)
        requires
            old(self).wf(),
            tx.kind == TxKind::Chargeback,
        ensures
            final(self).wf(),
            match step_reference(old(self)@, *tx) {
                Ok(s) => r == Ok::<(), Rejection>(()) && final(self)@ == s,
                Err(e) => r == Err::<(), Rejection>(e) && final(self)@ == old(self)@,
            },
    {
        let a = match self.accounts.get(&tx.client) {
            Some(a) => *a,
            None => return Err(Rejection::AccountNotFound),
        };
        let t = match self.transactions.get(&tx.tx) {
            Some(t) => *t,
            None => return Err(Rejection::TransactionNotFound),
        };
        if !t.is_disputed {
            return Err(Rejection::NotDisputed);
        }
        let x = match t.amount {
            Some(x) => x,
            None => return Err(Rejection::AmountRequired),
        };
        let na = match rebalance(a, Some(a.available), checked_sub(a.held, x)) {
            Ok(na) => na,
            Err(e) => return Err(e),
        };
        self.accounts.insert(
            tx.client,
            ClientAccount {
                client: na.client,
                available: na.available,
                held: na.held,
                total: na.total,
                locked: true,
            },
        );
        Ok(())
    }

    /// Applies one transaction record. A rejected record leaves the ledger as it was.
    pub fn process_tx(&mut self, tx: &Transaction) -> (r: Result<(), Rejection>)
        requires
            old(self).wf(),
            record_wf(*tx),
        ensures
            final(self).wf(),
            match step(old(self)@, *tx) {
                Ok(s) => r == Ok::<(), Rejection>(()) && final(self)@ == s,
                Err(e) => r == Err::<(), Rejection>(e) && final(self)@ == old(self)@,
            },
    {
        match tx.kind {
            TxKind::Deposit => self.process_deposit(tx),
            TxKind::Withdraw => self.process_withdraw(tx),
            TxKind::Dispute => self.process_dispute(tx),
            TxKind::Resolve => self.process_resolve(tx),
            TxKind::Chargeback => self.process_chargeback(tx),
        }
    }

    /// The account of `client`, if it has one.
    pub fn account(&self, client: u16) -> (r: Option<ClientAccount>)
        ensures
            r == (if self@.0.contains_key(client) {
                Some(self@.0[client])
            } else {
                None
            }),
    {
        match self.accounts.get(&client) {
            Some(a) => Some(*a),
            None => None,
        }
    }

    /// The stored record of transaction `tx`, if there is one.
    pub fn transaction(&self, tx: u32) -> (r: Option<Transaction>)
        ensures
            r == (if self@.1.contains_key(tx) {
                Some(self@.1[tx])
            } else {
                None
            }),
    {
        match self.transactions.get(&tx) {
            Some(t) => Some(*t),
            None => None,
        }
    }

    /// Every account, in increasing order of client id.
    pub fn snapshot(&self) -> (r: Vec<ClientAccount>)
        ensures
            r@ == accounts_below(self@.0, 65536),
    {
        let mut r: Vec<ClientAccount> = Vec::new();
        let mut c: u32 = 0;
        while c < 65536
            invariant
                c <= 65536,
                r@ == accounts_below(self@.0, c as nat),
            decreases 65536 - c,
        {
            match self.accounts.get(&(c as u16)) {
                Some(a) => r.push(*a),
                None => {},
            }
            c = c + 1;
        }
        r
    }
}

/// The accounts of the clients with an id below `n`, in increasing order of id.
pub open spec fn accounts_below(m: Map<u16, ClientAccount>, n: nat) -> Seq<ClientAccount>
    decreases n,
{
    if n == 0 {
        Seq::empty()
    } else {
        let c = (n - 1) as u16;
        let rest = accounts_below(m, (n - 1) as nat);
        if m.contains_key(c) {
            rest.push(m[c])
        } else {
            rest
        }
    }
}

} // verus!
