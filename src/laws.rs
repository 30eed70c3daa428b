//! Properties of the ledger's state machine, stated over `step`, the function
//! that `AccountManager::process_tx` follows exactly.

use crate::amount::{difference_of, sum_of, Amount};
use crate::ledger::{
    state_wf, step, AccountManager, LedgerState, Rejection, Transaction, TxKind,
};
use vstd::prelude::*;

verus! {

/// Every account of a well-formed ledger has `total == available + held`.
/// `AccountManager::new` and `AccountManager::process_tx` both leave the ledger
/// well-formed, so this holds after every record, applied or rejected.
pub proof fn total_is_available_plus_held(m: &AccountManager, client: u16)
    requires
        m.wf(),
        m@.0.contains_key(client),
    ensures
        sum_of(m@.0[client].available, m@.0[client].held) == Some(m@.0[client].total),
{
}

/// A deposit or withdrawal whose id is already in the history is rejected as
/// a duplicate; `process_tx` leaves the ledger unchanged on every rejection.
pub proof fn duplicate_is_rejected(s: LedgerState, tx: Transaction)
    requires
        tx.kind == TxKind::Deposit || tx.kind == TxKind::Withdraw,
        tx.amount is Some,
        s.1.contains_key(tx.tx),
    ensures
        step(s, tx) == Err::<LedgerState, Rejection>(Rejection::DuplicateTransaction),
{
}

/// A dispute, resolve or chargeback that names a client without an account, or
/// a transaction id that is not in the history, is rejected, and so creates
/// no account and no record.
pub proof fn missing_reference_is_rejected(s: LedgerState, tx: Transaction)
    requires
        tx.kind == TxKind::Dispute || tx.kind == TxKind::Resolve || tx.kind == TxKind::Chargeback,
        !s.0.contains_key(tx.client) || !s.1.contains_key(tx.tx),
    ensures
        step(s, tx) is Err,
{
}

pub open spec fn record(kind: TxKind, client: u16, id: u32, amount: Option<Amount>) -> Transaction {
    Transaction { kind, client, tx: id, amount, is_disputed: false }
}

/// Depositing `a`, disputing the deposit and charging it back takes `a` from
/// the held funds and locks the account. The record stays disputed.
pub proof fn chargeback_after_dispute(s: LedgerState, client: u16, id: u32, a: Amount)
    requires
        state_wf(s),
        a.wf(),
        step(s, record(TxKind::Deposit, client, id, Some(a))) is Ok,
        step(
            step(s, record(TxKind::Deposit, client, id, Some(a)))->Ok_0,
            record(TxKind::Dispute, client, id, None),
        ) is Ok,
        step(
            step(
                step(s, record(TxKind::Deposit, client, id, Some(a)))->Ok_0,
                record(TxKind::Dispute, client, id, None),
            )->Ok_0,
            record(TxKind::Chargeback, client, id, None),
        ) is Ok,
    ensures
        ({
            let s1 = step(s, record(TxKind::Deposit, client, id, Some(a)))->Ok_0;
            let s2 = step(s1, record(TxKind::Dispute, client, id, None))->Ok_0;
            let s3 = step(s2, record(TxKind::Chargeback, client, id, None))->Ok_0;
            &&& s3.0.contains_key(client)
            &&& difference_of(s2.0[client].held, a) == Some(s3.0[client].held)
            &&& s3.0[client].available == s2.0[client].available
            &&& s3.0[client].locked
            &&& s3.1.contains_key(id)
            &&& s3.1[id].is_disputed
        }),
{
}

} // verus!
