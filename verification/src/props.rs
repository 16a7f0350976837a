//! Proved laws of the ledger.
//!
//! Each proof function here states a property of the transition function
//! [`step`] that [`crate::compute::Accounts::use_tx`] is specified against,
//! so the property carries over to every sequence of `use_tx` calls.

use vstd::prelude::*;

use crate::compute::{account_or_fresh, deposit_fits, state_wf, step, Step};
use crate::data::{Account, ClientId, Error, Transaction, TxId, TxType};

verus! {

/// Runs a sequence of transactions, applying each in order. Rejected
/// transactions leave the state unchanged, so the run continues past them,
/// as the driving caller does.
pub open spec fn run(
    accounts: Map<ClientId, Account>,
    history: Map<TxId, Transaction>,
    txs: Seq<Transaction>,
) -> Step
    decreases txs.len(),
{
    if txs.len() == 0 {
        Step { accounts, history, result: Ok(()) }
    } else {
        let s = step(accounts, history, txs[0]);
        run(s.accounts, s.history, txs.subrange(1, txs.len() as int))
    }
}

/// Every deposit along a run leaves its account's total balance
/// representable: the machine-limit side condition of [`run`].
pub open spec fn run_fits(
    accounts: Map<ClientId, Account>,
    history: Map<TxId, Transaction>,
    txs: Seq<Transaction>,
) -> bool
    decreases txs.len(),
{
    txs.len() == 0 || {
        let s = step(accounts, history, txs[0]);
        &&& deposit_fits(accounts, history, txs[0])
        &&& run_fits(s.accounts, s.history, txs.subrange(1, txs.len() as int))
    }
}

/// One step from a well-formed state leaves a well-formed state.
pub proof fn lemma_step_preserves_wf(
    accounts: Map<ClientId, Account>,
    history: Map<TxId, Transaction>,
    tx: Transaction,
)
    requires
        state_wf(accounts, history),
        deposit_fits(accounts, history, tx),
    ensures
        state_wf(step(accounts, history, tx).accounts, step(accounts, history, tx).history),
{
}

/// Law: for all accounts, available and held stay non-negative after any
/// sequence of transactions applied to a well-formed ledger. Rejected
/// transactions change nothing, so this holds whichever succeed.
pub proof fn lemma_balances_nonnegative(
    accounts: Map<ClientId, Account>,
    history: Map<TxId, Transaction>,
    txs: Seq<Transaction>,
    client: ClientId,
)
    requires
        state_wf(accounts, history),
        run_fits(accounts, history, txs),
        run(accounts, history, txs).accounts.contains_key(client),
    ensures
        0 <= run(accounts, history, txs).accounts[client].available,
        0 <= run(accounts, history, txs).accounts[client].held,
    decreases txs.len(),
{
    if txs.len() == 0 {
    } else {
        let s = step(accounts, history, txs[0]);
        lemma_step_preserves_wf(accounts, history, txs[0]);
        lemma_balances_nonnegative(s.accounts, s.history, txs.subrange(1, txs.len() as int), client);
    }
}

/// Law: a deposit or withdrawal whose id is already in the history is
/// rejected and changes no balance and no lock, regardless of its amount.
/// The history itself is left untouched as well.
pub proof fn lemma_duplicate_id_unchanged(
    accounts: Map<ClientId, Account>,
    history: Map<TxId, Transaction>,
    tx: Transaction,
    client: ClientId,
)
    requires
        tx.txtype == TxType::Deposit || tx.txtype == TxType::Withdrawal,
        history.contains_key(tx.id),
    ensures
        ({
            let s = step(accounts, history, tx);
            &&& s.result is Err
            &&& s.history == history
            &&& account_or_fresh(s.accounts, client).available == account_or_fresh(
                accounts,
                client,
            ).available
            &&& account_or_fresh(s.accounts, client).held == account_or_fresh(
                accounts,
                client,
            ).held
            &&& account_or_fresh(s.accounts, client).locked == account_or_fresh(
                accounts,
                client,
            ).locked
        }),
{
}

/// The dispute of a given transaction id, as a record.
pub open spec fn dispute_tx(client: ClientId, id: TxId) -> Transaction {
    Transaction { txtype: TxType::Dispute, client: client, id: id, amount: None }
}

/// The resolve of a given transaction id, as a record.
pub open spec fn resolve_tx(client: ClientId, id: TxId) -> Transaction {
    Transaction { txtype: TxType::Resolve, client: client, id: id, amount: None }
}

/// Law: a successful dispute followed by a resolve of the same id restores
/// the pre-dispute available/held split of every account exactly — the
/// arithmetic is over integers scaled to fixed decimals, so there is no
/// drift — and leaves the history as it was.
pub proof fn lemma_dispute_resolve_roundtrip(
    accounts: Map<ClientId, Account>,
    history: Map<TxId, Transaction>,
    client: ClientId,
    id: TxId,
)
    requires
        state_wf(accounts, history),
        step(accounts, history, dispute_tx(client, id)).result is Ok,
    ensures
        ({
            let s1 = step(accounts, history, dispute_tx(client, id));
            let s2 = step(s1.accounts, s1.history, resolve_tx(client, id));
            &&& s2.result is Ok
            &&& s2.history == history
            &&& forall|c: ClientId|
                account_or_fresh(#[trigger] s2.accounts, c) == account_or_fresh(accounts, c)
        }),
{
    let s1 = step(accounts, history, dispute_tx(client, id));
    let s2 = step(s1.accounts, s1.history, resolve_tx(client, id));
    assert forall|c: ClientId|
        account_or_fresh(#[trigger] s2.accounts, c) == account_or_fresh(accounts, c) by {
        if c == client {
            assert(account_or_fresh(s2.accounts, c) == account_or_fresh(accounts, c));
        }
    }
}

/// Law: a locked account stays locked under every transaction, and any
/// transaction addressed to it — other than one already rejected for a
/// negative amount — fails with `AccountLocked` and changes nothing.
pub proof fn lemma_locked_is_permanent(
    accounts: Map<ClientId, Account>,
    history: Map<TxId, Transaction>,
    tx: Transaction,
    client: ClientId,
)
    requires
        accounts.contains_key(client),
        accounts[client].locked,
    ensures
        ({
            let s = step(accounts, history, tx);
            &&& s.accounts.contains_key(client)
            &&& s.accounts[client].locked
            &&& (tx.client == client && !(tx.amount is Some && tx.amount->Some_0 < 0)) ==> {
                &&& s.result == Err::<(), Error>(Error::AccountLocked)
                &&& s.accounts == accounts
                &&& s.history == history
            }
        }),
{
}

/// Law: a successful chargeback leaves the charged account locked.
pub proof fn lemma_chargeback_locks(
    accounts: Map<ClientId, Account>,
    history: Map<TxId, Transaction>,
    tx: Transaction,
)
    requires
        tx.txtype == TxType::Chargeback,
        step(accounts, history, tx).result is Ok,
    ensures
        step(accounts, history, tx).accounts.contains_key(tx.client),
        step(accounts, history, tx).accounts[tx.client].locked,
{
}

} // verus!
