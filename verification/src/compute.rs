//! The transaction state machine.
//!
//! [`Accounts`] owns the account map and the history of accepted deposits
//! and withdrawals. Its one operation, [`Accounts::use_tx`], validates a
//! transaction against that state and either applies it or rejects it with
//! an [`Error`].
//!
//! The contract of `use_tx` is a mathematical transition function, [`step`],
//! over the map views of the two collections: the call returns exactly
//! `step(..).result` and leaves the ledger in exactly `step(..)`'s state.

use std::collections::HashMap;
use vstd::prelude::*;

use crate::data::{Account, ClientId, Error, Transaction, TxId, TxType};

verus! {

broadcast use vstd::std_specs::hash::group_hash_axioms;

/// The zero-balance, unlocked account created the first time a transaction
/// references a client id.
pub open spec fn fresh_account(client: ClientId) -> Account {
    Account { client: client, available: 0, held: 0, locked: false }
}

/// The account a transaction addresses: the stored one, or a fresh one if
/// the client id has never been seen.
pub open spec fn account_or_fresh(accounts: Map<ClientId, Account>, client: ClientId) -> Account {
    if accounts.contains_key(client) {
        accounts[client]
    } else {
        fresh_account(client)
    }
}

/// The outcome of applying one transaction to the mathematical ledger state.
pub ghost struct Step {
    pub accounts: Map<ClientId, Account>,
    pub history: Map<TxId, Transaction>,
    pub result: Result<(), Error>,
}

/// A rejected transaction: the state is unchanged and the error is returned.
pub open spec fn rejected(
    accounts: Map<ClientId, Account>,
    history: Map<TxId, Transaction>,
    e: Error,
) -> Step {
    Step { accounts, history, result: Err(e) }
}

/// A deposit: the amount must be present and the id unused; the amount is
/// then added to the available balance and the record enters the history.
pub open spec fn step_deposit(
    accounts: Map<ClientId, Account>,
    history: Map<TxId, Transaction>,
    tx: Transaction,
    acct: Account,
) -> Step {
    match tx.amount {
        None => rejected(accounts, history, Error::MissingAmount),
        Some(amount) => if history.contains_key(tx.id) {
            rejected(accounts, history, Error::DuplicateTransaction(tx.id))
        } else {
            Step {
                accounts: accounts.insert(
                    tx.client,
                    Account {
                        client: acct.client,
                        available: (acct.available + amount) as i128,
                        held: acct.held,
                        locked: acct.locked,
                    },
                ),
                history: history.insert(tx.id, tx),
                result: Ok(()),
            }
        },
    }
}

/// A withdrawal: the amount must be present, the id unused and the available
/// balance sufficient; the amount is then taken from the available balance
/// and the record enters the history.
pub open spec fn step_withdrawal(
    accounts: Map<ClientId, Account>,
    history: Map<TxId, Transaction>,
    tx: Transaction,
    acct: Account,
) -> Step {
    match tx.amount {
        None => rejected(accounts, history, Error::MissingAmount),
        Some(amount) => if history.contains_key(tx.id) {
            rejected(accounts, history, Error::DuplicateTransaction(tx.id))
        } else if acct.available < amount {
            rejected(
                accounts,
                history,
                Error::InsufficientFunds { asked: amount as i128, available: acct.available },
            )
        } else {
            Step {
                accounts: accounts.insert(
                    tx.client,
                    Account {
                        client: acct.client,
                        available: (acct.available - amount) as i128,
                        held: acct.held,
                        locked: acct.locked,
                    },
                ),
                history: history.insert(tx.id, tx),
                result: Ok(()),
            }
        },
    }
}

/// The preconditions shared by dispute, resolve and chargeback: no amount on
/// the record itself, a known referenced id, a referenced record that is a
/// deposit, and a matching client. Returns the rejection, or `None` if all
/// preconditions hold.
pub open spec fn reference_error(
    history: Map<TxId, Transaction>,
    tx: Transaction,
    acct: Account,
) -> Option<Error> {
    if tx.amount is Some {
        Some(Error::UnattendedforAmount)
    } else if !history.contains_key(tx.id) {
        Some(Error::TransactionNotFound(tx.id))
    } else if history[tx.id].txtype != TxType::Deposit {
        Some(Error::WrongDispute)
    } else if history[tx.id].client != acct.client {
        Some(Error::DisputeMismatch)
    } else if history[tx.id].amount is None {
        Some(Error::MissingAmount)
    } else {
        None
    }
}

/// A dispute: the referenced deposit's amount moves from available to held.
pub open spec fn step_dispute(
    accounts: Map<ClientId, Account>,
    history: Map<TxId, Transaction>,
    tx: Transaction,
    acct: Account,
) -> Step {
    match reference_error(history, tx, acct) {
        Some(e) => rejected(accounts, history, e),
        None => {
            let amount = history[tx.id].amount->Some_0;
            if acct.available < amount {
                rejected(
                    accounts,
                    history,
                    Error::InsufficientFunds { asked: amount as i128, available: acct.available },
                )
            } else {
                Step {
                    accounts: accounts.insert(
                        tx.client,
                        Account {
                            client: acct.client,
                            available: (acct.available - amount) as i128,
                            held: (acct.held + amount) as i128,
                            locked: acct.locked,
                        },
                    ),
                    history,
                    result: Ok(()),
                }
            }
        },
    }
}

/// A resolve: the referenced deposit's amount moves from held back to
/// available, ending the dispute.
pub open spec fn step_resolve(
    accounts: Map<ClientId, Account>,
    history: Map<TxId, Transaction>,
    tx: Transaction,
    acct: Account,
) -> Step {
    match reference_error(history, tx, acct) {
        Some(e) => rejected(accounts, history, e),
        None => {
            let amount = history[tx.id].amount->Some_0;
            if acct.held < amount {
                rejected(
                    accounts,
                    history,
                    Error::InsufficientFunds { asked: amount as i128, available: acct.held },
                )
            } else {
                Step {
                    accounts: accounts.insert(
                        tx.client,
                        Account {
                            client: acct.client,
                            available: (acct.available + amount) as i128,
                            held: (acct.held - amount) as i128,
                            locked: acct.locked,
                        },
                    ),
                    history,
                    result: Ok(()),
                }
            }
        },
    }
}

/// A chargeback: the referenced deposit's amount is written off from held
/// and the account is locked for good. Nothing returns to available.
pub open spec fn step_chargeback(
    accounts: Map<ClientId, Account>,
    history: Map<TxId, Transaction>,
    tx: Transaction,
    acct: Account,
) -> Step {
    match reference_error(history, tx, acct) {
        Some(e) => rejected(accounts, history, e),
        None => {
            let amount = history[tx.id].amount->Some_0;
            if acct.held < amount {
                rejected(
                    accounts,
                    history,
                    Error::InsufficientFunds { asked: amount as i128, available: acct.held },
                )
            } else {
                Step {
                    accounts: accounts.insert(
                        tx.client,
                        Account {
                            client: acct.client,
                            available: acct.available,
                            held: (acct.held - amount) as i128,
                            locked: true,
                        },
                    ),
                    history,
                    result: Ok(()),
                }
            }
        },
    }
}

/// The full transition: the negative-amount check, the lazy creation of the
/// target account, the locked check, then the per-type behavior.
pub open spec fn step(
    accounts: Map<ClientId, Account>,
    history: Map<TxId, Transaction>,
    tx: Transaction,
) -> Step {
    if tx.amount is Some && tx.amount->Some_0 < 0 {
        rejected(accounts, history, Error::NegativeAmount)
    } else {
        let acct = account_or_fresh(accounts, tx.client);
        let accounts1 = if accounts.contains_key(tx.client) {
            accounts
        } else {
            accounts.insert(tx.client, acct)
        };
        if acct.locked {
            rejected(accounts1, history, Error::AccountLocked)
        } else {
            match tx.txtype {
                TxType::Deposit => step_deposit(accounts1, history, tx, acct),
                TxType::Withdrawal => step_withdrawal(accounts1, history, tx, acct),
                TxType::Dispute => step_dispute(accounts1, history, tx, acct),
                TxType::Resolve => step_resolve(accounts1, history, tx, acct),
                TxType::Chargeback => step_chargeback(accounts1, history, tx, acct),
            }
        }
    }
}

/// Well-formedness of a stored account: it carries its own key as client id,
/// both balances are non-negative, and the total balance fits an `i128`.
pub open spec fn account_wf(acct: Account, client: ClientId) -> bool {
    &&& acct.client == client
    &&& 0 <= acct.available
    &&& 0 <= acct.held
    &&& acct.available + acct.held <= i128::MAX
}

/// Well-formedness of a history record: it carries its own key as id, it is
/// a deposit or a withdrawal, and it holds a non-negative amount.
pub open spec fn record_wf(rec: Transaction, id: TxId) -> bool {
    &&& rec.id == id
    &&& (rec.txtype == TxType::Deposit || rec.txtype == TxType::Withdrawal)
    &&& rec.amount is Some
    &&& 0 <= rec.amount->Some_0
}

/// Well-formedness of the whole ledger state.
pub open spec fn state_wf(
    accounts: Map<ClientId, Account>,
    history: Map<TxId, Transaction>,
) -> bool {
    &&& forall|c: ClientId| #[trigger] accounts.contains_key(c) ==> account_wf(accounts[c], c)
    &&& forall|t: TxId| #[trigger] history.contains_key(t) ==> record_wf(history[t], t)
}

/// Machine limit on deposits: when a deposit will be accepted, the account's
/// new total balance must still be representable in an `i128`. Every other
/// transaction keeps or lowers the total, so only deposits need headroom.
pub open spec fn deposit_fits(
    accounts: Map<ClientId, Account>,
    history: Map<TxId, Transaction>,
    tx: Transaction,
) -> bool {
    ({
        let acct = account_or_fresh(accounts, tx.client);
        &&& tx.txtype == TxType::Deposit
        &&& tx.amount is Some
        &&& 0 <= tx.amount->Some_0
        &&& !acct.locked
        &&& !history.contains_key(tx.id)
    }) ==> account_or_fresh(accounts, tx.client).available + account_or_fresh(
        accounts,
        tx.client,
    ).held + tx.amount->Some_0 <= i128::MAX
}

/// The ledger: the current account states and the history of accepted
/// deposits and withdrawals, keyed by transaction id.
pub struct Accounts {
    pub accounts: HashMap<ClientId, Account>,
    txset: HashMap<TxId, Transaction>,
}

impl Accounts {
    /// The current account states, as a map view.
    pub closed spec fn balances(self) -> Map<ClientId, Account> {
        self.accounts@
    }

    /// The history of accepted deposits and withdrawals. Entries are created
    /// exactly once and never removed or mutated afterwards.
    pub closed spec fn history(self) -> Map<TxId, Transaction> {
        self.txset@
    }

    /// The ledger's invariant: established by [`Accounts::new`] and
    /// preserved by every [`Accounts::use_tx`] call.
    pub open spec fn wf(self) -> bool {
        state_wf(self.balances(), self.history())
    }

    /// An empty ledger: no accounts, no history.
    pub fn new() -> (r: Self)
        ensures
            r.balances() == Map::<ClientId, Account>::empty(),
            r.history() == Map::<TxId, Transaction>::empty(),
            r.wf(),
    {
        Accounts { accounts: HashMap::new(), txset: HashMap::new() }
    }

    /// Apply one transaction: validate it against the current state, then
    /// either perform its mutation or reject it with the specific error.
    /// The result and the new state are exactly those of [`step`].
    pub fn use_tx(&mut self, tx: Transaction) -> (r: Result<(), Error>)
        requires
            old(self).wf(),
            deposit_fits(old(self).balances(), old(self).history(), tx),
        ensures
            final(self).wf(),
            ({
                let s = step(old(self).balances(), old(self).history(), tx);
                &&& final(self).balances() == s.accounts
                &&& final(self).history() == s.history
                &&& r == s.result
            }),
    {
        if let Some(amount) = tx.amount {
            if amount < 0 {
                return Err(Error::NegativeAmount);
            }
        }
        let acct: Account = match self.accounts.get(&tx.client) {
            Some(a) => *a,
            None => Account { client: tx.client, available: 0, held: 0, locked: false },
        };
        if !self.accounts.contains_key(&tx.client) {
            self.accounts.insert(tx.client, acct);
        }
        if acct.locked {
            return Err(Error::AccountLocked);
        }
        match tx.txtype {
            TxType::Deposit => {
                let amount = match tx.amount {
                    Some(a) => a,
                    None => {
                        return Err(Error::MissingAmount);
                    },
                };
                if self.txset.contains_key(&tx.id) {
                    return Err(Error::DuplicateTransaction(tx.id));
                }
                self.txset.insert(tx.id, tx);
                let updated = Account {
                    client: acct.client,
                    available: acct.available + amount as i128,
                    held: acct.held,
                    locked: acct.locked,
                };
                self.accounts.insert(tx.client, updated);
                Ok(())
            },
            TxType::Withdrawal => {
                let amount = match tx.amount {
                    Some(a) => a,
                    None => {
                        return Err(Error::MissingAmount);
                    },
                };
                if self.txset.contains_key(&tx.id) {
                    return Err(Error::DuplicateTransaction(tx.id));
                }
                if acct.available < amount as i128 {
                    return Err(
                        Error::InsufficientFunds { asked: amount as i128, available: acct.available },
                    );
                }
                self.txset.insert(tx.id, tx);
                let updated = Account {
                    client: acct.client,
                    available: acct.available - amount as i128,
                    held: acct.held,
                    locked: acct.locked,
                };
                self.accounts.insert(tx.client, updated);
                Ok(())
            },
            TxType::Dispute => {
                let amount = match self.reference(&tx, &acct) {
                    Ok(a) => a,
                    Err(e) => {
                        return Err(e);
                    },
                };
                if acct.available < amount as i128 {
                    return Err(
                        Error::InsufficientFunds { asked: amount as i128, available: acct.available },
                    );
                }
                let updated = Account {
                    client: acct.client,
                    available: acct.available - amount as i128,
                    held: acct.held + amount as i128,
                    locked: acct.locked,
                };
                self.accounts.insert(tx.client, updated);
                Ok(())
            },
            TxType::Resolve => {
                let amount = match self.reference(&tx, &acct) {
                    Ok(a) => a,
                    Err(e) => {
                        return Err(e);
                    },
                };
                if acct.held < amount as i128 {
                    return Err(
                        Error::InsufficientFunds { asked: amount as i128, available: acct.held },
                    );
                }
                let updated = Account {
                    client: acct.client,
                    available: acct.available + amount as i128,
                    held: acct.held - amount as i128,
                    locked: acct.locked,
                };
                self.accounts.insert(tx.client, updated);
                Ok(())
            },
            TxType::Chargeback => {
                let amount = match self.reference(&tx, &acct) {
                    Ok(a) => a,
                    Err(e) => {
                        return Err(e);
                    },
                };
                if acct.held < amount as i128 {
                    return Err(
                        Error::InsufficientFunds { asked: amount as i128, available: acct.held },
                    );
                }
                let updated = Account {
                    client: acct.client,
                    available: acct.available,
                    held: acct.held - amount as i128,
                    locked: true,
                };
                self.accounts.insert(tx.client, updated);
                Ok(())
            },
        }
    }

    /// Whether a deposit or withdrawal with this id was already accepted.
    pub fn known_transaction(&self, id: TxId) -> (r: bool)
        ensures
            r == self.history().contains_key(id),
    {
        self.txset.contains_key(&id)
    }

    /// Resolve the amount of the deposit a dispute, resolve or chargeback
    /// refers to, checking the preconditions the three share.
    fn reference(&self, tx: &Transaction, acct: &Account) -> (r: Result<i64, Error>)
        ensures
            r == match reference_error(self.history(), *tx, *acct) {
                Some(e) => Err::<i64, Error>(e),
                None => Ok::<i64, Error>(self.history()[tx.id].amount->Some_0),
            },
    {
        if tx.amount.is_some() {
            return Err(Error::UnattendedforAmount);
        }
        let rec: Transaction = match self.txset.get(&tx.id) {
            Some(r) => *r,
            None => {
                return Err(Error::TransactionNotFound(tx.id));
            },
        };
        if rec.txtype != TxType::Deposit {
            return Err(Error::WrongDispute);
        }
        if rec.client != acct.client {
            return Err(Error::DisputeMismatch);
        }
        match rec.amount {
            Some(a) => Ok(a),
            None => Err(Error::MissingAmount),
        }
    }
}

} // verus!
