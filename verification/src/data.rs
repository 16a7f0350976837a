//! The ledger's data model: clients, transactions, accounts and errors.
//!
//! Monetary amounts are fixed-point decimals normalized to four fractional
//! digits. An amount is stored as an `i64` counting ten-thousandths of one
//! currency unit; account balances accumulate amounts and are stored as
//! `i128` in the same units.

use vstd::prelude::*;

verus! {

/// Identifies a client account.
pub type ClientId = u16;

/// Identifies a ledger-affecting transaction (a deposit or a withdrawal).
pub type TxId = u32;

/// Amounts carry exactly this many fractional decimal digits.
pub const SIGNIFICANT_DIGITS: u32 = 4;

/// Amount units per whole currency unit (ten to the `SIGNIFICANT_DIGITS`).
pub const AMOUNT_UNIT: i64 = 10_000;

/// The five kinds of transaction the ledger accepts.
#[derive(Debug, Clone, Copy, PartialEq, Eq, Structural)]
pub enum TxType {
    Deposit,
    Withdrawal,
    Dispute,
    Resolve,
    Chargeback,
}

/// One input transaction record.
///
/// `amount` is required (and must be non-negative) for deposits and
/// withdrawals, and must be absent for disputes, resolves and chargebacks,
/// which reference a prior deposit by `id` instead. It counts
/// ten-thousandths of one currency unit.
#[derive(Debug, Clone, Copy, PartialEq, Eq)]
pub struct Transaction {
    pub txtype: TxType,
    pub client: ClientId,
    pub id: TxId,
    pub amount: Option<i64>,
}

/// A client account. There is no `total` field: the total balance is always
/// `available + held` and is recomputed on demand by [`Account::total`]
/// rather than maintained as a redundant invariant.
#[derive(Debug, Clone, Copy, PartialEq, Eq, Structural)]
pub struct Account {
    pub client: ClientId,
    /// Funds the client may withdraw or have disputed, in amount units.
    pub available: i128,
    /// Funds frozen by open disputes, in amount units.
    pub held: i128,
    /// Set by a chargeback; a locked account rejects every transaction.
    pub locked: bool,
}

impl Account {
    /// The derived total balance: always `available + held`, never stored.
    pub fn total(&self) -> (t: i128)
        requires
            i128::MIN <= self.available + self.held,
            self.available + self.held <= i128::MAX,
        ensures
            t == self.available + self.held,
    {
        self.available + self.held
    }
}

/// Why the ledger rejected a transaction. Each is a terminal outcome of one
/// `use_tx` call; the caller reports it and continues with the next record.
#[derive(Debug, Clone, Copy, PartialEq, Eq)]
pub enum Error {
    /// A deposit or withdrawal reused an id already in the history.
    DuplicateTransaction(TxId),
    /// A dispute, resolve or chargeback referenced an unknown id.
    TransactionNotFound(TxId),
    /// The operation would drive the available (or held) balance negative.
    InsufficientFunds { asked: i128, available: i128 },
    /// The target account was locked by an earlier chargeback.
    AccountLocked,
    /// The transaction carried a negative amount.
    NegativeAmount,
    /// A deposit or withdrawal carried no amount.
    MissingAmount,
    /// A dispute, resolve or chargeback carried an amount.
    UnattendedforAmount,
    /// The referenced transaction exists but is not a deposit.
    WrongDispute,
    /// The referenced transaction belongs to a different client.
    DisputeMismatch,
}

} // verus!
