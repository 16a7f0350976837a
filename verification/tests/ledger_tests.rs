use ledger::compute::Accounts;
use ledger::data::{Account, Error, Transaction, TxType, AMOUNT_UNIT};

#[test]
fn test_deposit() {
    let mut accounts = Accounts::new();
    accounts
        .use_tx(Transaction {
            txtype: TxType::Deposit,
            client: 5,
            id: 1,
            amount: Some(100 * AMOUNT_UNIT),
        })
        .unwrap();
    assert_eq!(
        accounts.accounts[&5],
        Account {
            client: 5,
            available: (100 * AMOUNT_UNIT) as i128,
            held: 0,
            locked: false,
        },
    );
}

#[test]
fn test_withdrawal() {
    let mut accounts = Accounts::new();
    accounts
        .use_tx(Transaction {
            txtype: TxType::Deposit,
            client: 5,
            id: 1,
            amount: Some(100 * AMOUNT_UNIT),
        })
        .unwrap();
    accounts
        .use_tx(Transaction {
            txtype: TxType::Withdrawal,
            client: 5,
            id: 2,
            amount: Some(60 * AMOUNT_UNIT),
        })
        .unwrap();
    assert_eq!(
        accounts.accounts[&5],
        Account {
            client: 5,
            available: (40 * AMOUNT_UNIT) as i128,
            held: 0,
            locked: false,
        },
    );
}

#[test]
fn test_dispute() {
    let mut accounts = Accounts::new();
    accounts
        .use_tx(Transaction {
            txtype: TxType::Deposit,
            client: 5,
            id: 1,
            amount: Some(100 * AMOUNT_UNIT),
        })
        .unwrap();
    accounts
        .use_tx(Transaction {
            txtype: TxType::Dispute,
            client: 5,
            id: 1,
            amount: None,
        })
        .unwrap();
    assert_eq!(
        accounts.accounts[&5],
        Account {
            client: 5,
            available: 0,
            held: (100 * AMOUNT_UNIT) as i128,
            locked: false,
        },
    );
}

#[test]
fn test_resolve() {
    let mut accounts = Accounts::new();
    accounts
        .use_tx(Transaction {
            txtype: TxType::Deposit,
            client: 5,
            id: 1,
            amount: Some(100 * AMOUNT_UNIT),
        })
        .unwrap();
    accounts
        .use_tx(Transaction {
            txtype: TxType::Dispute,
            client: 5,
            id: 1,
            amount: None,
        })
        .unwrap();
    accounts
        .use_tx(Transaction {
            txtype: TxType::Resolve,
            client: 5,
            id: 1,
            amount: None,
        })
        .unwrap();
    assert_eq!(
        accounts.accounts[&5],
        Account {
            client: 5,
            available: (100 * AMOUNT_UNIT) as i128,
            held: 0,
            locked: false,
        },
    );
}

#[test]
fn test_chargeback() {
    let mut accounts = Accounts::new();
    accounts
        .use_tx(Transaction {
            txtype: TxType::Deposit,
            client: 5,
            id: 1,
            amount: Some(100 * AMOUNT_UNIT),
        })
        .unwrap();
    accounts
        .use_tx(Transaction {
            txtype: TxType::Dispute,
            client: 5,
            id: 1,
            amount: None,
        })
        .unwrap();
    accounts
        .use_tx(Transaction {
            txtype: TxType::Chargeback,
            client: 5,
            id: 1,
            amount: None,
        })
        .unwrap();
    assert_eq!(
        accounts.accounts[&5],
        Account {
            client: 5,
            available: 0,
            held: 0,
            locked: true,
        },
    );
}

#[test]
fn test_withdrawal_insufficient_funds() {
    let mut accounts = Accounts::new();
    accounts
        .use_tx(Transaction {
            txtype: TxType::Deposit,
            client: 5,
            id: 1,
            amount: Some(100 * AMOUNT_UNIT),
        })
        .unwrap();
    assert_eq!(
        accounts.use_tx(Transaction {
            txtype: TxType::Withdrawal,
            client: 5,
            id: 2,
            amount: Some(200 * AMOUNT_UNIT),
        }),
        Err(Error::InsufficientFunds {
            asked: (200 * AMOUNT_UNIT) as i128,
            available: (100 * AMOUNT_UNIT) as i128,
        })
    );
}

#[test]
fn test_locked_account() {
    let mut accounts = Accounts::new();
    accounts
        .use_tx(Transaction {
            txtype: TxType::Deposit,
            client: 5,
            id: 1,
            amount: Some(100 * AMOUNT_UNIT),
        })
        .unwrap();
    accounts.accounts.get_mut(&5).unwrap().locked = true;
    assert_eq!(
        accounts.use_tx(Transaction {
            txtype: TxType::Withdrawal,
            client: 5,
            id: 2,
            amount: Some(200 * AMOUNT_UNIT),
        }),
        Err(Error::AccountLocked)
    );
}

#[test]
fn test_duplicate_transaction() {
    let mut accounts = Accounts::new();
    accounts
        .use_tx(Transaction {
            txtype: TxType::Deposit,
            client: 5,
            id: 1,
            amount: Some(100 * AMOUNT_UNIT),
        })
        .unwrap();
    assert_eq!(
        accounts.use_tx(Transaction {
            txtype: TxType::Withdrawal,
            client: 5,
            id: 1,
            amount: Some(200 * AMOUNT_UNIT),
        }),
        Err(Error::DuplicateTransaction(1))
    );
}

#[test]
fn test_negative_amount() {
    let mut accounts = Accounts::new();
    assert_eq!(
        accounts.use_tx(Transaction {
            txtype: TxType::Deposit,
            client: 5,
            id: 1,
            amount: Some(-100 * AMOUNT_UNIT),
        }),
        Err(Error::NegativeAmount)
    );
    assert_eq!(
        accounts.use_tx(Transaction {
            txtype: TxType::Withdrawal,
            client: 5,
            id: 2,
            amount: Some(-100 * AMOUNT_UNIT),
        }),
        Err(Error::NegativeAmount)
    );
}

#[test]
fn test_missing_amount() {
    let mut accounts = Accounts::new();
    assert_eq!(
        accounts.use_tx(Transaction {
            txtype: TxType::Deposit,
            client: 5,
            id: 1,
            amount: None,
        }),
        Err(Error::MissingAmount)
    );
}

#[test]
fn test_unattended_amount() {
    let mut accounts = Accounts::new();
    accounts
        .use_tx(Transaction {
            txtype: TxType::Deposit,
            client: 5,
            id: 1,
            amount: Some(100 * AMOUNT_UNIT),
        })
        .unwrap();
    assert_eq!(
        accounts.use_tx(Transaction {
            txtype: TxType::Dispute,
            client: 5,
            id: 1,
            amount: Some(100 * AMOUNT_UNIT),
        }),
        Err(Error::UnattendedforAmount)
    );
}

#[test]
fn test_transaction_not_found() {
    let mut accounts = Accounts::new();
    accounts
        .use_tx(Transaction {
            txtype: TxType::Deposit,
            client: 5,
            id: 1,
            amount: Some(100 * AMOUNT_UNIT),
        })
        .unwrap();
    assert_eq!(
        accounts.use_tx(Transaction {
            txtype: TxType::Dispute,
            client: 5,
            id: 2,
            amount: None,
        }),
        Err(Error::TransactionNotFound(2))
    );
}

#[test]
fn test_dispute_mismatch() {
    let mut accounts = Accounts::new();
    accounts
        .use_tx(Transaction {
            txtype: TxType::Deposit,
            client: 5,
            id: 1,
            amount: Some(100 * AMOUNT_UNIT),
        })
        .unwrap();
    assert_eq!(
        accounts.use_tx(Transaction {
            txtype: TxType::Dispute,
            client: 2,
            id: 1,
            amount: None,
        }),
        Err(Error::DisputeMismatch)
    );
}

#[test]
fn test_wrong_dispute() {
    let mut accounts = Accounts::new();
    accounts
        .use_tx(Transaction {
            txtype: TxType::Deposit,
            client: 5,
            id: 1,
            amount: Some(100 * AMOUNT_UNIT),
        })
        .unwrap();
    accounts
        .use_tx(Transaction {
            txtype: TxType::Withdrawal,
            client: 5,
            id: 2,
            amount: Some(60 * AMOUNT_UNIT),
        })
        .unwrap();
    assert_eq!(
        accounts.use_tx(Transaction {
            txtype: TxType::Dispute,
            client: 2,
            id: 2,
            amount: None,
        }),
        Err(Error::WrongDispute)
    );
}
