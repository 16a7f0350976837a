//! A verified payments ledger.
//!
//! The ledger ingests a sequence of client transactions (deposits,
//! withdrawals, disputes, resolves, chargebacks) and maintains per-client
//! account balances. Every transaction is validated against the accumulated
//! account and history state; invalid transactions are rejected with a
//! specific error and leave the balances untouched.
//!
//! Monetary amounts are exact fixed-point decimals with four fractional
//! digits, held as scaled integers; callers that read decimal text convert
//! at the boundary.

pub mod compute;
pub mod data;
pub mod props;
