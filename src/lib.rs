//! A single-pass ledger: it replays client transactions (deposits, withdrawals,
//! disputes, resolutions and chargebacks) and keeps per-client balances.

pub mod amount;
pub mod ledger;
pub mod laws;
