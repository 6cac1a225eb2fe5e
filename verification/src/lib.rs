//! A small single-asset custody ledger. Each owner has one record holding a
//! staked balance; the balance continuously earns loyalty points in proportion
//! to balance held multiplied by time held. Deposits and withdrawals first fold
//! the points earned over the elapsed interval into the record, then adjust the
//! balance, and either take full effect or leave the record untouched.
//!
//! Moving the actual value between the owner and the ledger's vault, locating
//! records, and reading the clock belong to the hosting environment; the
//! functions here work on plain records, amounts and timestamps.

pub mod accrual;
pub mod errors;
pub mod ops;
pub mod record;
