use vstd::prelude::*;

verus! {

/// Why a ledger operation was rejected. Every rejection is terminal for the
/// operation and leaves the record exactly as it was.
#[derive(Clone, Copy, Debug, PartialEq, Eq)]
pub enum Error {
    /// A zero amount was supplied to a deposit or a withdrawal.
    InvalidAmount,
    /// A withdrawal asked for more than the current staked balance.
    InsufficientStake,
    /// The requester is not the record's owner.
    Unauthorized,
    /// Checked arithmetic would exceed the integer width.
    Overflow,
    /// Checked arithmetic would go below zero.
    Underflow,
    /// The supplied current time precedes the record's last update time.
    InvalidTimestamp,
    /// The external value-movement capability failed.
    TransferFailure,
}

} // verus!
