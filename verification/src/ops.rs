use vstd::prelude::*;

use crate::accrual::update_outcome;
use crate::accrual::update_points;
use crate::errors::Error;
use crate::record::owner_matches;
use crate::record::StakeAccount;

verus! {

/// The full outcome of a deposit request: the updated record, or the exact
/// error. The requester must be the owner and the amount positive; points are
/// then accrued against the pre-deposit balance before the amount is added,
/// and the whole operation fails atomically where any step would exceed an
/// integer width.
pub open spec fn stake_outcome(
    rec: StakeAccount,
    requester: Seq<u8>,
    amount: u64,
    now: u64,
) -> Result<StakeAccount, Error> {
    if requester != rec.owner@ {
        Err(Error::Unauthorized)
    } else if amount == 0 {
        Err(Error::InvalidAmount)
    } else {
        match update_outcome(rec, now) {
            Err(e) => Err(e),
            Ok(acc) => if acc.staked_amount + amount > u64::MAX {
                Err(Error::Overflow)
            } else {
                Ok(
                    StakeAccount {
                        owner: acc.owner,
                        staked_amount: (acc.staked_amount + amount) as u64,
                        total_points: acc.total_points,
                        last_updated_time: acc.last_updated_time,
                        bump: acc.bump,
                    },
                )
            },
        }
    }
}

/// The record after a deposit request: updated on success, untouched on error.
pub open spec fn stake_state(
    rec: StakeAccount,
    requester: Seq<u8>,
    amount: u64,
    now: u64,
) -> StakeAccount {
    match stake_outcome(rec, requester, amount, now) {
        Ok(next) => next,
        Err(_) => rec,
    }
}

/// The status a deposit request reports.
pub open spec fn stake_result(
    rec: StakeAccount,
    requester: Seq<u8>,
    amount: u64,
    now: u64,
) -> Result<(), Error> {
    match stake_outcome(rec, requester, amount, now) {
        Ok(_) => Ok(()),
        Err(e) => Err(e),
    }
}

/// The full outcome of a withdrawal request: as `stake_outcome`, but the
/// balance must already cover the amount (checked before anything moves), and
/// the amount is subtracted after the accrual.
pub open spec fn unstake_outcome(
    rec: StakeAccount,
    requester: Seq<u8>,
    amount: u64,
    now: u64,
) -> Result<StakeAccount, Error> {
    if requester != rec.owner@ {
        Err(Error::Unauthorized)
    } else if amount == 0 {
        Err(Error::InvalidAmount)
    } else if rec.staked_amount < amount {
        Err(Error::InsufficientStake)
    } else {
        match update_outcome(rec, now) {
            Err(e) => Err(e),
            Ok(acc) => Ok(
                StakeAccount {
                    owner: acc.owner,
                    staked_amount: (acc.staked_amount - amount) as u64,
                    total_points: acc.total_points,
                    last_updated_time: acc.last_updated_time,
                    bump: acc.bump,
                },
            ),
        }
    }
}

/// The record after a withdrawal request: updated on success, untouched on
/// error.
pub open spec fn unstake_state(
    rec: StakeAccount,
    requester: Seq<u8>,
    amount: u64,
    now: u64,
) -> StakeAccount {
    match unstake_outcome(rec, requester, amount, now) {
        Ok(next) => next,
        Err(_) => rec,
    }
}

/// The status a withdrawal request reports.
pub open spec fn unstake_result(
    rec: StakeAccount,
    requester: Seq<u8>,
    amount: u64,
    now: u64,
) -> Result<(), Error> {
    match unstake_outcome(rec, requester, amount, now) {
        Ok(_) => Ok(()),
        Err(e) => Err(e),
    }
}

/// Deposit `amount` smallest-units into `record` on behalf of `requester` at
/// time `now`: accrue points up to `now` against the pre-deposit balance,
/// then add the amount. On any error the record is untouched. Moving the
/// value itself from the requester into the ledger's vault is the caller's
/// step, to be committed together with this one.
pub fn stake_fn(record: &mut StakeAccount, requester: &[u8; 32], amount: u64, now: u64) -> (r:
    Result<(), Error>)
    ensures
        r == stake_result(*old(record), requester@, amount, now),
        *final(record) == stake_state(*old(record), requester@, amount, now),
        r.is_err() ==> *final(record) == *old(record),
        final(record).total_points >= old(record).total_points,
        final(record).last_updated_time >= old(record).last_updated_time,
        final(record).owner == old(record).owner,
        final(record).bump == old(record).bump,
{
    if !owner_matches(&record.owner, requester) {
        return Err(Error::Unauthorized);
    }
    if amount == 0 {
        return Err(Error::InvalidAmount);
    }
    let mut staged = *record;
    match update_points(&mut staged, now) {
        Ok(()) => {},
        Err(e) => {
            return Err(e);
        },
    }
    match staged.staked_amount.checked_add(amount) {
        None => Err(Error::Overflow),
        Some(new_amount) => {
            staged.staked_amount = new_amount;
            *record = staged;
            Ok(())
        },
    }
}

/// Withdraw `amount` smallest-units from `record` on behalf of `requester` at
/// time `now`: check the balance covers the amount, accrue points up to `now`
/// against the pre-withdrawal balance, then subtract the amount. On any error
/// the record is untouched. Returning the value from the ledger's vault to
/// the requester is the caller's step, authorized with the record's own
/// derivation byte rather than the requester's signature.
pub fn unstake_fn(record: &mut StakeAccount, requester: &[u8; 32], amount: u64, now: u64) -> (r:
    Result<(), Error>)
    ensures
        r == unstake_result(*old(record), requester@, amount, now),
        *final(record) == unstake_state(*old(record), requester@, amount, now),
        r.is_err() ==> *final(record) == *old(record),
        final(record).total_points >= old(record).total_points,
        final(record).last_updated_time >= old(record).last_updated_time,
        final(record).owner == old(record).owner,
        final(record).bump == old(record).bump,
{
    if !owner_matches(&record.owner, requester) {
        return Err(Error::Unauthorized);
    }
    if amount == 0 {
        return Err(Error::InvalidAmount);
    }
    if record.staked_amount < amount {
        return Err(Error::InsufficientStake);
    }
    let mut staged = *record;
    match update_points(&mut staged, now) {
        Ok(()) => {},
        Err(e) => {
            return Err(e);
        },
    }
    match staged.staked_amount.checked_sub(amount) {
        None => Err(Error::Underflow),
        Some(new_amount) => {
            staged.staked_amount = new_amount;
            *record = staged;
            Ok(())
        },
    }
}

/// Hook for redeeming accumulated points. Redemption is outside this ledger's
/// scope: the request is accepted and the record is left untouched.
pub fn claim_points_fn(_record: &StakeAccount) -> (r: Result<(), Error>)
    ensures
        r == Ok::<(), Error>(()),
{
    Ok(())
}

/// Hook for reporting accumulated points. Reporting is outside this ledger's
/// scope: the request is accepted and the record is left untouched.
pub fn get_points_fn(_record: &StakeAccount) -> (r: Result<(), Error>)
    ensures
        r == Ok::<(), Error>(()),
{
    Ok(())
}

/// A valid deposit adds exactly the amount to the balance, and the points
/// total grows by exactly the accrual formula applied to the pre-deposit
/// balance over the elapsed interval.
pub proof fn lemma_stake_effect(rec: StakeAccount, requester: Seq<u8>, amount: u64, now: u64)
    requires
        stake_outcome(rec, requester, amount, now) is Ok,
    ensures
        stake_state(rec, requester, amount, now).staked_amount == rec.staked_amount + amount,
        stake_state(rec, requester, amount, now).total_points == crate::accrual::accrued(
            rec,
            now,
        ).total_points,
        stake_state(rec, requester, amount, now).last_updated_time == now,
{
}

/// A covered withdrawal subtracts exactly the amount from the balance; one
/// that asks for more than the balance changes nothing and reports
/// `InsufficientStake`.
pub proof fn lemma_unstake_effect(rec: StakeAccount, requester: Seq<u8>, amount: u64, now: u64)
    ensures
        unstake_outcome(rec, requester, amount, now) is Ok ==> unstake_state(
            rec,
            requester,
            amount,
            now,
        ).staked_amount == rec.staked_amount - amount,
        requester == rec.owner@ && amount > 0 && rec.staked_amount < amount ==> unstake_result(
            rec,
            requester,
            amount,
            now,
        ) == Err::<(), Error>(Error::InsufficientStake) && unstake_state(
            rec,
            requester,
            amount,
            now,
        ) == rec,
{
}

/// The withdrawal's checked subtraction is purely defensive: the balance was
/// checked before anything moved and the accrual does not touch it, so no
/// withdrawal ever reports `Underflow`.
pub proof fn lemma_withdrawal_never_underflows(
    rec: StakeAccount,
    requester: Seq<u8>,
    amount: u64,
    now: u64,
)
    ensures
        unstake_result(rec, requester, amount, now) != Err::<(), Error>(Error::Underflow),
{
}

/// A request from anyone but the record's owner reports `Unauthorized` and
/// mutates nothing, for deposits and withdrawals alike.
pub proof fn lemma_unauthorized_never_mutates(
    rec: StakeAccount,
    requester: Seq<u8>,
    amount: u64,
    now: u64,
)
    requires
        requester != rec.owner@,
    ensures
        stake_result(rec, requester, amount, now) == Err::<(), Error>(Error::Unauthorized),
        stake_state(rec, requester, amount, now) == rec,
        unstake_result(rec, requester, amount, now) == Err::<(), Error>(Error::Unauthorized),
        unstake_state(rec, requester, amount, now) == rec,
{
}

/// Across any operation, the points total and the update time never decrease,
/// whether the operation succeeds or fails.
pub proof fn lemma_operations_monotonic(rec: StakeAccount, requester: Seq<u8>, amount: u64, now: u64)
    ensures
        stake_state(rec, requester, amount, now).total_points >= rec.total_points,
        stake_state(rec, requester, amount, now).last_updated_time >= rec.last_updated_time,
        unstake_state(rec, requester, amount, now).total_points >= rec.total_points,
        unstake_state(rec, requester, amount, now).last_updated_time >= rec.last_updated_time,
{
    crate::accrual::lemma_update_monotonic(rec, now);
}

} // verus!
