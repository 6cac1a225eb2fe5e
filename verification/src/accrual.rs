use vstd::prelude::*;

use crate::errors::Error;
use crate::record::StakeAccount;

verus! {

/// Points earned per whole asset unit held for one full day.
pub const POINTS_PER_UNIT_PER_DAY: u64 = 1_000_000;

/// Smallest indivisible units per whole asset unit.
pub const UNIT_SIZE: u64 = 1_000_000_000;

/// Seconds in one day.
pub const SECONDS_PER_DAY: u64 = 86_400;

/// The exact points earned by `staked_amount` smallest-units held for
/// `elapsed_seconds`, before narrowing to the record's integer width:
/// both multiplications first, then the two truncating divisions, by
/// `UNIT_SIZE` and then by `SECONDS_PER_DAY`. That order is the ledger's
/// fixed rounding policy.
pub open spec fn accrual_raw(staked_amount: u64, elapsed_seconds: u64) -> int {
    staked_amount * elapsed_seconds * POINTS_PER_UNIT_PER_DAY / (UNIT_SIZE as int)
        / (SECONDS_PER_DAY as int)
}

/// Whether the widened product in the accrual formula exceeds the
/// double-width integer in which it is computed.
pub open spec fn accrual_overflows(staked_amount: u64, elapsed_seconds: u64) -> bool {
    staked_amount * elapsed_seconds * POINTS_PER_UNIT_PER_DAY > u128::MAX
}

/// The earned points as stored: the accrual formula's value, keeping the low
/// 64 bits where the double-width quotient does not fit the record's width.
pub open spec fn earned_points(staked_amount: u64, elapsed_seconds: u64) -> u64 {
    (accrual_raw(staked_amount, elapsed_seconds) % 0x1_0000_0000_0000_0000) as u64
}

/// Whether bringing `rec` up to `now` adds any points: some time has passed
/// and some balance was held over it.
pub open spec fn accrues(rec: StakeAccount, now: u64) -> bool {
    now > rec.last_updated_time && rec.staked_amount > 0
}

/// Seconds elapsed since the record's last accrual.
pub open spec fn elapsed_of(rec: StakeAccount, now: u64) -> u64 {
    (now - rec.last_updated_time) as u64
}

/// `rec` brought up to `now`: points earned over the elapsed interval are
/// folded into the running total, and the update time advances. Balance,
/// owner and derivation byte are untouched.
pub open spec fn accrued(rec: StakeAccount, now: u64) -> StakeAccount {
    StakeAccount {
        owner: rec.owner,
        staked_amount: rec.staked_amount,
        total_points: if accrues(rec, now) {
            (rec.total_points + earned_points(rec.staked_amount, elapsed_of(rec, now))) as u64
        } else {
            rec.total_points
        },
        last_updated_time: now,
        bump: rec.bump,
    }
}

/// The full outcome of accruing `rec` up to `now`: the updated record, or the
/// exact error when `now` lies in the past or the points arithmetic would
/// exceed its integer width.
pub open spec fn update_outcome(rec: StakeAccount, now: u64) -> Result<StakeAccount, Error> {
    if now < rec.last_updated_time {
        Err(Error::InvalidTimestamp)
    } else if accrues(rec, now) && accrual_overflows(rec.staked_amount, elapsed_of(rec, now)) {
        Err(Error::Overflow)
    } else if accrues(rec, now) && rec.total_points + earned_points(
        rec.staked_amount,
        elapsed_of(rec, now),
    ) > u64::MAX {
        Err(Error::Overflow)
    } else {
        Ok(accrued(rec, now))
    }
}

/// The record after an accrual attempt: updated on success, untouched on error.
pub open spec fn update_state(rec: StakeAccount, now: u64) -> StakeAccount {
    match update_outcome(rec, now) {
        Ok(next) => next,
        Err(_) => rec,
    }
}

/// The status an accrual attempt reports.
pub open spec fn update_result(rec: StakeAccount, now: u64) -> Result<(), Error> {
    match update_outcome(rec, now) {
        Ok(_) => Ok(()),
        Err(e) => Err(e),
    }
}

/// Points earned by `staked_amount` held for `start_time` seconds, computed
/// in a double-width integer exactly as `accrual_raw` states, narrowed to the
/// record's width. Fails with `Overflow` only where the widened product
/// cannot be represented.
pub fn calc_earned_points(staked_amount: u64, start_time: u64) -> (r: Result<u64, Error>)
    ensures
        accrual_overflows(staked_amount, start_time) ==> r == Err::<u64, Error>(Error::Overflow),
        !accrual_overflows(staked_amount, start_time) ==> r == Ok::<u64, Error>(
            earned_points(staked_amount, start_time),
        ),
{
    proof {
        assert((staked_amount as int) * (start_time as int) <= u128::MAX) by (nonlinear_arith)
            requires
                staked_amount <= u64::MAX,
                start_time <= u64::MAX,
        ;
    }
    let base: u128 = match (staked_amount as u128).checked_mul(start_time as u128) {
        Some(v) => v,
        None => {
            return Err(Error::Overflow);
        },
    };
    let scaled: u128 = match base.checked_mul(POINTS_PER_UNIT_PER_DAY as u128) {
        Some(v) => v,
        None => {
            return Err(Error::Overflow);
        },
    };
    let per_unit: u128 = match scaled.checked_div(UNIT_SIZE as u128) {
        Some(v) => v,
        None => {
            return Err(Error::Overflow);
        },
    };
    let per_day: u128 = match per_unit.checked_div(SECONDS_PER_DAY as u128) {
        Some(v) => v,
        None => {
            return Err(Error::Overflow);
        },
    };
    Ok((per_day % 0x1_0000_0000_0000_0000u128) as u64)
}

/// Fold the points earned since the record's last update into `total_points`
/// and advance `last_updated_time` to `current_time`; on any error the record
/// is left exactly as it was. The exact outcome is `update_outcome`.
pub fn update_points(record: &mut StakeAccount, current_time: u64) -> (r: Result<(), Error>)
    ensures
        r == update_result(*old(record), current_time),
        *final(record) == update_state(*old(record), current_time),
        final(record).total_points >= old(record).total_points,
        final(record).last_updated_time >= old(record).last_updated_time,
        final(record).staked_amount == old(record).staked_amount,
        final(record).owner == old(record).owner,
        final(record).bump == old(record).bump,
{
    let start_time: u64 = match current_time.checked_sub(record.last_updated_time) {
        Some(t) => t,
        None => {
            return Err(Error::InvalidTimestamp);
        },
    };
    if start_time > 0 && record.staked_amount > 0 {
        let new_points: u64 = match calc_earned_points(record.staked_amount, start_time) {
            Ok(p) => p,
            Err(e) => {
                return Err(e);
            },
        };
        match record.total_points.checked_add(new_points) {
            Some(t) => {
                record.total_points = t;
            },
            None => {
                return Err(Error::Overflow);
            },
        }
    }
    record.last_updated_time = current_time;
    Ok(())
}

/// Accrual is idempotent at a fixed timestamp: once a record has been brought
/// up to `now`, accruing again at `now` succeeds and returns it unchanged, so
/// no interval's points are ever counted twice.
pub proof fn lemma_accrual_idempotent(rec: StakeAccount, now: u64)
    requires
        update_outcome(rec, now) is Ok,
    ensures
        update_outcome(update_state(rec, now), now) == Ok::<StakeAccount, Error>(
            update_state(rec, now),
        ),
        update_state(update_state(rec, now), now) == update_state(rec, now),
{
    let next = update_state(rec, now);
    assert(!accrues(next, now));
    assert(accrued(next, now) == next);
}

/// Accrual never lowers the points total and never moves the update time
/// backwards, whether it succeeds or fails.
pub proof fn lemma_update_monotonic(rec: StakeAccount, now: u64)
    ensures
        update_state(rec, now).total_points >= rec.total_points,
        update_state(rec, now).last_updated_time >= rec.last_updated_time,
{
}

} // verus!
