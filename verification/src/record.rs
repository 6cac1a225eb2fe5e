use vstd::prelude::*;

verus! {

/// The per-owner ledger record.
///
/// `owner` and `bump` are fixed at creation: `owner` identifies the one
/// principal allowed to move the balance, and `bump` is the opaque byte with
/// which the ledger re-derives the record's custody address when it
/// authenticates as itself to return funds. `staked_amount` is the custodied
/// balance in smallest indivisible units; `total_points` accumulates earned
/// points and never decreases; `last_updated_time` is the timestamp (seconds)
/// of the most recent points accrual and never decreases.
#[derive(Clone, Copy, Debug, PartialEq, Eq)]
pub struct StakeAccount {
    pub owner: [u8; 32],
    pub staked_amount: u64,
    pub total_points: u64,
    pub last_updated_time: u64,
    pub bump: u8,
}

/// A fresh record for `owner`: zero balance, zero points, stamped with the
/// creation time. Creating the record at most once per owner, and placing it
/// where the owner's requests find it, is the hosting environment's concern.
pub fn create_pda_account(owner: [u8; 32], now: u64, bump: u8) -> (r: StakeAccount)
    ensures
        r.owner == owner,
        r.staked_amount == 0,
        r.total_points == 0,
        r.last_updated_time == now,
        r.bump == bump,
{
    StakeAccount { owner, staked_amount: 0, total_points: 0, last_updated_time: now, bump }
}

/// Whether two principal identities are the same, byte for byte.
pub fn owner_matches(a: &[u8; 32], b: &[u8; 32]) -> (r: bool)
    ensures
        r == (a@ == b@),
{
    let mut i: usize = 0;
    while i < 32
        invariant
            i <= 32,
            forall|j: int| 0 <= j < i ==> a@[j] == b@[j],
        decreases 32 - i,
    {
        if a[i] != b[i] {
            return false;
        }
        i += 1;
    }
    proof {
        assert(a@ =~= b@);
    }
    true
}

} // verus!
