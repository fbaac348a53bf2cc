use vstd::prelude::*;
use crate::records::StakePosition;

verus! {

/// Whether the position's current staked batch may be withdrawn at `now`:
/// the lock expires at `stake_time + lock_duration`, and the boundary is
/// inclusive.
pub open spec fn spec_unlock_eligible(pos: StakePosition, now: u64) -> bool {
    now >= pos.stake_time + pos.lock_duration
}

/// Answers whether a withdrawal is permitted at `now`. The expiry instant
/// itself already qualifies; there is no grace period and no cancellation
/// of a lock once set.
pub fn is_unlock_eligible(pos: &StakePosition, now: u64) -> (eligible: bool)
    ensures
        eligible == spec_unlock_eligible(*pos, now),
{
    (now as u128) >= (pos.stake_time as u128) + (pos.lock_duration as u128)
}

/// How long the current batch stays locked from `now` on: zero once the
/// expiry has been reached.
pub open spec fn spec_remaining_lock(pos: StakePosition, now: u64) -> int {
    if spec_unlock_eligible(pos, now) {
        0
    } else {
        pos.stake_time + pos.lock_duration - now
    }
}

/// The seconds still to wait before the current batch unlocks. Asks that
/// the position was staked at or before `now`, which bounds the wait by
/// the lock duration itself.
pub fn remaining_lock_time(pos: &StakePosition, now: u64) -> (remaining: u64)
    requires
        pos.stake_time <= now,
    ensures
        remaining == spec_remaining_lock(*pos, now),
{
    let expiry: u128 = (pos.stake_time as u128) + (pos.lock_duration as u128);
    if (now as u128) >= expiry {
        0
    } else {
        (expiry - (now as u128)) as u64
    }
}

/// At the expiry instant exactly, withdrawal is permitted; one second
/// earlier it is not.
pub proof fn lemma_unlock_boundary_is_inclusive(pos: StakePosition, at_expiry: u64, just_before: u64)
    requires
        at_expiry == pos.stake_time + pos.lock_duration,
        just_before + 1 == at_expiry,
    ensures
        spec_unlock_eligible(pos, at_expiry),
        !spec_unlock_eligible(pos, just_before),
{
}

} // verus!
