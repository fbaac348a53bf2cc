use vstd::prelude::*;
use crate::records::{StakePosition, PoolAggregate};
use crate::ops::{stake_outcome, unstake_outcome, claim_outcome};

verus! {

/// The combined principal of a collection of positions, as the external
/// auditor sums it.
pub open spec fn spec_total_principal(positions: Seq<StakePosition>) -> int
    decreases positions.len(),
{
    if positions.len() == 0 {
        0
    } else {
        positions[0].principal + spec_total_principal(positions.drop_first())
    }
}

/// A sum of principals is never negative.
pub proof fn lemma_total_principal_nonneg(positions: Seq<StakePosition>)
    ensures
        spec_total_principal(positions) >= 0,
    decreases positions.len(),
{
    if positions.len() > 0 {
        lemma_total_principal_nonneg(positions.drop_first());
    }
}

/// No single position holds more principal than all of them together.
pub proof fn lemma_total_principal_bounds(positions: Seq<StakePosition>, i: int)
    requires
        0 <= i < positions.len(),
    ensures
        positions[i].principal <= spec_total_principal(positions),
    decreases positions.len(),
{
    if i == 0 {
        lemma_total_principal_nonneg(positions.drop_first());
    } else {
        lemma_total_principal_bounds(positions.drop_first(), i - 1);
        assert(positions.drop_first()[i - 1] == positions[i]);
    }
}

/// Replacing one position changes the sum by exactly the change of that
/// position's principal.
pub proof fn lemma_total_principal_update(positions: Seq<StakePosition>, i: int, pos: StakePosition)
    requires
        0 <= i < positions.len(),
    ensures
        spec_total_principal(positions.update(i, pos))
            == spec_total_principal(positions) - positions[i].principal + pos.principal,
    decreases positions.len(),
{
    let updated = positions.update(i, pos);
    if i == 0 {
        assert(updated.drop_first() =~= positions.drop_first());
    } else {
        assert(updated.drop_first() =~= positions.drop_first().update(i - 1, pos));
        lemma_total_principal_update(positions.drop_first(), i - 1, pos);
    }
}

/// The auditor invariant survives a successful stake: when the pool total
/// equals the sum of all live positions' principal, it still does after
/// position `i` is staked into, because the total and that principal grow
/// by the same amount.
pub proof fn lemma_stake_preserves_pool_audit(
    pool: PoolAggregate,
    positions: Seq<StakePosition>,
    i: int,
    amount: u64,
    lock_duration: u64,
    now: u64,
)
    requires
        0 <= i < positions.len(),
        pool.total_staked == spec_total_principal(positions),
    ensures
        stake_outcome(pool, positions[i], amount, lock_duration, now)
            matches Ok((new_pool, new_pos))
            ==> new_pool.total_staked == spec_total_principal(positions.update(i, new_pos)),
{
    match stake_outcome(pool, positions[i], amount, lock_duration, now) {
        Ok((new_pool, new_pos)) => {
            lemma_total_principal_update(positions, i, new_pos);
        },
        Err(_) => {},
    }
}

/// The auditor invariant survives a successful unstake: the pool total
/// and the withdrawn position's principal shrink by the same amount.
pub proof fn lemma_unstake_preserves_pool_audit(
    pool: PoolAggregate,
    positions: Seq<StakePosition>,
    i: int,
    amount: u64,
    now: u64,
)
    requires
        0 <= i < positions.len(),
        pool.total_staked == spec_total_principal(positions),
    ensures
        unstake_outcome(pool, positions[i], amount, now) matches Ok((new_pool, new_pos))
            ==> new_pool.total_staked == spec_total_principal(positions.update(i, new_pos)),
{
    match unstake_outcome(pool, positions[i], amount, now) {
        Ok((new_pool, new_pos)) => {
            lemma_total_principal_bounds(positions, i);
            lemma_total_principal_update(positions, i, new_pos);
        },
        Err(_) => {},
    }
}

/// The auditor invariant survives a successful claim: a claim mints new
/// tokens and moves no principal at all.
pub proof fn lemma_claim_preserves_pool_audit(
    pool: PoolAggregate,
    positions: Seq<StakePosition>,
    i: int,
    now: u64,
)
    requires
        0 <= i < positions.len(),
        pool.total_staked == spec_total_principal(positions),
    ensures
        claim_outcome(pool, positions[i], now) matches Ok((new_pool, new_pos, reward))
            ==> new_pool.total_staked == spec_total_principal(positions.update(i, new_pos)),
{
    match claim_outcome(pool, positions[i], now) {
        Ok((new_pool, new_pos, _)) => {
            lemma_total_principal_update(positions, i, new_pos);
        },
        Err(_) => {},
    }
}

} // verus!
