use vstd::prelude::*;
use crate::account::AccountId;
use crate::errors::StakingError;
use crate::ops::stake_accepted;
use crate::ops::stake_outcome;
use crate::ops::unstake_accepted;
use crate::ops::unstake_outcome;
use crate::pool::StakePool;
use crate::pool::pool_after_credit;
use crate::pool::pool_after_debit;
use crate::position::UserStake;
use crate::position::position_after_stake;
use crate::position::position_after_unstake;

verus! {

/// The sum of the staked balances of a sequence of positions, as an
/// unbounded integer.
pub open spec fn sum_amounts(ps: Seq<UserStake>) -> int
    decreases ps.len(),
{
    if ps.len() == 0 {
        0
    } else {
        ps[0].amount + sum_amounts(ps.drop_first())
    }
}

/// The sum of staked balances is never negative.
pub proof fn lemma_sum_nonneg(ps: Seq<UserStake>)
    ensures
        sum_amounts(ps) >= 0,
    decreases ps.len(),
{
    if ps.len() > 0 {
        lemma_sum_nonneg(ps.drop_first());
    }
}

/// Replacing one position changes the sum by exactly the difference of the
/// two balances.
pub proof fn lemma_sum_update(ps: Seq<UserStake>, i: int, v: UserStake)
    requires
        0 <= i < ps.len(),
    ensures
        sum_amounts(ps.update(i, v)) == sum_amounts(ps) - ps[i].amount + v.amount,
    decreases ps.len(),
{
    if i == 0 {
        assert(ps.update(0, v).drop_first() =~= ps.drop_first());
    } else {
        assert(ps.update(i, v).drop_first() =~= ps.drop_first().update(i - 1, v));
        lemma_sum_update(ps.drop_first(), i - 1, v);
    }
}

/// No single position holds more than the sum over all positions.
pub proof fn lemma_element_le_sum(ps: Seq<UserStake>, i: int)
    requires
        0 <= i < ps.len(),
    ensures
        ps[i].amount <= sum_amounts(ps),
    decreases ps.len(),
{
    if i == 0 {
        lemma_sum_nonneg(ps.drop_first());
    } else {
        lemma_element_le_sum(ps.drop_first(), i - 1);
    }
}

/// Pool-ledger invariant, base case: a freshly initialized pool's aggregate
/// of zero is the sum over its (as yet nonexistent) positions.
pub proof fn lemma_initial_invariant(pool: StakePool)
    requires
        pool.total_staked == 0,
    ensures
        pool.total_staked == sum_amounts(Seq::<UserStake>::empty()),
{
}

/// Pool-ledger invariant, deposit case: when the pool aggregate equals the
/// sum of every position's balance and a deposit on position `i` passes
/// every check, the credited aggregate again equals the sum over the
/// updated positions.
pub proof fn lemma_stake_preserves_total(
    ps: Seq<UserStake>,
    i: int,
    pool: StakePool,
    user: AccountId,
    amount: u64,
    now: i64,
    bump: u8,
)
    requires
        0 <= i < ps.len(),
        pool.total_staked == sum_amounts(ps),
        stake_accepted(pool, ps[i], user, amount),
    ensures
        pool_after_credit(pool, amount).total_staked == sum_amounts(
            ps.update(i, position_after_stake(ps[i], user, amount, now, bump)),
        ),
{
    lemma_sum_update(ps, i, position_after_stake(ps[i], user, amount, now, bump));
}

/// Pool-ledger invariant, withdrawal case: when the pool aggregate equals
/// the sum of every position's balance and a full withdrawal of position `i`
/// passes every check, the debited aggregate again equals the sum over the
/// updated positions.
pub proof fn lemma_unstake_preserves_total(
    ps: Seq<UserStake>,
    i: int,
    pool: StakePool,
    user: AccountId,
)
    requires
        0 <= i < ps.len(),
        pool.total_staked == sum_amounts(ps),
        unstake_accepted(pool, ps[i], user),
    ensures
        pool_after_debit(pool, ps[i].amount).total_staked == sum_amounts(
            ps.update(i, position_after_unstake(ps[i])),
        ),
{
    lemma_sum_update(ps, i, position_after_unstake(ps[i]));
}

/// Under the pool-ledger invariant the defensive underflow check cannot
/// fire: every single position's balance is covered by the pool aggregate.
pub proof fn lemma_underflow_unreachable(ps: Seq<UserStake>, i: int, pool: StakePool)
    requires
        0 <= i < ps.len(),
        pool.total_staked == sum_amounts(ps),
    ensures
        ps[i].amount <= pool.total_staked,
{
    lemma_element_le_sum(ps, i);
}

/// Zero-balance withdrawal is refused: an unstake of a position with no
/// active balance always answers `NoStake`, whoever asks and whatever the
/// pool holds.
pub proof fn lemma_zero_balance_unstake(pool: StakePool, pos: UserStake, user: AccountId)
    requires
        pos.amount == 0,
    ensures
        unstake_outcome(pool, pos, user) == Err::<u64, StakingError>(StakingError::NoStake),
{
}

/// Overflow boundary: a deposit that would push the position's balance or
/// the pool aggregate past the 64-bit range is refused with `Overflow`.
pub proof fn lemma_overflow_refused(
    pool: StakePool,
    pos: UserStake,
    user: AccountId,
    amount: u64,
)
    requires
        pos.amount == 0 || pos.owner == user,
        amount > 0,
        pos.amount + amount > u64::MAX || pool.total_staked + amount > u64::MAX,
    ensures
        stake_outcome(pool, pos, user, amount) == Err::<(), StakingError>(StakingError::Overflow),
{
}

/// Warm-up reset: every accepted deposit stamps the position with the time
/// of that deposit, whatever the prior balance and timestamp were.
pub proof fn lemma_warmup_reset(
    pos: UserStake,
    user: AccountId,
    amount: u64,
    now: i64,
    bump: u8,
)
    ensures
        position_after_stake(pos, user, amount, now, bump).staked_at == now,
{
}

/// Unauthorized caller: a deposit of a nonzero amount onto, or a withdrawal
/// of, a position with an active balance by an identity other than its owner
/// is refused. (A zero-amount deposit is refused as `ZeroAmount` before the
/// ownership check, whoever asks.)
pub proof fn lemma_unauthorized_refused(
    pool: StakePool,
    pos: UserStake,
    user: AccountId,
    amount: u64,
)
    requires
        pos.amount > 0,
        pos.owner != user,
        amount > 0,
    ensures
        stake_outcome(pool, pos, user, amount) == Err::<(), StakingError>(
            StakingError::Unauthorized,
        ),
        unstake_outcome(pool, pos, user) == Err::<u64, StakingError>(StakingError::Unauthorized),
{
}

/// Round trip: a deposit onto an empty position followed immediately by a
/// full withdrawal passes every check, returns exactly the deposited
/// amount, zeroes the position, and restores the pool to its prior state.
pub proof fn lemma_round_trip(
    pool: StakePool,
    pos: UserStake,
    user: AccountId,
    amount: u64,
    now: i64,
    bump: u8,
)
    requires
        pos.amount == 0,
        amount > 0,
        pool.total_staked + amount <= u64::MAX,
    ensures
        ({
            let pool_after = pool_after_credit(pool, amount);
            let pos_after = position_after_stake(pos, user, amount, now, bump);
            &&& stake_accepted(pool, pos, user, amount)
            &&& unstake_outcome(pool_after, pos_after, user) == Ok::<u64, StakingError>(amount)
            &&& pool_after_debit(pool_after, pos_after.amount) == pool
            &&& position_after_unstake(pos_after).amount == 0
            &&& position_after_unstake(pos_after).staked_at == 0
        }),
{
}

} // verus!
