use vstd::prelude::*;
use crate::account::AccountId;
use crate::errors::StakingError;
use crate::pool::StakePool;
use crate::pool::pool_after_credit;
use crate::pool::pool_after_debit;
use crate::position::UserStake;
use crate::position::position_after_stake;
use crate::position::position_after_unstake;

verus! {

/// Accounts taking part in pool initialization. The host has already
/// verified the authority's signature, derived the pool and vault addresses,
/// and provisioned an empty vault controlled only by pool-derived authority.
pub struct Initialize {
    /// Identity that signs and pays for pool creation.
    pub authority: AccountId,
    /// The fungible asset the new pool will custody.
    pub token_mint: AccountId,
    /// The derived custody vault bound to this pool.
    pub vault: AccountId,
    /// Derivation metadata of the pool's address.
    pub bump: u8,
    /// Derivation metadata of the vault's address.
    pub vault_bump: u8,
}

/// Accounts taking part in a deposit. The host has already verified the
/// caller's signature and resolved the pool and the caller's position.
pub struct StakeTokens {
    /// Identity of the caller making the deposit.
    pub user: AccountId,
    /// The pool ledger of the asset being staked.
    pub stake_pool: StakePool,
    /// The caller's position under that pool; freshly zeroed when this is
    /// the caller's first deposit.
    pub user_stake: UserStake,
    /// Derivation metadata of the position's address, recorded on deposit.
    pub user_stake_bump: u8,
}

/// Accounts taking part in a full withdrawal. The host has already verified
/// the caller's signature and resolved the pool and the caller's position.
pub struct Unstake {
    /// Identity of the caller withdrawing their stake.
    pub user: AccountId,
    /// The pool ledger of the asset being unstaked.
    pub stake_pool: StakePool,
    /// The caller's position under that pool.
    pub user_stake: UserStake,
}

/// A deposit of `amount` by `user` on position `pos` in `pool` passes every
/// check: the caller owns any active balance, the amount is nonzero, and
/// neither the position balance nor the pool aggregate would overflow.
pub open spec fn stake_accepted(
    pool: StakePool,
    pos: UserStake,
    user: AccountId,
    amount: u64,
) -> bool {
    &&& pos.amount == 0 || pos.owner == user
    &&& amount > 0
    &&& pos.amount + amount <= u64::MAX
    &&& pool.total_staked + amount <= u64::MAX
}

/// Exactly how a deposit request is answered: which error refuses it, in
/// which order the checks fall, and when it is accepted.
pub open spec fn stake_outcome(
    pool: StakePool,
    pos: UserStake,
    user: AccountId,
    amount: u64,
) -> Result<(), StakingError> {
    if amount == 0 {
        Err(StakingError::ZeroAmount)
    } else if !(pos.amount == 0 || pos.owner == user) {
        Err(StakingError::Unauthorized)
    } else if pos.amount + amount > u64::MAX || pool.total_staked + amount > u64::MAX {
        Err(StakingError::Overflow)
    } else {
        Ok(())
    }
}

/// A full withdrawal by `user` of position `pos` in `pool` passes every
/// check: the position holds an active balance, the caller owns it, and the
/// pool aggregate covers it.
pub open spec fn unstake_accepted(pool: StakePool, pos: UserStake, user: AccountId) -> bool {
    &&& pos.amount > 0
    &&& pos.owner == user
    &&& pos.amount <= pool.total_staked
}

/// Exactly how a withdrawal request is answered: which error refuses it, in
/// which order the checks fall, and the amount returned when it is accepted.
pub open spec fn unstake_outcome(
    pool: StakePool,
    pos: UserStake,
    user: AccountId,
) -> Result<u64, StakingError> {
    if pos.amount == 0 {
        Err(StakingError::NoStake)
    } else if pos.owner != user {
        Err(StakingError::Unauthorized)
    } else if pos.amount > pool.total_staked {
        Err(StakingError::Underflow)
    } else {
        Ok(pos.amount)
    }
}

/// Creates the pool record for an asset, with an aggregate of zero and the
/// authority, asset, vault and derivation metadata recorded. The host
/// guarantees that no pool yet exists for the asset; it fails the whole
/// request before this point when one does.
pub fn initialize(ctx: &Initialize) -> (pool: StakePool)
    ensures
        pool == (StakePool {
            authority: ctx.authority,
            token_mint: ctx.token_mint,
            vault: ctx.vault,
            total_staked: 0u64,
            bump: ctx.bump,
            vault_bump: ctx.vault_bump,
        }),
{
    StakePool {
        authority: ctx.authority,
        token_mint: ctx.token_mint,
        vault: ctx.vault,
        total_staked: 0,
        bump: ctx.bump,
        vault_bump: ctx.vault_bump,
    }
}

/// Deposits `amount` into the caller's position at time `now`: a first
/// deposit claims the position, every deposit restarts the warm-up clock,
/// and the position balance and pool aggregate grow by `amount` together.
/// A refused deposit leaves both ledgers exactly as they were; the host
/// aborts the matching vault transfer with it.
pub fn stake(ctx: &mut StakeTokens, amount: u64, now: i64) -> (r: Result<(), StakingError>)
    ensures
        r == stake_outcome(old(ctx).stake_pool, old(ctx).user_stake, old(ctx).user, amount),
        r is Ok <==> stake_accepted(old(ctx).stake_pool, old(ctx).user_stake, old(ctx).user, amount),
        r is Ok ==> *final(ctx) == (StakeTokens {
            user: old(ctx).user,
            stake_pool: pool_after_credit(old(ctx).stake_pool, amount),
            user_stake: position_after_stake(
                old(ctx).user_stake,
                old(ctx).user,
                amount,
                now,
                old(ctx).user_stake_bump,
            ),
            user_stake_bump: old(ctx).user_stake_bump,
        }),
        r is Err ==> *final(ctx) == *old(ctx),
{
    if amount == 0 {
        return Err(StakingError::ZeroAmount);
    }
    if ctx.user_stake.amount > 0 && !(ctx.user_stake.owner == ctx.user) {
        return Err(StakingError::Unauthorized);
    }
    let new_amount = match ctx.user_stake.amount.checked_add(amount) {
        Some(v) => v,
        None => {
            return Err(StakingError::Overflow);
        }
    };
    match ctx.stake_pool.credit(amount) {
        Ok(()) => {}
        Err(e) => {
            return Err(e);
        }
    }
    if ctx.user_stake.amount == 0 {
        ctx.user_stake.owner = ctx.user;
    }
    ctx.user_stake.staked_at = now;
    ctx.user_stake.amount = new_amount;
    ctx.user_stake.bump = ctx.user_stake_bump;
    Ok(())
}

/// Withdraws the caller's entire staked balance: the returned amount is the
/// position's whole balance, the pool aggregate shrinks by it, and the
/// position is zeroed for reuse. A refused withdrawal leaves both ledgers
/// exactly as they were; the host performs the matching vault transfer only
/// for the accepted amount.
pub fn unstake(ctx: &mut Unstake) -> (r: Result<u64, StakingError>)
    ensures
        r == unstake_outcome(old(ctx).stake_pool, old(ctx).user_stake, old(ctx).user),
        r is Ok <==> unstake_accepted(old(ctx).stake_pool, old(ctx).user_stake, old(ctx).user),
        r is Ok ==> *final(ctx) == (Unstake {
            user: old(ctx).user,
            stake_pool: pool_after_debit(old(ctx).stake_pool, old(ctx).user_stake.amount),
            user_stake: position_after_unstake(old(ctx).user_stake),
        }),
        r is Err ==> *final(ctx) == *old(ctx),
{
    let amount = ctx.user_stake.amount;
    if amount == 0 {
        return Err(StakingError::NoStake);
    }
    if !(ctx.user_stake.owner == ctx.user) {
        return Err(StakingError::Unauthorized);
    }
    match ctx.stake_pool.debit(amount) {
        Ok(()) => {}
        Err(e) => {
            return Err(e);
        }
    }
    ctx.user_stake.amount = 0;
    ctx.user_stake.staked_at = 0;
    Ok(amount)
}

} // verus!
