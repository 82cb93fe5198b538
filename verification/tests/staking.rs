use greed_staking::account::AccountId;
use greed_staking::errors::StakingError;
use greed_staking::ops::{initialize, stake, unstake, Initialize, StakeTokens, Unstake};
use greed_staking::pool::StakePool;
use greed_staking::position::UserStake;

fn id(n: u64) -> AccountId {
    AccountId::new(n, 0, 0, 0)
}

fn empty_position() -> UserStake {
    UserStake { owner: id(0), amount: 0, staked_at: 0, bump: 0 }
}

fn new_pool() -> StakePool {
    initialize(&Initialize {
        authority: id(9),
        token_mint: id(2),
        vault: id(3),
        bump: 250,
        vault_bump: 251,
    })
}

#[test]
fn initialize_records_accounts_and_zero_total() {
    let pool = new_pool();
    assert_eq!(pool.authority, id(9));
    assert_eq!(pool.token_mint, id(2));
    assert_eq!(pool.vault, id(3));
    assert_eq!(pool.total_staked, 0);
    assert_eq!(pool.bump, 250);
    assert_eq!(pool.vault_bump, 251);
}

#[test]
fn two_depositors_full_cycle() {
    let pool = new_pool();
    let x = id(11);
    let y = id(12);

    let mut sx = StakeTokens {
        user: x,
        stake_pool: pool,
        user_stake: empty_position(),
        user_stake_bump: 254,
    };
    assert_eq!(stake(&mut sx, 500, 1000), Ok(()));
    assert_eq!(sx.user_stake.amount, 500);
    assert_eq!(sx.user_stake.owner, x);
    assert_eq!(sx.user_stake.staked_at, 1000);
    assert_eq!(sx.stake_pool.total_staked, 500);

    let mut sy = StakeTokens {
        user: y,
        stake_pool: sx.stake_pool,
        user_stake: empty_position(),
        user_stake_bump: 253,
    };
    assert_eq!(stake(&mut sy, 300, 1001), Ok(()));
    assert_eq!(sy.user_stake.amount, 300);
    assert_eq!(sy.stake_pool.total_staked, 800);

    let mut sx2 = StakeTokens {
        user: x,
        stake_pool: sy.stake_pool,
        user_stake: sx.user_stake,
        user_stake_bump: 254,
    };
    assert_eq!(stake(&mut sx2, 200, 1002), Ok(()));
    assert_eq!(sx2.user_stake.amount, 700);
    assert_eq!(sx2.user_stake.staked_at, 1002);
    assert_eq!(sx2.stake_pool.total_staked, 1000);

    let mut ux = Unstake { user: x, stake_pool: sx2.stake_pool, user_stake: sx2.user_stake };
    assert_eq!(unstake(&mut ux), Ok(700));
    assert_eq!(ux.user_stake.amount, 0);
    assert_eq!(ux.user_stake.staked_at, 0);
    assert_eq!(ux.stake_pool.total_staked, 300);

    let mut uy = Unstake { user: y, stake_pool: ux.stake_pool, user_stake: sy.user_stake };
    assert_eq!(unstake(&mut uy), Ok(300));
    assert_eq!(uy.stake_pool.total_staked, 0);
}

#[test]
fn unstake_of_zero_balance_fails_and_changes_nothing() {
    let pool = new_pool();
    let mut ctx = Unstake { user: id(11), stake_pool: pool, user_stake: empty_position() };
    assert_eq!(unstake(&mut ctx), Err(StakingError::NoStake));
    assert_eq!(ctx.stake_pool, pool);
    assert_eq!(ctx.user_stake, empty_position());

    // A second attempt answers the same way and still changes nothing.
    assert_eq!(unstake(&mut ctx), Err(StakingError::NoStake));
    assert_eq!(ctx.stake_pool, pool);
    assert_eq!(ctx.user_stake, empty_position());
}

#[test]
fn stake_of_zero_amount_fails() {
    let pool = new_pool();
    let mut ctx = StakeTokens {
        user: id(11),
        stake_pool: pool,
        user_stake: empty_position(),
        user_stake_bump: 254,
    };
    assert_eq!(stake(&mut ctx, 0, 1000), Err(StakingError::ZeroAmount));
    assert_eq!(ctx.stake_pool, pool);
    assert_eq!(ctx.user_stake, empty_position());
}

#[test]
fn zero_amount_is_refused_before_the_ownership_check() {
    let owner = id(11);
    let stranger = id(12);
    let mut pool = new_pool();
    pool.total_staked = 10;
    let position = UserStake { owner, amount: 10, staked_at: 77, bump: 5 };
    let mut ctx = StakeTokens {
        user: stranger,
        stake_pool: pool,
        user_stake: position,
        user_stake_bump: 5,
    };
    assert_eq!(stake(&mut ctx, 0, 1000), Err(StakingError::ZeroAmount));
    assert_eq!(ctx.stake_pool, pool);
    assert_eq!(ctx.user_stake, position);
}

#[test]
fn stake_past_position_range_fails_and_changes_nothing() {
    let user = id(11);
    let mut pool = new_pool();
    pool.total_staked = u64::MAX - 1;
    let position = UserStake { owner: user, amount: u64::MAX - 1, staked_at: 77, bump: 5 };
    let mut ctx = StakeTokens {
        user,
        stake_pool: pool,
        user_stake: position,
        user_stake_bump: 5,
    };
    assert_eq!(stake(&mut ctx, 2, 1000), Err(StakingError::Overflow));
    assert_eq!(ctx.stake_pool, pool);
    assert_eq!(ctx.user_stake, position);

    // The boundary itself is still accepted: exactly filling the range is fine.
    assert_eq!(stake(&mut ctx, 1, 1000), Ok(()));
    assert_eq!(ctx.user_stake.amount, u64::MAX);
    assert_eq!(ctx.stake_pool.total_staked, u64::MAX);
}

#[test]
fn stake_past_pool_range_fails_and_changes_nothing() {
    let user = id(11);
    let mut pool = new_pool();
    // Other depositors already fill most of the pool.
    pool.total_staked = u64::MAX - 10;
    let position = UserStake { owner: user, amount: 5, staked_at: 77, bump: 5 };
    let mut ctx = StakeTokens {
        user,
        stake_pool: pool,
        user_stake: position,
        user_stake_bump: 5,
    };
    assert_eq!(stake(&mut ctx, 11, 1000), Err(StakingError::Overflow));
    assert_eq!(ctx.stake_pool, pool);
    assert_eq!(ctx.user_stake, position);
}

#[test]
fn every_stake_resets_the_warmup_clock() {
    let user = id(11);
    let mut ctx = StakeTokens {
        user,
        stake_pool: new_pool(),
        user_stake: empty_position(),
        user_stake_bump: 254,
    };
    assert_eq!(stake(&mut ctx, 100, 500), Ok(()));
    assert_eq!(ctx.user_stake.staked_at, 500);

    assert_eq!(stake(&mut ctx, 1, 900), Ok(()));
    assert_eq!(ctx.user_stake.staked_at, 900);
    assert_eq!(ctx.user_stake.amount, 101);
}

#[test]
fn stake_then_unstake_returns_exactly_the_deposit() {
    let user = id(11);
    let pool = new_pool();
    let mut sctx = StakeTokens {
        user,
        stake_pool: pool,
        user_stake: empty_position(),
        user_stake_bump: 254,
    };
    assert_eq!(stake(&mut sctx, 100, 1000), Ok(()));

    let mut uctx = Unstake { user, stake_pool: sctx.stake_pool, user_stake: sctx.user_stake };
    assert_eq!(unstake(&mut uctx), Ok(100));
    assert_eq!(uctx.user_stake.amount, 0);
    assert_eq!(uctx.user_stake.staked_at, 0);
    assert_eq!(uctx.stake_pool.total_staked, pool.total_staked);
}

#[test]
fn unstake_by_stranger_fails_before_any_mutation() {
    let owner = id(11);
    let stranger = id(12);
    let mut pool = new_pool();
    pool.total_staked = 10;
    let position = UserStake { owner, amount: 10, staked_at: 77, bump: 5 };
    let mut ctx = Unstake { user: stranger, stake_pool: pool, user_stake: position };
    assert_eq!(unstake(&mut ctx), Err(StakingError::Unauthorized));
    assert_eq!(ctx.stake_pool, pool);
    assert_eq!(ctx.user_stake, position);
}

#[test]
fn stake_onto_strangers_active_position_fails() {
    let owner = id(11);
    let stranger = id(12);
    let mut pool = new_pool();
    pool.total_staked = 10;
    let position = UserStake { owner, amount: 10, staked_at: 77, bump: 5 };
    let mut ctx = StakeTokens {
        user: stranger,
        stake_pool: pool,
        user_stake: position,
        user_stake_bump: 5,
    };
    assert_eq!(stake(&mut ctx, 50, 1000), Err(StakingError::Unauthorized));
    assert_eq!(ctx.stake_pool, pool);
    assert_eq!(ctx.user_stake, position);
}

#[test]
fn unstake_of_uncovered_balance_fails_with_underflow() {
    // A pool total below the position's balance can only arise if the
    // ledger invariant was broken elsewhere; the debit refuses defensively.
    let user = id(11);
    let mut pool = new_pool();
    pool.total_staked = 5;
    let position = UserStake { owner: user, amount: 10, staked_at: 77, bump: 5 };
    let mut ctx = Unstake { user, stake_pool: pool, user_stake: position };
    assert_eq!(unstake(&mut ctx), Err(StakingError::Underflow));
    assert_eq!(ctx.stake_pool, pool);
    assert_eq!(ctx.user_stake, position);
}

#[test]
fn credit_and_debit_respect_the_boundaries() {
    let mut pool = new_pool();
    assert_eq!(pool.credit(u64::MAX), Ok(()));
    assert_eq!(pool.total_staked, u64::MAX);
    assert_eq!(pool.credit(1), Err(StakingError::Overflow));
    assert_eq!(pool.total_staked, u64::MAX);

    assert_eq!(pool.debit(u64::MAX), Ok(()));
    assert_eq!(pool.total_staked, 0);
    assert_eq!(pool.debit(1), Err(StakingError::Underflow));
    assert_eq!(pool.total_staked, 0);
}
