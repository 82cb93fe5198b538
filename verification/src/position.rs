use vstd::prelude::*;
use crate::account::AccountId;

verus! {

/// Per-depositor record scoped to one pool: the depositor's staked balance
/// and the time of their most recent deposit. A position is created on the
/// first deposit and reused forever after; a full withdrawal zeroes it
/// rather than removing it.
#[derive(Clone, Copy, PartialEq, Eq, Structural, Debug)]
pub struct UserStake {
    /// Identity of the depositor.
    pub owner: AccountId,
    /// Current staked balance; zero means no active stake.
    pub amount: u64,
    /// Time of the most recent deposit; zeroed on full withdrawal.
    pub staked_at: i64,
    /// Derivation metadata of the position's address.
    pub bump: u8,
}

/// The position as it stands after a successful deposit: a first deposit
/// claims the position for the caller; every deposit restarts the warm-up
/// clock and adds to the balance. Meaningful only when the addition stays
/// within the 64-bit range.
pub open spec fn position_after_stake(
    pos: UserStake,
    user: AccountId,
    amount: u64,
    now: i64,
    bump: u8,
) -> UserStake {
    UserStake {
        owner: if pos.amount == 0 { user } else { pos.owner },
        amount: (pos.amount + amount) as u64,
        staked_at: now,
        bump: bump,
    }
}

/// The position as it stands after a successful full withdrawal: balance
/// and warm-up clock zeroed, owner and derivation metadata kept, so the
/// record can serve a future deposit.
pub open spec fn position_after_unstake(pos: UserStake) -> UserStake {
    UserStake {
        owner: pos.owner,
        amount: 0u64,
        staked_at: 0i64,
        bump: pos.bump,
    }
}

} // verus!
