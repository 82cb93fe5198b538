use vstd::prelude::*;
use crate::account::AccountId;
use crate::errors::StakingError;

verus! {

/// Per-asset aggregate ledger: one pool custodies all deposits of one
/// fungible asset in its vault and keeps the sum of every depositor's
/// balance in `total_staked`.
#[derive(Clone, Copy, PartialEq, Eq, Structural, Debug)]
pub struct StakePool {
    /// Identity permitted to initialize the pool (informational; not
    /// re-checked on later operations).
    pub authority: AccountId,
    /// The fungible asset this pool custodies. Immutable after creation.
    pub token_mint: AccountId,
    /// The custody account holding all deposited funds for this pool.
    pub vault: AccountId,
    /// Aggregate of all depositor balances under this pool.
    pub total_staked: u64,
    /// Derivation metadata of the pool's own address.
    pub bump: u8,
    /// Derivation metadata of the vault's address.
    pub vault_bump: u8,
}

/// The pool as it stands after `amount` was credited to its aggregate.
/// Meaningful only when the addition stays within the 64-bit range.
pub open spec fn pool_after_credit(pool: StakePool, amount: u64) -> StakePool {
    StakePool {
        total_staked: (pool.total_staked + amount) as u64,
        ..pool
    }
}

/// The pool as it stands after `amount` was debited from its aggregate.
/// Meaningful only when `amount` does not exceed the aggregate.
pub open spec fn pool_after_debit(pool: StakePool, amount: u64) -> StakePool {
    StakePool {
        total_staked: (pool.total_staked - amount) as u64,
        ..pool
    }
}

impl StakePool {
    /// Adds `amount` to the aggregate staked balance. Refused with
    /// `Overflow` when the addition would leave the 64-bit unsigned range;
    /// a refused credit changes nothing.
    pub fn credit(&mut self, amount: u64) -> (r: Result<(), StakingError>)
        ensures
            r is Ok <==> old(self).total_staked + amount <= u64::MAX,
            r is Ok ==> *final(self) == pool_after_credit(*old(self), amount),
            r is Err ==> *final(self) == *old(self)
                && r == Err::<(), StakingError>(StakingError::Overflow),
    {
        match self.total_staked.checked_add(amount) {
            Some(total) => {
                self.total_staked = total;
                Ok(())
            }
            None => Err(StakingError::Overflow),
        }
    }

    /// Removes `amount` from the aggregate staked balance. Refused with
    /// `Underflow` when `amount` exceeds the aggregate; a refused debit
    /// changes nothing.
    pub fn debit(&mut self, amount: u64) -> (r: Result<(), StakingError>)
        ensures
            r is Ok <==> amount <= old(self).total_staked,
            r is Ok ==> *final(self) == pool_after_debit(*old(self), amount),
            r is Err ==> *final(self) == *old(self)
                && r == Err::<(), StakingError>(StakingError::Underflow),
    {
        match self.total_staked.checked_sub(amount) {
            Some(total) => {
                self.total_staked = total;
                Ok(())
            }
            None => Err(StakingError::Underflow),
        }
    }
}

} // verus!
