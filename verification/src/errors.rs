use vstd::prelude::*;

verus! {

/// Reason a staking operation was refused. Every failure aborts the whole
/// operation: the refusing function leaves both ledgers exactly as they were.
#[derive(Clone, Copy, PartialEq, Eq, Structural, Debug)]
pub enum StakingError {
    /// A deposit was requested with an amount of zero.
    ZeroAmount,
    /// A withdrawal was requested on a position with no active stake.
    NoStake,
    /// An addition to a balance would exceed the 64-bit unsigned range.
    Overflow,
    /// A subtraction from the pool total would go below zero.
    Underflow,
    /// The caller's identity does not match the position's owner.
    Unauthorized,
}

} // verus!
