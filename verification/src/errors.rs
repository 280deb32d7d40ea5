//! Failure taxonomy of the game operations. Every failure aborts the whole
//! operation with no partial mutation.

use vstd::prelude::*;

verus! {

/// All the ways a game operation can fail.
#[derive(Clone, Copy, Debug, PartialEq, Eq, Structural)]
pub enum LobsError {
    /// A creature name exceeds the maximum length of 32 bytes.
    NameTooLong,
    /// Feeding again before the cooldown has elapsed.
    FeedCooldown,
    /// The creature is no longer alive.
    LobDead,
    /// The creature is already at the maximum evolution stage.
    AlreadyMaxEvolution,
    /// Not enough XP to evolve out of the current stage.
    InsufficientXp,
    /// A creature cannot battle another creature of the same owner.
    CannotBattleSelf,
    /// A checked arithmetic step overflowed.
    Overflow,
    /// A species value outside the valid range.
    InvalidSpecies,
    /// A wager below the minimum.
    WagerTooLow,
    /// A wager above the maximum.
    WagerTooHigh,
    /// The challenge was already resolved.
    ChallengeInactive,
    /// The accepting creature does not match the challenge's named defender.
    WrongDefender,
}

} // verus!
