//! Fixed game parameters: costs, cooldowns, stat tables, and wager limits.

use vstd::prelude::*;

verus! {

/// Feed cost in token smallest units; burned permanently, never enters the treasury.
pub const FEED_COST: u64 = 10_000_000_000;

/// Minimum time between feeds, in seconds.
pub const FEED_COOLDOWN: i64 = 3600;

/// Mood gained per feed.
pub const FEED_MOOD_GAIN: u8 = 20;

/// XP gained per feed.
pub const FEED_XP_GAIN: u32 = 10;

/// XP gained by a battle winner.
pub const BATTLE_WIN_XP: u32 = 50;

/// Mood gained by a battle winner.
pub const BATTLE_WIN_MOOD: u8 = 10;

/// Mood lost by a battle loser.
pub const BATTLE_LOSE_MOOD: u8 = 20;

/// Maximum mood value.
pub const MAX_MOOD: u8 = 100;

/// Maximum evolution stage.
pub const MAX_EVOLUTION: u8 = 3;

/// Number of species (6 families of 5 each).
pub const NUM_SPECIES: u8 = 30;

/// Base stat minimum.
pub const BASE_STAT_MIN: u8 = 5;

/// Base stat range (max = min + range - 1).
pub const BASE_STAT_RANGE: u8 = 11;

/// Maximum creature name length in bytes.
pub const MAX_NAME_LEN: usize = 32;

/// Minimum wager in token smallest units.
pub const MIN_WAGER: u64 = 100_000_000_000;

/// Maximum wager in token smallest units.
pub const MAX_WAGER: u64 = 10_000_000_000_000;

/// Wager fee in basis points (2.5%), burned permanently.
pub const WAGER_FEE_BPS: u64 = 250;

/// Number of rounds a battle runs before the stalemate tiebreak.
pub const MAX_ROUNDS: u64 = 100;

/// XP threshold to evolve out of the given stage.
pub open spec fn spec_evolution_threshold(stage: u8) -> u32 {
    if stage == 0 {
        100
    } else if stage == 1 {
        500
    } else {
        2000
    }
}

/// XP threshold table: stage 0 needs 100 XP, stage 1 needs 500, stage 2 needs 2000.
pub fn evolution_threshold(stage: u8) -> (r: u32)
    requires
        stage < MAX_EVOLUTION,
    ensures
        r == spec_evolution_threshold(stage),
{
    if stage == 0 {
        100
    } else if stage == 1 {
        500
    } else {
        2000
    }
}

/// Evolution stat multiplier in basis points (10000 = 1.0x) for the given stage.
pub open spec fn spec_stage_multiplier(stage: u8) -> u16 {
    if stage == 0 {
        10000
    } else if stage == 1 {
        12000
    } else if stage == 2 {
        15000
    } else {
        20000
    }
}

/// Evolution stat multiplier table, basis points per stage: 1.0x, 1.2x, 1.5x, 2.0x.
pub fn stage_multiplier(stage: u8) -> (r: u16)
    requires
        stage <= MAX_EVOLUTION,
    ensures
        r == spec_stage_multiplier(stage),
{
    if stage == 0 {
        10000
    } else if stage == 1 {
        12000
    } else if stage == 2 {
        15000
    } else {
        20000
    }
}

/// Per-species stat bonuses (strength, vitality, speed, luck), organized by
/// family: crustaceans (0-4), mollusks (5-9), jellyfish (10-14), fish (15-19),
/// coral/flora (20-24), abyssal (25-29). Species outside the table get no bonus.
pub open spec fn spec_species_bonus(species: u8) -> (i8, i8, i8, i8) {
    if species == 0 {
        (3i8, 0i8, 0i8, -1i8)
    } else if species == 1 {
        (0i8, 0i8, 3i8, 0i8)
    } else if species == 2 {
        (0i8, 3i8, 0i8, -1i8)
    } else if species == 3 {
        (2i8, -1i8, 2i8, 1i8)
    } else if species == 4 {
        (0i8, 4i8, -2i8, -2i8)
    } else if species == 5 {
        (2i8, 0i8, 2i8, 2i8)
    } else if species == 6 {
        (0i8, 3i8, 0i8, 1i8)
    } else if species == 7 {
        (0i8, 4i8, -2i8, -1i8)
    } else if species == 8 {
        (-1i8, 2i8, 1i8, 2i8)
    } else if species == 9 {
        (3i8, -2i8, 0i8, 1i8)
    } else if species == 10 {
        (-1i8, 0i8, 4i8, 3i8)
    } else if species == 11 {
        (3i8, 0i8, 0i8, 1i8)
    } else if species == 12 {
        (0i8, -1i8, 3i8, 4i8)
    } else if species == 13 {
        (2i8, 2i8, -1i8, 0i8)
    } else if species == 14 {
        (1i8, 1i8, 1i8, 2i8)
    } else if species == 15 {
        (4i8, 0i8, -2i8, 0i8)
    } else if species == 16 {
        (0i8, 0i8, 3i8, 2i8)
    } else if species == 17 {
        (3i8, 0i8, -1i8, 0i8)
    } else if species == 18 {
        (-1i8, 0i8, 3i8, 3i8)
    } else if species == 19 {
        (0i8, 3i8, 0i8, -1i8)
    } else if species == 20 {
        (1i8, 1i8, 1i8, 0i8)
    } else if species == 21 {
        (3i8, 0i8, -2i8, -1i8)
    } else if species == 22 {
        (2i8, 2i8, -1i8, 0i8)
    } else if species == 23 {
        (-2i8, 3i8, 0i8, 1i8)
    } else if species == 24 {
        (0i8, 2i8, 1i8, 2i8)
    } else if species == 25 {
        (4i8, 0i8, -1i8, 1i8)
    } else if species == 26 {
        (0i8, 2i8, 2i8, 1i8)
    } else if species == 27 {
        (0i8, 4i8, -1i8, -1i8)
    } else if species == 28 {
        (2i8, 0i8, 2i8, 2i8)
    } else if species == 29 {
        (3i8, 1i8, 0i8, 1i8)
    } else {
        (0i8, 0i8, 0i8, 0i8)
    }
}

/// Species bonus lookup table; see `spec_species_bonus` for the layout.
pub fn species_bonus(species: u8) -> (r: (i8, i8, i8, i8))
    ensures
        r == spec_species_bonus(species),
{
    if species == 0 {
        (3, 0, 0, -1)
    } else if species == 1 {
        (0, 0, 3, 0)
    } else if species == 2 {
        (0, 3, 0, -1)
    } else if species == 3 {
        (2, -1, 2, 1)
    } else if species == 4 {
        (0, 4, -2, -2)
    } else if species == 5 {
        (2, 0, 2, 2)
    } else if species == 6 {
        (0, 3, 0, 1)
    } else if species == 7 {
        (0, 4, -2, -1)
    } else if species == 8 {
        (-1, 2, 1, 2)
    } else if species == 9 {
        (3, -2, 0, 1)
    } else if species == 10 {
        (-1, 0, 4, 3)
    } else if species == 11 {
        (3, 0, 0, 1)
    } else if species == 12 {
        (0, -1, 3, 4)
    } else if species == 13 {
        (2, 2, -1, 0)
    } else if species == 14 {
        (1, 1, 1, 2)
    } else if species == 15 {
        (4, 0, -2, 0)
    } else if species == 16 {
        (0, 0, 3, 2)
    } else if species == 17 {
        (3, 0, -1, 0)
    } else if species == 18 {
        (-1, 0, 3, 3)
    } else if species == 19 {
        (0, 3, 0, -1)
    } else if species == 20 {
        (1, 1, 1, 0)
    } else if species == 21 {
        (3, 0, -2, -1)
    } else if species == 22 {
        (2, 2, -1, 0)
    } else if species == 23 {
        (-2, 3, 0, 1)
    } else if species == 24 {
        (0, 2, 1, 2)
    } else if species == 25 {
        (4, 0, -1, 1)
    } else if species == 26 {
        (0, 2, 2, 1)
    } else if species == 27 {
        (0, 4, -1, -1)
    } else if species == 28 {
        (2, 0, 2, 2)
    } else if species == 29 {
        (3, 1, 0, 1)
    } else {
        (0, 0, 0, 0)
    }
}

} // verus!
