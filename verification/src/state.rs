//! The persistent records of the game — creatures, the economy ledger, and
//! wager challenges — together with their invariants and the derivation of
//! effective combat stats from stored base stats.

use vstd::prelude::*;
use crate::constants::{
    MAX_MOOD, MAX_EVOLUTION, NUM_SPECIES, MAX_NAME_LEN, MIN_WAGER, MAX_WAGER,
    spec_stage_multiplier, stage_multiplier,
};

verus! {

/// A 32-byte identity supplied by the host ledger (an account address).
pub open spec fn is_identity(bytes: Seq<u8>) -> bool {
    bytes.len() == 32
}

/// A player-owned creature: identity, base stats, mood, experience, and
/// cumulative battle and wager counters. Never deleted; `is_alive` marks a
/// terminal state but the record persists.
#[derive(Clone, Debug)]
pub struct Lob {
    /// Owner identity (32 bytes).
    pub owner: Vec<u8>,
    /// Creature name (at most 32 bytes).
    pub name: Vec<u8>,
    /// Species id, below `NUM_SPECIES`.
    pub species: u8,
    /// Current experience points.
    pub xp: u32,
    /// Base strength stat.
    pub strength: u8,
    /// Base vitality stat.
    pub vitality: u8,
    /// Base speed stat.
    pub speed: u8,
    /// Base luck stat; affects crit and dodge chance.
    pub luck: u8,
    /// Current mood, between 0 and `MAX_MOOD`.
    pub mood: u8,
    /// Timestamp of the last feed.
    pub last_fed: i64,
    /// Total battles won.
    pub battles_won: u32,
    /// Total battles lost.
    pub battles_lost: u32,
    /// Evolution stage, between 0 and `MAX_EVOLUTION`.
    pub evolution_stage: u8,
    /// Whether the creature is still alive.
    pub is_alive: bool,
    /// Monotonically increasing mint index.
    pub mint_index: u64,
    /// Total tokens won from wagers.
    pub tokens_won: u64,
    /// Total tokens lost to wagers.
    pub tokens_lost: u64,
}

impl Lob {
    /// The record invariant: every stored creature satisfies this after any
    /// operation.
    pub open spec fn wf(self) -> bool {
        &&& is_identity(self.owner@)
        &&& self.name@.len() <= MAX_NAME_LEN
        &&& self.species < NUM_SPECIES
        &&& self.mood <= MAX_MOOD
        &&& self.evolution_stage <= MAX_EVOLUTION
    }
}

/// The singleton economy ledger, owned by the deploying authority. Mutated
/// only by mint and settlement operations.
#[derive(Clone, Debug)]
pub struct GameConfig {
    /// Identity of the deploying authority (32 bytes).
    pub authority: Vec<u8>,
    /// Identity of the token mint backing all value (32 bytes).
    pub token_mint: Vec<u8>,
    /// Total creatures minted across all players.
    pub total_lobs_minted: u64,
    /// Total staked battles completed.
    pub total_wager_battles: u64,
    /// Total tokens wagered (both sides counted).
    pub total_tokens_wagered: u64,
    /// Total tokens permanently destroyed (feed costs and wager fees).
    pub total_tokens_burned: u64,
}

impl GameConfig {
    /// The ledger invariant.
    pub open spec fn wf(self) -> bool {
        &&& is_identity(self.authority@)
        &&& is_identity(self.token_mint@)
    }
}

/// A pending wager battle. The challenger's stake is in escrow from creation;
/// the challenge is Active until a matching accept resolves it, and Resolved
/// is terminal.
#[derive(Clone, Debug)]
pub struct BattleChallenge {
    /// Identity of the player who issued the challenge (32 bytes).
    pub challenger: Vec<u8>,
    /// Identity of the challenger's creature record (32 bytes).
    pub challenger_lob: Vec<u8>,
    /// Identity of the one creature allowed to accept, or None for an open
    /// challenge.
    pub defender_lob: Option<Vec<u8>>,
    /// Stake each side puts up, within the wager bounds.
    pub wager: u64,
    /// When the challenge was created.
    pub created_at: i64,
    /// Whether the challenge is still Active (true) or Resolved (false).
    pub is_active: bool,
}

impl BattleChallenge {
    /// The challenge invariant: identities well-formed and the wager within
    /// its validated bounds.
    pub open spec fn wf(self) -> bool {
        &&& is_identity(self.challenger@)
        &&& is_identity(self.challenger_lob@)
        &&& (self.defender_lob matches Some(d) ==> is_identity(d@))
        &&& MIN_WAGER <= self.wager <= MAX_WAGER
    }
}

/// Effective combat stats of one side, derived from a creature's base stats,
/// evolution stage, and mood. Used only during combat.
#[derive(Clone, Copy, Debug, PartialEq, Eq, Structural)]
pub struct EffectiveStats {
    /// Per-hit damage source.
    pub strength: u64,
    /// Starting hit points.
    pub vitality: u64,
    /// Decides who attacks first each round.
    pub speed: u64,
    /// Crit chance when attacking, dodge chance when defending.
    pub luck: u64,
}

/// Effective strength: base scaled by the stage multiplier and by mood,
/// floor-divided by 1,000,000.
pub open spec fn spec_effective_strength(lob: Lob) -> int {
    (lob.strength * spec_stage_multiplier(lob.evolution_stage) * lob.mood) / 1000000
}

/// Effective vitality: base scaled by the stage multiplier, with an extra
/// x10 scale relative to the other stats.
pub open spec fn spec_effective_vitality(lob: Lob) -> int {
    (lob.vitality * spec_stage_multiplier(lob.evolution_stage) * 10) / 10000
}

/// Effective speed: base scaled by the stage multiplier.
pub open spec fn spec_effective_speed(lob: Lob) -> int {
    (lob.speed * spec_stage_multiplier(lob.evolution_stage)) / 10000
}

/// Effective luck: base scaled by the stage multiplier.
pub open spec fn spec_effective_luck(lob: Lob) -> int {
    (lob.luck * spec_stage_multiplier(lob.evolution_stage)) / 10000
}

/// All four effective stats of a creature, as the combat simulator sees them.
pub open spec fn spec_effective_stats(lob: Lob) -> EffectiveStats {
    EffectiveStats {
        strength: spec_effective_strength(lob) as u64,
        vitality: spec_effective_vitality(lob) as u64,
        speed: spec_effective_speed(lob) as u64,
        luck: spec_effective_luck(lob) as u64,
    }
}

impl Lob {
    /// Effective strength: base x stage multiplier x mood / 1,000,000.
    pub fn effective_strength(&self) -> (r: u64)
        requires
            self.evolution_stage <= MAX_EVOLUTION,
        ensures
            r == spec_effective_strength(*self),
    {
        let multiplier = stage_multiplier(self.evolution_stage) as u64;
        let base = self.strength as u64;
        let mood_factor = self.mood as u64;
        proof {
            assert(base * multiplier <= 255 * 20000) by (nonlinear_arith)
                requires base <= 255 && multiplier <= 20000;
            assert(base * multiplier * mood_factor <= 5100000 * 255) by (nonlinear_arith)
                requires base * multiplier <= 5100000 && mood_factor <= 255;
        }
        base * multiplier * mood_factor / 1000000
    }

    /// Effective vitality: base x stage multiplier x 10 / 10,000.
    pub fn effective_vitality(&self) -> (r: u64)
        requires
            self.evolution_stage <= MAX_EVOLUTION,
        ensures
            r == spec_effective_vitality(*self),
    {
        let multiplier = stage_multiplier(self.evolution_stage) as u64;
        let base = self.vitality as u64;
        proof {
            assert(base * multiplier <= 255 * 20000) by (nonlinear_arith)
                requires base <= 255 && multiplier <= 20000;
        }
        base * multiplier * 10 / 10000
    }

    /// Effective speed: base x stage multiplier / 10,000.
    pub fn effective_speed(&self) -> (r: u64)
        requires
            self.evolution_stage <= MAX_EVOLUTION,
        ensures
            r == spec_effective_speed(*self),
    {
        let multiplier = stage_multiplier(self.evolution_stage) as u64;
        let base = self.speed as u64;
        proof {
            assert(base * multiplier <= 255 * 20000) by (nonlinear_arith)
                requires base <= 255 && multiplier <= 20000;
        }
        base * multiplier / 10000
    }

    /// Effective luck: base x stage multiplier / 10,000.
    pub fn effective_luck(&self) -> (r: u64)
        requires
            self.evolution_stage <= MAX_EVOLUTION,
        ensures
            r == spec_effective_luck(*self),
    {
        let multiplier = stage_multiplier(self.evolution_stage) as u64;
        let base = self.luck as u64;
        proof {
            assert(base * multiplier <= 255 * 20000) by (nonlinear_arith)
                requires base <= 255 && multiplier <= 20000;
        }
        base * multiplier / 10000
    }

    /// All four effective stats at once.
    pub fn effective_stats(&self) -> (r: EffectiveStats)
        requires
            self.evolution_stage <= MAX_EVOLUTION,
        ensures
            r == spec_effective_stats(*self),
    {
        EffectiveStats {
            strength: self.effective_strength(),
            vitality: self.effective_vitality(),
            speed: self.effective_speed(),
            luck: self.effective_luck(),
        }
    }
}

/// The display name of an evolution stage.
pub open spec fn spec_stage_name(stage: u8) -> Seq<char> {
    if stage == 0 {
        "Larva"@
    } else if stage == 1 {
        "Juvenile"@
    } else if stage == 2 {
        "Adult"@
    } else if stage == 3 {
        "Elder"@
    } else {
        "Unknown"@
    }
}

/// The display name of a species.
pub open spec fn spec_species_name(species: u8) -> Seq<char> {
    if species == 0 {
        "Snapclaw"@
    } else if species == 1 {
        "Tidecrawler"@
    } else if species == 2 {
        "Ironpincer"@
    } else if species == 3 {
        "Razorshrimp"@
    } else if species == 4 {
        "Boulderclaw"@
    } else if species == 5 {
        "Inkshade"@
    } else if species == 6 {
        "Coilshell"@
    } else if species == 7 {
        "Pearlmouth"@
    } else if species == 8 {
        "Spiralhorn"@
    } else if species == 9 {
        "Venomcone"@
    } else if species == 10 {
        "Driftbloom"@
    } else if species == 11 {
        "Stormbell"@
    } else if species == 12 {
        "Ghostveil"@
    } else if species == 13 {
        "Warbloom"@
    } else if species == 14 {
        "Moonpulse"@
    } else if species == 15 {
        "Deepmaw"@
    } else if species == 16 {
        "Flashfin"@
    } else if species == 17 {
        "Gulpjaw"@
    } else if species == 18 {
        "Mirrorfin"@
    } else if species == 19 {
        "Stonescale"@
    } else if species == 20 {
        "Reefling"@
    } else if species == 21 {
        "Thorncoil"@
    } else if species == 22 {
        "Bloomsire"@
    } else if species == 23 {
        "Tendrilwrap"@
    } else if species == 24 {
        "Sporeling"@
    } else if species == 25 {
        "Voidmaw"@
    } else if species == 26 {
        "Pressureking"@
    } else if species == 27 {
        "Darkdrifter"@
    } else if species == 28 {
        "Abysswatcher"@
    } else if species == 29 {
        "Depthcrown"@
    } else {
        "Unknown"@
    }
}

/// The display name of a species family: five consecutive species ids share
/// one family.
pub open spec fn spec_family_name(species: u8) -> Seq<char> {
    if species <= 4 {
        "Crustacean"@
    } else if species <= 9 {
        "Mollusk"@
    } else if species <= 14 {
        "Jellyfish"@
    } else if species <= 19 {
        "Fish"@
    } else if species <= 24 {
        "Flora"@
    } else if species <= 29 {
        "Abyssal"@
    } else {
        "Unknown"@
    }
}

impl Lob {
    /// The display name of this creature's evolution stage.
    pub fn stage_name(&self) -> (r: &'static str)
        ensures
            r@ == spec_stage_name(self.evolution_stage),
    {
        if self.evolution_stage == 0 {
            "Larva"
        } else if self.evolution_stage == 1 {
            "Juvenile"
        } else if self.evolution_stage == 2 {
            "Adult"
        } else if self.evolution_stage == 3 {
            "Elder"
        } else {
            "Unknown"
        }
    }

    /// The display name of this creature's species.
    pub fn species_name(&self) -> (r: &'static str)
        ensures
            r@ == spec_species_name(self.species),
    {
        if self.species == 0 {
            "Snapclaw"
        } else if self.species == 1 {
            "Tidecrawler"
        } else if self.species == 2 {
            "Ironpincer"
        } else if self.species == 3 {
            "Razorshrimp"
        } else if self.species == 4 {
            "Boulderclaw"
        } else if self.species == 5 {
            "Inkshade"
        } else if self.species == 6 {
            "Coilshell"
        } else if self.species == 7 {
            "Pearlmouth"
        } else if self.species == 8 {
            "Spiralhorn"
        } else if self.species == 9 {
            "Venomcone"
        } else if self.species == 10 {
            "Driftbloom"
        } else if self.species == 11 {
            "Stormbell"
        } else if self.species == 12 {
            "Ghostveil"
        } else if self.species == 13 {
            "Warbloom"
        } else if self.species == 14 {
            "Moonpulse"
        } else if self.species == 15 {
            "Deepmaw"
        } else if self.species == 16 {
            "Flashfin"
        } else if self.species == 17 {
            "Gulpjaw"
        } else if self.species == 18 {
            "Mirrorfin"
        } else if self.species == 19 {
            "Stonescale"
        } else if self.species == 20 {
            "Reefling"
        } else if self.species == 21 {
            "Thorncoil"
        } else if self.species == 22 {
            "Bloomsire"
        } else if self.species == 23 {
            "Tendrilwrap"
        } else if self.species == 24 {
            "Sporeling"
        } else if self.species == 25 {
            "Voidmaw"
        } else if self.species == 26 {
            "Pressureking"
        } else if self.species == 27 {
            "Darkdrifter"
        } else if self.species == 28 {
            "Abysswatcher"
        } else if self.species == 29 {
            "Depthcrown"
        } else {
            "Unknown"
        }
    }

    /// The display name of this creature's species family.
    pub fn family_name(&self) -> (r: &'static str)
        ensures
            r@ == spec_family_name(self.species),
    {
        if self.species <= 4 {
            "Crustacean"
        } else if self.species <= 9 {
            "Mollusk"
        } else if self.species <= 14 {
            "Jellyfish"
        } else if self.species <= 19 {
            "Fish"
        } else if self.species <= 24 {
            "Flora"
        } else if self.species <= 29 {
            "Abyssal"
        } else {
            "Unknown"
        }
    }
}

} // verus!
