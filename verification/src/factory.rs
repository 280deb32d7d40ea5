//! Creature creation: species selection and base-stat generation from a
//! 32-byte seed, with saturating species bonuses so stored stats never leave
//! their 8-bit range.

use vstd::prelude::*;
use crate::constants::{
    BASE_STAT_MIN, BASE_STAT_RANGE, NUM_SPECIES, MAX_NAME_LEN, spec_species_bonus, species_bonus,
};
use crate::errors::LobsError;
use crate::seed::{spec_seed, generate_seed};
use crate::state::Lob;

verus! {

/// A signed species bonus applied to a raw stat, saturating at the 8-bit
/// bounds: the stored stat never underflows below 0 nor overflows its width.
pub open spec fn spec_apply_bonus(base: u8, bonus: i8) -> u8 {
    if bonus >= 0 {
        base.saturating_add(bonus as u8)
    } else {
        base.saturating_sub((-(bonus as int)) as u8)
    }
}

/// Apply a signed species bonus with saturating arithmetic.
pub fn apply_bonus(base: u8, bonus: i8) -> (r: u8)
    ensures
        r == spec_apply_bonus(base, bonus),
{
    if bonus >= 0 {
        base.saturating_add(bonus as u8)
    } else {
        let magnitude: u8 = (-(bonus as i16)) as u8;
        base.saturating_sub(magnitude)
    }
}

/// A raw base stat drawn from one seed byte:
/// BASE_STAT_MIN + byte mod BASE_STAT_RANGE.
pub open spec fn spec_raw_stat(byte: u8) -> u8 {
    (BASE_STAT_MIN + byte % BASE_STAT_RANGE) as u8
}

/// The species id drawn from the seed: seed byte 0 mod NUM_SPECIES.
pub open spec fn spec_species_from_seed(seed: Seq<u8>) -> u8 {
    (seed[0] % NUM_SPECIES) as u8
}

/// The four base stats (strength, vitality, speed, luck) drawn from seed
/// bytes 1-4, each with the species bonus applied; a species outside the
/// bonus table gets the raw stats unchanged.
pub open spec fn spec_generate_stats(species: u8, seed: Seq<u8>) -> (u8, u8, u8, u8) {
    let raw_str = spec_raw_stat(seed[1]);
    let raw_vit = spec_raw_stat(seed[2]);
    let raw_spd = spec_raw_stat(seed[3]);
    let raw_lck = spec_raw_stat(seed[4]);
    if species < NUM_SPECIES {
        let bonus = spec_species_bonus(species);
        (
            spec_apply_bonus(raw_str, bonus.0),
            spec_apply_bonus(raw_vit, bonus.1),
            spec_apply_bonus(raw_spd, bonus.2),
            spec_apply_bonus(raw_lck, bonus.3),
        )
    } else {
        (raw_str, raw_vit, raw_spd, raw_lck)
    }
}

/// Draw the four base stats from the seed and apply the species bonuses.
pub fn generate_stats(species: u8, seed: &Vec<u8>) -> (r: (u8, u8, u8, u8))
    requires
        seed@.len() == 32,
    ensures
        r == spec_generate_stats(species, seed@),
{
    let raw_str = BASE_STAT_MIN + seed[1] % BASE_STAT_RANGE;
    let raw_vit = BASE_STAT_MIN + seed[2] % BASE_STAT_RANGE;
    let raw_spd = BASE_STAT_MIN + seed[3] % BASE_STAT_RANGE;
    let raw_lck = BASE_STAT_MIN + seed[4] % BASE_STAT_RANGE;
    if species < NUM_SPECIES {
        let bonus = species_bonus(species);
        (
            apply_bonus(raw_str, bonus.0),
            apply_bonus(raw_vit, bonus.1),
            apply_bonus(raw_spd, bonus.2),
            apply_bonus(raw_lck, bonus.3),
        )
    } else {
        (raw_str, raw_vit, raw_spd, raw_lck)
    }
}

/// Check that a species id lies in the valid closed range.
pub fn validate_species(species: u8) -> (r: Result<u8, LobsError>)
    ensures
        species < NUM_SPECIES ==> r == Ok::<u8, LobsError>(species),
        species >= NUM_SPECIES ==> r == Err::<u8, LobsError>(LobsError::InvalidSpecies),
{
    if species < NUM_SPECIES {
        Ok(species)
    } else {
        Err(LobsError::InvalidSpecies)
    }
}

/// What a freshly minted creature looks like: species and base stats drawn
/// from the seed generated out of the entropy, owner, timestamp, and mint
/// index; mood 80, zero XP, stage 0, alive, zeroed counters.
pub open spec fn spec_minted_lob(
    lob: Lob,
    owner: Seq<u8>,
    name: Seq<u8>,
    entropy: Seq<u8>,
    timestamp: i64,
    mint_index: u64,
) -> bool {
    let seed = spec_seed(entropy, owner, timestamp, mint_index);
    &&& lob.owner@ == owner
    &&& lob.name@ == name
    &&& lob.species == spec_species_from_seed(seed)
    &&& (lob.strength, lob.vitality, lob.speed, lob.luck) == spec_generate_stats(
        lob.species,
        seed,
    )
    &&& lob.mood == 80
    &&& lob.xp == 0
    &&& lob.evolution_stage == 0
    &&& lob.is_alive
    &&& lob.last_fed == timestamp
    &&& lob.battles_won == 0
    &&& lob.battles_lost == 0
    &&& lob.mint_index == mint_index
    &&& lob.tokens_won == 0
    &&& lob.tokens_lost == 0
}

/// Build a brand-new creature from its owner, name, and the host-supplied
/// entropy: species and base stats come from the generated seed; the creature
/// starts at mood 80, zero XP, stage 0, alive, with zeroed counters. Fails
/// with NameTooLong iff the name exceeds 32 bytes.
pub fn create_lob(
    owner: &Vec<u8>,
    name: Vec<u8>,
    entropy: &Vec<u8>,
    timestamp: i64,
    mint_index: u64,
) -> (r: Result<Lob, LobsError>)
    requires
        owner@.len() == 32,
    ensures
        name@.len() > MAX_NAME_LEN <==> r == Err::<Lob, LobsError>(LobsError::NameTooLong),
        (match r {
            Ok(lob) => {
                &&& lob.wf()
                &&& spec_minted_lob(lob, owner@, name@, entropy@, timestamp, mint_index)
            },
            Err(e) => e == LobsError::NameTooLong,
        }),
{
    if name.len() > MAX_NAME_LEN {
        return Err(LobsError::NameTooLong);
    }
    let seed = generate_seed(entropy, owner, timestamp, mint_index);
    let species = seed[0] % NUM_SPECIES;
    let stats = generate_stats(species, &seed);
    let owner_copy = owner.clone();
    proof {
        assert(owner_copy@ =~= owner@);
    }
    Ok(
        Lob {
            owner: owner_copy,
            name,
            species,
            xp: 0,
            strength: stats.0,
            vitality: stats.1,
            speed: stats.2,
            luck: stats.3,
            mood: 80,
            last_fed: timestamp,
            battles_won: 0,
            battles_lost: 0,
            evolution_stage: 0,
            is_alive: true,
            mint_index,
            tokens_won: 0,
            tokens_lost: 0,
        },
    )
}

} // verus!
