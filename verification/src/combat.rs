//! The turn-based battle simulator. Each round the faster side attacks first;
//! the slower side strikes back only if it survived. With luck modeled, every
//! attack resolves a dodge check against the defender's luck and then a
//! critical-hit check against the attacker's luck, drawing distinct entropy
//! bytes per check. A fight undecided after the round cap falls to an
//! entropy-derived tiebreak.

use vstd::prelude::*;
use crate::constants::MAX_ROUNDS;
use crate::state::EffectiveStats;

verus! {

/// Saturating 64-bit multiplication.
pub open spec fn spec_sat_mul(a: u64, b: u64) -> u64 {
    if a * b > u64::MAX {
        u64::MAX
    } else {
        (a * b) as u64
    }
}

fn sat_mul(a: u64, b: u64) -> (r: u64)
    ensures
        r == spec_sat_mul(a, b),
{
    match a.checked_mul(b) {
        Some(v) => v,
        None => u64::MAX,
    }
}

/// The entropy byte at `pos` modulo the buffer length; `default` if the
/// buffer is empty.
pub open spec fn entropy_byte(entropy: Seq<u8>, pos: int, default: u8) -> u8 {
    if entropy.len() == 0 {
        default
    } else {
        entropy[pos % (entropy.len() as int)]
    }
}

fn entropy_byte_at(entropy: &Vec<u8>, pos: u64, default: u8) -> (r: u8)
    ensures
        r == entropy_byte(entropy@, pos as int, default),
{
    let n = entropy.len();
    if n == 0 {
        default
    } else {
        entropy[(pos % (n as u64)) as usize]
    }
}

/// Dodge threshold out of 256: min(defender_luck * 4, 200).
pub open spec fn spec_dodge_threshold(defender_luck: u64) -> int {
    if defender_luck * 4 > 200 {
        200
    } else {
        defender_luck * 4
    }
}

/// Crit threshold out of 256: min(attacker_luck * 5, 200).
pub open spec fn spec_crit_threshold(attacker_luck: u64) -> int {
    if attacker_luck * 5 > 200 {
        200
    } else {
        attacker_luck * 5
    }
}

/// Damage dealt by a single luck-modeled attack: 0 if dodged, double if a
/// critical hit, `base_damage` otherwise. The dodge byte sits at entropy
/// position round*4 + off, the crit byte right after it, so no two checks in
/// the same battle reuse a byte.
pub open spec fn spec_attack_damage(
    base_damage: u64,
    attacker_luck: u64,
    defender_luck: u64,
    entropy: Seq<u8>,
    round: u64,
    off: u64,
) -> u64 {
    let dodge_byte = entropy_byte(entropy, round * 4 + off, 0);
    if dodge_byte < spec_dodge_threshold(defender_luck) {
        0
    } else {
        let crit_byte = entropy_byte(entropy, round * 4 + off + 1, 255);
        if crit_byte < spec_crit_threshold(attacker_luck) {
            spec_sat_mul(base_damage, 2)
        } else {
            base_damage
        }
    }
}

/// Resolve a single attack with luck-based crit and dodge; `off`
/// differentiates the two sides' checks within the same round.
pub fn resolve_attack(
    base_damage: u64,
    attacker_luck: u64,
    defender_luck: u64,
    entropy: &Vec<u8>,
    round: u64,
    off: u64,
) -> (r: u64)
    requires
        round < MAX_ROUNDS,
        off <= 2,
    ensures
        r == spec_attack_damage(base_damage, attacker_luck, defender_luck, entropy@, round, off),
{
    let dodge_byte = entropy_byte_at(entropy, round * 4 + off, 0);
    let dodge_raw = sat_mul(defender_luck, 4);
    let dodge_thr = if dodge_raw > 200 {
        200
    } else {
        dodge_raw
    };
    if (dodge_byte as u64) < dodge_thr {
        return 0;
    }
    let crit_byte = entropy_byte_at(entropy, round * 4 + off + 1, 255);
    let crit_raw = sat_mul(attacker_luck, 5);
    let crit_thr = if crit_raw > 200 {
        200
    } else {
        crit_raw
    };
    if (crit_byte as u64) < crit_thr {
        return sat_mul(base_damage, 2);
    }
    base_damage
}

/// Per-hit damage of one side: its effective strength, floored at 1 so a
/// zero-strength creature cannot stall the fight forever.
pub open spec fn spec_damage_base(s: EffectiveStats) -> u64 {
    if s.strength == 0 {
        1
    } else {
        s.strength
    }
}

/// Damage one attack deals, with or without the luck model.
pub open spec fn spec_side_damage(
    attacker: EffectiveStats,
    defender: EffectiveStats,
    luck: bool,
    entropy: Seq<u8>,
    round: u64,
    off: u64,
) -> u64 {
    if luck {
        spec_attack_damage(
            spec_damage_base(attacker),
            attacker.luck,
            defender.luck,
            entropy,
            round,
            off,
        )
    } else {
        spec_damage_base(attacker)
    }
}

fn side_damage(
    attacker: &EffectiveStats,
    defender: &EffectiveStats,
    luck: bool,
    entropy: &Vec<u8>,
    round: u64,
    off: u64,
) -> (r: u64)
    requires
        round < MAX_ROUNDS,
        off <= 2,
    ensures
        r == spec_side_damage(*attacker, *defender, luck, entropy@, round, off),
{
    let base = if attacker.strength == 0 {
        1
    } else {
        attacker.strength
    };
    if luck {
        resolve_attack(base, attacker.luck, defender.luck, entropy, round, off)
    } else {
        base
    }
}

/// Hit points of both sides after the fight runs from the given state to its
/// end: at most `MAX_ROUNDS` rounds, stopping the moment either side's hit
/// points reach 0 (they floor at 0, never negative). Side `a`'s entropy
/// checks use offset 0, side `b`'s offset 2.
pub open spec fn spec_fight(
    a: EffectiveStats,
    b: EffectiveStats,
    a_hp: u64,
    b_hp: u64,
    round: u64,
    luck: bool,
    entropy: Seq<u8>,
) -> (u64, u64)
    decreases MAX_ROUNDS - round,
{
    if round >= MAX_ROUNDS {
        (a_hp, b_hp)
    } else if a.speed >= b.speed {
        let b1 = b_hp.saturating_sub(spec_side_damage(a, b, luck, entropy, round, 0));
        if b1 == 0 {
            (a_hp, 0u64)
        } else {
            let a1 = a_hp.saturating_sub(spec_side_damage(b, a, luck, entropy, round, 2));
            if a1 == 0 {
                (0u64, b1)
            } else {
                spec_fight(a, b, a1, b1, (round + 1) as u64, luck, entropy)
            }
        }
    } else {
        let a1 = a_hp.saturating_sub(spec_side_damage(b, a, luck, entropy, round, 2));
        if a1 == 0 {
            (0u64, b_hp)
        } else {
            let b1 = b_hp.saturating_sub(spec_side_damage(a, b, luck, entropy, round, 0));
            if b1 == 0 {
                (a1, 0u64)
            } else {
                spec_fight(a, b, a1, b1, (round + 1) as u64, luck, entropy)
            }
        }
    }
}

/// Final hit points of a whole fight, both sides starting at their effective
/// vitality.
pub open spec fn spec_fight_result(
    a: EffectiveStats,
    b: EffectiveStats,
    luck: bool,
    entropy: Seq<u8>,
) -> (u64, u64) {
    spec_fight(a, b, a.vitality, b.vitality, 0, luck, entropy)
}

/// The stalemate tiebreak byte, drawn from the entropy buffer at a
/// timestamp-derived position.
pub open spec fn spec_tiebreak_byte(entropy: Seq<u8>, timestamp: i64) -> u8 {
    entropy_byte(entropy, (timestamp as usize) as int, 0)
}

/// Whether side `a` wins the fight: by knockout if either side's hit points
/// reached 0, otherwise by the tiebreak (an even byte favors `a`).
pub open spec fn spec_a_wins(
    a: EffectiveStats,
    b: EffectiveStats,
    luck: bool,
    entropy: Seq<u8>,
    timestamp: i64,
) -> bool {
    let hp = spec_fight_result(a, b, luck, entropy);
    if hp.0 > 0 && hp.1 > 0 {
        spec_tiebreak_byte(entropy, timestamp) % 2 == 0
    } else {
        hp.0 > 0
    }
}

proof fn lemma_fight_hp_bounds(
    a: EffectiveStats,
    b: EffectiveStats,
    a_hp: u64,
    b_hp: u64,
    round: u64,
    luck: bool,
    entropy: Seq<u8>,
)
    ensures
        spec_fight(a, b, a_hp, b_hp, round, luck, entropy).0 <= a_hp,
        spec_fight(a, b, a_hp, b_hp, round, luck, entropy).1 <= b_hp,
    decreases MAX_ROUNDS - round,
{
    if round >= MAX_ROUNDS {
    } else if a.speed >= b.speed {
        let b1 = b_hp.saturating_sub(spec_side_damage(a, b, luck, entropy, round, 0));
        if b1 != 0 {
            let a1 = a_hp.saturating_sub(spec_side_damage(b, a, luck, entropy, round, 2));
            if a1 != 0 {
                lemma_fight_hp_bounds(a, b, a1, b1, (round + 1) as u64, luck, entropy);
            }
        }
    } else {
        let a1 = a_hp.saturating_sub(spec_side_damage(b, a, luck, entropy, round, 2));
        if a1 != 0 {
            let b1 = b_hp.saturating_sub(spec_side_damage(a, b, luck, entropy, round, 0));
            if b1 != 0 {
                lemma_fight_hp_bounds(a, b, a1, b1, (round + 1) as u64, luck, entropy);
            }
        }
    }
}

proof fn lemma_attack_monotone_attacker(
    base: u64,
    la1: u64,
    la2: u64,
    lb: u64,
    entropy: Seq<u8>,
    round: u64,
    off: u64,
)
    requires
        la1 <= la2,
    ensures
        spec_attack_damage(base, la1, lb, entropy, round, off) <= spec_attack_damage(
            base,
            la2,
            lb,
            entropy,
            round,
            off,
        ),
{
    assert(spec_sat_mul(base, 2) >= base);
    assert(spec_crit_threshold(la1) <= spec_crit_threshold(la2));
}

proof fn lemma_attack_monotone_defender(
    base: u64,
    la: u64,
    lb1: u64,
    lb2: u64,
    entropy: Seq<u8>,
    round: u64,
    off: u64,
)
    requires
        lb1 <= lb2,
    ensures
        spec_attack_damage(base, la, lb2, entropy, round, off) <= spec_attack_damage(
            base,
            la,
            lb1,
            entropy,
            round,
            off,
        ),
{
    assert(spec_dodge_threshold(lb1) <= spec_dodge_threshold(lb2));
}

proof fn lemma_fight_luck_monotone(
    a1: EffectiveStats,
    a2: EffectiveStats,
    b: EffectiveStats,
    a_hp1: u64,
    b_hp1: u64,
    a_hp2: u64,
    b_hp2: u64,
    round: u64,
    luck: bool,
    entropy: Seq<u8>,
)
    requires
        a2.strength == a1.strength,
        a2.vitality == a1.vitality,
        a2.speed == a1.speed,
        a2.luck >= a1.luck,
        a_hp2 >= a_hp1,
        b_hp2 <= b_hp1,
    ensures
        spec_fight(a2, b, a_hp2, b_hp2, round, luck, entropy).0 >= spec_fight(
            a1,
            b,
            a_hp1,
            b_hp1,
            round,
            luck,
            entropy,
        ).0,
        spec_fight(a2, b, a_hp2, b_hp2, round, luck, entropy).1 <= spec_fight(
            a1,
            b,
            a_hp1,
            b_hp1,
            round,
            luck,
            entropy,
        ).1,
    decreases MAX_ROUNDS - round,
{
    if round >= MAX_ROUNDS {
        return ;
    }
    let d_a1 = spec_side_damage(a1, b, luck, entropy, round, 0);
    let d_a2 = spec_side_damage(a2, b, luck, entropy, round, 0);
    let d_b1 = spec_side_damage(b, a1, luck, entropy, round, 2);
    let d_b2 = spec_side_damage(b, a2, luck, entropy, round, 2);
    if luck {
        lemma_attack_monotone_attacker(
            spec_damage_base(a1),
            a1.luck,
            a2.luck,
            b.luck,
            entropy,
            round,
            0,
        );
        lemma_attack_monotone_defender(
            spec_damage_base(b),
            b.luck,
            a1.luck,
            a2.luck,
            entropy,
            round,
            2,
        );
    }
    assert(d_a2 >= d_a1);
    assert(d_b2 <= d_b1);
    if a1.speed >= b.speed {
        let b1_1 = b_hp1.saturating_sub(d_a1);
        let b1_2 = b_hp2.saturating_sub(d_a2);
        if b1_1 == 0 {
            // Both runs knock side b out here.
        } else if b1_2 == 0 {
            // The luckier run knocks side b out now; the other fight can only
            // lose more hit points from here.
            let a1_1 = a_hp1.saturating_sub(d_b1);
            if a1_1 != 0 {
                lemma_fight_hp_bounds(a1, b, a1_1, b1_1, (round + 1) as u64, luck, entropy);
            }
        } else {
            let a1_1 = a_hp1.saturating_sub(d_b1);
            let a1_2 = a_hp2.saturating_sub(d_b2);
            if a1_1 == 0 {
                if a1_2 != 0 {
                    lemma_fight_hp_bounds(a2, b, a1_2, b1_2, (round + 1) as u64, luck, entropy);
                }
            } else {
                lemma_fight_luck_monotone(
                    a1,
                    a2,
                    b,
                    a1_1,
                    b1_1,
                    a1_2,
                    b1_2,
                    (round + 1) as u64,
                    luck,
                    entropy,
                );
            }
        }
    } else {
        let a1_1 = a_hp1.saturating_sub(d_b1);
        let a1_2 = a_hp2.saturating_sub(d_b2);
        if a1_1 == 0 {
            if a1_2 != 0 {
                let b1_2 = b_hp2.saturating_sub(d_a2);
                if b1_2 != 0 {
                    lemma_fight_hp_bounds(a2, b, a1_2, b1_2, (round + 1) as u64, luck, entropy);
                }
            }
        } else {
            let b1_1 = b_hp1.saturating_sub(d_a1);
            let b1_2 = b_hp2.saturating_sub(d_a2);
            if b1_1 == 0 {
                // Both runs knock side b out here.
            } else if b1_2 == 0 {
                lemma_fight_hp_bounds(a1, b, a1_1, b1_1, (round + 1) as u64, luck, entropy);
            } else {
                lemma_fight_luck_monotone(
                    a1,
                    a2,
                    b,
                    a1_1,
                    b1_1,
                    a1_2,
                    b1_2,
                    (round + 1) as u64,
                    luck,
                    entropy,
                );
            }
        }
    }
}

/// Raising one side's luck while every other effective stat and the entropy
/// stay fixed never turns that side's win into a loss: the set of entropy
/// buffers on which the side wins only grows, so its win rate over any
/// distribution of entropy samples cannot decrease.
pub proof fn lemma_luck_monotone(
    a1: EffectiveStats,
    a2: EffectiveStats,
    b: EffectiveStats,
    luck: bool,
    entropy: Seq<u8>,
    timestamp: i64,
)
    requires
        a2.strength == a1.strength,
        a2.vitality == a1.vitality,
        a2.speed == a1.speed,
        a2.luck >= a1.luck,
    ensures
        spec_a_wins(a1, b, luck, entropy, timestamp) ==> spec_a_wins(
            a2,
            b,
            luck,
            entropy,
            timestamp,
        ),
{
    lemma_fight_luck_monotone(
        a1,
        a2,
        b,
        a1.vitality,
        b.vitality,
        a2.vitality,
        b.vitality,
        0,
        luck,
        entropy,
    );
}

proof fn lemma_fight_luck_monotone_b(
    a: EffectiveStats,
    b1: EffectiveStats,
    b2: EffectiveStats,
    a_hp1: u64,
    b_hp1: u64,
    a_hp2: u64,
    b_hp2: u64,
    round: u64,
    luck: bool,
    entropy: Seq<u8>,
)
    requires
        b2.strength == b1.strength,
        b2.vitality == b1.vitality,
        b2.speed == b1.speed,
        b2.luck >= b1.luck,
        a_hp2 <= a_hp1,
        b_hp2 >= b_hp1,
    ensures
        spec_fight(a, b2, a_hp2, b_hp2, round, luck, entropy).0 <= spec_fight(
            a,
            b1,
            a_hp1,
            b_hp1,
            round,
            luck,
            entropy,
        ).0,
        spec_fight(a, b2, a_hp2, b_hp2, round, luck, entropy).1 >= spec_fight(
            a,
            b1,
            a_hp1,
            b_hp1,
            round,
            luck,
            entropy,
        ).1,
    decreases MAX_ROUNDS - round,
{
    if round >= MAX_ROUNDS {
        return ;
    }
    let d_a1 = spec_side_damage(a, b1, luck, entropy, round, 0);
    let d_a2 = spec_side_damage(a, b2, luck, entropy, round, 0);
    let d_b1 = spec_side_damage(b1, a, luck, entropy, round, 2);
    let d_b2 = spec_side_damage(b2, a, luck, entropy, round, 2);
    if luck {
        lemma_attack_monotone_defender(
            spec_damage_base(a),
            a.luck,
            b1.luck,
            b2.luck,
            entropy,
            round,
            0,
        );
        lemma_attack_monotone_attacker(
            spec_damage_base(b1),
            b1.luck,
            b2.luck,
            a.luck,
            entropy,
            round,
            2,
        );
    }
    assert(d_a2 <= d_a1);
    assert(d_b2 >= d_b1);
    if a.speed >= b1.speed {
        let b1_1 = b_hp1.saturating_sub(d_a1);
        let b1_2 = b_hp2.saturating_sub(d_a2);
        if b1_2 == 0 {
            // Side b falls in the luckier run too, so it falls in both:
            // b1_1 <= b1_2 == 0.
        } else if b1_1 == 0 {
            // Only the unluckier run's side b falls; the luckier fight can
            // only lose more of side a's hit points from here.
            let a1_2 = a_hp2.saturating_sub(d_b2);
            if a1_2 != 0 {
                lemma_fight_hp_bounds(a, b2, a1_2, b1_2, (round + 1) as u64, luck, entropy);
            }
        } else {
            let a1_1 = a_hp1.saturating_sub(d_b1);
            let a1_2 = a_hp2.saturating_sub(d_b2);
            if a1_2 == 0 {
                if a1_1 != 0 {
                    lemma_fight_hp_bounds(a, b1, a1_1, b1_1, (round + 1) as u64, luck, entropy);
                }
            } else {
                lemma_fight_luck_monotone_b(
                    a,
                    b1,
                    b2,
                    a1_1,
                    b1_1,
                    a1_2,
                    b1_2,
                    (round + 1) as u64,
                    luck,
                    entropy,
                );
            }
        }
    } else {
        let a1_1 = a_hp1.saturating_sub(d_b1);
        let a1_2 = a_hp2.saturating_sub(d_b2);
        if a1_2 == 0 {
            // Side a falls at once in the luckier run.
            if a1_1 != 0 {
                let b1_1 = b_hp1.saturating_sub(d_a1);
                if b1_1 != 0 {
                    lemma_fight_hp_bounds(a, b1, a1_1, b1_1, (round + 1) as u64, luck, entropy);
                }
            }
        } else {
            let b1_1 = b_hp1.saturating_sub(d_a1);
            let b1_2 = b_hp2.saturating_sub(d_a2);
            if b1_2 == 0 {
                // Side b falls in both runs: b1_1 <= b1_2 == 0.
            } else if b1_1 == 0 {
                lemma_fight_hp_bounds(a, b2, a1_2, b1_2, (round + 1) as u64, luck, entropy);
            } else {
                lemma_fight_luck_monotone_b(
                    a,
                    b1,
                    b2,
                    a1_1,
                    b1_1,
                    a1_2,
                    b1_2,
                    (round + 1) as u64,
                    luck,
                    entropy,
                );
            }
        }
    }
}

/// The mirror of `lemma_luck_monotone` for the second side: raising side b's
/// luck while every other effective stat and the entropy stay fixed never
/// turns b's win into a loss.
pub proof fn lemma_luck_monotone_defender(
    a: EffectiveStats,
    b1: EffectiveStats,
    b2: EffectiveStats,
    luck: bool,
    entropy: Seq<u8>,
    timestamp: i64,
)
    requires
        b2.strength == b1.strength,
        b2.vitality == b1.vitality,
        b2.speed == b1.speed,
        b2.luck >= b1.luck,
    ensures
        !spec_a_wins(a, b1, luck, entropy, timestamp) ==> !spec_a_wins(
            a,
            b2,
            luck,
            entropy,
            timestamp,
        ),
{
    lemma_fight_luck_monotone_b(
        a,
        b1,
        b2,
        a.vitality,
        b1.vitality,
        a.vitality,
        b2.vitality,
        0,
        luck,
        entropy,
    );
}

proof fn lemma_fight_no_luck_entropy_free(
    a: EffectiveStats,
    b: EffectiveStats,
    a_hp: u64,
    b_hp: u64,
    round: u64,
    e1: Seq<u8>,
    e2: Seq<u8>,
)
    ensures
        spec_fight(a, b, a_hp, b_hp, round, false, e1) == spec_fight(
            a,
            b,
            a_hp,
            b_hp,
            round,
            false,
            e2,
        ),
    decreases MAX_ROUNDS - round,
{
    if round >= MAX_ROUNDS {
    } else if a.speed >= b.speed {
        let b1 = b_hp.saturating_sub(spec_side_damage(a, b, false, e1, round, 0));
        if b1 != 0 {
            let a1 = a_hp.saturating_sub(spec_side_damage(b, a, false, e1, round, 2));
            if a1 != 0 {
                lemma_fight_no_luck_entropy_free(a, b, a1, b1, (round + 1) as u64, e1, e2);
            }
        }
    } else {
        let a1 = a_hp.saturating_sub(spec_side_damage(b, a, false, e1, round, 2));
        if a1 != 0 {
            let b1 = b_hp.saturating_sub(spec_side_damage(a, b, false, e1, round, 0));
            if b1 != 0 {
                lemma_fight_no_luck_entropy_free(a, b, a1, b1, (round + 1) as u64, e1, e2);
            }
        }
    }
}

/// With luck disabled, the fight's final hit points are a pure function of
/// the two sides' effective stats and the turn order — the entropy source
/// plays no part; and whenever the fight is decided inside the round cap (no
/// stalemate), the winner too is identical across runs with different entropy
/// and different timestamps.
pub proof fn lemma_no_luck_deterministic(
    a: EffectiveStats,
    b: EffectiveStats,
    e1: Seq<u8>,
    t1: i64,
    e2: Seq<u8>,
    t2: i64,
)
    ensures
        spec_fight_result(a, b, false, e1) == spec_fight_result(a, b, false, e2),
        !(spec_fight_result(a, b, false, e1).0 > 0 && spec_fight_result(a, b, false, e1).1 > 0)
            ==> spec_a_wins(a, b, false, e1, t1) == spec_a_wins(a, b, false, e2, t2),
{
    lemma_fight_no_luck_entropy_free(a, b, a.vitality, b.vitality, 0, e1, e2);
}

/// Run the whole battle: returns true iff side `a` wins. Deterministic in its
/// inputs; with `luck` disabled the entropy buffer matters only at the
/// stalemate tiebreak.
pub fn simulate_battle(
    a: &EffectiveStats,
    b: &EffectiveStats,
    luck: bool,
    entropy: &Vec<u8>,
    timestamp: i64,
) -> (r: bool)
    ensures
        r == spec_a_wins(*a, *b, luck, entropy@, timestamp),
{
    let mut a_hp = a.vitality;
    let mut b_hp = b.vitality;
    let mut round: u64 = 0;
    loop
        invariant_except_break
            round <= MAX_ROUNDS,
            spec_fight(*a, *b, a.vitality, b.vitality, 0, luck, entropy@) == spec_fight(
                *a,
                *b,
                a_hp,
                b_hp,
                round,
                luck,
                entropy@,
            ),
        ensures
            (a_hp, b_hp) == spec_fight_result(*a, *b, luck, entropy@),
        decreases MAX_ROUNDS - round,
    {
        if round >= MAX_ROUNDS {
            break;
        }
        if a.speed >= b.speed {
            let d = side_damage(a, b, luck, entropy, round, 0);
            b_hp = b_hp.saturating_sub(d);
            if b_hp == 0 {
                break;
            }
            let d2 = side_damage(b, a, luck, entropy, round, 2);
            a_hp = a_hp.saturating_sub(d2);
            if a_hp == 0 {
                break;
            }
        } else {
            let d2 = side_damage(b, a, luck, entropy, round, 2);
            a_hp = a_hp.saturating_sub(d2);
            if a_hp == 0 {
                break;
            }
            let d = side_damage(a, b, luck, entropy, round, 0);
            b_hp = b_hp.saturating_sub(d);
            if b_hp == 0 {
                break;
            }
        }
        round = round + 1;
    }
    if a_hp > 0 && b_hp > 0 {
        let pos: u64 = (#[verifier::truncate] (timestamp as usize)) as u64;
        let tb = entropy_byte_at(entropy, pos, 0);
        tb % 2 == 0
    } else {
        a_hp > 0
    }
}

} // verus!
