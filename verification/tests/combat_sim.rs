use lobs::combat::{resolve_attack, simulate_battle};
use lobs::state::EffectiveStats;

fn stats(strength: u64, vitality: u64, speed: u64, luck: u64) -> EffectiveStats {
    EffectiveStats { strength, vitality, speed, luck }
}

#[test]
fn battle_hand_computed_rounds() {
    // A(strength 10, vitality 20, speed 5) vs B(strength 8, vitality 15,
    // speed 10), no luck. B acts first each round (higher speed):
    //   round 0: A 20->12, B 15->5
    //   round 1: A 12->4,  B  5->0  => A wins with 4 hit points left.
    let a = stats(10, 20, 5, 0);
    let b = stats(8, 15, 10, 0);
    let entropy: Vec<u8> = vec![0xAB; 16];
    assert!(simulate_battle(&a, &b, false, &entropy, 42));
    // Swapped sides: the same fight seen from B's corner is a loss.
    assert!(!simulate_battle(&b, &a, false, &entropy, 42));
}

#[test]
fn battle_no_luck_deterministic() {
    // Luck disabled and the fight decided inside the round cap: the winner is
    // a pure function of the stats, whatever the entropy or clock says.
    let a = stats(10, 20, 5, 0);
    let b = stats(8, 15, 10, 0);
    let e1: Vec<u8> = vec![0; 4];
    let e2: Vec<u8> = (100u8..200).collect();
    let r1 = simulate_battle(&a, &b, false, &e1, 1);
    let r2 = simulate_battle(&a, &b, false, &e2, -99999);
    let r3 = simulate_battle(&a, &b, false, &e1, 1);
    assert!(r1 && r2 && r3);
}

#[test]
fn battle_speed_tie_favors_first_side() {
    // Equal speed: the first side attacks first. With equal damage and hit
    // points, striking first decides the fight.
    let a = stats(10, 10, 7, 0);
    let b = stats(10, 10, 7, 0);
    let entropy: Vec<u8> = vec![1; 8];
    assert!(simulate_battle(&a, &b, false, &entropy, 0));
}

#[test]
fn battle_zero_strength_deals_one_damage() {
    // Damage floors at 1, so a zero-strength pair cannot stall forever:
    // the first side chips the second down to 0 within the round cap.
    let a = stats(0, 50, 9, 0);
    let b = stats(0, 50, 1, 0);
    let entropy: Vec<u8> = vec![255; 8];
    assert!(simulate_battle(&a, &b, false, &entropy, 5));
}

#[test]
fn battle_stalemate_tiebreak_parity() {
    // Both sides too tough to fall in 100 rounds (1 damage per hit against
    // 200 hit points): the tiebreak byte decides, even favoring side a.
    let a = stats(0, 200, 1, 0);
    let b = stats(0, 200, 1, 0);
    let even: Vec<u8> = vec![2];
    let odd: Vec<u8> = vec![3];
    assert!(simulate_battle(&a, &b, false, &even, 0));
    assert!(!simulate_battle(&a, &b, false, &odd, 0));
}

#[test]
fn attack_dodged_by_defender_luck() {
    // Defender luck 50 gives dodge threshold min(200, 200) = 200; the dodge
    // byte (position 0) is 100 < 200, so the attack deals nothing.
    let entropy: Vec<u8> = vec![100, 10];
    assert_eq!(resolve_attack(7, 0, 50, &entropy, 0, 0), 0);
}

#[test]
fn attack_crit_doubles_damage() {
    // No dodge (defender luck 0); attacker luck 40 gives crit threshold 200
    // and the crit byte (position 1) is 10 < 200: damage doubles.
    let entropy: Vec<u8> = vec![255, 10];
    assert_eq!(resolve_attack(7, 40, 0, &entropy, 0, 0), 14);
}

#[test]
fn attack_plain_damage_without_luck_bytes() {
    // Neither check fires: byte 255 dodges nothing and crits nothing.
    let entropy: Vec<u8> = vec![255, 255];
    assert_eq!(resolve_attack(7, 40, 50, &entropy, 0, 0), 7);
}

#[test]
fn attack_empty_entropy_defaults() {
    // Empty buffer: the dodge byte defaults to 0 (dodges whenever the
    // defender has any luck), the crit byte to 255 (never crits).
    let entropy: Vec<u8> = Vec::new();
    assert_eq!(resolve_attack(9, 200, 1, &entropy, 3, 2), 0);
    assert_eq!(resolve_attack(9, 200, 0, &entropy, 3, 2), 9);
}

#[test]
fn luck_increase_never_hurts() {
    // A loses without luck: B is faster and hits harder. With luck 50, A
    // dodges B's attacks (threshold 200 > byte 0) and crits: A now wins.
    // Raising luck turned a loss into a win and can never do the reverse.
    let a0 = stats(5, 10, 1, 0);
    let a1 = stats(5, 10, 1, 50);
    let b = stats(10, 10, 2, 0);
    let entropy: Vec<u8> = vec![0];
    assert!(!simulate_battle(&a0, &b, true, &entropy, 0));
    assert!(simulate_battle(&a1, &b, true, &entropy, 0));
    // And across a spread of entropy buffers, a win with low luck stays a
    // win with higher luck.
    for seed_byte in 0u8..=50 {
        let entropy: Vec<u8> = vec![seed_byte, seed_byte.wrapping_mul(7), 91, 13];
        let low = simulate_battle(&a0, &b, true, &entropy, 9);
        let high = simulate_battle(&a1, &b, true, &entropy, 9);
        assert!(!low || high);
    }
}

#[test]
fn defender_luck_increase_never_hurts() {
    // The mirror for the second side: raising b's luck never turns b's win
    // into a loss, across a spread of entropy buffers.
    let a = stats(10, 10, 2, 0);
    let b0 = stats(5, 10, 1, 0);
    let b1 = stats(5, 10, 1, 50);
    for seed_byte in 0u8..=50 {
        let entropy: Vec<u8> = vec![seed_byte, seed_byte.wrapping_mul(11), 44, 201];
        let b_wins_low = !simulate_battle(&a, &b0, true, &entropy, 9);
        let b_wins_high = !simulate_battle(&a, &b1, true, &entropy, 9);
        assert!(!b_wins_low || b_wins_high);
    }
}
