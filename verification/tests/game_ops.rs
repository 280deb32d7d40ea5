use lobs::constants::{FEED_COOLDOWN, FEED_COST, MIN_WAGER, MAX_WAGER};
use lobs::errors::LobsError;
use lobs::factory::validate_species;
use lobs::ops::{
    initialize, mint_lob, feed_lob, evolve_lob, battle, create_challenge, accept_challenge,
};
use lobs::state::{Lob, GameConfig};

fn make_lob(owner_byte: u8) -> Lob {
    Lob {
        owner: vec![owner_byte; 32],
        name: b"Tester".to_vec(),
        species: 0,
        xp: 0,
        strength: 10,
        vitality: 2,
        speed: 5,
        luck: 0,
        mood: 100,
        last_fed: 1_000,
        battles_won: 0,
        battles_lost: 0,
        evolution_stage: 0,
        is_alive: true,
        mint_index: 0,
        tokens_won: 0,
        tokens_lost: 0,
    }
}

fn make_config() -> GameConfig {
    initialize(vec![1u8; 32], vec![2u8; 32])
}

#[test]
fn initialize_zeroes_ledger() {
    let config = make_config();
    assert_eq!(config.authority, vec![1u8; 32]);
    assert_eq!(config.token_mint, vec![2u8; 32]);
    assert_eq!(config.total_lobs_minted, 0);
    assert_eq!(config.total_wager_battles, 0);
    assert_eq!(config.total_tokens_wagered, 0);
    assert_eq!(config.total_tokens_burned, 0);
}

#[test]
fn mint_assigns_species_and_stats_from_seed() {
    // Zeroed 64-byte entropy, owner bytes all 7, timestamp 0, index 0: the
    // seed is 32 bytes of 7. Species 7 % 30 = 7 (bonus 0,+4,-2,-1); each raw
    // stat is 5 + 7 % 11 = 12.
    let mut config = make_config();
    let owner = vec![7u8; 32];
    let entropy = vec![0u8; 64];
    let lob = mint_lob(&mut config, &owner, b"Pearl".to_vec(), &entropy, 0).unwrap();
    assert_eq!(lob.species, 7);
    assert_eq!(lob.strength, 12);
    assert_eq!(lob.vitality, 16);
    assert_eq!(lob.speed, 10);
    assert_eq!(lob.luck, 11);
    assert_eq!(lob.mood, 80);
    assert_eq!(lob.xp, 0);
    assert_eq!(lob.evolution_stage, 0);
    assert!(lob.is_alive);
    assert_eq!(lob.mint_index, 0);
    assert_eq!(config.total_lobs_minted, 1);
}

#[test]
fn mint_rejects_long_name() {
    let mut config = make_config();
    let owner = vec![7u8; 32];
    let entropy = vec![0u8; 64];
    let r = mint_lob(&mut config, &owner, vec![b'x'; 33], &entropy, 0);
    assert_eq!(r.unwrap_err(), LobsError::NameTooLong);
    assert_eq!(config.total_lobs_minted, 0);
    // Exactly 32 bytes is fine.
    let r = mint_lob(&mut config, &owner, vec![b'x'; 32], &entropy, 0);
    assert!(r.is_ok());
}

#[test]
fn feed_updates_mood_xp_and_ledger() {
    let mut config = make_config();
    let mut lob = make_lob(3);
    lob.mood = 85;
    let now = lob.last_fed + FEED_COOLDOWN;
    assert_eq!(feed_lob(&mut lob, &mut config, now), Ok(()));
    assert_eq!(lob.mood, 100); // 85 + 20 clamped at 100
    assert_eq!(lob.xp, 10);
    assert_eq!(lob.last_fed, now);
    assert_eq!(config.total_tokens_burned, FEED_COST);
}

#[test]
fn feed_twice_within_cooldown_fails() {
    let mut config = make_config();
    let mut lob = make_lob(3);
    let t1 = lob.last_fed + FEED_COOLDOWN;
    assert_eq!(feed_lob(&mut lob, &mut config, t1), Ok(()));
    let before = lob.clone();
    // Any second feed strictly inside the window fails and changes nothing.
    for dt in [0, 1, FEED_COOLDOWN - 1] {
        let r = feed_lob(&mut lob, &mut config, t1 + dt);
        assert_eq!(r, Err(LobsError::FeedCooldown));
    }
    assert_eq!(lob.mood, before.mood);
    assert_eq!(lob.xp, before.xp);
    assert_eq!(lob.last_fed, t1);
    assert_eq!(config.total_tokens_burned, FEED_COST);
    // At exactly the cooldown it succeeds again.
    assert_eq!(feed_lob(&mut lob, &mut config, t1 + FEED_COOLDOWN), Ok(()));
}

#[test]
fn feed_dead_creature_fails() {
    let mut config = make_config();
    let mut lob = make_lob(3);
    lob.is_alive = false;
    let now = lob.last_fed + FEED_COOLDOWN;
    let r = feed_lob(&mut lob, &mut config, now);
    assert_eq!(r, Err(LobsError::LobDead));
}

#[test]
fn feed_xp_overflow_fails_atomically() {
    let mut config = make_config();
    let mut lob = make_lob(3);
    lob.xp = u32::MAX - 5;
    let now = lob.last_fed + FEED_COOLDOWN;
    let r = feed_lob(&mut lob, &mut config, now);
    assert_eq!(r, Err(LobsError::Overflow));
    assert_eq!(lob.xp, u32::MAX - 5);
    assert_eq!(lob.mood, 100);
    assert_eq!(config.total_tokens_burned, 0);
}

#[test]
fn evolve_succeeds_iff_threshold_met() {
    let mut lob = make_lob(3);
    lob.xp = 99;
    assert_eq!(evolve_lob(&mut lob), Err(LobsError::InsufficientXp));
    assert_eq!(lob.evolution_stage, 0);
    lob.xp = 100;
    assert_eq!(evolve_lob(&mut lob), Ok(()));
    assert_eq!(lob.evolution_stage, 1);
    // Stage 1 needs 500.
    assert_eq!(evolve_lob(&mut lob), Err(LobsError::InsufficientXp));
    lob.xp = 500;
    assert_eq!(evolve_lob(&mut lob), Ok(()));
    assert_eq!(lob.evolution_stage, 2);
    // Stage 2 needs 2000.
    lob.xp = 1999;
    assert_eq!(evolve_lob(&mut lob), Err(LobsError::InsufficientXp));
    lob.xp = 2000;
    assert_eq!(evolve_lob(&mut lob), Ok(()));
    assert_eq!(lob.evolution_stage, 3);
    // Terminal stage.
    lob.xp = u32::MAX;
    assert_eq!(evolve_lob(&mut lob), Err(LobsError::AlreadyMaxEvolution));
    assert_eq!(lob.evolution_stage, 3);
}

#[test]
fn evolve_dead_creature_fails() {
    let mut lob = make_lob(3);
    lob.xp = 100;
    lob.is_alive = false;
    assert_eq!(evolve_lob(&mut lob), Err(LobsError::LobDead));
}

#[test]
fn battle_applies_win_and_loss_deltas() {
    // At stage 0 the effective stats are (str*mood/100, 10*vit, spd, lck).
    // Challenger: (10, 20, 5, 0); defender at mood 60: (4, 10, 10, 0). Luck 0
    // on both sides makes every dodge and crit check fail. The defender acts
    // first (faster) but falls to the challenger's first blow: 10 - 10 = 0.
    let mut c = make_lob(3);
    c.strength = 10;
    c.vitality = 2;
    c.speed = 5;
    let mut d = make_lob(4);
    d.strength = 8;
    d.vitality = 1;
    d.speed = 10;
    d.mood = 60;
    let entropy = vec![0xFF; 8];
    let r = battle(&mut c, &mut d, &entropy, 77).unwrap();
    assert!(r);
    assert_eq!(c.xp, 50);
    assert_eq!(c.mood, 100);
    assert_eq!(c.battles_won, 1);
    assert_eq!(c.battles_lost, 0);
    assert_eq!(d.mood, 40);
    assert_eq!(d.battles_lost, 1);
    assert_eq!(d.battles_won, 0);
    assert_eq!(d.xp, 0);
}

#[test]
fn battle_rejects_same_owner() {
    let mut c = make_lob(3);
    let mut d = make_lob(3);
    let entropy = vec![1; 8];
    assert_eq!(battle(&mut c, &mut d, &entropy, 0), Err(LobsError::CannotBattleSelf));
    assert_eq!(c.battles_won, 0);
    assert_eq!(d.battles_lost, 0);
}

#[test]
fn battle_rejects_dead_side() {
    let mut c = make_lob(3);
    let mut d = make_lob(4);
    d.is_alive = false;
    let entropy = vec![1; 8];
    assert_eq!(battle(&mut c, &mut d, &entropy, 0), Err(LobsError::LobDead));
    c.is_alive = false;
    d.is_alive = true;
    assert_eq!(battle(&mut c, &mut d, &entropy, 0), Err(LobsError::LobDead));
}

#[test]
fn battle_counter_overflow_is_atomic() {
    let mut c = make_lob(3);
    c.xp = u32::MAX - 10;
    let mut d = make_lob(4);
    d.strength = 0;
    d.vitality = 0;
    d.speed = 0;
    let entropy = vec![0xFF; 8];
    // The challenger would win but its XP counter cannot take the gain.
    let r = battle(&mut c, &mut d, &entropy, 0);
    assert_eq!(r, Err(LobsError::Overflow));
    assert_eq!(c.xp, u32::MAX - 10);
    assert_eq!(c.battles_won, 0);
    assert_eq!(d.battles_lost, 0);
    assert_eq!(d.mood, 100);
}

#[test]
fn create_challenge_validates_wager_bounds() {
    let lob = make_lob(3);
    let challenger = vec![3u8; 32];
    let lob_key = vec![9u8; 32];
    let low = create_challenge(&challenger, &lob_key, &lob, MIN_WAGER - 1, None, 50);
    assert_eq!(low.unwrap_err(), LobsError::WagerTooLow);
    let high = create_challenge(&challenger, &lob_key, &lob, MAX_WAGER + 1, None, 50);
    assert_eq!(high.unwrap_err(), LobsError::WagerTooHigh);
    let ch = create_challenge(&challenger, &lob_key, &lob, MIN_WAGER, None, 50).unwrap();
    assert!(ch.is_active);
    assert_eq!(ch.wager, MIN_WAGER);
    assert_eq!(ch.created_at, 50);
    assert_eq!(ch.challenger, challenger);
    assert_eq!(ch.challenger_lob, lob_key);
    assert_eq!(ch.defender_lob, None);
}

#[test]
fn create_challenge_dead_creature_fails() {
    let mut lob = make_lob(3);
    lob.is_alive = false;
    let r = create_challenge(&vec![3u8; 32], &vec![9u8; 32], &lob, MIN_WAGER, None, 50);
    assert_eq!(r.unwrap_err(), LobsError::LobDead);
}

#[test]
fn accept_challenge_settles_and_resolves() {
    let mut config = make_config();
    let mut c = make_lob(3); // effective (10, 20, 5, 0)
    let mut d = make_lob(4);
    d.strength = 1;
    d.vitality = 1;
    d.speed = 1; // effective (1, 10, 1, 0): falls in two rounds
    let d_key = vec![8u8; 32];
    let mut ch = create_challenge(
        &vec![3u8; 32],
        &vec![9u8; 32],
        &c,
        100_000_000_000,
        Some(d_key.clone()),
        50,
    )
    .unwrap();
    let entropy = vec![0xFF; 8];
    let (challenger_wins, s) =
        accept_challenge(&mut ch, &mut c, &mut d, &d_key, &mut config, &entropy, 60).unwrap();
    assert!(challenger_wins);
    assert_eq!(s.total_pot, 200_000_000_000);
    assert_eq!(s.fee, 5_000_000_000);
    assert_eq!(s.winnings, 195_000_000_000);
    assert!(!ch.is_active);
    assert_eq!(c.xp, 50);
    assert_eq!(c.battles_won, 1);
    assert_eq!(c.tokens_won, 195_000_000_000);
    assert_eq!(d.battles_lost, 1);
    assert_eq!(d.tokens_lost, 100_000_000_000);
    assert_eq!(d.mood, 80);
    assert_eq!(config.total_wager_battles, 1);
    assert_eq!(config.total_tokens_wagered, 200_000_000_000);
    assert_eq!(config.total_tokens_burned, 5_000_000_000);
    // The challenge is terminal: a second accept fails.
    let again = accept_challenge(&mut ch, &mut c, &mut d, &d_key, &mut config, &entropy, 70);
    assert_eq!(again.unwrap_err(), LobsError::ChallengeInactive);
    assert_eq!(config.total_wager_battles, 1);
}

#[test]
fn accept_challenge_wrong_defender_fails() {
    let mut config = make_config();
    let mut c = make_lob(3);
    let mut d = make_lob(4);
    let named = vec![8u8; 32];
    let mut ch = create_challenge(
        &vec![3u8; 32],
        &vec![9u8; 32],
        &c,
        MIN_WAGER,
        Some(named),
        50,
    )
    .unwrap();
    let other_key = vec![5u8; 32];
    let entropy = vec![1; 8];
    let r = accept_challenge(&mut ch, &mut c, &mut d, &other_key, &mut config, &entropy, 60);
    assert_eq!(r.unwrap_err(), LobsError::WrongDefender);
    assert!(ch.is_active);
}

#[test]
fn accept_challenge_open_takes_any_defender() {
    let mut config = make_config();
    let mut c = make_lob(3);
    let mut d = make_lob(4);
    let mut ch =
        create_challenge(&vec![3u8; 32], &vec![9u8; 32], &c, MIN_WAGER, None, 50).unwrap();
    let any_key = vec![5u8; 32];
    let entropy = vec![1; 8];
    let r = accept_challenge(&mut ch, &mut c, &mut d, &any_key, &mut config, &entropy, 60);
    assert!(r.is_ok());
    assert!(!ch.is_active);
}

#[test]
fn accept_challenge_rejects_self_battle() {
    let mut config = make_config();
    let mut c = make_lob(3);
    // The defender creature belongs to the challenger identity.
    let mut d = make_lob(3);
    let mut ch =
        create_challenge(&vec![3u8; 32], &vec![9u8; 32], &c, MIN_WAGER, None, 50).unwrap();
    let key = vec![5u8; 32];
    let entropy = vec![1; 8];
    let r = accept_challenge(&mut ch, &mut c, &mut d, &key, &mut config, &entropy, 60);
    assert_eq!(r.unwrap_err(), LobsError::CannotBattleSelf);
    assert!(ch.is_active);
}

#[test]
fn feed_up_to_evolution() {
    // Ten feeds, each a cooldown apart, accumulate exactly the 100 XP that
    // the first evolution threshold asks for; mood stays within its bounds
    // throughout.
    let mut config = make_config();
    let mut lob = make_lob(3);
    lob.mood = 0;
    assert_eq!(evolve_lob(&mut lob), Err(LobsError::InsufficientXp));
    let mut now = lob.last_fed;
    for _ in 0..10 {
        now += FEED_COOLDOWN;
        assert_eq!(feed_lob(&mut lob, &mut config, now), Ok(()));
        assert!(lob.mood <= 100);
    }
    assert_eq!(lob.xp, 100);
    assert_eq!(config.total_tokens_burned, 10 * FEED_COST);
    assert_eq!(evolve_lob(&mut lob), Ok(()));
    assert_eq!(lob.evolution_stage, 1);
}

#[test]
fn species_validation() {
    assert_eq!(validate_species(0), Ok(0));
    assert_eq!(validate_species(29), Ok(29));
    assert_eq!(validate_species(30), Err(LobsError::InvalidSpecies));
    assert_eq!(validate_species(255), Err(LobsError::InvalidSpecies));
}
