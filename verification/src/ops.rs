//! The exposed game operations. Each one runs to completion synchronously and
//! either commits all its state changes or none: on any error the records it
//! was handed are exactly as they were. The host performs the surrounding
//! value movement (escrow, payout, burn) with the amounts these operations
//! decide.

use vstd::prelude::*;
use crate::constants::{
    FEED_COST, FEED_COOLDOWN, FEED_MOOD_GAIN, FEED_XP_GAIN, MAX_MOOD, MAX_EVOLUTION, MAX_NAME_LEN,
    MIN_WAGER, MAX_WAGER, BATTLE_WIN_XP, BATTLE_WIN_MOOD, BATTLE_LOSE_MOOD,
    spec_evolution_threshold, evolution_threshold,
};
use crate::combat::{spec_a_wins, simulate_battle};
use crate::errors::LobsError;
use crate::factory::{create_lob, spec_minted_lob};
use crate::settle::{Settlement, settlement_amounts, spec_total_pot, spec_fee, spec_winnings};
use crate::state::{Lob, GameConfig, BattleChallenge, is_identity, spec_effective_stats};

verus! {

/// Compare two identities byte for byte.
fn ids_equal(a: &Vec<u8>, b: &Vec<u8>) -> (r: bool)
    ensures
        r == (a@ == b@),
{
    let r = *a == *b;
    proof {
        if r {
            assert(a@ =~= b@);
        } else {
            if a@ == b@ {
                assert(forall|i: int| 0 <= i < a@.len() ==> a@[i] == b@[i]);
            }
        }
    }
    r
}

/// Mood after a gain: saturating addition clamped at the mood ceiling.
pub open spec fn spec_gain_mood(mood: u8, gain: u8) -> u8 {
    if mood.saturating_add(gain) > MAX_MOOD {
        MAX_MOOD
    } else {
        mood.saturating_add(gain)
    }
}

fn gain_mood(mood: u8, gain: u8) -> (r: u8)
    ensures
        r == spec_gain_mood(mood, gain),
{
    let raised = mood.saturating_add(gain);
    if raised > MAX_MOOD {
        MAX_MOOD
    } else {
        raised
    }
}

/// Set up the singleton economy ledger: identities stored, every counter at
/// zero. Called once by the deploying authority.
pub fn initialize(authority: Vec<u8>, token_mint: Vec<u8>) -> (r: GameConfig)
    requires
        is_identity(authority@),
        is_identity(token_mint@),
    ensures
        r.wf(),
        r.authority == authority,
        r.token_mint == token_mint,
        r.total_lobs_minted == 0,
        r.total_wager_battles == 0,
        r.total_tokens_wagered == 0,
        r.total_tokens_burned == 0,
{
    GameConfig {
        authority,
        token_mint,
        total_lobs_minted: 0,
        total_wager_battles: 0,
        total_tokens_wagered: 0,
        total_tokens_burned: 0,
    }
}

/// The error a feed attempt hits, in check order, or None if it succeeds:
/// a dead creature, a timestamp difference outside 64 bits, an elapsed time
/// under the cooldown, or a counter at its ceiling.
pub open spec fn spec_feed_err(lob: Lob, config: GameConfig, now: i64) -> Option<LobsError> {
    if !lob.is_alive {
        Some(LobsError::LobDead)
    } else if !(i64::MIN <= now - lob.last_fed <= i64::MAX) {
        Some(LobsError::Overflow)
    } else if now - lob.last_fed < FEED_COOLDOWN {
        Some(LobsError::FeedCooldown)
    } else if config.total_tokens_burned + FEED_COST > u64::MAX {
        Some(LobsError::Overflow)
    } else if lob.xp + FEED_XP_GAIN > u32::MAX {
        Some(LobsError::Overflow)
    } else {
        None
    }
}

/// Feed a creature: raises mood (clamped at the ceiling) and XP, stamps the
/// feed time, and accounts the burned feed cost on the ledger. Fails iff
/// `spec_feed_err` says so, and then changes nothing. The host burns
/// FEED_COST from the owner's holdings alongside a success.
pub fn feed_lob(lob: &mut Lob, config: &mut GameConfig, now: i64) -> (r: Result<(), LobsError>)
    requires
        old(lob).wf(),
        old(config).wf(),
    ensures
        final(lob).wf(),
        final(config).wf(),
        (match spec_feed_err(*old(lob), *old(config), now) {
            None => {
                &&& r == Ok::<(), LobsError>(())
                &&& *final(lob) == (Lob {
                    mood: spec_gain_mood(old(lob).mood, FEED_MOOD_GAIN),
                    xp: (old(lob).xp + FEED_XP_GAIN) as u32,
                    last_fed: now,
                    ..*old(lob)
                })
                &&& *final(config) == (GameConfig {
                    total_tokens_burned: (old(config).total_tokens_burned + FEED_COST) as u64,
                    ..*old(config)
                })
            },
            Some(e) => {
                &&& r == Err::<(), LobsError>(e)
                &&& *final(lob) == *old(lob)
                &&& *final(config) == *old(config)
            },
        }),
{
    if !lob.is_alive {
        return Err(LobsError::LobDead);
    }
    let elapsed = match now.checked_sub(lob.last_fed) {
        Some(v) => v,
        None => {
            return Err(LobsError::Overflow);
        },
    };
    if elapsed < FEED_COOLDOWN {
        return Err(LobsError::FeedCooldown);
    }
    let new_burned = match config.total_tokens_burned.checked_add(FEED_COST) {
        Some(v) => v,
        None => {
            return Err(LobsError::Overflow);
        },
    };
    let new_xp = match lob.xp.checked_add(FEED_XP_GAIN) {
        Some(v) => v,
        None => {
            return Err(LobsError::Overflow);
        },
    };
    config.total_tokens_burned = new_burned;
    lob.mood = gain_mood(lob.mood, FEED_MOOD_GAIN);
    lob.xp = new_xp;
    lob.last_fed = now;
    Ok(())
}

/// The error an evolve attempt hits, in check order, or None if it succeeds:
/// a dead creature, a creature already at the final stage, or too little XP
/// for the current stage's threshold.
pub open spec fn spec_evolve_err(lob: Lob) -> Option<LobsError> {
    if !lob.is_alive {
        Some(LobsError::LobDead)
    } else if lob.evolution_stage >= MAX_EVOLUTION {
        Some(LobsError::AlreadyMaxEvolution)
    } else if lob.xp < spec_evolution_threshold(lob.evolution_stage) {
        Some(LobsError::InsufficientXp)
    } else {
        None
    }
}

/// Advance a creature one evolution stage. Succeeds iff the creature is
/// alive, below the final stage, and its XP has reached the current stage's
/// threshold; otherwise fails with the matching error and changes nothing.
pub fn evolve_lob(lob: &mut Lob) -> (r: Result<(), LobsError>)
    requires
        old(lob).wf(),
    ensures
        final(lob).wf(),
        (match spec_evolve_err(*old(lob)) {
            None => {
                &&& r == Ok::<(), LobsError>(())
                &&& *final(lob) == (Lob {
                    evolution_stage: (old(lob).evolution_stage + 1) as u8,
                    ..*old(lob)
                })
            },
            Some(e) => {
                &&& r == Err::<(), LobsError>(e)
                &&& *final(lob) == *old(lob)
            },
        }),
{
    if !lob.is_alive {
        return Err(LobsError::LobDead);
    }
    if lob.evolution_stage >= MAX_EVOLUTION {
        return Err(LobsError::AlreadyMaxEvolution);
    }
    let threshold = evolution_threshold(lob.evolution_stage);
    if lob.xp < threshold {
        return Err(LobsError::InsufficientXp);
    }
    lob.evolution_stage = lob.evolution_stage + 1;
    Ok(())
}

/// Mint a new creature for `owner` under the given name, drawing species and
/// stats from the host-supplied entropy. Fails with NameTooLong iff the name
/// exceeds 32 bytes, and with Overflow iff the global mint counter is at its
/// ceiling; on failure nothing changes. On success the ledger's mint counter
/// advances by one and the creature carries the prior counter value as its
/// mint index.
pub fn mint_lob(
    config: &mut GameConfig,
    owner: &Vec<u8>,
    name: Vec<u8>,
    entropy: &Vec<u8>,
    now: i64,
) -> (r: Result<Lob, LobsError>)
    requires
        old(config).wf(),
        is_identity(owner@),
    ensures
        final(config).wf(),
        (match r {
            Ok(lob) => {
                &&& name@.len() <= MAX_NAME_LEN
                &&& old(config).total_lobs_minted < u64::MAX
                &&& lob.wf()
                &&& spec_minted_lob(
                    lob,
                    owner@,
                    name@,
                    entropy@,
                    now,
                    old(config).total_lobs_minted,
                )
                &&& *final(config) == (GameConfig {
                    total_lobs_minted: (old(config).total_lobs_minted + 1) as u64,
                    ..*old(config)
                })
            },
            Err(e) => {
                &&& *final(config) == *old(config)
                &&& (e == LobsError::NameTooLong <==> name@.len() > MAX_NAME_LEN)
                &&& (e == LobsError::Overflow <==> (name@.len() <= MAX_NAME_LEN && old(
                    config,
                ).total_lobs_minted == u64::MAX))
                &&& (e == LobsError::NameTooLong || e == LobsError::Overflow)
            },
        }),
{
    let lob = match create_lob(owner, name, entropy, now, config.total_lobs_minted) {
        Ok(lob) => lob,
        Err(e) => {
            return Err(e);
        },
    };
    let next = match config.total_lobs_minted.checked_add(1) {
        Some(v) => v,
        None => {
            return Err(LobsError::Overflow);
        },
    };
    config.total_lobs_minted = next;
    Ok(lob)
}

/// The error a challenge creation hits, in check order, or None: a dead
/// creature, then a wager outside the validated bounds.
pub open spec fn spec_create_challenge_err(lob: Lob, wager: u64) -> Option<LobsError> {
    if !lob.is_alive {
        Some(LobsError::LobDead)
    } else if wager < MIN_WAGER {
        Some(LobsError::WagerTooLow)
    } else if wager > MAX_WAGER {
        Some(LobsError::WagerTooHigh)
    } else {
        None
    }
}

/// Open a wager battle challenge: the wager is validated against the bounds
/// and the challenge is stored Active, naming a specific defender creature or
/// none (an open challenge). The host escrows the challenger's stake
/// alongside a success.
pub fn create_challenge(
    challenger: &Vec<u8>,
    challenger_lob_key: &Vec<u8>,
    challenger_lob: &Lob,
    wager: u64,
    defender_lob: Option<Vec<u8>>,
    now: i64,
) -> (r: Result<BattleChallenge, LobsError>)
    requires
        is_identity(challenger@),
        is_identity(challenger_lob_key@),
        challenger_lob.wf(),
        (defender_lob matches Some(d) ==> is_identity(d@)),
    ensures
        (match spec_create_challenge_err(*challenger_lob, wager) {
            None => {
                &&& (r matches Ok(ch))
                &&& (match r {
                    Ok(ch) => {
                        &&& ch.wf()
                        &&& ch.challenger@ == challenger@
                        &&& ch.challenger_lob@ == challenger_lob_key@
                        &&& ch.defender_lob == defender_lob
                        &&& ch.wager == wager
                        &&& ch.created_at == now
                        &&& ch.is_active
                    },
                    Err(_) => false,
                })
            },
            Some(e) => r == Err::<BattleChallenge, LobsError>(e),
        }),
{
    if !challenger_lob.is_alive {
        return Err(LobsError::LobDead);
    }
    if wager < MIN_WAGER {
        return Err(LobsError::WagerTooLow);
    }
    if wager > MAX_WAGER {
        return Err(LobsError::WagerTooHigh);
    }
    let challenger_copy = challenger.clone();
    let lob_key_copy = challenger_lob_key.clone();
    proof {
        assert(challenger_copy@ =~= challenger@);
        assert(lob_key_copy@ =~= challenger_lob_key@);
    }
    Ok(
        BattleChallenge {
            challenger: challenger_copy,
            challenger_lob: lob_key_copy,
            defender_lob,
            wager,
            created_at: now,
            is_active: true,
        },
    )
}

/// A battle winner's deltas: XP up, mood up (clamped), one more win.
pub open spec fn spec_after_win(lob: Lob) -> Lob {
    Lob {
        xp: (lob.xp + BATTLE_WIN_XP) as u32,
        mood: spec_gain_mood(lob.mood, BATTLE_WIN_MOOD),
        battles_won: (lob.battles_won + 1) as u32,
        ..lob
    }
}

/// A battle loser's deltas: mood down (floored at 0), one more loss.
pub open spec fn spec_after_loss(lob: Lob) -> Lob {
    Lob { mood: lob.mood.saturating_sub(BATTLE_LOSE_MOOD), battles_lost: (lob.battles_lost + 1) as u32, ..lob }
}

fn apply_win(lob: &mut Lob)
    requires
        old(lob).wf(),
        old(lob).xp + BATTLE_WIN_XP <= u32::MAX,
        old(lob).battles_won + 1 <= u32::MAX,
    ensures
        final(lob).wf(),
        *final(lob) == spec_after_win(*old(lob)),
{
    lob.xp = lob.xp + BATTLE_WIN_XP;
    lob.mood = gain_mood(lob.mood, BATTLE_WIN_MOOD);
    lob.battles_won = lob.battles_won + 1;
}

fn apply_loss(lob: &mut Lob)
    requires
        old(lob).wf(),
        old(lob).battles_lost + 1 <= u32::MAX,
    ensures
        final(lob).wf(),
        *final(lob) == spec_after_loss(*old(lob)),
{
    lob.mood = lob.mood.saturating_sub(BATTLE_LOSE_MOOD);
    lob.battles_lost = lob.battles_lost + 1;
}

/// The error a free battle hits, in check order, or None: a dead creature on
/// either side, two creatures of one owner, or a counter of the would-be
/// winner or loser at its ceiling.
pub open spec fn spec_battle_err(c: Lob, d: Lob, entropy: Seq<u8>, now: i64) -> Option<
    LobsError,
> {
    if !c.is_alive {
        Some(LobsError::LobDead)
    } else if !d.is_alive {
        Some(LobsError::LobDead)
    } else if c.owner@ == d.owner@ {
        Some(LobsError::CannotBattleSelf)
    } else {
        let cw = spec_a_wins(spec_effective_stats(c), spec_effective_stats(d), true, entropy, now);
        let winner = if cw {
            c
        } else {
            d
        };
        let loser = if cw {
            d
        } else {
            c
        };
        if winner.xp + BATTLE_WIN_XP > u32::MAX || winner.battles_won + 1 > u32::MAX
            || loser.battles_lost + 1 > u32::MAX {
            Some(LobsError::Overflow)
        } else {
            None
        }
    }
}

/// Run a free (unstaked) battle between two creatures, luck modeled. Returns
/// whether the challenger won; the winner and loser take their deltas. Fails
/// iff `spec_battle_err` says so, and then changes neither creature.
pub fn battle(
    challenger_lob: &mut Lob,
    defender_lob: &mut Lob,
    entropy: &Vec<u8>,
    now: i64,
) -> (r: Result<bool, LobsError>)
    requires
        old(challenger_lob).wf(),
        old(defender_lob).wf(),
    ensures
        final(challenger_lob).wf(),
        final(defender_lob).wf(),
        (match spec_battle_err(*old(challenger_lob), *old(defender_lob), entropy@, now) {
            None => {
                let cw = spec_a_wins(
                    spec_effective_stats(*old(challenger_lob)),
                    spec_effective_stats(*old(defender_lob)),
                    true,
                    entropy@,
                    now,
                );
                &&& r == Ok::<bool, LobsError>(cw)
                &&& (cw ==> *final(challenger_lob) == spec_after_win(*old(challenger_lob))
                    && *final(defender_lob) == spec_after_loss(*old(defender_lob)))
                &&& (!cw ==> *final(challenger_lob) == spec_after_loss(*old(challenger_lob))
                    && *final(defender_lob) == spec_after_win(*old(defender_lob)))
            },
            Some(e) => {
                &&& r == Err::<bool, LobsError>(e)
                &&& *final(challenger_lob) == *old(challenger_lob)
                &&& *final(defender_lob) == *old(defender_lob)
            },
        }),
{
    if !challenger_lob.is_alive {
        return Err(LobsError::LobDead);
    }
    if !defender_lob.is_alive {
        return Err(LobsError::LobDead);
    }
    if ids_equal(&challenger_lob.owner, &defender_lob.owner) {
        return Err(LobsError::CannotBattleSelf);
    }
    let c_stats = challenger_lob.effective_stats();
    let d_stats = defender_lob.effective_stats();
    let challenger_wins = simulate_battle(&c_stats, &d_stats, true, entropy, now);
    if challenger_wins {
        if challenger_lob.xp > u32::MAX - BATTLE_WIN_XP {
            return Err(LobsError::Overflow);
        }
        if challenger_lob.battles_won == u32::MAX {
            return Err(LobsError::Overflow);
        }
        if defender_lob.battles_lost == u32::MAX {
            return Err(LobsError::Overflow);
        }
        apply_win(challenger_lob);
        apply_loss(defender_lob);
    } else {
        if defender_lob.xp > u32::MAX - BATTLE_WIN_XP {
            return Err(LobsError::Overflow);
        }
        if defender_lob.battles_won == u32::MAX {
            return Err(LobsError::Overflow);
        }
        if challenger_lob.battles_lost == u32::MAX {
            return Err(LobsError::Overflow);
        }
        apply_win(defender_lob);
        apply_loss(challenger_lob);
    }
    Ok(challenger_wins)
}

/// A wager winner's deltas: the free-battle win deltas plus the winnings on
/// the creature's value-won ledger.
pub open spec fn spec_after_wager_win(lob: Lob, winnings: u64) -> Lob {
    Lob { tokens_won: (lob.tokens_won + winnings) as u64, ..spec_after_win(lob) }
}

/// A wager loser's deltas: the free-battle loss deltas plus the lost stake on
/// the creature's value-lost ledger.
pub open spec fn spec_after_wager_loss(lob: Lob, wager: u64) -> Lob {
    Lob { tokens_lost: (lob.tokens_lost + wager) as u64, ..spec_after_loss(lob) }
}

fn apply_wager_win(lob: &mut Lob, winnings: u64)
    requires
        old(lob).wf(),
        old(lob).xp + BATTLE_WIN_XP <= u32::MAX,
        old(lob).battles_won + 1 <= u32::MAX,
        old(lob).tokens_won + winnings <= u64::MAX,
    ensures
        final(lob).wf(),
        *final(lob) == spec_after_wager_win(*old(lob), winnings),
{
    apply_win(lob);
    lob.tokens_won = lob.tokens_won + winnings;
}

fn apply_wager_loss(lob: &mut Lob, wager: u64)
    requires
        old(lob).wf(),
        old(lob).battles_lost + 1 <= u32::MAX,
        old(lob).tokens_lost + wager <= u64::MAX,
    ensures
        final(lob).wf(),
        *final(lob) == spec_after_wager_loss(*old(lob), wager),
{
    apply_loss(lob);
    lob.tokens_lost = lob.tokens_lost + wager;
}

/// The error an accept hits, in check order, or None: a challenge already
/// resolved, a dead creature on either side, a defender owned by the
/// challenger, a defender other than the one the challenge names, or a
/// creature or ledger counter at its ceiling.
pub open spec fn spec_accept_err(
    ch: BattleChallenge,
    c: Lob,
    d: Lob,
    defender_lob_key: Seq<u8>,
    config: GameConfig,
    entropy: Seq<u8>,
    now: i64,
) -> Option<LobsError> {
    if !ch.is_active {
        Some(LobsError::ChallengeInactive)
    } else if !c.is_alive {
        Some(LobsError::LobDead)
    } else if !d.is_alive {
        Some(LobsError::LobDead)
    } else if d.owner@ == ch.challenger@ {
        Some(LobsError::CannotBattleSelf)
    } else if (match ch.defender_lob {
        Some(t) => t@ != defender_lob_key,
        None => false,
    }) {
        Some(LobsError::WrongDefender)
    } else {
        let cw = spec_a_wins(spec_effective_stats(c), spec_effective_stats(d), false, entropy, now);
        let winner = if cw {
            c
        } else {
            d
        };
        let loser = if cw {
            d
        } else {
            c
        };
        if winner.xp + BATTLE_WIN_XP > u32::MAX || winner.battles_won + 1 > u32::MAX
            || winner.tokens_won + spec_winnings(ch.wager) > u64::MAX || loser.battles_lost + 1
            > u32::MAX || loser.tokens_lost + ch.wager > u64::MAX || config.total_wager_battles + 1
            > u64::MAX || config.total_tokens_wagered + spec_total_pot(ch.wager) > u64::MAX
            || config.total_tokens_burned + spec_fee(ch.wager) > u64::MAX {
            Some(LobsError::Overflow)
        } else {
            None
        }
    }
}

/// Accept a wager challenge: the defender matches the stake (escrowed by the
/// host), the battle resolves without the luck model, the settlement splits
/// the pot, and the challenge transitions to its terminal Resolved state.
/// Returns whether the challenger won together with the settlement amounts
/// the host must pay out (winnings to the winner) and destroy (the fee).
/// Fails iff `spec_accept_err` says so, and then changes nothing.
pub fn accept_challenge(
    challenge: &mut BattleChallenge,
    challenger_lob: &mut Lob,
    defender_lob: &mut Lob,
    defender_lob_key: &Vec<u8>,
    config: &mut GameConfig,
    entropy: &Vec<u8>,
    now: i64,
) -> (r: Result<(bool, Settlement), LobsError>)
    requires
        old(challenge).wf(),
        old(challenger_lob).wf(),
        old(defender_lob).wf(),
        old(config).wf(),
        is_identity(defender_lob_key@),
    ensures
        final(challenge).wf(),
        final(challenger_lob).wf(),
        final(defender_lob).wf(),
        final(config).wf(),
        (match spec_accept_err(
            *old(challenge),
            *old(challenger_lob),
            *old(defender_lob),
            defender_lob_key@,
            *old(config),
            entropy@,
            now,
        ) {
            None => {
                let cw = spec_a_wins(
                    spec_effective_stats(*old(challenger_lob)),
                    spec_effective_stats(*old(defender_lob)),
                    false,
                    entropy@,
                    now,
                );
                let wager = old(challenge).wager;
                &&& (match r {
                    Ok((challenger_wins, s)) => {
                        &&& challenger_wins == cw
                        &&& s.total_pot == spec_total_pot(wager)
                        &&& s.fee == spec_fee(wager)
                        &&& s.winnings == spec_winnings(wager)
                    },
                    Err(_) => false,
                })
                &&& (cw ==> *final(challenger_lob) == spec_after_wager_win(
                    *old(challenger_lob),
                    spec_winnings(wager) as u64,
                ) && *final(defender_lob) == spec_after_wager_loss(*old(defender_lob), wager))
                &&& (!cw ==> *final(challenger_lob) == spec_after_wager_loss(
                    *old(challenger_lob),
                    wager,
                ) && *final(defender_lob) == spec_after_wager_win(
                    *old(defender_lob),
                    spec_winnings(wager) as u64,
                ))
                &&& *final(config) == (GameConfig {
                    total_wager_battles: (old(config).total_wager_battles + 1) as u64,
                    total_tokens_wagered: (old(config).total_tokens_wagered + spec_total_pot(
                        wager,
                    )) as u64,
                    total_tokens_burned: (old(config).total_tokens_burned + spec_fee(
                        wager,
                    )) as u64,
                    ..*old(config)
                })
                &&& *final(challenge) == (BattleChallenge { is_active: false, ..*old(challenge) })
            },
            Some(e) => {
                &&& r == Err::<(bool, Settlement), LobsError>(e)
                &&& *final(challenge) == *old(challenge)
                &&& *final(challenger_lob) == *old(challenger_lob)
                &&& *final(defender_lob) == *old(defender_lob)
                &&& *final(config) == *old(config)
            },
        }),
{
    if !challenge.is_active {
        return Err(LobsError::ChallengeInactive);
    }
    if !challenger_lob.is_alive {
        return Err(LobsError::LobDead);
    }
    if !defender_lob.is_alive {
        return Err(LobsError::LobDead);
    }
    if ids_equal(&defender_lob.owner, &challenge.challenger) {
        return Err(LobsError::CannotBattleSelf);
    }
    match &challenge.defender_lob {
        Some(target) => {
            if !ids_equal(target, defender_lob_key) {
                return Err(LobsError::WrongDefender);
            }
        },
        None => {},
    }
    let wager = challenge.wager;
    let c_stats = challenger_lob.effective_stats();
    let d_stats = defender_lob.effective_stats();
    let challenger_wins = simulate_battle(&c_stats, &d_stats, false, entropy, now);
    let settlement = match settlement_amounts(wager) {
        Ok(s) => s,
        Err(_) => {
            // Unreachable: the challenge invariant bounds the wager.
            return Err(LobsError::Overflow);
        },
    };
    let counters_ok = if challenger_wins {
        challenger_lob.xp <= u32::MAX - BATTLE_WIN_XP && challenger_lob.battles_won < u32::MAX
            && challenger_lob.tokens_won <= u64::MAX - settlement.winnings
            && defender_lob.battles_lost < u32::MAX && defender_lob.tokens_lost <= u64::MAX - wager
    } else {
        defender_lob.xp <= u32::MAX - BATTLE_WIN_XP && defender_lob.battles_won < u32::MAX
            && defender_lob.tokens_won <= u64::MAX - settlement.winnings
            && challenger_lob.battles_lost < u32::MAX && challenger_lob.tokens_lost <= u64::MAX
            - wager
    };
    if !counters_ok {
        return Err(LobsError::Overflow);
    }
    if config.total_wager_battles == u64::MAX {
        return Err(LobsError::Overflow);
    }
    if config.total_tokens_wagered > u64::MAX - settlement.total_pot {
        return Err(LobsError::Overflow);
    }
    if config.total_tokens_burned > u64::MAX - settlement.fee {
        return Err(LobsError::Overflow);
    }
    if challenger_wins {
        apply_wager_win(challenger_lob, settlement.winnings);
        apply_wager_loss(defender_lob, wager);
    } else {
        apply_wager_win(defender_lob, settlement.winnings);
        apply_wager_loss(challenger_lob, wager);
    }
    config.total_wager_battles = config.total_wager_battles + 1;
    config.total_tokens_wagered = config.total_tokens_wagered + settlement.total_pot;
    config.total_tokens_burned = config.total_tokens_burned + settlement.fee;
    challenge.is_active = false;
    Ok((challenger_wins, settlement))
}

/// Feeding twice within the cooldown always fails: a creature fed
/// successfully at time t1 (as `feed_lob` leaves it) fails any second feed at
/// a time t2 less than FEED_COOLDOWN seconds later with FeedCooldown, whatever
/// the ledger then holds.
pub proof fn lemma_feed_cooldown(lob: Lob, config: GameConfig, config2: GameConfig, t1: i64, t2: i64)
    requires
        spec_feed_err(lob, config, t1) == None::<LobsError>,
        t1 <= t2,
        t2 - t1 < FEED_COOLDOWN,
    ensures
        spec_feed_err(
            (Lob {
                mood: spec_gain_mood(lob.mood, FEED_MOOD_GAIN),
                xp: (lob.xp + FEED_XP_GAIN) as u32,
                last_fed: t1,
                ..lob
            }),
            config2,
            t2,
        ) == Some(LobsError::FeedCooldown),
{
}

} // verus!
