//! Wager settlement arithmetic: pot, fee, and winnings for a matched stake.
//! The fee is disposed of by the host (burned); the arithmetic here conserves
//! the pot exactly.

use vstd::prelude::*;
use crate::constants::{MIN_WAGER, MAX_WAGER, WAGER_FEE_BPS};
use crate::errors::LobsError;

verus! {

/// The amounts a resolved wager splits into.
#[derive(Clone, Copy, Debug, PartialEq, Eq, Structural)]
pub struct Settlement {
    /// Both stakes together: 2 x wager.
    pub total_pot: u64,
    /// The burned arena fee: floor(total_pot x WAGER_FEE_BPS / 10,000).
    pub fee: u64,
    /// What the winner takes home: total_pot - fee.
    pub winnings: u64,
}

/// The full pot of a matched wager: both sides' stakes.
pub open spec fn spec_total_pot(wager: u64) -> int {
    2 * wager
}

/// The arena fee in basis points of the full pot, floor division.
pub open spec fn spec_fee(wager: u64) -> int {
    (2 * wager * WAGER_FEE_BPS) / 10000
}

/// The winner's take: the pot less the fee.
pub open spec fn spec_winnings(wager: u64) -> int {
    spec_total_pot(wager) - spec_fee(wager)
}

/// Split a matched wager into pot, fee, and winnings. Fails with Overflow iff
/// doubling the wager or scaling the pot by the fee rate exceeds 64 bits —
/// impossible for a wager within the validated bounds.
pub fn settlement_amounts(wager: u64) -> (r: Result<Settlement, LobsError>)
    ensures
        (r matches Ok(_)) <==> (2 * wager <= u64::MAX && 2 * wager * WAGER_FEE_BPS <= u64::MAX),
        (match r {
            Ok(s) => {
                &&& s.total_pot == spec_total_pot(wager)
                &&& s.fee == spec_fee(wager)
                &&& s.winnings == spec_winnings(wager)
            },
            Err(e) => e == LobsError::Overflow,
        }),
{
    let total_pot = match wager.checked_mul(2) {
        Some(v) => v,
        None => {
            return Err(LobsError::Overflow);
        },
    };
    let scaled = match total_pot.checked_mul(WAGER_FEE_BPS) {
        Some(v) => v,
        None => {
            return Err(LobsError::Overflow);
        },
    };
    let fee = scaled / 10000;
    proof {
        assert(total_pot * WAGER_FEE_BPS / 10000 <= total_pot) by (nonlinear_arith);
    }
    let winnings = total_pot - fee;
    Ok(Settlement { total_pot, fee, winnings })
}

/// Wager settlement conserves the pot: winnings plus fee is exactly twice the
/// wager, for every wager within the validated bounds.
pub proof fn lemma_settlement_conservation(wager: u64)
    requires
        MIN_WAGER <= wager <= MAX_WAGER,
    ensures
        spec_winnings(wager) + spec_fee(wager) == 2 * wager,
        2 * wager <= u64::MAX && 2 * wager * WAGER_FEE_BPS <= u64::MAX,
{
}

} // verus!
