use lobs::errors::LobsError;
use lobs::settle::settlement_amounts;

#[test]
fn settlement_example_values() {
    // wager 100,000,000,000 at 250 bps: total pot 200,000,000,000,
    // fee = floor(total_pot * 250 / 10,000) = 5,000,000,000,
    // winnings = 195,000,000,000.
    let s = settlement_amounts(100_000_000_000).unwrap();
    assert_eq!(s.total_pot, 200_000_000_000);
    assert_eq!(s.fee, 5_000_000_000);
    assert_eq!(s.winnings, 195_000_000_000);
}

#[test]
fn settlement_conserves_pot_across_bounds() {
    // winnings + fee == 2 * wager exactly, over the whole validated range.
    for wager in [
        100_000_000_000u64,
        100_000_000_001,
        123_456_789_123,
        999_999_999_999,
        5_000_000_000_000,
        10_000_000_000_000,
    ] {
        let s = settlement_amounts(wager).unwrap();
        assert_eq!(s.winnings + s.fee, 2 * wager);
        assert_eq!(s.total_pot, 2 * wager);
        assert_eq!(s.fee, 2 * wager / 40);
    }
}

#[test]
fn settlement_overflow_on_huge_wager() {
    // Doubling u64::MAX overflows; the pot times the fee rate overflows too.
    assert_eq!(settlement_amounts(u64::MAX), Err(LobsError::Overflow));
    assert_eq!(settlement_amounts(u64::MAX / 2), Err(LobsError::Overflow));
}

#[test]
fn settlement_minimum_amounts() {
    let s = settlement_amounts(1).unwrap();
    assert_eq!(s.total_pot, 2);
    assert_eq!(s.fee, 0);
    assert_eq!(s.winnings, 2);
}
