use escrow::disk::{Room, GB};

#[test]
fn the_gate_opens_at_exactly_the_configured_amount() {
    assert_eq!(Room::decide(20 * GB, 20), Room::Enough);
    assert_eq!(
        Room::decide(20 * GB - 1, 20),
        Room::Short { available: 20 * GB - 1, required: 20 * GB }
    );
    assert_eq!(Room::decide(21 * GB, 20), Room::Enough);
}

#[test]
fn zero_lets_everything_through() {
    assert_eq!(Room::decide(0, 0), Room::Enough);
}

#[test]
fn an_absurd_setting_closes_the_gate_instead_of_wrapping() {
    assert!(!Room::decide(u64::MAX - 1, u64::MAX).is_enough());
}

#[test]
fn the_largest_setting_asks_for_every_byte() {
    assert_eq!(
        Room::decide(0, u64::MAX),
        Room::Short { available: 0, required: u64::MAX }
    );
    assert!(Room::decide(u64::MAX, u64::MAX).is_enough());
}
