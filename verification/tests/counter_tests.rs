use xstream_bridge::counter::{initialize, Config, ProcessCount};
use xstream_bridge::errors::MessengerError;

#[test]
fn advance_accepts_the_next_position() {
    let mut counter = ProcessCount::new();
    assert_eq!(counter.count, 0);
    assert_eq!(counter.advance(1), Ok(1));
    assert_eq!(counter.count, 1);
    assert_eq!(counter.advance(2), Ok(2));
    assert_eq!(counter.count, 2);
}

#[test]
fn advance_rejects_any_other_claim_without_leaking() {
    let mut counter = ProcessCount::new();
    assert_eq!(counter.advance(1), Ok(1));
    // a stale claim fails and must not move the count
    assert_eq!(counter.advance(1), Err(MessengerError::InvalidDataProvided));
    assert_eq!(counter.count, 1);
    // a claim too far ahead fails and must not move the count
    assert_eq!(counter.advance(3), Err(MessengerError::InvalidDataProvided));
    assert_eq!(counter.count, 1);
    assert_eq!(counter.advance(0), Err(MessengerError::InvalidDataProvided));
    assert_eq!(counter.count, 1);
    // after the failures the correct claim still goes through
    assert_eq!(counter.advance(2), Ok(2));
    assert_eq!(counter.count, 2);
}

#[test]
fn advance_fails_at_the_maximum_instead_of_wrapping() {
    let mut counter = ProcessCount { count: 255 };
    assert_eq!(counter.advance(0), Err(MessengerError::Overflow));
    assert_eq!(counter.count, 255);
    assert_eq!(counter.advance(255), Err(MessengerError::Overflow));
    assert_eq!(counter.count, 255);
}

#[test]
fn check_does_not_move_the_counter() {
    let counter = ProcessCount { count: 7 };
    assert_eq!(counter.check(8), Ok(()));
    assert_eq!(counter.check(7), Err(MessengerError::InvalidDataProvided));
    assert_eq!(counter.count, 7);
}

#[test]
fn initialize_sets_owner_and_nonce() {
    let config: Config = initialize(vec![9u8; 32]);
    assert_eq!(config.owner, vec![9u8; 32]);
    assert_eq!(config.nonce, 1);
}
