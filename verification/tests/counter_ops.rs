use counter_session::counter::increment;
use counter_session::counter::initialize;
use counter_session::counter::Increment;
use counter_session::counter::Initialize;
use counter_session::gate::DenialReason;
use counter_session::keys::Pubkey;
use counter_session::session::SessionToken;

fn key(b: u8) -> Pubkey {
    Pubkey { bytes: [b; 32] }
}

#[test]
fn initialize_sets_owner_and_zero() {
    let alice = key(1);
    let counter = initialize(&Initialize { owner: alice });
    assert_eq!(counter.authority, alice);
    assert_eq!(counter.count, 0);
}

#[test]
fn direct_authority_increments() {
    let alice = key(1);
    let now: i64 = 1_000;
    let mut counter = initialize(&Initialize { owner: alice });
    assert_eq!(counter.count, 0);
    let r = increment(&mut counter, &Increment { session_token: None, signer: alice }, now);
    assert_eq!(r, Ok(()));
    assert_eq!(counter.count, 1);
    assert_eq!(counter.authority, alice);
}

#[test]
fn delegated_signer_increments_exactly_once() {
    let alice = key(1);
    let bob = key(2);
    let now: i64 = 1_000;
    let token = SessionToken { delegate: bob, target_authority: alice, valid_until: now + 3600 };
    let mut counter = initialize(&Initialize { owner: alice });
    let r = increment(&mut counter, &Increment { session_token: Some(token), signer: bob }, now);
    assert_eq!(r, Ok(()));
    assert_eq!(counter.count, 1);
    assert_eq!(counter.authority, alice);
}

#[test]
fn expired_token_leaves_counter_unchanged() {
    let alice = key(1);
    let bob = key(2);
    let now: i64 = 1_000;
    let token = SessionToken { delegate: bob, target_authority: alice, valid_until: now + 3600 };
    let mut counter = initialize(&Initialize { owner: alice });
    let later = token.valid_until + 1;
    let r = increment(&mut counter, &Increment { session_token: Some(token), signer: bob }, later);
    assert_eq!(r, Err(DenialReason::InvalidToken));
    assert_eq!(counter.count, 0);
    assert_eq!(counter.authority, alice);
}

#[test]
fn foreign_token_leaves_counter_unchanged() {
    let alice = key(1);
    let bob = key(2);
    let carol = key(3);
    let now: i64 = 1_000;
    let token = SessionToken { delegate: bob, target_authority: carol, valid_until: now + 3600 };
    let mut counter = initialize(&Initialize { owner: alice });
    let r = increment(&mut counter, &Increment { session_token: Some(token), signer: bob }, now);
    assert_eq!(r, Err(DenialReason::InvalidToken));
    assert_eq!(counter.count, 0);
    assert_eq!(counter.authority, alice);
}

#[test]
fn unrelated_signer_without_token_is_rejected() {
    let alice = key(1);
    let bob = key(2);
    let now: i64 = 1_000;
    let mut counter = initialize(&Initialize { owner: alice });
    let r = increment(&mut counter, &Increment { session_token: None, signer: bob }, now);
    assert_eq!(r, Err(DenialReason::InvalidAuthority));
    assert_eq!(counter.count, 0);
    assert_eq!(counter.authority, alice);
}

#[test]
fn increment_reaches_the_largest_count() {
    let alice = key(1);
    let now: i64 = 1_000;
    let mut counter = initialize(&Initialize { owner: alice });
    counter.count = u64::MAX - 1;
    let r = increment(&mut counter, &Increment { session_token: None, signer: alice }, now);
    assert_eq!(r, Ok(()));
    assert_eq!(counter.count, u64::MAX);
}

#[test]
fn denied_requests_repeat_identically() {
    let alice = key(1);
    let bob = key(2);
    let now: i64 = 1_000;
    let mut counter = initialize(&Initialize { owner: alice });
    let first = increment(&mut counter, &Increment { session_token: None, signer: bob }, now);
    let second = increment(&mut counter, &Increment { session_token: None, signer: bob }, now);
    assert_eq!(first, second);
    assert_eq!(counter.count, 0);
}
