use renaissance::counter::CounterContract;
use renaissance::platform::{get_event_topic_by_string, PlatformError};
use renaissance::player_nft::PlayerNftContract;
use soroban_sdk::{Env, Symbol};

#[test]
fn counter_counts_from_zero() {
    let mut c = CounterContract::new();
    assert_eq!(c.get_count(), 0);
    assert_eq!(c.increment(), 1);
    assert_eq!(c.increment(), 2);
    assert_eq!(c.decrement(), 1);
    assert_eq!(c.get_count(), 1);
}

#[test]
fn counter_saturates() {
    let mut c = CounterContract { count: Some(i32::MAX) };
    assert_eq!(c.increment(), i32::MAX);
    let mut d = CounterContract { count: Some(i32::MIN) };
    assert_eq!(d.decrement(), i32::MIN);
    assert_eq!(d.increment(), i32::MIN + 1);
}

#[test]
fn counter_decrement_undoes_increment() {
    let mut c = CounterContract { count: Some(41) };
    c.increment();
    c.decrement();
    assert_eq!(c.get_count(), 41);
}

#[test]
fn player_nft_contract_name() {
    let env = Env::default();
    assert_eq!(PlayerNftContract::contract_name_text(), "player_nft");
    assert_eq!(PlayerNftContract::contract_name(&env), Symbol::new(&env, "player_nft"));
}

#[test]
fn event_topic_symbol() {
    let env = Env::default();
    assert_eq!(get_event_topic_by_string(&env, "Deposited"), Symbol::new(&env, "Deposited"));
}

#[test]
fn platform_error_codes() {
    assert_eq!(PlatformError::InternalError.code(), 1);
    assert_eq!(PlatformError::Unauthorized.code(), 2);
    assert_eq!(PlatformError::InvalidAmount.code(), 3);
    assert_eq!(PlatformError::ExpiredDeadline.code(), 4);
    assert_eq!(PlatformError::Overflow.code(), 5);
    assert_eq!(PlatformError::InsufficientBalance.code(), 6);
    assert_eq!(PlatformError::Paused.code(), 7);
}

#[test]
fn symbols_hold_their_text() {
    let env = Env::default();
    assert_eq!(PlayerNftContract::contract_name(&env).to_string(), "player_nft");
    let topic = get_event_topic_by_string(&env, "ResultFinalized");
    assert_eq!(topic.to_string(), "ResultFinalized");
    assert_ne!(topic, Symbol::new(&env, "ResultSubmitted"));
}
