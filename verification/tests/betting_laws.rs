use renaissance::betting::{BettingEvent, Outcome, RenaissanceBettingContract};
use renaissance::platform::{PlatformError, TokenTransfer};
use soroban_sdk::{BytesN, Env};

const CONTRACT: u64 = 1;
const ADMIN: u64 = 10;
const ORACLE: u64 = 11;
const TOKEN: u64 = 12;
const NOW: u64 = 1_000_000;
const DEADLINE: u64 = NOW + 3_600;

fn contract_with_match(match_id: u64) -> RenaissanceBettingContract {
    let mut c = RenaissanceBettingContract::new(Env::default(), CONTRACT);
    c.initialize(ADMIN).unwrap();
    c.register_match(match_id, ORACLE, TOKEN, DEADLINE, NOW).unwrap();
    c
}

#[test]
fn betting_payout_rounds_toward_zero() {
    // Three winners of 100 share a losers' pool of 100: each gets 100 + 33.
    let mut c = contract_with_match(1);
    for u in [100, 101, 102] {
        c.place_bet(u, 1, Outcome::AwayWin, 100, NOW, 1_000).unwrap();
    }
    c.place_bet(103, 1, Outcome::Draw, 100, NOW, 1_000).unwrap();
    c.settle_bet(ORACLE, 1, Outcome::AwayWin).unwrap();
    let paid: i128 = [100, 101, 102].iter().map(|u| c.claim_payout(*u, 1).unwrap()).sum();
    assert_eq!(c.claim_payout(100, 1), Err(PlatformError::InternalError));
    assert_eq!(paid, 399);
    assert!(paid <= 400);
}

#[test]
fn betting_refunded_loser_is_paid_besides_the_winners() {
    // A losing stake refunded after the deadline stays in the pool that the
    // winner later shares: the contract then pays out more than its pool.
    let mut c = contract_with_match(2);
    c.place_bet(100, 2, Outcome::HomeWin, 100, NOW, 1_000).unwrap();
    c.place_bet(101, 2, Outcome::Draw, 100, NOW, 1_000).unwrap();
    c.refund_bet(101, 2, DEADLINE).unwrap();
    c.settle_bet(ORACLE, 2, Outcome::HomeWin).unwrap();
    assert_eq!(c.claim_payout(100, 2), Ok(200));
    let out: i128 = c.transfers.iter().filter(|t| t.from == CONTRACT).map(|t| t.amount).sum();
    assert_eq!(out, 300);
}

#[test]
fn betting_pools_track_stakes() {
    let mut c = contract_with_match(3);
    c.place_bet(100, 3, Outcome::HomeWin, 70, NOW, 1_000).unwrap();
    c.place_bet(101, 3, Outcome::Draw, 20, NOW, 1_000).unwrap();
    c.place_bet(102, 3, Outcome::HomeWin, 5, NOW, 1_000).unwrap();
    let stats = c.stats.get(&3).unwrap();
    assert_eq!(stats.pools.get(0), Some(75));
    assert_eq!(stats.pools.get(1), Some(20));
    assert_eq!(stats.pools.get(2), Some(0));
    assert_eq!(stats.bettors.len(), 3);
    assert_eq!(stats.bettors.get(2), Some(102));
}

#[test]
fn betting_pool_overflow_is_refused() {
    let mut c = contract_with_match(4);
    c.place_bet(100, 4, Outcome::HomeWin, i128::MAX, NOW, i128::MAX).unwrap();
    assert_eq!(c.place_bet(101, 4, Outcome::HomeWin, 1, NOW, 1), Err(PlatformError::Overflow));
    // The loser pool of the claim overflows when summing the pools.
    c.place_bet(102, 4, Outcome::Draw, 1, NOW, 1).unwrap();
    c.settle_bet(ORACLE, 4, Outcome::Draw).unwrap();
    assert_eq!(c.claim_payout(102, 4), Err(PlatformError::Overflow));
}

#[test]
fn betting_claim_of_losing_or_zero_pool_bet_is_refused() {
    let mut c = contract_with_match(5);
    c.place_bet(100, 5, Outcome::HomeWin, 10, NOW, 1_000).unwrap();
    c.settle_bet(ORACLE, 5, Outcome::Draw).unwrap();
    assert_eq!(c.claim_payout(100, 5), Err(PlatformError::InternalError));
}

#[test]
fn betting_paused_contract_refuses_bettors() {
    let mut c = contract_with_match(6);
    c.place_bet(100, 6, Outcome::HomeWin, 10, NOW, 1_000).unwrap();
    c.pause().unwrap();
    assert!(c.is_paused());
    assert_eq!(c.place_bet(101, 6, Outcome::HomeWin, 10, NOW, 1_000), Err(PlatformError::Paused));
    assert_eq!(c.settle_bet(ORACLE, 6, Outcome::HomeWin), Err(PlatformError::Paused));
    assert_eq!(c.refund_bet(100, 6, DEADLINE), Err(PlatformError::Paused));
    assert_eq!(c.claim_payout(100, 6), Err(PlatformError::Paused));
    assert_eq!(c.register_match(7, ORACLE, TOKEN, DEADLINE, NOW), Err(PlatformError::Paused));
    assert_eq!(c.set_oracle(6, 50), Err(PlatformError::Paused));
    assert!(c.get_bet(100, 6).is_none());
    assert!(c.get_match(6).is_none());
    // Pausing twice publishes one event.
    c.pause().unwrap();
    c.unpause().unwrap();
    let topics: Vec<&str> = c.events.iter().map(|e| e.topic()).collect();
    assert_eq!(topics, vec!["ContractInitialized", "MatchRegistered", "BetPlaced", "Paused", "Unpaused"]);
    assert!(c.get_bet(100, 6).is_some());
}

#[test]
fn betting_admin_operations_need_admin() {
    let mut c = RenaissanceBettingContract::new(Env::default(), CONTRACT);
    assert_eq!(c.pause(), Err(PlatformError::Unauthorized));
    assert_eq!(c.unpause(), Err(PlatformError::Unauthorized));
    assert_eq!(c.register_match(1, ORACLE, TOKEN, DEADLINE, NOW), Err(PlatformError::Unauthorized));
    assert_eq!(c.set_oracle(1, 50), Err(PlatformError::Unauthorized));
}

#[test]
fn betting_upgrade_with_two_admins_replaces_code() {
    let env = Env::default();
    let mut c = RenaissanceBettingContract::new(env.clone(), CONTRACT);
    c.initialize(ADMIN).unwrap();
    c.governance.platform_admin = Some(200);
    c.governance.security_admin = Some(201);
    let hash = BytesN::from_array(&env, &[3; 32]);
    assert_eq!(c.upgrade(300, hash.clone()), Err(PlatformError::Unauthorized));
    assert_eq!(c.upgrade(200, hash.clone()), Ok(false));
    assert!(c.governance.wasm_hash.is_none());
    assert_eq!(c.upgrade(ADMIN, hash.clone()), Ok(true));
    assert_eq!(c.governance.wasm_hash, Some(hash.clone()));
    assert_eq!(c.governance.upgrade_approvals.len(), 0);
    assert_eq!(c.events.last(), Some(&BettingEvent::Upgraded));
    // The approvals start over.
    assert_eq!(c.upgrade(200, hash), Ok(false));
}

#[test]
fn betting_refund_then_transfers_back() {
    let mut c = contract_with_match(8);
    c.place_bet(100, 8, Outcome::Draw, 40, NOW, 40).unwrap();
    c.refund_bet(100, 8, DEADLINE).unwrap();
    assert_eq!(
        c.transfers,
        vec![
            TokenTransfer { token: TOKEN, from: 100, to: CONTRACT, amount: 40 },
            TokenTransfer { token: TOKEN, from: CONTRACT, to: 100, amount: 40 },
        ]
    );
    assert_eq!(c.claim_payout(100, 8), Err(PlatformError::InternalError));
    assert_eq!(c.refund_bet(100, 8, DEADLINE), Err(PlatformError::InternalError));
}

#[test]
fn betting_outcome_indices() {
    assert_eq!(Outcome::HomeWin.index(), 0);
    assert_eq!(Outcome::Draw.index(), 1);
    assert_eq!(Outcome::AwayWin.index(), 2);
}

#[test]
fn betting_stats_take_bets_until_full() {
    let c = contract_with_match(9);
    assert!(c.can_take_bet(9, Outcome::AwayWin));
    assert!(c.can_take_bet(99, Outcome::AwayWin));
    assert!(c.governance.approvals_have_room());
}

#[test]
fn betting_winners_claims_stay_within_the_pool() {
    // Even with a losing stake refunded, the winners' claims total at most
    // the pool, and each claim returns at least its stake.
    let mut c = contract_with_match(5);
    c.place_bet(100, 5, Outcome::HomeWin, 60, NOW, 1_000).unwrap();
    c.place_bet(101, 5, Outcome::HomeWin, 40, NOW, 1_000).unwrap();
    c.place_bet(102, 5, Outcome::AwayWin, 50, NOW, 1_000).unwrap();
    c.refund_bet(102, 5, DEADLINE).unwrap();
    c.settle_bet(ORACLE, 5, Outcome::HomeWin).unwrap();
    let first = c.claim_payout(100, 5).unwrap();
    let second = c.claim_payout(101, 5).unwrap();
    assert_eq!((first, second), (90, 60));
    assert!(first >= 60 && second >= 40);
    assert!(first + second <= 150);
}
