use std::collections::HashMap;

use renaissance::betting::{Outcome, RenaissanceBettingContract};
use renaissance::platform::{PlatformError, TokenTransfer};
use soroban_sdk::{BytesN, Env};

const CONTRACT: u64 = 1;
const ADMIN: u64 = 10;
const ORACLE: u64 = 11;
const TOKEN: u64 = 12;
const START: u64 = 1_000_000;

/// A token ledger standing in for the token contract: mints, and carries
/// out the transfers that the betting contract records.
struct Ledger {
    balances: HashMap<(u64, u64), i128>,
    applied: usize,
}

impl Ledger {
    fn new() -> Ledger {
        Ledger { balances: HashMap::new(), applied: 0 }
    }

    fn mint(&mut self, token: u64, to: u64, amount: i128) {
        *self.balances.entry((token, to)).or_insert(0) += amount;
    }

    fn balance(&self, token: u64, who: u64) -> i128 {
        *self.balances.get(&(token, who)).unwrap_or(&0)
    }

    fn sync(&mut self, transfers: &[TokenTransfer]) {
        for t in &transfers[self.applied..] {
            let from = self.balance(t.token, t.from);
            assert!(from >= t.amount, "token transfer exceeds the balance");
            self.balances.insert((t.token, t.from), from - t.amount);
            self.mint(t.token, t.to, t.amount);
        }
        self.applied = transfers.len();
    }
}

struct Setup {
    env: Env,
    now: u64,
    ledger: Ledger,
}

fn setup() -> Setup {
    Setup { env: Env::default(), now: START, ledger: Ledger::new() }
}

fn initialize(s: &Setup, admin: u64) -> RenaissanceBettingContract {
    let mut c = RenaissanceBettingContract::new(s.env.clone(), CONTRACT);
    c.initialize(admin).unwrap();
    c
}

fn deadline_in(s: &Setup, seconds: u64) -> u64 {
    s.now + seconds
}

fn place(
    s: &mut Setup,
    c: &mut RenaissanceBettingContract,
    user: u64,
    match_id: u64,
    outcome: Outcome,
    amount: i128,
) -> Result<(), PlatformError> {
    let token = c.matches.get(&match_id).map(|m| m.token).unwrap_or(TOKEN);
    let balance = s.ledger.balance(token, user);
    let r = c.place_bet(user, match_id, outcome, amount, s.now, balance);
    s.ledger.sync(&c.transfers);
    r
}

fn claim(s: &mut Setup, c: &mut RenaissanceBettingContract, user: u64, match_id: u64) -> Result<i128, PlatformError> {
    let r = c.claim_payout(user, match_id);
    s.ledger.sync(&c.transfers);
    r
}

fn refund(s: &mut Setup, c: &mut RenaissanceBettingContract, user: u64, match_id: u64) -> Result<(), PlatformError> {
    let r = c.refund_bet(user, match_id, s.now);
    s.ledger.sync(&c.transfers);
    r
}

#[test]
fn test_upgrade_requires_two_governance_approvals_and_preserves_state() {
    let mut s = setup();
    let mut c = initialize(&s, ADMIN);

    let d = deadline_in(&s, 3_600);
    c.register_match(20, ORACLE, TOKEN, d, s.now).unwrap();
    let user = 100;
    s.ledger.mint(TOKEN, user, 1_000);
    place(&mut s, &mut c, user, 20, Outcome::HomeWin, 100).unwrap();

    let approver_a = 200;
    let approver_b = 201;
    c.governance.platform_admin = Some(approver_a);
    c.governance.security_admin = Some(approver_b);
    c.governance.treasury_admin = Some(ADMIN);

    let new_hash = BytesN::from_array(&s.env, &[9; 32]);
    assert_eq!(c.upgrade(approver_a, new_hash.clone()), Ok(false));
    let res = c.upgrade(approver_a, new_hash.clone());
    assert!(res.is_err());

    let match_data = c.get_match(20).unwrap();
    assert_eq!(match_data.match_id, 20u64);
    assert_eq!(match_data.oracle, ORACLE);
}

#[test]
fn test_initialize_bootstrap_admin() {
    let s = setup();
    let _c = initialize(&s, ADMIN);
}

#[test]
fn test_initialize_rejects_double_init() {
    let s = setup();
    let mut c = initialize(&s, ADMIN);
    let res = c.initialize(ADMIN);
    assert!(res.is_err());
}

#[test]
fn test_register_match_happy_path() {
    let s = setup();
    let mut c = initialize(&s, ADMIN);
    c.register_match(1, ORACLE, TOKEN, deadline_in(&s, 3_600), s.now).unwrap();
    let m = c.get_match(1).unwrap();
    assert_eq!(m.match_id, 1);
    assert_eq!(m.oracle, ORACLE);
    assert_eq!(m.deadline, deadline_in(&s, 3_600));
    assert!(!m.settled);
    assert!(m.outcome.is_none());
}

#[test]
fn test_register_match_rejects_past_deadline() {
    let s = setup();
    let mut c = initialize(&s, ADMIN);
    // before the current timestamp of 1_000_000
    let res = c.register_match(2, ORACLE, TOKEN, 500_000, s.now);
    assert!(res.is_err());
}

#[test]
fn test_register_match_rejects_duplicate_match_id() {
    let s = setup();
    let mut c = initialize(&s, ADMIN);
    c.register_match(3, ORACLE, TOKEN, deadline_in(&s, 100), s.now).unwrap();
    let res = c.register_match(3, ORACLE, TOKEN, deadline_in(&s, 200), s.now);
    assert!(res.is_err());
}

#[test]
fn test_set_oracle_updates_before_settle() {
    let s = setup();
    let mut c = initialize(&s, ADMIN);
    c.register_match(4, ORACLE, TOKEN, deadline_in(&s, 3_600), s.now).unwrap();
    let new_oracle = 300;
    c.set_oracle(4, new_oracle).unwrap();
    let m = c.get_match(4).unwrap();
    assert_eq!(m.oracle, new_oracle);
}

#[test]
fn test_place_bet_happy_path_records_bet() {
    let mut s = setup();
    let mut c = initialize(&s, ADMIN);
    c.register_match(5, ORACLE, TOKEN, deadline_in(&s, 3_600), s.now).unwrap();

    let user = 100;
    s.ledger.mint(TOKEN, user, 1_000);
    place(&mut s, &mut c, user, 5, Outcome::HomeWin, 100).unwrap();

    let bet = c.get_bet(user, 5).unwrap();
    assert_eq!(bet.amount, 100);
    assert_eq!(bet.outcome, Outcome::HomeWin);
    assert!(!bet.claimed);
    assert_eq!(bet.payout, 0);
}

#[test]
fn test_place_bet_moves_tokens_from_user_to_contract() {
    let mut s = setup();
    let mut c = initialize(&s, ADMIN);
    c.register_match(6, ORACLE, TOKEN, deadline_in(&s, 3_600), s.now).unwrap();

    let user = 100;
    s.ledger.mint(TOKEN, user, 1_000);
    place(&mut s, &mut c, user, 6, Outcome::HomeWin, 400).unwrap();

    assert_eq!(s.ledger.balance(TOKEN, user), 600);
    assert_eq!(s.ledger.balance(TOKEN, CONTRACT), 400);
}

#[test]
fn test_place_bet_rejects_zero_amount() {
    let mut s = setup();
    let mut c = initialize(&s, ADMIN);
    c.register_match(7, ORACLE, TOKEN, deadline_in(&s, 3_600), s.now).unwrap();
    let user = 100;
    s.ledger.mint(TOKEN, user, 1_000);
    let res = place(&mut s, &mut c, user, 7, Outcome::HomeWin, 0);
    match res {
        Err(e) => assert_eq!(e, PlatformError::InvalidAmount),
        _ => panic!("expected InvalidAmount contract error"),
    }
}

#[test]
fn test_place_bet_rejects_insufficient_balance() {
    let mut s = setup();
    let mut c = initialize(&s, ADMIN);
    c.register_match(8, ORACLE, TOKEN, deadline_in(&s, 3_600), s.now).unwrap();
    let user = 100;
    s.ledger.mint(TOKEN, user, 100);
    let res = place(&mut s, &mut c, user, 8, Outcome::HomeWin, 500);
    match res {
        Err(e) => assert_eq!(e, PlatformError::InsufficientBalance),
        _ => panic!("expected InsufficientBalance contract error"),
    }
}

#[test]
fn test_place_bet_rejects_after_deadline() {
    let mut s = setup();
    let mut c = initialize(&s, ADMIN);
    c.register_match(9, ORACLE, TOKEN, deadline_in(&s, 3_600), s.now).unwrap();
    let user = 100;
    s.ledger.mint(TOKEN, user, 1_000);

    s.now = deadline_in(&s, 3_600) + 1;
    let res = place(&mut s, &mut c, user, 9, Outcome::HomeWin, 100);
    match res {
        Err(e) => assert_eq!(e, PlatformError::ExpiredDeadline),
        _ => panic!("expected ExpiredDeadline contract error"),
    }
}

#[test]
fn test_place_bet_rejects_already_settled_match() {
    let mut s = setup();
    let mut c = initialize(&s, ADMIN);
    c.register_match(10, ORACLE, TOKEN, deadline_in(&s, 3_600), s.now).unwrap();
    let user_a = 100;
    s.ledger.mint(TOKEN, user_a, 1_000);
    place(&mut s, &mut c, user_a, 10, Outcome::HomeWin, 100).unwrap();
    c.settle_bet(ORACLE, 10, Outcome::HomeWin).unwrap();

    let user_b = 101;
    s.ledger.mint(TOKEN, user_b, 1_000);
    let res = place(&mut s, &mut c, user_b, 10, Outcome::Draw, 50);
    assert!(res.is_err());
}

#[test]
fn test_place_bet_rejects_double_bet_same_user() {
    let mut s = setup();
    let mut c = initialize(&s, ADMIN);
    c.register_match(11, ORACLE, TOKEN, deadline_in(&s, 3_600), s.now).unwrap();
    let user = 100;
    s.ledger.mint(TOKEN, user, 1_000);
    place(&mut s, &mut c, user, 11, Outcome::HomeWin, 100).unwrap();
    let res = place(&mut s, &mut c, user, 11, Outcome::Draw, 50);
    assert!(res.is_err());
}

#[test]
fn test_settle_bet_rejects_non_oracle() {
    let s = setup();
    let mut c = initialize(&s, ADMIN);
    c.register_match(12, ORACLE, TOKEN, deadline_in(&s, 3_600), s.now).unwrap();
    let impostor = 400;
    let res = c.settle_bet(impostor, 12, Outcome::HomeWin);
    match res {
        Err(e) => assert_eq!(e, PlatformError::Unauthorized),
        _ => panic!("expected Unauthorized contract error"),
    }
}

#[test]
fn test_settle_bet_records_outcome() {
    let mut s = setup();
    let mut c = initialize(&s, ADMIN);
    c.register_match(13, ORACLE, TOKEN, deadline_in(&s, 3_600), s.now).unwrap();
    let user = 100;
    s.ledger.mint(TOKEN, user, 1_000);
    place(&mut s, &mut c, user, 13, Outcome::Draw, 200).unwrap();
    c.settle_bet(ORACLE, 13, Outcome::Draw).unwrap();

    let m = c.get_match(13).unwrap();
    assert!(m.settled);
    assert_eq!(m.outcome, Some(Outcome::Draw));
}

#[test]
fn test_settle_bet_rejects_double_settle() {
    let mut s = setup();
    let mut c = initialize(&s, ADMIN);
    c.register_match(14, ORACLE, TOKEN, deadline_in(&s, 3_600), s.now).unwrap();
    let user = 100;
    s.ledger.mint(TOKEN, user, 1_000);
    place(&mut s, &mut c, user, 14, Outcome::HomeWin, 100).unwrap();
    c.settle_bet(ORACLE, 14, Outcome::HomeWin).unwrap();
    let res = c.settle_bet(ORACLE, 14, Outcome::Draw);
    assert!(res.is_err());
}

#[test]
fn test_set_oracle_rejects_after_settle() {
    let mut s = setup();
    let mut c = initialize(&s, ADMIN);
    c.register_match(15, ORACLE, TOKEN, deadline_in(&s, 3_600), s.now).unwrap();
    let user = 100;
    s.ledger.mint(TOKEN, user, 1_000);
    place(&mut s, &mut c, user, 15, Outcome::HomeWin, 100).unwrap();
    c.settle_bet(ORACLE, 15, Outcome::HomeWin).unwrap();

    let new_oracle = 300;
    let res = c.set_oracle(15, new_oracle);
    assert!(res.is_err());
}

#[test]
fn test_claim_payout_proportional_split_two_winners() {
    // Two winners bet HomeWin 100 each; two losers bet Draw 200 total.
    // winning_pool = 200, total_pool = 400, loser_pool = 200.
    // share per winner = 100 + (100 * 200 / 200) = 200.
    let mut s = setup();
    let mut c = initialize(&s, ADMIN);
    c.register_match(16, ORACLE, TOKEN, deadline_in(&s, 3_600), s.now).unwrap();

    let (w1, w2, l1, l2) = (100, 101, 102, 103);
    for u in [w1, w2, l1, l2] {
        s.ledger.mint(TOKEN, u, 1_000);
    }

    place(&mut s, &mut c, w1, 16, Outcome::HomeWin, 100).unwrap();
    place(&mut s, &mut c, w2, 16, Outcome::HomeWin, 100).unwrap();
    place(&mut s, &mut c, l1, 16, Outcome::Draw, 120).unwrap();
    place(&mut s, &mut c, l2, 16, Outcome::Draw, 80).unwrap();

    c.settle_bet(ORACLE, 16, Outcome::HomeWin).unwrap();

    let bal_before = s.ledger.balance(TOKEN, w1);
    let payout1 = claim(&mut s, &mut c, w1, 16).unwrap();
    assert_eq!(payout1, 200);
    assert_eq!(s.ledger.balance(TOKEN, w1), bal_before + 200);

    let payout2 = claim(&mut s, &mut c, w2, 16).unwrap();
    assert_eq!(payout2, 200);
    // w2: 1_000 mint - 100 bet + 200 payout = 1_100
    assert_eq!(s.ledger.balance(TOKEN, w2), 1_100);
}

#[test]
fn test_claim_payout_solo_winner_takes_loser_pool() {
    // Sole winner of 100 takes the entire loser pool of 300 + their 100.
    let mut s = setup();
    let mut c = initialize(&s, ADMIN);
    c.register_match(17, ORACLE, TOKEN, deadline_in(&s, 3_600), s.now).unwrap();

    let winner = 100;
    let loser = 101;
    s.ledger.mint(TOKEN, winner, 1_000);
    s.ledger.mint(TOKEN, loser, 1_000);

    place(&mut s, &mut c, winner, 17, Outcome::HomeWin, 100).unwrap();
    place(&mut s, &mut c, loser, 17, Outcome::Draw, 300).unwrap();
    c.settle_bet(ORACLE, 17, Outcome::HomeWin).unwrap();

    let payout = claim(&mut s, &mut c, winner, 17).unwrap();
    assert_eq!(payout, 400);

    // Loser cannot claim (their outcome != winning outcome).
    let res = claim(&mut s, &mut c, loser, 17);
    assert!(res.is_err());
}

#[test]
fn test_claim_payout_rejects_double_claim() {
    let mut s = setup();
    let mut c = initialize(&s, ADMIN);
    c.register_match(18, ORACLE, TOKEN, deadline_in(&s, 3_600), s.now).unwrap();

    let user = 100;
    s.ledger.mint(TOKEN, user, 1_000);
    place(&mut s, &mut c, user, 18, Outcome::HomeWin, 100).unwrap();
    c.settle_bet(ORACLE, 18, Outcome::HomeWin).unwrap();
    claim(&mut s, &mut c, user, 18).unwrap();

    let res = claim(&mut s, &mut c, user, 18);
    assert!(res.is_err());
}

#[test]
fn test_claim_payout_rejects_unsettled_match() {
    let mut s = setup();
    let mut c = initialize(&s, ADMIN);
    c.register_match(19, ORACLE, TOKEN, deadline_in(&s, 3_600), s.now).unwrap();

    let user = 100;
    s.ledger.mint(TOKEN, user, 1_000);
    place(&mut s, &mut c, user, 19, Outcome::HomeWin, 100).unwrap();

    let res = claim(&mut s, &mut c, user, 19);
    match res {
        Err(e) => assert_eq!(e, PlatformError::ExpiredDeadline),
        _ => panic!("expected ExpiredDeadline contract error"),
    }
}

#[test]
fn test_claim_payout_rejects_unknown_bet() {
    let mut s = setup();
    let mut c = initialize(&s, ADMIN);
    c.register_match(20, ORACLE, TOKEN, deadline_in(&s, 3_600), s.now).unwrap();
    c.settle_bet(ORACLE, 20, Outcome::HomeWin).unwrap();

    let user = 100;
    let res = claim(&mut s, &mut c, user, 20);
    assert!(res.is_err());
}

#[test]
fn test_refund_bet_returns_tokens_after_deadline_unsettled() {
    let mut s = setup();
    let mut c = initialize(&s, ADMIN);
    c.register_match(21, ORACLE, TOKEN, deadline_in(&s, 3_600), s.now).unwrap();

    let user = 100;
    s.ledger.mint(TOKEN, user, 1_000);
    place(&mut s, &mut c, user, 21, Outcome::HomeWin, 300).unwrap();

    s.now = deadline_in(&s, 3_600) + 60;
    refund(&mut s, &mut c, user, 21).unwrap();

    assert_eq!(s.ledger.balance(TOKEN, user), 1_000, "refund returned full bet amount");

    let bet = c.get_bet(user, 21).unwrap();
    assert!(bet.claimed);
    assert_eq!(bet.payout, 300);
}

#[test]
fn test_refund_bet_rejects_before_deadline() {
    let mut s = setup();
    let mut c = initialize(&s, ADMIN);
    c.register_match(22, ORACLE, TOKEN, deadline_in(&s, 3_600), s.now).unwrap();

    let user = 100;
    s.ledger.mint(TOKEN, user, 1_000);
    place(&mut s, &mut c, user, 22, Outcome::HomeWin, 100).unwrap();

    let res = refund(&mut s, &mut c, user, 22);
    match res {
        Err(e) => assert_eq!(e, PlatformError::ExpiredDeadline),
        _ => panic!("expected ExpiredDeadline contract error"),
    }
}

#[test]
fn test_refund_bet_rejects_after_settlement() {
    let mut s = setup();
    let mut c = initialize(&s, ADMIN);
    c.register_match(23, ORACLE, TOKEN, deadline_in(&s, 3_600), s.now).unwrap();

    let user = 100;
    s.ledger.mint(TOKEN, user, 1_000);
    place(&mut s, &mut c, user, 23, Outcome::HomeWin, 100).unwrap();
    c.settle_bet(ORACLE, 23, Outcome::HomeWin).unwrap();

    s.now = deadline_in(&s, 3_600) + 60;
    let res = refund(&mut s, &mut c, user, 23);
    assert!(res.is_err());
}

#[test]
fn test_refund_bet_rejects_unknown_bet() {
    let mut s = setup();
    let mut c = initialize(&s, ADMIN);
    c.register_match(24, ORACLE, TOKEN, deadline_in(&s, 3_600), s.now).unwrap();
    s.now = deadline_in(&s, 3_600) + 60;

    let user = 100;
    let res = refund(&mut s, &mut c, user, 24);
    assert!(res.is_err());
}

#[test]
fn test_get_bet_returns_none_for_unknown_user() {
    let s = setup();
    let mut c = initialize(&s, ADMIN);
    c.register_match(25, ORACLE, TOKEN, deadline_in(&s, 3_600), s.now).unwrap();
    let user = 100;
    assert!(c.get_bet(user, 25).is_none());
}

#[test]
fn test_get_match_returns_none_for_unknown_match() {
    let s = setup();
    let mut c = initialize(&s, ADMIN);

    // Unknown match id -> None.
    assert!(c.get_match(999).is_none());

    // Registered match id -> Some(Match).
    c.register_match(100, ORACLE, TOKEN, deadline_in(&s, 100), s.now).unwrap();
    let m = c.get_match(100).unwrap();
    assert_eq!(m.match_id, 100);
}
