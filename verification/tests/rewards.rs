use renaissance::platform::PlatformError;
use renaissance::rewards::FanRewardsContract;
use soroban_sdk::{BytesN, Env, Symbol};

const ADMIN: u64 = 10;

fn setup() -> (Env, u64, FanRewardsContract) {
    let env = Env::default();
    let mut c = FanRewardsContract::new(env.clone());
    c.initialize(ADMIN).unwrap();
    (env, ADMIN, c)
}

fn sym(env: &Env, s: &str) -> Symbol {
    Symbol::new(env, s)
}

#[test]
fn test_upgrade_requires_two_governance_approvals() {
    let (env, admin, mut c) = setup();
    let approver_a = 200;
    let approver_b = 201;
    c.governance.platform_admin = Some(approver_a);
    c.governance.security_admin = Some(approver_b);
    c.governance.treasury_admin = Some(admin);

    let new_hash = BytesN::from_array(&env, &[7; 32]);
    assert_eq!(c.upgrade(approver_a, new_hash.clone()), Ok(false));
    let res = c.upgrade(approver_a, new_hash.clone());
    assert!(res.is_err());
}

#[test]
fn test_initialize_records_admin() {
    let (_env, admin, c) = setup();
    assert_eq!(c.get_admin(), Some(admin));
}

#[test]
fn test_double_initialize_is_rejected() {
    let env = Env::default();
    let mut c = FanRewardsContract::new(env.clone());
    let admin = ADMIN;

    c.initialize(admin).unwrap();
    let other = c.initialize(admin);
    assert!(other.is_err());
}

#[test]
fn test_award_points_increases_balance() {
    let (env, _admin, mut c) = setup();
    let user = 100;

    c.award_points(user, 100_i128, sym(&env, "watched")).unwrap();
    assert_eq!(c.get_balance(user), 100_i128);
}

#[test]
fn test_double_award_accumulates_balance() {
    // Acceptance criterion: double-award is safe (no double-spend, accumulation is correct).
    let (env, _admin, mut c) = setup();
    let user = 100;

    c.award_points(user, 100_i128, sym(&env, "watched")).unwrap();
    c.award_points(user, 250_i128, sym(&env, "shared")).unwrap();
    c.award_points(user, 50_i128, sym(&env, "referral")).unwrap();

    assert_eq!(c.get_balance(user), 400_i128);
}

#[test]
fn test_award_points_rejects_non_admin() {
    let env = Env::default();
    // Deliberately do NOT call initialize() — there is no admin.
    let mut c = FanRewardsContract::new(env.clone());
    let user = 100;

    let res = c.award_points(user, 10_i128, sym(&env, "watched"));
    assert!(res.is_err()); // Unauthorized
}

#[test]
fn test_award_points_rejects_zero_amount() {
    let (env, _admin, mut c) = setup();
    let user = 100;

    let res = c.award_points(user, 0_i128, sym(&env, "watched"));
    assert!(res.is_err()); // InvalidAmount
}

#[test]
fn test_award_points_rejects_negative_amount() {
    let (env, _admin, mut c) = setup();
    let user = 100;

    let res = c.award_points(user, -50_i128, sym(&env, "watched"));
    assert!(res.is_err()); // InvalidAmount
}

#[test]
fn test_award_points_protects_against_overflow() {
    let (env, _admin, mut c) = setup();
    let user = 100;

    // Seed the user with a value near i128::MAX, then award an amount that
    // would take the balance past it.
    let half = i128::MAX / 2 + 1; // 2 * half > i128::MAX
    c.award_points(user, half, sym(&env, "a")).unwrap();
    assert_eq!(c.get_balance(user), half);

    let res = c.award_points(user, half, sym(&env, "b"));
    assert_eq!(res, Err(PlatformError::Overflow));
    assert_eq!(c.get_balance(user), half);
}

#[test]
fn test_redeem_points_decreases_balance() {
    let (env, _admin, mut c) = setup();
    let user = 100;

    c.award_points(user, 1_000_i128, sym(&env, "watched")).unwrap();
    c.redeem_points(user, 400_i128, sym(&env, "nft_drop")).unwrap();

    assert_eq!(c.get_balance(user), 600_i128);
}

#[test]
fn test_redeem_full_balance_succeeds() {
    let (env, _admin, mut c) = setup();
    let user = 100;

    c.award_points(user, 500_i128, sym(&env, "watched")).unwrap();
    c.redeem_points(user, 500_i128, sym(&env, "nft_drop")).unwrap();

    assert_eq!(c.get_balance(user), 0_i128);
}

#[test]
fn test_negative_balance_prevented_at_redeem() {
    // Acceptance criterion: negative balance edge case.
    let (env, _admin, mut c) = setup();
    let user = 100;

    // User has never been awarded → balance is 0.
    let res = c.redeem_points(user, 1_i128, sym(&env, "nft_drop"));
    assert!(res.is_err()); // InvalidAmount (underflow)

    // Award a small balance, then try to redeem more than they hold.
    c.award_points(user, 10_i128, sym(&env, "watched")).unwrap();
    let res = c.redeem_points(user, 11_i128, sym(&env, "nft_drop"));
    assert!(res.is_err()); // InvalidAmount (underflow)

    // Balance should remain unchanged after the failed redeem.
    assert_eq!(c.get_balance(user), 10_i128);
}

#[test]
fn test_redeem_points_rejects_zero_cost() {
    let (env, _admin, mut c) = setup();
    let user = 100;

    c.award_points(user, 100_i128, sym(&env, "watched")).unwrap();
    let res = c.redeem_points(user, 0_i128, sym(&env, "nft_drop"));
    assert!(res.is_err()); // InvalidAmount
}

#[test]
fn test_redeem_points_rejects_negative_cost() {
    let (env, _admin, mut c) = setup();
    let user = 100;

    c.award_points(user, 100_i128, sym(&env, "watched")).unwrap();
    let res = c.redeem_points(user, -10_i128, sym(&env, "nft_drop"));
    assert!(res.is_err()); // InvalidAmount
}

#[test]
fn test_transfer_points_moves_balance() {
    let (env, _admin, mut c) = setup();
    let alice = 100;
    let bob = 101;

    c.award_points(alice, 1_000_i128, sym(&env, "watched")).unwrap();
    c.transfer_points(alice, bob, 350_i128).unwrap();

    assert_eq!(c.get_balance(alice), 650_i128);
    assert_eq!(c.get_balance(bob), 350_i128);
}

#[test]
fn test_transfer_rejects_zero_and_negative_amounts() {
    let (env, _admin, mut c) = setup();
    let alice = 100;
    let bob = 101;

    c.award_points(alice, 100_i128, sym(&env, "watched")).unwrap();

    assert!(c.transfer_points(alice, bob, 0_i128).is_err());
    assert!(c.transfer_points(alice, bob, -1_i128).is_err());

    // Balances unchanged after rejection.
    assert_eq!(c.get_balance(alice), 100_i128);
    assert_eq!(c.get_balance(bob), 0_i128);
}

#[test]
fn test_transfer_self_is_rejected() {
    let (env, _admin, mut c) = setup();
    let user = 100;

    c.award_points(user, 100_i128, sym(&env, "watched")).unwrap();
    let res = c.transfer_points(user, user, 10_i128);
    assert!(res.is_err()); // InvalidAmount — pointless self-transfer refused
    assert_eq!(c.get_balance(user), 100_i128);
}

#[test]
fn test_transfer_rejects_insufficient_balance() {
    let (env, _admin, mut c) = setup();
    let alice = 100;
    let bob = 101;

    c.award_points(alice, 5_i128, sym(&env, "watched")).unwrap();
    let res = c.transfer_points(alice, bob, 6_i128);
    assert!(res.is_err()); // InvalidAmount (underflow)

    assert_eq!(c.get_balance(alice), 5_i128);
    assert_eq!(c.get_balance(bob), 0_i128);
}

#[test]
fn test_award_emits_points_awarded_event() {
    let (env, _admin, mut c) = setup();
    let user = 100;

    c.award_points(user, 42_i128, sym(&env, "watched")).unwrap();

    let events = &c.events;
    assert_eq!(events.len(), 1);
    assert_eq!(events[0].topic(), "PointsAwarded");
}

#[test]
fn test_redeem_emits_points_redeemed_event() {
    let (env, _admin, mut c) = setup();
    let user = 100;

    c.award_points(user, 100_i128, sym(&env, "watched")).unwrap();
    c.redeem_points(user, 40_i128, sym(&env, "nft_drop")).unwrap();

    let events = &c.events;
    // 1 emit from award + 1 emit from redeem
    assert_eq!(events.len(), 2);
    assert_eq!(events[events.len() - 1].topic(), "PointsRedeemed");
}

#[test]
fn test_transfer_emits_points_transferred_event() {
    let (env, _admin, mut c) = setup();
    let alice = 100;
    let bob = 101;

    c.award_points(alice, 200_i128, sym(&env, "watched")).unwrap();
    c.transfer_points(alice, bob, 50_i128).unwrap();

    let events = &c.events;
    assert_eq!(events[events.len() - 1].topic(), "PointsTransferred");
}

#[test]
fn test_get_balance_returns_zero_for_unknown_user() {
    let (_env, _admin, c) = setup();
    let user = 100;
    assert_eq!(c.get_balance(user), 0_i128);
}

#[test]
fn rewards_pause_blocks_points() {
    let (env, _admin, mut c) = setup();
    c.award_points(100, 10, sym(&env, "watched")).unwrap();
    c.pause().unwrap();
    assert!(c.is_paused());
    assert_eq!(c.award_points(100, 10, sym(&env, "watched")), Err(PlatformError::Paused));
    assert_eq!(c.redeem_points(100, 1, sym(&env, "nft_drop")), Err(PlatformError::Paused));
    assert_eq!(c.transfer_points(100, 101, 1), Err(PlatformError::Paused));
    c.unpause().unwrap();
    c.redeem_points(100, 10, sym(&env, "nft_drop")).unwrap();
    assert_eq!(c.get_balance(100), 0);
}

#[test]
fn rewards_transfer_overflow_and_conservation() {
    let (env, _admin, mut c) = setup();
    c.award_points(100, 7, sym(&env, "a")).unwrap();
    c.award_points(101, i128::MAX, sym(&env, "b")).unwrap();
    assert_eq!(c.transfer_points(100, 101, 1), Err(PlatformError::Overflow));
    c.transfer_points(101, 100, 5).unwrap();
    assert_eq!(c.get_balance(100), 12);
    assert_eq!(c.get_balance(101), i128::MAX - 5);
}

#[test]
fn rewards_upgrade_completes_with_second_admin() {
    let (env, admin, mut c) = setup();
    c.governance.platform_admin = Some(200);
    let hash = BytesN::from_array(&env, &[1; 32]);
    assert_eq!(c.upgrade(admin, hash.clone()), Ok(false));
    assert_eq!(c.upgrade(200, hash.clone()), Ok(true));
    assert_eq!(c.governance.wasm_hash, Some(hash));
    assert_eq!(c.events.last().unwrap().topic(), "Upgraded");
}
