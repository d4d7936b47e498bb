use renaissance::platform::{PlatformError, TokenTransfer};
use renaissance::vault::{
    PendingWithdrawal, RenaissanceVaultContract, UserBalance, VaultError, VaultEvent, ADMIN_TRANSFER_DELAY,
    EMERGENCY_WITHDRAW_DELAY,
};

const VAULT: u64 = 1;
const ADMIN: u64 = 10;
const BETTING: u64 = 11;
const ASSET: u64 = 12;
const USER: u64 = 100;

fn vault() -> RenaissanceVaultContract {
    let mut v = RenaissanceVaultContract::new(VAULT);
    v.initialize(ADMIN, BETTING).unwrap();
    v
}

#[test]
fn vault_initialize_once() {
    let mut v = vault();
    assert_eq!(v.admin, Some(ADMIN));
    assert_eq!(v.betting_contract, Some(BETTING));
    assert_eq!(v.initialize(ADMIN, BETTING), Err(PlatformError::InternalError));
}

#[test]
fn vault_set_betting_contract_needs_admin() {
    let mut fresh = RenaissanceVaultContract::new(VAULT);
    assert_eq!(fresh.set_betting_contract(20), Err(PlatformError::Unauthorized));
    let mut v = vault();
    v.set_betting_contract(20).unwrap();
    assert_eq!(v.betting_contract, Some(20));
}

#[test]
fn vault_deposit_credits_user_and_totals() {
    let mut v = vault();
    v.deposit(USER, 500, ASSET).unwrap();
    assert_eq!(v.get_user_balance(USER, ASSET), UserBalance { available: 500, locked: 0 });
    assert_eq!(v.get_vault_balance(ASSET), 500);
    assert_eq!(v.transfers, vec![TokenTransfer { token: ASSET, from: USER, to: VAULT, amount: 500 }]);
    assert_eq!(v.events[0].topic(), "Deposited");
}

#[test]
fn vault_deposit_rejects_non_positive_and_paused() {
    let mut v = vault();
    assert_eq!(v.deposit(USER, 0, ASSET), Err(VaultError::InvalidAmount));
    assert_eq!(v.deposit(USER, -5, ASSET), Err(VaultError::InvalidAmount));
    v.paused = true;
    assert_eq!(v.deposit(USER, 5, ASSET), Err(VaultError::InvalidAmount));
    assert!(v.events.is_empty());
}

#[test]
fn vault_reentrant_call_is_refused() {
    let mut v = vault();
    v.reentrancy_guard = true;
    assert_eq!(v.deposit(USER, 5, ASSET), Err(VaultError::ReentrancyDetected));
    assert_eq!(v.withdraw(USER, 5, ASSET), Err(VaultError::ReentrancyDetected));
}

#[test]
fn vault_withdraw_round_trip() {
    let mut v = vault();
    v.deposit(USER, 500, ASSET).unwrap();
    v.withdraw(USER, 500, ASSET).unwrap();
    assert_eq!(v.get_user_balance(USER, ASSET), UserBalance { available: 0, locked: 0 });
    assert_eq!(v.get_vault_balance(ASSET), 0);
    assert_eq!(v.transfers[1], TokenTransfer { token: ASSET, from: VAULT, to: USER, amount: 500 });
}

#[test]
fn vault_withdraw_rejects_insufficient() {
    let mut v = vault();
    assert_eq!(v.withdraw(USER, 1, ASSET), Err(VaultError::InsufficientBalance));
    v.deposit(USER, 10, ASSET).unwrap();
    assert_eq!(v.withdraw(USER, 11, ASSET), Err(VaultError::InsufficientBalance));
    assert_eq!(v.get_user_balance(USER, ASSET).available, 10);
}

#[test]
fn vault_lock_and_payout() {
    let mut v = vault();
    v.deposit(USER, 500, ASSET).unwrap();
    v.lock_for_bet(USER, 200, ASSET, 7).unwrap();
    assert!(v.is_locked_for_bet(7, USER, ASSET));
    assert_eq!(v.get_user_balance(USER, ASSET), UserBalance { available: 300, locked: 200 });
    assert_eq!(v.vault_balances.get(&ASSET).unwrap().total_locked, 200);
    // A second lock of the same bet is refused.
    assert_eq!(v.lock_for_bet(USER, 50, ASSET, 7), Err(VaultError::InvalidAmount));

    v.payout(USER, 350, ASSET, 7).unwrap();
    assert!(!v.is_locked_for_bet(7, USER, ASSET));
    assert_eq!(v.get_user_balance(USER, ASSET), UserBalance { available: 650, locked: 0 });
    assert_eq!(v.vault_balances.get(&ASSET).unwrap().total_locked, 0);
    assert_eq!(v.transfers.last(), Some(&TokenTransfer { token: ASSET, from: VAULT, to: USER, amount: 350 }));
    assert_eq!(v.events.last().unwrap().topic(), "PaidOut");
}

#[test]
fn vault_bet_operations_need_betting_contract() {
    let mut v = vault();
    v.deposit(USER, 500, ASSET).unwrap();
    v.betting_contract = None;
    assert_eq!(v.lock_for_bet(USER, 10, ASSET, 1), Err(VaultError::UnauthorizedBettingContract));
    assert_eq!(v.payout(USER, 10, ASSET, 1), Err(VaultError::UnauthorizedBettingContract));
}

#[test]
fn vault_payout_without_lock_is_refused() {
    let mut v = vault();
    assert_eq!(v.payout(USER, 10, ASSET, 1), Err(VaultError::BetLockNotFound));
}

#[test]
fn vault_emergency_withdraw_is_timelocked() {
    let mut v = vault();
    let now = 1_000;
    v.emergency_withdraw(ASSET, 300, 50, now).unwrap();
    assert_eq!(
        v.pending_withdrawals.get(&ASSET),
        Some(&PendingWithdrawal { to: 300, amount: 50, pending_until: now + EMERGENCY_WITHDRAW_DELAY })
    );
    assert!(v.transfers.is_empty());
    assert_eq!(v.emergency_withdraw(ASSET, 300, 50, now + 10), Err(VaultError::TimelockNotExpired));
    assert_eq!(v.emergency_withdraw(ASSET, 301, 50, now + 86_400), Err(VaultError::MismatchPendingData));
    v.emergency_withdraw(ASSET, 300, 50, now + 86_400).unwrap();
    assert!(v.pending_withdrawals.is_empty());
    assert_eq!(v.transfers, vec![TokenTransfer { token: ASSET, from: VAULT, to: 300, amount: 50 }]);
    let ev = v.events.last().unwrap();
    assert_eq!(ev.topic(), "EmergencyAction");
    assert_eq!(ev.action(), Some("emergency_withdraw"));
}

#[test]
fn vault_cancel_emergency_withdraw() {
    let mut v = vault();
    v.emergency_withdraw(ASSET, 300, 50, 1_000).unwrap();
    v.cancel_emergency_withdraw(ASSET).unwrap();
    assert!(v.pending_withdrawals.is_empty());
}

#[test]
fn vault_recover_token_refuses_tracked_assets() {
    let mut v = vault();
    v.deposit(USER, 5, ASSET).unwrap();
    assert_eq!(v.recover_token(ASSET, 300, 5), Err(VaultError::TokenIsTracked));
    v.recover_token(99, 300, 5).unwrap();
    assert_eq!(v.transfers.last(), Some(&TokenTransfer { token: 99, from: VAULT, to: 300, amount: 5 }));
    assert_eq!(v.events.last().unwrap().action(), Some("recover_token"));
    assert_eq!(VaultEvent::Deposited { user: 1, amount: 1, asset: 1 }.action(), None);
}

#[test]
fn vault_set_admin_is_timelocked() {
    let mut v = vault();
    let now = 5_000;
    v.set_admin(77, now).unwrap();
    assert_eq!(v.admin, Some(ADMIN));
    assert_eq!(v.set_admin(77, now + ADMIN_TRANSFER_DELAY - 1), Err(VaultError::TimelockNotExpired));
    assert_eq!(v.set_admin(78, now + ADMIN_TRANSFER_DELAY), Err(VaultError::MismatchPendingData));
    v.set_admin(77, now + 172_800).unwrap();
    assert_eq!(v.admin, Some(77));
    assert!(v.pending_admin.is_none());
    assert_eq!(v.events.last().unwrap().action(), Some("set_admin"));
}

#[test]
fn vault_cancel_set_admin() {
    let mut v = vault();
    v.set_admin(77, 5_000).unwrap();
    v.cancel_set_admin().unwrap();
    assert!(v.pending_admin.is_none());
    assert_eq!(v.admin, Some(ADMIN));
}

#[test]
fn vault_error_codes() {
    assert_eq!(VaultError::UnauthorizedBettingContract.code(), 200);
    assert_eq!(VaultError::InsufficientBalance.code(), 201);
    assert_eq!(VaultError::ReentrancyDetected.code(), 202);
    assert_eq!(VaultError::InvalidAmount.code(), 203);
    assert_eq!(VaultError::BetLockNotFound.code(), 204);
    assert_eq!(VaultError::TimelockNotExpired.code(), 205);
    assert_eq!(VaultError::TokenIsTracked.code(), 206);
    assert_eq!(VaultError::MismatchPendingData.code(), 207);
}

#[test]
fn vault_locked_funds_are_the_sum_of_open_locks() {
    let mut v = vault();
    let other: u64 = 101;
    v.deposit(USER, 100, ASSET).unwrap();
    v.deposit(other, 40, ASSET).unwrap();
    v.lock_for_bet(USER, 30, ASSET, 1).unwrap();
    v.lock_for_bet(USER, 20, ASSET, 2).unwrap();
    v.lock_for_bet(other, 15, ASSET, 1).unwrap();
    assert_eq!(v.get_user_balance(USER, ASSET).locked, 50);
    assert_eq!(v.get_user_balance(other, ASSET).locked, 15);
    assert_eq!(v.vault_balances[&ASSET].total_locked, 65);
    v.payout(USER, 45, ASSET, 1).unwrap();
    assert!(!v.is_locked_for_bet(1, USER, ASSET));
    assert!(v.is_locked_for_bet(2, USER, ASSET));
    assert_eq!(v.get_user_balance(USER, ASSET), UserBalance { available: 95, locked: 20 });
    assert_eq!(v.vault_balances[&ASSET].total_locked, 35);
    let open: i128 = v.locked_bets.values().sum();
    assert_eq!(open, 35);
}
