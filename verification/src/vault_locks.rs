//! The vault's lock accounting: a user's locked funds in an asset are the
//! sum of their bet locks in it, and an asset's locked total is the sum of
//! all bet locks in it, whatever sequence of operations ran.

use vstd::prelude::*;
use crate::host::AccountId;
use crate::vault::{RenaissanceVaultContract, UserBalance, VaultBalance};

verus! {

/// A bet lock's key: the match, the user and the asset.
pub type LockKey = (u64, AccountId, AccountId);

/// What the lock under `k` adds to a sum over the keys that satisfy `p`.
pub open spec fn lock_term(locks: Map<LockKey, i128>, p: spec_fn(LockKey) -> bool, k: LockKey) -> int {
    if p(k) { locks[k] as int } else { 0 }
}

/// The sum of the locks in `locks` whose key satisfies `p` (0 for a map
/// with infinitely many keys, which the vault never holds).
pub open spec fn sum_locks(locks: Map<LockKey, i128>, p: spec_fn(LockKey) -> bool) -> int
    decreases locks.dom().len(),
{
    if locks.dom().finite() && locks.dom().len() > 0 {
        let k = locks.dom().choose();
        lock_term(locks, p, k) + sum_locks(locks.remove(k), p)
    } else {
        0
    }
}

/// The locks of `user` in `asset`.
pub open spec fn of_user(user: AccountId, asset: AccountId) -> spec_fn(LockKey) -> bool {
    |k: LockKey| k.1 == user && k.2 == asset
}

/// The locks in `asset`.
pub open spec fn of_asset(asset: AccountId) -> spec_fn(LockKey) -> bool {
    |k: LockKey| k.2 == asset
}

/// Taking one lock out of a sum subtracts its term, whichever lock the
/// sum's definition picks first.
pub proof fn lemma_sum_locks_remove(locks: Map<LockKey, i128>, p: spec_fn(LockKey) -> bool, k: LockKey)
    requires
        locks.dom().finite(),
        locks.contains_key(k),
    ensures
        sum_locks(locks, p) == sum_locks(locks.remove(k), p) + lock_term(locks, p, k),
    decreases locks.dom().len(),
{
    assert(locks.dom().len() > 0) by {
        assert(locks.dom().contains(k));
    }
    let c = locks.dom().choose();
    if c != k {
        let without_c = locks.remove(c);
        let without_k = locks.remove(k);
        lemma_sum_locks_remove(without_c, p, k);
        lemma_sum_locks_remove(without_k, p, c);
        assert(without_c.remove(k) =~= without_k.remove(c));
        assert(lock_term(without_c, p, k) == lock_term(locks, p, k));
        assert(lock_term(without_k, p, c) == lock_term(locks, p, c));
    }
}

/// Adding a lock under a new key adds its term to a sum.
pub proof fn lemma_sum_locks_insert(locks: Map<LockKey, i128>, p: spec_fn(LockKey) -> bool, k: LockKey, v: i128)
    requires
        locks.dom().finite(),
        !locks.contains_key(k),
    ensures
        sum_locks(locks.insert(k, v), p) == sum_locks(locks, p) + (if p(k) { v as int } else { 0 }),
{
    let added = locks.insert(k, v);
    lemma_sum_locks_remove(added, p, k);
    assert(added.remove(k) =~= locks);
}

/// A sum over keys none of which satisfies `p` is 0.
pub proof fn lemma_sum_locks_none(locks: Map<LockKey, i128>, p: spec_fn(LockKey) -> bool)
    requires
        locks.dom().finite(),
        forall|k: LockKey| #[trigger] locks.contains_key(k) ==> !p(k),
    ensures
        sum_locks(locks, p) == 0,
    decreases locks.dom().len(),
{
    if locks.dom().len() > 0 {
        let c = locks.dom().choose();
        lemma_sum_locks_none(locks.remove(c), p);
    }
}

/// A sum of positive locks is not negative.
pub proof fn lemma_sum_locks_nonnegative(locks: Map<LockKey, i128>, p: spec_fn(LockKey) -> bool)
    requires
        locks.dom().finite(),
        forall|k: LockKey| #[trigger] locks.contains_key(k) ==> locks[k] > 0,
    ensures
        sum_locks(locks, p) >= 0,
    decreases locks.dom().len(),
{
    if locks.dom().len() > 0 {
        let c = locks.dom().choose();
        lemma_sum_locks_nonnegative(locks.remove(c), p);
    }
}

/// The vault's locks account for its locked funds: there are finitely many
/// locks, each positive and of a user and an asset that have balances;
/// each user's locked funds in an asset are the sum of their locks in it;
/// and each asset's locked total is the sum of the locks in it.
pub open spec fn locks_balance(c: &RenaissanceVaultContract) -> bool {
    let locks = c.locked_bets@;
    &&& locks.dom().finite()
    &&& forall|k: LockKey| #[trigger] locks.contains_key(k) ==> {
        &&& locks[k] > 0
        &&& c.user_balances@.contains_key((k.1, k.2))
        &&& c.vault_balances@.contains_key(k.2)
    }
    &&& forall|ua: (AccountId, AccountId)| #[trigger] c.user_balances@.contains_key(ua)
        ==> c.user_balances@[ua].locked == sum_locks(locks, of_user(ua.0, ua.1))
    &&& forall|a: AccountId| #[trigger] c.vault_balances@.contains_key(a)
        ==> c.vault_balances@[a].total_locked == sum_locks(locks, of_asset(a))
}

/// In a vault whose locks account for its locked funds, what
/// `get_user_balance` reports as locked is the sum of the user's locks in
/// the asset, the asset's locked total is the sum of all locks in it, and
/// neither is negative.
pub proof fn lemma_locked_funds_are_the_locks(c: &RenaissanceVaultContract, user: AccountId, asset: AccountId)
    requires
        locks_balance(c),
    ensures
        c.user_balance_of(user, asset).locked == sum_locks(c.locked_bets@, of_user(user, asset)),
        c.vault_balance_of(asset).total_locked == sum_locks(c.locked_bets@, of_asset(asset)),
        c.user_balance_of(user, asset).locked >= 0,
        c.vault_balance_of(asset).total_locked >= 0,
{
    let locks = c.locked_bets@;
    if !c.user_balances@.contains_key((user, asset)) {
        assert forall|k: LockKey| #[trigger] locks.contains_key(k) implies !of_user(user, asset)(k) by {
            assert(c.user_balances@.contains_key((k.1, k.2)));
        }
        lemma_sum_locks_none(locks, of_user(user, asset));
    }
    if !c.vault_balances@.contains_key(asset) {
        assert forall|k: LockKey| #[trigger] locks.contains_key(k) implies !of_asset(asset)(k) by {
            assert(c.vault_balances@.contains_key(k.2));
        }
        lemma_sum_locks_none(locks, of_asset(asset));
    }
    lemma_sum_locks_nonnegative(locks, of_user(user, asset));
    lemma_sum_locks_nonnegative(locks, of_asset(asset));
}

/// An empty vault's locks account for its locked funds.
pub proof fn lemma_empty_locks_balance(c: &RenaissanceVaultContract)
    requires
        c.user_balances@ == Map::<(AccountId, AccountId), UserBalance>::empty(),
        c.vault_balances@ == Map::<AccountId, VaultBalance>::empty(),
        c.locked_bets@ == Map::<LockKey, i128>::empty(),
    ensures
        locks_balance(c),
{
    assert(c.locked_bets@.dom() =~= Set::<LockKey>::empty());
}

/// Operations that leave balances and locks alone (initialization, a new
/// betting contract, the emergency powers, token recovery, admin transfer)
/// keep the locks accounting for the locked funds.
pub proof fn lemma_other_operations_keep_locks_balance(s0: &RenaissanceVaultContract, s1: &RenaissanceVaultContract)
    requires
        locks_balance(s0),
        s1.user_balances == s0.user_balances,
        s1.vault_balances == s0.vault_balances,
        s1.locked_bets == s0.locked_bets,
    ensures
        locks_balance(s1),
{
}

/// Deposits and withdrawals keep the locks accounting for the locked
/// funds: they leave locks and locked amounts alone, and a balance they
/// create starts with nothing locked, as no lock names it.
pub proof fn lemma_deposit_withdraw_keep_locks_balance(
    s0: &RenaissanceVaultContract,
    s1: &RenaissanceVaultContract,
    user: AccountId,
    amount: i128,
    asset: AccountId,
)
    requires
        locks_balance(s0),
        (s0.deposit_error(amount) is None && s0.deposit_post(s1, user, amount, asset))
            || (s0.withdraw_error(user, amount, asset) is None && s0.withdraw_post(s1, user, amount, asset)),
    ensures
        locks_balance(s1),
{
    lemma_locked_funds_are_the_locks(s0, user, asset);
    let locks = s1.locked_bets@;
    assert forall|k: LockKey| #[trigger] locks.contains_key(k) implies {
        &&& locks[k] > 0
        &&& s1.user_balances@.contains_key((k.1, k.2))
        &&& s1.vault_balances@.contains_key(k.2)
    } by {
        assert(s0.locked_bets@.contains_key(k));
    }
    assert forall|ua: (AccountId, AccountId)| #[trigger] s1.user_balances@.contains_key(ua)
        implies s1.user_balances@[ua].locked == sum_locks(locks, of_user(ua.0, ua.1)) by {
        if ua != (user, asset) {
            assert(s0.user_balances@.contains_key(ua));
        }
    }
    assert forall|a: AccountId| #[trigger] s1.vault_balances@.contains_key(a)
        implies s1.vault_balances@[a].total_locked == sum_locks(locks, of_asset(a)) by {
        if a != asset {
            assert(s0.vault_balances@.contains_key(a));
        }
    }
}

/// Locking a bet keeps the locks accounting for the locked funds: the new
/// lock adds its amount to the user's locked funds and to the asset's
/// locked total, and to no other sum.
pub proof fn lemma_lock_for_bet_keeps_locks_balance(
    s0: &RenaissanceVaultContract,
    s1: &RenaissanceVaultContract,
    user: AccountId,
    amount: i128,
    asset: AccountId,
    match_id: u64,
)
    requires
        locks_balance(s0),
        s0.lock_for_bet_error(user, amount, asset, match_id) is None,
        s0.lock_fits(user, amount, asset, match_id),
        s0.lock_for_bet_post(s1, user, amount, asset, match_id),
    ensures
        locks_balance(s1),
{
    let key = (match_id, user, asset);
    let l0 = s0.locked_bets@;
    let locks = s1.locked_bets@;
    assert(locks.dom() =~= l0.dom().insert(key));
    assert forall|k: LockKey| #[trigger] locks.contains_key(k) implies {
        &&& locks[k] > 0
        &&& s1.user_balances@.contains_key((k.1, k.2))
        &&& s1.vault_balances@.contains_key(k.2)
    } by {
        if k != key {
            assert(l0.contains_key(k));
        }
    }
    assert forall|ua: (AccountId, AccountId)| #[trigger] s1.user_balances@.contains_key(ua)
        implies s1.user_balances@[ua].locked == sum_locks(locks, of_user(ua.0, ua.1)) by {
        lemma_sum_locks_insert(l0, of_user(ua.0, ua.1), key, amount);
        assert(s0.user_balances@.contains_key(ua));
        assert(of_user(ua.0, ua.1)(key) == (ua == (user, asset)));
    }
    assert forall|a: AccountId| #[trigger] s1.vault_balances@.contains_key(a)
        implies s1.vault_balances@[a].total_locked == sum_locks(locks, of_asset(a)) by {
        lemma_sum_locks_insert(l0, of_asset(a), key, amount);
        assert(s0.vault_balances@.contains_key(a));
        assert(of_asset(a)(key) == (a == asset));
    }
}

/// Paying out a bet keeps the locks accounting for the locked funds: the
/// released lock leaves the winner's locked funds and the asset's locked
/// total, and no other sum.
pub proof fn lemma_payout_keeps_locks_balance(
    s0: &RenaissanceVaultContract,
    s1: &RenaissanceVaultContract,
    winner: AccountId,
    amount: i128,
    asset: AccountId,
    match_id: u64,
)
    requires
        locks_balance(s0),
        s0.payout_error(winner, amount, asset, match_id) is None,
        s0.payout_fits(winner, amount, asset, match_id),
        s0.payout_post(s1, winner, amount, asset, match_id),
    ensures
        locks_balance(s1),
{
    let key = (match_id, winner, asset);
    let l0 = s0.locked_bets@;
    let locks = s1.locked_bets@;
    assert forall|k: LockKey| #[trigger] locks.contains_key(k) implies {
        &&& locks[k] > 0
        &&& s1.user_balances@.contains_key((k.1, k.2))
        &&& s1.vault_balances@.contains_key(k.2)
    } by {
        assert(l0.contains_key(k));
    }
    assert forall|ua: (AccountId, AccountId)| #[trigger] s1.user_balances@.contains_key(ua)
        implies s1.user_balances@[ua].locked == sum_locks(locks, of_user(ua.0, ua.1)) by {
        lemma_sum_locks_remove(l0, of_user(ua.0, ua.1), key);
        assert(s0.user_balances@.contains_key(ua));
        assert(of_user(ua.0, ua.1)(key) == (ua == (winner, asset)));
    }
    assert forall|a: AccountId| #[trigger] s1.vault_balances@.contains_key(a)
        implies s1.vault_balances@[a].total_locked == sum_locks(locks, of_asset(a)) by {
        lemma_sum_locks_remove(l0, of_asset(a), key);
        assert(s0.vault_balances@.contains_key(a));
        assert(of_asset(a)(key) == (a == asset));
    }
}

} // verus!
