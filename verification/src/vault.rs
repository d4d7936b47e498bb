//! The stake vault: users deposit tokens, the betting contract locks them
//! for bets and pays winners out, and the admin holds timelocked emergency
//! powers.

use vstd::prelude::*;
use std::collections::BTreeMap;
use crate::host::AccountId;
use crate::platform::{PlatformError, TokenTransfer};

verus! {

broadcast use vstd::laws_cmp::group_laws_cmp;

/// A user's balance of one asset.
#[derive(Clone, Copy, Debug, PartialEq, Eq, Structural)]
pub struct UserBalance {
    /// Funds that may be withdrawn or locked for bets.
    pub available: i128,
    /// Funds locked in active bets.
    pub locked: i128,
}

/// The vault's totals of one asset.
#[derive(Clone, Copy, Debug, PartialEq, Eq, Structural)]
pub struct VaultBalance {
    pub total_deposited: i128,
    pub total_locked: i128,
}

/// Errors of the vault.
#[derive(Copy, Clone, Debug, PartialEq, Eq, PartialOrd, Ord, Structural)]
pub enum VaultError {
    /// The caller is not the authorized betting contract.
    UnauthorizedBettingContract,
    /// Not enough balance for the operation.
    InsufficientBalance,
    /// A call re-entered the vault.
    ReentrancyDetected,
    /// The amount must be positive.
    InvalidAmount,
    /// No funds are locked for the bet.
    BetLockNotFound,
    /// The timelock has not expired yet.
    TimelockNotExpired,
    /// The token is tracked by the vault and cannot be recovered.
    TokenIsTracked,
    /// The request does not match the pending one.
    MismatchPendingData,
}

impl VaultError {
    /// The numeric code under which the error crosses the contract boundary.
    pub open spec fn spec_code(self) -> u32 {
        match self {
            VaultError::UnauthorizedBettingContract => 200,
            VaultError::InsufficientBalance => 201,
            VaultError::ReentrancyDetected => 202,
            VaultError::InvalidAmount => 203,
            VaultError::BetLockNotFound => 204,
            VaultError::TimelockNotExpired => 205,
            VaultError::TokenIsTracked => 206,
            VaultError::MismatchPendingData => 207,
        }
    }

    /// The numeric code of the error.
    pub fn code(&self) -> (c: u32)
        ensures
            c == self.spec_code(),
    {
        match self {
            VaultError::UnauthorizedBettingContract => 200,
            VaultError::InsufficientBalance => 201,
            VaultError::ReentrancyDetected => 202,
            VaultError::InvalidAmount => 203,
            VaultError::BetLockNotFound => 204,
            VaultError::TimelockNotExpired => 205,
            VaultError::TokenIsTracked => 206,
            VaultError::MismatchPendingData => 207,
        }
    }
}

/// A pending emergency withdrawal of an asset.
#[derive(Clone, Copy, Debug, PartialEq, Eq, Structural)]
pub struct PendingWithdrawal {
    pub to: AccountId,
    pub amount: i128,
    /// Ledger time from which the withdrawal may be carried out.
    pub pending_until: u64,
}

/// A pending transfer of the admin role.
#[derive(Clone, Copy, Debug, PartialEq, Eq, Structural)]
pub struct PendingAdminData {
    pub new_admin: AccountId,
    /// Ledger time from which the transfer may be carried out.
    pub pending_until: u64,
}

/// Seconds an emergency withdrawal waits: 24 hours.
pub const EMERGENCY_WITHDRAW_DELAY: u64 = 86_400u64;

/// Seconds an admin transfer waits: 48 hours.
pub const ADMIN_TRANSFER_DELAY: u64 = 172_800u64;

/// The events that the vault publishes.
#[derive(Clone, Copy, Debug, PartialEq, Eq, Structural)]
pub enum VaultEvent {
    Deposited { user: AccountId, amount: i128, asset: AccountId },
    Withdrawn { user: AccountId, amount: i128, asset: AccountId },
    Locked { user: AccountId, amount: i128, asset: AccountId, match_id: u64 },
    PaidOut { winner: AccountId, amount: i128, asset: AccountId, match_id: u64 },
    /// An emergency withdrawal was carried out.
    EmergencyWithdrawn { asset: AccountId, to: AccountId, amount: i128 },
    /// Tokens sent to the vault by mistake were recovered.
    TokenRecovered { asset: AccountId, to: AccountId, amount: i128 },
    /// The admin role moved to `new_admin`.
    AdminChanged { new_admin: AccountId },
}

impl VaultEvent {
    /// The topic under which the event is published.
    pub open spec fn spec_topic(self) -> Seq<char> {
        match self {
            VaultEvent::Deposited { .. } => "Deposited"@,
            VaultEvent::Withdrawn { .. } => "Withdrawn"@,
            VaultEvent::Locked { .. } => "Locked"@,
            VaultEvent::PaidOut { .. } => "PaidOut"@,
            _ => "EmergencyAction"@,
        }
    }

    /// The topic under which the event is published.
    pub fn topic(&self) -> (t: &'static str)
        ensures
            t@ == self.spec_topic(),
            crate::host::is_symbol_text(t@),
    {
        match self {
            VaultEvent::Deposited { .. } => {
                proof { reveal_strlit("Deposited"); }
                "Deposited"
            },
            VaultEvent::Withdrawn { .. } => {
                proof { reveal_strlit("Withdrawn"); }
                "Withdrawn"
            },
            VaultEvent::Locked { .. } => {
                proof { reveal_strlit("Locked"); }
                "Locked"
            },
            VaultEvent::PaidOut { .. } => {
                proof { reveal_strlit("PaidOut"); }
                "PaidOut"
            },
            _ => {
                proof { reveal_strlit("EmergencyAction"); }
                "EmergencyAction"
            },
        }
    }

    /// For the emergency events, the name of the action, which the event
    /// carries first in its data.
    pub open spec fn spec_action(self) -> Option<Seq<char>> {
        match self {
            VaultEvent::EmergencyWithdrawn { .. } => Some("emergency_withdraw"@),
            VaultEvent::TokenRecovered { .. } => Some("recover_token"@),
            VaultEvent::AdminChanged { .. } => Some("set_admin"@),
            _ => None,
        }
    }

    /// For the emergency events, the name of the action.
    pub fn action(&self) -> (a: Option<&'static str>)
        ensures
            match a {
                Some(t) => self.spec_action() == Some(t@) && crate::host::is_symbol_text(t@),
                None => self.spec_action() is None,
            },
    {
        match self {
            VaultEvent::EmergencyWithdrawn { .. } => {
                proof { reveal_strlit("emergency_withdraw"); }
                Some("emergency_withdraw")
            },
            VaultEvent::TokenRecovered { .. } => {
                proof { reveal_strlit("recover_token"); }
                Some("recover_token")
            },
            VaultEvent::AdminChanged { .. } => {
                proof { reveal_strlit("set_admin"); }
                Some("set_admin")
            },
            _ => None,
        }
    }
}

/// The vault's storage and the effects it has produced.
pub struct RenaissanceVaultContract {
    /// The vault's own account, which holds the tokens.
    pub contract_id: AccountId,
    pub admin: Option<AccountId>,
    pub paused: bool,
    /// The betting contract, the only caller of `lock_for_bet` and `payout`.
    pub betting_contract: Option<AccountId>,
    /// Set while a vault operation is under way.
    pub reentrancy_guard: bool,
    /// Balances keyed by (user, asset).
    pub user_balances: BTreeMap<(AccountId, AccountId), UserBalance>,
    /// Totals keyed by asset.
    pub vault_balances: BTreeMap<AccountId, VaultBalance>,
    /// Locked amounts keyed by (match id, user, asset).
    pub locked_bets: BTreeMap<(u64, AccountId, AccountId), i128>,
    /// Pending emergency withdrawals keyed by asset.
    pub pending_withdrawals: BTreeMap<AccountId, PendingWithdrawal>,
    pub pending_admin: Option<PendingAdminData>,
    /// Events published, oldest first.
    pub events: Vec<VaultEvent>,
    /// Token movements made, oldest first.
    pub transfers: Vec<TokenTransfer>,
}

/// The balance of `user` in `asset` in `m`: its entry, or zeros.
pub open spec fn user_balance_in(m: Map<(AccountId, AccountId), UserBalance>, user: AccountId, asset: AccountId) -> UserBalance {
    if m.contains_key((user, asset)) { m[(user, asset)] } else { UserBalance { available: 0, locked: 0 } }
}

/// Whether `v` fits in an `i128`.
pub open spec fn fits_i128(v: int) -> bool {
    i128::MIN <= v <= i128::MAX
}

impl RenaissanceVaultContract {
    /// The balance of `user` in `asset`.
    pub open spec fn user_balance_of(&self, user: AccountId, asset: AccountId) -> UserBalance {
        user_balance_in(self.user_balances@, user, asset)
    }

    /// The totals of `asset`.
    pub open spec fn vault_balance_of(&self, asset: AccountId) -> VaultBalance {
        if self.vault_balances@.contains_key(asset) {
            self.vault_balances@[asset]
        } else {
            VaultBalance { total_deposited: 0, total_locked: 0 }
        }
    }

    /// The fields that the user operations leave alone are those of `next`.
    pub open spec fn same_config(&self, next: &Self) -> bool {
        &&& next.contract_id == self.contract_id
        &&& next.admin == self.admin
        &&& next.paused == self.paused
        &&& next.betting_contract == self.betting_contract
        &&& next.reentrancy_guard == self.reentrancy_guard
        &&& next.pending_withdrawals == self.pending_withdrawals
        &&& next.pending_admin == self.pending_admin
    }

    /// A vault with empty storage.
    pub fn new(contract_id: AccountId) -> (c: Self)
        ensures
            c.contract_id == contract_id,
            c.admin is None,
            !c.paused,
            c.betting_contract is None,
            !c.reentrancy_guard,
            c.user_balances@ == Map::<(AccountId, AccountId), UserBalance>::empty(),
            c.vault_balances@ == Map::<AccountId, VaultBalance>::empty(),
            c.locked_bets@ == Map::<(u64, AccountId, AccountId), i128>::empty(),
            c.pending_withdrawals@ == Map::<AccountId, PendingWithdrawal>::empty(),
            c.pending_admin is None,
            c.events@ == Seq::<VaultEvent>::empty(),
            c.transfers@ == Seq::<TokenTransfer>::empty(),
    {
        RenaissanceVaultContract {
            contract_id,
            admin: None,
            paused: false,
            betting_contract: None,
            reentrancy_guard: false,
            user_balances: BTreeMap::new(),
            vault_balances: BTreeMap::new(),
            locked_bets: BTreeMap::new(),
            pending_withdrawals: BTreeMap::new(),
            pending_admin: None,
            events: Vec::new(),
            transfers: Vec::new(),
        }
    }

    fn user_balance(&self, user: AccountId, asset: AccountId) -> (b: UserBalance)
        ensures
            b == self.user_balance_of(user, asset),
    {
        match self.user_balances.get(&(user, asset)) {
            Some(b) => *b,
            None => UserBalance { available: 0, locked: 0 },
        }
    }

    fn vault_balance(&self, asset: AccountId) -> (b: VaultBalance)
        ensures
            b == self.vault_balance_of(asset),
    {
        match self.vault_balances.get(&asset) {
            Some(b) => *b,
            None => VaultBalance { total_deposited: 0, total_locked: 0 },
        }
    }

    // ── setup ─────────────────────────────────────────────────────────────

    /// Sets the admin and the authorized betting contract, once; the vault
    /// starts unpaused.
    pub fn initialize(&mut self, admin: AccountId, betting_contract: AccountId) -> (r: Result<(), PlatformError>)
        ensures
            match r {
                Ok(()) => {
                    &&& old(self).admin is None
                    &&& *final(self) == (RenaissanceVaultContract {
                        admin: Some(admin),
                        betting_contract: Some(betting_contract),
                        paused: false,
                        ..*old(self)
                    })
                },
                Err(e) => {
                    &&& old(self).admin is Some
                    &&& e == PlatformError::InternalError
                    &&& *final(self) == *old(self)
                },
            },
    {
        if self.admin.is_some() {
            return Err(PlatformError::InternalError);
        }
        self.admin = Some(admin);
        self.betting_contract = Some(betting_contract);
        self.paused = false;
        Ok(())
    }

    /// Replaces the authorized betting contract.
    pub fn set_betting_contract(&mut self, new_betting_contract: AccountId) -> (r: Result<(), PlatformError>)
        ensures
            match r {
                Ok(()) => {
                    &&& old(self).admin is Some
                    &&& *final(self) == (RenaissanceVaultContract {
                        betting_contract: Some(new_betting_contract),
                        ..*old(self)
                    })
                },
                Err(e) => {
                    &&& old(self).admin is None
                    &&& e == PlatformError::Unauthorized
                    &&& *final(self) == *old(self)
                },
            },
    {
        if self.admin.is_none() {
            return Err(PlatformError::Unauthorized);
        }
        self.betting_contract = Some(new_betting_contract);
        Ok(())
    }

    // ── user funds ────────────────────────────────────────────────────────

    /// The error with which `deposit` refuses, if any.
    pub open spec fn deposit_error(&self, amount: i128) -> Option<VaultError> {
        if amount <= 0 {
            Some(VaultError::InvalidAmount)
        } else if self.paused {
            Some(VaultError::InvalidAmount)
        } else if self.reentrancy_guard {
            Some(VaultError::ReentrancyDetected)
        } else {
            None
        }
    }

    /// Whether the new totals of a deposit fit in an `i128`; the vault
    /// panics on the overflow.
    pub open spec fn deposit_fits(&self, user: AccountId, amount: i128, asset: AccountId) -> bool {
        &&& fits_i128(self.user_balance_of(user, asset).available + amount)
        &&& fits_i128(self.vault_balance_of(asset).total_deposited + amount)
    }

    /// The state after an accepted `deposit`: the user's available funds
    /// and the asset's deposited total grow by `amount`, which moves from
    /// the user to the vault.
    pub open spec fn deposit_post(&self, next: &Self, user: AccountId, amount: i128, asset: AccountId) -> bool {
        let ub = self.user_balance_of(user, asset);
        let vb = self.vault_balance_of(asset);
        &&& self.same_config(next)
        &&& next.user_balances@ == self.user_balances@.insert(
            (user, asset),
            UserBalance { available: (ub.available + amount) as i128, ..ub },
        )
        &&& next.vault_balances@ == self.vault_balances@.insert(
            asset,
            VaultBalance { total_deposited: (vb.total_deposited + amount) as i128, ..vb },
        )
        &&& next.locked_bets == self.locked_bets
        &&& next.events@ == self.events@.push(VaultEvent::Deposited { user, amount, asset })
        &&& next.transfers@ == self.transfers@.push(
            TokenTransfer { token: asset, from: user, to: self.contract_id, amount },
        )
    }

    /// Deposits `amount` of `asset` from `user` into the vault.
    pub fn deposit(&mut self, user: AccountId, amount: i128, asset: AccountId) -> (r: Result<(), VaultError>)
        requires
            old(self).deposit_error(amount) is None ==> old(self).deposit_fits(user, amount, asset),
        ensures
            match r {
                Ok(()) => {
                    &&& old(self).deposit_error(amount) is None
                    &&& old(self).deposit_post(final(self), user, amount, asset)
                },
                Err(e) => {
                    &&& old(self).deposit_error(amount) == Some(e)
                    &&& *final(self) == *old(self)
                },
            },
    {
        if amount <= 0 {
            return Err(VaultError::InvalidAmount);
        }
        if self.paused {
            return Err(VaultError::InvalidAmount);
        }
        if self.reentrancy_guard {
            return Err(VaultError::ReentrancyDetected);
        }
        let ub = self.user_balance(user, asset);
        self.user_balances.insert((user, asset), UserBalance { available: ub.available + amount, ..ub });
        let vb = self.vault_balance(asset);
        self.vault_balances.insert(asset, VaultBalance { total_deposited: vb.total_deposited + amount, ..vb });
        self.events.push(VaultEvent::Deposited { user, amount, asset });
        self.transfers.push(TokenTransfer { token: asset, from: user, to: self.contract_id, amount });
        Ok(())
    }

    /// The error with which `withdraw` refuses, if any.
    pub open spec fn withdraw_error(&self, user: AccountId, amount: i128, asset: AccountId) -> Option<VaultError> {
        if amount <= 0 {
            Some(VaultError::InvalidAmount)
        } else if self.paused {
            Some(VaultError::InvalidAmount)
        } else if self.reentrancy_guard {
            Some(VaultError::ReentrancyDetected)
        } else if !self.user_balances@.contains_key((user, asset)) {
            Some(VaultError::InsufficientBalance)
        } else if self.user_balances@[(user, asset)].available < amount {
            Some(VaultError::InsufficientBalance)
        } else if !self.vault_balances@.contains_key(asset) {
            Some(VaultError::InsufficientBalance)
        } else {
            None
        }
    }

    /// The state after an accepted `withdraw`: the user's available funds
    /// and the asset's deposited total shrink by `amount`, which moves from
    /// the vault to the user.
    pub open spec fn withdraw_post(&self, next: &Self, user: AccountId, amount: i128, asset: AccountId) -> bool {
        let ub = self.user_balances@[(user, asset)];
        let vb = self.vault_balances@[asset];
        &&& self.same_config(next)
        &&& next.user_balances@ == self.user_balances@.insert(
            (user, asset),
            UserBalance { available: (ub.available - amount) as i128, ..ub },
        )
        &&& next.vault_balances@ == self.vault_balances@.insert(
            asset,
            VaultBalance { total_deposited: (vb.total_deposited - amount) as i128, ..vb },
        )
        &&& next.locked_bets == self.locked_bets
        &&& next.events@ == self.events@.push(VaultEvent::Withdrawn { user, amount, asset })
        &&& next.transfers@ == self.transfers@.push(
            TokenTransfer { token: asset, from: self.contract_id, to: user, amount },
        )
    }

    /// Withdraws `amount` of `user`'s available `asset` from the vault.
    pub fn withdraw(&mut self, user: AccountId, amount: i128, asset: AccountId) -> (r: Result<(), VaultError>)
        requires
            old(self).withdraw_error(user, amount, asset) is None
                ==> fits_i128(old(self).vault_balances@[asset].total_deposited - amount),
        ensures
            match r {
                Ok(()) => {
                    &&& old(self).withdraw_error(user, amount, asset) is None
                    &&& old(self).withdraw_post(final(self), user, amount, asset)
                },
                Err(e) => {
                    &&& old(self).withdraw_error(user, amount, asset) == Some(e)
                    &&& *final(self) == *old(self)
                },
            },
    {
        if amount <= 0 {
            return Err(VaultError::InvalidAmount);
        }
        if self.paused {
            return Err(VaultError::InvalidAmount);
        }
        if self.reentrancy_guard {
            return Err(VaultError::ReentrancyDetected);
        }
        let ub: UserBalance = match self.user_balances.get(&(user, asset)) {
            Some(b) => *b,
            None => return Err(VaultError::InsufficientBalance),
        };
        if ub.available < amount {
            return Err(VaultError::InsufficientBalance);
        }
        let vb: VaultBalance = match self.vault_balances.get(&asset) {
            Some(b) => *b,
            None => return Err(VaultError::InsufficientBalance),
        };
        self.user_balances.insert((user, asset), UserBalance { available: ub.available - amount, ..ub });
        self.vault_balances.insert(asset, VaultBalance { total_deposited: vb.total_deposited - amount, ..vb });
        self.events.push(VaultEvent::Withdrawn { user, amount, asset });
        self.transfers.push(TokenTransfer { token: asset, from: self.contract_id, to: user, amount });
        Ok(())
    }

    // ── bets ──────────────────────────────────────────────────────────────

    /// The error with which `lock_for_bet` refuses before it reaches the
    /// asset's totals, if any.
    pub open spec fn lock_for_bet_user_error(&self, user: AccountId, amount: i128, asset: AccountId, match_id: u64) -> Option<VaultError> {
        if amount <= 0 {
            Some(VaultError::InvalidAmount)
        } else if self.paused {
            Some(VaultError::InvalidAmount)
        } else if self.betting_contract is None {
            Some(VaultError::UnauthorizedBettingContract)
        } else if self.reentrancy_guard {
            Some(VaultError::ReentrancyDetected)
        } else if !self.user_balances@.contains_key((user, asset)) {
            Some(VaultError::InsufficientBalance)
        } else if self.user_balances@[(user, asset)].available < amount {
            Some(VaultError::InsufficientBalance)
        } else if self.locked_bets@.contains_key((match_id, user, asset)) {
            Some(VaultError::InvalidAmount)
        } else {
            None
        }
    }

    /// The error with which `lock_for_bet` refuses, if any.
    pub open spec fn lock_for_bet_error(&self, user: AccountId, amount: i128, asset: AccountId, match_id: u64) -> Option<VaultError> {
        if self.lock_for_bet_user_error(user, amount, asset, match_id) is Some {
            self.lock_for_bet_user_error(user, amount, asset, match_id)
        } else if !self.vault_balances@.contains_key(asset) {
            Some(VaultError::InsufficientBalance)
        } else {
            None
        }
    }

    /// Whether the new locked totals of a lock fit in an `i128`: the vault
    /// panics on the overflow of the user's, before it looks up the asset's.
    pub open spec fn lock_fits(&self, user: AccountId, amount: i128, asset: AccountId, match_id: u64) -> bool {
        &&& self.lock_for_bet_user_error(user, amount, asset, match_id) is None
            ==> fits_i128(self.user_balances@[(user, asset)].locked + amount)
        &&& self.lock_for_bet_error(user, amount, asset, match_id) is None
            ==> fits_i128(self.vault_balances@[asset].total_locked + amount)
    }

    /// The state after an accepted `lock_for_bet`: `amount` moves from the
    /// user's available to their locked funds, the lock is recorded, and
    /// the asset's locked total grows by it.
    pub open spec fn lock_for_bet_post(&self, next: &Self, user: AccountId, amount: i128, asset: AccountId, match_id: u64) -> bool {
        let ub = self.user_balances@[(user, asset)];
        let vb = self.vault_balances@[asset];
        &&& self.same_config(next)
        &&& next.locked_bets@ == self.locked_bets@.insert((match_id, user, asset), amount)
        &&& next.user_balances@ == self.user_balances@.insert(
            (user, asset),
            UserBalance { available: (ub.available - amount) as i128, locked: (ub.locked + amount) as i128 },
        )
        &&& next.vault_balances@ == self.vault_balances@.insert(
            asset,
            VaultBalance { total_locked: (vb.total_locked + amount) as i128, ..vb },
        )
        &&& next.events@ == self.events@.push(VaultEvent::Locked { user, amount, asset, match_id })
        &&& next.transfers == self.transfers
    }

    /// Locks `amount` of `user`'s available `asset` for their bet on
    /// `match_id`. Only the betting contract calls it.
    pub fn lock_for_bet(&mut self, user: AccountId, amount: i128, asset: AccountId, match_id: u64) -> (r: Result<(), VaultError>)
        requires
            old(self).lock_fits(user, amount, asset, match_id),
        ensures
            match r {
                Ok(()) => {
                    &&& old(self).lock_for_bet_error(user, amount, asset, match_id) is None
                    &&& old(self).lock_for_bet_post(final(self), user, amount, asset, match_id)
                },
                Err(e) => {
                    &&& old(self).lock_for_bet_error(user, amount, asset, match_id) == Some(e)
                    &&& *final(self) == *old(self)
                },
            },
    {
        if amount <= 0 {
            return Err(VaultError::InvalidAmount);
        }
        if self.paused {
            return Err(VaultError::InvalidAmount);
        }
        if self.betting_contract.is_none() {
            return Err(VaultError::UnauthorizedBettingContract);
        }
        if self.reentrancy_guard {
            return Err(VaultError::ReentrancyDetected);
        }
        let ub: UserBalance = match self.user_balances.get(&(user, asset)) {
            Some(b) => *b,
            None => return Err(VaultError::InsufficientBalance),
        };
        if ub.available < amount {
            return Err(VaultError::InsufficientBalance);
        }
        if self.locked_bets.contains_key(&(match_id, user, asset)) {
            return Err(VaultError::InvalidAmount);
        }
        let vb: VaultBalance = match self.vault_balances.get(&asset) {
            Some(b) => *b,
            None => return Err(VaultError::InsufficientBalance),
        };
        self.locked_bets.insert((match_id, user, asset), amount);
        self.user_balances.insert(
            (user, asset),
            UserBalance { available: ub.available - amount, locked: ub.locked + amount },
        );
        self.vault_balances.insert(asset, VaultBalance { total_locked: vb.total_locked + amount, ..vb });
        self.events.push(VaultEvent::Locked { user, amount, asset, match_id });
        Ok(())
    }

    /// The error with which `payout` refuses before it reaches the asset's
    /// totals, if any.
    pub open spec fn payout_user_error(&self, winner: AccountId, amount: i128, asset: AccountId, match_id: u64) -> Option<VaultError> {
        if amount <= 0 {
            Some(VaultError::InvalidAmount)
        } else if self.paused {
            Some(VaultError::InvalidAmount)
        } else if self.betting_contract is None {
            Some(VaultError::UnauthorizedBettingContract)
        } else if self.reentrancy_guard {
            Some(VaultError::ReentrancyDetected)
        } else if !self.locked_bets@.contains_key((match_id, winner, asset)) {
            Some(VaultError::BetLockNotFound)
        } else if !self.user_balances@.contains_key((winner, asset)) {
            Some(VaultError::InsufficientBalance)
        } else {
            None
        }
    }

    /// The error with which `payout` refuses, if any.
    pub open spec fn payout_error(&self, winner: AccountId, amount: i128, asset: AccountId, match_id: u64) -> Option<VaultError> {
        if self.payout_user_error(winner, amount, asset, match_id) is Some {
            self.payout_user_error(winner, amount, asset, match_id)
        } else if !self.vault_balances@.contains_key(asset) {
            Some(VaultError::InsufficientBalance)
        } else {
            None
        }
    }

    /// Whether the new totals of a payout fit in an `i128`: the vault
    /// panics on the overflow of the winner's, before it looks up the
    /// asset's.
    pub open spec fn payout_fits(&self, winner: AccountId, amount: i128, asset: AccountId, match_id: u64) -> bool {
        let locked = self.locked_bets@[(match_id, winner, asset)];
        &&& self.payout_user_error(winner, amount, asset, match_id) is None ==> {
            &&& fits_i128(self.user_balances@[(winner, asset)].locked - locked)
            &&& fits_i128(self.user_balances@[(winner, asset)].available + amount)
        }
        &&& self.payout_error(winner, amount, asset, match_id) is None
            ==> fits_i128(self.vault_balances@[asset].total_locked - locked)
    }

    /// The state after an accepted `payout`: the bet's lock is released
    /// from the winner's and the asset's locked funds, `amount` is added to
    /// the winner's available funds, and `amount` moves from the vault to
    /// the winner.
    pub open spec fn payout_post(&self, next: &Self, winner: AccountId, amount: i128, asset: AccountId, match_id: u64) -> bool {
        let locked = self.locked_bets@[(match_id, winner, asset)];
        let ub = self.user_balances@[(winner, asset)];
        let vb = self.vault_balances@[asset];
        &&& self.same_config(next)
        &&& next.locked_bets@ == self.locked_bets@.remove((match_id, winner, asset))
        &&& next.user_balances@ == self.user_balances@.insert(
            (winner, asset),
            UserBalance { available: (ub.available + amount) as i128, locked: (ub.locked - locked) as i128 },
        )
        &&& next.vault_balances@ == self.vault_balances@.insert(
            asset,
            VaultBalance { total_locked: (vb.total_locked - locked) as i128, ..vb },
        )
        &&& next.events@ == self.events@.push(VaultEvent::PaidOut { winner, amount, asset, match_id })
        &&& next.transfers@ == self.transfers@.push(
            TokenTransfer { token: asset, from: self.contract_id, to: winner, amount },
        )
    }

    /// Pays `amount` of `asset` to `winner` for their bet on `match_id` and
    /// releases the bet's lock. Only the betting contract calls it.
    pub fn payout(&mut self, winner: AccountId, amount: i128, asset: AccountId, match_id: u64) -> (r: Result<(), VaultError>)
        requires
            old(self).payout_fits(winner, amount, asset, match_id),
        ensures
            match r {
                Ok(()) => {
                    &&& old(self).payout_error(winner, amount, asset, match_id) is None
                    &&& old(self).payout_post(final(self), winner, amount, asset, match_id)
                },
                Err(e) => {
                    &&& old(self).payout_error(winner, amount, asset, match_id) == Some(e)
                    &&& *final(self) == *old(self)
                },
            },
    {
        if amount <= 0 {
            return Err(VaultError::InvalidAmount);
        }
        if self.paused {
            return Err(VaultError::InvalidAmount);
        }
        if self.betting_contract.is_none() {
            return Err(VaultError::UnauthorizedBettingContract);
        }
        if self.reentrancy_guard {
            return Err(VaultError::ReentrancyDetected);
        }
        let locked: i128 = match self.locked_bets.get(&(match_id, winner, asset)) {
            Some(l) => *l,
            None => return Err(VaultError::BetLockNotFound),
        };
        let ub: UserBalance = match self.user_balances.get(&(winner, asset)) {
            Some(b) => *b,
            None => return Err(VaultError::InsufficientBalance),
        };
        let vb: VaultBalance = match self.vault_balances.get(&asset) {
            Some(b) => *b,
            None => return Err(VaultError::InsufficientBalance),
        };
        self.locked_bets.remove(&(match_id, winner, asset));
        self.user_balances.insert(
            (winner, asset),
            UserBalance { available: ub.available + amount, locked: ub.locked - locked },
        );
        self.vault_balances.insert(asset, VaultBalance { total_locked: vb.total_locked - locked, ..vb });
        self.events.push(VaultEvent::PaidOut { winner, amount, asset, match_id });
        self.transfers.push(TokenTransfer { token: asset, from: self.contract_id, to: winner, amount });
        Ok(())
    }

    // ── reads ─────────────────────────────────────────────────────────────

    /// The total deposited of `asset`; 0 for an untracked asset.
    pub fn get_vault_balance(&self, asset: AccountId) -> (t: i128)
        ensures
            t == self.vault_balance_of(asset).total_deposited,
    {
        self.vault_balance(asset).total_deposited
    }

    /// The balance of `user` in `asset`; zeros for an unknown pair.
    pub fn get_user_balance(&self, user: AccountId, asset: AccountId) -> (b: UserBalance)
        ensures
            b == self.user_balance_of(user, asset),
    {
        self.user_balance(user, asset)
    }

    /// Whether funds of `user` in `asset` are locked for `match_id`.
    pub fn is_locked_for_bet(&self, match_id: u64, user: AccountId, asset: AccountId) -> (b: bool)
        ensures
            b == self.locked_bets@.contains_key((match_id, user, asset)),
    {
        self.locked_bets.contains_key(&(match_id, user, asset))
    }

    // ── admin emergency powers ────────────────────────────────────────────

    /// The error with which `emergency_withdraw` refuses, if any.
    pub open spec fn emergency_withdraw_error(&self, asset: AccountId, to: AccountId, amount: i128, now: u64) -> Option<VaultError> {
        if self.pending_withdrawals@.contains_key(asset) {
            let pending = self.pending_withdrawals@[asset];
            if pending.to != to || pending.amount != amount {
                Some(VaultError::MismatchPendingData)
            } else if now < pending.pending_until {
                Some(VaultError::TimelockNotExpired)
            } else {
                None
            }
        } else {
            None
        }
    }

    /// The state after an accepted `emergency_withdraw`: with a matching
    /// request pending and its timelock expired, `amount` moves from the
    /// vault to `to` and the request is gone; with none pending, the request
    /// is recorded, to be carried out after `EMERGENCY_WITHDRAW_DELAY`.
    pub open spec fn emergency_withdraw_post(&self, next: &Self, asset: AccountId, to: AccountId, amount: i128, now: u64) -> bool {
        &&& next.contract_id == self.contract_id
        &&& next.admin == self.admin
        &&& next.paused == self.paused
        &&& next.betting_contract == self.betting_contract
        &&& next.reentrancy_guard == self.reentrancy_guard
        &&& next.user_balances == self.user_balances
        &&& next.vault_balances == self.vault_balances
        &&& next.locked_bets == self.locked_bets
        &&& next.pending_admin == self.pending_admin
        &&& if self.pending_withdrawals@.contains_key(asset) {
            &&& next.pending_withdrawals@ == self.pending_withdrawals@.remove(asset)
            &&& next.events@ == self.events@.push(VaultEvent::EmergencyWithdrawn { asset, to, amount })
            &&& next.transfers@ == self.transfers@.push(
                TokenTransfer { token: asset, from: self.contract_id, to, amount },
            )
        } else {
            &&& next.pending_withdrawals@ == self.pending_withdrawals@.insert(
                asset,
                PendingWithdrawal { to, amount, pending_until: (now + EMERGENCY_WITHDRAW_DELAY) as u64 },
            )
            &&& next.events == self.events
            &&& next.transfers == self.transfers
        }
    }

    /// Requests, or after the timelock carries out, the withdrawal of
    /// `amount` of `asset` to `to`. `now` is the ledger time.
    pub fn emergency_withdraw(&mut self, asset: AccountId, to: AccountId, amount: i128, now: u64) -> (r: Result<(), VaultError>)
        requires
            old(self).admin is Some,
            !old(self).pending_withdrawals@.contains_key(asset) ==> now + EMERGENCY_WITHDRAW_DELAY <= u64::MAX,
        ensures
            match r {
                Ok(()) => {
                    &&& old(self).emergency_withdraw_error(asset, to, amount, now) is None
                    &&& old(self).emergency_withdraw_post(final(self), asset, to, amount, now)
                },
                Err(e) => {
                    &&& old(self).emergency_withdraw_error(asset, to, amount, now) == Some(e)
                    &&& *final(self) == *old(self)
                },
            },
    {
        let pending: Option<PendingWithdrawal> = match self.pending_withdrawals.get(&asset) {
            Some(p) => Some(*p),
            None => None,
        };
        match pending {
            Some(p) => {
                if p.to != to || p.amount != amount {
                    return Err(VaultError::MismatchPendingData);
                }
                if now < p.pending_until {
                    return Err(VaultError::TimelockNotExpired);
                }
                self.pending_withdrawals.remove(&asset);
                self.events.push(VaultEvent::EmergencyWithdrawn { asset, to, amount });
                self.transfers.push(TokenTransfer { token: asset, from: self.contract_id, to, amount });
                Ok(())
            },
            None => {
                self.pending_withdrawals.insert(
                    asset,
                    PendingWithdrawal { to, amount, pending_until: now + EMERGENCY_WITHDRAW_DELAY },
                );
                Ok(())
            },
        }
    }

    /// Cancels the pending emergency withdrawal of `asset`, if any.
    pub fn cancel_emergency_withdraw(&mut self, asset: AccountId) -> (r: Result<(), VaultError>)
        requires
            old(self).admin is Some,
        ensures
            r is Ok,
            final(self).pending_withdrawals@ == old(self).pending_withdrawals@.remove(asset),
            *final(self) == (RenaissanceVaultContract { pending_withdrawals: final(self).pending_withdrawals, ..*old(self) }),
    {
        self.pending_withdrawals.remove(&asset);
        Ok(())
    }

    /// The error with which `recover_token` refuses, if any: an asset with
    /// deposited or locked funds is tracked.
    pub open spec fn recover_token_error(&self, asset: AccountId) -> Option<VaultError> {
        if self.vault_balances@.contains_key(asset) && (self.vault_balances@[asset].total_deposited > 0
            || self.vault_balances@[asset].total_locked > 0) {
            Some(VaultError::TokenIsTracked)
        } else {
            None
        }
    }

    /// Sends `amount` of an untracked `asset`, sent to the vault by
    /// mistake, to `to`.
    pub fn recover_token(&mut self, asset: AccountId, to: AccountId, amount: i128) -> (r: Result<(), VaultError>)
        requires
            old(self).admin is Some,
        ensures
            match r {
                Ok(()) => {
                    &&& old(self).recover_token_error(asset) is None
                    &&& final(self).events@ == old(self).events@.push(VaultEvent::TokenRecovered { asset, to, amount })
                    &&& final(self).transfers@ == old(self).transfers@.push(
                        TokenTransfer { token: asset, from: old(self).contract_id, to, amount },
                    )
                    &&& *final(self) == (RenaissanceVaultContract {
                        events: final(self).events,
                        transfers: final(self).transfers,
                        ..*old(self)
                    })
                },
                Err(e) => {
                    &&& old(self).recover_token_error(asset) == Some(e)
                    &&& *final(self) == *old(self)
                },
            },
    {
        match self.vault_balances.get(&asset) {
            Some(vb) => {
                if vb.total_deposited > 0 || vb.total_locked > 0 {
                    return Err(VaultError::TokenIsTracked);
                }
            },
            None => {},
        }
        self.events.push(VaultEvent::TokenRecovered { asset, to, amount });
        self.transfers.push(TokenTransfer { token: asset, from: self.contract_id, to, amount });
        Ok(())
    }

    /// The error with which `set_admin` refuses, if any.
    pub open spec fn set_admin_error(&self, new_admin: AccountId, now: u64) -> Option<VaultError> {
        match self.pending_admin {
            Some(pending) => {
                if pending.new_admin != new_admin {
                    Some(VaultError::MismatchPendingData)
                } else if now < pending.pending_until {
                    Some(VaultError::TimelockNotExpired)
                } else {
                    None
                }
            },
            None => None,
        }
    }

    /// The state after an accepted `set_admin`: with a matching transfer
    /// pending and its timelock expired, `new_admin` becomes the admin; with
    /// none pending, the transfer is recorded, to be carried out after
    /// `ADMIN_TRANSFER_DELAY`.
    pub open spec fn set_admin_post(&self, next: &Self, new_admin: AccountId, now: u64) -> bool {
        match self.pending_admin {
            Some(_) => *next == (RenaissanceVaultContract {
                admin: Some(new_admin),
                pending_admin: None,
                events: next.events,
                ..*self
            }) && next.events@ == self.events@.push(VaultEvent::AdminChanged { new_admin }),
            None => *next == (RenaissanceVaultContract {
                pending_admin: Some(PendingAdminData {
                    new_admin,
                    pending_until: (now + ADMIN_TRANSFER_DELAY) as u64,
                }),
                ..*self
            }),
        }
    }

    /// Requests, or after the timelock carries out, the transfer of the
    /// admin role to `new_admin`. `now` is the ledger time.
    pub fn set_admin(&mut self, new_admin: AccountId, now: u64) -> (r: Result<(), VaultError>)
        requires
            old(self).admin is Some,
            old(self).pending_admin is None ==> now + ADMIN_TRANSFER_DELAY <= u64::MAX,
        ensures
            match r {
                Ok(()) => {
                    &&& old(self).set_admin_error(new_admin, now) is None
                    &&& old(self).set_admin_post(final(self), new_admin, now)
                },
                Err(e) => {
                    &&& old(self).set_admin_error(new_admin, now) == Some(e)
                    &&& *final(self) == *old(self)
                },
            },
    {
        match self.pending_admin {
            Some(p) => {
                if p.new_admin != new_admin {
                    return Err(VaultError::MismatchPendingData);
                }
                if now < p.pending_until {
                    return Err(VaultError::TimelockNotExpired);
                }
                self.admin = Some(new_admin);
                self.pending_admin = None;
                self.events.push(VaultEvent::AdminChanged { new_admin });
                Ok(())
            },
            None => {
                self.pending_admin = Some(PendingAdminData { new_admin, pending_until: now + ADMIN_TRANSFER_DELAY });
                Ok(())
            },
        }
    }

    /// Cancels the pending admin transfer, if any.
    pub fn cancel_set_admin(&mut self) -> (r: Result<(), VaultError>)
        requires
            old(self).admin is Some,
        ensures
            r is Ok,
            *final(self) == (RenaissanceVaultContract { pending_admin: None, ..*old(self) }),
    {
        self.pending_admin = None;
        Ok(())
    }
}

// ── laws ──────────────────────────────────────────────────────────────────

/// Withdrawing what was just deposited is accepted and gives the user's
/// balance and the asset's deposited total back.
pub proof fn lemma_withdraw_undoes_deposit(
    s0: RenaissanceVaultContract,
    s1: RenaissanceVaultContract,
    s2: RenaissanceVaultContract,
    user: AccountId,
    amount: i128,
    asset: AccountId,
)
    requires
        s0.user_balance_of(user, asset).available >= 0,
        s0.deposit_error(amount) is None,
        s0.deposit_fits(user, amount, asset),
        s0.deposit_post(&s1, user, amount, asset),
        s1.withdraw_post(&s2, user, amount, asset),
    ensures
        s1.withdraw_error(user, amount, asset) is None,
        s2.user_balance_of(user, asset) == s0.user_balance_of(user, asset),
        s2.vault_balance_of(asset) == s0.vault_balance_of(asset),
        s2.locked_bets == s0.locked_bets,
{
}

/// Locking moves funds from available to locked without changing the
/// user's total, records the lock, and a second lock of the same bet is
/// refused.
pub proof fn lemma_lock_moves_funds(
    s0: RenaissanceVaultContract,
    s1: RenaissanceVaultContract,
    user: AccountId,
    amount: i128,
    asset: AccountId,
    match_id: u64,
    amount2: i128,
)
    requires
        s0.lock_for_bet_error(user, amount, asset, match_id) is None,
        s0.lock_fits(user, amount, asset, match_id),
        s0.lock_for_bet_post(&s1, user, amount, asset, match_id),
    ensures
        s1.user_balance_of(user, asset).available + s1.user_balance_of(user, asset).locked
            == s0.user_balance_of(user, asset).available + s0.user_balance_of(user, asset).locked,
        s1.user_balance_of(user, asset).locked == s0.user_balance_of(user, asset).locked + amount,
        s1.locked_bets@.contains_key((match_id, user, asset)),
        s1.lock_for_bet_error(user, amount2, asset, match_id) is Some,
{
}

/// Whether no user's available funds are negative.
pub open spec fn available_nonnegative(c: &RenaissanceVaultContract) -> bool {
    forall|k: (AccountId, AccountId)| #[trigger] c.user_balances@.contains_key(k) ==> c.user_balances@[k].available >= 0
}

/// Deposits, withdrawals, locks and payouts never make available funds
/// negative.
pub proof fn lemma_available_never_negative(
    s0: RenaissanceVaultContract,
    s1: RenaissanceVaultContract,
    user: AccountId,
    amount: i128,
    asset: AccountId,
    match_id: u64,
)
    requires
        available_nonnegative(&s0),
        s0.deposit_fits(user, amount, asset),
        s0.payout_fits(user, amount, asset, match_id),
    ensures
        s0.deposit_error(amount) is None && s0.deposit_post(&s1, user, amount, asset)
            ==> available_nonnegative(&s1),
        s0.withdraw_error(user, amount, asset) is None && s0.withdraw_post(&s1, user, amount, asset)
            ==> available_nonnegative(&s1),
        s0.lock_for_bet_error(user, amount, asset, match_id) is None
            && s0.lock_for_bet_post(&s1, user, amount, asset, match_id) ==> available_nonnegative(&s1),
        s0.payout_error(user, amount, asset, match_id) is None
            && s0.payout_post(&s1, user, amount, asset, match_id) ==> available_nonnegative(&s1),
{
}

/// An emergency withdrawal waits out its timelock: once requested at
/// `now`, carrying out the same withdrawal is refused before
/// `now + EMERGENCY_WITHDRAW_DELAY` and accepted from then on, and a
/// different one is refused as a mismatch.
pub proof fn lemma_emergency_withdraw_timelock(
    s0: RenaissanceVaultContract,
    s1: RenaissanceVaultContract,
    asset: AccountId,
    to: AccountId,
    amount: i128,
    now: u64,
    later: u64,
    other_to: AccountId,
    other_amount: i128,
)
    requires
        !s0.pending_withdrawals@.contains_key(asset),
        now + EMERGENCY_WITHDRAW_DELAY <= u64::MAX,
        s0.emergency_withdraw_post(&s1, asset, to, amount, now),
    ensures
        s1.transfers == s0.transfers,
        s1.emergency_withdraw_error(asset, to, amount, later) == (if later < now + EMERGENCY_WITHDRAW_DELAY {
            Some(VaultError::TimelockNotExpired)
        } else {
            None
        }),
        other_to != to || other_amount != amount ==> s1.emergency_withdraw_error(asset, other_to, other_amount, later)
            == Some(VaultError::MismatchPendingData),
{
}

/// An admin transfer waits out its timelock: the request leaves the admin
/// unchanged; carrying out the same transfer is refused before
/// `now + ADMIN_TRANSFER_DELAY` and accepted from then on, and a transfer
/// to anyone else is refused as a mismatch.
pub proof fn lemma_admin_transfer_timelock(
    s0: RenaissanceVaultContract,
    s1: RenaissanceVaultContract,
    new_admin: AccountId,
    now: u64,
    later: u64,
    other: AccountId,
)
    requires
        s0.pending_admin is None,
        now + ADMIN_TRANSFER_DELAY <= u64::MAX,
        s0.set_admin_post(&s1, new_admin, now),
    ensures
        s1.admin == s0.admin,
        s1.set_admin_error(new_admin, later) == (if later < now + ADMIN_TRANSFER_DELAY {
            Some(VaultError::TimelockNotExpired)
        } else {
            None
        }),
        other != new_admin ==> s1.set_admin_error(other, later) == Some(VaultError::MismatchPendingData),
{
}

/// A deposit is accepted exactly when the amount is positive and the vault
/// is running and not inside another call; it then adds the amount to the
/// user's available funds and to the asset's deposited total, leaving the
/// user's locked funds and every lock alone.
pub proof fn lemma_deposit_accepted_exactly(
    s0: RenaissanceVaultContract,
    s1: RenaissanceVaultContract,
    user: AccountId,
    amount: i128,
    asset: AccountId,
)
    requires
        s0.deposit_fits(user, amount, asset),
    ensures
        s0.deposit_error(amount) is None <==> amount > 0 && !s0.paused && !s0.reentrancy_guard,
        amount <= 0 || s0.paused ==> s0.deposit_error(amount) == Some(VaultError::InvalidAmount),
        s0.deposit_error(amount) is None && s0.deposit_post(&s1, user, amount, asset) ==> {
            &&& s1.user_balance_of(user, asset).available == s0.user_balance_of(user, asset).available + amount
            &&& s1.user_balance_of(user, asset).locked == s0.user_balance_of(user, asset).locked
            &&& s1.vault_balance_of(asset).total_deposited == s0.vault_balance_of(asset).total_deposited + amount
            &&& s1.locked_bets@ == s0.locked_bets@
        },
{
}

/// A withdrawal is accepted exactly when the amount is positive, the vault
/// is running and not inside another call, the user has a balance in the
/// asset whose available funds cover the amount (all of them included), and
/// the asset is tracked; it then takes the amount off the user's available
/// funds and the asset's deposited total.
pub proof fn lemma_withdraw_accepted_exactly(
    s0: RenaissanceVaultContract,
    s1: RenaissanceVaultContract,
    user: AccountId,
    amount: i128,
    asset: AccountId,
)
    ensures
        s0.withdraw_error(user, amount, asset) is None <==> {
            &&& amount > 0
            &&& !s0.paused
            &&& !s0.reentrancy_guard
            &&& s0.user_balances@.contains_key((user, asset))
            &&& amount <= s0.user_balance_of(user, asset).available
            &&& s0.vault_balances@.contains_key(asset)
        },
        amount > 0 && !s0.paused && !s0.reentrancy_guard && amount > s0.user_balance_of(user, asset).available
            ==> s0.withdraw_error(user, amount, asset) == Some(VaultError::InsufficientBalance),
        s0.withdraw_error(user, amount, asset) is None && fits_i128(s0.vault_balances@[asset].total_deposited - amount)
            && s0.withdraw_post(&s1, user, amount, asset) ==> {
            &&& s1.user_balance_of(user, asset).available == s0.user_balance_of(user, asset).available - amount
            &&& s1.user_balance_of(user, asset).locked == s0.user_balance_of(user, asset).locked
            &&& s1.vault_balance_of(asset).total_deposited == s0.vault_balance_of(asset).total_deposited - amount
            &&& s1.locked_bets@ == s0.locked_bets@
        },
{
}

/// Locking is accepted exactly when the amount is positive, the vault is
/// running, has a betting contract and is not inside another call, the user
/// has a balance in the asset whose available funds cover the amount (all
/// of them included), the bet holds no lock yet and the asset is tracked.
/// It then moves the amount from the user's available to their locked
/// funds, records it as the bet's lock and adds it to the asset's locked
/// total.
pub proof fn lemma_lock_accepted_exactly(
    s0: RenaissanceVaultContract,
    s1: RenaissanceVaultContract,
    user: AccountId,
    amount: i128,
    asset: AccountId,
    match_id: u64,
)
    requires
        s0.lock_fits(user, amount, asset, match_id),
    ensures
        s0.lock_for_bet_error(user, amount, asset, match_id) is None <==> {
            &&& amount > 0
            &&& !s0.paused
            &&& s0.betting_contract is Some
            &&& !s0.reentrancy_guard
            &&& s0.user_balances@.contains_key((user, asset))
            &&& amount <= s0.user_balance_of(user, asset).available
            &&& !s0.locked_bets@.contains_key((match_id, user, asset))
            &&& s0.vault_balances@.contains_key(asset)
        },
        amount > 0 && !s0.paused && s0.betting_contract is Some && !s0.reentrancy_guard
            && amount > s0.user_balance_of(user, asset).available
            ==> s0.lock_for_bet_error(user, amount, asset, match_id) == Some(VaultError::InsufficientBalance),
        s0.lock_for_bet_error(user, amount, asset, match_id) is None
            && s0.lock_for_bet_post(&s1, user, amount, asset, match_id) ==> {
            &&& s1.user_balance_of(user, asset).available == s0.user_balance_of(user, asset).available - amount
            &&& s1.user_balance_of(user, asset).locked == s0.user_balance_of(user, asset).locked + amount
            &&& s1.locked_bets@.contains_key((match_id, user, asset))
            &&& s1.locked_bets@[(match_id, user, asset)] == amount
            &&& s1.vault_balance_of(asset).total_locked == s0.vault_balance_of(asset).total_locked + amount
            &&& s1.vault_balance_of(asset).total_deposited == s0.vault_balance_of(asset).total_deposited
        },
{
}

/// A payout is accepted exactly when the amount is positive, the vault is
/// running, has a betting contract and is not inside another call, the
/// winner's bet holds a lock, the winner has a balance in the asset and the
/// asset is tracked. It then releases the bet's lock from the winner's
/// locked funds and the asset's locked total, credits the amount to the
/// winner's available funds and sends the amount to the winner.
pub proof fn lemma_payout_accepted_exactly(
    s0: RenaissanceVaultContract,
    s1: RenaissanceVaultContract,
    winner: AccountId,
    amount: i128,
    asset: AccountId,
    match_id: u64,
)
    requires
        s0.payout_fits(winner, amount, asset, match_id),
    ensures
        s0.payout_error(winner, amount, asset, match_id) is None <==> {
            &&& amount > 0
            &&& !s0.paused
            &&& s0.betting_contract is Some
            &&& !s0.reentrancy_guard
            &&& s0.locked_bets@.contains_key((match_id, winner, asset))
            &&& s0.user_balances@.contains_key((winner, asset))
            &&& s0.vault_balances@.contains_key(asset)
        },
        amount > 0 && !s0.paused && s0.betting_contract is Some && !s0.reentrancy_guard
            && !s0.locked_bets@.contains_key((match_id, winner, asset))
            ==> s0.payout_error(winner, amount, asset, match_id) == Some(VaultError::BetLockNotFound),
        s0.payout_error(winner, amount, asset, match_id) is None
            && s0.payout_post(&s1, winner, amount, asset, match_id) ==> {
            let lock = s0.locked_bets@[(match_id, winner, asset)];
            &&& s1.user_balance_of(winner, asset).available == s0.user_balance_of(winner, asset).available + amount
            &&& s1.user_balance_of(winner, asset).locked == s0.user_balance_of(winner, asset).locked - lock
            &&& !s1.locked_bets@.contains_key((match_id, winner, asset))
            &&& s1.vault_balance_of(asset).total_locked == s0.vault_balance_of(asset).total_locked - lock
            &&& s1.transfers@.last() == (TokenTransfer { token: asset, from: s0.contract_id, to: winner, amount })
        },
{
}

} // verus!
