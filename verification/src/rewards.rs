//! The fan rewards contract: loyalty points that the platform admin awards
//! for engagement and that fans redeem for rewards or give to each other.

use vstd::prelude::*;
use std::collections::BTreeMap;
use crate::host::{AccountId, WasmHash, HOST_VEC_MAX_LEN};
use crate::platform::PlatformError;
use crate::governance::Governance;

verus! {

broadcast use vstd::laws_cmp::group_laws_cmp;

/// The events that the rewards contract publishes.
pub enum RewardsEvent {
    /// The contract's code was replaced by the approved WASM hash.
    Upgraded,
    Paused { admin: AccountId },
    Unpaused { admin: AccountId },
    PointsAwarded { user: AccountId, amount: i128, reason: soroban_sdk::Symbol, new_balance: i128 },
    PointsRedeemed { user: AccountId, cost: i128, reward_id: soroban_sdk::Symbol, new_balance: i128 },
    PointsTransferred { from: AccountId, to: AccountId, amount: i128, new_from_balance: i128, new_to_balance: i128 },
}

impl RewardsEvent {
    /// The topic under which the event is published.
    pub open spec fn spec_topic(&self) -> Seq<char> {
        match self {
            RewardsEvent::Upgraded => "Upgraded"@,
            RewardsEvent::Paused { .. } => "Paused"@,
            RewardsEvent::Unpaused { .. } => "Unpaused"@,
            RewardsEvent::PointsAwarded { .. } => "PointsAwarded"@,
            RewardsEvent::PointsRedeemed { .. } => "PointsRedeemed"@,
            RewardsEvent::PointsTransferred { .. } => "PointsTransferred"@,
        }
    }

    /// The topic under which the event is published.
    pub fn topic(&self) -> (t: &'static str)
        ensures
            t@ == self.spec_topic(),
            crate::host::is_symbol_text(t@),
    {
        match self {
            RewardsEvent::Upgraded => {
                proof { reveal_strlit("Upgraded"); }
                "Upgraded"
            },
            RewardsEvent::Paused { .. } => {
                proof { reveal_strlit("Paused"); }
                "Paused"
            },
            RewardsEvent::Unpaused { .. } => {
                proof { reveal_strlit("Unpaused"); }
                "Unpaused"
            },
            RewardsEvent::PointsAwarded { .. } => {
                proof { reveal_strlit("PointsAwarded"); }
                "PointsAwarded"
            },
            RewardsEvent::PointsRedeemed { .. } => {
                proof { reveal_strlit("PointsRedeemed"); }
                "PointsRedeemed"
            },
            RewardsEvent::PointsTransferred { .. } => {
                proof { reveal_strlit("PointsTransferred"); }
                "PointsTransferred"
            },
        }
    }
}

/// The rewards contract's storage and the events it has published.
pub struct FanRewardsContract {
    pub env: soroban_sdk::Env,
    /// The platform admin, the only account that may award points.
    pub admin: Option<AccountId>,
    pub paused: bool,
    pub governance: Governance,
    /// Point balances; an account with no entry holds 0.
    pub balances: BTreeMap<AccountId, i128>,
    /// Events published, oldest first.
    pub events: Vec<RewardsEvent>,
}

/// The balance of `user` in `balances`: its entry, or 0.
pub open spec fn balance_in(balances: Map<AccountId, i128>, user: AccountId) -> int {
    if balances.contains_key(user) { balances[user] as int } else { 0 }
}

impl FanRewardsContract {
    /// The point balance of `user`.
    pub open spec fn balance_of(&self, user: AccountId) -> int {
        balance_in(self.balances@, user)
    }

    /// Everything but the balances and the events is that of `next`.
    pub open spec fn same_config(&self, next: &Self) -> bool {
        &&& next.env == self.env
        &&& next.admin == self.admin
        &&& next.paused == self.paused
        &&& next.governance == self.governance
    }

    /// A contract with empty storage.
    pub fn new(env: soroban_sdk::Env) -> (c: Self)
        ensures
            c.env == env,
            c.admin is None,
            !c.paused,
            c.governance.platform_admin is None,
            c.governance.security_admin is None,
            c.governance.treasury_admin is None,
            c.governance.approvals() == Seq::<AccountId>::empty(),
            c.governance.wasm_hash is None,
            c.balances@ == Map::<AccountId, i128>::empty(),
            c.events@ == Seq::<RewardsEvent>::empty(),
    {
        let governance = Governance::empty(&env);
        FanRewardsContract {
            env,
            admin: None,
            paused: false,
            governance,
            balances: BTreeMap::new(),
            events: Vec::new(),
        }
    }

    fn balance(&self, user: AccountId) -> (b: i128)
        ensures
            b == self.balance_of(user),
    {
        match self.balances.get(&user) {
            Some(b) => *b,
            None => 0,
        }
    }

    // ── admin and governance ──────────────────────────────────────────────

    /// Designates the platform admin, once; the admin also takes the three
    /// governance roles, and the contract starts unpaused.
    pub fn initialize(&mut self, admin: AccountId) -> (r: Result<(), PlatformError>)
        ensures
            match r {
                Ok(()) => {
                    &&& old(self).admin is None
                    &&& final(self).admin == Some(admin)
                    &&& !final(self).paused
                    &&& final(self).governance.platform_admin == Some(admin)
                    &&& final(self).governance.security_admin == Some(admin)
                    &&& final(self).governance.treasury_admin == Some(admin)
                    &&& final(self).governance.upgrade_approvals == old(self).governance.upgrade_approvals
                    &&& final(self).governance.wasm_hash == old(self).governance.wasm_hash
                    &&& final(self).env == old(self).env
                    &&& final(self).balances == old(self).balances
                    &&& final(self).events == old(self).events
                },
                Err(e) => {
                    &&& old(self).admin is Some
                    &&& e == PlatformError::InternalError
                    &&& *final(self) == *old(self)
                },
            },
    {
        if self.admin.is_some() {
            return Err(PlatformError::InternalError);
        }
        self.admin = Some(admin);
        self.governance.platform_admin = Some(admin);
        self.governance.security_admin = Some(admin);
        self.governance.treasury_admin = Some(admin);
        self.paused = false;
        Ok(())
    }

    /// Records the approval of governance admin `caller` for upgrading to
    /// `hash`; the second distinct approval replaces the contract's code.
    /// Returns whether the code is to be replaced now.
    pub fn upgrade(&mut self, caller: AccountId, hash: WasmHash) -> (r: Result<bool, PlatformError>)
        requires
            old(self).governance.approvals().len() < HOST_VEC_MAX_LEN,
        ensures
            match r {
                Ok(done) => {
                    &&& old(self).governance.upgrade_error(caller) is None
                    &&& done == old(self).governance.upgrade_completes(caller)
                    &&& old(self).governance.upgrade_post(&final(self).governance, caller, hash)
                    &&& final(self).env == old(self).env
                    &&& final(self).admin == old(self).admin
                    &&& final(self).paused == old(self).paused
                    &&& final(self).balances == old(self).balances
                    &&& final(self).events@ == (if done {
                        old(self).events@.push(RewardsEvent::Upgraded)
                    } else {
                        old(self).events@
                    })
                },
                Err(e) => {
                    &&& old(self).governance.upgrade_error(caller) == Some(e)
                    &&& *final(self) == *old(self)
                },
            },
    {
        let r = self.governance.upgrade(&self.env, caller, hash);
        if let Ok(true) = r {
            self.events.push(RewardsEvent::Upgraded);
        }
        r
    }

    /// Pauses the contract. Pausing a paused contract changes nothing.
    pub fn pause(&mut self) -> (r: Result<(), PlatformError>)
        ensures
            match r {
                Ok(()) => {
                    &&& old(self).admin is Some
                    &&& if old(self).paused {
                        *final(self) == *old(self)
                    } else {
                        &&& final(self).paused
                        &&& final(self).env == old(self).env
                        &&& final(self).admin == old(self).admin
                        &&& final(self).governance == old(self).governance
                        &&& final(self).balances == old(self).balances
                        &&& final(self).events@ == old(self).events@.push(
                            RewardsEvent::Paused { admin: old(self).admin->0 },
                        )
                    }
                },
                Err(e) => {
                    &&& old(self).admin is None
                    &&& e == PlatformError::Unauthorized
                    &&& *final(self) == *old(self)
                },
            },
    {
        let admin = match self.admin {
            Some(a) => a,
            None => return Err(PlatformError::Unauthorized),
        };
        if self.paused {
            return Ok(());
        }
        self.paused = true;
        self.events.push(RewardsEvent::Paused { admin });
        Ok(())
    }

    /// Unpauses the contract.
    pub fn unpause(&mut self) -> (r: Result<(), PlatformError>)
        ensures
            match r {
                Ok(()) => {
                    &&& old(self).admin is Some
                    &&& !final(self).paused
                    &&& final(self).env == old(self).env
                    &&& final(self).admin == old(self).admin
                    &&& final(self).governance == old(self).governance
                    &&& final(self).balances == old(self).balances
                    &&& final(self).events@ == old(self).events@.push(
                        RewardsEvent::Unpaused { admin: old(self).admin->0 },
                    )
                },
                Err(e) => {
                    &&& old(self).admin is None
                    &&& e == PlatformError::Unauthorized
                    &&& *final(self) == *old(self)
                },
            },
    {
        let admin = match self.admin {
            Some(a) => a,
            None => return Err(PlatformError::Unauthorized),
        };
        self.paused = false;
        self.events.push(RewardsEvent::Unpaused { admin });
        Ok(())
    }

    /// Whether the contract is paused.
    pub fn is_paused(&self) -> (p: bool)
        ensures
            p == self.paused,
    {
        self.paused
    }

    /// The platform admin, if one was designated.
    pub fn get_admin(&self) -> (a: Option<AccountId>)
        ensures
            a == self.admin,
    {
        self.admin
    }

    // ── points ────────────────────────────────────────────────────────────

    /// The error with which `award_points` refuses, if any.
    pub open spec fn award_points_error(&self, user: AccountId, amount: i128) -> Option<PlatformError> {
        if self.paused {
            Some(PlatformError::Paused)
        } else if self.admin is None {
            Some(PlatformError::Unauthorized)
        } else if amount <= 0 {
            Some(PlatformError::InvalidAmount)
        } else if self.balance_of(user) + amount > i128::MAX {
            Some(PlatformError::Overflow)
        } else {
            None
        }
    }

    /// The state after an accepted `award_points`: `user`'s balance grows by
    /// `amount`.
    pub open spec fn award_points_post(&self, next: &Self, user: AccountId, amount: i128, reason: soroban_sdk::Symbol) -> bool {
        let new_balance = (self.balance_of(user) + amount) as i128;
        &&& self.same_config(next)
        &&& next.balances@ == self.balances@.insert(user, new_balance)
        &&& next.events@ == self.events@.push(
            RewardsEvent::PointsAwarded { user, amount, reason, new_balance },
        )
    }

    /// Awards `amount` points to `user` for the activity `reason`.
    pub fn award_points(&mut self, user: AccountId, amount: i128, reason: soroban_sdk::Symbol) -> (r: Result<(), PlatformError>)
        ensures
            match r {
                Ok(()) => {
                    &&& old(self).award_points_error(user, amount) is None
                    &&& old(self).award_points_post(final(self), user, amount, reason)
                },
                Err(e) => {
                    &&& old(self).award_points_error(user, amount) == Some(e)
                    &&& *final(self) == *old(self)
                },
            },
    {
        if self.paused {
            return Err(PlatformError::Paused);
        }
        if self.admin.is_none() {
            return Err(PlatformError::Unauthorized);
        }
        if amount <= 0 {
            return Err(PlatformError::InvalidAmount);
        }
        let current = self.balance(user);
        let new_balance: i128 = match current.checked_add(amount) {
            Some(b) => b,
            None => return Err(PlatformError::Overflow),
        };
        self.balances.insert(user, new_balance);
        self.events.push(RewardsEvent::PointsAwarded { user, amount, reason, new_balance });
        Ok(())
    }

    /// The error with which `redeem_points` refuses, if any: a cost that is
    /// not positive or exceeds the balance is an invalid amount.
    pub open spec fn redeem_points_error(&self, user: AccountId, cost: i128) -> Option<PlatformError> {
        if self.paused {
            Some(PlatformError::Paused)
        } else if cost <= 0 {
            Some(PlatformError::InvalidAmount)
        } else if cost > self.balance_of(user) {
            Some(PlatformError::InvalidAmount)
        } else {
            None
        }
    }

    /// The state after an accepted `redeem_points`: `user`'s balance shrinks
    /// by `cost`.
    pub open spec fn redeem_points_post(&self, next: &Self, user: AccountId, cost: i128, reward_id: soroban_sdk::Symbol) -> bool {
        let new_balance = (self.balance_of(user) - cost) as i128;
        &&& self.same_config(next)
        &&& next.balances@ == self.balances@.insert(user, new_balance)
        &&& next.events@ == self.events@.push(
            RewardsEvent::PointsRedeemed { user, cost, reward_id, new_balance },
        )
    }

    /// Spends `cost` of `user`'s points on the reward `reward_id`.
    pub fn redeem_points(&mut self, user: AccountId, cost: i128, reward_id: soroban_sdk::Symbol) -> (r: Result<(), PlatformError>)
        ensures
            match r {
                Ok(()) => {
                    &&& old(self).redeem_points_error(user, cost) is None
                    &&& old(self).redeem_points_post(final(self), user, cost, reward_id)
                },
                Err(e) => {
                    &&& old(self).redeem_points_error(user, cost) == Some(e)
                    &&& *final(self) == *old(self)
                },
            },
    {
        if self.paused {
            return Err(PlatformError::Paused);
        }
        if cost <= 0 {
            return Err(PlatformError::InvalidAmount);
        }
        let current = self.balance(user);
        if cost > current {
            return Err(PlatformError::InvalidAmount);
        }
        let new_balance = current - cost;
        self.balances.insert(user, new_balance);
        self.events.push(RewardsEvent::PointsRedeemed { user, cost, reward_id, new_balance });
        Ok(())
    }

    /// The error with which `transfer_points` refuses, if any.
    pub open spec fn transfer_points_error(&self, from: AccountId, to: AccountId, amount: i128) -> Option<PlatformError> {
        if self.paused {
            Some(PlatformError::Paused)
        } else if amount <= 0 {
            Some(PlatformError::InvalidAmount)
        } else if from == to {
            Some(PlatformError::InvalidAmount)
        } else if amount > self.balance_of(from) {
            Some(PlatformError::InvalidAmount)
        } else if self.balance_of(to) + amount > i128::MAX {
            Some(PlatformError::Overflow)
        } else {
            None
        }
    }

    /// The state after an accepted `transfer_points`: `amount` points move
    /// from `from` to `to`.
    pub open spec fn transfer_points_post(&self, next: &Self, from: AccountId, to: AccountId, amount: i128) -> bool {
        let new_from = (self.balance_of(from) - amount) as i128;
        let new_to = (self.balance_of(to) + amount) as i128;
        &&& self.same_config(next)
        &&& next.balances@ == self.balances@.insert(from, new_from).insert(to, new_to)
        &&& next.events@ == self.events@.push(
            RewardsEvent::PointsTransferred {
                from,
                to,
                amount,
                new_from_balance: new_from,
                new_to_balance: new_to,
            },
        )
    }

    /// Gives `amount` of `from`'s points to `to`.
    pub fn transfer_points(&mut self, from: AccountId, to: AccountId, amount: i128) -> (r: Result<(), PlatformError>)
        ensures
            match r {
                Ok(()) => {
                    &&& old(self).transfer_points_error(from, to, amount) is None
                    &&& old(self).transfer_points_post(final(self), from, to, amount)
                },
                Err(e) => {
                    &&& old(self).transfer_points_error(from, to, amount) == Some(e)
                    &&& *final(self) == *old(self)
                },
            },
    {
        if self.paused {
            return Err(PlatformError::Paused);
        }
        if amount <= 0 {
            return Err(PlatformError::InvalidAmount);
        }
        if from == to {
            return Err(PlatformError::InvalidAmount);
        }
        let from_balance = self.balance(from);
        if amount > from_balance {
            return Err(PlatformError::InvalidAmount);
        }
        let new_from_balance = from_balance - amount;
        let to_balance = self.balance(to);
        let new_to_balance: i128 = match to_balance.checked_add(amount) {
            Some(b) => b,
            None => return Err(PlatformError::Overflow),
        };
        self.balances.insert(from, new_from_balance);
        self.balances.insert(to, new_to_balance);
        self.events.push(RewardsEvent::PointsTransferred { from, to, amount, new_from_balance, new_to_balance });
        Ok(())
    }

    /// The point balance of `user`; 0 for an unknown user.
    pub fn get_balance(&self, user: AccountId) -> (b: i128)
        ensures
            b == self.balance_of(user),
    {
        self.balance(user)
    }
}

// ── laws ──────────────────────────────────────────────────────────────────

/// Whether no account holds a negative balance.
pub open spec fn balances_nonnegative(c: &FanRewardsContract) -> bool {
    forall|u: AccountId| #[trigger] c.balances@.contains_key(u) ==> c.balances@[u] >= 0
}

/// A transfer conserves points: the two parties hold together what they
/// held before, and every other balance is unchanged.
pub proof fn lemma_transfer_conserves_points(
    s0: FanRewardsContract,
    s1: FanRewardsContract,
    from: AccountId,
    to: AccountId,
    amount: i128,
)
    requires
        s0.transfer_points_error(from, to, amount) is None,
        s0.transfer_points_post(&s1, from, to, amount),
    ensures
        s1.balance_of(from) + s1.balance_of(to) == s0.balance_of(from) + s0.balance_of(to),
        s1.balance_of(from) == s0.balance_of(from) - amount,
        s1.balance_of(to) == s0.balance_of(to) + amount,
        forall|u: AccountId| u != from && u != to ==> #[trigger] s1.balance_of(u) == s0.balance_of(u),
{
}

/// Awarding, redeeming and transferring never make a balance negative.
pub proof fn lemma_points_never_negative(
    s0: FanRewardsContract,
    s1: FanRewardsContract,
    user: AccountId,
    other: AccountId,
    amount: i128,
    symbol: soroban_sdk::Symbol,
)
    requires
        balances_nonnegative(&s0),
    ensures
        s0.award_points_error(user, amount) is None && s0.award_points_post(&s1, user, amount, symbol)
            ==> balances_nonnegative(&s1),
        s0.redeem_points_error(user, amount) is None && s0.redeem_points_post(&s1, user, amount, symbol)
            ==> balances_nonnegative(&s1),
        s0.transfer_points_error(user, other, amount) is None && s0.transfer_points_post(&s1, user, other, amount)
            ==> balances_nonnegative(&s1),
{
}

/// Awards accumulate, and redeeming what was just awarded is accepted and
/// gives the balance back.
pub proof fn lemma_redeem_undoes_award(
    s0: FanRewardsContract,
    s1: FanRewardsContract,
    s2: FanRewardsContract,
    user: AccountId,
    amount: i128,
    reason: soroban_sdk::Symbol,
    reward_id: soroban_sdk::Symbol,
)
    requires
        s0.balance_of(user) >= 0,
        s0.award_points_error(user, amount) is None,
        s0.award_points_post(&s1, user, amount, reason),
        s1.redeem_points_post(&s2, user, amount, reward_id),
    ensures
        s1.balance_of(user) == s0.balance_of(user) + amount,
        s1.redeem_points_error(user, amount) is None,
        s2.balance_of(user) == s0.balance_of(user),
{
}

/// Awarding is accepted exactly when the contract is running, has an admin,
/// the amount is positive and the new balance fits in an `i128`; the user's
/// balance then grows by the amount and no other balance changes.
pub proof fn lemma_award_accepted_exactly(
    s0: FanRewardsContract,
    s1: FanRewardsContract,
    user: AccountId,
    amount: i128,
    reason: soroban_sdk::Symbol,
)
    ensures
        s0.award_points_error(user, amount) is None <==> {
            &&& !s0.paused
            &&& s0.admin is Some
            &&& amount > 0
            &&& s0.balance_of(user) + amount <= i128::MAX
        },
        s0.paused ==> s0.award_points_error(user, amount) == Some(PlatformError::Paused),
        !s0.paused && s0.admin is Some && amount <= 0
            ==> s0.award_points_error(user, amount) == Some(PlatformError::InvalidAmount),
        s0.award_points_error(user, amount) is None && s0.award_points_post(&s1, user, amount, reason) ==> {
            &&& s1.balance_of(user) == s0.balance_of(user) + amount
            &&& forall|u: AccountId| u != user ==> #[trigger] s1.balance_of(u) == s0.balance_of(u)
        },
{
}

/// Redeeming is accepted exactly when the contract is running and the cost
/// is positive and at most the balance, the whole balance included; a cost
/// that is not positive or exceeds the balance is an invalid amount. An
/// accepted redemption takes the cost off the balance.
pub proof fn lemma_redeem_accepted_exactly(
    s0: FanRewardsContract,
    s1: FanRewardsContract,
    user: AccountId,
    cost: i128,
    reward_id: soroban_sdk::Symbol,
)
    ensures
        s0.redeem_points_error(user, cost) is None <==> !s0.paused && 0 < cost <= s0.balance_of(user),
        s0.paused ==> s0.redeem_points_error(user, cost) == Some(PlatformError::Paused),
        !s0.paused && (cost <= 0 || cost > s0.balance_of(user))
            ==> s0.redeem_points_error(user, cost) == Some(PlatformError::InvalidAmount),
        s0.redeem_points_error(user, cost) is None && s0.redeem_points_post(&s1, user, cost, reward_id) ==> {
            &&& s1.balance_of(user) == s0.balance_of(user) - cost
            &&& forall|u: AccountId| u != user ==> #[trigger] s1.balance_of(u) == s0.balance_of(u)
        },
{
}

/// A transfer is accepted exactly when the contract is running, the amount
/// is positive and at most the sender's balance (the whole balance
/// included), the parties differ and the credit fits in an `i128`; a
/// non-positive amount, a transfer to oneself or one beyond the balance is
/// an invalid amount. An accepted transfer moves the amount from sender to
/// receiver.
pub proof fn lemma_transfer_accepted_exactly(
    s0: FanRewardsContract,
    s1: FanRewardsContract,
    from: AccountId,
    to: AccountId,
    amount: i128,
)
    ensures
        s0.transfer_points_error(from, to, amount) is None <==> {
            &&& !s0.paused
            &&& 0 < amount <= s0.balance_of(from)
            &&& from != to
            &&& s0.balance_of(to) + amount <= i128::MAX
        },
        s0.paused ==> s0.transfer_points_error(from, to, amount) == Some(PlatformError::Paused),
        !s0.paused && (amount <= 0 || from == to || amount > s0.balance_of(from))
            ==> s0.transfer_points_error(from, to, amount) == Some(PlatformError::InvalidAmount),
        s0.transfer_points_error(from, to, amount) is None && s0.transfer_points_post(&s1, from, to, amount) ==> {
            &&& s1.balance_of(from) == s0.balance_of(from) - amount
            &&& s1.balance_of(to) == s0.balance_of(to) + amount
        },
{
}

} // verus!
