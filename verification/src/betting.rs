//! The football betting contract: an admin registers matches, bettors stake
//! tokens on an outcome, the match's oracle settles it, and winners pull
//! their parimutuel share of the losers' pool (or everyone pulls a refund
//! when the deadline passes unsettled).

use vstd::prelude::*;
use std::collections::BTreeMap;
use crate::host::{
    AccountId, AmountList, IdList, WasmHash, HOST_VEC_MAX_LEN, amount_list_items, id_list_items,
    amount_list_from_array, amount_list_get, amount_list_len, amount_list_set, id_list_len, id_list_new,
    id_list_push_back,
};
use crate::platform::{PlatformError, TokenTransfer};
use crate::governance::Governance;

verus! {

broadcast use vstd::laws_cmp::group_laws_cmp;

/// Possible football match outcomes.
#[derive(Clone, Copy, Debug, PartialEq, Eq, PartialOrd, Ord, Structural)]
pub enum Outcome {
    HomeWin,
    Draw,
    AwayWin,
}

impl Outcome {
    /// Pool index of the outcome: 0 for a home win, 1 for a draw, 2 for an
    /// away win.
    pub open spec fn spec_index(self) -> u32 {
        match self {
            Outcome::HomeWin => 0,
            Outcome::Draw => 1,
            Outcome::AwayWin => 2,
        }
    }

    /// Pool index of the outcome in the per-outcome pools.
    pub fn index(self) -> (i: u32)
        ensures
            i == self.spec_index(),
            i < 3,
    {
        match self {
            Outcome::HomeWin => 0,
            Outcome::Draw => 1,
            Outcome::AwayWin => 2,
        }
    }
}

/// A registered football match.
#[derive(Clone, Copy, Debug, PartialEq, Eq, Structural)]
pub struct Match {
    pub match_id: u64,
    /// The oracle that may settle this match.
    pub oracle: AccountId,
    /// Token in which bets are placed and paid.
    pub token: AccountId,
    /// Unix time in seconds; betting closes at it, refunds open at it.
    pub deadline: u64,
    pub settled: bool,
    /// The canonical outcome, set on settlement.
    pub outcome: Option<Outcome>,
}

/// Aggregated statistics of a match.
pub struct MatchStats {
    pub match_id: u64,
    /// Per-outcome pool totals, indexed by `Outcome::index`.
    pub pools: AmountList,
    /// Every bettor of the match, in order of betting.
    pub bettors: IdList,
}

/// A single user's bet on a single match.
#[derive(Clone, Copy, Debug, PartialEq, Eq, Structural)]
pub struct Bet {
    pub user: AccountId,
    pub match_id: u64,
    pub outcome: Outcome,
    pub amount: i128,
    pub token: AccountId,
    /// Set once the bet was paid out or refunded.
    pub claimed: bool,
    /// What was paid for the bet; 0 until then.
    pub payout: i128,
}

/// The events that the betting contract publishes.
#[derive(Clone, Copy, Debug, PartialEq, Eq, Structural)]
pub enum BettingEvent {
    ContractInitialized { admin: AccountId },
    /// The contract's code was replaced by the approved WASM hash.
    Upgraded,
    Paused { admin: AccountId },
    Unpaused { admin: AccountId },
    MatchRegistered { admin: AccountId, match_id: u64, oracle: AccountId, token: AccountId, deadline: u64 },
    BetPlaced { user: AccountId, bet: Bet },
    BetSettled { oracle: AccountId, match_id: u64, outcome: u32 },
    BetClaimed { user: AccountId, match_id: u64, payout: i128 },
    BetRefunded { user: AccountId, bet: Bet },
}

impl BettingEvent {
    /// The topic under which the event is published.
    pub open spec fn spec_topic(self) -> Seq<char> {
        match self {
            BettingEvent::ContractInitialized { .. } => "ContractInitialized"@,
            BettingEvent::Upgraded => "Upgraded"@,
            BettingEvent::Paused { .. } => "Paused"@,
            BettingEvent::Unpaused { .. } => "Unpaused"@,
            BettingEvent::MatchRegistered { .. } => "MatchRegistered"@,
            BettingEvent::BetPlaced { .. } => "BetPlaced"@,
            BettingEvent::BetSettled { .. } => "BetSettled"@,
            BettingEvent::BetClaimed { .. } => "BetClaimed"@,
            BettingEvent::BetRefunded { .. } => "BetRefunded"@,
        }
    }

    /// The topic under which the event is published.
    pub fn topic(&self) -> (t: &'static str)
        ensures
            t@ == self.spec_topic(),
            crate::host::is_symbol_text(t@),
    {
        match self {
            BettingEvent::ContractInitialized { .. } => {
                proof { reveal_strlit("ContractInitialized"); }
                "ContractInitialized"
            },
            BettingEvent::Upgraded => {
                proof { reveal_strlit("Upgraded"); }
                "Upgraded"
            },
            BettingEvent::Paused { .. } => {
                proof { reveal_strlit("Paused"); }
                "Paused"
            },
            BettingEvent::Unpaused { .. } => {
                proof { reveal_strlit("Unpaused"); }
                "Unpaused"
            },
            BettingEvent::MatchRegistered { .. } => {
                proof { reveal_strlit("MatchRegistered"); }
                "MatchRegistered"
            },
            BettingEvent::BetPlaced { .. } => {
                proof { reveal_strlit("BetPlaced"); }
                "BetPlaced"
            },
            BettingEvent::BetSettled { .. } => {
                proof { reveal_strlit("BetSettled"); }
                "BetSettled"
            },
            BettingEvent::BetClaimed { .. } => {
                proof { reveal_strlit("BetClaimed"); }
                "BetClaimed"
            },
            BettingEvent::BetRefunded { .. } => {
                proof { reveal_strlit("BetRefunded"); }
                "BetRefunded"
            },
        }
    }
}

/// The betting contract's storage and the effects it has produced.
pub struct RenaissanceBettingContract {
    pub env: soroban_sdk::Env,
    /// The contract's own account, which holds the staked tokens.
    pub contract_id: AccountId,
    pub admin: Option<AccountId>,
    pub paused: bool,
    pub governance: Governance,
    pub matches: BTreeMap<u64, Match>,
    pub stats: BTreeMap<u64, MatchStats>,
    /// Bets keyed by (match id, user).
    pub bets: BTreeMap<(u64, AccountId), Bet>,
    /// Events published, oldest first.
    pub events: Vec<BettingEvent>,
    /// Token movements made, oldest first.
    pub transfers: Vec<TokenTransfer>,
}

/// The pool of the stats at index `i`, 0 where there is none.
pub open spec fn pool_at(s: MatchStats, i: int) -> int {
    if 0 <= i < amount_list_items(s.pools).len() {
        amount_list_items(s.pools)[i] as int
    } else {
        0
    }
}

/// `x / d` rounded toward zero, as Rust's integer division does, for
/// `d > 0`.
pub open spec fn div_toward_zero(x: int, d: int) -> int {
    if x >= 0 { x / d } else { -((-x) / d) }
}

/// The parimutuel payout of a winning stake `amount` when the losing
/// outcomes hold `loser_pool` and the winning one `winning_pool`: the stake
/// back plus `amount * loser_pool / winning_pool`, rounded toward zero.
pub open spec fn payout_for(amount: int, loser_pool: int, winning_pool: int) -> int {
    amount + div_toward_zero(amount * loser_pool, winning_pool)
}

/// Rounding a quotient toward zero never grows it beyond the dividend, so
/// an `i128` dividend gives an `i128` quotient.
proof fn lemma_div_toward_zero_fits(x: int, d: int)
    requires
        d > 0,
        fits_i128(x),
    ensures
        fits_i128(div_toward_zero(x, d)),
        x >= 0 ==> 0 <= div_toward_zero(x, d) <= x,
{
    if x >= 0 {
        assert(0 <= x / d <= x) by (nonlinear_arith)
            requires x >= 0, d > 0;
    } else {
        assert(0 <= (-x) / d <= -x) by (nonlinear_arith)
            requires -x > 0, d > 0;
    }
}

/// Whether `v` fits in an `i128`.
pub open spec fn fits_i128(v: int) -> bool {
    i128::MIN <= v <= i128::MAX
}

impl RenaissanceBettingContract {
    /// The fields that no operation but the ones on governance, admin and
    /// pause touch are those of `next`.
    pub open spec fn same_config(&self, next: &Self) -> bool {
        &&& next.env == self.env
        &&& next.contract_id == self.contract_id
        &&& next.admin == self.admin
        &&& next.paused == self.paused
        &&& next.governance == self.governance
    }

    /// A contract with empty storage.
    pub fn new(env: soroban_sdk::Env, contract_id: AccountId) -> (c: Self)
        ensures
            c.env == env,
            c.contract_id == contract_id,
            c.admin is None,
            !c.paused,
            c.governance.platform_admin is None,
            c.governance.security_admin is None,
            c.governance.treasury_admin is None,
            c.governance.approvals() == Seq::<AccountId>::empty(),
            c.governance.wasm_hash is None,
            c.matches@ == Map::<u64, Match>::empty(),
            c.stats@ == Map::<u64, MatchStats>::empty(),
            c.bets@ == Map::<(u64, AccountId), Bet>::empty(),
            c.events@ == Seq::<BettingEvent>::empty(),
            c.transfers@ == Seq::<TokenTransfer>::empty(),
    {
        let governance = Governance::empty(&env);
        RenaissanceBettingContract {
            env,
            contract_id,
            admin: None,
            paused: false,
            governance,
            matches: BTreeMap::new(),
            stats: BTreeMap::new(),
            bets: BTreeMap::new(),
            events: Vec::new(),
            transfers: Vec::new(),
        }
    }

    // ── place_bet ─────────────────────────────────────────────────────────

    /// The error with which `place_bet` refuses, if any. `balance` is what
    /// the user holds of the match's token.
    pub open spec fn place_bet_error(
        &self,
        user: AccountId,
        match_id: u64,
        outcome: Outcome,
        amount: i128,
        now: u64,
        balance: i128,
    ) -> Option<PlatformError> {
        if self.paused {
            Some(PlatformError::Paused)
        } else if amount <= 0 {
            Some(PlatformError::InvalidAmount)
        } else if !self.matches@.contains_key(match_id) {
            Some(PlatformError::InternalError)
        } else if self.matches@[match_id].settled {
            Some(PlatformError::InternalError)
        } else if now >= self.matches@[match_id].deadline {
            Some(PlatformError::ExpiredDeadline)
        } else if balance < amount {
            Some(PlatformError::InsufficientBalance)
        } else if self.bets@.contains_key((match_id, user)) {
            Some(PlatformError::InternalError)
        } else if !self.stats@.contains_key(match_id) {
            Some(PlatformError::InternalError)
        } else if !fits_i128(pool_at(self.stats@[match_id], outcome.spec_index() as int) + amount) {
            Some(PlatformError::Overflow)
        } else {
            None
        }
    }

    /// The bet that `place_bet` records.
    pub open spec fn placed_bet(&self, user: AccountId, match_id: u64, outcome: Outcome, amount: i128) -> Bet {
        Bet {
            user,
            match_id,
            outcome,
            amount,
            token: self.matches@[match_id].token,
            claimed: false,
            payout: 0,
        }
    }

    /// The state after an accepted `place_bet`: the bet is recorded, its
    /// amount added to its outcome's pool, the user appended to the
    /// bettors, the stake moved from the user to the contract.
    pub open spec fn place_bet_post(&self, next: &Self, user: AccountId, match_id: u64, outcome: Outcome, amount: i128) -> bool {
        let bet = self.placed_bet(user, match_id, outcome, amount);
        let old_stats = self.stats@[match_id];
        let new_stats = next.stats@[match_id];
        let i = outcome.spec_index() as int;
        &&& self.same_config(next)
        &&& next.matches == self.matches
        &&& next.bets@ == self.bets@.insert((match_id, user), bet)
        &&& next.stats@.dom() == self.stats@.dom()
        &&& forall|k: u64| k != match_id && #[trigger] self.stats@.contains_key(k) ==> next.stats@[k] == self.stats@[k]
        &&& new_stats.match_id == old_stats.match_id
        &&& amount_list_items(new_stats.pools) == amount_list_items(old_stats.pools).update(i, (pool_at(old_stats, i) + amount) as i128)
        &&& id_list_items(new_stats.bettors) == id_list_items(old_stats.bettors).push(user)
        &&& next.events@ == self.events@.push(BettingEvent::BetPlaced { user, bet })
        &&& next.transfers@ == self.transfers@.push(TokenTransfer {
            token: bet.token,
            from: user,
            to: self.contract_id,
            amount,
        })
    }

    /// Whether the stats of `match_id` can take a bet on `outcome`: the
    /// outcome has a pool and the bettors list can grow.
    pub open spec fn stats_take_bet(&self, match_id: u64, outcome: Outcome) -> bool {
        self.stats@.contains_key(match_id) ==> {
            &&& outcome.spec_index() < amount_list_items(self.stats@[match_id].pools).len()
            &&& id_list_items(self.stats@[match_id].bettors).len() < HOST_VEC_MAX_LEN
        }
    }

    /// Whether the stats of `match_id` can take a bet on `outcome` (see
    /// `stats_take_bet`); `place_bet` panics where they cannot.
    pub fn can_take_bet(&self, match_id: u64, outcome: Outcome) -> (b: bool)
        ensures
            b == self.stats_take_bet(match_id, outcome),
    {
        match self.stats.get(&match_id) {
            Some(s) => outcome.index() < amount_list_len(&s.pools) && id_list_len(&s.bettors) < HOST_VEC_MAX_LEN,
            None => true,
        }
    }

    /// Stakes `amount` of the match's token on `outcome` for `user`.
    /// `now` is the ledger time and `balance` what `user` holds of the
    /// match's token.
    pub fn place_bet(
        &mut self,
        user: AccountId,
        match_id: u64,
        outcome: Outcome,
        amount: i128,
        now: u64,
        balance: i128,
    ) -> (r: Result<(), PlatformError>)
        requires
            old(self).place_bet_error(user, match_id, outcome, amount, now, balance) is None
                ==> old(self).stats_take_bet(match_id, outcome),
        ensures
            match r {
                Ok(()) => {
                    &&& old(self).place_bet_error(user, match_id, outcome, amount, now, balance) is None
                    &&& old(self).place_bet_post(final(self), user, match_id, outcome, amount)
                },
                Err(e) => {
                    &&& old(self).place_bet_error(user, match_id, outcome, amount, now, balance) == Some(e)
                    &&& *final(self) == *old(self)
                },
            },
    {
        if self.paused {
            return Err(PlatformError::Paused);
        }
        if amount <= 0 {
            return Err(PlatformError::InvalidAmount);
        }
        let m: Match = match self.matches.get(&match_id) {
            Some(m) => *m,
            None => return Err(PlatformError::InternalError),
        };
        if m.settled {
            return Err(PlatformError::InternalError);
        }
        if now >= m.deadline {
            return Err(PlatformError::ExpiredDeadline);
        }
        if balance < amount {
            return Err(PlatformError::InsufficientBalance);
        }
        if self.bets.contains_key(&(match_id, user)) {
            return Err(PlatformError::InternalError);
        }
        let idx = outcome.index();
        let prev: i128 = match self.stats.get(&match_id) {
            Some(s) => match amount_list_get(&s.pools, idx) {
                Some(p) => p,
                None => 0,
            },
            None => return Err(PlatformError::InternalError),
        };
        let updated: i128 = match prev.checked_add(amount) {
            Some(v) => v,
            None => return Err(PlatformError::Overflow),
        };
        let bet = Bet {
            user,
            match_id,
            outcome,
            amount,
            token: m.token,
            claimed: false,
            payout: 0,
        };
        let mut stats = self.stats.remove(&match_id).unwrap();
        amount_list_set(&mut stats.pools, idx, updated);
        id_list_push_back(&mut stats.bettors, user);
        self.stats.insert(match_id, stats);
        self.bets.insert((match_id, user), bet);
        self.events.push(BettingEvent::BetPlaced { user, bet });
        self.transfers.push(TokenTransfer { token: m.token, from: user, to: self.contract_id, amount });
        Ok(())
    }

    // ── admin and governance ──────────────────────────────────────────────

    /// Bootstraps the contract admin, once: the admin also takes the three
    /// governance roles, and the contract starts unpaused.
    pub fn initialize(&mut self, admin: AccountId) -> (r: Result<(), PlatformError>)
        ensures
            match r {
                Ok(()) => {
                    &&& old(self).admin is None
                    &&& final(self).admin == Some(admin)
                    &&& !final(self).paused
                    &&& final(self).governance.platform_admin == Some(admin)
                    &&& final(self).governance.security_admin == Some(admin)
                    &&& final(self).governance.treasury_admin == Some(admin)
                    &&& final(self).governance.upgrade_approvals == old(self).governance.upgrade_approvals
                    &&& final(self).governance.wasm_hash == old(self).governance.wasm_hash
                    &&& final(self).env == old(self).env
                    &&& final(self).contract_id == old(self).contract_id
                    &&& final(self).matches == old(self).matches
                    &&& final(self).stats == old(self).stats
                    &&& final(self).bets == old(self).bets
                    &&& final(self).events@ == old(self).events@.push(BettingEvent::ContractInitialized { admin })
                    &&& final(self).transfers == old(self).transfers
                },
                Err(e) => {
                    &&& old(self).admin is Some
                    &&& e == PlatformError::Unauthorized
                    &&& *final(self) == *old(self)
                },
            },
    {
        if self.admin.is_some() {
            return Err(PlatformError::Unauthorized);
        }
        self.admin = Some(admin);
        self.governance.platform_admin = Some(admin);
        self.governance.security_admin = Some(admin);
        self.governance.treasury_admin = Some(admin);
        self.paused = false;
        self.events.push(BettingEvent::ContractInitialized { admin });
        Ok(())
    }

    /// Records the approval of governance admin `caller` for upgrading to
    /// `hash`; the second distinct approval replaces the contract's code.
    /// Returns whether the code is to be replaced now.
    pub fn upgrade(&mut self, caller: AccountId, hash: WasmHash) -> (r: Result<bool, PlatformError>)
        requires
            old(self).governance.approvals().len() < HOST_VEC_MAX_LEN,
        ensures
            match r {
                Ok(done) => {
                    &&& old(self).governance.upgrade_error(caller) is None
                    &&& done == old(self).governance.upgrade_completes(caller)
                    &&& old(self).governance.upgrade_post(&final(self).governance, caller, hash)
                    &&& final(self).env == old(self).env
                    &&& final(self).contract_id == old(self).contract_id
                    &&& final(self).admin == old(self).admin
                    &&& final(self).paused == old(self).paused
                    &&& final(self).matches == old(self).matches
                    &&& final(self).stats == old(self).stats
                    &&& final(self).bets == old(self).bets
                    &&& final(self).events@ == (if done {
                        old(self).events@.push(BettingEvent::Upgraded)
                    } else {
                        old(self).events@
                    })
                    &&& final(self).transfers == old(self).transfers
                },
                Err(e) => {
                    &&& old(self).governance.upgrade_error(caller) == Some(e)
                    &&& *final(self) == *old(self)
                },
            },
    {
        let r = self.governance.upgrade(&self.env, caller, hash);
        if let Ok(true) = r {
            self.events.push(BettingEvent::Upgraded);
        }
        r
    }

    /// Pauses the contract. Pausing a paused contract changes nothing.
    pub fn pause(&mut self) -> (r: Result<(), PlatformError>)
        ensures
            match r {
                Ok(()) => {
                    &&& old(self).admin is Some
                    &&& if old(self).paused {
                        *final(self) == *old(self)
                    } else {
                        &&& final(self).paused
                        &&& final(self).env == old(self).env
                        &&& final(self).contract_id == old(self).contract_id
                        &&& final(self).admin == old(self).admin
                        &&& final(self).governance == old(self).governance
                        &&& final(self).matches == old(self).matches
                        &&& final(self).stats == old(self).stats
                        &&& final(self).bets == old(self).bets
                        &&& final(self).events@ == old(self).events@.push(
                            BettingEvent::Paused { admin: old(self).admin->0 },
                        )
                        &&& final(self).transfers == old(self).transfers
                    }
                },
                Err(e) => {
                    &&& old(self).admin is None
                    &&& e == PlatformError::Unauthorized
                    &&& *final(self) == *old(self)
                },
            },
    {
        let admin = match self.admin {
            Some(a) => a,
            None => return Err(PlatformError::Unauthorized),
        };
        if self.paused {
            return Ok(());
        }
        self.paused = true;
        self.events.push(BettingEvent::Paused { admin });
        Ok(())
    }

    /// Unpauses the contract.
    pub fn unpause(&mut self) -> (r: Result<(), PlatformError>)
        ensures
            match r {
                Ok(()) => {
                    &&& old(self).admin is Some
                    &&& !final(self).paused
                    &&& final(self).env == old(self).env
                    &&& final(self).contract_id == old(self).contract_id
                    &&& final(self).admin == old(self).admin
                    &&& final(self).governance == old(self).governance
                    &&& final(self).matches == old(self).matches
                    &&& final(self).stats == old(self).stats
                    &&& final(self).bets == old(self).bets
                    &&& final(self).events@ == old(self).events@.push(
                        BettingEvent::Unpaused { admin: old(self).admin->0 },
                    )
                    &&& final(self).transfers == old(self).transfers
                },
                Err(e) => {
                    &&& old(self).admin is None
                    &&& e == PlatformError::Unauthorized
                    &&& *final(self) == *old(self)
                },
            },
    {
        let admin = match self.admin {
            Some(a) => a,
            None => return Err(PlatformError::Unauthorized),
        };
        self.paused = false;
        self.events.push(BettingEvent::Unpaused { admin });
        Ok(())
    }

    /// Whether the contract is paused.
    pub fn is_paused(&self) -> (p: bool)
        ensures
            p == self.paused,
    {
        self.paused
    }

    // ── matches ───────────────────────────────────────────────────────────

    /// The error with which `register_match` refuses, if any.
    pub open spec fn register_match_error(&self, match_id: u64, deadline: u64, now: u64) -> Option<PlatformError> {
        if self.paused {
            Some(PlatformError::Paused)
        } else if self.admin is None {
            Some(PlatformError::Unauthorized)
        } else if self.matches@.contains_key(match_id) {
            Some(PlatformError::InternalError)
        } else if deadline <= now {
            Some(PlatformError::ExpiredDeadline)
        } else {
            None
        }
    }

    /// The state after an accepted `register_match`: the unsettled match
    /// and empty stats with three zero pools are recorded.
    pub open spec fn register_match_post(
        &self,
        next: &Self,
        match_id: u64,
        oracle: AccountId,
        token: AccountId,
        deadline: u64,
    ) -> bool {
        let m = Match { match_id, oracle, token, deadline, settled: false, outcome: None };
        &&& self.same_config(next)
        &&& next.matches@ == self.matches@.insert(match_id, m)
        &&& next.stats@.dom() == self.stats@.dom().insert(match_id)
        &&& forall|k: u64| k != match_id && #[trigger] self.stats@.contains_key(k) ==> next.stats@[k] == self.stats@[k]
        &&& next.stats@[match_id].match_id == match_id
        &&& amount_list_items(next.stats@[match_id].pools) == seq![0i128, 0i128, 0i128]
        &&& id_list_items(next.stats@[match_id].bettors) == Seq::<AccountId>::empty()
        &&& next.bets == self.bets
        &&& next.events@ == self.events@.push(BettingEvent::MatchRegistered {
            admin: self.admin->0,
            match_id,
            oracle,
            token,
            deadline,
        })
        &&& next.transfers == self.transfers
    }

    /// Registers match `match_id`, settled by `oracle`, bet in `token`,
    /// open for bets until `deadline`. `now` is the ledger time.
    pub fn register_match(
        &mut self,
        match_id: u64,
        oracle: AccountId,
        token: AccountId,
        deadline: u64,
        now: u64,
    ) -> (r: Result<(), PlatformError>)
        ensures
            match r {
                Ok(()) => {
                    &&& old(self).register_match_error(match_id, deadline, now) is None
                    &&& old(self).register_match_post(final(self), match_id, oracle, token, deadline)
                },
                Err(e) => {
                    &&& old(self).register_match_error(match_id, deadline, now) == Some(e)
                    &&& *final(self) == *old(self)
                },
            },
    {
        if self.paused {
            return Err(PlatformError::Paused);
        }
        let admin = match self.admin {
            Some(a) => a,
            None => return Err(PlatformError::Unauthorized),
        };
        if self.matches.contains_key(&match_id) {
            return Err(PlatformError::InternalError);
        }
        if deadline <= now {
            return Err(PlatformError::ExpiredDeadline);
        }
        let m = Match { match_id, oracle, token, deadline, settled: false, outcome: None };
        self.matches.insert(match_id, m);
        let pools = amount_list_from_array(&self.env, [0i128, 0i128, 0i128]);
        let bettors = id_list_new(&self.env);
        self.stats.insert(match_id, MatchStats { match_id, pools, bettors });
        self.events.push(BettingEvent::MatchRegistered { admin, match_id, oracle, token, deadline });
        Ok(())
    }

    /// The error with which `set_oracle` refuses, if any.
    pub open spec fn set_oracle_error(&self, match_id: u64) -> Option<PlatformError> {
        if self.paused {
            Some(PlatformError::Paused)
        } else if self.admin is None {
            Some(PlatformError::Unauthorized)
        } else if !self.matches@.contains_key(match_id) {
            Some(PlatformError::InternalError)
        } else if self.matches@[match_id].settled {
            Some(PlatformError::InternalError)
        } else {
            None
        }
    }

    /// Replaces the oracle of an unsettled match.
    pub fn set_oracle(&mut self, match_id: u64, new_oracle: AccountId) -> (r: Result<(), PlatformError>)
        ensures
            match r {
                Ok(()) => {
                    &&& old(self).set_oracle_error(match_id) is None
                    &&& old(self).same_config(final(self))
                    &&& final(self).matches@ == old(self).matches@.insert(
                        match_id,
                        Match { oracle: new_oracle, ..old(self).matches@[match_id] },
                    )
                    &&& final(self).stats == old(self).stats
                    &&& final(self).bets == old(self).bets
                    &&& final(self).events == old(self).events
                    &&& final(self).transfers == old(self).transfers
                },
                Err(e) => {
                    &&& old(self).set_oracle_error(match_id) == Some(e)
                    &&& *final(self) == *old(self)
                },
            },
    {
        if self.paused {
            return Err(PlatformError::Paused);
        }
        if self.admin.is_none() {
            return Err(PlatformError::Unauthorized);
        }
        let m: Match = match self.matches.get(&match_id) {
            Some(m) => *m,
            None => return Err(PlatformError::InternalError),
        };
        if m.settled {
            return Err(PlatformError::InternalError);
        }
        self.matches.insert(match_id, Match { oracle: new_oracle, ..m });
        Ok(())
    }

    /// The error with which `settle_bet` refuses, if any.
    pub open spec fn settle_bet_error(&self, oracle: AccountId, match_id: u64) -> Option<PlatformError> {
        if self.paused {
            Some(PlatformError::Paused)
        } else if !self.matches@.contains_key(match_id) {
            Some(PlatformError::InternalError)
        } else if self.matches@[match_id].oracle != oracle {
            Some(PlatformError::Unauthorized)
        } else if self.matches@[match_id].settled {
            Some(PlatformError::InternalError)
        } else {
            None
        }
    }

    /// The state after an accepted `settle_bet`: the match is settled with
    /// `outcome`.
    pub open spec fn settle_bet_post(&self, next: &Self, oracle: AccountId, match_id: u64, outcome: Outcome) -> bool {
        &&& self.same_config(next)
        &&& next.matches@ == self.matches@.insert(
            match_id,
            Match { settled: true, outcome: Some(outcome), ..self.matches@[match_id] },
        )
        &&& next.stats == self.stats
        &&& next.bets == self.bets
        &&& next.events@ == self.events@.push(BettingEvent::BetSettled {
            oracle,
            match_id,
            outcome: outcome.spec_index(),
        })
        &&& next.transfers == self.transfers
    }

    /// The match's oracle records its canonical outcome.
    pub fn settle_bet(&mut self, oracle: AccountId, match_id: u64, outcome: Outcome) -> (r: Result<(), PlatformError>)
        ensures
            match r {
                Ok(()) => {
                    &&& old(self).settle_bet_error(oracle, match_id) is None
                    &&& old(self).settle_bet_post(final(self), oracle, match_id, outcome)
                },
                Err(e) => {
                    &&& old(self).settle_bet_error(oracle, match_id) == Some(e)
                    &&& *final(self) == *old(self)
                },
            },
    {
        if self.paused {
            return Err(PlatformError::Paused);
        }
        let m: Match = match self.matches.get(&match_id) {
            Some(m) => *m,
            None => return Err(PlatformError::InternalError),
        };
        if m.oracle != oracle {
            return Err(PlatformError::Unauthorized);
        }
        if m.settled {
            return Err(PlatformError::InternalError);
        }
        self.matches.insert(match_id, Match { settled: true, outcome: Some(outcome), ..m });
        self.events.push(BettingEvent::BetSettled { oracle, match_id, outcome: outcome.index() });
        Ok(())
    }

    // ── reads ─────────────────────────────────────────────────────────────

    /// The bet of `user` on `match_id`; `None` when there is none or the
    /// contract is paused.
    pub fn get_bet(&self, user: AccountId, match_id: u64) -> (b: Option<Bet>)
        ensures
            b == (if self.paused || !self.bets@.contains_key((match_id, user)) {
                None
            } else {
                Some(self.bets@[(match_id, user)])
            }),
    {
        if self.paused {
            return None;
        }
        match self.bets.get(&(match_id, user)) {
            Some(b) => Some(*b),
            None => None,
        }
    }

    /// The match `match_id`; `None` when it is not registered or the
    /// contract is paused.
    pub fn get_match(&self, match_id: u64) -> (m: Option<Match>)
        ensures
            m == (if self.paused || !self.matches@.contains_key(match_id) {
                None
            } else {
                Some(self.matches@[match_id])
            }),
    {
        if self.paused {
            return None;
        }
        match self.matches.get(&match_id) {
            Some(m) => Some(*m),
            None => None,
        }
    }

    // ── claims and refunds ────────────────────────────────────────────────

    /// The error with which `claim_payout` refuses, if any.
    pub open spec fn claim_payout_error(&self, user: AccountId, match_id: u64) -> Option<PlatformError> {
        let key = (match_id, user);
        if self.paused {
            Some(PlatformError::Paused)
        } else if !self.bets@.contains_key(key) {
            Some(PlatformError::InternalError)
        } else if self.bets@[key].claimed {
            Some(PlatformError::InternalError)
        } else if !self.matches@.contains_key(match_id) {
            Some(PlatformError::InternalError)
        } else if !self.matches@[match_id].settled {
            Some(PlatformError::ExpiredDeadline)
        } else if self.matches@[match_id].outcome is None {
            Some(PlatformError::InternalError)
        } else if self.bets@[key].outcome != self.matches@[match_id].outcome->0 {
            Some(PlatformError::InternalError)
        } else if !self.stats@.contains_key(match_id) {
            Some(PlatformError::InternalError)
        } else {
            let s = self.stats@[match_id];
            let winning = pool_at(s, self.bets@[key].outcome.spec_index() as int);
            let total = pool_at(s, 0) + pool_at(s, 1) + pool_at(s, 2);
            let amount = self.bets@[key].amount as int;
            if !fits_i128(pool_at(s, 0) + pool_at(s, 1)) || !fits_i128(total) {
                Some(PlatformError::Overflow)
            } else if !fits_i128(total - winning) {
                Some(PlatformError::Overflow)
            } else if winning <= 0 {
                Some(PlatformError::InternalError)
            } else if !fits_i128(amount * (total - winning)) {
                Some(PlatformError::Overflow)
            } else if !fits_i128(payout_for(amount, total - winning, winning)) {
                Some(PlatformError::Overflow)
            } else {
                None
            }
        }
    }

    /// What `claim_payout` pays: the stake plus its pro-rata share of the
    /// losers' pool.
    pub open spec fn claim_amount(&self, user: AccountId, match_id: u64) -> int {
        let s = self.stats@[match_id];
        let bet = self.bets@[(match_id, user)];
        let winning = pool_at(s, bet.outcome.spec_index() as int);
        let total = pool_at(s, 0) + pool_at(s, 1) + pool_at(s, 2);
        payout_for(bet.amount as int, total - winning, winning)
    }

    /// The state after an accepted `claim_payout` that paid `payout`: the bet
    /// is marked claimed with its payout, and the payout moves from the
    /// contract to the user.
    pub open spec fn claim_payout_post(&self, next: &Self, user: AccountId, match_id: u64, payout: i128) -> bool {
        let bet = self.bets@[(match_id, user)];
        &&& self.same_config(next)
        &&& next.matches == self.matches
        &&& next.stats == self.stats
        &&& next.bets@ == self.bets@.insert((match_id, user), Bet { claimed: true, payout, ..bet })
        &&& next.events@ == self.events@.push(BettingEvent::BetClaimed { user, match_id, payout })
        &&& next.transfers@ == self.transfers@.push(TokenTransfer {
            token: self.matches@[match_id].token,
            from: self.contract_id,
            to: user,
            amount: payout,
        })
    }

    /// Pays `user` the parimutuel winnings of their bet on the settled
    /// match `match_id` and returns them.
    pub fn claim_payout(&mut self, user: AccountId, match_id: u64) -> (r: Result<i128, PlatformError>)
        ensures
            match r {
                Ok(payout) => {
                    &&& old(self).claim_payout_error(user, match_id) is None
                    &&& payout == old(self).claim_amount(user, match_id)
                    &&& old(self).claim_payout_post(final(self), user, match_id, payout)
                },
                Err(e) => {
                    &&& old(self).claim_payout_error(user, match_id) == Some(e)
                    &&& *final(self) == *old(self)
                },
            },
    {
        if self.paused {
            return Err(PlatformError::Paused);
        }
        let bet: Bet = match self.bets.get(&(match_id, user)) {
            Some(b) => *b,
            None => return Err(PlatformError::InternalError),
        };
        if bet.claimed {
            return Err(PlatformError::InternalError);
        }
        let m: Match = match self.matches.get(&match_id) {
            Some(m) => *m,
            None => return Err(PlatformError::InternalError),
        };
        if !m.settled {
            return Err(PlatformError::ExpiredDeadline);
        }
        let winning_outcome = match m.outcome {
            Some(o) => o,
            None => return Err(PlatformError::InternalError),
        };
        if bet.outcome.index() != winning_outcome.index() {
            return Err(PlatformError::InternalError);
        }
        let stats = match self.stats.get(&match_id) {
            Some(s) => s,
            None => return Err(PlatformError::InternalError),
        };
        let winning_pool: i128 = match amount_list_get(&stats.pools, winning_outcome.index()) {
            Some(p) => p,
            None => 0,
        };
        let p0: i128 = match amount_list_get(&stats.pools, 0) {
            Some(p) => p,
            None => 0,
        };
        let p1: i128 = match amount_list_get(&stats.pools, 1) {
            Some(p) => p,
            None => 0,
        };
        let p2: i128 = match amount_list_get(&stats.pools, 2) {
            Some(p) => p,
            None => 0,
        };
        let partial: i128 = match p0.checked_add(p1) {
            Some(t) => t,
            None => return Err(PlatformError::Overflow),
        };
        let total_pool: i128 = match partial.checked_add(p2) {
            Some(t) => t,
            None => return Err(PlatformError::Overflow),
        };
        let loser_pool: i128 = match total_pool.checked_sub(winning_pool) {
            Some(l) => l,
            None => return Err(PlatformError::Overflow),
        };
        if winning_pool <= 0 {
            return Err(PlatformError::InternalError);
        }
        let product: i128 = match bet.amount.checked_mul(loser_pool) {
            Some(p) => p,
            None => return Err(PlatformError::Overflow),
        };
        proof {
            lemma_div_toward_zero_fits(product as int, winning_pool as int);
        }
        let share: i128 = match product.checked_div(winning_pool) {
            Some(q) => q,
            None => return Err(PlatformError::InternalError),
        };
        let payout: i128 = match bet.amount.checked_add(share) {
            Some(p) => p,
            None => return Err(PlatformError::Overflow),
        };
        self.bets.insert((match_id, user), Bet { claimed: true, payout, ..bet });
        self.events.push(BettingEvent::BetClaimed { user, match_id, payout });
        self.transfers.push(TokenTransfer { token: m.token, from: self.contract_id, to: user, amount: payout });
        Ok(payout)
    }

    /// The error with which `refund_bet` refuses, if any.
    pub open spec fn refund_bet_error(&self, user: AccountId, match_id: u64, now: u64) -> Option<PlatformError> {
        let key = (match_id, user);
        if self.paused {
            Some(PlatformError::Paused)
        } else if !self.bets@.contains_key(key) {
            Some(PlatformError::InternalError)
        } else if self.bets@[key].claimed {
            Some(PlatformError::InternalError)
        } else if !self.matches@.contains_key(match_id) {
            Some(PlatformError::InternalError)
        } else if self.matches@[match_id].settled {
            Some(PlatformError::InternalError)
        } else if now < self.matches@[match_id].deadline {
            Some(PlatformError::ExpiredDeadline)
        } else {
            None
        }
    }

    /// The state after an accepted `refund_bet`: the bet is marked claimed
    /// with its full stake as payout, and the stake moves back to the user.
    pub open spec fn refund_bet_post(&self, next: &Self, user: AccountId, match_id: u64) -> bool {
        let bet = self.bets@[(match_id, user)];
        let refunded = Bet { claimed: true, payout: bet.amount, ..bet };
        &&& self.same_config(next)
        &&& next.matches == self.matches
        &&& next.stats == self.stats
        &&& next.bets@ == self.bets@.insert((match_id, user), refunded)
        &&& next.events@ == self.events@.push(BettingEvent::BetRefunded { user, bet: refunded })
        &&& next.transfers@ == self.transfers@.push(TokenTransfer {
            token: self.matches@[match_id].token,
            from: self.contract_id,
            to: user,
            amount: bet.amount,
        })
    }

    /// Refunds `user`'s full stake on a match whose deadline passed without
    /// settlement. `now` is the ledger time.
    pub fn refund_bet(&mut self, user: AccountId, match_id: u64, now: u64) -> (r: Result<(), PlatformError>)
        ensures
            match r {
                Ok(()) => {
                    &&& old(self).refund_bet_error(user, match_id, now) is None
                    &&& old(self).refund_bet_post(final(self), user, match_id)
                },
                Err(e) => {
                    &&& old(self).refund_bet_error(user, match_id, now) == Some(e)
                    &&& *final(self) == *old(self)
                },
            },
    {
        if self.paused {
            return Err(PlatformError::Paused);
        }
        let bet: Bet = match self.bets.get(&(match_id, user)) {
            Some(b) => *b,
            None => return Err(PlatformError::InternalError),
        };
        if bet.claimed {
            return Err(PlatformError::InternalError);
        }
        let m: Match = match self.matches.get(&match_id) {
            Some(m) => *m,
            None => return Err(PlatformError::InternalError),
        };
        if m.settled {
            return Err(PlatformError::InternalError);
        }
        if now < m.deadline {
            return Err(PlatformError::ExpiredDeadline);
        }
        let refunded = Bet { claimed: true, payout: bet.amount, ..bet };
        self.bets.insert((match_id, user), refunded);
        self.events.push(BettingEvent::BetRefunded { user, bet: refunded });
        self.transfers.push(TokenTransfer { token: m.token, from: self.contract_id, to: user, amount: bet.amount });
        Ok(())
    }
}

// ── laws ──────────────────────────────────────────────────────────────────

/// A winner's payout lies between their stake and their stake plus the
/// whole losers' pool; so, as long as their stake is part of the winning
/// pool, it never exceeds the total pool.
pub proof fn lemma_payout_within_pool(amount: int, loser_pool: int, winning_pool: int)
    requires
        0 < amount <= winning_pool,
        loser_pool >= 0,
    ensures
        amount <= payout_for(amount, loser_pool, winning_pool) <= amount + loser_pool,
        payout_for(amount, loser_pool, winning_pool) <= winning_pool + loser_pool,
{
    let x = amount * loser_pool;
    assert(0 <= x) by (nonlinear_arith)
        requires x == amount * loser_pool, amount > 0, loser_pool >= 0;
    assert(x / winning_pool <= loser_pool) by (nonlinear_arith)
        requires x == amount * loser_pool, 0 < amount <= winning_pool, loser_pool >= 0;
    assert(0 <= x / winning_pool) by (nonlinear_arith)
        requires x >= 0, winning_pool > 0;
}

/// A bet is paid at most once: after a claim, claiming or refunding it
/// again is refused.
pub proof fn lemma_claim_only_once(
    s0: RenaissanceBettingContract,
    s1: RenaissanceBettingContract,
    user: AccountId,
    match_id: u64,
    payout: i128,
    now: u64,
)
    requires
        s0.claim_payout_error(user, match_id) is None,
        s0.claim_payout_post(&s1, user, match_id, payout),
    ensures
        s1.claim_payout_error(user, match_id) == Some(PlatformError::InternalError),
        s1.refund_bet_error(user, match_id, now) == Some(PlatformError::InternalError),
{
}

/// A refund is paid at most once: after a refund, claiming or refunding
/// the bet again is refused.
pub proof fn lemma_refund_only_once(
    s0: RenaissanceBettingContract,
    s1: RenaissanceBettingContract,
    user: AccountId,
    match_id: u64,
    now: u64,
    later: u64,
)
    requires
        s0.refund_bet_error(user, match_id, now) is None,
        s0.refund_bet_post(&s1, user, match_id),
    ensures
        s1.claim_payout_error(user, match_id) == Some(PlatformError::InternalError),
        s1.refund_bet_error(user, match_id, later) == Some(PlatformError::InternalError),
{
}

/// A user bets at most once on a match: after their bet is recorded, a
/// second bet by them on the same match is refused.
pub proof fn lemma_one_bet_per_user(
    s0: RenaissanceBettingContract,
    s1: RenaissanceBettingContract,
    user: AccountId,
    match_id: u64,
    outcome: Outcome,
    amount: i128,
    now: u64,
    balance: i128,
    outcome2: Outcome,
    amount2: i128,
    now2: u64,
    balance2: i128,
)
    requires
        s0.place_bet_error(user, match_id, outcome, amount, now, balance) is None,
        s0.place_bet_post(&s1, user, match_id, outcome, amount),
    ensures
        s1.place_bet_error(user, match_id, outcome2, amount2, now2, balance2) is Some,
{
}

/// Settlement is final: after it, the match cannot be settled again, its
/// oracle cannot be replaced, no bet can be placed on it and no bet on it
/// can be refunded.
pub proof fn lemma_settlement_is_final(
    s0: RenaissanceBettingContract,
    s1: RenaissanceBettingContract,
    oracle: AccountId,
    match_id: u64,
    outcome: Outcome,
    any_oracle: AccountId,
    user: AccountId,
    bet_outcome: Outcome,
    amount: i128,
    now: u64,
    balance: i128,
)
    requires
        s0.settle_bet_error(oracle, match_id) is None,
        s0.settle_bet_post(&s1, oracle, match_id, outcome),
    ensures
        s1.settle_bet_error(any_oracle, match_id) is Some,
        s1.set_oracle_error(match_id) is Some,
        s1.place_bet_error(user, match_id, bet_outcome, amount, now, balance) is Some,
        s1.refund_bet_error(user, match_id, now) is Some,
{
}

/// While the contract is paused, every match, bet, settlement, claim and
/// refund operation is refused with `Paused`.
pub proof fn lemma_paused_refuses(
    s: RenaissanceBettingContract,
    user: AccountId,
    oracle: AccountId,
    token: AccountId,
    match_id: u64,
    outcome: Outcome,
    amount: i128,
    deadline: u64,
    now: u64,
    balance: i128,
)
    requires
        s.paused,
    ensures
        s.register_match_error(match_id, deadline, now) == Some(PlatformError::Paused),
        s.set_oracle_error(match_id) == Some(PlatformError::Paused),
        s.place_bet_error(user, match_id, outcome, amount, now, balance) == Some(PlatformError::Paused),
        s.settle_bet_error(oracle, match_id) == Some(PlatformError::Paused),
        s.claim_payout_error(user, match_id) == Some(PlatformError::Paused),
        s.refund_bet_error(user, match_id, now) == Some(PlatformError::Paused),
{
}

/// Registering is accepted exactly when the contract is running, has an
/// admin, the match id is new and the deadline is still ahead; the match is
/// then open, unsettled, with three empty pools and no bettors.
pub proof fn lemma_register_match_accepted_exactly(
    s0: RenaissanceBettingContract,
    s1: RenaissanceBettingContract,
    match_id: u64,
    oracle: AccountId,
    token: AccountId,
    deadline: u64,
    now: u64,
)
    ensures
        s0.register_match_error(match_id, deadline, now) is None <==> {
            &&& !s0.paused
            &&& s0.admin is Some
            &&& !s0.matches@.contains_key(match_id)
            &&& now < deadline
        },
        !s0.paused && s0.admin is Some && !s0.matches@.contains_key(match_id) && deadline <= now
            ==> s0.register_match_error(match_id, deadline, now) == Some(PlatformError::ExpiredDeadline),
        s0.register_match_error(match_id, deadline, now) is None
            && s0.register_match_post(&s1, match_id, oracle, token, deadline) ==> {
            &&& s1.matches@[match_id].oracle == oracle
            &&& s1.matches@[match_id].token == token
            &&& s1.matches@[match_id].deadline == deadline
            &&& !s1.matches@[match_id].settled
            &&& pool_at(s1.stats@[match_id], 0) == 0
            &&& pool_at(s1.stats@[match_id], 1) == 0
            &&& pool_at(s1.stats@[match_id], 2) == 0
        },
{
}

/// A bet is accepted exactly when the contract is running, the amount is
/// positive and covered by the user's balance (all of it included), the
/// match is registered, unsettled and still before its deadline, the user
/// has no bet on it yet, and the outcome's pool can take the amount. It then
/// records the bet, adds the stake to that outcome's pool alone and moves
/// the stake from the user to the contract.
pub proof fn lemma_place_bet_accepted_exactly(
    s0: RenaissanceBettingContract,
    s1: RenaissanceBettingContract,
    user: AccountId,
    match_id: u64,
    outcome: Outcome,
    amount: i128,
    now: u64,
    balance: i128,
)
    ensures
        s0.place_bet_error(user, match_id, outcome, amount, now, balance) is None <==> {
            &&& !s0.paused
            &&& 0 < amount <= balance
            &&& s0.matches@.contains_key(match_id)
            &&& !s0.matches@[match_id].settled
            &&& now < s0.matches@[match_id].deadline
            &&& !s0.bets@.contains_key((match_id, user))
            &&& s0.stats@.contains_key(match_id)
            &&& pool_at(s0.stats@[match_id], outcome.spec_index() as int) + amount <= i128::MAX
        },
        !s0.paused && amount > 0 && s0.matches@.contains_key(match_id) && !s0.matches@[match_id].settled
            && now >= s0.matches@[match_id].deadline
            ==> s0.place_bet_error(user, match_id, outcome, amount, now, balance) == Some(PlatformError::ExpiredDeadline),
        !s0.paused && amount > 0 && s0.matches@.contains_key(match_id) && !s0.matches@[match_id].settled
            && now < s0.matches@[match_id].deadline && balance < amount
            ==> s0.place_bet_error(user, match_id, outcome, amount, now, balance) == Some(PlatformError::InsufficientBalance),
        s0.place_bet_error(user, match_id, outcome, amount, now, balance) is None
            && s0.stats_take_bet(match_id, outcome)
            && s0.place_bet_post(&s1, user, match_id, outcome, amount) ==> {
            let bet = s1.bets@[(match_id, user)];
            let i = outcome.spec_index() as int;
            &&& bet.amount == amount && bet.outcome == outcome && !bet.claimed
            &&& pool_at(s1.stats@[match_id], i) == pool_at(s0.stats@[match_id], i) + amount
            &&& forall|j: int| 0 <= j < 3 && j != i
                ==> #[trigger] pool_at(s1.stats@[match_id], j) == pool_at(s0.stats@[match_id], j)
            &&& s1.transfers@.last() == (TokenTransfer {
                token: s0.matches@[match_id].token,
                from: user,
                to: s0.contract_id,
                amount,
            })
        },
{
    let i = outcome.spec_index() as int;
    if s0.place_bet_error(user, match_id, outcome, amount, now, balance) is None
        && s0.stats_take_bet(match_id, outcome)
        && s0.place_bet_post(&s1, user, match_id, outcome, amount) {
        let p0 = amount_list_items(s0.stats@[match_id].pools);
        let p1 = amount_list_items(s1.stats@[match_id].pools);
        assert(p1 == p0.update(i, (pool_at(s0.stats@[match_id], i) + amount) as i128));
        assert forall|j: int| 0 <= j < 3 && j != i implies #[trigger] pool_at(s1.stats@[match_id], j)
            == pool_at(s0.stats@[match_id], j) by {
            assert(p1.len() == p0.len());
        }
    }
}

/// Settling is accepted exactly when the contract is running, the match is
/// registered, the caller is its oracle and it is not settled yet; the match
/// is then settled with that outcome.
pub proof fn lemma_settle_bet_accepted_exactly(
    s0: RenaissanceBettingContract,
    s1: RenaissanceBettingContract,
    oracle: AccountId,
    match_id: u64,
    outcome: Outcome,
)
    ensures
        s0.settle_bet_error(oracle, match_id) is None <==> {
            &&& !s0.paused
            &&& s0.matches@.contains_key(match_id)
            &&& s0.matches@[match_id].oracle == oracle
            &&& !s0.matches@[match_id].settled
        },
        !s0.paused && s0.matches@.contains_key(match_id) && s0.matches@[match_id].oracle != oracle
            ==> s0.settle_bet_error(oracle, match_id) == Some(PlatformError::Unauthorized),
        s0.settle_bet_error(oracle, match_id) is None && s0.settle_bet_post(&s1, oracle, match_id, outcome) ==> {
            &&& s1.matches@[match_id].settled
            &&& s1.matches@[match_id].outcome == Some(outcome)
            &&& s1.matches@[match_id].oracle == oracle
        },
{
}

/// A refund is accepted exactly when the contract is running, the user has
/// an unclaimed bet on a registered match that is not settled, and the
/// deadline has come (the deadline itself included). The bet is then marked
/// paid with its full stake, which goes back to the user.
pub proof fn lemma_refund_accepted_exactly(
    s0: RenaissanceBettingContract,
    s1: RenaissanceBettingContract,
    user: AccountId,
    match_id: u64,
    now: u64,
)
    ensures
        s0.refund_bet_error(user, match_id, now) is None <==> {
            &&& !s0.paused
            &&& s0.bets@.contains_key((match_id, user))
            &&& !s0.bets@[(match_id, user)].claimed
            &&& s0.matches@.contains_key(match_id)
            &&& !s0.matches@[match_id].settled
            &&& s0.matches@[match_id].deadline <= now
        },
        s0.refund_bet_error(user, match_id, now) is None && s0.refund_bet_post(&s1, user, match_id) ==> {
            let b0 = s0.bets@[(match_id, user)];
            &&& s1.bets@[(match_id, user)].claimed
            &&& s1.bets@[(match_id, user)].payout == b0.amount
            &&& s1.transfers@.last() == (TokenTransfer {
                token: s0.matches@[match_id].token,
                from: s0.contract_id,
                to: user,
                amount: b0.amount,
            })
        },
{
}

/// A claim needs a settled match that the bet backed the winner of: before
/// settlement it is refused as early, on a losing or already paid bet as an
/// internal error. An accepted claim pays the stake plus the stake's
/// share of the losing pools, `amount * (total - winning) / winning`
/// rounded down, marks the bet paid and sends the payout to the user.
pub proof fn lemma_claim_pays_the_share(
    s0: RenaissanceBettingContract,
    s1: RenaissanceBettingContract,
    user: AccountId,
    match_id: u64,
    payout: i128,
)
    ensures
        !s0.paused && s0.bets@.contains_key((match_id, user)) && !s0.bets@[(match_id, user)].claimed
            && s0.matches@.contains_key(match_id) && !s0.matches@[match_id].settled
            ==> s0.claim_payout_error(user, match_id) == Some(PlatformError::ExpiredDeadline),
        !s0.paused && s0.bets@.contains_key((match_id, user)) && s0.bets@[(match_id, user)].claimed
            ==> s0.claim_payout_error(user, match_id) == Some(PlatformError::InternalError),
        !s0.paused && s0.bets@.contains_key((match_id, user)) && !s0.bets@[(match_id, user)].claimed
            && s0.matches@.contains_key(match_id) && s0.matches@[match_id].settled
            && s0.matches@[match_id].outcome != Some(s0.bets@[(match_id, user)].outcome)
            ==> s0.claim_payout_error(user, match_id) is Some,
        s0.claim_payout_error(user, match_id) is None ==> {
            &&& !s0.paused
            &&& s0.matches@[match_id].settled
            &&& s0.matches@[match_id].outcome == Some(s0.bets@[(match_id, user)].outcome)
            &&& !s0.bets@[(match_id, user)].claimed
        },
        s0.claim_payout_error(user, match_id) is None && payout == s0.claim_amount(user, match_id)
            && s0.claim_payout_post(&s1, user, match_id, payout) ==> {
            let b = s0.bets@[(match_id, user)];
            let st = s0.stats@[match_id];
            let winning = pool_at(st, b.outcome.spec_index() as int);
            let total = pool_at(st, 0) + pool_at(st, 1) + pool_at(st, 2);
            &&& winning > 0
            &&& b.amount * (total - winning) >= 0 ==> payout == b.amount + b.amount * (total - winning) / winning
            &&& s1.bets@[(match_id, user)].claimed
            &&& s1.bets@[(match_id, user)].payout == payout
            &&& s1.transfers@.last() == (TokenTransfer {
                token: s0.matches@[match_id].token,
                from: s0.contract_id,
                to: user,
                amount: payout,
            })
        },
{
}

} // verus!
