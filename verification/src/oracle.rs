//! The football results oracle: authorized data providers submit match
//! results, and a result is final once an oracle other than its submitter
//! confirms it.

use vstd::prelude::*;
use std::collections::BTreeMap;
use crate::host::{
    AccountId, IdList, HOST_VEC_MAX_LEN, id_list_items, id_list_new, id_list_len, id_list_contains,
    id_list_push_back, id_list_clone,
};
use crate::platform::PlatformError;

verus! {

broadcast use vstd::laws_cmp::group_laws_cmp;

/// A final, verified football match result.
#[derive(Clone, Copy, Debug, PartialEq, Eq, Structural)]
pub struct MatchResult {
    pub match_id: u64,
    pub home_score: u32,
    pub away_score: u32,
    pub started_at: u64,
    pub finished_at: u64,
    pub finalized: bool,
}

/// A submitted result that waits for confirmation.
pub struct PendingResult {
    pub match_id: u64,
    pub home_score: u32,
    pub away_score: u32,
    pub started_at: u64,
    pub finished_at: u64,
    pub submitter: AccountId,
    /// Oracles that confirmed the result.
    pub confirmations: IdList,
}

/// Errors of the oracle.
#[derive(Copy, Clone, Debug, PartialEq, Eq, PartialOrd, Ord, Structural)]
pub enum OracleError {
    /// The caller is not an authorized oracle.
    OracleUnauthorized,
    /// A result for the match was already submitted.
    ResultAlreadyExists,
    /// The result lies outside the match window.
    InvalidMatchWindow,
    /// No result for the match.
    ResultNotFound,
    /// The submitter cannot confirm their own result.
    CannotConfirmOwnSubmission,
    /// The oracle already confirmed the result.
    AlreadyConfirmed,
    /// The match's result is already final.
    MatchAlreadyFinalized,
    /// Not enough confirmations to finalize.
    InsufficientConfirmations,
}

impl OracleError {
    /// The numeric code under which the error crosses the contract boundary.
    pub open spec fn spec_code(self) -> u32 {
        match self {
            OracleError::OracleUnauthorized => 100,
            OracleError::ResultAlreadyExists => 101,
            OracleError::InvalidMatchWindow => 102,
            OracleError::ResultNotFound => 103,
            OracleError::CannotConfirmOwnSubmission => 104,
            OracleError::AlreadyConfirmed => 105,
            OracleError::MatchAlreadyFinalized => 106,
            OracleError::InsufficientConfirmations => 107,
        }
    }

    /// The numeric code of the error.
    pub fn code(&self) -> (c: u32)
        ensures
            c == self.spec_code(),
    {
        match self {
            OracleError::OracleUnauthorized => 100,
            OracleError::ResultAlreadyExists => 101,
            OracleError::InvalidMatchWindow => 102,
            OracleError::ResultNotFound => 103,
            OracleError::CannotConfirmOwnSubmission => 104,
            OracleError::AlreadyConfirmed => 105,
            OracleError::MatchAlreadyFinalized => 106,
            OracleError::InsufficientConfirmations => 107,
        }
    }
}

/// The events that the oracle publishes.
#[derive(Clone, Copy, Debug, PartialEq, Eq, Structural)]
pub enum OracleEvent {
    ResultSubmitted { match_id: u64, oracle: AccountId },
    ResultConfirmed { match_id: u64, oracle: AccountId },
    ResultFinalized { match_id: u64 },
}

impl OracleEvent {
    /// The topic under which the event is published.
    pub open spec fn spec_topic(self) -> Seq<char> {
        match self {
            OracleEvent::ResultSubmitted { .. } => "ResultSubmitted"@,
            OracleEvent::ResultConfirmed { .. } => "ResultConfirmed"@,
            OracleEvent::ResultFinalized { .. } => "ResultFinalized"@,
        }
    }

    /// The topic under which the event is published.
    pub fn topic(&self) -> (t: &'static str)
        ensures
            t@ == self.spec_topic(),
            crate::host::is_symbol_text(t@),
    {
        match self {
            OracleEvent::ResultSubmitted { .. } => {
                proof { reveal_strlit("ResultSubmitted"); }
                "ResultSubmitted"
            },
            OracleEvent::ResultConfirmed { .. } => {
                proof { reveal_strlit("ResultConfirmed"); }
                "ResultConfirmed"
            },
            OracleEvent::ResultFinalized { .. } => {
                proof { reveal_strlit("ResultFinalized"); }
                "ResultFinalized"
            },
        }
    }
}

/// Least number of oracles the contract starts with, for 2-of-N
/// confirmation.
pub const MIN_ORACLES: u32 = 2;

/// The oracle contract's storage and the events it has published.
pub struct FootballOracleContract {
    pub env: soroban_sdk::Env,
    /// The oracle contract's own account.
    pub contract_id: AccountId,
    pub admin: Option<AccountId>,
    pub paused: bool,
    /// The authorized oracles; absent before initialization.
    pub oracles: Option<IdList>,
    pub pending_results: BTreeMap<u64, PendingResult>,
    pub finalized_results: BTreeMap<u64, MatchResult>,
    /// Events published, oldest first.
    pub events: Vec<OracleEvent>,
}

impl FootballOracleContract {
    /// The authorized oracles, as a sequence; empty when absent.
    pub open spec fn oracle_list(&self) -> Seq<AccountId> {
        match self.oracles {
            Some(l) => id_list_items(l),
            None => Seq::empty(),
        }
    }

    /// An oracle contract with empty storage.
    pub fn new(env: soroban_sdk::Env, contract_id: AccountId) -> (c: Self)
        ensures
            c.env == env,
            c.contract_id == contract_id,
            c.admin is None,
            !c.paused,
            c.oracles is None,
            c.pending_results@ == Map::<u64, PendingResult>::empty(),
            c.finalized_results@ == Map::<u64, MatchResult>::empty(),
            c.events@ == Seq::<OracleEvent>::empty(),
    {
        FootballOracleContract {
            env,
            contract_id,
            admin: None,
            paused: false,
            oracles: None,
            pending_results: BTreeMap::new(),
            finalized_results: BTreeMap::new(),
            events: Vec::new(),
        }
    }

    /// Sets the admin and the initial oracles, once; at least two oracles
    /// are needed.
    pub fn initialize(&mut self, admin: AccountId, initial_oracles: IdList) -> (r: Result<(), PlatformError>)
        ensures
            match r {
                Ok(()) => {
                    &&& old(self).admin is None
                    &&& id_list_items(initial_oracles).len() >= MIN_ORACLES
                    &&& *final(self) == (FootballOracleContract {
                        admin: Some(admin),
                        oracles: Some(initial_oracles),
                        paused: false,
                        ..*old(self)
                    })
                },
                Err(e) => {
                    &&& old(self).admin is Some || id_list_items(initial_oracles).len() < MIN_ORACLES
                    &&& e == PlatformError::InternalError
                    &&& *final(self) == *old(self)
                },
            },
    {
        if self.admin.is_some() {
            return Err(PlatformError::InternalError);
        }
        if id_list_len(&initial_oracles) < MIN_ORACLES {
            return Err(PlatformError::InternalError);
        }
        self.admin = Some(admin);
        self.oracles = Some(initial_oracles);
        self.paused = false;
        Ok(())
    }

    /// The error with which `add_oracle` refuses, if any.
    pub open spec fn add_oracle_error(&self) -> Option<PlatformError> {
        if self.admin is None {
            Some(PlatformError::Unauthorized)
        } else if self.oracles is None {
            Some(PlatformError::InternalError)
        } else {
            None
        }
    }

    /// Whether the oracle list can take one more oracle; the host refuses
    /// to grow a full vector.
    pub fn oracle_list_has_room(&self) -> (b: bool)
        ensures
            b == (self.oracle_list().len() < HOST_VEC_MAX_LEN),
    {
        match &self.oracles {
            Some(list) => id_list_len(list) < HOST_VEC_MAX_LEN,
            None => true,
        }
    }

    /// Authorizes `new_oracle`; adding a listed oracle changes nothing.
    pub fn add_oracle(&mut self, new_oracle: AccountId) -> (r: Result<(), PlatformError>)
        requires
            old(self).add_oracle_error() is None && !old(self).oracle_list().contains(new_oracle)
                ==> old(self).oracle_list().len() < HOST_VEC_MAX_LEN,
        ensures
            match r {
                Ok(()) => {
                    &&& old(self).add_oracle_error() is None
                    &&& final(self).oracles is Some
                    &&& final(self).oracle_list() == (if old(self).oracle_list().contains(new_oracle) {
                        old(self).oracle_list()
                    } else {
                        old(self).oracle_list().push(new_oracle)
                    })
                    &&& *final(self) == (FootballOracleContract { oracles: final(self).oracles, ..*old(self) })
                },
                Err(e) => {
                    &&& old(self).add_oracle_error() == Some(e)
                    &&& *final(self) == *old(self)
                },
            },
    {
        if self.admin.is_none() {
            return Err(PlatformError::Unauthorized);
        }
        match self.oracles.take() {
            Some(mut list) => {
                if !id_list_contains(&list, new_oracle) {
                    id_list_push_back(&mut list, new_oracle);
                }
                self.oracles = Some(list);
                Ok(())
            },
            None => Err(PlatformError::InternalError),
        }
    }

    /// Checks that oracle operations may run and that `oracle` is
    /// authorized.
    fn check_oracle(&self, oracle: AccountId) -> (r: Result<(), OracleError>)
        ensures
            r is Ok <==> !self.paused && self.oracle_list().contains(oracle),
            r is Err ==> r == Err::<(), OracleError>(OracleError::OracleUnauthorized),
    {
        if self.paused {
            return Err(OracleError::OracleUnauthorized);
        }
        match &self.oracles {
            Some(list) => {
                if !id_list_contains(list, oracle) {
                    return Err(OracleError::OracleUnauthorized);
                }
                Ok(())
            },
            None => Err(OracleError::OracleUnauthorized),
        }
    }

    /// The error with which `submit_result` refuses, if any.
    pub open spec fn submit_result_error(&self, oracle: AccountId, match_id: u64, started_at: u64, finished_at: u64, now: u64) -> Option<OracleError> {
        if self.paused || !self.oracle_list().contains(oracle) {
            Some(OracleError::OracleUnauthorized)
        } else if self.finalized_results@.contains_key(match_id) {
            Some(OracleError::MatchAlreadyFinalized)
        } else if self.pending_results@.contains_key(match_id) {
            Some(OracleError::ResultAlreadyExists)
        } else if started_at >= finished_at || finished_at > now {
            Some(OracleError::InvalidMatchWindow)
        } else {
            None
        }
    }

    /// The state after an accepted `submit_result`: the result waits for
    /// confirmation, with no confirmations yet.
    pub open spec fn submit_result_post(
        &self,
        next: &Self,
        oracle: AccountId,
        match_id: u64,
        home_score: u32,
        away_score: u32,
        started_at: u64,
        finished_at: u64,
    ) -> bool {
        let p = next.pending_results@[match_id];
        &&& next.env == self.env
        &&& next.contract_id == self.contract_id
        &&& next.admin == self.admin
        &&& next.paused == self.paused
        &&& next.oracles == self.oracles
        &&& next.finalized_results == self.finalized_results
        &&& next.pending_results@.dom() == self.pending_results@.dom().insert(match_id)
        &&& forall|k: u64| k != match_id && #[trigger] self.pending_results@.contains_key(k)
            ==> next.pending_results@[k] == self.pending_results@[k]
        &&& p.match_id == match_id
        &&& p.home_score == home_score
        &&& p.away_score == away_score
        &&& p.started_at == started_at
        &&& p.finished_at == finished_at
        &&& p.submitter == oracle
        &&& id_list_items(p.confirmations) == Seq::<AccountId>::empty()
        &&& next.events@ == self.events@.push(OracleEvent::ResultSubmitted { match_id, oracle })
    }

    /// Oracle `oracle` submits the result of `match_id`. `now` is the
    /// ledger time; the match must have finished by then.
    pub fn submit_result(
        &mut self,
        oracle: AccountId,
        match_id: u64,
        home_score: u32,
        away_score: u32,
        started_at: u64,
        finished_at: u64,
        now: u64,
    ) -> (r: Result<(), OracleError>)
        ensures
            match r {
                Ok(()) => {
                    &&& old(self).submit_result_error(oracle, match_id, started_at, finished_at, now) is None
                    &&& old(self).submit_result_post(final(self), oracle, match_id, home_score, away_score, started_at, finished_at)
                },
                Err(e) => {
                    &&& old(self).submit_result_error(oracle, match_id, started_at, finished_at, now) == Some(e)
                    &&& *final(self) == *old(self)
                },
            },
    {
        self.check_oracle(oracle)?;
        if self.finalized_results.contains_key(&match_id) {
            return Err(OracleError::MatchAlreadyFinalized);
        }
        if self.pending_results.contains_key(&match_id) {
            return Err(OracleError::ResultAlreadyExists);
        }
        if started_at >= finished_at || finished_at > now {
            return Err(OracleError::InvalidMatchWindow);
        }
        let pending = PendingResult {
            match_id,
            home_score,
            away_score,
            started_at,
            finished_at,
            submitter: oracle,
            confirmations: id_list_new(&self.env),
        };
        self.pending_results.insert(match_id, pending);
        self.events.push(OracleEvent::ResultSubmitted { match_id, oracle });
        Ok(())
    }

    /// The error with which `confirm_result` refuses, if any.
    pub open spec fn confirm_result_error(&self, oracle: AccountId, match_id: u64) -> Option<OracleError> {
        if self.paused || !self.oracle_list().contains(oracle) {
            Some(OracleError::OracleUnauthorized)
        } else if self.finalized_results@.contains_key(match_id) {
            Some(OracleError::MatchAlreadyFinalized)
        } else if !self.pending_results@.contains_key(match_id) {
            Some(OracleError::ResultNotFound)
        } else if self.pending_results@[match_id].submitter == oracle {
            Some(OracleError::CannotConfirmOwnSubmission)
        } else if id_list_items(self.pending_results@[match_id].confirmations).contains(oracle) {
            Some(OracleError::AlreadyConfirmed)
        } else {
            None
        }
    }

    /// The final result made of the pending result of `match_id`.
    pub open spec fn finalized_from_pending(&self, match_id: u64) -> MatchResult {
        let p = self.pending_results@[match_id];
        MatchResult {
            match_id,
            home_score: p.home_score,
            away_score: p.away_score,
            started_at: p.started_at,
            finished_at: p.finished_at,
            finalized: true,
        }
    }

    /// The state after an accepted `confirm_result`: the confirmation
    /// completes the quorum, so the result becomes final and stops pending.
    pub open spec fn confirm_result_post(&self, next: &Self, oracle: AccountId, match_id: u64) -> bool {
        &&& next.env == self.env
        &&& next.contract_id == self.contract_id
        &&& next.admin == self.admin
        &&& next.paused == self.paused
        &&& next.oracles == self.oracles
        &&& next.finalized_results@ == self.finalized_results@.insert(match_id, self.finalized_from_pending(match_id))
        &&& next.pending_results@ == self.pending_results@.remove(match_id)
        &&& next.events@ == self.events@.push(OracleEvent::ResultConfirmed { match_id, oracle }).push(
            OracleEvent::ResultFinalized { match_id },
        )
    }

    /// Oracle `oracle` confirms the pending result of `match_id`, which
    /// makes it final.
    pub fn confirm_result(&mut self, oracle: AccountId, match_id: u64) -> (r: Result<(), OracleError>)
        requires
            old(self).confirm_result_error(oracle, match_id) is None
                ==> id_list_items(old(self).pending_results@[match_id].confirmations).len() < HOST_VEC_MAX_LEN,
        ensures
            match r {
                Ok(()) => {
                    &&& old(self).confirm_result_error(oracle, match_id) is None
                    &&& old(self).confirm_result_post(final(self), oracle, match_id)
                },
                Err(e) => {
                    &&& old(self).confirm_result_error(oracle, match_id) == Some(e)
                    &&& *final(self) == *old(self)
                },
            },
    {
        self.check_oracle(oracle)?;
        if self.finalized_results.contains_key(&match_id) {
            return Err(OracleError::MatchAlreadyFinalized);
        }
        match self.pending_results.get(&match_id) {
            Some(p) => {
                if p.submitter == oracle {
                    return Err(OracleError::CannotConfirmOwnSubmission);
                }
                if id_list_contains(&p.confirmations, oracle) {
                    return Err(OracleError::AlreadyConfirmed);
                }
            },
            None => return Err(OracleError::ResultNotFound),
        }
        let mut pending = self.pending_results.remove(&match_id).unwrap();
        id_list_push_back(&mut pending.confirmations, oracle);
        self.events.push(OracleEvent::ResultConfirmed { match_id, oracle });
        if id_list_len(&pending.confirmations) >= 1 {
            let finalized = MatchResult {
                match_id,
                home_score: pending.home_score,
                away_score: pending.away_score,
                started_at: pending.started_at,
                finished_at: pending.finished_at,
                finalized: true,
            };
            self.finalized_results.insert(match_id, finalized);
            self.events.push(OracleEvent::ResultFinalized { match_id });
        } else {
            self.pending_results.insert(match_id, pending);
        }
        Ok(())
    }

    /// Whether the pending result of `match_id`, if any, can take one more
    /// confirmation: the host refuses to grow a full vector.
    pub open spec fn confirmations_have_room(&self, match_id: u64) -> bool {
        self.pending_results@.contains_key(match_id)
            ==> id_list_items(self.pending_results@[match_id].confirmations).len() < HOST_VEC_MAX_LEN
    }

    /// `confirm_result`, where the pending result can take the
    /// confirmation; `None`, with nothing changed, where the accepted
    /// confirmation would overfill the host vector of confirmations (on
    /// which `confirm_result` itself panics).
    pub fn confirm_result_with_room(&mut self, oracle: AccountId, match_id: u64) -> (r: Option<Result<(), OracleError>>)
        ensures
            match r {
                None => {
                    &&& old(self).confirm_result_error(oracle, match_id) is None
                    &&& !old(self).confirmations_have_room(match_id)
                    &&& *final(self) == *old(self)
                },
                Some(Ok(())) => {
                    &&& old(self).confirm_result_error(oracle, match_id) is None
                    &&& old(self).confirm_result_post(final(self), oracle, match_id)
                },
                Some(Err(e)) => {
                    &&& old(self).confirm_result_error(oracle, match_id) == Some(e)
                    &&& *final(self) == *old(self)
                },
            },
    {
        let room = match self.pending_results.get(&match_id) {
            Some(p) => id_list_len(&p.confirmations) < HOST_VEC_MAX_LEN,
            None => true,
        };
        if room {
            Some(self.confirm_result(oracle, match_id))
        } else {
            match self.check_oracle(oracle) {
                Err(e) => Some(Err(e)),
                Ok(()) => {
                    if self.finalized_results.contains_key(&match_id) {
                        return Some(Err(OracleError::MatchAlreadyFinalized));
                    }
                    let p = self.pending_results.get(&match_id).unwrap();
                    if p.submitter == oracle {
                        return Some(Err(OracleError::CannotConfirmOwnSubmission));
                    }
                    if id_list_contains(&p.confirmations, oracle) {
                        return Some(Err(OracleError::AlreadyConfirmed));
                    }
                    None
                },
            }
        }
    }

    /// The final result of `match_id`.
    pub fn get_result(&self, match_id: u64) -> (r: Result<MatchResult, OracleError>)
        ensures
            r == (if self.finalized_results@.contains_key(match_id) {
                Ok(self.finalized_results@[match_id])
            } else {
                Err(OracleError::ResultNotFound)
            }),
    {
        match self.finalized_results.get(&match_id) {
            Some(m) => Ok(*m),
            None => Err(OracleError::ResultNotFound),
        }
    }

    /// Whether the result of `match_id` is final.
    pub fn is_finalized(&self, match_id: u64) -> (b: bool)
        ensures
            b == self.finalized_results@.contains_key(match_id),
    {
        self.finalized_results.contains_key(&match_id)
    }

    /// The authorized oracles; an empty list before initialization.
    pub fn get_oracles(&self) -> (l: IdList)
        ensures
            id_list_items(l) == self.oracle_list(),
    {
        match &self.oracles {
            Some(list) => id_list_clone(list),
            None => id_list_new(&self.env),
        }
    }
}

// ── laws ──────────────────────────────────────────────────────────────────

/// A result becomes final only with a second oracle: its submitter cannot
/// confirm it, and the confirmation of another authorized oracle makes the
/// submitted scores final.
pub proof fn lemma_finalization_needs_second_oracle(
    s0: FootballOracleContract,
    s1: FootballOracleContract,
    submitter: AccountId,
    confirmer: AccountId,
    match_id: u64,
    home_score: u32,
    away_score: u32,
    started_at: u64,
    finished_at: u64,
    now: u64,
)
    requires
        s0.submit_result_error(submitter, match_id, started_at, finished_at, now) is None,
        s0.submit_result_post(&s1, submitter, match_id, home_score, away_score, started_at, finished_at),
    ensures
        s1.confirm_result_error(submitter, match_id) == Some(OracleError::CannotConfirmOwnSubmission),
        confirmer != submitter && s1.oracle_list().contains(confirmer) ==> {
            &&& s1.confirm_result_error(confirmer, match_id) is None
            &&& s1.finalized_from_pending(match_id) == (MatchResult {
                match_id,
                home_score,
                away_score,
                started_at,
                finished_at,
                finalized: true,
            })
        },
{
}

/// Final results never change: submitting and confirming leave every final
/// result in place, and refuse to touch a match whose result is final.
pub proof fn lemma_final_results_are_immutable(
    s0: FootballOracleContract,
    s1: FootballOracleContract,
    oracle: AccountId,
    match_id: u64,
    home_score: u32,
    away_score: u32,
    started_at: u64,
    finished_at: u64,
    now: u64,
    k: u64,
)
    requires
        s0.finalized_results@.contains_key(k),
    ensures
        s0.submit_result_error(oracle, k, started_at, finished_at, now) is Some,
        s0.confirm_result_error(oracle, k) is Some,
        s0.submit_result_error(oracle, match_id, started_at, finished_at, now) is None
            && s0.submit_result_post(&s1, oracle, match_id, home_score, away_score, started_at, finished_at)
            ==> s1.finalized_results@.contains_key(k) && s1.finalized_results@[k] == s0.finalized_results@[k],
        s0.confirm_result_error(oracle, match_id) is None && s0.confirm_result_post(&s1, oracle, match_id)
            ==> s1.finalized_results@.contains_key(k) && s1.finalized_results@[k] == s0.finalized_results@[k],
{
}

/// Adding oracles never lists one twice.
pub proof fn lemma_add_oracle_keeps_list_distinct(s0: FootballOracleContract, s1: FootballOracleContract, new_oracle: AccountId)
    requires
        s0.oracle_list().no_duplicates(),
        s1.oracle_list() == (if s0.oracle_list().contains(new_oracle) {
            s0.oracle_list()
        } else {
            s0.oracle_list().push(new_oracle)
        }),
    ensures
        s1.oracle_list().no_duplicates(),
        s1.oracle_list().contains(new_oracle),
{
    let l = s0.oracle_list();
    if !l.contains(new_oracle) {
        let n = l.push(new_oracle);
        assert(n[l.len() as int] == new_oracle);
        assert forall|a: int, b: int| 0 <= a < n.len() && 0 <= b < n.len() && a != b implies n[a] != n[b] by {
            if a < l.len() && b < l.len() {
                assert(n[a] == l[a] && n[b] == l[b]);
            } else if a < l.len() {
                assert(n[a] == l[a]);
                assert(l.contains(l[a]));
            } else {
                assert(n[b] == l[b]);
                assert(l.contains(l[b]));
            }
        }
    }
}

/// A submission is accepted exactly when the contract is running, the
/// caller is a listed oracle, the match has neither a final nor a pending
/// result, and the match window is sound: it starts before it finishes, and
/// finishes no later than now. The result then waits for confirmation under
/// the caller's name.
pub proof fn lemma_submit_accepted_exactly(
    s0: FootballOracleContract,
    s1: FootballOracleContract,
    oracle: AccountId,
    match_id: u64,
    home_score: u32,
    away_score: u32,
    started_at: u64,
    finished_at: u64,
    now: u64,
)
    ensures
        s0.submit_result_error(oracle, match_id, started_at, finished_at, now) is None <==> {
            &&& !s0.paused
            &&& s0.oracle_list().contains(oracle)
            &&& !s0.finalized_results@.contains_key(match_id)
            &&& !s0.pending_results@.contains_key(match_id)
            &&& started_at < finished_at <= now
        },
        s0.paused || !s0.oracle_list().contains(oracle)
            ==> s0.submit_result_error(oracle, match_id, started_at, finished_at, now)
                == Some(OracleError::OracleUnauthorized),
        !s0.paused && s0.oracle_list().contains(oracle) && s0.finalized_results@.contains_key(match_id)
            ==> s0.submit_result_error(oracle, match_id, started_at, finished_at, now)
                == Some(OracleError::MatchAlreadyFinalized),
        s0.submit_result_error(oracle, match_id, started_at, finished_at, now) is None
            && s0.submit_result_post(&s1, oracle, match_id, home_score, away_score, started_at, finished_at) ==> {
            &&& s1.pending_results@.contains_key(match_id)
            &&& s1.pending_results@[match_id].submitter == oracle
            &&& s1.pending_results@[match_id].home_score == home_score
            &&& s1.pending_results@[match_id].away_score == away_score
            &&& !s1.finalized_results@.contains_key(match_id)
        },
{
}

/// A confirmation is accepted exactly when the contract is running, the
/// caller is a listed oracle other than the submitter who has not confirmed
/// yet, and the match's result is pending and not final. The result then
/// becomes final with the submitted scores and window, and stops pending.
pub proof fn lemma_confirm_accepted_exactly(
    s0: FootballOracleContract,
    s1: FootballOracleContract,
    oracle: AccountId,
    match_id: u64,
)
    ensures
        s0.confirm_result_error(oracle, match_id) is None <==> {
            &&& !s0.paused
            &&& s0.oracle_list().contains(oracle)
            &&& !s0.finalized_results@.contains_key(match_id)
            &&& s0.pending_results@.contains_key(match_id)
            &&& s0.pending_results@[match_id].submitter != oracle
            &&& !id_list_items(s0.pending_results@[match_id].confirmations).contains(oracle)
        },
        !s0.paused && s0.oracle_list().contains(oracle) && s0.finalized_results@.contains_key(match_id)
            ==> s0.confirm_result_error(oracle, match_id) == Some(OracleError::MatchAlreadyFinalized),
        !s0.paused && s0.oracle_list().contains(oracle) && !s0.finalized_results@.contains_key(match_id)
            && s0.pending_results@.contains_key(match_id) && s0.pending_results@[match_id].submitter == oracle
            ==> s0.confirm_result_error(oracle, match_id) == Some(OracleError::CannotConfirmOwnSubmission),
        s0.confirm_result_error(oracle, match_id) is None && s0.confirm_result_post(&s1, oracle, match_id) ==> {
            let p = s0.pending_results@[match_id];
            let r = s1.finalized_results@[match_id];
            &&& s1.finalized_results@.contains_key(match_id)
            &&& r.match_id == match_id && r.finalized
            &&& r.home_score == p.home_score && r.away_score == p.away_score
            &&& r.started_at == p.started_at && r.finished_at == p.finished_at
            &&& !s1.pending_results@.contains_key(match_id)
        },
{
}

} // verus!
