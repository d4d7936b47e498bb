//! The betting contract's books: each match's pools hold exactly the stakes
//! of its bets, whatever sequence of operations ran.

use vstd::prelude::*;
use crate::host::{AccountId, amount_list_items, id_list_items};
use crate::betting::{Bet, Match, Outcome, RenaissanceBettingContract, pool_at};

verus! {

/// The sum of `f` over the bets on `match_id` of the users `bettors`.
pub open spec fn sum_over_bets(
    bets: Map<(u64, AccountId), Bet>,
    match_id: u64,
    bettors: Seq<AccountId>,
    f: spec_fn(Bet) -> int,
) -> int
    decreases bettors.len(),
{
    if bettors.len() == 0 {
        0
    } else {
        sum_over_bets(bets, match_id, bettors.drop_last(), f) + f(bets[(match_id, bettors.last())])
    }
}

/// What a bet puts on the pool with index `i`: its stake if it backs that
/// outcome, otherwise nothing.
pub open spec fn stake_on(i: int) -> spec_fn(Bet) -> int {
    |b: Bet| if b.outcome.spec_index() as int == i { b.amount as int } else { 0 }
}

/// The stakes of the bets of `bettors` on `match_id` that back the outcome
/// with pool index `i`.
pub open spec fn staked_on(bets: Map<(u64, AccountId), Bet>, match_id: u64, bettors: Seq<AccountId>, i: int) -> int {
    sum_over_bets(bets, match_id, bettors, stake_on(i))
}

/// The books of match `match_id` balance: three pools, every bettor listed
/// once and holding a bet, every bet's user listed, and each pool equal to
/// the stakes on its outcome.
pub open spec fn match_books_balance(c: &RenaissanceBettingContract, match_id: u64) -> bool {
    let s = c.stats@[match_id];
    let bettors = id_list_items(s.bettors);
    &&& amount_list_items(s.pools).len() == 3
    &&& bettors.no_duplicates()
    &&& forall|j: int| 0 <= j < bettors.len() ==> #[trigger] c.bets@.contains_key((match_id, bettors[j]))
    &&& forall|u: AccountId| #[trigger] c.bets@.contains_key((match_id, u)) ==> bettors.contains(u)
    &&& forall|i: int| 0 <= i < 3 ==> #[trigger] pool_at(s, i) == staked_on(c.bets@, match_id, bettors, i)
}

/// The contract's books balance: every bet belongs to a registered match
/// with statistics, and the books of every match balance.
pub open spec fn books_balance(c: &RenaissanceBettingContract) -> bool {
    &&& forall|k: (u64, AccountId)| #[trigger] c.bets@.contains_key(k)
        ==> c.matches@.contains_key(k.0) && c.stats@.contains_key(k.0)
    &&& forall|m: u64| #[trigger] c.stats@.contains_key(m) ==> match_books_balance(c, m)
}

/// A sum over bettors only depends on the bets of those bettors, through
/// `f`.
pub proof fn lemma_sum_depends_on_listed_bets(
    b1: Map<(u64, AccountId), Bet>,
    b2: Map<(u64, AccountId), Bet>,
    match_id: u64,
    bettors: Seq<AccountId>,
    f: spec_fn(Bet) -> int,
)
    requires
        forall|j: int| 0 <= j < bettors.len() ==> f(#[trigger] b1[(match_id, bettors[j])]) == f(b2[(match_id, bettors[j])]),
    ensures
        sum_over_bets(b1, match_id, bettors, f) == sum_over_bets(b2, match_id, bettors, f),
    decreases bettors.len(),
{
    if bettors.len() > 0 {
        let rest = bettors.drop_last();
        assert forall|j: int| 0 <= j < rest.len() implies f(#[trigger] b1[(match_id, rest[j])]) == f(b2[(match_id, rest[j])]) by {
            assert(rest[j] == bettors[j]);
        }
        lemma_sum_depends_on_listed_bets(b1, b2, match_id, rest, f);
        assert(bettors.last() == bettors[bettors.len() - 1]);
    }
}

/// Listing one more bettor adds their bet's share to a sum.
pub proof fn lemma_sum_push(
    bets: Map<(u64, AccountId), Bet>,
    match_id: u64,
    bettors: Seq<AccountId>,
    user: AccountId,
    f: spec_fn(Bet) -> int,
)
    ensures
        sum_over_bets(bets, match_id, bettors.push(user), f)
            == sum_over_bets(bets, match_id, bettors, f) + f(bets[(match_id, user)]),
{
    assert(bettors.push(user).drop_last() =~= bettors);
}

/// Replacing the bet of a listed bettor changes a sum by the difference of
/// the two bets' shares.
pub proof fn lemma_sum_update(
    bets: Map<(u64, AccountId), Bet>,
    match_id: u64,
    bettors: Seq<AccountId>,
    user: AccountId,
    bet: Bet,
    f: spec_fn(Bet) -> int,
)
    requires
        bettors.no_duplicates(),
        bettors.contains(user),
    ensures
        sum_over_bets(bets.insert((match_id, user), bet), match_id, bettors, f)
            == sum_over_bets(bets, match_id, bettors, f) - f(bets[(match_id, user)]) + f(bet),
    decreases bettors.len(),
{
    let nb = bets.insert((match_id, user), bet);
    let rest = bettors.drop_last();
    if bettors.last() == user {
        assert(!rest.contains(user)) by {
            if rest.contains(user) {
                let j = choose|j: int| 0 <= j < rest.len() && rest[j] == user;
                assert(bettors[j] == bettors[bettors.len() - 1]);
            }
        }
        assert forall|j: int| 0 <= j < rest.len() implies f(#[trigger] nb[(match_id, rest[j])]) == f(bets[(match_id, rest[j])]) by {
            assert(rest[j] != user) by {
                if rest[j] == user {
                    assert(rest.contains(user));
                }
            }
        }
        lemma_sum_depends_on_listed_bets(nb, bets, match_id, rest, f);
    } else {
        let k = choose|k: int| 0 <= k < bettors.len() && bettors[k] == user;
        assert(k < bettors.len() - 1);
        assert(rest[k] == user);
        assert(rest.no_duplicates()) by {
            assert forall|a: int, b: int| 0 <= a < rest.len() && 0 <= b < rest.len() && a != b implies rest[a] != rest[b] by {
                assert(rest[a] == bettors[a] && rest[b] == bettors[b]);
            }
        }
        lemma_sum_update(bets, match_id, rest, user, bet, f);
    }
}

/// Recording a bet of a user who has none on `match_id` leaves the books
/// of every other match as they were.
proof fn lemma_other_match_books_unchanged(
    s0: RenaissanceBettingContract,
    s1: RenaissanceBettingContract,
    key: (u64, AccountId),
    bet: Bet,
    m: u64,
)
    requires
        key.0 != m,
        s0.stats@.contains_key(m),
        match_books_balance(&s0, m),
        s1.stats@.contains_key(m),
        s1.stats@[m] == s0.stats@[m],
        s1.bets@ == s0.bets@.insert(key, bet),
    ensures
        match_books_balance(&s1, m),
{
    let bettors = id_list_items(s0.stats@[m].bettors);
    assert forall|u: AccountId| #[trigger] s1.bets@.contains_key((m, u)) implies bettors.contains(u) by {
        assert(s0.bets@.contains_key((m, u)));
    }
    assert forall|j: int| 0 <= j < bettors.len() implies #[trigger] s1.bets@.contains_key((m, bettors[j])) by {
        assert(s0.bets@.contains_key((m, bettors[j])));
    }
    assert forall|i: int| 0 <= i < 3 implies #[trigger] pool_at(s1.stats@[m], i) == staked_on(s1.bets@, m, bettors, i) by {
        lemma_sum_depends_on_listed_bets(s1.bets@, s0.bets@, m, bettors, stake_on(i));
    }
}

/// Placing a bet keeps the books balanced: its stake goes to the pool of
/// its outcome, and its user joins the bettors.
pub proof fn lemma_place_bet_keeps_books(
    s0: RenaissanceBettingContract,
    s1: RenaissanceBettingContract,
    user: AccountId,
    match_id: u64,
    outcome: Outcome,
    amount: i128,
    now: u64,
    balance: i128,
)
    requires
        books_balance(&s0),
        s0.place_bet_error(user, match_id, outcome, amount, now, balance) is None,
        s0.place_bet_post(&s1, user, match_id, outcome, amount),
    ensures
        books_balance(&s1),
{
    let bet = s0.placed_bet(user, match_id, outcome, amount);
    let key = (match_id, user);
    assert forall|k: (u64, AccountId)| #[trigger] s1.bets@.contains_key(k)
        implies s1.matches@.contains_key(k.0) && s1.stats@.contains_key(k.0) by {
        if k != key {
            assert(s0.bets@.contains_key(k));
        }
    }
    assert forall|m: u64| #[trigger] s1.stats@.contains_key(m) implies match_books_balance(&s1, m) by {
        if m != match_id {
            lemma_other_match_books_unchanged(s0, s1, key, bet, m);
        } else {
            let st0 = s0.stats@[m];
            let st1 = s1.stats@[m];
            let b0 = id_list_items(st0.bettors);
            let b1 = id_list_items(st1.bettors);
            assert(b1 == b0.push(user));
            assert(!b0.contains(user)) by {
                if b0.contains(user) {
                    let j = choose|j: int| 0 <= j < b0.len() && b0[j] == user;
                    assert(s0.bets@.contains_key((m, b0[j])));
                }
            }
            assert(b1.no_duplicates()) by {
                assert forall|a: int, b: int| 0 <= a < b1.len() && 0 <= b < b1.len() && a != b implies b1[a] != b1[b] by {
                    if a < b0.len() && b < b0.len() {
                        assert(b1[a] == b0[a] && b1[b] == b0[b]);
                    } else if a < b0.len() {
                        assert(b1[a] == b0[a]);
                        assert(b0.contains(b0[a]));
                    } else {
                        assert(b1[b] == b0[b]);
                        assert(b0.contains(b0[b]));
                    }
                }
            }
            assert forall|j: int| 0 <= j < b1.len() implies #[trigger] s1.bets@.contains_key((m, b1[j])) by {
                if j < b0.len() {
                    assert(b1[j] == b0[j]);
                    assert(s0.bets@.contains_key((m, b0[j])));
                }
            }
            assert forall|u: AccountId| #[trigger] s1.bets@.contains_key((m, u)) implies b1.contains(u) by {
                if u != user {
                    assert(s0.bets@.contains_key((m, u)));
                    assert(b0.contains(u));
                    let j = choose|j: int| 0 <= j < b0.len() && b0[j] == u;
                    assert(b1[j] == u);
                } else {
                    assert(b1[b0.len() as int] == user);
                }
            }
            assert forall|i: int| 0 <= i < 3 implies #[trigger] pool_at(st1, i) == staked_on(s1.bets@, m, b1, i) by {
                lemma_sum_push(s1.bets@, m, b0, user, stake_on(i));
                assert forall|j: int| 0 <= j < b0.len() implies stake_on(i)(#[trigger] s1.bets@[(m, b0[j])]) == stake_on(i)(s0.bets@[(m, b0[j])]) by {
                    assert(b0[j] != user) by {
                        assert(b0.contains(b0[j]));
                    }
                }
                lemma_sum_depends_on_listed_bets(s1.bets@, s0.bets@, m, b0, stake_on(i));
                assert(s1.bets@[(m, user)] == bet);
                assert(match_books_balance(&s0, m));
                assert(pool_at(st0, i) == staked_on(s0.bets@, m, b0, i));
                let idx = outcome.spec_index() as int;
                assert(amount_list_items(st0.pools).len() == 3);
                assert(pool_at(st1, i) == if i == idx { pool_at(st0, i) + amount } else { pool_at(st0, i) });
                assert(stake_on(i)(bet) == if i == idx { amount as int } else { 0 });
            }
        }
    }
}

/// Marking a recorded bet paid, without touching its stake or outcome,
/// keeps the books balanced, as long as matches and statistics stay.
proof fn lemma_restamp_keeps_books(
    s0: RenaissanceBettingContract,
    s1: RenaissanceBettingContract,
    key: (u64, AccountId),
    bet: Bet,
)
    requires
        books_balance(&s0),
        s0.bets@.contains_key(key),
        bet.amount == s0.bets@[key].amount,
        bet.outcome == s0.bets@[key].outcome,
        s1.bets@ == s0.bets@.insert(key, bet),
        s1.stats == s0.stats,
        s1.matches@.dom() == s0.matches@.dom(),
    ensures
        books_balance(&s1),
{
    assert forall|k: (u64, AccountId)| #[trigger] s1.bets@.contains_key(k)
        implies s1.matches@.contains_key(k.0) && s1.stats@.contains_key(k.0) by {
        assert(s0.bets@.contains_key(k));
    }
    assert forall|m: u64| #[trigger] s1.stats@.contains_key(m) implies match_books_balance(&s1, m) by {
        assert(match_books_balance(&s0, m));
        let bettors = id_list_items(s0.stats@[m].bettors);
        assert forall|u: AccountId| #[trigger] s1.bets@.contains_key((m, u)) implies bettors.contains(u) by {
            assert(s0.bets@.contains_key((m, u)));
        }
        assert forall|j: int| 0 <= j < bettors.len() implies #[trigger] s1.bets@.contains_key((m, bettors[j])) by {
            assert(s0.bets@.contains_key((m, bettors[j])));
        }
        assert forall|i: int| 0 <= i < 3 implies #[trigger] pool_at(s1.stats@[m], i) == staked_on(s1.bets@, m, bettors, i) by {
            assert(pool_at(s0.stats@[m], i) == staked_on(s0.bets@, m, bettors, i));
            assert forall|j: int| 0 <= j < bettors.len() implies stake_on(i)(#[trigger] s1.bets@[(m, bettors[j])]) == stake_on(i)(s0.bets@[(m, bettors[j])]) by {
                if (m, bettors[j]) != key {
                    assert(s1.bets@[(m, bettors[j])] == s0.bets@[(m, bettors[j])]);
                }
            }
            lemma_sum_depends_on_listed_bets(s1.bets@, s0.bets@, m, bettors, stake_on(i));
        }
    }
}

/// Claiming a payout keeps the books balanced.
pub proof fn lemma_claim_payout_keeps_books(
    s0: RenaissanceBettingContract,
    s1: RenaissanceBettingContract,
    user: AccountId,
    match_id: u64,
    payout: i128,
)
    requires
        books_balance(&s0),
        s0.claim_payout_error(user, match_id) is None,
        s0.claim_payout_post(&s1, user, match_id, payout),
    ensures
        books_balance(&s1),
{
    let key = (match_id, user);
    lemma_restamp_keeps_books(s0, s1, key, Bet { claimed: true, payout, ..s0.bets@[key] });
}

/// Refunding a bet keeps the books balanced: its stake stays in its pool.
pub proof fn lemma_refund_bet_keeps_books(
    s0: RenaissanceBettingContract,
    s1: RenaissanceBettingContract,
    user: AccountId,
    match_id: u64,
    now: u64,
)
    requires
        books_balance(&s0),
        s0.refund_bet_error(user, match_id, now) is None,
        s0.refund_bet_post(&s1, user, match_id),
    ensures
        books_balance(&s1),
{
    let key = (match_id, user);
    let bet = s0.bets@[key];
    lemma_restamp_keeps_books(s0, s1, key, Bet { claimed: true, payout: bet.amount, ..bet });
}

/// Settling a match, or replacing its oracle, keeps the books balanced.
pub proof fn lemma_match_update_keeps_books(
    s0: RenaissanceBettingContract,
    s1: RenaissanceBettingContract,
    oracle: AccountId,
    match_id: u64,
    outcome: Outcome,
    new_oracle: AccountId,
)
    requires
        books_balance(&s0),
        (s0.settle_bet_error(oracle, match_id) is None && s0.settle_bet_post(&s1, oracle, match_id, outcome))
            || (s0.set_oracle_error(match_id) is None && s1.stats == s0.stats && s1.bets == s0.bets
            && s1.matches@ == s0.matches@.insert(match_id, Match { oracle: new_oracle, ..s0.matches@[match_id] })),
    ensures
        books_balance(&s1),
{
    assert(s1.matches@.dom() =~= s0.matches@.dom());
    assert forall|k: (u64, AccountId)| #[trigger] s1.bets@.contains_key(k)
        implies s1.matches@.contains_key(k.0) && s1.stats@.contains_key(k.0) by {
        assert(s0.bets@.contains_key(k));
    }
    assert forall|m: u64| #[trigger] s1.stats@.contains_key(m) implies match_books_balance(&s1, m) by {
        assert(match_books_balance(&s0, m));
    }
}

/// Registering a match keeps the books balanced: its pools start at zero
/// with no bettors, and no bet was on it before.
pub proof fn lemma_register_match_keeps_books(
    s0: RenaissanceBettingContract,
    s1: RenaissanceBettingContract,
    match_id: u64,
    oracle: AccountId,
    token: AccountId,
    deadline: u64,
    now: u64,
)
    requires
        books_balance(&s0),
        s0.register_match_error(match_id, deadline, now) is None,
        s0.register_match_post(&s1, match_id, oracle, token, deadline),
    ensures
        books_balance(&s1),
{
    assert forall|k: (u64, AccountId)| #[trigger] s1.bets@.contains_key(k)
        implies s1.matches@.contains_key(k.0) && s1.stats@.contains_key(k.0) by {
        assert(s0.bets@.contains_key(k));
    }
    assert forall|m: u64| #[trigger] s1.stats@.contains_key(m) implies match_books_balance(&s1, m) by {
        if m != match_id {
            assert(match_books_balance(&s0, m));
        } else {
            let st = s1.stats@[m];
            assert forall|u: AccountId| #[trigger] s1.bets@.contains_key((m, u)) implies id_list_items(st.bettors).contains(u) by {
                assert(s0.bets@.contains_key((m, u)));
            }
            assert forall|i: int| 0 <= i < 3 implies #[trigger] pool_at(st, i) == staked_on(s1.bets@, m, id_list_items(st.bettors), i) by {
                assert(amount_list_items(st.pools)[i] == 0);
            }
        }
    }
}

/// A contract with no matches, statistics or bets has balanced books.
pub proof fn lemma_empty_books_balance(c: RenaissanceBettingContract)
    requires
        c.matches@ == Map::<u64, Match>::empty(),
        c.stats@.dom() == Set::<u64>::empty(),
        c.bets@ == Map::<(u64, AccountId), Bet>::empty(),
    ensures
        books_balance(&c),
{
    assert forall|m: u64| #[trigger] c.stats@.contains_key(m) implies match_books_balance(&c, m) by {
        assert(c.stats@.dom().contains(m));
    }
}

/// The operations that leave matches, statistics and bets alone
/// (initialization, pausing, unpausing, upgrades) keep the books balanced.
pub proof fn lemma_config_change_keeps_books(s0: RenaissanceBettingContract, s1: RenaissanceBettingContract)
    requires
        books_balance(&s0),
        s1.matches == s0.matches,
        s1.stats == s0.stats,
        s1.bets == s0.bets,
    ensures
        books_balance(&s1),
{
    assert forall|m: u64| #[trigger] s1.stats@.contains_key(m) implies match_books_balance(&s1, m) by {
        assert(match_books_balance(&s0, m));
    }
}

// ── sums ─────────────────────────────────────────────────────────────────

/// A sum grows with its terms.
pub proof fn lemma_sum_monotone(
    bets: Map<(u64, AccountId), Bet>,
    match_id: u64,
    bettors: Seq<AccountId>,
    f: spec_fn(Bet) -> int,
    g: spec_fn(Bet) -> int,
)
    requires
        forall|j: int| 0 <= j < bettors.len() ==> f(#[trigger] bets[(match_id, bettors[j])]) <= g(bets[(match_id, bettors[j])]),
    ensures
        sum_over_bets(bets, match_id, bettors, f) <= sum_over_bets(bets, match_id, bettors, g),
    decreases bettors.len(),
{
    if bettors.len() > 0 {
        let rest = bettors.drop_last();
        assert forall|j: int| 0 <= j < rest.len() implies f(#[trigger] bets[(match_id, rest[j])]) <= g(bets[(match_id, rest[j])]) by {
            assert(rest[j] == bettors[j]);
        }
        lemma_sum_monotone(bets, match_id, rest, f, g);
        assert(bettors.last() == bettors[bettors.len() - 1]);
    }
}

/// A constant factor moves out of a sum.
pub proof fn lemma_sum_scale(
    bets: Map<(u64, AccountId), Bet>,
    match_id: u64,
    bettors: Seq<AccountId>,
    f: spec_fn(Bet) -> int,
    g: spec_fn(Bet) -> int,
    c: int,
)
    requires
        forall|b: Bet| #[trigger] g(b) == c * f(b),
    ensures
        sum_over_bets(bets, match_id, bettors, g) == c * sum_over_bets(bets, match_id, bettors, f),
    decreases bettors.len(),
{
    if bettors.len() > 0 {
        let rest = bettors.drop_last();
        lemma_sum_scale(bets, match_id, rest, f, g, c);
        let x = sum_over_bets(bets, match_id, rest, f);
        let y = f(bets[(match_id, bettors.last())]);
        assert(c * x + c * y == c * (x + y)) by (nonlinear_arith);
    }
}

/// A sum of terms that are never negative is at least each of its terms.
pub proof fn lemma_sum_bounds_terms(
    bets: Map<(u64, AccountId), Bet>,
    match_id: u64,
    bettors: Seq<AccountId>,
    f: spec_fn(Bet) -> int,
)
    requires
        forall|j: int| 0 <= j < bettors.len() ==> f(#[trigger] bets[(match_id, bettors[j])]) >= 0,
    ensures
        sum_over_bets(bets, match_id, bettors, f) >= 0,
        forall|j: int| 0 <= j < bettors.len() ==> f(#[trigger] bets[(match_id, bettors[j])]) <= sum_over_bets(bets, match_id, bettors, f),
    decreases bettors.len(),
{
    if bettors.len() > 0 {
        let rest = bettors.drop_last();
        assert forall|j: int| 0 <= j < rest.len() implies f(#[trigger] bets[(match_id, rest[j])]) >= 0 by {
            assert(rest[j] == bettors[j]);
        }
        lemma_sum_bounds_terms(bets, match_id, rest, f);
        assert(bettors.last() == bettors[bettors.len() - 1]);
        assert forall|j: int| 0 <= j < bettors.len() implies f(#[trigger] bets[(match_id, bettors[j])]) <= sum_over_bets(bets, match_id, bettors, f) by {
            if j < rest.len() {
                assert(rest[j] == bettors[j]);
            }
        }
    }
}

// ── payouts ──────────────────────────────────────────────────────────────

/// The total of the stakes in the pools of `match_id`.
pub open spec fn total_pool(c: &RenaissanceBettingContract, match_id: u64) -> int {
    let s = c.stats@[match_id];
    pool_at(s, 0) + pool_at(s, 1) + pool_at(s, 2)
}

/// What a bet was paid.
pub open spec fn paid() -> spec_fn(Bet) -> int {
    |b: Bet| if b.claimed { b.payout as int } else { 0 }
}

/// The total paid on the bets of `match_id`.
pub open spec fn paid_on(c: &RenaissanceBettingContract, match_id: u64) -> int {
    sum_over_bets(c.bets@, match_id, id_list_items(c.stats@[match_id].bettors), paid())
}

/// The payout of the bet under `key` is in bounds: a bet paid as a
/// winner of its settled match got at most its stake's share of the total
/// pool, `payout * winning_pool <= amount * total_pool`; any other paid
/// bet got its stake back.
pub open spec fn payout_in_bounds(c: &RenaissanceBettingContract, key: (u64, AccountId)) -> bool {
    let b = c.bets@[key];
    let m = c.matches@[key.0];
    b.claimed ==> if m.settled && m.outcome == Some(b.outcome) {
        pool_at(c.stats@[key.0], b.outcome.spec_index() as int) * b.payout <= b.amount * total_pool(c, key.0)
    } else {
        b.payout == b.amount
    }
}

/// Every bet has a positive stake and a payout in bounds.
pub open spec fn payouts_bounded(c: &RenaissanceBettingContract) -> bool {
    forall|k: (u64, AccountId)| #[trigger] c.bets@.contains_key(k) ==> c.bets@[k].amount > 0 && payout_in_bounds(c, k)
}

/// With balanced books and positive stakes, no pool is negative.
pub proof fn lemma_pools_nonnegative(c: &RenaissanceBettingContract, match_id: u64, i: int)
    requires
        books_balance(c),
        payouts_bounded(c),
        c.stats@.contains_key(match_id),
        0 <= i < 3,
    ensures
        pool_at(c.stats@[match_id], i) >= 0,
{
    assert(match_books_balance(c, match_id));
    let bettors = id_list_items(c.stats@[match_id].bettors);
    assert forall|j: int| 0 <= j < bettors.len() implies stake_on(i)(#[trigger] c.bets@[(match_id, bettors[j])]) >= 0 by {
        assert(c.bets@.contains_key((match_id, bettors[j])));
    }
    lemma_sum_bounds_terms(c.bets@, match_id, bettors, stake_on(i));
}

/// Placing a bet keeps payouts in bounds: the new bet is unpaid, and the
/// pools it changes belong to an unsettled match.
pub proof fn lemma_place_bet_keeps_payouts_bounded(
    s0: RenaissanceBettingContract,
    s1: RenaissanceBettingContract,
    user: AccountId,
    match_id: u64,
    outcome: Outcome,
    amount: i128,
    now: u64,
    balance: i128,
)
    requires
        books_balance(&s0),
        payouts_bounded(&s0),
        s0.place_bet_error(user, match_id, outcome, amount, now, balance) is None,
        s0.place_bet_post(&s1, user, match_id, outcome, amount),
    ensures
        payouts_bounded(&s1),
{
    assert forall|k: (u64, AccountId)| #[trigger] s1.bets@.contains_key(k)
        implies s1.bets@[k].amount > 0 && payout_in_bounds(&s1, k) by {
        if k != (match_id, user) {
            assert(s0.bets@.contains_key(k));
            assert(payout_in_bounds(&s0, k));
            if k.0 != match_id {
                assert(s1.stats@[k.0] == s0.stats@[k.0]);
            }
        }
    }
}

/// Settling a match keeps payouts in bounds: the bets paid so far were
/// refunds, and a refund is within any winner's share.
pub proof fn lemma_settle_bet_keeps_payouts_bounded(
    s0: RenaissanceBettingContract,
    s1: RenaissanceBettingContract,
    oracle: AccountId,
    match_id: u64,
    outcome: Outcome,
)
    requires
        books_balance(&s0),
        payouts_bounded(&s0),
        s0.settle_bet_error(oracle, match_id) is None,
        s0.settle_bet_post(&s1, oracle, match_id, outcome),
    ensures
        payouts_bounded(&s1),
{
    assert forall|k: (u64, AccountId)| #[trigger] s1.bets@.contains_key(k)
        implies s1.bets@[k].amount > 0 && payout_in_bounds(&s1, k) by {
        assert(s0.bets@.contains_key(k));
        assert(payout_in_bounds(&s0, k));
        let b = s1.bets@[k];
        if k.0 == match_id && b.claimed && outcome == b.outcome {
            let st = s0.stats@[match_id];
            let i = b.outcome.spec_index() as int;
            lemma_pools_nonnegative(&s0, match_id, 0);
            lemma_pools_nonnegative(&s0, match_id, 1);
            lemma_pools_nonnegative(&s0, match_id, 2);
            let w = pool_at(st, i);
            let t = total_pool(&s0, match_id);
            assert(w <= t);
            assert(w * b.payout <= b.amount * t) by (nonlinear_arith)
                requires b.payout == b.amount, b.amount > 0, w <= t;
        }
    }
}

/// Claiming keeps payouts in bounds: the winner's payout is their stake
/// plus their share of the losers' pool, rounded down.
pub proof fn lemma_claim_payout_keeps_payouts_bounded(
    s0: RenaissanceBettingContract,
    s1: RenaissanceBettingContract,
    user: AccountId,
    match_id: u64,
    payout: i128,
)
    requires
        books_balance(&s0),
        payouts_bounded(&s0),
        s0.claim_payout_error(user, match_id) is None,
        payout == s0.claim_amount(user, match_id),
        s0.claim_payout_post(&s1, user, match_id, payout),
    ensures
        payouts_bounded(&s1),
{
    let key = (match_id, user);
    assert forall|k: (u64, AccountId)| #[trigger] s1.bets@.contains_key(k)
        implies s1.bets@[k].amount > 0 && payout_in_bounds(&s1, k) by {
        assert(s0.bets@.contains_key(k));
        assert(payout_in_bounds(&s0, k));
        if k == key {
            let b = s0.bets@[key];
            let st = s0.stats@[match_id];
            let w = pool_at(st, b.outcome.spec_index() as int);
            let t = total_pool(&s0, match_id);
            lemma_pools_nonnegative(&s0, match_id, 0);
            lemma_pools_nonnegative(&s0, match_id, 1);
            lemma_pools_nonnegative(&s0, match_id, 2);
            assert(t - w >= 0);
            let a = b.amount as int;
            let x = a * (t - w);
            assert(x >= 0) by (nonlinear_arith)
                requires x == a * (t - w), a > 0, t - w >= 0;
            assert(w * (x / w) <= x) by (nonlinear_arith)
                requires w > 0, x >= 0;
            assert(w * (a + x / w) <= a * t) by (nonlinear_arith)
                requires w * (x / w) <= x, x == a * (t - w);
        }
    }
}

/// Refunding keeps payouts in bounds: a refund pays back the stake.
pub proof fn lemma_refund_bet_keeps_payouts_bounded(
    s0: RenaissanceBettingContract,
    s1: RenaissanceBettingContract,
    user: AccountId,
    match_id: u64,
    now: u64,
)
    requires
        payouts_bounded(&s0),
        s0.refund_bet_error(user, match_id, now) is None,
        s0.refund_bet_post(&s1, user, match_id),
    ensures
        payouts_bounded(&s1),
{
    assert forall|k: (u64, AccountId)| #[trigger] s1.bets@.contains_key(k)
        implies s1.bets@[k].amount > 0 && payout_in_bounds(&s1, k) by {
        assert(s0.bets@.contains_key(k));
        assert(payout_in_bounds(&s0, k));
    }
}

/// Registering a match, replacing an oracle, and the operations that leave
/// matches, statistics and bets alone keep payouts in bounds.
pub proof fn lemma_other_operations_keep_payouts_bounded(
    s0: RenaissanceBettingContract,
    s1: RenaissanceBettingContract,
    match_id: u64,
    oracle: AccountId,
    token: AccountId,
    deadline: u64,
    now: u64,
    new_oracle: AccountId,
)
    requires
        books_balance(&s0),
        payouts_bounded(&s0),
        (s0.register_match_error(match_id, deadline, now) is None
            && s0.register_match_post(&s1, match_id, oracle, token, deadline))
            || (s0.set_oracle_error(match_id) is None && s1.stats == s0.stats && s1.bets == s0.bets
            && s1.matches@ == s0.matches@.insert(match_id, Match { oracle: new_oracle, ..s0.matches@[match_id] }))
            || (s1.matches == s0.matches && s1.stats == s0.stats && s1.bets == s0.bets),
    ensures
        payouts_bounded(&s1),
{
    assert forall|k: (u64, AccountId)| #[trigger] s1.bets@.contains_key(k)
        implies s1.bets@[k].amount > 0 && payout_in_bounds(&s1, k) by {
        assert(s0.bets@.contains_key(k));
        assert(payout_in_bounds(&s0, k));
        assert(s0.matches@.contains_key(k.0));
        if k.0 != match_id {
            assert(s1.matches@[k.0] == s0.matches@[k.0]);
            assert(s1.stats@[k.0] == s0.stats@[k.0]);
        }
    }
}

/// The contract never pays out more on a settled match than its pool holds,
/// as long as every bet paid on it backed the winning outcome. (A losing
/// bet refunded before settlement is paid back its stake while the stake
/// stays in the pool that the winners share, so it is left out.)
pub proof fn lemma_payouts_within_pool(c: RenaissanceBettingContract, match_id: u64, outcome: Outcome)
    requires
        books_balance(&c),
        payouts_bounded(&c),
        c.stats@.contains_key(match_id),
        c.matches@[match_id].settled,
        c.matches@[match_id].outcome == Some(outcome),
        forall|u: AccountId| #[trigger] c.bets@.contains_key((match_id, u)) && c.bets@[(match_id, u)].claimed
            ==> c.bets@[(match_id, u)].outcome == outcome,
    ensures
        paid_on(&c, match_id) <= total_pool(&c, match_id),
{
    assert(match_books_balance(&c, match_id));
    let bettors = id_list_items(c.stats@[match_id].bettors);
    let bets = c.bets@;
    let i = outcome.spec_index() as int;
    let w = pool_at(c.stats@[match_id], i);
    let t = total_pool(&c, match_id);
    lemma_pools_nonnegative(&c, match_id, 0);
    lemma_pools_nonnegative(&c, match_id, 1);
    lemma_pools_nonnegative(&c, match_id, 2);
    let stake = |b: Bet| if b.claimed { b.amount as int } else { 0 };
    let weighted_paid = |b: Bet| w * paid()(b);
    let weighted_stake = |b: Bet| t * stake(b);
    assert forall|j: int| 0 <= j < bettors.len() implies {
        &&& weighted_paid(#[trigger] bets[(match_id, bettors[j])]) <= weighted_stake(bets[(match_id, bettors[j])])
        &&& stake(bets[(match_id, bettors[j])]) <= stake_on(i)(bets[(match_id, bettors[j])])
        &&& stake_on(i)(bets[(match_id, bettors[j])]) >= 0
    } by {
        let u = bettors[j];
        assert(bets.contains_key((match_id, u)));
        assert(payout_in_bounds(&c, (match_id, u)));
        let b = bets[(match_id, u)];
        if b.claimed {
            assert(b.outcome == outcome);
            assert(w * b.payout <= b.amount * t);
            assert(w * b.payout <= t * b.amount) by (nonlinear_arith)
                requires w * b.payout <= b.amount * t;
        }
    }
    lemma_sum_monotone(bets, match_id, bettors, weighted_paid, weighted_stake);
    lemma_sum_scale(bets, match_id, bettors, paid(), weighted_paid, w);
    lemma_sum_scale(bets, match_id, bettors, stake, weighted_stake, t);
    lemma_sum_monotone(bets, match_id, bettors, stake, stake_on(i));
    assert(w == staked_on(bets, match_id, bettors, i));
    let paid_sum = sum_over_bets(bets, match_id, bettors, paid());
    let stake_sum = sum_over_bets(bets, match_id, bettors, stake);
    assert(w * paid_sum <= t * stake_sum);
    assert(stake_sum <= w);
    if w > 0 {
        assert(t * stake_sum <= t * w) by (nonlinear_arith)
            requires stake_sum <= w, t >= 0;
        assert(paid_sum <= t) by (nonlinear_arith)
            requires w * paid_sum <= t * w, w > 0;
    } else {
        lemma_sum_bounds_terms(bets, match_id, bettors, stake_on(i));
        assert forall|j: int| 0 <= j < bettors.len() implies paid()(#[trigger] bets[(match_id, bettors[j])]) <= 0 by {
            let b = bets[(match_id, bettors[j])];
            assert(stake_on(i)(b) <= w);
            assert(bets.contains_key((match_id, bettors[j])));
            assert(b.amount > 0);
        }
        lemma_sum_monotone(bets, match_id, bettors, paid(), |b: Bet| 0int);
        lemma_sum_scale(bets, match_id, bettors, paid(), |b: Bet| 0int, 0);
    }
}

/// What a bet that backed `outcome` was paid; nothing for any other bet.
pub open spec fn paid_backing(outcome: Outcome) -> spec_fn(Bet) -> int {
    |b: Bet| if b.claimed && b.outcome == outcome { b.payout as int } else { 0 }
}

/// The total paid on the bets of `match_id` that backed `outcome`.
pub open spec fn paid_to_backers(c: &RenaissanceBettingContract, match_id: u64, outcome: Outcome) -> int {
    sum_over_bets(c.bets@, match_id, id_list_items(c.stats@[match_id].bettors), paid_backing(outcome))
}

/// The winners of a settled match are never paid more, in all, than its
/// pool holds: whatever claims have been made, the payouts on the bets that
/// backed the winning outcome total at most the stakes on the match.
pub proof fn lemma_winners_paid_within_pool(c: RenaissanceBettingContract, match_id: u64, outcome: Outcome)
    requires
        books_balance(&c),
        payouts_bounded(&c),
        c.stats@.contains_key(match_id),
        c.matches@[match_id].settled,
        c.matches@[match_id].outcome == Some(outcome),
    ensures
        paid_to_backers(&c, match_id, outcome) <= total_pool(&c, match_id),
{
    assert(match_books_balance(&c, match_id));
    let bettors = id_list_items(c.stats@[match_id].bettors);
    let bets = c.bets@;
    let i = outcome.spec_index() as int;
    let w = pool_at(c.stats@[match_id], i);
    let t = total_pool(&c, match_id);
    lemma_pools_nonnegative(&c, match_id, 0);
    lemma_pools_nonnegative(&c, match_id, 1);
    lemma_pools_nonnegative(&c, match_id, 2);
    let paid_w = paid_backing(outcome);
    let stake = |b: Bet| if b.claimed && b.outcome == outcome { b.amount as int } else { 0 };
    let weighted_paid = |b: Bet| w * paid_w(b);
    let weighted_stake = |b: Bet| t * stake(b);
    assert forall|j: int| 0 <= j < bettors.len() implies {
        &&& weighted_paid(#[trigger] bets[(match_id, bettors[j])]) <= weighted_stake(bets[(match_id, bettors[j])])
        &&& stake(bets[(match_id, bettors[j])]) <= stake_on(i)(bets[(match_id, bettors[j])])
        &&& stake_on(i)(bets[(match_id, bettors[j])]) >= 0
    } by {
        let u = bettors[j];
        assert(bets.contains_key((match_id, u)));
        assert(payout_in_bounds(&c, (match_id, u)));
        let b = bets[(match_id, u)];
        if b.claimed && b.outcome == outcome {
            assert(w * b.payout <= b.amount * t);
            assert(w * b.payout <= t * b.amount) by (nonlinear_arith)
                requires w * b.payout <= b.amount * t;
        }
    }
    lemma_sum_monotone(bets, match_id, bettors, weighted_paid, weighted_stake);
    lemma_sum_scale(bets, match_id, bettors, paid_w, weighted_paid, w);
    lemma_sum_scale(bets, match_id, bettors, stake, weighted_stake, t);
    lemma_sum_monotone(bets, match_id, bettors, stake, stake_on(i));
    assert(w == staked_on(bets, match_id, bettors, i));
    let paid_sum = sum_over_bets(bets, match_id, bettors, paid_w);
    let stake_sum = sum_over_bets(bets, match_id, bettors, stake);
    assert(w * paid_sum <= t * stake_sum);
    assert(stake_sum <= w);
    if w > 0 {
        assert(t * stake_sum <= t * w) by (nonlinear_arith)
            requires stake_sum <= w, t >= 0;
        assert(paid_sum <= t) by (nonlinear_arith)
            requires w * paid_sum <= t * w, w > 0;
    } else {
        lemma_sum_bounds_terms(bets, match_id, bettors, stake_on(i));
        assert forall|j: int| 0 <= j < bettors.len() implies paid_w(#[trigger] bets[(match_id, bettors[j])]) <= 0 by {
            let b = bets[(match_id, bettors[j])];
            assert(stake_on(i)(b) <= w);
            assert(bets.contains_key((match_id, bettors[j])));
            assert(b.amount > 0);
        }
        lemma_sum_monotone(bets, match_id, bettors, paid_w, |b: Bet| 0int);
        lemma_sum_scale(bets, match_id, bettors, paid_w, |b: Bet| 0int, 0);
    }
}

/// An accepted claim pays back at least the stake: the losers' pool that it
/// shares in is never negative.
pub proof fn lemma_claim_returns_stake(c: RenaissanceBettingContract, user: AccountId, match_id: u64)
    requires
        books_balance(&c),
        payouts_bounded(&c),
        c.claim_payout_error(user, match_id) is None,
    ensures
        c.claim_amount(user, match_id) >= c.bets@[(match_id, user)].amount,
{
    let bet = c.bets@[(match_id, user)];
    let s = c.stats@[match_id];
    lemma_pools_nonnegative(&c, match_id, 0);
    lemma_pools_nonnegative(&c, match_id, 1);
    lemma_pools_nonnegative(&c, match_id, 2);
    let winning = pool_at(s, bet.outcome.spec_index() as int);
    let total = pool_at(s, 0) + pool_at(s, 1) + pool_at(s, 2);
    assert(total - winning >= 0);
    let a = bet.amount as int;
    assert(a > 0);
    let x = a * (total - winning);
    assert(x >= 0) by (nonlinear_arith)
        requires x == a * (total - winning), a > 0, total - winning >= 0;
    assert(x / winning >= 0) by (nonlinear_arith)
        requires x >= 0, winning > 0;
}

} // verus!
