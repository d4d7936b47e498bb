//! A saturating counter contract.

use vstd::prelude::*;

verus! {

/// The counter contract's storage: the count, absent until first written.
pub struct CounterContract {
    pub count: Option<i32>,
}

/// `c + 1`, or `c` when that would leave the range of `i32`.
pub open spec fn saturating_inc(c: i32) -> i32 {
    if c == i32::MAX { c } else { (c + 1) as i32 }
}

/// `c - 1`, or `c` when that would leave the range of `i32`.
pub open spec fn saturating_dec(c: i32) -> i32 {
    if c == i32::MIN { c } else { (c - 1) as i32 }
}

impl CounterContract {
    /// The count that the contract reports: the stored one, or 0.
    pub open spec fn current(&self) -> i32 {
        match self.count {
            Some(c) => c,
            None => 0,
        }
    }

    /// A counter with nothing stored yet.
    pub fn new() -> (c: CounterContract)
        ensures
            c.count is None,
            c.current() == 0,
    {
        CounterContract { count: None }
    }

    /// The current count; 0 before the first write.
    pub fn get_count(&self) -> (c: i32)
        ensures
            c == self.current(),
    {
        match self.count {
            Some(c) => c,
            None => 0,
        }
    }

    /// Adds one to the count, saturating at `i32::MAX`, stores it and
    /// returns it.
    pub fn increment(&mut self) -> (c: i32)
        ensures
            c == saturating_inc(old(self).current()),
            final(self).count == Some(c),
    {
        let cur = self.get_count();
        let next: i32 = match cur.checked_add(1) {
            Some(n) => n,
            None => cur,
        };
        self.count = Some(next);
        next
    }

    /// Subtracts one from the count, saturating at `i32::MIN`, stores it and
    /// returns it.
    pub fn decrement(&mut self) -> (c: i32)
        ensures
            c == saturating_dec(old(self).current()),
            final(self).count == Some(c),
    {
        let cur = self.get_count();
        let next: i32 = match cur.checked_sub(1) {
            Some(n) => n,
            None => cur,
        };
        self.count = Some(next);
        next
    }
}

/// Decrementing undoes an increment, unless the increment saturated.
pub proof fn lemma_decrement_undoes_increment(c: i32)
    requires
        c < i32::MAX,
    ensures
        saturating_dec(saturating_inc(c)) == c,
{
}

/// Incrementing undoes a decrement, unless the decrement saturated.
pub proof fn lemma_increment_undoes_decrement(c: i32)
    requires
        c > i32::MIN,
    ensures
        saturating_inc(saturating_dec(c)) == c,
{
}

/// Incrementing adds exactly one below `i32::MAX` and stays there at it;
/// decrementing takes exactly one off above `i32::MIN` and stays there at
/// it. Each step moves the count by at most one, and never away from the
/// direction asked.
pub proof fn lemma_counter_steps_by_one(c: i32)
    ensures
        c < i32::MAX ==> saturating_inc(c) == c + 1,
        c == i32::MAX ==> saturating_inc(c) == c,
        c > i32::MIN ==> saturating_dec(c) == c - 1,
        c == i32::MIN ==> saturating_dec(c) == c,
{
}

/// Counting up `n` times from a count that stays below `i32::MAX` on the way
/// ends `n` higher.
pub proof fn lemma_increments_add_up(c: i32, n: nat)
    requires
        c + n <= i32::MAX,
    ensures
        repeat_inc(c, n) == c + n,
    decreases n,
{
    if n > 0 {
        lemma_increments_add_up(c, (n - 1) as nat);
    }
}

/// The count after `n` increments from `c`.
pub open spec fn repeat_inc(c: i32, n: nat) -> i32
    decreases n,
{
    if n == 0 { c } else { saturating_inc(repeat_inc(c, (n - 1) as nat)) }
}

} // verus!
