//! A process-wide counter: one unsigned total that any caller may grow by an
//! arbitrary amount.
//!
//! The source material keeps this state deliberately unsynchronized: two
//! concurrent callers may race and lose an update, and that is accepted, not
//! guarded against. Here the state lives in an owned value, so Rust's
//! borrowing already serializes calls through a `&mut`; the contracts below
//! describe the single-threaded behaviour, which is all that is promised. An
//! embedding program that shares one instance across threads without
//! synchronization takes the lost-update hazard knowingly.

use vstd::prelude::*;

verus! {

/// The sum of the amounts, in order.
pub open spec fn total_of(amounts: Seq<u64>) -> int
    decreases amounts.len(),
{
    if amounts.len() == 0 {
        0
    } else {
        amounts[0] + total_of(amounts.subrange(1, amounts.len() as int))
    }
}

/// The total after pinging each amount in order, starting from `v`.
pub open spec fn ping_all(v: int, amounts: Seq<u64>) -> int
    decreases amounts.len(),
{
    if amounts.len() == 0 {
        v
    } else {
        ping_all(v + amounts[0], amounts.subrange(1, amounts.len() as int))
    }
}

/// Pinging a sequence of amounts shifts the starting total by their sum.
pub proof fn lemma_ping_all_shifts_by_total(v: int, amounts: Seq<u64>)
    ensures
        ping_all(v, amounts) == v + total_of(amounts),
    decreases amounts.len(),
{
    if amounts.len() > 0 {
        lemma_ping_all_shifts_by_total(
            v + amounts[0],
            amounts.subrange(1, amounts.len() as int),
        );
    }
}

/// Law: a single-threaded sequence of pings on a fresh counter leaves the
/// total at the arithmetic sum of the amounts.
pub proof fn lemma_fresh_pings_total_is_sum(amounts: Seq<u64>)
    ensures
        ping_all(0, amounts) == total_of(amounts),
{
    lemma_ping_all_shifts_by_total(0, amounts);
}

/// The shared counter's state: one unsigned total, initialized to zero and
/// never reset.
pub struct GlobalCounter {
    total: u64,
}

impl View for GlobalCounter {
    type V = int;

    closed spec fn view(&self) -> int {
        self.total as int
    }
}

impl GlobalCounter {
    /// The total starts at zero.
    pub fn new() -> (c: GlobalCounter)
        ensures
            c@ == 0,
    {
        GlobalCounter { total: 0 }
    }

    /// Adds `amount` to the total and returns the new total. The sum must
    /// stay representable: overflow behaviour is left unspecified, so those
    /// inputs are excluded.
    pub fn ping(&mut self, amount: u64) -> (total: u64)
        requires
            old(self)@ + amount <= u64::MAX as int,
        ensures
            final(self)@ == old(self)@ + amount,
            total as int == final(self)@,
    {
        self.total = self.total + amount;
        self.total
    }

    /// Returns the current total without changing it.
    pub fn get(&self) -> (total: u64)
        ensures
            total as int == self@,
    {
        self.total
    }
}

} // verus!
