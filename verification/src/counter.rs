//! An in-memory counter: a signed integer created at zero, moved one step at a
//! time by `increment` and `decrement`, and set back to zero by `reset`.

use vstd::prelude::*;

verus! {

/// One step applied to a counter: up by one or down by one.
#[derive(Clone, Copy, PartialEq, Eq, Structural)]
pub enum CounterOp {
    Increment,
    Decrement,
}

/// The value a counter holds after one step from `v`.
pub open spec fn apply_op(v: int, op: CounterOp) -> int {
    match op {
        CounterOp::Increment => v + 1,
        CounterOp::Decrement => v - 1,
    }
}

/// The value a counter holds after the steps in `ops`, applied in order
/// starting from `v`.
pub open spec fn apply_ops(v: int, ops: Seq<CounterOp>) -> int
    decreases ops.len(),
{
    if ops.len() == 0 {
        v
    } else {
        apply_ops(apply_op(v, ops[0]), ops.subrange(1, ops.len() as int))
    }
}

/// The net change of a sequence of steps: the number of increments minus the
/// number of decrements.
pub open spec fn net_change(ops: Seq<CounterOp>) -> int
    decreases ops.len(),
{
    if ops.len() == 0 {
        0
    } else {
        apply_op(0, ops[0]) + net_change(ops.subrange(1, ops.len() as int))
    }
}

/// Applying a sequence of steps shifts the starting value by the net change.
pub proof fn lemma_apply_ops_shifts_by_net(v: int, ops: Seq<CounterOp>)
    ensures
        apply_ops(v, ops) == v + net_change(ops),
    decreases ops.len(),
{
    if ops.len() > 0 {
        lemma_apply_ops_shifts_by_net(apply_op(v, ops[0]), ops.subrange(1, ops.len() as int));
    }
}

/// Law: any sequence of increments and decrements on a fresh counter leaves
/// the value at the net sum of the steps applied.
pub proof fn lemma_fresh_counter_value_is_net(ops: Seq<CounterOp>)
    ensures
        apply_ops(0, ops) == net_change(ops),
{
    lemma_apply_ops_shifts_by_net(0, ops);
}

/// An owned integer counter. It starts at zero; each mutation is reflected
/// exactly in the view, so the value is always the net of the steps taken
/// since creation or the last reset.
pub struct Counter {
    value: i32,
}

impl View for Counter {
    type V = int;

    closed spec fn view(&self) -> int {
        self.value as int
    }
}

impl Counter {
    /// A fresh counter holds zero.
    pub fn new() -> (c: Counter)
        ensures
            c@ == 0,
    {
        Counter { value: 0 }
    }

    /// Moves the value up by one. The value must have room below the
    /// largest representable one: the step's behaviour at the extreme is
    /// left unspecified, so that input is excluded.
    pub fn increment(&mut self)
        requires
            old(self)@ < i32::MAX as int,
        ensures
            final(self)@ == old(self)@ + 1,
            final(self)@ == apply_op(old(self)@, CounterOp::Increment),
    {
        self.value = self.value + 1;
    }

    /// Moves the value down by one. The value must have room above the
    /// smallest representable one: the step's behaviour at the extreme is
    /// left unspecified, so that input is excluded.
    pub fn decrement(&mut self)
        requires
            old(self)@ > i32::MIN as int,
        ensures
            final(self)@ == old(self)@ - 1,
            final(self)@ == apply_op(old(self)@, CounterOp::Decrement),
    {
        self.value = self.value - 1;
    }

    /// Returns the current value without changing it.
    pub fn get_value(&self) -> (v: i32)
        ensures
            v as int == self@,
    {
        self.value
    }

    /// Sets the value back to zero.
    pub fn reset(&mut self)
        ensures
            final(self)@ == 0,
    {
        self.value = 0;
    }
}

} // verus!
