use vstd::prelude::*;

verus! {

/// Number of units of asynchronous work that were started and have not
/// finished yet. Zero means that everything drained.
#[derive(Debug)]
pub struct TaskCounter {
    counter: u64,
}

impl TaskCounter {
    pub closed spec fn value(&self) -> nat {
        self.counter as nat
    }

    pub fn new() -> (r: Self)
        ensures
            r.value() == 0,
    {
        TaskCounter { counter: 0 }
    }

    pub fn count(&self) -> (r: u64)
        ensures
            r == self.value(),
    {
        self.counter
    }

    /// Whether no unit of work is outstanding.
    pub fn is_drained(&self) -> (r: bool)
        ensures
            r == (self.value() == 0),
    {
        self.counter == 0
    }

    /// Records that a unit of work was started.
    pub fn inc(&mut self)
        requires
            old(self).value() < u64::MAX,
        ensures
            final(self).value() == old(self).value() + 1,
            counter_step(*old(self), true, *final(self)),
    {
        self.counter = self.counter + 1;
    }

    /// Records that a started unit of work finished.
    pub fn dec(&mut self)
        requires
            old(self).value() > 0,
        ensures
            final(self).value() == old(self).value() - 1,
            counter_step(*old(self), false, *final(self)),
    {
        self.counter = self.counter - 1;
    }
}

/// One call on a counter, from `before` to `after`: `inc` when `start`,
/// else `dec`.
pub open spec fn counter_step(before: TaskCounter, start: bool, after: TaskCounter) -> bool {
    if start {
        after.value() == before.value() + 1
    } else {
        after.value() == before.value() - 1
    }
}

/// Starts minus finishes in a sequence of calls.
pub open spec fn net_starts(ops: Seq<bool>) -> int
    decreases ops.len(),
{
    if ops.len() == 0 {
        0
    } else {
        net_starts(ops.drop_last()) + if ops.last() {
            1int
        } else {
            -1int
        }
    }
}

/// The states `states` are what the calls `ops` went through, one after
/// the other.
pub open spec fn runs(states: Seq<TaskCounter>, ops: Seq<bool>) -> bool {
    &&& states.len() == ops.len() + 1
    &&& forall|i: int| 0 <= i < ops.len() ==> counter_step(states[i], ops[i], #[trigger] states[i + 1])
}

proof fn lemma_count_follows_calls(states: Seq<TaskCounter>, ops: Seq<bool>)
    requires
        runs(states, ops),
    ensures
        states.last().value() == states[0].value() + net_starts(ops),
    decreases ops.len(),
{
    if ops.len() > 0 {
        let n = ops.len() - 1;
        let s = states.drop_last();
        let o = ops.drop_last();
        assert forall|i: int| 0 <= i < o.len() implies counter_step(s[i], o[i], #[trigger] s[i + 1]) by {
            assert(counter_step(states[i], ops[i], states[i + 1]));
        }
        lemma_count_follows_calls(s, o);
        assert(counter_step(states[n], ops[n], states[n + 1]));
    }
}

/// Drain: whatever the interleaving of starts and finishes, a counter that
/// started drained is drained again once every started unit has finished.
pub proof fn lemma_drained_after_all_finish(states: Seq<TaskCounter>, ops: Seq<bool>)
    requires
        runs(states, ops),
        states[0].value() == 0,
        net_starts(ops) == 0,
    ensures
        states.last().value() == 0,
{
    lemma_count_follows_calls(states, ops);
}

} // verus!
