//! Per-player, per-session progress records and their update rules.

use vstd::prelude::*;
use crate::{Policy, LEVEL_COUNT};

verus! {

/// Sum of a sequence of stage times, as a mathematical integer.
pub open spec fn sum_times(s: Seq<u64>) -> int
    decreases s.len(),
{
    if s.len() == 0 {
        0
    } else {
        sum_times(s.drop_last()) + s.last()
    }
}

/// Extending a prefix by one element adds exactly that element to its sum.
pub proof fn lemma_sum_take_succ(s: Seq<u64>, i: int)
    requires
        0 <= i < s.len(),
    ensures
        sum_times(s.take(i + 1)) == sum_times(s.take(i)) + s[i],
{
    assert(s.take(i + 1).drop_last() =~= s.take(i));
    assert(s.take(i + 1).last() == s[i]);
}

/// Appending one element adds exactly that element to the sum.
pub proof fn lemma_sum_push(s: Seq<u64>, x: u64)
    ensures
        sum_times(s.push(x)) == sum_times(s) + x,
{
    assert(s.push(x).drop_last() =~= s);
}

/// Every prefix sum is bounded by the sum of the whole sequence.
pub proof fn lemma_sum_take_le(s: Seq<u64>, i: int)
    requires
        0 <= i <= s.len(),
    ensures
        sum_times(s.take(i)) <= sum_times(s),
    decreases s.len() - i,
{
    if i == s.len() {
        assert(s.take(i) =~= s);
    } else {
        lemma_sum_take_succ(s, i);
        lemma_sum_take_le(s, i + 1);
    }
}

/// The sum never goes below zero.
pub proof fn lemma_sum_nonneg(s: Seq<u64>)
    ensures
        sum_times(s) >= 0,
    decreases s.len(),
{
    if s.len() > 0 {
        lemma_sum_nonneg(s.drop_last());
    }
}

/// A player's record within one session.
///
/// Under the sprint policy `level_times` holds one completion time per
/// cleared stage, in stage order, and `best_time_ms` is the total of all
/// stage times once every stage is cleared (`u64::MAX` before that).
/// Under the endurance policy the record is the single scalar
/// `best_time_ms`, the highest metric submitted so far.
#[derive(Debug)]
pub struct PlayerProgress {
    /// Stages cleared so far, `0..=LEVEL_COUNT` (sprint only).
    pub levels_cleared: u32,
    /// Sprint: total time once finished, else `u64::MAX`.
    /// Endurance: highest submitted metric, starting at `0`.
    pub best_time_ms: u64,
    /// Sprint: per-stage completion times, one per cleared stage.
    pub level_times: Vec<u64>,
}

impl PlayerProgress {
    /// Well-formedness under the sprint policy.
    pub open spec fn sprint_wf(self) -> bool {
        &&& self.levels_cleared <= LEVEL_COUNT
        &&& self.level_times@.len() == self.levels_cleared
        &&& sum_times(self.level_times@) <= u64::MAX
        &&& self.best_time_ms == if self.levels_cleared == LEVEL_COUNT {
            sum_times(self.level_times@)
        } else {
            u64::MAX as int
        }
    }

    /// Well-formedness under the endurance policy: the stage machinery
    /// is unused and only the scalar metric carries information.
    pub open spec fn endurance_wf(self) -> bool {
        &&& self.levels_cleared == 0
        &&& self.level_times@.len() == 0
    }

    /// Two records that agree on every field (times compared by value).
    pub open spec fn same_progress(self, other: PlayerProgress) -> bool {
        &&& self.levels_cleared == other.levels_cleared
        &&& self.best_time_ms == other.best_time_ms
        &&& self.level_times@ == other.level_times@
    }

    /// The metric value stored for this record at the start of a session.
    pub open spec fn initial_metric(policy: Policy) -> u64 {
        match policy {
            Policy::Sprint => u64::MAX,
            Policy::Endurance => 0u64,
        }
    }

    /// A record as it stands when a session starts: nothing cleared.
    pub open spec fn is_fresh(self, policy: Policy) -> bool {
        &&& self.levels_cleared == 0
        &&& self.level_times@.len() == 0
        &&& self.best_time_ms == Self::initial_metric(policy)
    }

    /// An empty record for a freshly started session.
    pub fn empty(policy: Policy) -> (r: Self)
        ensures
            r.is_fresh(policy),
            match policy {
                Policy::Sprint => r.sprint_wf(),
                Policy::Endurance => r.endurance_wf(),
            },
    {
        let best: u64 = match policy {
            Policy::Sprint => u64::MAX,
            Policy::Endurance => 0u64,
        };
        PlayerProgress { levels_cleared: 0, best_time_ms: best, level_times: Vec::new() }
    }

    /// An exact copy of this record.
    pub fn duplicate(&self) -> (r: Self)
        ensures
            r.levels_cleared == self.levels_cleared,
            r.best_time_ms == self.best_time_ms,
            r.level_times@ == self.level_times@,
    {
        let mut times: Vec<u64> = Vec::new();
        let mut i: usize = 0;
        while i < self.level_times.len()
            invariant
                i <= self.level_times.len(),
                times@ == self.level_times@.take(i as int),
            decreases self.level_times.len() - i,
        {
            times.push(self.level_times[i]);
            proof {
                assert(times@ =~= self.level_times@.take(i + 1));
            }
            i = i + 1;
        }
        proof {
            assert(times@ =~= self.level_times@);
        }
        PlayerProgress {
            levels_cleared: self.levels_cleared,
            best_time_ms: self.best_time_ms,
            level_times: times,
        }
    }

    /// Sprint update: record the completion of the next sequential stage.
    ///
    /// Appends the stage time, advances the cleared count to `level`, and,
    /// on the final stage, fixes `best_time_ms` to the total of all stage
    /// times.
    pub fn record_stage(&mut self, level: u32, time_ms: u64)
        requires
            old(self).sprint_wf(),
            level == old(self).levels_cleared + 1,
            level <= LEVEL_COUNT,
            sum_times(old(self).level_times@) + time_ms <= u64::MAX,
        ensures
            final(self).sprint_wf(),
            final(self).levels_cleared == level,
            final(self).level_times@ == old(self).level_times@.push(time_ms),
            sum_times(final(self).level_times@) == sum_times(old(self).level_times@) + time_ms,
            final(self).best_time_ms == if level == LEVEL_COUNT {
                sum_times(old(self).level_times@) + time_ms
            } else {
                u64::MAX as int
            },
    {
        self.level_times.push(time_ms);
        self.levels_cleared = level;
        proof {
            lemma_sum_push(old(self).level_times@, time_ms);
        }
        if level == LEVEL_COUNT {
            let total: u64 = self.total_time();
            self.best_time_ms = total;
        } else {
            self.best_time_ms = u64::MAX;
        }
    }

    /// Total of all recorded stage times.
    pub fn total_time(&self) -> (r: u64)
        requires
            sum_times(self.level_times@) <= u64::MAX,
        ensures
            r == sum_times(self.level_times@),
    {
        let ghost s = self.level_times@;
        let mut acc: u64 = 0;
        let mut i: usize = 0;
        while i < self.level_times.len()
            invariant
                i <= s.len(),
                s == self.level_times@,
                sum_times(s) <= u64::MAX,
                acc == sum_times(s.take(i as int)),
            decreases s.len() - i,
        {
            proof {
                lemma_sum_take_succ(s, i as int);
                lemma_sum_take_le(s, i + 1);
                lemma_sum_nonneg(s.take(i as int));
            }
            acc = acc + self.level_times[i];
            i = i + 1;
        }
        proof {
            assert(s.take(s.len() as int) =~= s);
        }
        acc
    }

    /// Endurance update: the stored metric rises to `time_ms` when that
    /// strictly exceeds it and is untouched otherwise, so it never
    /// decreases.  Returns whether the stored value changed.
    pub fn record_score(&mut self, time_ms: u64) -> (changed: bool)
        ensures
            final(self).best_time_ms == if time_ms > old(self).best_time_ms {
                time_ms
            } else {
                old(self).best_time_ms
            },
            final(self).best_time_ms >= old(self).best_time_ms,
            changed == (time_ms > old(self).best_time_ms),
            final(self).levels_cleared == old(self).levels_cleared,
            final(self).level_times@ == old(self).level_times@,
    {
        if time_ms > self.best_time_ms {
            self.best_time_ms = time_ms;
            true
        } else {
            false
        }
    }
}

} // verus!
