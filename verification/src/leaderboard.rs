//! The bounded, sorted leaderboard of best results across sessions.
//!
//! Insertion is a single linear merge: the new entry goes at the first
//! position where it does not come strictly after the existing entry, so
//! equal keys keep earlier entries' relative order, and the result is
//! truncated to the size bound.  Each insertion produces a new sequence;
//! nothing is mutated in place.

use vstd::prelude::*;

verus! {

/// One leaderboard record: a decided session contributes exactly one.
#[derive(Clone, Copy, Debug, PartialEq, Eq, Structural)]
pub struct LeaderboardEntry {
    /// The winning player.
    pub player: u64,
    /// The winner's metric: total time (sprint) or best score (endurance).
    pub time_ms: u64,
    /// The session this result came from.
    pub session_id: u32,
    /// Timestamp the host supplied when the session was decided.
    pub timestamp: u64,
}

/// The comparator: `x` does not come strictly after `y`.  Ascending order
/// (lower is better) serves the sprint policy, descending the endurance
/// policy.
pub open spec fn comes_before(x: LeaderboardEntry, y: LeaderboardEntry, ascending: bool) -> bool {
    if ascending {
        x.time_ms <= y.time_ms
    } else {
        x.time_ms >= y.time_ms
    }
}

/// The sequence is fully ordered under the comparator.
pub open spec fn sorted(s: Seq<LeaderboardEntry>, ascending: bool) -> bool {
    forall|i: int, j: int|
        #![trigger s[i], s[j]]
        0 <= i < j < s.len() ==> comes_before(s[i], s[j], ascending)
}

/// The position a new entry is inserted at: the first index whose entry
/// the new one does not come strictly after, or the length if there is
/// none.
pub open spec fn insertion_point(s: Seq<LeaderboardEntry>, x: LeaderboardEntry, ascending: bool) -> int
    decreases s.len(),
{
    if s.len() == 0 {
        0
    } else if comes_before(x, s[0], ascending) {
        0
    } else {
        1 + insertion_point(s.subrange(1, s.len() as int), x, ascending)
    }
}

/// The merged (untruncated) sequence an insertion produces.
pub open spec fn spec_insert(s: Seq<LeaderboardEntry>, x: LeaderboardEntry, ascending: bool) -> Seq<
    LeaderboardEntry,
> {
    let p = insertion_point(s, x, ascending);
    s.take(p) + seq![x] + s.skip(p)
}

/// The length an insertion into a sequence of `n` entries is truncated to.
pub open spec fn bounded_len(n: int, max_size: int) -> int {
    if n + 1 <= max_size {
        n + 1
    } else {
        max_size
    }
}

/// The insertion point lies in range, everything before it comes strictly
/// before the new entry, and the entry at it (if any) does not.
pub proof fn lemma_insertion_point_props(s: Seq<LeaderboardEntry>, x: LeaderboardEntry, ascending: bool)
    ensures
        0 <= insertion_point(s, x, ascending) <= s.len(),
        forall|j: int|
            0 <= j < insertion_point(s, x, ascending) ==> !comes_before(x, #[trigger] s[j], ascending),
        insertion_point(s, x, ascending) < s.len() ==> comes_before(
            x,
            s[insertion_point(s, x, ascending)],
            ascending,
        ),
    decreases s.len(),
{
    if s.len() == 0 {
    } else if comes_before(x, s[0], ascending) {
    } else {
        let t = s.subrange(1, s.len() as int);
        lemma_insertion_point_props(t, x, ascending);
        assert(forall|j: int| 0 <= j < t.len() ==> #[trigger] t[j] == s[j + 1]);
        assert forall|j: int|
            0 <= j < insertion_point(s, x, ascending) implies !comes_before(
            x,
            s[j],
            ascending,
        ) by {
            if j > 0 {
                assert(t[j - 1] == s[j]);
                assert(!comes_before(x, t[j - 1], ascending));
            }
        }
    }
}

/// Any index with those three properties is the insertion point.
pub proof fn lemma_insertion_point_char(
    s: Seq<LeaderboardEntry>,
    x: LeaderboardEntry,
    ascending: bool,
    p: int,
)
    requires
        0 <= p <= s.len(),
        forall|j: int| 0 <= j < p ==> !comes_before(x, #[trigger] s[j], ascending),
        p < s.len() ==> comes_before(x, s[p], ascending),
    ensures
        p == insertion_point(s, x, ascending),
    decreases s.len(),
{
    if s.len() == 0 {
    } else if comes_before(x, s[0], ascending) {
        assert(p == 0) by {
            if p > 0 {
                assert(!comes_before(x, s[0], ascending));
            }
        }
    } else {
        let t = s.subrange(1, s.len() as int);
        assert(forall|j: int| 0 <= j < t.len() ==> #[trigger] t[j] == s[j + 1]);
        assert(p >= 1);
        lemma_insertion_point_char(t, x, ascending, p - 1);
    }
}

/// Inserting into a sorted sequence keeps it sorted and grows it by one.
pub proof fn lemma_insert_sorted(s: Seq<LeaderboardEntry>, x: LeaderboardEntry, ascending: bool)
    requires
        sorted(s, ascending),
    ensures
        sorted(spec_insert(s, x, ascending), ascending),
        spec_insert(s, x, ascending).len() == s.len() + 1,
        spec_insert(s, x, ascending)[insertion_point(s, x, ascending)] == x,
        forall|i: int|
            0 <= i < insertion_point(s, x, ascending) ==> #[trigger] spec_insert(s, x, ascending)[i]
                == s[i],
        forall|i: int|
            insertion_point(s, x, ascending) < i < s.len() + 1 ==> #[trigger] spec_insert(
                s,
                x,
                ascending,
            )[i] == s[i - 1],
{
    lemma_insertion_point_props(s, x, ascending);
    let p = insertion_point(s, x, ascending);
    let r = spec_insert(s, x, ascending);
    assert(r.len() == s.len() + 1);
    assert(forall|i: int| 0 <= i < p ==> #[trigger] r[i] == s[i]);
    assert(r[p] == x);
    assert(forall|i: int| p < i < r.len() ==> #[trigger] r[i] == s[i - 1]);
    assert forall|i: int, j: int|
        #![trigger r[i], r[j]]
        0 <= i < j < r.len() implies comes_before(r[i], r[j], ascending) by {
        if j < p {
            assert(comes_before(s[i], s[j], ascending));
        } else if j == p {
            assert(!comes_before(x, s[i], ascending));
        } else if i == p {
            if p < s.len() {
                assert(comes_before(x, s[p], ascending));
                if j - 1 > p {
                    assert(comes_before(s[p], s[j - 1], ascending));
                }
            }
        } else if i < p {
            assert(comes_before(s[i], s[j - 1], ascending));
        } else {
            assert(comes_before(s[i - 1], s[j - 1], ascending));
        }
    }
}

/// A prefix of a sorted sequence is sorted.
pub proof fn lemma_sorted_take(s: Seq<LeaderboardEntry>, ascending: bool, n: int)
    requires
        sorted(s, ascending),
        0 <= n <= s.len(),
    ensures
        sorted(s.take(n), ascending),
{
    assert(forall|i: int| 0 <= i < n ==> #[trigger] s.take(n)[i] == s[i]);
}

/// The comparator: `x` does not come strictly after `y`.
pub fn before(x: &LeaderboardEntry, y: &LeaderboardEntry, ascending: bool) -> (r: bool)
    ensures
        r == comes_before(*x, *y, ascending),
{
    if ascending {
        x.time_ms <= y.time_ms
    } else {
        x.time_ms >= y.time_ms
    }
}

/// Insert `entry` into the sorted `board`, keeping order and truncating
/// the result to `max_size` entries.  The input is not mutated; the
/// result is the merged sequence cut to the bound, so it is sorted and
/// never exceeds `max_size`.
pub fn leaderboard_insert(
    board: &Vec<LeaderboardEntry>,
    entry: LeaderboardEntry,
    max_size: usize,
    ascending: bool,
) -> (r: Vec<LeaderboardEntry>)
    requires
        sorted(board@, ascending),
        board@.len() <= max_size,
    ensures
        r@ == spec_insert(board@, entry, ascending).take(
            bounded_len(board@.len() as int, max_size as int),
        ),
        sorted(r@, ascending),
        r@.len() <= max_size,
        r@.len() == bounded_len(board@.len() as int, max_size as int),
{
    proof {
        lemma_insertion_point_props(board@, entry, ascending);
        lemma_insert_sorted(board@, entry, ascending);
    }
    let ghost full = spec_insert(board@, entry, ascending);
    let ghost cap = bounded_len(board@.len() as int, max_size as int);

    // Find the insertion point.
    let mut p: usize = board.len();
    let mut found = false;
    let mut i: usize = 0;
    while i < board.len()
        invariant
            i <= board@.len(),
            !found ==> p == board@.len() && forall|j: int|
                0 <= j < i ==> !comes_before(entry, #[trigger] board@[j], ascending),
            found ==> p < i && comes_before(entry, board@[p as int], ascending) && forall|j: int|
                0 <= j < p ==> !comes_before(entry, #[trigger] board@[j], ascending),
        decreases board@.len() - i,
    {
        if !found {
            if before(&entry, &board[i], ascending) {
                p = i;
                found = true;
            }
        }
        i = i + 1;
    }
    proof {
        lemma_insertion_point_char(board@, entry, ascending, p as int);
    }

    // Copy everything ahead of the insertion point.
    let mut out: Vec<LeaderboardEntry> = Vec::new();
    let mut i: usize = 0;
    while i < p
        invariant
            i <= p,
            p <= board@.len(),
            out@ == board@.take(i as int),
        decreases p - i,
    {
        out.push(board[i]);
        proof {
            assert(out@ =~= board@.take(i + 1));
        }
        i = i + 1;
    }
    proof {
        assert(out@ =~= full.take(p as int));
    }

    // Place the new entry, unless the bound is already reached.
    if out.len() < max_size {
        out.push(entry);
        proof {
            assert(out@ =~= full.take(p + 1));
        }

        // Copy the remaining entries while the bound allows.
        let mut k: usize = p;
        while k < board.len() && out.len() < max_size
            invariant
                p <= k <= board@.len(),
                out@.len() == k + 1,
                out@.len() <= max_size,
                out@ == full.take(k + 1),
                full == spec_insert(board@, entry, ascending),
                full.len() == board@.len() + 1,
                forall|j: int|
                    (p as int) < j < full.len() ==> #[trigger] full[j] == board@[j - 1],
            decreases board@.len() - k,
        {
            out.push(board[k]);
            proof {
                assert(out@ =~= full.take(k + 2));
            }
            k = k + 1;
        }
        proof {
            if k == board@.len() {
                assert(out@.len() == cap);
            } else {
                assert(out@.len() == max_size);
                assert(out@.len() == cap);
            }
            assert(out@ == full.take(cap));
            lemma_sorted_take(full, ascending, cap);
        }
    } else {
        // The board already fills the bound and the new entry would sit
        // at its very end: the truncated result is the board unchanged.
        proof {
            assert(p == max_size && board@.len() == max_size);
            assert(cap == max_size as int);
            assert(out@ =~= full.take(cap));
            lemma_sorted_take(full, ascending, cap);
        }
    }
    out
}

} // verus!
