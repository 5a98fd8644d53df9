//! Full per-session state and the two winner-determination policies.

use vstd::prelude::*;
use crate::{Policy, LEVEL_COUNT};
use crate::progress::PlayerProgress;

verus! {

/// The complete state of one two-player session.
///
/// Player identities are the numeric ids the host environment assigns to
/// its account principals; the two are never equal.  Once `winner` is set
/// the session is terminal and no operation mutates it again.
#[derive(Debug)]
pub struct GameState {
    /// First participant (also the tie-break beneficiary).
    pub player1: u64,
    /// Second participant.
    pub player2: u64,
    /// Opaque stake/weight carried for the first player.
    pub p1_points: i128,
    /// Opaque stake/weight carried for the second player.
    pub p2_points: i128,
    /// First player's progress record.
    pub p1_progress: PlayerProgress,
    /// Second player's progress record.
    pub p2_progress: PlayerProgress,
    /// The decided winner, if any; `Some` makes the session terminal.
    pub winner: Option<u64>,
    /// Timestamp the host supplied when the session was created.
    pub started_at: u64,
}

impl GameState {
    /// Well-formedness under the registry's active policy.
    pub open spec fn wf(self, policy: Policy) -> bool {
        &&& self.player1 != self.player2
        &&& match policy {
            Policy::Sprint => self.p1_progress.sprint_wf() && self.p2_progress.sprint_wf(),
            Policy::Endurance => self.p1_progress.endurance_wf()
                && self.p2_progress.endurance_wf(),
        }
        &&& match self.winner {
            None => true,
            Some(w) => w == self.player1 || w == self.player2,
        }
    }

    /// Whether `player` is one of the session's two participants.
    pub open spec fn is_participant(self, player: u64) -> bool {
        player == self.player1 || player == self.player2
    }

    /// The given participant's progress record.
    pub open spec fn progress_of(self, player: u64) -> PlayerProgress {
        if player == self.player1 {
            self.p1_progress
        } else {
            self.p2_progress
        }
    }

    /// The other participant's progress record.
    pub open spec fn opponent_progress_of(self, player: u64) -> PlayerProgress {
        if player == self.player1 {
            self.p2_progress
        } else {
            self.p1_progress
        }
    }

    /// Two states that agree on every field (progress compared by value).
    pub open spec fn same_state(self, other: GameState) -> bool {
        &&& self.player1 == other.player1
        &&& self.player2 == other.player2
        &&& self.p1_points == other.p1_points
        &&& self.p2_points == other.p2_points
        &&& self.p1_progress.levels_cleared == other.p1_progress.levels_cleared
        &&& self.p1_progress.best_time_ms == other.p1_progress.best_time_ms
        &&& self.p1_progress.level_times@ == other.p1_progress.level_times@
        &&& self.p2_progress.levels_cleared == other.p2_progress.levels_cleared
        &&& self.p2_progress.best_time_ms == other.p2_progress.best_time_ms
        &&& self.p2_progress.level_times@ == other.p2_progress.level_times@
        &&& self.winner == other.winner
        &&& self.started_at == other.started_at
    }

    /// A session as `start_game` creates it: given players and stakes,
    /// fresh progress on both sides, no winner.
    pub open spec fn is_fresh(
        self,
        player1: u64,
        player2: u64,
        p1_points: i128,
        p2_points: i128,
        policy: Policy,
        now: u64,
    ) -> bool {
        &&& self.player1 == player1
        &&& self.player2 == player2
        &&& self.p1_points == p1_points
        &&& self.p2_points == p2_points
        &&& self.p1_progress.is_fresh(policy)
        &&& self.p2_progress.is_fresh(policy)
        &&& self.winner is None
        &&& self.started_at == now
    }

    /// Create the state of a freshly started session.
    pub fn fresh(
        player1: u64,
        player2: u64,
        p1_points: i128,
        p2_points: i128,
        policy: Policy,
        now: u64,
    ) -> (r: Self)
        requires
            player1 != player2,
        ensures
            r.is_fresh(player1, player2, p1_points, p2_points, policy, now),
            r.wf(policy),
    {
        GameState {
            player1,
            player2,
            p1_points,
            p2_points,
            p1_progress: PlayerProgress::empty(policy),
            p2_progress: PlayerProgress::empty(policy),
            winner: None,
            started_at: now,
        }
    }

    /// An exact copy of this state.
    pub fn duplicate(&self) -> (r: Self)
        ensures
            r.same_state(*self),
    {
        GameState {
            player1: self.player1,
            player2: self.player2,
            p1_points: self.p1_points,
            p2_points: self.p2_points,
            p1_progress: self.p1_progress.duplicate(),
            p2_progress: self.p2_progress.duplicate(),
            winner: self.winner,
            started_at: self.started_at,
        }
    }
}

/// The sprint policy's decision, evaluated right after a successful stage
/// submission: `Some(p1_won)` when the session is decided now, `None`
/// otherwise.  The submitter wins outright by finishing first; if both
/// players have finished, the lower total time wins and a tie goes to
/// player 1.
pub open spec fn spec_sprint_decision(
    p1: PlayerProgress,
    p2: PlayerProgress,
    submitter_is_p1: bool,
) -> Option<bool> {
    let sub_done = (if submitter_is_p1 { p1 } else { p2 }).levels_cleared == LEVEL_COUNT;
    let opp_done = (if submitter_is_p1 { p2 } else { p1 }).levels_cleared == LEVEL_COUNT;
    if sub_done && !opp_done {
        Some(submitter_is_p1)
    } else if p1.levels_cleared == LEVEL_COUNT && p2.levels_cleared == LEVEL_COUNT {
        Some(p1.best_time_ms <= p2.best_time_ms)
    } else {
        None
    }
}

/// Evaluate the sprint decision after a stage submission by the player
/// indicated by `submitter_is_p1`.  `Some(p1_won)` means the session is
/// decided by this submission.
pub fn sprint_decision(p1: &PlayerProgress, p2: &PlayerProgress, submitter_is_p1: bool) -> (r:
    Option<bool>)
    ensures
        r == spec_sprint_decision(*p1, *p2, submitter_is_p1),
        // Finishing every stage while the opponent still has stages left
        // wins outright, whatever the times.
        (if submitter_is_p1 { p1 } else { p2 }).levels_cleared == LEVEL_COUNT
            && (if submitter_is_p1 { p2 } else { p1 }).levels_cleared < LEVEL_COUNT
            ==> r == Some(submitter_is_p1),
        // With both players finished, the smaller total time wins and an
        // equal total goes to player 1.
        p1.levels_cleared == LEVEL_COUNT && p2.levels_cleared == LEVEL_COUNT
            ==> r == Some(p1.best_time_ms <= p2.best_time_ms),
{
    let sub_cleared = if submitter_is_p1 { p1.levels_cleared } else { p2.levels_cleared };
    let opp_cleared = if submitter_is_p1 { p2.levels_cleared } else { p1.levels_cleared };
    if sub_cleared == LEVEL_COUNT && opp_cleared != LEVEL_COUNT {
        Some(submitter_is_p1)
    } else if p1.levels_cleared == LEVEL_COUNT && p2.levels_cleared == LEVEL_COUNT {
        Some(p1.best_time_ms <= p2.best_time_ms)
    } else {
        None
    }
}

/// The endurance policy's decision at explicit finalization: the player
/// with the greater-or-equal metric wins, a tie going to player 1.
pub fn endurance_decision(p1_metric: u64, p2_metric: u64) -> (p1_won: bool)
    ensures
        p1_won == (p1_metric >= p2_metric),
{
    p1_metric >= p2_metric
}

} // verus!
