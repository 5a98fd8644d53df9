//! The session registry: owns every session's lifecycle and the global
//! leaderboard, under one active winner policy.
//!
//! Every operation is all-or-nothing: a failed precondition or a rejected
//! proof returns an error and leaves the whole registry exactly as it was.
//! The host performs authorization, hub notification and the verifier call
//! around these operations and hands in their outcomes as plain values.

use vstd::prelude::*;
use std::collections::HashMap;
use crate::{Error, Policy, LEVEL_COUNT, LEADERBOARD_MAX};
use crate::gate::{Verdict, gate_accepts, accepts};
use crate::progress::sum_times;
use crate::session::{GameState, spec_sprint_decision, sprint_decision, endurance_decision};
use crate::leaderboard::{
    LeaderboardEntry, sorted, spec_insert, bounded_len, leaderboard_insert,
};

verus! {

broadcast use vstd::std_specs::hash::group_hash_axioms;

/// Sort direction of the leaderboard under the given policy: sprint totals
/// ascend (lower time is better), endurance metrics descend.
pub open spec fn leaderboard_ascending(policy: Policy) -> bool {
    policy is Sprint
}

/// The registry: a keyed store of sessions plus the shared leaderboard,
/// all run under one winner policy fixed at construction.
pub struct CubeathonContract {
    /// The active winner-determination policy.
    pub policy: Policy,
    /// All sessions, keyed by their caller-supplied id.
    pub sessions: HashMap<u32, GameState>,
    /// Best results across all decided sessions, bounded and sorted.
    pub leaderboard: Vec<LeaderboardEntry>,
}

impl CubeathonContract {
    /// Registry invariant: every session is well formed under the active
    /// policy and the leaderboard is bounded and sorted in the policy's
    /// direction.
    pub open spec fn wf(self) -> bool {
        &&& forall|id: u32| #[trigger]
            self.sessions@.contains_key(id) ==> self.sessions@[id].wf(self.policy)
        &&& self.leaderboard@.len() <= LEADERBOARD_MAX
        &&& sorted(self.leaderboard@, leaderboard_ascending(self.policy))
    }

    /// Error, if any, a sprint stage submission fails with, checked in
    /// this order: unknown session, stage out of range, terminal session,
    /// caller not a participant, stage not the next sequential one.
    pub open spec fn submit_check(self, session_id: u32, player: u64, level: u32) -> Option<
        Error,
    > {
        if !self.sessions@.contains_key(session_id) {
            Some(Error::NotFound)
        } else if level < 1 || level > LEVEL_COUNT {
            Some(Error::InvalidStage)
        } else if self.sessions@[session_id].winner is Some {
            Some(Error::AlreadyDecided)
        } else if !self.sessions@[session_id].is_participant(player) {
            Some(Error::NotParticipant)
        } else if level != self.sessions@[session_id].progress_of(player).levels_cleared + 1 {
            Some(Error::StageNotUnlocked)
        } else {
            None
        }
    }

    /// The one machine limit a sprint submission carries: on the path
    /// that records a stage, the new total time must fit in 64 bits.
    pub open spec fn submit_fits(
        self,
        session_id: u32,
        player: u64,
        level: u32,
        time_ms: u64,
    ) -> bool {
        self.submit_check(session_id, player, level) is None ==> sum_times(
            self.sessions@[session_id].progress_of(player).level_times@,
        ) + time_ms <= u64::MAX
    }

    /// Error, if any, an endurance score submission fails with.
    pub open spec fn score_check(self, session_id: u32, player: u64) -> Option<Error> {
        if !self.sessions@.contains_key(session_id) {
            Some(Error::NotFound)
        } else if self.sessions@[session_id].winner is Some {
            Some(Error::AlreadyDecided)
        } else if !self.sessions@[session_id].is_participant(player) {
            Some(Error::NotParticipant)
        } else {
            None
        }
    }

    /// Error, if any, a finalization fails with.
    pub open spec fn finalize_check(self, session_id: u32) -> Option<Error> {
        if !self.sessions@.contains_key(session_id) {
            Some(Error::NotFound)
        } else if self.sessions@[session_id].winner is Some {
            Some(Error::AlreadyDecided)
        } else {
            None
        }
    }

    /// Law: a session whose winner is set is terminal.  Every later
    /// stage submission (with a stage in range), score submission or
    /// finalization fails with `AlreadyDecided`; together with each
    /// operation's guarantee that a failing call leaves the registry
    /// untouched, a winner is set at most once and never changes.
    pub proof fn lemma_terminal_session_rejects(
        self,
        session_id: u32,
        player: u64,
        level: u32,
    )
        requires
            self.sessions@.contains_key(session_id),
            self.sessions@[session_id].winner is Some,
        ensures
            1 <= level <= LEVEL_COUNT ==> self.submit_check(session_id, player, level) == Some(
                Error::AlreadyDecided,
            ),
            self.score_check(session_id, player) == Some(Error::AlreadyDecided),
            self.finalize_check(session_id) == Some(Error::AlreadyDecided),
    {
    }

    /// What a successful sprint stage submission does to the registry:
    /// the submitter's record gains the stage, the winner policy is
    /// evaluated, and on a decision the winner is set and enters the
    /// leaderboard; everything else is untouched.
    pub open spec fn sprint_applied(
        pre: Self,
        post: Self,
        session_id: u32,
        player: u64,
        level: u32,
        time_ms: u64,
        now: u64,
        r: Result<bool, Error>,
    ) -> bool {
        let g0 = pre.sessions@[session_id];
        let gf = post.sessions@[session_id];
        let p0 = g0.progress_of(player);
        let pf = gf.progress_of(player);
        let dec = spec_sprint_decision(gf.p1_progress, gf.p2_progress, player == g0.player1);
        &&& post.sessions@.dom() == pre.sessions@.dom()
        &&& forall|k: u32| #[trigger]
            pre.sessions@.contains_key(k) && k != session_id ==> post.sessions@[k]
                == pre.sessions@[k]
        &&& gf.player1 == g0.player1
        &&& gf.player2 == g0.player2
        &&& gf.p1_points == g0.p1_points
        &&& gf.p2_points == g0.p2_points
        &&& gf.started_at == g0.started_at
        &&& pf.level_times@ == p0.level_times@.push(time_ms)
        &&& sum_times(pf.level_times@) == sum_times(p0.level_times@) + time_ms
        &&& pf.levels_cleared == level
        &&& pf.best_time_ms == if level == LEVEL_COUNT {
            sum_times(p0.level_times@) + time_ms
        } else {
            u64::MAX as int
        }
        &&& gf.opponent_progress_of(player).same_progress(g0.opponent_progress_of(player))
        &&& gf.winner == (match dec {
            Some(p1_won) => Some(if p1_won { g0.player1 } else { g0.player2 }),
            None => None::<u64>,
        })
        &&& post.leaderboard@ == (match dec {
            Some(p1_won) => spec_insert(
                pre.leaderboard@,
                (LeaderboardEntry {
                    player: if p1_won { g0.player1 } else { g0.player2 },
                    time_ms: if p1_won {
                        gf.p1_progress.best_time_ms
                    } else {
                        gf.p2_progress.best_time_ms
                    },
                    session_id: session_id,
                    timestamp: now,
                }),
                true,
            ).take(bounded_len(pre.leaderboard@.len() as int, LEADERBOARD_MAX as int)),
            None => pre.leaderboard@,
        })
        &&& r == Ok::<bool, Error>(dec is Some)
    }

    /// A registry with no sessions and an empty leaderboard.
    pub fn new(policy: Policy) -> (r: Self)
        ensures
            r.policy == policy,
            r.sessions@ == Map::<u32, GameState>::empty(),
            r.leaderboard@.len() == 0,
            r.wf(),
    {
        CubeathonContract { policy, sessions: HashMap::new(), leaderboard: Vec::new() }
    }

    /// Register a fresh session between two distinct players.
    ///
    /// Fails with `InvalidParticipants` when the players coincide and with
    /// `DuplicateSession` when the id is taken; otherwise the new session
    /// starts with fresh progress on both sides and no winner.
    pub fn start_game(
        &mut self,
        session_id: u32,
        player1: u64,
        player2: u64,
        player1_points: i128,
        player2_points: i128,
        now: u64,
    ) -> (r: Result<(), Error>)
        requires
            old(self).wf(),
        ensures
            final(self).wf(),
            final(self).policy == old(self).policy,
            player1 == player2 ==> r == Err::<(), Error>(Error::InvalidParticipants) && *final(self)
                == *old(self),
            player1 != player2 && old(self).sessions@.contains_key(session_id) ==> r == Err::<
                (),
                Error,
            >(Error::DuplicateSession) && *final(self) == *old(self),
            player1 != player2 && !old(self).sessions@.contains_key(session_id) ==> {
                &&& r == Ok::<(), Error>(())
                &&& final(self).leaderboard@ == old(self).leaderboard@
                &&& final(self).sessions@.dom() == old(self).sessions@.dom().insert(session_id)
                &&& forall|k: u32| #[trigger]
                    old(self).sessions@.contains_key(k) && k != session_id ==> final(self).sessions@[k] == old(self).sessions@[k]
                &&& final(self).sessions@[session_id].is_fresh(
                    player1,
                    player2,
                    player1_points,
                    player2_points,
                    old(self).policy,
                    now,
                )
            },
    {
        if player1 == player2 {
            return Err(Error::InvalidParticipants);
        }
        if self.sessions.contains_key(&session_id) {
            return Err(Error::DuplicateSession);
        }
        let fresh = GameState::fresh(player1, player2, player1_points, player2_points, self.policy, now);
        self.sessions.insert(session_id, fresh);
        proof {
            assert(self.sessions@.dom() =~= old(self).sessions@.dom().insert(session_id));
        }
        Ok(())
    }

    /// Sprint: record the completion of a stage, gated by the verifier.
    ///
    /// `verdict` is the external verifier's outcome for this proof; it is
    /// consulted only for a non-empty proof.  On success the winner policy
    /// is evaluated at once and the call reports whether it decided the
    /// session.  Any failure leaves the registry untouched.
    pub fn submit_level(
        &mut self,
        session_id: u32,
        player: u64,
        level: u32,
        time_ms: u64,
        proof: &Vec<u8>,
        verdict: Verdict,
        now: u64,
    ) -> (r: Result<bool, Error>)
        requires
            old(self).wf(),
            old(self).policy == Policy::Sprint,
            old(self).submit_fits(session_id, player, level, time_ms),
        ensures
            final(self).wf(),
            final(self).policy == old(self).policy,
            ({
                let check = old(self).submit_check(session_id, player, level);
                match check {
                    Some(e) => r == Err::<bool, Error>(e) && *final(self) == *old(self),
                    None => if gate_accepts(proof@, verdict) {
                        Self::sprint_applied(
                            *old(self),
                            *final(self),
                            session_id,
                            player,
                            level,
                            time_ms,
                            now,
                            r,
                        )
                    } else {
                        r == Err::<bool, Error>(Error::InvalidProof) && *final(self) == *old(self)
                    },
                }
            }),
    {
        let is_p1: bool;
        {
            let g = match self.sessions.get(&session_id) {
                Some(g) => g,
                None => {
                    return Err(Error::NotFound);
                },
            };
            if level < 1 || level > LEVEL_COUNT {
                return Err(Error::InvalidStage);
            }
            if g.winner.is_some() {
                return Err(Error::AlreadyDecided);
            }
            if player != g.player1 && player != g.player2 {
                return Err(Error::NotParticipant);
            }
            is_p1 = player == g.player1;
            let cleared = if is_p1 {
                g.p1_progress.levels_cleared
            } else {
                g.p2_progress.levels_cleared
            };
            if level != cleared + 1 {
                return Err(Error::StageNotUnlocked);
            }
        }
        if !accepts(proof, verdict) {
            return Err(Error::InvalidProof);
        }
        let mut g = self.sessions.remove(&session_id).unwrap();
        if is_p1 {
            g.p1_progress.record_stage(level, time_ms);
        } else {
            g.p2_progress.record_stage(level, time_ms);
        }
        let dec = sprint_decision(&g.p1_progress, &g.p2_progress, is_p1);
        let decided = dec.is_some();
        match dec {
            Some(p1_won) => {
                let w = if p1_won { g.player1 } else { g.player2 };
                let wt = if p1_won {
                    g.p1_progress.best_time_ms
                } else {
                    g.p2_progress.best_time_ms
                };
                g.winner = Some(w);
                self.add_to_leaderboard(w, wt, session_id, now);
            },
            None => {},
        }
        self.sessions.insert(session_id, g);
        proof {
            assert(self.sessions@.dom() =~= old(self).sessions@.dom());
        }
        Ok(decided)
    }

    /// Endurance: submit a survival metric, gated by the verifier.
    ///
    /// The stored metric only ever rises: it becomes `time_ms` when that
    /// strictly exceeds it and stays put otherwise.  The call reports
    /// whether the stored value changed.  No stored metric of any player
    /// in any session decreases, whatever the outcome.
    pub fn submit_score(
        &mut self,
        session_id: u32,
        player: u64,
        time_ms: u64,
        proof: &Vec<u8>,
        verdict: Verdict,
    ) -> (r: Result<bool, Error>)
        requires
            old(self).wf(),
            old(self).policy == Policy::Endurance,
        ensures
            final(self).wf(),
            final(self).policy == old(self).policy,
            ({
                let check = old(self).score_check(session_id, player);
                match check {
                    Some(e) => r == Err::<bool, Error>(e) && *final(self) == *old(self),
                    None => if gate_accepts(proof@, verdict) {
                        let g0 = old(self).sessions@[session_id];
                        let gf = final(self).sessions@[session_id];
                        let m0 = g0.progress_of(player).best_time_ms;
                        &&& final(self).sessions@.dom() == old(self).sessions@.dom()
                        &&& forall|k: u32| #[trigger]
                            old(self).sessions@.contains_key(k) && k != session_id ==> final(self).sessions@[k] == old(self).sessions@[k]
                        &&& gf.player1 == g0.player1
                        &&& gf.player2 == g0.player2
                        &&& gf.p1_points == g0.p1_points
                        &&& gf.p2_points == g0.p2_points
                        &&& gf.started_at == g0.started_at
                        &&& gf.winner is None
                        &&& gf.progress_of(player).best_time_ms == if time_ms > m0 {
                            time_ms
                        } else {
                            m0
                        }
                        &&& gf.progress_of(player).levels_cleared == g0.progress_of(
                            player,
                        ).levels_cleared
                        &&& gf.progress_of(player).level_times@ == g0.progress_of(
                            player,
                        ).level_times@
                        &&& gf.opponent_progress_of(player).same_progress(
                            g0.opponent_progress_of(player),
                        )
                        &&& final(self).leaderboard@ == old(self).leaderboard@
                        &&& r == Ok::<bool, Error>(time_ms > m0)
                    } else {
                        r == Err::<bool, Error>(Error::InvalidProof) && *final(self) == *old(self)
                    },
                }
            }),
            // The stored metric is non-decreasing, for every player of
            // every session and whatever this call returns.
            forall|k: u32| #[trigger]
                old(self).sessions@.contains_key(k) ==> final(self).sessions@.contains_key(k)
                    && final(self).sessions@[k].p1_progress.best_time_ms >= old(
                    self,
                ).sessions@[k].p1_progress.best_time_ms && final(self).sessions@[k].p2_progress.best_time_ms >= old(
                    self,
                ).sessions@[k].p2_progress.best_time_ms,
    {
        let is_p1: bool;
        {
            let g = match self.sessions.get(&session_id) {
                Some(g) => g,
                None => {
                    return Err(Error::NotFound);
                },
            };
            if g.winner.is_some() {
                return Err(Error::AlreadyDecided);
            }
            if player != g.player1 && player != g.player2 {
                return Err(Error::NotParticipant);
            }
            is_p1 = player == g.player1;
        }
        if !accepts(proof, verdict) {
            return Err(Error::InvalidProof);
        }
        let mut g = self.sessions.remove(&session_id).unwrap();
        let changed = if is_p1 {
            g.p1_progress.record_score(time_ms)
        } else {
            g.p2_progress.record_score(time_ms)
        };
        self.sessions.insert(session_id, g);
        proof {
            assert(self.sessions@.dom() =~= old(self).sessions@.dom());
        }
        Ok(changed)
    }

    /// Endurance: decide the session now.  The player with the
    /// greater-or-equal stored metric wins, a tie going to player 1; the
    /// winner is recorded, and the winning metric enters the leaderboard
    /// in descending order.  Returns the winner's identity.
    pub fn finalize(&mut self, session_id: u32, now: u64) -> (r: Result<u64, Error>)
        requires
            old(self).wf(),
            old(self).policy == Policy::Endurance,
        ensures
            final(self).wf(),
            final(self).policy == old(self).policy,
            ({
                let check = old(self).finalize_check(session_id);
                match check {
                    Some(e) => r == Err::<u64, Error>(e) && *final(self) == *old(self),
                    None => {
                        let g0 = old(self).sessions@[session_id];
                        let gf = final(self).sessions@[session_id];
                        let p1_won = g0.p1_progress.best_time_ms >= g0.p2_progress.best_time_ms;
                        let w = if p1_won { g0.player1 } else { g0.player2 };
                        let wm = if p1_won {
                            g0.p1_progress.best_time_ms
                        } else {
                            g0.p2_progress.best_time_ms
                        };
                        &&& r == Ok::<u64, Error>(w)
                        &&& final(self).sessions@.dom() == old(self).sessions@.dom()
                        &&& forall|k: u32| #[trigger]
                            old(self).sessions@.contains_key(k) && k != session_id ==> final(self).sessions@[k] == old(self).sessions@[k]
                        &&& gf.winner == Some(w)
                        &&& gf.player1 == g0.player1
                        &&& gf.player2 == g0.player2
                        &&& gf.p1_points == g0.p1_points
                        &&& gf.p2_points == g0.p2_points
                        &&& gf.started_at == g0.started_at
                        &&& gf.p1_progress.same_progress(g0.p1_progress)
                        &&& gf.p2_progress.same_progress(g0.p2_progress)
                        &&& final(self).leaderboard@ == spec_insert(
                            old(self).leaderboard@,
                            (LeaderboardEntry {
                                player: w,
                                time_ms: wm,
                                session_id: session_id,
                                timestamp: now,
                            }),
                            false,
                        ).take(
                            bounded_len(old(self).leaderboard@.len() as int, LEADERBOARD_MAX as int),
                        )
                    },
                }
            }),
    {
        {
            let g = match self.sessions.get(&session_id) {
                Some(g) => g,
                None => {
                    return Err(Error::NotFound);
                },
            };
            if g.winner.is_some() {
                return Err(Error::AlreadyDecided);
            }
        }
        let mut g = self.sessions.remove(&session_id).unwrap();
        let p1_won = endurance_decision(g.p1_progress.best_time_ms, g.p2_progress.best_time_ms);
        let w = if p1_won { g.player1 } else { g.player2 };
        let wm = if p1_won { g.p1_progress.best_time_ms } else { g.p2_progress.best_time_ms };
        g.winner = Some(w);
        self.add_to_leaderboard(w, wm, session_id, now);
        self.sessions.insert(session_id, g);
        proof {
            assert(self.sessions@.dom() =~= old(self).sessions@.dom());
        }
        Ok(w)
    }

    /// Read-only: a copy of the session's full state, if it exists.
    pub fn get_game(&self, session_id: u32) -> (r: Option<GameState>)
        ensures
            match r {
                None => !self.sessions@.contains_key(session_id),
                Some(g) => self.sessions@.contains_key(session_id) && g.same_state(
                    self.sessions@[session_id],
                ),
            },
    {
        match self.sessions.get(&session_id) {
            Some(g) => Some(g.duplicate()),
            None => None,
        }
    }

    /// Read-only: a snapshot of the leaderboard, best first.
    pub fn get_leaderboard(&self) -> (r: Vec<LeaderboardEntry>)
        ensures
            r@ == self.leaderboard@,
    {
        let mut out: Vec<LeaderboardEntry> = Vec::new();
        let mut i: usize = 0;
        while i < self.leaderboard.len()
            invariant
                i <= self.leaderboard@.len(),
                out@ == self.leaderboard@.take(i as int),
            decreases self.leaderboard@.len() - i,
        {
            out.push(self.leaderboard[i]);
            proof {
                assert(out@ =~= self.leaderboard@.take(i + 1));
            }
            i = i + 1;
        }
        proof {
            assert(out@ =~= self.leaderboard@);
        }
        out
    }

    /// Append a decided session's result to the leaderboard, keeping it
    /// sorted in the active policy's direction and within the bound.
    fn add_to_leaderboard(&mut self, player: u64, time_ms: u64, session_id: u32, now: u64)
        requires
            sorted(old(self).leaderboard@, leaderboard_ascending(old(self).policy)),
            old(self).leaderboard@.len() <= LEADERBOARD_MAX,
        ensures
            final(self).policy == old(self).policy,
            final(self).sessions@ == old(self).sessions@,
            final(self).leaderboard@ == spec_insert(
                old(self).leaderboard@,
                (LeaderboardEntry { player, time_ms, session_id, timestamp: now }),
                leaderboard_ascending(old(self).policy),
            ).take(bounded_len(old(self).leaderboard@.len() as int, LEADERBOARD_MAX as int)),
            sorted(final(self).leaderboard@, leaderboard_ascending(final(self).policy)),
            final(self).leaderboard@.len() <= LEADERBOARD_MAX,
    {
        let entry = LeaderboardEntry { player, time_ms, session_id, timestamp: now };
        let ascending = match self.policy {
            Policy::Sprint => true,
            Policy::Endurance => false,
        };
        let board = leaderboard_insert(&self.leaderboard, entry, LEADERBOARD_MAX, ascending);
        self.leaderboard = board;
    }
}

} // verus!
