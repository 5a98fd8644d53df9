//! Two-player competitive sessions gated by an external proof verifier.
//!
//! A session records per-player progress that is only accepted after a
//! proof-verification gate admits the submission.  Two winner policies are
//! supported: a sprint (first to clear a fixed number of stages, ties broken
//! by total time) and an endurance run (highest metric at an explicit
//! finalization).  Decided sessions feed a bounded, sorted leaderboard.
//!
//! The verifier itself, authorization, hub notification and persistent
//! storage are external collaborators: the surrounding host performs those
//! calls and hands their outcomes to this library as plain values.

use vstd::prelude::*;

pub mod gate;
pub mod progress;
pub mod session;
pub mod leaderboard;
pub mod registry;

verus! {

/// Number of stages a sprint session is played over.
pub const LEVEL_COUNT: u32 = 3;

/// Upper bound on the number of leaderboard entries that are retained.
pub const LEADERBOARD_MAX: usize = 50;

/// Failure taxonomy.  Every operation either completes in full or returns
/// one of these and leaves all state exactly as it was.
#[derive(Clone, Copy, Debug, PartialEq, Eq, Structural)]
pub enum Error {
    /// No session is registered under the given id.
    NotFound,
    /// The caller is neither of the session's two players.
    NotParticipant,
    /// The session already has a winner and is immutable.
    AlreadyDecided,
    /// The verification gate rejected the submission.
    InvalidProof,
    /// The stage number lies outside the valid range.
    InvalidStage,
    /// The stage is not the next sequential one for this player.
    StageNotUnlocked,
    /// A session cannot pit a player against themselves.
    InvalidParticipants,
    /// A session with this id already exists.
    DuplicateSession,
}

/// Which winner-determination policy a registry instance runs under.
#[derive(Clone, Copy, Debug, PartialEq, Eq, Structural)]
pub enum Policy {
    /// First to clear all stages wins; if both finish, lower total time wins.
    Sprint,
    /// Highest stored metric at explicit finalization wins.
    Endurance,
}

} // verus!
