use cubeathon::{Error, Policy, LEADERBOARD_MAX};
use cubeathon::gate::{accepts, Verdict, ZKVerifier};
use cubeathon::registry::CubeathonContract;

fn no_proof() -> Vec<u8> {
    Vec::new()
}

fn real_proof() -> Vec<u8> {
    vec![1, 2, 3]
}

#[test]
fn fresh_session_round_trip() {
    let mut c = CubeathonContract::new(Policy::Sprint);
    assert_eq!(c.start_game(42, 10, 20, 10, 20, 777), Ok(()));
    let g = c.get_game(42).expect("session must exist");
    assert_eq!(g.player1, 10);
    assert_eq!(g.player2, 20);
    assert_eq!(g.p1_points, 10);
    assert_eq!(g.p2_points, 20);
    assert_eq!(g.p1_progress.levels_cleared, 0);
    assert_eq!(g.p2_progress.levels_cleared, 0);
    assert_eq!(g.winner, None);
    assert_eq!(g.started_at, 777);
    assert!(c.get_game(1).is_none());
}

#[test]
fn sprint_first_finisher_wins() {
    let mut c = CubeathonContract::new(Policy::Sprint);
    c.start_game(1, 10, 20, 0, 0, 0).unwrap();
    assert_eq!(c.submit_level(1, 10, 1, 1000, &no_proof(), Verdict::Accepted, 1), Ok(false));
    assert_eq!(c.submit_level(1, 10, 2, 1200, &no_proof(), Verdict::Accepted, 2), Ok(false));
    assert_eq!(c.submit_level(1, 10, 3, 900, &no_proof(), Verdict::Accepted, 3), Ok(true));
    let g = c.get_game(1).unwrap();
    assert_eq!(g.winner, Some(10));
    assert_eq!(g.p1_progress.best_time_ms, 3100);
    assert_eq!(g.p1_progress.level_times, vec![1000, 1200, 900]);
    let board = c.get_leaderboard();
    assert_eq!(board.len(), 1);
    assert_eq!(board[0].player, 10);
    assert_eq!(board[0].time_ms, 3100);
    assert_eq!(board[0].session_id, 1);
    assert_eq!(board[0].timestamp, 3);
}

#[test]
fn sprint_first_to_finish_beats_slower_opponent_time() {
    // Player 2 finishes first with a huge total; player 1 has faster
    // stage times but only two stages cleared: player 2 wins outright.
    let mut c = CubeathonContract::new(Policy::Sprint);
    c.start_game(1, 10, 20, 0, 0, 0).unwrap();
    c.submit_level(1, 10, 1, 1, &no_proof(), Verdict::Accepted, 0).unwrap();
    c.submit_level(1, 10, 2, 1, &no_proof(), Verdict::Accepted, 0).unwrap();
    c.submit_level(1, 20, 1, 50_000, &no_proof(), Verdict::Accepted, 0).unwrap();
    c.submit_level(1, 20, 2, 50_000, &no_proof(), Verdict::Accepted, 0).unwrap();
    assert_eq!(c.submit_level(1, 20, 3, 50_000, &no_proof(), Verdict::Accepted, 0), Ok(true));
    assert_eq!(c.get_game(1).unwrap().winner, Some(20));
}

#[test]
fn decided_session_is_terminal() {
    let mut c = CubeathonContract::new(Policy::Sprint);
    c.start_game(1, 10, 20, 0, 0, 0).unwrap();
    for (level, t) in [(1u32, 10u64), (2, 10), (3, 10)] {
        c.submit_level(1, 10, level, t, &no_proof(), Verdict::Accepted, 0).unwrap();
    }
    assert_eq!(
        c.submit_level(1, 20, 1, 5, &no_proof(), Verdict::Accepted, 0),
        Err(Error::AlreadyDecided)
    );
    assert_eq!(
        c.submit_level(1, 10, 1, 5, &no_proof(), Verdict::Accepted, 0),
        Err(Error::AlreadyDecided)
    );
    // The winner stayed as decided the first time.
    assert_eq!(c.get_game(1).unwrap().winner, Some(10));
}

#[test]
fn sprint_stage_sequencing() {
    let mut c = CubeathonContract::new(Policy::Sprint);
    c.start_game(1, 10, 20, 0, 0, 0).unwrap();
    // Skipping ahead is rejected.
    assert_eq!(
        c.submit_level(1, 10, 2, 5, &no_proof(), Verdict::Accepted, 0),
        Err(Error::StageNotUnlocked)
    );
    c.submit_level(1, 10, 1, 5, &no_proof(), Verdict::Accepted, 0).unwrap();
    // Resubmitting a cleared stage is rejected.
    assert_eq!(
        c.submit_level(1, 10, 1, 5, &no_proof(), Verdict::Accepted, 0),
        Err(Error::StageNotUnlocked)
    );
    // Out-of-range stages are rejected before anything else is looked at.
    assert_eq!(
        c.submit_level(1, 10, 0, 5, &no_proof(), Verdict::Accepted, 0),
        Err(Error::InvalidStage)
    );
    assert_eq!(
        c.submit_level(1, 10, 4, 5, &no_proof(), Verdict::Accepted, 0),
        Err(Error::InvalidStage)
    );
    let g = c.get_game(1).unwrap();
    assert_eq!(g.p1_progress.levels_cleared, 1);
    assert_eq!(g.p1_progress.level_times, vec![5]);
}

#[test]
fn session_errors() {
    let mut c = CubeathonContract::new(Policy::Sprint);
    assert_eq!(c.start_game(1, 10, 10, 0, 0, 0), Err(Error::InvalidParticipants));
    c.start_game(1, 10, 20, 0, 0, 0).unwrap();
    assert_eq!(c.start_game(1, 30, 40, 0, 0, 0), Err(Error::DuplicateSession));
    assert_eq!(
        c.submit_level(9, 10, 1, 5, &no_proof(), Verdict::Accepted, 0),
        Err(Error::NotFound)
    );
    assert_eq!(
        c.submit_level(1, 30, 1, 5, &no_proof(), Verdict::Accepted, 0),
        Err(Error::NotParticipant)
    );
}

#[test]
fn rejected_proof_changes_nothing() {
    let mut c = CubeathonContract::new(Policy::Sprint);
    c.start_game(1, 10, 20, 0, 0, 0).unwrap();
    assert_eq!(
        c.submit_level(1, 10, 1, 5, &real_proof(), Verdict::Rejected, 0),
        Err(Error::InvalidProof)
    );
    let g = c.get_game(1).unwrap();
    assert_eq!(g.p1_progress.levels_cleared, 0);
    assert_eq!(g.p1_progress.level_times, Vec::<u64>::new());
    assert!(c.get_leaderboard().is_empty());

    let mut e = CubeathonContract::new(Policy::Endurance);
    e.start_game(1, 10, 20, 0, 0, 0).unwrap();
    assert_eq!(
        e.submit_score(1, 10, 900, &real_proof(), Verdict::Rejected),
        Err(Error::InvalidProof)
    );
    assert_eq!(e.get_game(1).unwrap().p1_progress.best_time_ms, 0);
}

#[test]
fn empty_proof_bypasses_verifier() {
    // The bypass sentinel admits the submission even when the verdict
    // a verifier would have given is a rejection.
    let mut c = CubeathonContract::new(Policy::Sprint);
    c.start_game(1, 10, 20, 0, 0, 0).unwrap();
    assert_eq!(c.submit_level(1, 10, 1, 5, &no_proof(), Verdict::Rejected, 0), Ok(false));
    assert_eq!(c.get_game(1).unwrap().p1_progress.levels_cleared, 1);
}

#[test]
fn accepted_proof_is_admitted() {
    let mut c = CubeathonContract::new(Policy::Sprint);
    c.start_game(1, 10, 20, 0, 0, 0).unwrap();
    assert_eq!(c.submit_level(1, 10, 1, 5, &real_proof(), Verdict::Accepted, 0), Ok(false));
    assert_eq!(c.get_game(1).unwrap().p1_progress.levels_cleared, 1);
}

#[test]
fn gate_and_stub_verifier() {
    assert!(accepts(&no_proof(), Verdict::Rejected));
    assert!(accepts(&no_proof(), Verdict::Accepted));
    assert!(accepts(&real_proof(), Verdict::Accepted));
    assert!(!accepts(&real_proof(), Verdict::Rejected));
    assert_eq!(
        ZKVerifier::verify(&real_proof(), &vec![0; 32], &vec![0; 32]),
        Verdict::Accepted
    );
}

#[test]
fn endurance_metric_is_monotonic_max() {
    let mut c = CubeathonContract::new(Policy::Endurance);
    c.start_game(1, 10, 20, 0, 0, 0).unwrap();
    assert_eq!(c.submit_score(1, 10, 500, &no_proof(), Verdict::Accepted), Ok(true));
    assert_eq!(c.submit_score(1, 10, 300, &no_proof(), Verdict::Accepted), Ok(false));
    assert_eq!(c.get_game(1).unwrap().p1_progress.best_time_ms, 500);
    assert_eq!(c.submit_score(1, 10, 700, &no_proof(), Verdict::Accepted), Ok(true));
    assert_eq!(c.get_game(1).unwrap().p1_progress.best_time_ms, 700);
    // Submitting the stored value again is not a strict increase.
    assert_eq!(c.submit_score(1, 10, 700, &no_proof(), Verdict::Accepted), Ok(false));
    assert_eq!(c.get_game(1).unwrap().p1_progress.best_time_ms, 700);
}

#[test]
fn endurance_finalize_scenario() {
    let mut c = CubeathonContract::new(Policy::Endurance);
    c.start_game(1, 10, 20, 0, 0, 0).unwrap();
    for s in [500u64, 300, 700] {
        c.submit_score(1, 10, s, &no_proof(), Verdict::Accepted).unwrap();
    }
    c.submit_score(1, 20, 650, &no_proof(), Verdict::Accepted).unwrap();
    assert_eq!(c.finalize(1, 99), Ok(10));
    let g = c.get_game(1).unwrap();
    assert_eq!(g.winner, Some(10));
    let board = c.get_leaderboard();
    assert_eq!(board.len(), 1);
    assert_eq!(board[0].player, 10);
    assert_eq!(board[0].time_ms, 700);
    assert_eq!(board[0].timestamp, 99);
    // Finalizing twice fails: the session is terminal.
    assert_eq!(c.finalize(1, 100), Err(Error::AlreadyDecided));
    assert_eq!(c.finalize(7, 100), Err(Error::NotFound));
}

#[test]
fn endurance_tie_goes_to_player1() {
    let mut c = CubeathonContract::new(Policy::Endurance);
    c.start_game(1, 10, 20, 0, 0, 0).unwrap();
    c.submit_score(1, 10, 400, &no_proof(), Verdict::Accepted).unwrap();
    c.submit_score(1, 20, 400, &no_proof(), Verdict::Accepted).unwrap();
    assert_eq!(c.finalize(1, 0), Ok(10));
}

#[test]
fn endurance_leaderboard_sorts_descending() {
    let mut c = CubeathonContract::new(Policy::Endurance);
    for (id, a, b, score_a, score_b) in
        [(1u32, 10u64, 20u64, 300u64, 100u64), (2, 30, 40, 900, 100), (3, 50, 60, 600, 100)]
    {
        c.start_game(id, a, b, 0, 0, 0).unwrap();
        c.submit_score(id, a, score_a, &no_proof(), Verdict::Accepted).unwrap();
        c.submit_score(id, b, score_b, &no_proof(), Verdict::Accepted).unwrap();
        c.finalize(id, 0).unwrap();
    }
    let board = c.get_leaderboard();
    let times: Vec<u64> = board.iter().map(|e| e.time_ms).collect();
    assert_eq!(times, vec![900, 600, 300]);
}

#[test]
fn sprint_leaderboard_sorts_ascending_and_stays_bounded() {
    let mut c = CubeathonContract::new(Policy::Sprint);
    // More decided sessions than the leaderboard retains.
    let n = LEADERBOARD_MAX as u32 + 10;
    for i in 0..n {
        let a = 1000 + 2 * i as u64;
        let b = a + 1;
        c.start_game(i, a, b, 0, 0, 0).unwrap();
        // Total time descends with i, so later entries insert at the front.
        let t = (n - i) as u64 * 10;
        for level in 1..=3u32 {
            c.submit_level(i, a, level, t, &no_proof(), Verdict::Accepted, 0).unwrap();
        }
    }
    let board = c.get_leaderboard();
    assert_eq!(board.len(), LEADERBOARD_MAX);
    for w in board.windows(2) {
        assert!(w[0].time_ms <= w[1].time_ms);
    }
    // The fastest total sits first; only the 50 smallest totals survive.
    assert_eq!(board[0].time_ms, 30);
    assert_eq!(board[LEADERBOARD_MAX - 1].time_ms, LEADERBOARD_MAX as u64 * 30);
}
