use cubeathon::leaderboard::{before, leaderboard_insert, LeaderboardEntry};

fn entry(player: u64, time_ms: u64) -> LeaderboardEntry {
    LeaderboardEntry { player, time_ms, session_id: player as u32, timestamp: 0 }
}

#[test]
fn insert_keeps_ascending_order() {
    let mut board: Vec<LeaderboardEntry> = Vec::new();
    for t in [500u64, 100, 300, 400, 200] {
        board = leaderboard_insert(&board, entry(t, t), 10, true);
    }
    let times: Vec<u64> = board.iter().map(|e| e.time_ms).collect();
    assert_eq!(times, vec![100, 200, 300, 400, 500]);
}

#[test]
fn insert_keeps_descending_order() {
    let mut board: Vec<LeaderboardEntry> = Vec::new();
    for t in [500u64, 100, 300, 400, 200] {
        board = leaderboard_insert(&board, entry(t, t), 10, false);
    }
    let times: Vec<u64> = board.iter().map(|e| e.time_ms).collect();
    assert_eq!(times, vec![500, 400, 300, 200, 100]);
}

#[test]
fn insert_respects_bound_and_discards_tail() {
    let mut board: Vec<LeaderboardEntry> = Vec::new();
    for t in 0..8u64 {
        board = leaderboard_insert(&board, entry(t, 100 - t), 5, true);
        assert!(board.len() <= 5);
    }
    // Eight inserts with descending keys: only the five smallest remain.
    let times: Vec<u64> = board.iter().map(|e| e.time_ms).collect();
    assert_eq!(times, vec![93, 94, 95, 96, 97]);
}

#[test]
fn new_entry_goes_before_equal_keys() {
    let mut board: Vec<LeaderboardEntry> = Vec::new();
    board = leaderboard_insert(&board, entry(1, 100), 10, true);
    board = leaderboard_insert(&board, entry(2, 100), 10, true);
    board = leaderboard_insert(&board, entry(3, 100), 10, true);
    let players: Vec<u64> = board.iter().map(|e| e.player).collect();
    assert_eq!(players, vec![3, 2, 1]);
}

#[test]
fn full_board_ignores_new_last_entry() {
    let mut board: Vec<LeaderboardEntry> = Vec::new();
    for t in [10u64, 20, 30] {
        board = leaderboard_insert(&board, entry(t, t), 3, true);
    }
    // The board is full and the new entry would sit at the very end.
    let unchanged = leaderboard_insert(&board, entry(9, 40), 3, true);
    let times: Vec<u64> = unchanged.iter().map(|e| e.time_ms).collect();
    assert_eq!(times, vec![10, 20, 30]);
}

#[test]
fn comparator_directions() {
    let fast = entry(1, 10);
    let slow = entry(2, 20);
    assert!(before(&fast, &slow, true));
    assert!(!before(&slow, &fast, true));
    assert!(before(&slow, &fast, false));
    assert!(!before(&fast, &slow, false));
    assert!(before(&fast, &fast, true));
    assert!(before(&fast, &fast, false));
}
