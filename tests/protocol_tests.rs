use pgn_stockfish::output::{EngineError, OutputBuffer, WaitPoll};
use pgn_stockfish::protocol::{
    decimal, fen_white_to_move, go_command, handshake_steps, HandshakeStep, option_command, parse_depth, parse_move_text,
    parse_pv_move, parse_result_move, parse_score, position_command, BestMove,
};
use pgn_stockfish::replay::Square;
use pgn_stockfish::session::{EngineUpdate, SearchSession};
use pgn_stockfish::text::{contains, find_text, first_word, parse_i32, parse_u8};

fn mv(from: &str, to: &str) -> BestMove {
    let f = from.as_bytes();
    let t = to.as_bytes();
    BestMove {
        from: Square { file: f[0] - b'a', rank: f[1] - b'1' },
        to: Square { file: t[0] - b'a', rank: t[1] - b'1' },
    }
}

const PROGRESS: &str = "info depth 12 seldepth 18 multipv 1 score cp 50 nodes 1200 pv e2e4 e7e5";

#[test]
fn text_search() {
    assert_eq!(find_text("abcabc", "ca"), Some(2));
    assert_eq!(find_text("abc", "d"), None);
    assert_eq!(find_text("abc", ""), Some(0));
    assert!(contains("info depth 3", "depth "));
    assert!(!contains("bestmove", "best move"));
    assert_eq!(first_word("  e2e4 e7e5"), "e2e4");
    assert_eq!(first_word("   "), "");
}

#[test]
fn numerals() {
    assert_eq!(parse_i32("-35"), Some(-35));
    assert_eq!(parse_i32("+7"), Some(7));
    assert_eq!(parse_i32("2147483647"), Some(i32::MAX));
    assert_eq!(parse_i32("-2147483648"), Some(i32::MIN));
    assert_eq!(parse_i32("2147483648"), None);
    assert_eq!(parse_i32("99999999999999"), None);
    assert_eq!(parse_i32("-"), None);
    assert_eq!(parse_i32("12a"), None);
    assert_eq!(parse_i32(""), None);
    assert_eq!(parse_u8("255"), Some(255));
    assert_eq!(parse_u8("256"), None);
    assert_eq!(parse_u8("-1"), None);
    assert_eq!(parse_u8("+9"), Some(9));
}

#[test]
fn score_sign_follows_side_to_move() {
    assert_eq!(parse_score(PROGRESS, true), Some(50));
    assert_eq!(parse_score(PROGRESS, false), Some(-50));
    let mate = "info depth 20 score mate 3 pv h5f7";
    assert_eq!(parse_score(mate, true), Some(1000));
    assert_eq!(parse_score(mate, false), Some(-1000));
    let mated = "info depth 20 score mate -2 pv h5f7";
    assert_eq!(parse_score(mated, true), Some(-1000));
    assert_eq!(parse_score("info depth 5 score cp x pv e2e4", true), None);
}

#[test]
fn progress_fields() {
    assert_eq!(parse_depth(PROGRESS), Some(12));
    assert_eq!(parse_depth("info depth 300 score cp 1 pv e2e4"), None);
    assert_eq!(parse_pv_move(PROGRESS), Some(mv("e2", "e4")));
    assert_eq!(parse_pv_move("info depth 1 score cp 1 pv e7e8q"), Some(mv("e7", "e8")));
    assert_eq!(parse_pv_move("info depth 1 score cp 1 pv e2e4e5"), None);
    assert_eq!(parse_move_text("z9a1"), None);
}

#[test]
fn result_lines() {
    assert_eq!(parse_result_move("bestmove g1f3 ponder d7d5"), Some(mv("g1", "f3")));
    assert_eq!(parse_result_move("bestmove (none)"), None);
    assert_eq!(parse_result_move("bestmove"), None);
}

#[test]
fn commands() {
    assert_eq!(go_command(Some(16), None), "go depth 16");
    assert_eq!(go_command(Some(16), Some(500)), "go depth 16");
    assert_eq!(go_command(None, Some(500)), "go movetime 500");
    assert_eq!(go_command(None, None), "go depth 20");
    assert_eq!(position_command("8/8/8/8/8/8/8/K6k w - - 0 1"), "position fen 8/8/8/8/8/8/8/K6k w - - 0 1");
    assert_eq!(option_command("Threads", "4"), "setoption name Threads value 4");
    assert_eq!(decimal(0), "0");
    assert_eq!(decimal(1234567890), "1234567890");
    assert_eq!(decimal(u64::MAX), u64::MAX.to_string());
}

#[test]
fn side_to_move_from_fen() {
    assert!(fen_white_to_move("rnbqkbnr/pppppppp/8/8/8/8/PPPPPPPP/RNBQKBNR w KQkq - 0 1"));
    assert!(!fen_white_to_move("rnbqkbnr/pppppppp/8/8/3P4/8/PPP1PPPP/RNBQKBNR b KQkq d3 0 1"));
    assert!(!fen_white_to_move(""));
}

#[test]
fn waits_never_redeliver() {
    let mut b = OutputBuffer::new();
    b.push_line("id name Engine".to_string());
    assert_eq!(b.take_response("uciok"), None);
    b.push_line("uciok".to_string());
    assert_eq!(b.take_response("uciok"), Some(vec!["id name Engine".to_string(), "uciok".to_string()]));
    b.push_line("readyok".to_string());
    assert_eq!(b.take_response("readyok"), Some(vec!["readyok".to_string()]));
    assert!(!b.has_token("uciok"));
    b.push_line("x".to_string());
    assert_eq!(b.get_output(), vec!["x".to_string()]);
    b.push_line("y".to_string());
    b.clear();
    assert_eq!(b.get_output(), Vec::<String>::new());
}

#[test]
fn session_publishes_changes_and_final() {
    let mut s = SearchSession::new(false);
    let mut lines = vec![PROGRESS.to_string()];
    let first = s.poll(&lines, false);
    assert_eq!(
        first,
        Some(EngineUpdate { best_move: Some(mv("e2", "e4")), evaluation: Some(-50), depth: Some(12), is_final: false })
    );
    assert_eq!(s.poll(&lines, false), None);
    lines.push("info string nothing".to_string());
    assert_eq!(s.poll(&lines, false), None);
    lines.push("bestmove d2d4 ponder d7d5".to_string());
    lines.push("info depth 30 score cp 9 pv a2a3".to_string());
    assert_eq!(
        s.poll(&lines, false),
        Some(EngineUpdate { best_move: Some(mv("d2", "d4")), evaluation: None, depth: None, is_final: true })
    );
    assert!(s.finished);
    lines.push("info depth 31 score cp 9 pv a2a3".to_string());
    assert_eq!(s.poll(&lines, false), None);
}

#[test]
fn session_rereads_after_buffer_cleared() {
    let mut s = SearchSession::new(true);
    let lines = vec!["a".to_string(), "b".to_string(), "c".to_string()];
    assert_eq!(s.poll(&lines, false), None);
    assert_eq!(s.processed_lines, 3);
    let cleared = vec!["info depth 2 score cp 5 pv g1f3".to_string()];
    let u = s.poll(&cleared, false).unwrap();
    assert_eq!(u.depth, Some(2));
    assert_eq!(u.evaluation, Some(5));
}

#[test]
fn cancelled_session_stays_silent() {
    let mut s = SearchSession::new(true);
    let lines = vec![PROGRESS.to_string(), "bestmove e2e4".to_string()];
    assert_eq!(s.poll(&lines, true), None);
    assert!(s.finished);
    assert_eq!(s.poll(&lines, false), None);
    let more = vec![PROGRESS.to_string(), "bestmove e2e4".to_string(), "bestmove d2d4".to_string()];
    assert_eq!(s.poll(&more, false), None);
}

#[test]
fn wait_steps_until_token_or_timeout() {
    let mut b = OutputBuffer::new();
    b.push_line("id author someone".to_string());
    assert!(matches!(b.wait_step("readyok", 10, 5000), WaitPoll::Pending));
    match b.wait_step("readyok", 5000, 5000) {
        WaitPoll::TimedOut(EngineError::ProtocolTimeout { token, timeout_ms }) => {
            assert_eq!(token, "readyok");
            assert_eq!(timeout_ms, 5000);
        }
        other => panic!("unexpected {:?}", other),
    }
    b.push_line("readyok".to_string());
    match b.wait_step("readyok", 9000, 5000) {
        WaitPoll::Ready(lines) => assert_eq!(lines, vec!["id author someone".to_string(), "readyok".to_string()]),
        other => panic!("unexpected {:?}", other),
    }
    assert!(matches!(b.wait_step("readyok", 0, 5000), WaitPoll::Pending));
}

#[test]
fn handshake_order() {
    let steps: Vec<(bool, String)> = handshake_steps("4", "128")
        .into_iter()
        .map(|s| match s {
            HandshakeStep::Send(c) => (false, c),
            HandshakeStep::Await(t) => (true, t),
        })
        .collect();
    let expected = vec![
        (false, "uci"),
        (true, "uciok"),
        (false, "setoption name Threads value 4"),
        (false, "setoption name Hash value 128"),
        (false, "setoption name MultiPV value 1"),
        (false, "ucinewgame"),
        (false, "isready"),
        (true, "readyok"),
        (false, "position startpos"),
        (false, "isready"),
        (true, "readyok"),
    ];
    let expected: Vec<(bool, String)> = expected.into_iter().map(|(w, t)| (w, t.to_string())).collect();
    assert_eq!(steps, expected);
}

#[test]
fn repeated_progress_line_is_published_once() {
    let mut s = SearchSession::new(true);
    let mut lines = vec![PROGRESS.to_string()];
    assert!(s.poll(&lines, false).is_some());
    lines.push(PROGRESS.to_string());
    assert_eq!(s.poll(&lines, false), None);
    lines.push("info depth 13 seldepth 18 multipv 1 score cp 50 nodes 1900 pv e2e4 e7e5".to_string());
    assert_eq!(
        s.poll(&lines, false),
        Some(EngineUpdate { best_move: Some(mv("e2", "e4")), evaluation: Some(50), depth: Some(13), is_final: false })
    );
}

#[test]
fn no_move_result_is_final() {
    let mut s = SearchSession::new(true);
    let lines = vec!["info depth 0 score mate 0".to_string(), "bestmove (none)".to_string()];
    assert_eq!(
        s.poll(&lines, false),
        Some(EngineUpdate { best_move: None, evaluation: None, depth: None, is_final: true })
    );
    assert!(s.finished);
    assert_eq!(s.poll(&lines, false), None);
}
