use pgn_stockfish::board::ChessBoard;
use pgn_stockfish::position::{placement, position_at, rights_field, square_name};
use pgn_stockfish::replay::{ChessGamePlayer, Move, Square};

fn sq(name: &str) -> Square {
    let b = name.as_bytes();
    Square { file: b[0] - b'a', rank: b[1] - b'1' }
}

fn normal(from: &str, to: &str) -> Move {
    Move::Normal { from: sq(from), to: sq(to), promotion: None }
}

const START: &str = "rnbqkbnr/pppppppp/8/8/8/8/PPPPPPPP/RNBQKBNR w KQkq - 0 1";

#[test]
fn king_pawn_game_positions() {
    let moves = vec![normal("e2", "e4"), normal("e7", "e5"), normal("g1", "f3")];
    assert_eq!(position_at(&moves, 0), START);
    assert_eq!(position_at(&moves, 1), "rnbqkbnr/pppppppp/8/8/4P3/8/PPPP1PPP/RNBQKBNR b KQkq e3 0 1");
    assert_eq!(position_at(&moves, 2), "rnbqkbnr/pppp1ppp/8/4p3/4P3/8/PPPP1PPP/RNBQKBNR w KQkq e6 0 2");
    assert_eq!(position_at(&moves, 3), "rnbqkbnr/pppp1ppp/8/4p3/4P3/5N2/PPPP1PPP/RNBQKB1R b KQkq - 1 2");
}

#[test]
fn empty_game_position() {
    assert_eq!(position_at(&Vec::new(), 0), START);
    assert_eq!(placement(&ChessBoard::new()), "rnbqkbnr/pppppppp/8/8/8/8/PPPPPPPP/RNBQKBNR");
}

#[test]
fn castling_rights_and_clock() {
    let moves = vec![
        normal("e2", "e4"),
        normal("e7", "e5"),
        normal("g1", "f3"),
        normal("b8", "c6"),
        normal("f1", "c4"),
        normal("g8", "f6"),
        Move::Castle { king: sq("e1"), rook: sq("h1") },
        normal("a8", "b8"),
    ];
    assert_eq!(
        position_at(&moves, 7),
        "r1bqkb1r/pppp1ppp/2n2n2/4p3/2B1P3/5N2/PPPP1PPP/RNBQ1RK1 b kq - 5 4"
    );
    assert_eq!(
        position_at(&moves, 8),
        "1rbqkb1r/pppp1ppp/2n2n2/4p3/2B1P3/5N2/PPPP1PPP/RNBQ1RK1 w k - 6 5"
    );
}

#[test]
fn capture_resets_clock() {
    let moves = vec![normal("g1", "f3"), normal("d7", "d5"), normal("f3", "e5"), normal("b8", "c6"), normal("e5", "c6")];
    assert_eq!(
        position_at(&moves, 4),
        "r1bqkbnr/ppp1pppp/2n5/3pN3/8/8/PPPPPPPP/RNBQKB1R w KQkq - 2 3"
    );
    assert_eq!(
        position_at(&moves, 5),
        "r1bqkbnr/ppp1pppp/2N5/3p4/8/8/PPPPPPPP/RNBQKB1R b KQkq - 0 3"
    );
}

#[test]
fn field_helpers() {
    assert_eq!(rights_field(false, false, false, false), "-");
    assert_eq!(rights_field(true, false, false, true), "Kq");
    assert_eq!(square_name(sq("h8")), "h8");
    assert_eq!(square_name(sq("a1")), "a1");
}

#[test]
fn player_position_string() {
    let mut p = ChessGamePlayer::new(ChessBoard::new());
    assert!(p.load_game(vec![normal("d2", "d4"), normal("d7", "d5")], Vec::new()));
    assert_eq!(p.position_string(), START);
    assert!(p.next_move());
    assert_eq!(p.position_string(), "rnbqkbnr/pppppppp/8/8/3P4/8/PPP1PPPP/RNBQKBNR b KQkq d3 0 1");
    p.go_to_end();
    assert_eq!(p.position_string(), "rnbqkbnr/ppp1pppp/8/3p4/3P4/8/PPP1PPPP/RNBQKBNR w KQkq d6 0 2");
}
