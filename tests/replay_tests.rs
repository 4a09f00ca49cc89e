use pgn_stockfish::board::{ChessBoard, Colour, Piece, PieceType};
use pgn_stockfish::replay::{square_to_board_coord, ChessGamePlayer, Move, Square};

fn sq(name: &str) -> Square {
    let b = name.as_bytes();
    Square { file: b[0] - b'a', rank: b[1] - b'1' }
}

fn normal(from: &str, to: &str) -> Move {
    Move::Normal { from: sq(from), to: sq(to), promotion: None }
}

fn cell_at(p: &ChessGamePlayer, name: &str) -> (PieceType, Colour) {
    let s = sq(name);
    p.board.get_cell(7 - s.rank as usize, s.file as usize)
}

fn all_cells(b: &ChessBoard) -> Vec<(PieceType, Colour)> {
    let mut v = Vec::new();
    for r in 0..8 {
        for c in 0..8 {
            v.push(b.get_cell(r, c));
        }
    }
    v
}

fn loaded(moves: Vec<Move>) -> ChessGamePlayer {
    let mut p = ChessGamePlayer::new(ChessBoard::new());
    assert!(p.load_game(moves, vec![("White".to_string(), "A".to_string())]));
    p
}

#[test]
fn piece_file_names() {
    assert_eq!(Piece::new(PieceType::King, Colour::White).filename, "white-king");
    assert_eq!(Piece::new(PieceType::Knight, Colour::Black).filename, "black-knight");
    assert_eq!(Piece::get_filename(PieceType::Pawn, Colour::Black), "black-pawn");
    assert_eq!(Piece::new(PieceType::Empty, Colour::Neither).filename, "");
}

#[test]
fn starting_board_layout() {
    let b = ChessBoard::new();
    assert_eq!(b.get_cell(0, 0), (PieceType::Rook, Colour::Black));
    assert_eq!(b.get_cell(0, 3), (PieceType::Queen, Colour::Black));
    assert_eq!(b.get_cell(0, 4), (PieceType::King, Colour::Black));
    assert_eq!(b.get_cell(1, 5), (PieceType::Pawn, Colour::Black));
    assert_eq!(b.get_cell(4, 4), (PieceType::Empty, Colour::Neither));
    assert_eq!(b.get_cell(6, 2), (PieceType::Pawn, Colour::White));
    assert_eq!(b.get_cell(7, 4), (PieceType::King, Colour::White));
    assert_eq!(b.get_cell(7, 6), (PieceType::Knight, Colour::White));
    assert_eq!(b.grid.len(), 8);
    assert!(b.grid.iter().all(|row| row.len() == 8));
}

#[test]
fn forward_then_backward_restores_start() {
    let moves = vec![normal("e2", "e4"), normal("e7", "e5"), normal("g1", "f3"), normal("b8", "c6")];
    let n = moves.len();
    let mut p = loaded(moves);
    let start = all_cells(&p.board);
    for _ in 0..n {
        assert!(p.next_move());
    }
    assert_eq!(p.get_current_move(), n);
    assert_ne!(all_cells(&p.board), start);
    for _ in 0..n {
        assert!(p.previous_move());
    }
    assert_eq!(p.get_current_move(), 0);
    assert_eq!(all_cells(&p.board), start);
    assert_eq!(all_cells(&p.board), all_cells(&ChessBoard::new()));
}

#[test]
fn boundaries_are_no_ops() {
    let mut p = loaded(vec![normal("d2", "d4")]);
    let before = all_cells(&p.board);
    assert!(!p.previous_move());
    assert_eq!(p.get_current_move(), 0);
    assert_eq!(all_cells(&p.board), before);
    assert!(p.next_move());
    let at_end = all_cells(&p.board);
    assert!(!p.next_move());
    assert_eq!(p.get_current_move(), 1);
    assert_eq!(all_cells(&p.board), at_end);
}

#[test]
fn normal_move_and_previous_rebuild() {
    let mut p = loaded(vec![normal("e2", "e4"), normal("e7", "e5")]);
    assert!(p.next_move());
    assert_eq!(cell_at(&p, "e4"), (PieceType::Pawn, Colour::White));
    assert_eq!(cell_at(&p, "e2"), (PieceType::Empty, Colour::Neither));
    assert!(p.next_move());
    assert_eq!(cell_at(&p, "e5"), (PieceType::Pawn, Colour::Black));
    assert!(p.previous_move());
    assert_eq!(cell_at(&p, "e7"), (PieceType::Pawn, Colour::Black));
    assert_eq!(cell_at(&p, "e4"), (PieceType::Pawn, Colour::White));
}

#[test]
fn castling_kingside_and_queenside() {
    let mut p = loaded(vec![
        Move::Castle { king: sq("e1"), rook: sq("h1") },
        Move::Castle { king: sq("e8"), rook: sq("a8") },
    ]);
    assert!(p.next_move());
    assert_eq!(cell_at(&p, "g1"), (PieceType::King, Colour::White));
    assert_eq!(cell_at(&p, "f1"), (PieceType::Rook, Colour::White));
    assert_eq!(cell_at(&p, "e1"), (PieceType::Empty, Colour::Neither));
    assert_eq!(cell_at(&p, "h1"), (PieceType::Empty, Colour::Neither));
    assert!(p.next_move());
    assert_eq!(cell_at(&p, "c8"), (PieceType::King, Colour::Black));
    assert_eq!(cell_at(&p, "d8"), (PieceType::Rook, Colour::Black));
    assert_eq!(cell_at(&p, "e8"), (PieceType::Empty, Colour::Neither));
    assert_eq!(cell_at(&p, "a8"), (PieceType::Empty, Colour::Neither));
}

#[test]
fn castling_mirrors_on_other_ranks() {
    let mut p = loaded(vec![
        Move::Castle { king: sq("e1"), rook: sq("a1") },
        Move::Castle { king: sq("e8"), rook: sq("h8") },
    ]);
    p.go_to_end();
    assert_eq!(cell_at(&p, "c1"), (PieceType::King, Colour::White));
    assert_eq!(cell_at(&p, "d1"), (PieceType::Rook, Colour::White));
    assert_eq!(cell_at(&p, "g8"), (PieceType::King, Colour::Black));
    assert_eq!(cell_at(&p, "f8"), (PieceType::Rook, Colour::Black));
    assert_eq!(cell_at(&p, "h8"), (PieceType::Empty, Colour::Neither));
}

#[test]
fn en_passant_removal_follows_source_rank() {
    // White captures from rank 5: the square above the destination is cleared.
    let mut p = loaded(vec![
        normal("e2", "e4"),
        normal("a7", "a6"),
        normal("e4", "e5"),
        normal("d7", "d5"),
        Move::EnPassant { from: sq("e5"), to: sq("d6") },
    ]);
    p.go_to_end();
    assert_eq!(cell_at(&p, "d6"), (PieceType::Pawn, Colour::White));
    assert_eq!(cell_at(&p, "e5"), (PieceType::Empty, Colour::Neither));
    assert_eq!(cell_at(&p, "d7"), (PieceType::Empty, Colour::Neither));
    assert_eq!(cell_at(&p, "d5"), (PieceType::Pawn, Colour::Black));
    // Black captures from rank 4: the square below the destination is cleared.
    let mut q = loaded(vec![
        normal("a2", "a3"),
        normal("d7", "d5"),
        normal("a3", "a4"),
        normal("d5", "d4"),
        normal("e2", "e4"),
        Move::EnPassant { from: sq("d4"), to: sq("e3") },
    ]);
    q.go_to_end();
    assert_eq!(cell_at(&q, "e3"), (PieceType::Pawn, Colour::Black));
    assert_eq!(cell_at(&q, "d4"), (PieceType::Empty, Colour::Neither));
    assert_eq!(cell_at(&q, "e2"), (PieceType::Empty, Colour::Neither));
}

#[test]
fn promotion_keeps_colour() {
    let mut p = loaded(vec![Move::Normal {
        from: sq("a2"),
        to: sq("a8"),
        promotion: Some(PieceType::Knight),
    }]);
    assert!(p.next_move());
    assert_eq!(cell_at(&p, "a8"), (PieceType::Knight, Colour::White));
    assert_eq!(cell_at(&p, "a2"), (PieceType::Empty, Colour::Neither));
}

#[test]
fn malformed_moves_are_refused() {
    let mut p = loaded(vec![normal("e2", "e4")]);
    assert!(p.next_move());
    let bad_square = vec![Move::Normal { from: Square { file: 8, rank: 1 }, to: sq("e4"), promotion: None }];
    assert!(!p.load_game(bad_square, Vec::new()));
    let bad_promotion = vec![Move::Normal { from: sq("a7"), to: sq("a8"), promotion: Some(PieceType::King) }];
    assert!(!p.load_game(bad_promotion, Vec::new()));
    let bad_en_passant = vec![Move::EnPassant { from: sq("b2"), to: sq("a1") }];
    assert!(!p.load_game(bad_en_passant, Vec::new()));
    assert_eq!(p.get_current_move(), 1);
    assert_eq!(p.get_total_moves(), 1);
    assert_eq!(p.get_headers().len(), 1);
}

#[test]
fn reset_and_getters() {
    let mut p = loaded(vec![normal("e2", "e4"), normal("e7", "e5")]);
    assert_eq!(p.get_total_moves(), 2);
    assert_eq!(p.get_headers()[0], ("White".to_string(), "A".to_string()));
    p.go_to_end();
    assert_eq!(p.get_current_move(), 2);
    p.reset();
    assert_eq!(p.get_current_move(), 0);
    assert_eq!(all_cells(&p.board), all_cells(&ChessBoard::new()));
    assert_eq!(square_to_board_coord(sq("g3")), (2, 6));
}

#[test]
fn empty_game() {
    let mut p = loaded(Vec::new());
    assert!(!p.next_move());
    assert!(!p.previous_move());
    p.go_to_end();
    assert_eq!(p.get_current_move(), 0);
}
