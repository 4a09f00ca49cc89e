//! The position after some plies of a game, written in Forsyth-Edwards
//! Notation: piece placement, side to move, castling rights, en-passant
//! square, half-move clock and full-move number.

use vstd::prelude::*;
use crate::board::{Cell, ChessBoard, Colour, PieceType, initial_cells};
use crate::protocol::{decimal, decimal_text};
use crate::replay::{ChessGamePlayer, Move, Square, all_wf, replay};

verus! {

/// The letter of a piece: upper case for white, lower case for black;
/// nothing for an empty square.
pub open spec fn piece_letter(c: Cell) -> Seq<char> {
    let white = c.1 is White;
    match c.0 {
        PieceType::King => if white { "K"@ } else { "k"@ },
        PieceType::Queen => if white { "Q"@ } else { "q"@ },
        PieceType::Rook => if white { "R"@ } else { "r"@ },
        PieceType::Bishop => if white { "B"@ } else { "b"@ },
        PieceType::Knight => if white { "N"@ } else { "n"@ },
        PieceType::Pawn => if white { "P"@ } else { "p"@ },
        PieceType::Empty => ""@,
    }
}

/// A run of `run` empty squares: its count, or nothing when there is none.
pub open spec fn run_text(run: int) -> Seq<char> {
    if run > 0 {
        decimal_text(run as nat)
    } else {
        Seq::empty()
    }
}

/// A row from column `i` on, after `run` empty squares not yet written.
pub open spec fn row_text_from(row: Seq<Cell>, i: int, run: int) -> Seq<char>
    decreases row.len() - i,
{
    if i < 0 || i >= row.len() {
        run_text(run)
    } else if row[i].0 is Empty {
        row_text_from(row, i + 1, run + 1)
    } else {
        run_text(run) + piece_letter(row[i]) + row_text_from(row, i + 1, 0)
    }
}

/// The rows of a board from row `r` on, separated by `/`.
pub open spec fn rows_text_from(b: Seq<Seq<Cell>>, r: int) -> Seq<char>
    decreases b.len() - r,
{
    if r < 0 || r >= b.len() {
        Seq::empty()
    } else if r == b.len() - 1 {
        row_text_from(b[r], 0, 0)
    } else {
        row_text_from(b[r], 0, 0) + "/"@ + rows_text_from(b, r + 1)
    }
}

/// The piece placement field: rank 8 first, each rank from file a to file h.
pub open spec fn placement_text(b: Seq<Seq<Cell>>) -> Seq<char> {
    rows_text_from(b, 0)
}

/// A move starts from, lands on, or castles with the square `sq`.
pub open spec fn touches(m: Move, sq: Square) -> bool {
    match m {
        Move::Normal { from, to, .. } => from == sq || to == sq,
        Move::Castle { king, rook } => king == sq || rook == sq,
        Move::EnPassant { from, to } => from == sq || to == sq,
    }
}

/// A castling right survives the first `n` moves when none of them touches
/// the king's square or the rook's square.
pub open spec fn right_kept(moves: Seq<Move>, n: nat, king: Square, rook: Square) -> bool
    decreases n,
{
    if n == 0 {
        true
    } else {
        right_kept(moves, (n - 1) as nat, king, rook) && !touches(moves[n - 1], king) && !touches(
            moves[n - 1],
            rook,
        )
    }
}

pub open spec fn sq(file: u8, rank: u8) -> Square {
    Square { file, rank }
}

/// `t` when `kept` holds, else nothing.
pub open spec fn flag_text(kept: bool, t: Seq<char>) -> Seq<char> {
    if kept {
        t
    } else {
        Seq::empty()
    }
}

/// The castling field for the rights kept: `K`, `Q`, `k`, `q` in that order,
/// or `-` when none is.
pub open spec fn rights_text(wk: bool, wq: bool, bk: bool, bq: bool) -> Seq<char> {
    let t = flag_text(wk, "K"@) + flag_text(wq, "Q"@) + flag_text(bk, "k"@) + flag_text(bq, "q"@);
    if t.len() == 0 {
        "-"@
    } else {
        t
    }
}

/// The castling field after the first `n` moves.
pub open spec fn castling_text(moves: Seq<Move>, n: nat) -> Seq<char> {
    rights_text(
        right_kept(moves, n, sq(4, 0), sq(7, 0)),
        right_kept(moves, n, sq(4, 0), sq(0, 0)),
        right_kept(moves, n, sq(4, 7), sq(7, 7)),
        right_kept(moves, n, sq(4, 7), sq(0, 7)),
    )
}

/// The square a pawn skipped when the move `m`, played on `b`, advances it
/// two ranks.
pub open spec fn skipped_square(b: Seq<Seq<Cell>>, m: Move) -> Option<Square> {
    match m {
        Move::Normal { from, to, promotion } => {
            if promotion is None && b[from.row()][from.file as int].0 is Pawn && from.file == to.file
                && (to.rank == from.rank + 2 || from.rank == to.rank + 2) {
                Some(Square { file: from.file, rank: ((from.rank + to.rank) / 2) as u8 })
            } else {
                None
            }
        },
        _ => None,
    }
}

/// The en-passant square after the first `n` moves: the square the last
/// of them skipped with a pawn's double step, if it did.
pub open spec fn en_passant_square(moves: Seq<Move>, n: nat) -> Option<Square> {
    if n == 0 {
        None
    } else {
        skipped_square(replay(moves, (n - 1) as nat), moves[n - 1])
    }
}

/// A square's name, such as `e3`.
pub open spec fn square_text(s: Square) -> Seq<char> {
    "abcdefgh"@.subrange(s.file as int, s.file + 1) + "12345678"@.subrange(s.rank as int, s.rank + 1)
}

pub open spec fn en_passant_text(moves: Seq<Move>, n: nat) -> Seq<char> {
    match en_passant_square(moves, n) {
        Some(s) => square_text(s),
        None => "-"@,
    }
}

/// A move played on `b` that moves a pawn or captures.
pub open spec fn resets_clock(b: Seq<Seq<Cell>>, m: Move) -> bool {
    match m {
        Move::Normal { from, to, .. } => b[from.row()][from.file as int].0 is Pawn || !(b[to.row()][to.file as int].0 is Empty),
        Move::Castle { .. } => false,
        Move::EnPassant { .. } => true,
    }
}

/// The plies played since the last pawn move or capture, among the first `n`.
pub open spec fn halfmove_clock(moves: Seq<Move>, n: nat) -> nat
    decreases n,
{
    if n == 0 {
        0
    } else if resets_clock(replay(moves, (n - 1) as nat), moves[n - 1]) {
        0
    } else {
        halfmove_clock(moves, (n - 1) as nat) + 1
    }
}

/// The side to move after `n` plies: white after an even number.
pub open spec fn side_text(n: nat) -> Seq<char> {
    if n % 2 == 0 {
        "w"@
    } else {
        "b"@
    }
}

/// The position after the first `n` moves, played from the starting
/// position, as a FEN string.
pub open spec fn fen_text(moves: Seq<Move>, n: nat) -> Seq<char> {
    placement_text(replay(moves, n)) + " "@ + side_text(n) + " "@ + castling_text(moves, n) + " "@
        + en_passant_text(moves, n) + " "@ + decimal_text(halfmove_clock(moves, n)) + " "@
        + decimal_text(n / 2 + 1)
}

fn letter_of(c: Cell) -> (r: &'static str)
    ensures
        r@ == piece_letter(c),
{
    let white = match c.1 {
        Colour::White => true,
        _ => false,
    };
    match c.0 {
        PieceType::King => if white { "K" } else { "k" },
        PieceType::Queen => if white { "Q" } else { "q" },
        PieceType::Rook => if white { "R" } else { "r" },
        PieceType::Bishop => if white { "B" } else { "b" },
        PieceType::Knight => if white { "N" } else { "n" },
        PieceType::Pawn => if white { "P" } else { "p" },
        PieceType::Empty => "",
    }
}

/// Appends the count of a run of empty squares, if there is one.
fn push_run(out: String, run: usize) -> (r: String)
    requires
        run <= 8,
    ensures
        r@ == out@ + run_text(run as int),
{
    if run > 0 {
        out.concat(decimal(run as u64).as_str())
    } else {
        proof {
            assert(out@ + run_text(run as int) =~= out@);
        }
        out
    }
}

/// One rank of the placement field.
pub fn row_text(board: &ChessBoard, row: usize) -> (r: String)
    requires
        board.wf(),
        row < 8,
    ensures
        r@ == row_text_from(board@[row as int], 0, 0),
{
    let ghost cells = board@[row as int];
    let mut out = String::new();
    let mut run: usize = 0;
    let mut i: usize = 0;
    while i < 8
        invariant
            board.wf(),
            row < 8,
            cells == board@[row as int],
            cells.len() == 8,
            0 <= i <= 8,
            run <= i,
            out@ + row_text_from(cells, i as int, run as int) == row_text_from(cells, 0, 0),
        decreases 8 - i,
    {
        let c = board.get_cell(row, i);
        match c.0 {
            PieceType::Empty => {
                run = run + 1;
            },
            _ => {
                let ghost before = out@;
                out = push_run(out, run);
                out = out.concat(letter_of(c));
                proof {
                    assert(before + row_text_from(cells, i as int, run as int) =~= out@
                        + row_text_from(cells, i + 1, 0));
                }
                run = 0;
            },
        }
        i = i + 1;
    }
    push_run(out, run)
}

/// The piece placement field of a board.
pub fn placement(board: &ChessBoard) -> (r: String)
    requires
        board.wf(),
    ensures
        r@ == placement_text(board@),
{
    let ghost b = board@;
    let mut out = String::new();
    let mut r: usize = 0;
    while r < 7
        invariant
            board.wf(),
            b == board@,
            b.len() == 8,
            0 <= r <= 7,
            out@ + rows_text_from(b, r as int) == placement_text(b),
        decreases 7 - r,
    {
        let ghost before = out@;
        out = out.concat(row_text(board, r).as_str());
        out = out.concat("/");
        proof {
            assert(before + rows_text_from(b, r as int) =~= out@ + rows_text_from(b, r + 1));
        }
        r = r + 1;
    }
    let last = row_text(board, 7);
    proof {
        assert(out@ + last@ =~= placement_text(b));
    }
    out.concat(last.as_str())
}

/// A square's name, such as `e3`.
pub fn square_name(s: Square) -> (r: String)
    requires
        s.wf(),
    ensures
        r@ == square_text(s),
{
    proof {
        reveal_strlit("abcdefgh");
        reveal_strlit("12345678");
    }
    let f = s.file as usize;
    let k = s.rank as usize;
    String::from_str("abcdefgh".substring_char(f, f + 1)).concat("12345678".substring_char(k, k + 1))
}

fn add_flag(out: String, kept: bool, t: &str) -> (r: String)
    ensures
        r@ == out@ + flag_text(kept, t@),
{
    if kept {
        out.concat(t)
    } else {
        proof {
            assert(out@ + flag_text(kept, t@) =~= out@);
        }
        out
    }
}

/// The castling field for the rights kept.
pub fn rights_field(wk: bool, wq: bool, bk: bool, bq: bool) -> (r: String)
    ensures
        r@ == rights_text(wk, wq, bk, bq),
{
    let t = add_flag(String::new(), wk, "K");
    let t = add_flag(t, wq, "Q");
    let t = add_flag(t, bk, "k");
    let t = add_flag(t, bq, "q");
    proof {
        assert(Seq::<char>::empty() + flag_text(wk, "K"@) =~= flag_text(wk, "K"@));
    }
    if t.unicode_len() == 0 {
        String::from_str("-")
    } else {
        t
    }
}

pub fn touches_square(m: Move, s: Square) -> (r: bool)
    ensures
        r == touches(m, s),
{
    match m {
        Move::Normal { from, to, .. } => from == s || to == s,
        Move::Castle { king, rook } => king == s || rook == s,
        Move::EnPassant { from, to } => from == s || to == s,
    }
}

/// The square a pawn skips when `m`, played on `board`, advances it two ranks.
pub fn skipped(board: &ChessBoard, m: Move) -> (r: Option<Square>)
    requires
        board.wf(),
        m.wf(),
    ensures
        r == skipped_square(board@, m),
{
    match m {
        Move::Normal { from, to, promotion } => {
            let moving = board.get_cell(7 - from.rank as usize, from.file as usize);
            let pawn = match moving.0 {
                PieceType::Pawn => true,
                _ => false,
            };
            let two_ranks = (to.rank < 6 && to.rank + 2 == from.rank) || (from.rank < 6
                && from.rank + 2 == to.rank);
            if promotion.is_none() && pawn && from.file == to.file && two_ranks {
                Some(Square { file: from.file, rank: (from.rank + to.rank) / 2 })
            } else {
                None
            }
        },
        _ => None,
    }
}

/// Whether `m`, played on `board`, moves a pawn or captures.
pub fn resets(board: &ChessBoard, m: Move) -> (r: bool)
    requires
        board.wf(),
        m.wf(),
    ensures
        r == resets_clock(board@, m),
{
    match m {
        Move::Normal { from, to, .. } => {
            let moving = board.get_cell(7 - from.rank as usize, from.file as usize);
            let target = board.get_cell(7 - to.rank as usize, to.file as usize);
            let pawn = match moving.0 {
                PieceType::Pawn => true,
                _ => false,
            };
            let occupied = match target.0 {
                PieceType::Empty => false,
                _ => true,
            };
            pawn || occupied
        },
        Move::Castle { .. } => false,
        Move::EnPassant { .. } => true,
    }
}

/// The position after the first `ply` moves of `moves`, played from the
/// starting position, as a FEN string.
pub fn position_at(moves: &Vec<Move>, ply: usize) -> (r: String)
    requires
        all_wf(moves@),
        ply <= moves@.len(),
    ensures
        r@ == fen_text(moves@, ply as nat),
        ply == 0 ==> r@ == "rnbqkbnr/pppppppp/8/8/8/8/PPPPPPPP/RNBQKBNR w KQkq - 0 1"@,
{
    proof {
        initial_position_text(moves@);
    }
    let mut p = ChessGamePlayer::new(ChessBoard::new());
    let e1 = Square { file: 4, rank: 0 };
    let h1 = Square { file: 7, rank: 0 };
    let a1 = Square { file: 0, rank: 0 };
    let e8 = Square { file: 4, rank: 7 };
    let h8 = Square { file: 7, rank: 7 };
    let a8 = Square { file: 0, rank: 7 };
    let mut wk = true;
    let mut wq = true;
    let mut bk = true;
    let mut bq = true;
    let mut clock: usize = 0;
    let mut ep: Option<Square> = None;
    let mut i: usize = 0;
    while i < ply
        invariant
            all_wf(moves@),
            0 <= i <= ply,
            ply <= moves@.len(),
            e1 == sq(4, 0) && h1 == sq(7, 0) && a1 == sq(0, 0),
            e8 == sq(4, 7) && h8 == sq(7, 7) && a8 == sq(0, 7),
            p.board.wf(),
            p.board@ == replay(moves@, i as nat),
            wk == right_kept(moves@, i as nat, e1, h1),
            wq == right_kept(moves@, i as nat, e1, a1),
            bk == right_kept(moves@, i as nat, e8, h8),
            bq == right_kept(moves@, i as nat, e8, a8),
            clock as nat == halfmove_clock(moves@, i as nat),
            clock <= i,
            ep == en_passant_square(moves@, i as nat),
        decreases ply - i,
    {
        let m = moves[i];
        assert(m.wf());
        ep = skipped(&p.board, m);
        if resets(&p.board, m) {
            clock = 0;
        } else {
            clock = clock + 1;
        }
        wk = wk && !touches_square(m, e1) && !touches_square(m, h1);
        wq = wq && !touches_square(m, e1) && !touches_square(m, a1);
        bk = bk && !touches_square(m, e8) && !touches_square(m, h8);
        bq = bq && !touches_square(m, e8) && !touches_square(m, a8);
        p.apply_move_to_board(&m);
        i = i + 1;
    }
    let side = if ply % 2 == 0 {
        "w"
    } else {
        "b"
    };
    let ep_field = match ep {
        Some(s) => square_name(s),
        None => String::from_str("-"),
    };
    let r = placement(&p.board).concat(" ").concat(side).concat(" ").concat(
        rights_field(wk, wq, bk, bq).as_str(),
    ).concat(" ").concat(ep_field.as_str()).concat(" ").concat(decimal(clock as u64).as_str()).concat(
        " ",
    ).concat(decimal((ply / 2 + 1) as u64).as_str());
    r
}

impl ChessGamePlayer {
    /// The shown position as a FEN string.
    pub fn position_string(&self) -> (r: String)
        requires
            self.wf(),
        ensures
            r@ == fen_text(self.game_moves(), self.ply()),
    {
        position_at(&self.moves, self.current_move)
    }
}

/// The starting position's piece placement field.
pub proof fn initial_placement()
    ensures
        placement_text(initial_cells()) == "rnbqkbnr/pppppppp/8/8/8/8/PPPPPPPP/RNBQKBNR"@,
{
    reveal_with_fuel(row_text_from, 9);
    reveal_with_fuel(rows_text_from, 9);
    reveal_strlit("rnbqkbnr/pppppppp/8/8/8/8/PPPPPPPP/RNBQKBNR");
    reveal_strlit("r");
    reveal_strlit("n");
    reveal_strlit("b");
    reveal_strlit("q");
    reveal_strlit("k");
    reveal_strlit("p");
    reveal_strlit("R");
    reveal_strlit("N");
    reveal_strlit("B");
    reveal_strlit("Q");
    reveal_strlit("K");
    reveal_strlit("P");
    reveal_strlit("/");
    reveal_strlit("0123456789");
    let b = initial_cells();
    assert(decimal_text(8) =~= seq!['8']);
    assert(row_text_from(b[0], 0, 0) =~= seq!['r', 'n', 'b', 'q', 'k', 'b', 'n', 'r']);
    assert(row_text_from(b[1], 0, 0) =~= seq!['p', 'p', 'p', 'p', 'p', 'p', 'p', 'p']);
    assert(row_text_from(b[2], 0, 0) =~= seq!['8']);
    assert(row_text_from(b[3], 0, 0) =~= seq!['8']);
    assert(row_text_from(b[4], 0, 0) =~= seq!['8']);
    assert(row_text_from(b[5], 0, 0) =~= seq!['8']);
    assert(row_text_from(b[6], 0, 0) =~= seq!['P', 'P', 'P', 'P', 'P', 'P', 'P', 'P']);
    assert(row_text_from(b[7], 0, 0) =~= seq!['R', 'N', 'B', 'Q', 'K', 'B', 'N', 'R']);
    assert(placement_text(b) =~= "rnbqkbnr/pppppppp/8/8/8/8/PPPPPPPP/RNBQKBNR"@);
}

/// The FEN string of the starting position, for any game.
pub proof fn initial_position_text(moves: Seq<Move>)
    ensures
        fen_text(moves, 0) == "rnbqkbnr/pppppppp/8/8/8/8/PPPPPPPP/RNBQKBNR w KQkq - 0 1"@,
{
    initial_placement();
    reveal_strlit("rnbqkbnr/pppppppp/8/8/8/8/PPPPPPPP/RNBQKBNR w KQkq - 0 1");
    reveal_strlit("rnbqkbnr/pppppppp/8/8/8/8/PPPPPPPP/RNBQKBNR");
    reveal_strlit(" ");
    reveal_strlit("w");
    reveal_strlit("K");
    reveal_strlit("Q");
    reveal_strlit("k");
    reveal_strlit("q");
    reveal_strlit("-");
    reveal_strlit("0123456789");
    assert(decimal_text(0) =~= seq!['0']);
    assert(decimal_text(1) =~= seq!['1']);
    assert(castling_text(moves, 0) =~= seq!['K', 'Q', 'k', 'q']);
    assert(fen_text(moves, 0) =~= "rnbqkbnr/pppppppp/8/8/8/8/PPPPPPPP/RNBQKBNR w KQkq - 0 1"@);
}

/// After a game opens with the pawn's double step e2-e4, black is to move
/// and the en-passant square is e3.
pub proof fn after_king_pawn_opening(moves: Seq<Move>)
    requires
        moves.len() >= 1,
        moves[0] == (Move::Normal { from: sq(4, 1), to: sq(4, 3), promotion: None }),
    ensures
        side_text(1) == "b"@,
        en_passant_text(moves, 1) == "e3"@,
{
    reveal_strlit("abcdefgh");
    reveal_strlit("12345678");
    reveal_strlit("e3");
    assert(replay(moves, 0)[6][4] == (PieceType::Pawn, Colour::White));
    assert(en_passant_square(moves, 1) == Some(sq(4, 2)));
    assert(square_text(sq(4, 2)) =~= "e3"@);
}

} // verus!
