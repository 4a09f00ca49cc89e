//! Moves, how each one changes the board, and the replay of a game ply by ply.

use vstd::prelude::*;
use crate::board::{
    Cell, ChessBoard, Colour, PieceType, Piece, empty_cell, initial_cells, is_grid,
    kind_matches_colour, set_cell,
};

verus! {

/// A square of the board: file 0 is file a, rank 0 is rank 1.
#[derive(PartialEq, Eq, Structural, Clone, Copy, Debug)]
pub struct Square {
    pub file: u8,
    pub rank: u8,
}

impl Square {
    pub open spec fn wf(&self) -> bool {
        self.file < 8 && self.rank < 8
    }

    /// The grid row that holds this square's rank.
    pub open spec fn row(&self) -> int {
        7 - self.rank
    }
}

/// A move as the game record gives it, already resolved to squares.
#[derive(PartialEq, Eq, Structural, Clone, Copy, Debug)]
pub enum Move {
    Normal { from: Square, to: Square, promotion: Option<PieceType> },
    Castle { king: Square, rook: Square },
    EnPassant { from: Square, to: Square },
}

/// A kind a pawn may be promoted to.
pub open spec fn is_promotion_kind(k: PieceType) -> bool {
    k is Queen || k is Rook || k is Bishop || k is Knight
}

/// The rank of the pawn that an en-passant capture removes: next to the
/// destination rank, on the side that the capturing pawn's source rank lies on.
pub open spec fn captured_rank(from: Square, to: Square) -> int {
    if from.rank > 3 {
        to.rank + 1
    } else {
        to.rank - 1
    }
}

impl Move {
    pub open spec fn wf(&self) -> bool {
        match *self {
            Move::Normal { from, to, promotion } => {
                &&& from.wf()
                &&& to.wf()
                &&& (promotion matches Some(k) ==> is_promotion_kind(k))
            },
            Move::Castle { king, rook } => king.wf() && rook.wf(),
            Move::EnPassant { from, to } => {
                &&& from.wf()
                &&& to.wf()
                &&& 0 <= captured_rank(from, to) < 8
            },
        }
    }

    /// Whether the move can be applied: its squares lie on the board and any
    /// promotion is to a queen, rook, bishop or knight.
    pub fn is_well_formed(&self) -> (r: bool)
        ensures
            r == self.wf(),
    {
        match *self {
            Move::Normal { from, to, promotion } => {
                let kind_ok = match promotion {
                    Some(k) => match k {
                        PieceType::Queen | PieceType::Rook | PieceType::Bishop
                        | PieceType::Knight => true,
                        _ => false,
                    },
                    None => true,
                };
                from.file < 8 && from.rank < 8 && to.file < 8 && to.rank < 8 && kind_ok
            },
            Move::Castle { king, rook } => king.file < 8 && king.rank < 8 && rook.file < 8
                && rook.rank < 8,
            Move::EnPassant { from, to } => {
                if from.file < 8 && from.rank < 8 && to.file < 8 && to.rank < 8 {
                    if from.rank > 3 {
                        to.rank < 7
                    } else {
                        to.rank > 0
                    }
                } else {
                    false
                }
            },
        }
    }
}

/// The board after the piece at one square moves to another, leaving the
/// first square empty.
pub open spec fn relocate(b: Seq<Seq<Cell>>, fr: int, fc: int, tr: int, tc: int) -> Seq<Seq<Cell>> {
    set_cell(set_cell(b, tr, tc, b[fr][fc]), fr, fc, empty_cell())
}

/// The board after a move. Legality is not checked. A promotion keeps the
/// moving piece's colour; from an empty square there is nothing to promote.
pub open spec fn apply_move(b: Seq<Seq<Cell>>, m: Move) -> Seq<Seq<Cell>> {
    match m {
        Move::Normal { from, to, promotion } => {
            let moved = relocate(b, from.row(), from.file as int, to.row(), to.file as int);
            let colour = b[from.row()][from.file as int].1;
            match promotion {
                Some(k) => if colour is Neither {
                    moved
                } else {
                    set_cell(moved, to.row(), to.file as int, (k, colour))
                },
                None => moved,
            }
        },
        Move::Castle { king, rook } => {
            let row = king.row();
            if rook.file > king.file {
                relocate(relocate(b, row, 4, row, 6), row, 7, row, 5)
            } else {
                relocate(relocate(b, row, 4, row, 2), row, 0, row, 3)
            }
        },
        Move::EnPassant { from, to } => {
            let moved = relocate(b, from.row(), from.file as int, to.row(), to.file as int);
            set_cell(moved, 7 - captured_rank(from, to), to.file as int, empty_cell())
        },
    }
}

/// The board after the first `n` moves, played from the starting position.
pub open spec fn replay(moves: Seq<Move>, n: nat) -> Seq<Seq<Cell>>
    decreases n,
{
    if n == 0 {
        initial_cells()
    } else {
        apply_move(replay(moves, (n - 1) as nat), moves[n - 1])
    }
}

pub open spec fn all_wf(moves: Seq<Move>) -> bool {
    forall|i: int| 0 <= i < moves.len() ==> (#[trigger] moves[i]).wf()
}

/// Where a square stands as (rank, file), both counted from 0.
pub fn square_to_board_coord(square: Square) -> (r: (usize, usize))
    ensures
        r == (square.rank as usize, square.file as usize),
{
    (square.rank as usize, square.file as usize)
}

/// A recorded game being replayed: its moves, its headers, the number of
/// plies played so far and the board they produce.
pub struct ChessGamePlayer {
    pub board: ChessBoard,
    pub moves: Vec<Move>,
    pub current_move: usize,
    pub headers: Vec<(String, String)>,
}

impl ChessGamePlayer {
    /// The moves of the loaded game, ply 1 first.
    pub open spec fn game_moves(&self) -> Seq<Move> {
        self.moves@
    }

    /// The header pairs of the loaded game, in the order the record gives them.
    pub open spec fn game_headers(&self) -> Seq<(String, String)> {
        self.headers@
    }

    /// What the shown board holds.
    pub open spec fn cells(&self) -> Seq<Seq<Cell>> {
        self.board@
    }

    /// The number of plies played.
    pub open spec fn ply(&self) -> nat {
        self.current_move as nat
    }

    /// The board always shows the moves before the current ply applied to
    /// the starting position.
    pub open spec fn wf(&self) -> bool {
        &&& self.board.wf()
        &&& self.current_move <= self.moves@.len()
        &&& all_wf(self.moves@)
        &&& self.board@ == replay(self.moves@, self.current_move as nat)
    }

    /// A player with no game loaded, showing `board`, which must be in the
    /// starting position.
    pub fn new(board: ChessBoard) -> (r: ChessGamePlayer)
        requires
            board.wf(),
            board@ == initial_cells(),
        ensures
            r.wf(),
            r.game_moves() == Seq::<Move>::empty(),
            r.game_headers() == Seq::<(String, String)>::empty(),
            r.ply() == 0,
            r.cells() == initial_cells(),
    {
        ChessGamePlayer { board, moves: Vec::new(), current_move: 0, headers: Vec::new() }
    }

    /// Loads the moves and headers of a parsed game and goes back to the
    /// starting position. A move list holding a move that cannot be applied is
    /// refused, and the player is left as it was.
    pub fn load_game(&mut self, moves: Vec<Move>, headers: Vec<(String, String)>) -> (r: bool)
        requires
            old(self).wf(),
        ensures
            final(self).wf(),
            r == all_wf(moves@),
            r ==> final(self).game_moves() == moves@,
            r ==> final(self).game_headers() == headers@,
            r ==> final(self).ply() == 0,
            r ==> final(self).cells() == initial_cells(),
            !r ==> *final(self) == *old(self),
    {
        let mut i: usize = 0;
        while i < moves.len()
            invariant
                0 <= i <= moves@.len(),
                forall|j: int| 0 <= j < i ==> (#[trigger] moves@[j]).wf(),
                self.wf(),
                *self == *old(self),
            decreases moves@.len() - i,
        {
            if !moves[i].is_well_formed() {
                return false;
            }
            i = i + 1;
        }
        self.moves = moves;
        self.headers = headers;
        self.current_move = 0;
        self.reset_internal();
        true
    }

    /// Goes back to the starting position, keeping the loaded game.
    pub fn reset(&mut self)
        requires
            old(self).wf(),
        ensures
            final(self).wf(),
            final(self).ply() == 0,
            final(self).cells() == initial_cells(),
            final(self).game_moves() == old(self).game_moves(),
            final(self).game_headers() == old(self).game_headers(),
    {
        self.current_move = 0;
        self.board = ChessBoard::new();
    }

    /// Puts the board back in the starting position without moving the ply.
    fn reset_internal(&mut self)
        ensures
            final(self).board.wf(),
            final(self).board@ == initial_cells(),
            final(self).moves == old(self).moves,
            final(self).current_move == old(self).current_move,
            final(self).headers == old(self).headers,
    {
        self.board = ChessBoard::new();
    }

    /// Plays the next move. At the end of the game nothing changes and the
    /// result is false.
    pub fn next_move(&mut self) -> (r: bool)
        requires
            old(self).wf(),
        ensures
            final(self).wf(),
            r == (old(self).ply() < old(self).game_moves().len()),
            r ==> final(self).ply() == old(self).ply() + 1,
            r ==> final(self).game_moves() == old(self).game_moves(),
            r ==> final(self).game_headers() == old(self).game_headers(),
            final(self).cells() == replay(final(self).game_moves(), final(self).ply()),
            !r ==> *final(self) == *old(self),
    {
        if self.current_move >= self.moves.len() {
            return false;
        }
        let mv = self.moves[self.current_move];
        self.apply_move_to_board(&mv);
        self.current_move = self.current_move + 1;
        true
    }

    /// Takes back the last move played, rebuilding the board from the
    /// starting position. At the start of the game nothing changes and the
    /// result is false.
    pub fn previous_move(&mut self) -> (r: bool)
        requires
            old(self).wf(),
        ensures
            final(self).wf(),
            r == (old(self).ply() > 0),
            r ==> final(self).ply() == old(self).ply() - 1,
            r ==> final(self).game_moves() == old(self).game_moves(),
            r ==> final(self).game_headers() == old(self).game_headers(),
            final(self).cells() == replay(final(self).game_moves(), final(self).ply()),
            !r ==> *final(self) == *old(self),
    {
        if self.current_move == 0 {
            return false;
        }
        self.current_move = self.current_move - 1;
        self.reset_internal();
        let mut i: usize = 0;
        while i < self.current_move
            invariant
                0 <= i <= self.current_move,
                self.current_move < self.moves@.len(),
                self.current_move == old(self).current_move - 1,
                self.moves == old(self).moves,
                self.headers == old(self).headers,
                all_wf(self.moves@),
                self.board.wf(),
                self.board@ == replay(self.moves@, i as nat),
            decreases self.current_move - i,
        {
            let mv = self.moves[i];
            self.apply_move_to_board(&mv);
            i = i + 1;
        }
        true
    }

    /// Goes to the position after the last move.
    pub fn go_to_end(&mut self)
        requires
            old(self).wf(),
        ensures
            final(self).wf(),
            final(self).ply() == final(self).game_moves().len(),
            final(self).game_moves() == old(self).game_moves(),
            final(self).game_headers() == old(self).game_headers(),
            final(self).cells() == replay(final(self).game_moves(), final(self).ply()),
    {
        self.reset();
        let total_moves = self.get_total_moves();
        let mut i: usize = 0;
        while i < total_moves
            invariant
                self.wf(),
                0 <= i <= total_moves,
                total_moves == self.moves@.len(),
                self.current_move == i,
                self.game_moves() == old(self).game_moves(),
                self.game_headers() == old(self).game_headers(),
            decreases total_moves - i,
        {
            self.next_move();
            i = i + 1;
        }
    }

    /// Applies one move to the board, as `apply_move` describes.
    pub fn apply_move_to_board(&mut self, mv: &Move)
        requires
            old(self).board.wf(),
            mv.wf(),
        ensures
            final(self).board.wf(),
            final(self).board@ == apply_move(old(self).board@, *mv),
            final(self).moves == old(self).moves,
            final(self).current_move == old(self).current_move,
            final(self).headers == old(self).headers,
    {
        match *mv {
            Move::Normal { from, to, promotion } => {
                let from_coord = square_to_board_coord(from);
                let to_coord = square_to_board_coord(to);
                let piece_colour = self.board.get_cell(7 - from_coord.0, from_coord.1).1;
                self.move_piece(from_coord, to_coord);
                if let Some(role) = promotion {
                    if piece_colour != Colour::Neither {
                        self.promote_piece(to_coord, role, piece_colour);
                    }
                }
            },
            Move::Castle { king, rook } => {
                let rank = king.rank as usize;
                if rook.file > king.file {
                    self.move_piece((rank, 4), (rank, 6));
                    self.move_piece((rank, 7), (rank, 5));
                } else {
                    self.move_piece((rank, 4), (rank, 2));
                    self.move_piece((rank, 0), (rank, 3));
                }
            },
            Move::EnPassant { from, to } => {
                let from_coord = square_to_board_coord(from);
                let to_coord = square_to_board_coord(to);
                self.move_piece(from_coord, to_coord);
                let captured = if from.rank > 3 {
                    to.rank + 1
                } else {
                    to.rank - 1
                };
                self.remove_piece((to.file as usize, captured as usize));
            },
        }
    }

    /// Moves the piece at `from` to `to`, both given as (rank, file).
    fn move_piece(&mut self, from: (usize, usize), to: (usize, usize))
        requires
            old(self).board.wf(),
            from.0 < 8,
            from.1 < 8,
            to.0 < 8,
            to.1 < 8,
        ensures
            final(self).board.wf(),
            final(self).board@ == relocate(
                old(self).board@,
                7 - from.0,
                from.1 as int,
                7 - to.0,
                to.1 as int,
            ),
            final(self).moves == old(self).moves,
            final(self).current_move == old(self).current_move,
            final(self).headers == old(self).headers,
    {
        let from_row = 7 - from.0;
        let to_row = 7 - to.0;
        let moving = self.board.get_cell(from_row, from.1);
        self.board.set_piece(to_row, to.1, Piece::new(moving.0, moving.1));
        self.board.set_piece(from_row, from.1, Piece::empty());
    }

    /// Replaces the piece at `coord`, given as (rank, file), by one of the
    /// given kind and colour.
    fn promote_piece(&mut self, coord: (usize, usize), piece_type: PieceType, colour: Colour)
        requires
            old(self).board.wf(),
            coord.0 < 8,
            coord.1 < 8,
            is_promotion_kind(piece_type),
            !(colour is Neither),
        ensures
            final(self).board.wf(),
            final(self).board@ == set_cell(
                old(self).board@,
                7 - coord.0,
                coord.1 as int,
                (piece_type, colour),
            ),
            final(self).moves == old(self).moves,
            final(self).current_move == old(self).current_move,
            final(self).headers == old(self).headers,
    {
        self.board.set_piece(7 - coord.0, coord.1, Piece::new(piece_type, colour));
    }

    /// Empties the square at `coord`, given as (file, rank).
    fn remove_piece(&mut self, coord: (usize, usize))
        requires
            old(self).board.wf(),
            coord.0 < 8,
            coord.1 < 8,
        ensures
            final(self).board.wf(),
            final(self).board@ == set_cell(
                old(self).board@,
                7 - coord.1,
                coord.0 as int,
                empty_cell(),
            ),
            final(self).moves == old(self).moves,
            final(self).current_move == old(self).current_move,
            final(self).headers == old(self).headers,
    {
        self.board.set_piece(7 - coord.1, coord.0, Piece::empty());
    }

    /// The number of plies played.
    pub fn get_current_move(&self) -> (r: usize)
        ensures
            r == self.ply(),
    {
        self.current_move
    }

    /// The number of moves in the loaded game.
    pub fn get_total_moves(&self) -> (r: usize)
        ensures
            r == self.game_moves().len(),
    {
        self.moves.len()
    }

    /// The header pairs of the loaded game.
    pub fn get_headers(&self) -> (r: &[(String, String)])
        ensures
            r@ == self.game_headers(),
    {
        self.headers.as_slice()
    }
}

/// Two players holding the same game at the same ply show the same board,
/// whatever sequence of forward and backward steps brought each there; at
/// ply 0 that board is the starting position. So playing all moves forward
/// and then taking them all back restores the starting board cell for cell.
pub proof fn forward_backward_symmetry(a: ChessGamePlayer, b: ChessGamePlayer)
    requires
        a.wf(),
        b.wf(),
        a.game_moves() == b.game_moves(),
        a.ply() == b.ply(),
    ensures
        a.cells() == b.cells(),
        a.ply() == 0 ==> a.cells() == initial_cells(),
{
}

/// Castling moves the king from file e to file g and the rook from file h to
/// file f on the king's rank, or, on the queen's side, the king to file c and
/// the rook from file a to file d. Every other square keeps its contents.
pub proof fn castling_squares(b: Seq<Seq<Cell>>, king: Square, rook: Square)
    requires
        is_grid(b),
        king.wf(),
        rook.wf(),
        king.file == 4,
        rook.file == 0 || rook.file == 7,
    ensures
        ({
            let a = apply_move(b, Move::Castle { king, rook });
            let r = king.row();
            &&& rook.file == 7 ==> {
                &&& a[r][6] == b[r][4]
                &&& a[r][5] == b[r][7]
                &&& a[r][4] == empty_cell()
                &&& a[r][7] == empty_cell()
                &&& forall|i: int, j: int|
                    0 <= i < 8 && 0 <= j < 8 && !(i == r && (j == 4 || j == 5 || j == 6 || j
                        == 7)) ==> #[trigger] a[i][j] == b[i][j]
            }
            &&& rook.file == 0 ==> {
                &&& a[r][2] == b[r][4]
                &&& a[r][3] == b[r][0]
                &&& a[r][4] == empty_cell()
                &&& a[r][0] == empty_cell()
                &&& forall|i: int, j: int|
                    0 <= i < 8 && 0 <= j < 8 && !(i == r && (j == 0 || j == 2 || j == 3 || j
                        == 4)) ==> #[trigger] a[i][j] == b[i][j]
            }
        }),
{
}

/// An en-passant capture moves the pawn to its destination and empties the
/// square on the destination's file whose rank lies next to the destination,
/// on the side of the board where the pawn's source rank lies: one rank up
/// when the source rank is above the middle, one rank down otherwise.
pub proof fn en_passant_removal(b: Seq<Seq<Cell>>, from: Square, to: Square)
    requires
        is_grid(b),
        (Move::EnPassant { from, to }).wf(),
        from != to,
    ensures
        ({
            let a = apply_move(b, Move::EnPassant { from, to });
            let cap = if from.rank > 3 {
                to.rank + 1
            } else {
                to.rank - 1
            };
            &&& a[to.row()][to.file as int] == b[from.row()][from.file as int]
            &&& a[from.row()][from.file as int] == empty_cell()
            &&& a[7 - cap][to.file as int] == empty_cell()
            &&& forall|i: int, j: int|
                0 <= i < 8 && 0 <= j < 8 && !(i == from.row() && j == from.file) && !(i
                    == to.row() && j == to.file) && !(i == 7 - cap && j == to.file) ==> #[trigger] a[i][j]
                    == b[i][j]
        }),
{
}

} // verus!
