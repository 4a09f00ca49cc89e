//! The board model: pieces and the fixed 8x8 grid of squares.

use vstd::prelude::*;

verus! {

/// The kind of a piece; `Empty` marks an empty square.
#[derive(PartialEq, Eq, Structural, Clone, Copy, Debug)]
pub enum PieceType {
    Empty,
    King,
    Queen,
    Rook,
    Bishop,
    Knight,
    Pawn,
}

/// The colour of a piece; `Neither` marks an empty square.
#[derive(PartialEq, Eq, Structural, Clone, Copy, Debug)]
pub enum Colour {
    Neither,
    White,
    Black,
}

/// What a square holds: a kind and a colour.
pub type Cell = (PieceType, Colour);

/// The contents of an empty square.
pub open spec fn empty_cell() -> Cell {
    (PieceType::Empty, Colour::Neither)
}

/// A kind and a colour that agree: a piece has both, an empty square neither.
pub open spec fn kind_matches_colour(piece_type: PieceType, colour: Colour) -> bool {
    (piece_type is Empty) <==> (colour is Neither)
}

pub open spec fn colour_word(colour: Colour) -> Seq<char> {
    match colour {
        Colour::White => "white"@,
        Colour::Black => "black"@,
        Colour::Neither => Seq::empty(),
    }
}

pub open spec fn kind_word(piece_type: PieceType) -> Seq<char> {
    match piece_type {
        PieceType::King => "king"@,
        PieceType::Queen => "queen"@,
        PieceType::Rook => "rook"@,
        PieceType::Bishop => "bishop"@,
        PieceType::Knight => "knight"@,
        PieceType::Pawn => "pawn"@,
        PieceType::Empty => Seq::empty(),
    }
}

/// The image name of a piece, such as `white-king`; empty for an empty square.
pub open spec fn piece_file_name(piece_type: PieceType, colour: Colour) -> Seq<char> {
    if piece_type is Empty {
        Seq::empty()
    } else {
        colour_word(colour) + "-"@ + kind_word(piece_type)
    }
}

/// A piece, or the absence of one, with the name of the image that shows it.
#[derive(Clone, Debug)]
pub struct Piece {
    pub piece_type: PieceType,
    pub colour: Colour,
    pub filename: String,
}

impl Piece {
    pub open spec fn cell(&self) -> Cell {
        (self.piece_type, self.colour)
    }

    pub open spec fn wf(&self) -> bool {
        &&& kind_matches_colour(self.piece_type, self.colour)
        &&& self.filename@ == piece_file_name(self.piece_type, self.colour)
    }

    pub fn new(piece_type: PieceType, colour: Colour) -> (r: Piece)
        requires
            kind_matches_colour(piece_type, colour),
        ensures
            r.wf(),
            r.cell() == (piece_type, colour),
    {
        let mut filename = String::new();
        if piece_type != PieceType::Empty {
            filename = Self::get_filename(piece_type, colour);
        }
        Piece { piece_type, colour, filename }
    }

    pub fn get_filename(piece_type: PieceType, colour: Colour) -> (r: String)
        requires
            !(piece_type is Empty),
            !(colour is Neither),
        ensures
            r@ == colour_word(colour) + "-"@ + kind_word(piece_type),
    {
        let colour_str = match colour {
            Colour::White => "white",
            Colour::Black => "black",
            Colour::Neither => "",
        };
        let type_str = match piece_type {
            PieceType::King => "king",
            PieceType::Queen => "queen",
            PieceType::Rook => "rook",
            PieceType::Bishop => "bishop",
            PieceType::Knight => "knight",
            PieceType::Pawn => "pawn",
            PieceType::Empty => "",
        };
        let name = String::from_str(colour_str);
        let name = name.concat("-");
        name.concat(type_str)
    }

    /// An empty square's contents.
    pub fn empty() -> (r: Piece)
        ensures
            r.wf(),
            r.cell() == empty_cell(),
    {
        Piece::new(PieceType::Empty, Colour::Neither)
    }
}

/// One square of the grid.
#[derive(Clone, Debug)]
pub struct BoardSquare {
    pub piece: Piece,
}

impl BoardSquare {
    pub fn new(piece: Piece) -> (r: BoardSquare)
        ensures
            r.piece == piece,
    {
        BoardSquare { piece }
    }
}

/// The contents of a row of squares.
pub open spec fn row_cells(row: Seq<BoardSquare>) -> Seq<Cell> {
    row.map_values(|s: BoardSquare| s.piece.cell())
}

/// The pieces of a back rank, from file a to file h.
pub open spec fn back_rank_kind(file: int) -> PieceType {
    if file == 0 || file == 7 {
        PieceType::Rook
    } else if file == 1 || file == 6 {
        PieceType::Knight
    } else if file == 2 || file == 5 {
        PieceType::Bishop
    } else if file == 3 {
        PieceType::Queen
    } else {
        PieceType::King
    }
}

pub open spec fn back_rank_cells(colour: Colour) -> Seq<Cell> {
    Seq::new(8, |i: int| (back_rank_kind(i), colour))
}

pub open spec fn pawn_rank_cells(colour: Colour) -> Seq<Cell> {
    Seq::new(8, |i: int| (PieceType::Pawn, colour))
}

pub open spec fn empty_rank_cells() -> Seq<Cell> {
    Seq::new(8, |i: int| empty_cell())
}

/// The starting position, row 0 holding rank 8 and row 7 rank 1.
pub open spec fn initial_cells() -> Seq<Seq<Cell>> {
    seq![
        back_rank_cells(Colour::Black),
        pawn_rank_cells(Colour::Black),
        empty_rank_cells(),
        empty_rank_cells(),
        empty_rank_cells(),
        empty_rank_cells(),
        pawn_rank_cells(Colour::White),
        back_rank_cells(Colour::White),
    ]
}

/// A grid of the fixed 8x8 shape.
pub open spec fn is_grid(cells: Seq<Seq<Cell>>) -> bool {
    cells.len() == 8 && forall|r: int| 0 <= r < 8 ==> #[trigger] cells[r].len() == 8
}

/// The square at a row and column, replaced by a given content.
pub open spec fn set_cell(cells: Seq<Seq<Cell>>, row: int, col: int, c: Cell) -> Seq<Seq<Cell>> {
    cells.update(row, cells[row].update(col, c))
}

/// The chess board: eight rows of eight squares, row 0 being rank 8.
#[derive(Clone, Debug)]
pub struct ChessBoard {
    pub grid: Vec<Vec<BoardSquare>>,
}

impl View for ChessBoard {
    type V = Seq<Seq<Cell>>;

    open spec fn view(&self) -> Seq<Seq<Cell>> {
        self.grid@.map_values(|row: Vec<BoardSquare>| row_cells(row@))
    }
}

impl ChessBoard {
    pub open spec fn wf(&self) -> bool {
        &&& self.grid@.len() == 8
        &&& forall|r: int| 0 <= r < 8 ==> #[trigger] self.grid@[r]@.len() == 8
        &&& forall|r: int, c: int|
            0 <= r < 8 && 0 <= c < 8 ==> (#[trigger] self.grid@[r]@[c]).piece.wf()
    }

    /// A board in the starting position.
    pub fn new() -> (r: ChessBoard)
        ensures
            r.wf(),
            r@ == initial_cells(),
    {
        let mut grid: Vec<Vec<BoardSquare>> = Vec::new();
        grid.push(Self::get_back_rank(Colour::Black));
        grid.push(Self::get_pawn_rank(Colour::Black));
        let mut i: usize = 0;
        while i < 4
            invariant
                0 <= i <= 4,
                grid@.len() == 2 + i,
                forall|r: int| 0 <= r < grid@.len() ==> #[trigger] grid@[r]@.len() == 8,
                forall|r: int, c: int|
                    0 <= r < grid@.len() && 0 <= c < 8 ==> (#[trigger] grid@[r]@[c]).piece.wf(),
                row_cells(grid@[0]@) == back_rank_cells(Colour::Black),
                row_cells(grid@[1]@) == pawn_rank_cells(Colour::Black),
                forall|r: int| 2 <= r < grid@.len() ==> row_cells(#[trigger] grid@[r]@) == empty_rank_cells(),
            decreases 4 - i,
        {
            grid.push(Self::get_empty_rank());
            i = i + 1;
        }
        grid.push(Self::get_pawn_rank(Colour::White));
        grid.push(Self::get_back_rank(Colour::White));
        let board = ChessBoard { grid };
        assert(board@ =~= initial_cells());
        board
    }

    pub fn get_back_rank(colour: Colour) -> (r: Vec<BoardSquare>)
        requires
            !(colour is Neither),
        ensures
            r@.len() == 8,
            forall|c: int| 0 <= c < 8 ==> (#[trigger] r@[c]).piece.wf(),
            row_cells(r@) == back_rank_cells(colour),
    {
        let r = vec![
            BoardSquare::new(Piece::new(PieceType::Rook, colour)),
            BoardSquare::new(Piece::new(PieceType::Knight, colour)),
            BoardSquare::new(Piece::new(PieceType::Bishop, colour)),
            BoardSquare::new(Piece::new(PieceType::Queen, colour)),
            BoardSquare::new(Piece::new(PieceType::King, colour)),
            BoardSquare::new(Piece::new(PieceType::Bishop, colour)),
            BoardSquare::new(Piece::new(PieceType::Knight, colour)),
            BoardSquare::new(Piece::new(PieceType::Rook, colour)),
        ];
        assert(row_cells(r@) =~= back_rank_cells(colour));
        r
    }

    pub fn get_pawn_rank(colour: Colour) -> (r: Vec<BoardSquare>)
        requires
            !(colour is Neither),
        ensures
            r@.len() == 8,
            forall|c: int| 0 <= c < 8 ==> (#[trigger] r@[c]).piece.wf(),
            row_cells(r@) == pawn_rank_cells(colour),
    {
        Self::rank_of(PieceType::Pawn, colour)
    }

    pub fn get_empty_rank() -> (r: Vec<BoardSquare>)
        ensures
            r@.len() == 8,
            forall|c: int| 0 <= c < 8 ==> (#[trigger] r@[c]).piece.wf(),
            row_cells(r@) == empty_rank_cells(),
    {
        Self::rank_of(PieceType::Empty, Colour::Neither)
    }

    /// Eight squares that all hold the same content.
    fn rank_of(piece_type: PieceType, colour: Colour) -> (r: Vec<BoardSquare>)
        requires
            kind_matches_colour(piece_type, colour),
        ensures
            r@.len() == 8,
            forall|c: int| 0 <= c < 8 ==> (#[trigger] r@[c]).piece.wf(),
            row_cells(r@) == Seq::new(8, |i: int| (piece_type, colour)),
    {
        let mut r: Vec<BoardSquare> = Vec::new();
        let mut i: usize = 0;
        while i < 8
            invariant
                0 <= i <= 8,
                kind_matches_colour(piece_type, colour),
                r@.len() == i,
                forall|c: int| 0 <= c < i ==> (#[trigger] r@[c]).piece.wf(),
                forall|c: int| 0 <= c < i ==> (#[trigger] r@[c]).piece.cell() == (piece_type, colour),
            decreases 8 - i,
        {
            r.push(BoardSquare::new(Piece::new(piece_type, colour)));
            i = i + 1;
        }
        assert(row_cells(r@) =~= Seq::new(8, |i: int| (piece_type, colour)));
        r
    }

    /// What the square at `row`, `col` holds.
    pub fn get_cell(&self, row: usize, col: usize) -> (r: Cell)
        requires
            self.wf(),
            row < 8,
            col < 8,
        ensures
            r == self@[row as int][col as int],
            kind_matches_colour(r.0, r.1),
    {
        let p = &self.grid[row][col].piece;
        (p.piece_type, p.colour)
    }

    /// Puts `piece` on the square at `row`, `col`.
    pub fn set_piece(&mut self, row: usize, col: usize, piece: Piece)
        requires
            old(self).wf(),
            piece.wf(),
            row < 8,
            col < 8,
        ensures
            final(self).wf(),
            final(self)@ == set_cell(old(self)@, row as int, col as int, piece.cell()),
    {
        self.grid[row][col].piece = piece;
        assert(row_cells(self.grid@[row as int]@) =~= old(self)@[row as int].update(
            col as int,
            piece.cell(),
        ));
        assert(self@ =~= set_cell(old(self)@, row as int, col as int, piece.cell()));
    }
}

} // verus!
