use vstd::prelude::*;

use crate::piece::{Color, Piece};
use crate::square::Square;

verus! {

/// True when `(row, file)` names one of the 64 squares.
pub open spec fn in_range(row: int, file: int) -> bool {
    0 <= row < 8 && 0 <= file < 8
}

/// True when the coordinate pair names one of the 64 squares.
pub open spec fn on_board(p: (isize, isize)) -> bool {
    in_range(p.0 as int, p.1 as int)
}

/// The piece that the standard opening layout puts on `(row, file)`.
/// Row 0 is Black's back rank, row 7 White's.
pub open spec fn opening_piece(row: int, file: int) -> Option<Piece> {
    let c = if row < 4 { Color::Black } else { Color::White };
    if !in_range(row, file) {
        None
    } else if row == 1 || row == 6 {
        Some(Piece::Pawn(c))
    } else if row == 0 || row == 7 {
        if file == 0 || file == 7 {
            Some(Piece::Rook(c))
        } else if file == 1 || file == 6 {
            Some(Piece::Knight(c))
        } else if file == 2 || file == 5 {
            Some(Piece::Bishop(c))
        } else if file == 3 {
            Some(Piece::Queen(c))
        } else {
            Some(Piece::King(c))
        }
    } else {
        None
    }
}

/// The abstract content of a board: 64 cells in row-major order and the
/// recorded position of each king.
pub struct BoardView {
    pub cells: Seq<Option<Piece>>,
    pub white_king: (isize, isize),
    pub black_king: (isize, isize),
}

impl BoardView {
    /// Every cell exists and both recorded king positions lie on the board.
    pub open spec fn wf(self) -> bool {
        self.cells.len() == 64 && on_board(self.white_king) && on_board(self.black_king)
    }

    /// The occupant of `(row, file)`; nothing off the board.
    pub open spec fn at(self, row: int, file: int) -> Option<Piece> {
        if in_range(row, file) {
            self.cells[row * 8 + file]
        } else {
            None
        }
    }

    /// The occupant of square `p`; nothing off the board.
    pub open spec fn at_pos(self, p: (isize, isize)) -> Option<Piece> {
        self.at(p.0 as int, p.1 as int)
    }

    /// The recorded position of the king of side `c`.
    pub open spec fn king(self, c: Color) -> (isize, isize) {
        match c {
            Color::White => self.white_king,
            Color::Black => self.black_king,
        }
    }

    /// This board with square `p` holding `occupant`.
    pub open spec fn with(self, p: (isize, isize), occupant: Option<Piece>) -> BoardView {
        BoardView { cells: self.cells.update(p.0 * 8 + p.1, occupant), ..self }
    }

    /// This board with the king of side `c` recorded at `p`.
    pub open spec fn with_king(self, c: Color, p: (isize, isize)) -> BoardView {
        match c {
            Color::White => BoardView { white_king: p, ..self },
            Color::Black => BoardView { black_king: p, ..self },
        }
    }

    /// This board with the occupant of `s` carried to `d`, leaving `s` empty.
    pub open spec fn moved(self, s: (isize, isize), d: (isize, isize)) -> BoardView {
        self.with(d, self.at_pos(s)).with(s, None)
    }
}

/// An 8x8 board of squares, with the position of each king kept alongside.
pub struct Board {
    squares: Vec<Square>,
    white_king_position: (isize, isize),
    black_king_position: (isize, isize),
}

impl View for Board {
    type V = BoardView;

    closed spec fn view(&self) -> BoardView {
        BoardView {
            cells: self.squares@.map_values(|s: Square| s.piece),
            white_king: self.white_king_position,
            black_king: self.black_king_position,
        }
    }
}

/// Reading a square after `with`: the new occupant on `p`, the old one elsewhere.
pub proof fn lemma_with_at(b: BoardView, p: (isize, isize), occupant: Option<Piece>, row: int, file: int)
    requires
        b.wf(),
        on_board(p),
    ensures
        b.with(p, occupant).wf(),
        b.with(p, occupant).at(row, file) == if row == p.0 && file == p.1 {
            occupant
        } else {
            b.at(row, file)
        },
{
}

/// Putting `p` on `s` and then carrying it to `d` is the same as putting it on `d`
/// and emptying `s`.
pub proof fn lemma_set_then_move(b: BoardView, s: (isize, isize), d: (isize, isize), p: Option<Piece>)
    requires
        b.wf(),
        on_board(s),
        on_board(d),
        s != d,
    ensures
        b.with(s, p).moved(s, d) == b.with(d, p).with(s, None),
{
    assert(b.with(s, p).moved(s, d).cells =~= b.with(d, p).with(s, None).cells);
}

impl Board {
    /// Creates a board with the standard opening layout.
    pub fn new() -> (r: Self)
        ensures
            r@.wf(),
            forall|row: int, file: int| #[trigger] r@.at(row, file) == opening_piece(row, file),
            r@.white_king == (7isize, 4isize),
            r@.black_king == (0isize, 4isize),
    {
        let mut squares = Self::init_empty_board();
        let mut file: usize = 0;
        while file < 8
            invariant
                file <= 8,
                squares@.len() == 64,
                forall|i: int|
                    0 <= i < 64 ==> #[trigger] squares@[i].piece == if (i < 8 || i >= 56) && i % 8 < file {
                        opening_piece(i / 8, i % 8)
                    } else if (8 <= i < 16 || 48 <= i < 56) && i % 8 < file {
                        opening_piece(i / 8, i % 8)
                    } else {
                        None
                    },
            decreases 8 - file,
        {
            squares.set(8 + file, Square::new(Some(Piece::Pawn(Color::Black))));
            squares.set(48 + file, Square::new(Some(Piece::Pawn(Color::White))));
            if file == 4 {
                Self::place_piece(&mut squares, Piece::King(Color::Black), Piece::King(Color::White), file);
            } else if file == 3 {
                Self::place_piece(&mut squares, Piece::Queen(Color::Black), Piece::Queen(Color::White), file);
            } else if file == 0 || file == 7 {
                Self::place_piece(&mut squares, Piece::Rook(Color::Black), Piece::Rook(Color::White), file);
            } else if file == 2 || file == 5 {
                Self::place_piece(&mut squares, Piece::Bishop(Color::Black), Piece::Bishop(Color::White), file);
            } else {
                Self::place_piece(&mut squares, Piece::Knight(Color::Black), Piece::Knight(Color::White), file);
            }
            file = file + 1;
        }
        let r = Board {
            squares,
            white_king_position: (7, 4),
            black_king_position: (0, 4),
        };
        assert forall|row: int, file: int| #[trigger] r@.at(row, file) == opening_piece(row, file) by {
            if in_range(row, file) {
                let i = row * 8 + file;
                assert(i / 8 == row && i % 8 == file) by (nonlinear_arith)
                    requires
                        i == row * 8 + file,
                        0 <= file < 8,
                        0 <= row < 8,
                ;
                assert(0 <= i < 64);
                assert(squares@[i].piece == r@.cells[i]);
                assert(i < 8 <==> row == 0);
                assert(i >= 56 <==> row == 7);
                assert(8 <= i < 16 <==> row == 1);
                assert(48 <= i < 56 <==> row == 6);
            }
        }
        r
    }

    /// Puts `piece1` on Black's back rank and `piece2` on White's, both in column `file`.
    fn place_piece(squares: &mut Vec<Square>, piece1: Piece, piece2: Piece, file: usize)
        requires
            old(squares)@.len() == 64,
            file < 8,
        ensures
            final(squares)@ == old(squares)@.update(file as int, Square { piece: Some(piece1) }).update(
                56 + file as int,
                Square { piece: Some(piece2) },
            ),
    {
        squares.set(file, Square::new(Some(piece1)));
        squares.set(56 + file, Square::new(Some(piece2)));
    }

    /// Returns 64 empty squares.
    fn init_empty_board() -> (r: Vec<Square>)
        ensures
            r@.len() == 64,
            forall|i: int| 0 <= i < 64 ==> (#[trigger] r@[i]).piece.is_none(),
    {
        let mut squares: Vec<Square> = Vec::new();
        let mut i: usize = 0;
        while i < 64
            invariant
                i <= 64,
                squares@.len() == i,
                forall|j: int| 0 <= j < i ==> (#[trigger] squares@[j]).piece.is_none(),
            decreases 64 - i,
        {
            squares.push(Square::new(None));
            i = i + 1;
        }
        squares
    }

    /// Returns the occupant of `(row, file)`.
    pub fn get_piece(&self, row: isize, file: isize) -> (r: &Option<Piece>)
        requires
            self@.wf(),
            in_range(row as int, file as int),
        ensures
            *r == self@.at(row as int, file as int),
    {
        &self.squares[(row * 8 + file) as usize].piece
    }

    /// Puts `piece` on `(row, file)`, replacing any occupant.
    pub fn set_piece(&mut self, row: isize, file: isize, piece: Piece)
        requires
            old(self)@.wf(),
            in_range(row as int, file as int),
        ensures
            final(self)@ == old(self)@.with((row, file), Some(piece)),
    {
        let i = (row * 8 + file) as usize;
        self.squares.set(i, Square::new(Some(piece)));
        assert(self@.cells =~= old(self)@.cells.update(row * 8 + file, Some(piece)));
    }

    /// Empties `(row, file)`.
    pub fn remove_piece(&mut self, row: isize, file: isize)
        requires
            old(self)@.wf(),
            in_range(row as int, file as int),
        ensures
            final(self)@ == old(self)@.with((row, file), None),
    {
        let i = (row * 8 + file) as usize;
        self.squares.set(i, Square::new(None));
        assert(self@.cells =~= old(self)@.cells.update(row * 8 + file, None));
    }

    /// Returns the recorded position of the king of side `color`.
    pub fn get_king_position(&self, color: Color) -> (r: (isize, isize))
        ensures
            r == self@.king(color),
    {
        match color {
            Color::White => self.white_king_position,
            Color::Black => self.black_king_position,
        }
    }

    /// Records `position` as the square of the king of side `color`.
    pub fn set_king_position(&mut self, color: Color, position: (isize, isize))
        requires
            old(self)@.wf(),
            on_board(position),
        ensures
            final(self)@ == old(self)@.with_king(color, position),
    {
        match color {
            Color::White => self.white_king_position = position,
            Color::Black => self.black_king_position = position,
        }
    }

    /// Returns an identical, independent copy of this board.
    pub fn snapshot(&self) -> (r: Board)
        ensures
            r@ == self@,
    {
        let mut squares: Vec<Square> = Vec::new();
        let mut i: usize = 0;
        while i < self.squares.len()
            invariant
                i <= self.squares@.len(),
                squares@ == self.squares@.subrange(0, i as int),
            decreases self.squares@.len() - i,
        {
            squares.push(self.squares[i]);
            i = i + 1;
        }
        let r = Board {
            squares,
            white_king_position: self.white_king_position,
            black_king_position: self.black_king_position,
        };
        assert(squares@ =~= self.squares@);
        r
    }
}

} // verus!
