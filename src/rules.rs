use vstd::prelude::*;

use crate::board::{in_range, on_board, BoardView};
use crate::error::Fault;
use crate::piece::{color_of, opposite, Color, Piece};

verus! {

/// Castling eligibility per side and wing; a flag once cleared stays cleared.
#[derive(PartialEq, Eq, Structural, Debug, Copy, Clone)]
pub struct CastlingRights {
    pub white_queenside: bool,
    pub white_kingside: bool,
    pub black_queenside: bool,
    pub black_kingside: bool,
}

impl CastlingRights {
    /// Whether side `c` may still castle on the king's wing (`kingside`) or the queen's.
    pub open spec fn has(self, c: Color, kingside: bool) -> bool {
        match (c, kingside) {
            (Color::White, false) => self.white_queenside,
            (Color::White, true) => self.white_kingside,
            (Color::Black, false) => self.black_queenside,
            (Color::Black, true) => self.black_kingside,
        }
    }

    /// These rights with the flag of side `c` on one wing cleared.
    pub open spec fn without(self, c: Color, kingside: bool) -> CastlingRights {
        match (c, kingside) {
            (Color::White, false) => CastlingRights { white_queenside: false, ..self },
            (Color::White, true) => CastlingRights { white_kingside: false, ..self },
            (Color::Black, false) => CastlingRights { black_queenside: false, ..self },
            (Color::Black, true) => CastlingRights { black_kingside: false, ..self },
        }
    }

    /// These rights with both flags of side `c` cleared.
    pub open spec fn without_side(self, c: Color) -> CastlingRights {
        self.without(c, false).without(c, true)
    }

    /// Whether side `c` may still castle on the given wing.
    pub fn allows(&self, c: Color, kingside: bool) -> (r: bool)
        ensures
            r == self.has(c, kingside),
    {
        match (c, kingside) {
            (Color::White, false) => self.white_queenside,
            (Color::White, true) => self.white_kingside,
            (Color::Black, false) => self.black_queenside,
            (Color::Black, true) => self.black_kingside,
        }
    }

    /// Clears the flag of side `c` on the given wing.
    pub fn revoke(&mut self, c: Color, kingside: bool)
        ensures
            *final(self) == old(self).without(c, kingside),
    {
        match (c, kingside) {
            (Color::White, false) => self.white_queenside = false,
            (Color::White, true) => self.white_kingside = false,
            (Color::Black, false) => self.black_queenside = false,
            (Color::Black, true) => self.black_kingside = false,
        }
    }
}

/// What a move attempt produces: the new board and rights, or the kind of refusal.
pub type Outcome = Result<(BoardView, CastlingRights), Fault>;

/// True when `x` lies strictly between `a` and `b`.
pub open spec fn between(x: int, a: int, b: int) -> bool {
    (a < x && x < b) || (b < x && x < a)
}

pub open spec fn abs(x: int) -> int {
    if x < 0 {
        -x
    } else {
        x
    }
}

/// The eight knight offsets, as (rows, files).
pub open spec fn knight_delta(i: int) -> (int, int) {
    if i == 0 {
        (2, 1)
    } else if i == 1 {
        (2, -1)
    } else if i == 2 {
        (1, 2)
    } else if i == 3 {
        (-1, 2)
    } else if i == 4 {
        (-2, 1)
    } else if i == 5 {
        (-2, -1)
    } else if i == 6 {
        (-1, -2)
    } else {
        (1, -2)
    }
}

/// The eight single steps of a king, as (rows, files).
pub open spec fn king_delta(i: int) -> (int, int) {
    if i == 0 {
        (1, 0)
    } else if i == 1 {
        (1, 1)
    } else if i == 2 {
        (0, 1)
    } else if i == 3 {
        (-1, 1)
    } else if i == 4 {
        (-1, 0)
    } else if i == 5 {
        (-1, -1)
    } else if i == 6 {
        (0, -1)
    } else {
        (1, -1)
    }
}

/// The offset from `s` to `d`.
pub open spec fn delta(s: (isize, isize), d: (isize, isize)) -> (int, int) {
    (d.0 - s.0, d.1 - s.1)
}

pub open spec fn is_knight_jump(s: (isize, isize), d: (isize, isize)) -> bool {
    exists|i: int| 0 <= i < 8 && #[trigger] knight_delta(i) == delta(s, d)
}

pub open spec fn is_king_step(s: (isize, isize), d: (isize, isize)) -> bool {
    exists|i: int| 0 <= i < 8 && #[trigger] king_delta(i) == delta(s, d)
}

/// The row step of a pawn of side `c` (White moves towards row 0).
pub open spec fn pawn_direction(c: Color) -> int {
    match c {
        Color::White => -1,
        Color::Black => 1,
    }
}

pub open spec fn pawn_start_row(c: Color) -> int {
    match c {
        Color::White => 6,
        Color::Black => 1,
    }
}

/// The far rank, where a pawn of side `c` is promoted.
pub open spec fn promotion_row(c: Color) -> int {
    match c {
        Color::White => 0,
        Color::Black => 7,
    }
}

/// The piece that a promotion letter (Q, R, N or B) selects for side `c`.
pub open spec fn promotion_choice(choice: Seq<char>, c: Color) -> Option<Piece> {
    if choice.len() != 1 {
        None
    } else if choice[0] == 'Q' {
        Some(Piece::Queen(c))
    } else if choice[0] == 'R' {
        Some(Piece::Rook(c))
    } else if choice[0] == 'N' {
        Some(Piece::Knight(c))
    } else if choice[0] == 'B' {
        Some(Piece::Bishop(c))
    } else {
        None
    }
}

/// Pawn geometry: one step ahead onto an empty square, two from the start row
/// through an empty square onto an empty one, or one diagonal step ahead onto an
/// occupied square.
pub open spec fn pawn_move_ok(b: BoardView, c: Color, s: (isize, isize), d: (isize, isize)) -> bool {
    let dir = pawn_direction(c);
    if s.1 == d.1 {
        if s.0 == pawn_start_row(c) && d.0 == s.0 + 2 * dir {
            b.at(s.0 + dir, s.1 as int) is None && b.at_pos(d) is None
        } else {
            d.0 == s.0 + dir && b.at_pos(d) is None
        }
    } else {
        (d.1 == s.1 + 1 || d.1 == s.1 - 1) && d.0 == s.0 + dir && b.at_pos(d) is Some
    }
}

pub open spec fn pawn_outcome(
    b: BoardView,
    r: CastlingRights,
    c: Color,
    s: (isize, isize),
    d: (isize, isize),
    choice: Seq<char>,
) -> Outcome {
    if !pawn_move_ok(b, c, s, d) {
        Err(Fault::InvalidMove)
    } else if d.0 == promotion_row(c) {
        match promotion_choice(choice, c) {
            None => Err(Fault::InvalidPromotion),
            Some(p) => Ok((b.with(d, Some(p)).with(s, None), r)),
        }
    } else {
        Ok((b.moved(s, d), r))
    }
}

/// Every square strictly between `s` and `d` on their shared row or column is empty.
pub open spec fn straight_path_clear(b: BoardView, s: (isize, isize), d: (isize, isize)) -> bool {
    if s.0 == d.0 {
        forall|f: int| between(f, s.1 as int, d.1 as int) ==> #[trigger] b.at(s.0 as int, f) is None
    } else {
        forall|row: int| between(row, s.0 as int, d.0 as int) ==> #[trigger] b.at(row, s.1 as int) is None
    }
}

/// A rook leaving column 0 or 7 gives up castling on that wing.
pub open spec fn rights_after_rook_move(r: CastlingRights, c: Color, s: (isize, isize)) -> CastlingRights {
    if s.1 == 0 {
        r.without(c, false)
    } else if s.1 == 7 {
        r.without(c, true)
    } else {
        r
    }
}

pub open spec fn rook_outcome(
    b: BoardView,
    r: CastlingRights,
    c: Color,
    s: (isize, isize),
    d: (isize, isize),
) -> Outcome {
    if s.0 != d.0 && s.1 != d.1 {
        Err(Fault::InvalidMove)
    } else if !straight_path_clear(b, s, d) {
        Err(Fault::InvalidMove)
    } else {
        Ok((b.moved(s, d), rights_after_rook_move(r, c, s)))
    }
}

pub open spec fn on_diagonal(s: (isize, isize), d: (isize, isize)) -> bool {
    s.0 + s.1 == d.0 + d.1 || s.0 - s.1 == d.0 - d.1
}

/// The square `i` steps from `s` towards `d` along their diagonal.
pub open spec fn diagonal_square(s: (isize, isize), d: (isize, isize), i: int) -> (int, int) {
    (
        if d.0 > s.0 { s.0 + i } else { s.0 - i },
        if d.1 > s.1 { s.1 + i } else { s.1 - i },
    )
}

/// Every square strictly between `s` and `d` on their shared diagonal is empty.
pub open spec fn diagonal_path_clear(b: BoardView, s: (isize, isize), d: (isize, isize)) -> bool {
    forall|i: int|
        0 < i < abs(d.0 - s.0) ==> b.at(#[trigger] diagonal_square(s, d, i).0, diagonal_square(s, d, i).1) is None
}

pub open spec fn bishop_outcome(
    b: BoardView,
    r: CastlingRights,
    s: (isize, isize),
    d: (isize, isize),
) -> Outcome {
    if !on_diagonal(s, d) {
        Err(Fault::InvalidMove)
    } else if !diagonal_path_clear(b, s, d) {
        Err(Fault::InvalidMove)
    } else {
        Ok((b.moved(s, d), r))
    }
}

/// A queen moves as a rook along a row or column, else as a bishop; unlike a
/// rook's, its moves never touch the castling rights.
pub open spec fn queen_outcome(
    b: BoardView,
    r: CastlingRights,
    s: (isize, isize),
    d: (isize, isize),
) -> Outcome {
    if s.0 == d.0 || s.1 == d.1 {
        if !straight_path_clear(b, s, d) {
            Err(Fault::InvalidMove)
        } else {
            Ok((b.moved(s, d), r))
        }
    } else if on_diagonal(s, d) {
        bishop_outcome(b, r, s, d)
    } else {
        Err(Fault::InvalidMove)
    }
}

pub open spec fn knight_outcome(b: BoardView, r: CastlingRights, s: (isize, isize), d: (isize, isize)) -> Outcome {
    if is_knight_jump(s, d) {
        Ok((b.moved(s, d), r))
    } else {
        Err(Fault::InvalidMove)
    }
}

/// Castling on the king's wing: the king goes two files right and the rook from
/// three files right lands beside it. Whether the squares the king passes over
/// or lands on are attacked is not tested: a known gap in the castling rules.
pub open spec fn can_castle_kingside(b: BoardView, r: CastlingRights, c: Color, s: (isize, isize)) -> bool {
    &&& r.has(c, true)
    &&& b.at(s.0 as int, s.1 + 1) is None
    &&& b.at(s.0 as int, s.1 + 2) is None
    &&& b.at(s.0 as int, s.1 + 3) == Some(Piece::Rook(c))
}

/// Castling on the queen's wing: the king goes three files left and the rook from
/// four files left lands two files left of the king's start. Whether the squares
/// the king passes over or lands on are attacked is not tested: a known gap in
/// the castling rules.
pub open spec fn can_castle_queenside(b: BoardView, r: CastlingRights, c: Color, s: (isize, isize)) -> bool {
    &&& r.has(c, false)
    &&& b.at(s.0 as int, s.1 - 1) is None
    &&& b.at(s.0 as int, s.1 - 2) is None
    &&& b.at(s.0 as int, s.1 - 3) is None
    &&& b.at(s.0 as int, s.1 - 4) == Some(Piece::Rook(c))
}

pub open spec fn king_outcome(
    b: BoardView,
    r: CastlingRights,
    c: Color,
    s: (isize, isize),
    d: (isize, isize),
) -> Outcome {
    if is_king_step(s, d) {
        Ok((b.moved(s, d).with_king(c, d), r.without_side(c)))
    } else if d.0 == s.0 && d.1 == s.1 + 2 {
        if can_castle_kingside(b, r, c, s) {
            Ok((
                b.moved(s, d).moved((s.0, (s.1 + 3) as isize), (s.0, (s.1 + 1) as isize)).with_king(c, d),
                r.without(c, true),
            ))
        } else {
            Err(Fault::InvalidMove)
        }
    } else if d.0 == s.0 && d.1 == s.1 - 3 {
        if can_castle_queenside(b, r, c, s) {
            Ok((
                b.moved(s, d).moved((s.0, (s.1 - 4) as isize), (s.0, (s.1 - 2) as isize)).with_king(c, d),
                r.without(c, false),
            ))
        } else {
            Err(Fault::InvalidMove)
        }
    } else {
        Err(Fault::InvalidMove)
    }
}

/// The move of piece `p` from `s` to `d`, judged by its own kind's rules alone.
pub open spec fn piece_outcome(
    b: BoardView,
    r: CastlingRights,
    p: Piece,
    s: (isize, isize),
    d: (isize, isize),
    choice: Seq<char>,
) -> Outcome {
    match p {
        Piece::Pawn(c) => pawn_outcome(b, r, c, s, d, choice),
        Piece::Rook(c) => rook_outcome(b, r, c, s, d),
        Piece::Knight(_) => knight_outcome(b, r, s, d),
        Piece::Bishop(_) => bishop_outcome(b, r, s, d),
        Piece::Queen(_) => queen_outcome(b, r, s, d),
        Piece::King(c) => king_outcome(b, r, c, s, d),
    }
}

/// The checks common to every move: both squares on the board, a piece of the
/// side to move on `s`, and no piece of that side on `d`.
pub open spec fn generic_outcome(b: BoardView, turn: Color, s: (isize, isize), d: (isize, isize)) -> Result<Piece, Fault> {
    if !on_board(d) {
        Err(Fault::InvalidDestination)
    } else if !on_board(s) {
        Err(Fault::InvalidSource)
    } else {
        match b.at_pos(s) {
            None => Err(Fault::InvalidSource),
            Some(p) => {
                if color_of(p) != turn {
                    Err(Fault::InvalidMove)
                } else {
                    match b.at_pos(d) {
                        Some(q) => if color_of(q) == turn {
                            Err(Fault::InvalidMove)
                        } else {
                            Ok(p)
                        },
                        None => Ok(p),
                    }
                }
            }
        }
    }
}

/// A slider on a ray attacks: a queen, or a bishop on a diagonal, or a rook on a
/// row or column, of side `o`.
pub open spec fn slider_attacks(p: Piece, o: Color, diagonal: bool) -> bool {
    p == Piece::Queen(o) || (if diagonal {
        p == Piece::Bishop(o)
    } else {
        p == Piece::Rook(o)
    })
}

/// Walking from `(row, file)` in steps of `(dr, df)` for at most `steps` squares,
/// the first occupant met is a slider of side `o` for that direction.
pub open spec fn ray_hits(
    b: BoardView,
    row: int,
    file: int,
    dr: int,
    df: int,
    o: Color,
    diagonal: bool,
    steps: nat,
) -> bool
    decreases steps,
{
    if steps == 0 {
        false
    } else if !in_range(row + dr, file + df) {
        false
    } else {
        match b.at(row + dr, file + df) {
            None => ray_hits(b, row + dr, file + df, dr, df, o, diagonal, (steps - 1) as nat),
            Some(p) => slider_attacks(p, o, diagonal),
        }
    }
}

/// A rook or queen of side `o` sees square `k` along a row or column.
pub open spec fn rook_queen_attack(b: BoardView, k: (isize, isize), o: Color) -> bool {
    ||| ray_hits(b, k.0 as int, k.1 as int, 0, 1, o, false, 7)
    ||| ray_hits(b, k.0 as int, k.1 as int, 0, -1, o, false, 7)
    ||| ray_hits(b, k.0 as int, k.1 as int, 1, 0, o, false, 7)
    ||| ray_hits(b, k.0 as int, k.1 as int, -1, 0, o, false, 7)
}

/// A bishop or queen of side `o` sees square `k` along a diagonal.
pub open spec fn bishop_queen_attack(b: BoardView, k: (isize, isize), o: Color) -> bool {
    ||| ray_hits(b, k.0 as int, k.1 as int, 1, 1, o, true, 7)
    ||| ray_hits(b, k.0 as int, k.1 as int, 1, -1, o, true, 7)
    ||| ray_hits(b, k.0 as int, k.1 as int, -1, 1, o, true, 7)
    ||| ray_hits(b, k.0 as int, k.1 as int, -1, -1, o, true, 7)
}

/// A knight of side `o` stands a knight's jump from `k`.
pub open spec fn knight_attack(b: BoardView, k: (isize, isize), o: Color) -> bool {
    exists|i: int|
        0 <= i < 8 && b.at(k.0 + (#[trigger] knight_delta(i)).0, k.1 + knight_delta(i).1) == Some(Piece::Knight(o))
}

/// A pawn of side `o` stands diagonally in front of `k`, from that pawn's side.
pub open spec fn pawn_attack(b: BoardView, k: (isize, isize), o: Color) -> bool {
    let row = k.0 - pawn_direction(o);
    b.at(row, k.1 + 1) == Some(Piece::Pawn(o)) || b.at(row, k.1 - 1) == Some(Piece::Pawn(o))
}

/// The king of side `c`, at its recorded position, is attacked.
pub open spec fn in_check(b: BoardView, c: Color) -> bool {
    let k = b.king(c);
    let o = opposite(c);
    rook_queen_attack(b, k, o) || bishop_queen_attack(b, k, o) || knight_attack(b, k, o) || pawn_attack(b, k, o)
}

/// The whole move pipeline for side `turn`: the common checks, the piece's own
/// rules, and the refusal of a move after which `turn`'s king is in check.
pub open spec fn attempt(
    b: BoardView,
    r: CastlingRights,
    turn: Color,
    s: (isize, isize),
    d: (isize, isize),
    choice: Seq<char>,
) -> Outcome {
    match generic_outcome(b, turn, s, d) {
        Err(f) => Err(f),
        Ok(p) => match piece_outcome(b, r, p, s, d, choice) {
            Err(f) => Err(f),
            Ok((nb, nr)) => if in_check(nb, turn) {
                Err(Fault::KingUnderCheck)
            } else {
                Ok((nb, nr))
            },
        },
    }
}

/// The promotion letter used when moves are only tried; by
/// `lemma_promotion_kind_irrelevant` every valid letter is accepted or refused alike.
pub open spec fn trial_promotion() -> Seq<char> {
    seq!['Q']
}

/// The pipeline accepts `s` -> `d` for side `c` (a pawn reaching the far rank is
/// tried as a queen).
#[verifier::opaque]
pub open spec fn accepts(b: BoardView, r: CastlingRights, c: Color, s: (isize, isize), d: (isize, isize)) -> bool {
    attempt(b, r, c, s, d, trial_promotion()) is Ok
}

/// Side `c` has a move that the pipeline accepts.
pub open spec fn has_legal_move(b: BoardView, r: CastlingRights, c: Color) -> bool {
    exists|s: (isize, isize), d: (isize, isize)| #[trigger] accepts(b, r, c, s, d)
}

/// No move from or to a square off the board is accepted.
pub proof fn lemma_off_board_refused(b: BoardView, r: CastlingRights, c: Color, s: (isize, isize), d: (isize, isize))
    requires
        !on_board(s) || !on_board(d),
    ensures
        !accepts(b, r, c, s, d),
{
    reveal(accepts);
}

/// Side `c` is in check and no move of its removes the check.
pub open spec fn checkmated(b: BoardView, r: CastlingRights, c: Color) -> bool {
    in_check(b, c) && !has_legal_move(b, r, c)
}

} // verus!
