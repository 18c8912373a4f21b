use vstd::prelude::*;

use crate::board::{in_range, lemma_with_at, on_board, BoardView};
use crate::error::Fault;
use crate::piece::{color_of, opposite, Color, Piece};
use crate::rules::{
    abs, attempt, between, diagonal_square, generic_outcome, in_check, is_king_step, is_knight_jump,
    knight_delta, ray_hits,
    on_diagonal, piece_outcome, promotion_choice, promotion_row, CastlingRights,
};

verus! {

/// The piece that stands on `d` after a move from `s`: the mover itself, or for
/// a pawn reaching the far rank, the piece it is promoted to.
pub open spec fn landed_piece(b: BoardView, s: (isize, isize), d: (isize, isize), choice: Seq<char>) -> Option<Piece> {
    match b.at_pos(s) {
        Some(Piece::Pawn(c)) => if d.0 == promotion_row(c) {
            promotion_choice(choice, c)
        } else {
            b.at_pos(s)
        },
        other => other,
    }
}

/// After every accepted move the source square is empty and the destination
/// holds the piece that moved (for a promoted pawn, the piece it became).
pub proof fn lemma_move_lands(
    b: BoardView,
    r: CastlingRights,
    turn: Color,
    s: (isize, isize),
    d: (isize, isize),
    choice: Seq<char>,
)
    requires
        b.wf(),
        attempt(b, r, turn, s, d, choice) is Ok,
    ensures
        attempt(b, r, turn, s, d, choice)->Ok_0.0.at_pos(s) is None,
        attempt(b, r, turn, s, d, choice)->Ok_0.0.at_pos(d) == landed_piece(b, s, d, choice),
{
}

/// A move that the piece's own rules allow but that leaves the mover's king in
/// check is refused with `KingUnderCheck`; the pipeline then reports no new
/// board, so the game stays exactly as it was.
pub proof fn lemma_self_check_refused(
    b: BoardView,
    r: CastlingRights,
    turn: Color,
    s: (isize, isize),
    d: (isize, isize),
    choice: Seq<char>,
)
    requires
        generic_outcome(b, turn, s, d) is Ok,
        piece_outcome(b, r, generic_outcome(b, turn, s, d)->Ok_0, s, d, choice) is Ok,
        in_check(piece_outcome(b, r, generic_outcome(b, turn, s, d)->Ok_0, s, d, choice)->Ok_0.0, turn),
    ensures
        attempt(b, r, turn, s, d, choice) == Err::<(BoardView, CastlingRights), Fault>(Fault::KingUnderCheck),
{
}

/// Some square strictly between `s` and `d`, on the row, column or diagonal that
/// they share, is occupied.
pub open spec fn blocked(b: BoardView, s: (isize, isize), d: (isize, isize)) -> bool {
    ||| (s.0 == d.0 && exists|f: int| between(f, s.1 as int, d.1 as int) && #[trigger] b.at(s.0 as int, f) is Some)
    ||| (s.1 == d.1 && exists|row: int| between(row, s.0 as int, d.0 as int) && #[trigger] b.at(row, s.1 as int) is Some)
    ||| (on_diagonal(s, d) && exists|i: int|
        0 < i < abs(d.0 - s.0) && b.at(#[trigger] diagonal_square(s, d, i).0, diagonal_square(s, d, i).1) is Some)
}

/// Rooks, bishops and queens never pass over an occupied square.
pub proof fn lemma_sliders_blocked(
    b: BoardView,
    r: CastlingRights,
    p: Piece,
    s: (isize, isize),
    d: (isize, isize),
    choice: Seq<char>,
)
    requires
        p is Rook || p is Bishop || p is Queen,
        blocked(b, s, d),
    ensures
        piece_outcome(b, r, p, s, d, choice) == Err::<(BoardView, CastlingRights), Fault>(Fault::InvalidMove),
{
}

/// A knight's move is judged by its offset alone: what stands on other squares
/// never matters.
pub proof fn lemma_knight_jumps(
    b: BoardView,
    r: CastlingRights,
    c: Color,
    s: (isize, isize),
    d: (isize, isize),
    choice: Seq<char>,
)
    ensures
        piece_outcome(b, r, Piece::Knight(c), s, d, choice) is Ok <==> is_knight_jump(s, d),
        piece_outcome(b, r, Piece::Knight(c), s, d, choice) is Ok ==> piece_outcome(b, r, Piece::Knight(c), s, d, choice)->Ok_0.0 == b.moved(s, d),
{
}

/// Castling two files towards the king's wing succeeds only while that right is
/// held and the squares up to the rook are empty, and clears the right.
pub proof fn lemma_castle_kingside(
    b: BoardView,
    r: CastlingRights,
    c: Color,
    s: (isize, isize),
    d: (isize, isize),
    choice: Seq<char>,
)
    requires
        d.0 == s.0,
        d.1 == s.1 + 2,
        piece_outcome(b, r, Piece::King(c), s, d, choice) is Ok,
    ensures
        r.has(c, true),
        b.at(s.0 as int, s.1 + 1) is None,
        b.at(s.0 as int, s.1 + 2) is None,
        !piece_outcome(b, r, Piece::King(c), s, d, choice)->Ok_0.1.has(c, true),
{
}

/// Castling three files towards the queen's wing succeeds only while that right
/// is held and the squares up to the rook are empty, and clears the right.
pub proof fn lemma_castle_queenside(
    b: BoardView,
    r: CastlingRights,
    c: Color,
    s: (isize, isize),
    d: (isize, isize),
    choice: Seq<char>,
)
    requires
        d.0 == s.0,
        d.1 == s.1 - 3,
        piece_outcome(b, r, Piece::King(c), s, d, choice) is Ok,
    ensures
        r.has(c, false),
        b.at(s.0 as int, s.1 - 1) is None,
        b.at(s.0 as int, s.1 - 2) is None,
        b.at(s.0 as int, s.1 - 3) is None,
        !piece_outcome(b, r, Piece::King(c), s, d, choice)->Ok_0.1.has(c, false),
{
}

/// A king's single step clears both of its side's castling rights; a rook leaving
/// column 0 or 7 clears the right on that wing.
pub proof fn lemma_home_moves_clear_rights(
    b: BoardView,
    r: CastlingRights,
    c: Color,
    s: (isize, isize),
    d: (isize, isize),
    choice: Seq<char>,
)
    ensures
        is_king_step(s, d) ==> {
            let o = piece_outcome(b, r, Piece::King(c), s, d, choice);
            o is Ok && !o->Ok_0.1.has(c, true) && !o->Ok_0.1.has(c, false)
        },
        piece_outcome(b, r, Piece::Rook(c), s, d, choice) is Ok && s.1 == 0 ==> !piece_outcome(
            b,
            r,
            Piece::Rook(c),
            s,
            d,
            choice,
        )->Ok_0.1.has(c, false),
        piece_outcome(b, r, Piece::Rook(c), s, d, choice) is Ok && s.1 == 7 ==> !piece_outcome(
            b,
            r,
            Piece::Rook(c),
            s,
            d,
            choice,
        )->Ok_0.1.has(c, true),
{
}

/// `b1` and `b2` agree everywhere but on `q`, where each holds a piece of side `c`.
pub open spec fn differ_by_own_piece(b1: BoardView, b2: BoardView, q: (isize, isize), c: Color) -> bool {
    &&& forall|x: int, y: int| !(x == q.0 && y == q.1) ==> #[trigger] b1.at(x, y) == b2.at(x, y)
    &&& b1.at_pos(q) is Some && color_of(b1.at_pos(q)->Some_0) == c
    &&& b2.at_pos(q) is Some && color_of(b2.at_pos(q)->Some_0) == c
}

proof fn lemma_ray_same(
    b1: BoardView,
    b2: BoardView,
    q: (isize, isize),
    c: Color,
    row: int,
    file: int,
    dr: int,
    df: int,
    diagonal: bool,
    steps: nat,
)
    requires
        differ_by_own_piece(b1, b2, q, c),
    ensures
        ray_hits(b1, row, file, dr, df, opposite(c), diagonal, steps) == ray_hits(
            b2,
            row,
            file,
            dr,
            df,
            opposite(c),
            diagonal,
            steps,
        ),
    decreases steps,
{
    if steps > 0 && in_range(row + dr, file + df) {
        assert(b1.at(row + dr, file + df) is Some <==> b2.at(row + dr, file + df) is Some);
        lemma_ray_same(b1, b2, q, c, row + dr, file + df, dr, df, diagonal, (steps - 1) as nat);
    }
}

/// Exchanging one of side `c`'s own pieces for another of its pieces never
/// changes whether `c` is in check.
pub proof fn lemma_check_ignores_own_kind(b1: BoardView, b2: BoardView, q: (isize, isize), c: Color)
    requires
        differ_by_own_piece(b1, b2, q, c),
        b1.king(c) == b2.king(c),
    ensures
        in_check(b1, c) == in_check(b2, c),
{
    let k = b1.king(c);
    let o = opposite(c);
    lemma_ray_same(b1, b2, q, c, k.0 as int, k.1 as int, 0, 1, false, 7);
    lemma_ray_same(b1, b2, q, c, k.0 as int, k.1 as int, 0, -1, false, 7);
    lemma_ray_same(b1, b2, q, c, k.0 as int, k.1 as int, 1, 0, false, 7);
    lemma_ray_same(b1, b2, q, c, k.0 as int, k.1 as int, -1, 0, false, 7);
    lemma_ray_same(b1, b2, q, c, k.0 as int, k.1 as int, 1, 1, true, 7);
    lemma_ray_same(b1, b2, q, c, k.0 as int, k.1 as int, 1, -1, true, 7);
    lemma_ray_same(b1, b2, q, c, k.0 as int, k.1 as int, -1, 1, true, 7);
    lemma_ray_same(b1, b2, q, c, k.0 as int, k.1 as int, -1, -1, true, 7);
    assert forall|i: int| 0 <= i < 8 implies (b1.at(k.0 + (#[trigger] knight_delta(i)).0, k.1 + knight_delta(i).1)
        == Some(Piece::Knight(o))) == (b2.at(k.0 + knight_delta(i).0, k.1 + knight_delta(i).1) == Some(
        Piece::Knight(o),
    )) by {
        let x = k.0 + knight_delta(i).0;
        let y = k.1 + knight_delta(i).1;
        assert(b1.at(x, y) == b2.at(x, y) || (color_of(b1.at(x, y)->Some_0) == c && color_of(b2.at(x, y)->Some_0) == c
            && b1.at(x, y) is Some && b2.at(x, y) is Some));
    }
    let row = k.0 - crate::rules::pawn_direction(o);
    assert(b1.at(row, k.1 + 1) == b2.at(row, k.1 + 1) || (b1.at(row, k.1 + 1) is Some && b2.at(row, k.1 + 1) is Some
        && color_of(b1.at(row, k.1 + 1)->Some_0) == c && color_of(b2.at(row, k.1 + 1)->Some_0) == c));
    assert(b1.at(row, k.1 - 1) == b2.at(row, k.1 - 1) || (b1.at(row, k.1 - 1) is Some && b2.at(row, k.1 - 1) is Some
        && color_of(b1.at(row, k.1 - 1)->Some_0) == c && color_of(b2.at(row, k.1 - 1)->Some_0) == c));
}

/// Which of the four pieces a pawn is promoted to never decides whether the
/// move is accepted: any two valid promotion letters fare alike.
pub proof fn lemma_promotion_kind_irrelevant(
    b: BoardView,
    r: CastlingRights,
    turn: Color,
    s: (isize, isize),
    d: (isize, isize),
    choice1: Seq<char>,
    choice2: Seq<char>,
)
    requires
        b.wf(),
        promotion_choice(choice1, turn) is Some,
        promotion_choice(choice2, turn) is Some,
    ensures
        attempt(b, r, turn, s, d, choice1) is Ok <==> attempt(b, r, turn, s, d, choice2) is Ok,
{
    if generic_outcome(b, turn, s, d) is Ok {
        let p = generic_outcome(b, turn, s, d)->Ok_0;
        if p is Pawn && crate::rules::pawn_move_ok(b, turn, s, d) && d.0 == promotion_row(turn) {
            let nb1 = piece_outcome(b, r, p, s, d, choice1)->Ok_0.0;
            let nb2 = piece_outcome(b, r, p, s, d, choice2)->Ok_0.0;
            assert(differ_by_own_piece(nb1, nb2, d, turn));
            lemma_check_ignores_own_kind(nb1, nb2, d, turn);
        }
    }
}

/// An accepted move keeps the recorded king squares true: the mover's king is
/// found where it is recorded, and so is the other king unless it was the
/// square moved onto.
pub proof fn lemma_king_positions_kept(
    b: BoardView,
    r: CastlingRights,
    turn: Color,
    s: (isize, isize),
    d: (isize, isize),
    choice: Seq<char>,
)
    requires
        b.wf(),
        attempt(b, r, turn, s, d, choice) is Ok,
        b.at_pos(b.king(turn)) == Some(Piece::King(turn)),
    ensures
        ({
            let nb = attempt(b, r, turn, s, d, choice)->Ok_0.0;
            &&& nb.wf()
            &&& nb.at_pos(nb.king(turn)) == Some(Piece::King(turn))
            &&& b.at_pos(b.king(opposite(turn))) == Some(Piece::King(opposite(turn))) && d != b.king(opposite(turn))
                ==> nb.at_pos(nb.king(opposite(turn))) == Some(Piece::King(opposite(turn)))
        }),
{
    let p = generic_outcome(b, turn, s, d)->Ok_0;
    assert(attempt(b, r, turn, s, d, choice)->Ok_0 == piece_outcome(b, r, p, s, d, choice)->Ok_0);
    lemma_piece_keeps_kings(b, r, turn, p, s, d, choice);
}

proof fn lemma_piece_keeps_kings(
    b: BoardView,
    r: CastlingRights,
    turn: Color,
    p: Piece,
    s: (isize, isize),
    d: (isize, isize),
    choice: Seq<char>,
)
    requires
        b.wf(),
        on_board(s),
        on_board(d),
        b.at_pos(s) == Some(p),
        color_of(p) == turn,
        b.at_pos(d) is None || color_of(b.at_pos(d)->Some_0) != turn,
        piece_outcome(b, r, p, s, d, choice) is Ok,
        b.at_pos(b.king(turn)) == Some(Piece::King(turn)),
    ensures
        ({
            let nb = piece_outcome(b, r, p, s, d, choice)->Ok_0.0;
            &&& nb.wf()
            &&& nb.at_pos(nb.king(turn)) == Some(Piece::King(turn))
            &&& b.at_pos(b.king(opposite(turn))) == Some(Piece::King(opposite(turn))) && d != b.king(opposite(turn))
                ==> nb.at_pos(nb.king(opposite(turn))) == Some(Piece::King(opposite(turn)))
        }),
{
    let nb = piece_outcome(b, r, p, s, d, choice)->Ok_0.0;
    let k = b.king(turn);
    let ko = b.king(opposite(turn));
    if p is King {
        if is_king_step(s, d) {
            let m = b.with(d, b.at_pos(s));
            lemma_with_at(b, d, b.at_pos(s), ko.0 as int, ko.1 as int);
            lemma_with_at(m, s, None, ko.0 as int, ko.1 as int);
            lemma_with_at(b, d, b.at_pos(s), d.0 as int, d.1 as int);
            lemma_with_at(m, s, None, d.0 as int, d.1 as int);
        } else if d.0 == s.0 && d.1 == s.1 + 2 {
            let rs: (isize, isize) = (s.0, (s.1 + 3) as isize);
            let rd: (isize, isize) = (s.0, (s.1 + 1) as isize);
            let m1 = b.with(d, b.at_pos(s));
            let m2 = m1.with(s, None);
            let m3 = m2.with(rd, m2.at_pos(rs));
            lemma_with_at(b, d, b.at_pos(s), d.0 as int, d.1 as int);
            lemma_with_at(m1, s, None, d.0 as int, d.1 as int);
            lemma_with_at(m2, rd, m2.at_pos(rs), d.0 as int, d.1 as int);
            lemma_with_at(m3, rs, None, d.0 as int, d.1 as int);
            lemma_with_at(b, d, b.at_pos(s), ko.0 as int, ko.1 as int);
            lemma_with_at(m1, s, None, ko.0 as int, ko.1 as int);
            lemma_with_at(m2, rd, m2.at_pos(rs), ko.0 as int, ko.1 as int);
            lemma_with_at(m3, rs, None, ko.0 as int, ko.1 as int);
        } else {
            let rs: (isize, isize) = (s.0, (s.1 - 4) as isize);
            let rd: (isize, isize) = (s.0, (s.1 - 2) as isize);
            let m1 = b.with(d, b.at_pos(s));
            let m2 = m1.with(s, None);
            let m3 = m2.with(rd, m2.at_pos(rs));
            lemma_with_at(b, d, b.at_pos(s), d.0 as int, d.1 as int);
            lemma_with_at(m1, s, None, d.0 as int, d.1 as int);
            lemma_with_at(m2, rd, m2.at_pos(rs), d.0 as int, d.1 as int);
            lemma_with_at(m3, rs, None, d.0 as int, d.1 as int);
            lemma_with_at(b, d, b.at_pos(s), ko.0 as int, ko.1 as int);
            lemma_with_at(m1, s, None, ko.0 as int, ko.1 as int);
            lemma_with_at(m2, rd, m2.at_pos(rs), ko.0 as int, ko.1 as int);
            lemma_with_at(m3, rs, None, ko.0 as int, ko.1 as int);
        }
    } else {
        let placed = landed_piece(b, s, d, choice);
        assert(nb == b.with(d, placed).with(s, None));
        let m = b.with(d, placed);
        lemma_with_at(b, d, placed, k.0 as int, k.1 as int);
        lemma_with_at(m, s, None, k.0 as int, k.1 as int);
        lemma_with_at(b, d, placed, ko.0 as int, ko.1 as int);
        lemma_with_at(m, s, None, ko.0 as int, ko.1 as int);
    }
}

/// Every move that a piece's own rules accept, from a square holding that piece
/// to another square, leaves the source empty and puts the moved piece (for a
/// pawn on the far rank, the piece it became) on the destination; a king's new
/// square is recorded.
pub proof fn lemma_piece_move_lands(
    b: BoardView,
    r: CastlingRights,
    p: Piece,
    s: (isize, isize),
    d: (isize, isize),
    choice: Seq<char>,
)
    requires
        b.wf(),
        on_board(s),
        on_board(d),
        s != d,
        b.at_pos(s) == Some(p),
        piece_outcome(b, r, p, s, d, choice) is Ok,
    ensures
        piece_outcome(b, r, p, s, d, choice)->Ok_0.0.at_pos(s) is None,
        piece_outcome(b, r, p, s, d, choice)->Ok_0.0.at_pos(d) == landed_piece(b, s, d, choice),
        p is King ==> piece_outcome(b, r, p, s, d, choice)->Ok_0.0.king(color_of(p)) == d,
{
}

/// A queen's move never changes the castling rights.
pub proof fn lemma_queen_keeps_rights(
    b: BoardView,
    r: CastlingRights,
    c: Color,
    s: (isize, isize),
    d: (isize, isize),
    choice: Seq<char>,
)
    ensures
        piece_outcome(b, r, Piece::Queen(c), s, d, choice) is Ok ==> piece_outcome(
            b,
            r,
            Piece::Queen(c),
            s,
            d,
            choice,
        )->Ok_0.1 == r,
{
}

} // verus!
