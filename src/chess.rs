use vstd::prelude::*;

use crate::board::{lemma_set_then_move, on_board, opening_piece, Board, BoardView};
use crate::error::{reports, Error};
use crate::piece::{opposite, Color, Piece};
use crate::player::Player;
use crate::rules::{
    accepts, attempt, between, bishop_outcome, bishop_queen_attack, checkmated, delta,
    diagonal_square, generic_outcome, in_check, king_delta, king_outcome, knight_attack,
    knight_delta, knight_outcome, lemma_off_board_refused, pawn_attack, pawn_outcome,
    promotion_choice, promotion_row, queen_outcome, ray_hits, rook_outcome, rook_queen_attack,
    straight_path_clear, trial_promotion, CastlingRights, Outcome,
};

verus! {

/// The abstract state of a game.
pub struct GameView {
    pub board: BoardView,
    pub rights: CastlingRights,
    pub turn: Color,
    pub white_name: Seq<char>,
    pub black_name: Seq<char>,
}

/// A game between two players: the board, whose turn it is, and castling rights.
pub struct Chess {
    chessboard: Board,
    white_player: Player,
    black_player: Player,
    current_turn: usize,
    castling_rights: CastlingRights,
}

impl View for Chess {
    type V = GameView;

    closed spec fn view(&self) -> GameView {
        GameView {
            board: self.chessboard@,
            rights: self.castling_rights,
            turn: if self.current_turn == 0 {
                Color::White
            } else {
                Color::Black
            },
            white_name: self.white_player.name_view(),
            black_name: self.black_player.name_view(),
        }
    }
}

/// The square that text such as "e2" names: file letter a-h to columns 0-7,
/// rank digit 1-8 to rows 7-0.
pub open spec fn square_named(s: Seq<char>) -> Option<(isize, isize)> {
    if s.len() >= 2 && 'a' <= s[0] <= 'h' && '1' <= s[1] <= '8' {
        Some(((8 - (s[1] as int - 48)) as isize, (s[0] as int - 97) as isize))
    } else {
        None
    }
}

/// Every right to castle still held.
pub open spec fn all_rights() -> CastlingRights {
    CastlingRights { white_queenside: true, white_kingside: true, black_queenside: true, black_kingside: true }
}

/// The state after `o` was applied to `g`, or `g` itself when `o` is a refusal.
pub open spec fn after(g: GameView, o: Outcome) -> GameView {
    match o {
        Ok((b, r)) => GameView { board: b, rights: r, ..g },
        Err(_) => g,
    }
}

/// `r` agrees with outcome `o`: success exactly when `o` is one, else the same kind of error.
pub open spec fn matches_outcome(r: Result<(), Error>, o: Outcome) -> bool {
    match o {
        Ok(_) => r is Ok,
        Err(f) => r is Err && reports(r->Err_0, f),
    }
}

impl Chess {
    /// The internal consistency of a game.
    pub closed spec fn wf(&self) -> bool {
        &&& self.chessboard@.wf()
        &&& self.current_turn < 2
        &&& self.white_player.color_view() == Color::White
        &&& self.black_player.color_view() == Color::Black
    }

    /// Returns a new game in the standard opening position, White to move.
    pub fn new(player1: String, player2: String) -> (r: Self)
        ensures
            r.wf(),
            r@.board.wf(),
            forall|row: int, file: int| #[trigger] r@.board.at(row, file) == opening_piece(row, file),
            r@.board.white_king == (7isize, 4isize),
            r@.board.black_king == (0isize, 4isize),
            r@.rights == all_rights(),
            r@.turn == Color::White,
            r@.white_name == player1@,
            r@.black_name == player2@,
    {
        Chess {
            chessboard: Board::new(),
            white_player: Player::new(player1, Color::White),
            black_player: Player::new(player2, Color::Black),
            current_turn: 0,
            castling_rights: CastlingRights {
                white_queenside: true,
                white_kingside: true,
                black_queenside: true,
                black_kingside: true,
            },
        }
    }

    /// Returns a game on a board set up by the caller, White to move, with every
    /// castling right held.
    pub fn with_board(player1: String, player2: String, board: Board) -> (r: Self)
        requires
            board@.wf(),
        ensures
            r.wf(),
            r@.board.wf(),
            r@.board == board@,
            r@.rights == all_rights(),
            r@.turn == Color::White,
            r@.white_name == player1@,
            r@.black_name == player2@,
    {
        Chess {
            chessboard: board,
            white_player: Player::new(player1, Color::White),
            black_player: Player::new(player2, Color::Black),
            current_turn: 0,
            castling_rights: CastlingRights {
                white_queenside: true,
                white_kingside: true,
                black_queenside: true,
                black_kingside: true,
            },
        }
    }

    /// Returns the board.
    pub fn board(&self) -> (r: &Board)
        ensures
            r@ == self@.board,
    {
        &self.chessboard
    }

    /// Returns the castling rights still held.
    pub fn castling_rights(&self) -> (r: CastlingRights)
        ensures
            r == self@.rights,
    {
        self.castling_rights
    }

    /// Returns the player whose turn it is.
    pub fn current_player(&self) -> (r: &Player)
        requires
            self.wf(),
        ensures
            r.color_view() == self@.turn,
            r.name_view() == if self@.turn == Color::White {
                self@.white_name
            } else {
                self@.black_name
            },
    {
        if self.current_turn == 0 {
            &self.white_player
        } else {
            &self.black_player
        }
    }

    /// Reads a square written as a file letter and a rank digit ("e2"); the rest
    /// of the text is ignored.
    pub fn extract_position(input: &str) -> (r: Option<(isize, isize)>)
        ensures
            r == square_named(input@),
    {
        if input.unicode_len() < 2 {
            return None;
        }
        let file = input.get_char(0);
        let rank = input.get_char(1);
        if file < 'a' || file > 'h' || rank < '1' || rank > '8' {
            return None;
        }
        let f = (file as u32 - 97) as isize;
        let row = 8 - (rank as u32 - 48) as isize;
        Some((row, f))
    }

    /// Returns the occupant of `(row, file)`, or nothing when it is off the board.
    fn get_piece(&self, row: isize, file: isize) -> (r: Option<Piece>)
        requires
            self.chessboard@.wf(),
        ensures
            r == self.chessboard@.at(row as int, file as int),
    {
        if row < 8 && row >= 0 && file < 8 && file >= 0 {
            *self.chessboard.get_piece(row, file)
        } else {
            None
        }
    }

    /// Carries the piece on `source` to `destination`, leaving `source` empty.
    fn _move_piece(&mut self, source: (isize, isize), destination: (isize, isize))
        requires
            old(self).chessboard@.wf(),
            on_board(source),
            on_board(destination),
            old(self).chessboard@.at_pos(source) is Some,
        ensures
            final(self).chessboard@ == old(self).chessboard@.moved(source, destination),
            final(self).castling_rights == old(self).castling_rights,
            final(self).current_turn == old(self).current_turn,
            final(self).white_player == old(self).white_player,
            final(self).black_player == old(self).black_player,
    {
        let piece = self.chessboard.get_piece(source.0, source.1).unwrap();
        self.chessboard.set_piece(destination.0, destination.1, piece);
        self.chessboard.remove_piece(source.0, source.1);
    }

    /// Whether `(row, file)` holds exactly `piece`.
    fn holds(&self, row: isize, file: isize, piece: Piece) -> (r: bool)
        requires
            self.chessboard@.wf(),
        ensures
            r == (self.chessboard@.at(row as int, file as int) == Some(piece)),
    {
        match self.get_piece(row, file) {
            Some(p) => p == piece,
            None => false,
        }
    }

    /// Moves the pawn: one step ahead onto an empty square, two from its start row
    /// over an empty square, or one step diagonally ahead as a capture. A pawn that
    /// reaches the far rank becomes the piece that `promotion` names.
    fn move_pawn(
        &mut self,
        color: Color,
        source: (isize, isize),
        destination: (isize, isize),
        promotion: &str,
    ) -> (r: Result<(), Error>)
        requires
            old(self).wf(),
            on_board(source),
            on_board(destination),
            source != destination,
            old(self).chessboard@.at_pos(source) is Some,
        ensures
            final(self).wf(),
            matches_outcome(r, pawn_outcome(old(self)@.board, old(self)@.rights, color, source, destination, promotion@)),
            final(self)@ == after(
                old(self)@,
                pawn_outcome(old(self)@.board, old(self)@.rights, color, source, destination, promotion@),
            ),
    {
        let (x, starting_x, front_square): (isize, isize, isize) = match color {
            Color::White => (2, 6, 1),
            Color::Black => (-2, 1, -1),
        };
        if source.1 == destination.1 {
            // a step straight ahead
            if source.0 == destination.0 + x && source.0 == starting_x {
                if self.get_piece(destination.0 + front_square, destination.1).is_some() || self.get_piece(
                    destination.0,
                    destination.1,
                ).is_some() {
                    return Err(Error::InvalidMove("Can't move there: a piece stands in the way".to_owned()));
                }
            } else if source.0 == destination.0 + front_square {
                if self.get_piece(destination.0, destination.1).is_some() {
                    return Err(Error::InvalidMove("Can't move there: a pawn captures only diagonally".to_owned()));
                }
            } else {
                return Err(Error::InvalidMove("Can't move there: a pawn moves one square ahead".to_owned()));
            }
        } else if (source.1 == destination.1 - 1 || source.1 == destination.1 + 1) && source.0
            == destination.0 + front_square {
            // a capture
            if self.get_piece(destination.0, destination.1).is_none() {
                return Err(Error::InvalidMove("Can't move there: a diagonal step must capture".to_owned()));
            }
        } else {
            return Err(Error::InvalidMove("Invalid pawn move".to_owned()));
        }
        let ghost b = self.chessboard@;
        match self.promote_pawn(color, source, destination, promotion) {
            Err(e) => { return Err(e); },
            Ok(()) => {},
        }
        proof {
            if destination.0 == promotion_row(color) {
                lemma_set_then_move(b, source, destination, promotion_choice(promotion@, color));
            }
        }
        self._move_piece(source, destination);
        Ok(())
    }

    /// The piece that a promotion letter selects for side `color`.
    fn promotion_piece(choice: &str, color: Color) -> (r: Option<Piece>)
        ensures
            r == promotion_choice(choice@, color),
    {
        if choice.unicode_len() != 1 {
            return None;
        }
        let c = choice.get_char(0);
        if c == 'Q' {
            Some(Piece::Queen(color))
        } else if c == 'R' {
            Some(Piece::Rook(color))
        } else if c == 'N' {
            Some(Piece::Knight(color))
        } else if c == 'B' {
            Some(Piece::Bishop(color))
        } else {
            None
        }
    }

    /// When `destination` is on the far rank for `color`, replaces the pawn on
    /// `source` by the piece that `promotion` names, or fails if it names none.
    fn promote_pawn(
        &mut self,
        color: Color,
        source: (isize, isize),
        destination: (isize, isize),
        promotion: &str,
    ) -> (r: Result<(), Error>)
        requires
            old(self).wf(),
            on_board(source),
        ensures
            final(self).wf(),
            final(self).chessboard@.at_pos(source) is Some || final(self)@ == old(self)@,
            destination.0 != promotion_row(color) ==> r is Ok && final(self)@ == old(self)@,
            destination.0 == promotion_row(color) ==> match promotion_choice(promotion@, color) {
                None => r is Err && r->Err_0 is InvalidPromotion && final(self)@ == old(self)@,
                Some(p) => r is Ok && final(self)@ == (GameView { board: old(self)@.board.with(source, Some(p)), ..old(self)@ }),
            },
    {
        let on_far_rank = match color {
            Color::White => destination.0 == 0,
            Color::Black => destination.0 == 7,
        };
        if on_far_rank {
            match Self::promotion_piece(promotion, color) {
                Some(p) => self.chessboard.set_piece(source.0, source.1, p),
                None => {
                    return Err(Error::InvalidPromotion("Invalid promotion: choose Q, R, N or B".to_owned()));
                },
            }
        }
        Ok(())
    }

    /// Moves the king one step in any direction, giving up both castling rights,
    /// or castles: two files right or three files left along its row while the
    /// right for that wing is held, the squares up to the rook are empty, and the
    /// rook stands in the corner. Castling does not test whether the squares the
    /// king passes over or lands on are attacked (a known gap in the rules).
    fn move_king(&mut self, color: Color, source: (isize, isize), destination: (isize, isize)) -> (r: Result<(), Error>)
        requires
            old(self).wf(),
            on_board(source),
            on_board(destination),
            old(self).chessboard@.at_pos(source) is Some,
        ensures
            final(self).wf(),
            matches_outcome(r, king_outcome(old(self)@.board, old(self)@.rights, color, source, destination)),
            final(self)@ == after(old(self)@, king_outcome(old(self)@.board, old(self)@.rights, color, source, destination)),
    {
        let mut i: usize = 0;
        while i < 8
            invariant
                i <= 8,
                *self == *old(self),
                self.wf(),
                self.chessboard@.at_pos(source) is Some,
                on_board(source),
                on_board(destination),
                forall|j: int| 0 <= j < i ==> #[trigger] king_delta(j) != delta(source, destination),
            decreases 8 - i,
        {
            let m = king_step(i);
            if source.0 + m.0 == destination.0 && source.1 + m.1 == destination.1 {
                assert(king_delta(i as int) == delta(source, destination));
                self.remove_castling_rights(color);
                self._move_piece(source, destination);
                self.chessboard.set_king_position(color, destination);
                return Ok(());
            }
            i = i + 1;
        }
        if source.1 - destination.1 == -2 && source.0 == destination.0 {
            if self.castling_rights.allows(color, true) && self.get_piece(source.0, source.1 + 1).is_none()
                && self.get_piece(source.0, source.1 + 2).is_none() && self.holds(
                source.0,
                source.1 + 3,
                Piece::Rook(color),
            ) {
                self.king_castling_helper(source, destination, true, color, (source.0, source.1 + 3), (source.0, source.1 + 1));
                return Ok(());
            }
        } else if source.1 - destination.1 == 3 && source.0 == destination.0 {
            if self.castling_rights.allows(color, false) && self.get_piece(source.0, source.1 - 1).is_none()
                && self.get_piece(source.0, source.1 - 2).is_none() && self.get_piece(
                source.0,
                source.1 - 3,
            ).is_none() && self.holds(source.0, source.1 - 4, Piece::Rook(color)) {
                self.king_castling_helper(source, destination, false, color, (source.0, source.1 - 4), (source.0, source.1 - 2));
                return Ok(());
            }
        }
        Err(Error::InvalidMove("Invalid King move".to_owned()))
    }

    /// Castles: carries the king and then the rook, clears the right for that
    /// wing, and records the king's new square.
    fn king_castling_helper(
        &mut self,
        source: (isize, isize),
        destination: (isize, isize),
        kingside: bool,
        color: Color,
        rook_source: (isize, isize),
        rook_destination: (isize, isize),
    )
        requires
            old(self).wf(),
            on_board(source),
            on_board(destination),
            on_board(rook_source),
            on_board(rook_destination),
            rook_source != destination,
            rook_source != source,
            old(self).chessboard@.at_pos(source) is Some,
            old(self).chessboard@.at_pos(rook_source) is Some,
        ensures
            final(self).wf(),
            final(self)@ == (GameView {
                board: old(self)@.board.moved(source, destination).moved(rook_source, rook_destination).with_king(color, destination),
                rights: old(self)@.rights.without(color, kingside),
                ..old(self)@
            }),
    {
        self._move_piece(source, destination);
        self._move_piece(rook_source, rook_destination);
        self.castling_rights.revoke(color, kingside);
        self.chessboard.set_king_position(color, destination);
    }

    /// Clears both castling rights of side `color`; called whenever its king moves.
    fn remove_castling_rights(&mut self, color: Color)
        ensures
            final(self).castling_rights == old(self).castling_rights.without_side(color),
            final(self).chessboard == old(self).chessboard,
            final(self).current_turn == old(self).current_turn,
            final(self).white_player == old(self).white_player,
            final(self).black_player == old(self).black_player,
    {
        self.castling_rights.revoke(color, false);
        self.castling_rights.revoke(color, true);
    }

    /// Plays `source` -> `destination` for the side to move. A pawn reaching the
    /// far rank becomes the piece that `promotion` names (Q, R, N or B); the
    /// letter is not read otherwise. On any refusal, including a move that would
    /// leave the mover's king in check, the game is left exactly as it was.
    pub fn make_a_move(&mut self, source: (isize, isize), destination: (isize, isize), promotion: &str) -> (r: Result<
        (),
        Error,
    >)
        requires
            old(self).wf(),
        ensures
            final(self).wf(),
            final(self)@.board.wf(),
            matches_outcome(r, attempt(old(self)@.board, old(self)@.rights, old(self)@.turn, source, destination, promotion@)),
            final(self)@ == after(
                old(self)@,
                attempt(old(self)@.board, old(self)@.rights, old(self)@.turn, source, destination, promotion@),
            ),
    {
        let color = if self.current_turn == 0 {
            Color::White
        } else {
            Color::Black
        };
        self.try_move(color, source, destination, promotion)
    }

    /// Plays a turn: makes the move, then either reports that the other side is
    /// checkmated (`Ok(true)`, the mover wins and keeps the turn) or hands the
    /// turn over (`Ok(false)`).
    pub fn take_turn(&mut self, source: (isize, isize), destination: (isize, isize), promotion: &str) -> (r: Result<
        bool,
        Error,
    >)
        requires
            old(self).wf(),
        ensures
            final(self).wf(),
            final(self)@.board.wf(),
            match attempt(old(self)@.board, old(self)@.rights, old(self)@.turn, source, destination, promotion@) {
                Err(f) => r is Err && reports(r->Err_0, f) && final(self)@ == old(self)@,
                Ok((b, rights)) => {
                    &&& r is Ok
                    &&& r->Ok_0 == checkmated(b, rights, opposite(old(self)@.turn))
                    &&& final(self)@ == (GameView {
                        board: b,
                        rights,
                        turn: if r->Ok_0 {
                            old(self)@.turn
                        } else {
                            opposite(old(self)@.turn)
                        },
                        ..old(self)@
                    })
                },
            },
    {
        match self.make_a_move(source, destination, promotion) {
            Err(e) => Err(e),
            Ok(()) => {
                let opponent = self.current_player().get_color().other();
                if self.is_under_checkmate(opponent) {
                    Ok(true)
                } else {
                    self.current_turn = 1 - self.current_turn;
                    Ok(false)
                }
            },
        }
    }

    /// The move pipeline for side `color`: the common checks, the piece's own
    /// rules, then the refusal of a move that leaves `color`'s king in check.
    fn try_move(&mut self, color: Color, source: (isize, isize), destination: (isize, isize), promotion: &str) -> (r:
        Result<(), Error>)
        requires
            old(self).wf(),
        ensures
            final(self).wf(),
            matches_outcome(r, attempt(old(self)@.board, old(self)@.rights, color, source, destination, promotion@)),
            final(self)@ == after(old(self)@, attempt(old(self)@.board, old(self)@.rights, color, source, destination, promotion@)),
    {
        let piece = match self._validate_move_generic(color, source, destination) {
            Err(e) => { return Err(e); },
            Ok(p) => p,
        };
        let saved_board = self.chessboard.snapshot();
        let saved_rights = self.castling_rights;
        let moved = match piece {
            Piece::Pawn(c) => self.move_pawn(c, source, destination, promotion),
            Piece::Rook(c) => self.move_rook(c, source, destination),
            Piece::Knight(c) => self.move_knight(c, source, destination),
            Piece::Bishop(c) => self.move_bishop(c, source, destination),
            Piece::Queen(c) => self.move_queen(c, source, destination),
            Piece::King(c) => self.move_king(c, source, destination),
        };
        match moved {
            Err(e) => { return Err(e); },
            Ok(()) => {},
        }
        if self.is_under_check(color) {
            return self.revert_game_state(saved_board, saved_rights);
        }
        Ok(())
    }

    /// Puts back the board and castling rights saved before a move and reports
    /// that the move left the king in check.
    fn revert_game_state(&mut self, board: Board, castling_rights: CastlingRights) -> (r: Result<(), Error>)
        requires
            old(self).wf(),
            board@.wf(),
        ensures
            final(self).wf(),
            final(self)@ == (GameView { board: board@, rights: castling_rights, ..old(self)@ }),
            r is Err && r->Err_0 is KingUnderCheck,
    {
        self.chessboard = board;
        self.castling_rights = castling_rights;
        Err(Error::KingUnderCheck("Cannot move! King is/will be under check".to_owned()))
    }

    /// The checks common to every move: both squares on the board, a piece of
    /// side `color` on `source`, and none of its own pieces on `destination`.
    fn _validate_move_generic(&self, color: Color, source: (isize, isize), destination: (isize, isize)) -> (r: Result<
        Piece,
        Error,
    >)
        requires
            self.chessboard@.wf(),
        ensures
            match generic_outcome(self.chessboard@, color, source, destination) {
                Ok(p) => r is Ok && r->Ok_0 == p,
                Err(f) => r is Err && reports(r->Err_0, f),
            },
    {
        if destination.1 > 7 || destination.1 < 0 || destination.0 > 7 || destination.0 < 0 {
            return Err(Error::InvalidDestination("Destination square out of the board".to_owned()));
        }
        if source.1 > 7 || source.1 < 0 || source.0 > 7 || source.0 < 0 {
            return Err(Error::InvalidSource("Source square out of the board".to_owned()));
        }
        let piece = match self.get_piece(source.0, source.1) {
            None => { return Err(Error::InvalidSource("No piece at the source square".to_owned())); },
            Some(p) => p,
        };
        if *piece.get_color() != color {
            return Err(Error::InvalidMove("Not your turn".to_owned()));
        }
        match self.get_piece(destination.0, destination.1) {
            Some(q) => if *q.get_color() == color {
                return Err(Error::InvalidMove("Can't capture your own piece".to_owned()));
            },
            None => {},
        }
        Ok(piece)
    }

    /// Returns true if side `color` is in check and no move of its, tried through
    /// the whole pipeline, gets it out; the game is left as it was either way.
    pub fn is_under_checkmate(&mut self, color: Color) -> (r: bool)
        requires
            old(self).wf(),
        ensures
            final(self).wf(),
            final(self)@.board.wf(),
            final(self)@ == old(self)@,
            r == checkmated(old(self)@.board, old(self)@.rights, color),
    {
        if !self.is_under_check(color) {
            return false;
        }
        let ghost g = self@;
        let mut row: isize = 0;
        while row < 8
            invariant
                0 <= row <= 8,
                self.wf(),
                self@ == g,
                g == old(self)@,
                forall|s: (isize, isize), d: (isize, isize)|
                    on_board(s) && s.0 < row ==> !#[trigger] accepts(g.board, g.rights, color, s, d),
            decreases 8 - row,
        {
            let mut file: isize = 0;
            while file < 8
                invariant
                    0 <= row < 8,
                    0 <= file <= 8,
                    self.wf(),
                    self@ == g,
                    g == old(self)@,
                    forall|s: (isize, isize), d: (isize, isize)|
                        on_board(s) && (s.0 < row || (s.0 == row && s.1 < file)) ==> !#[trigger] accepts(
                            g.board,
                            g.rights,
                            color,
                            s,
                            d,
                        ),
                decreases 8 - file,
            {
                if self.checkmate_escape(color, (row, file)) {
                    return false;
                }
                file = file + 1;
            }
            row = row + 1;
        }
        assert forall|s: (isize, isize), d: (isize, isize)| !#[trigger] accepts(g.board, g.rights, color, s, d) by {
            if !on_board(s) {
                lemma_off_board_refused(g.board, g.rights, color, s, d);
            }
        }
        true
    }

    /// Returns true if some move of the piece on `source` is accepted for side
    /// `color`; every destination on the board is tried, and the game is put
    /// back as it was.
    fn checkmate_escape(&mut self, color: Color, source: (isize, isize)) -> (r: bool)
        requires
            old(self).wf(),
        ensures
            final(self).wf(),
            final(self)@ == old(self)@,
            r == exists|d: (isize, isize)| #[trigger] accepts(old(self)@.board, old(self)@.rights, color, source, d),
    {
        let queen = "Q";
        proof {
            reveal_strlit("Q");
            assert(queen@ =~= trial_promotion());
        }
        let saved_board = self.chessboard.snapshot();
        let saved_rights = self.castling_rights;
        let ghost g = self@;
        let mut row: isize = 0;
        while row < 8
            invariant
                0 <= row <= 8,
                self.wf(),
                self@ == g,
                saved_board@ == g.board,
                saved_rights == g.rights,
                queen@ == trial_promotion(),
                g == old(self)@,
                forall|d: (isize, isize)|
                    on_board(d) && d.0 < row ==> !#[trigger] accepts(g.board, g.rights, color, source, d),
            decreases 8 - row,
        {
            let mut file: isize = 0;
            while file < 8
                invariant
                    0 <= row < 8,
                    0 <= file <= 8,
                    self.wf(),
                    self@ == g,
                    saved_board@ == g.board,
                    saved_rights == g.rights,
                    queen@ == trial_promotion(),
                    g == old(self)@,
                    forall|d: (isize, isize)|
                        on_board(d) && (d.0 < row || (d.0 == row && d.1 < file)) ==> !#[trigger] accepts(
                            g.board,
                            g.rights,
                            color,
                            source,
                            d,
                        ),
                decreases 8 - file,
            {
                let result = self.try_move(color, source, (row, file), queen);
                assert(accepts(g.board, g.rights, color, source, (row, file)) == result is Ok) by {
                    reveal(accepts);
                }
                if result.is_ok() {
                    self.chessboard = saved_board;
                    self.castling_rights = saved_rights;
                    return true;
                }
                file = file + 1;
            }
            row = row + 1;
        }
        assert forall|d: (isize, isize)| !#[trigger] accepts(g.board, g.rights, color, source, d) by {
            if !on_board(d) {
                lemma_off_board_refused(g.board, g.rights, color, source, d);
            }
        }
        false
    }

    /// Returns true if the king of side `color` is attacked, at its recorded square,
    /// by a rook, bishop, queen, knight or pawn of the other side.
    pub fn is_under_check(&self, color: Color) -> (r: bool)
        requires
            self.wf(),
        ensures
            r == in_check(self@.board, color),
    {
        let king_position = self.chessboard.get_king_position(color);
        let other_color = color.other();
        self.is_under_check_by_rook_queen(king_position, other_color) || self.is_under_check_by_bishop_queen(
            king_position,
            other_color,
        ) || self.is_under_check_by_knight(king_position, other_color) || self.is_under_check_by_pawn(
            king_position,
            other_color,
        )
    }

    /// Walks from `king_position` in steps of `(dr, df)` and returns true if the
    /// first piece met is a queen of side `color`, or a bishop (on a diagonal) or
    /// rook (on a row or column) of that side.
    fn is_exposed_along(
        &self,
        king_position: (isize, isize),
        dr: isize,
        df: isize,
        color: Color,
        diagonal: bool,
    ) -> (r: bool)
        requires
            self.chessboard@.wf(),
            on_board(king_position),
            -1 <= dr <= 1,
            -1 <= df <= 1,
        ensures
            r == ray_hits(self.chessboard@, king_position.0 as int, king_position.1 as int, dr as int, df as int, color, diagonal, 7),
    {
        let mut row = king_position.0;
        let mut file = king_position.1;
        let mut steps: usize = 7;
        while steps > 0
            invariant
                0 <= row < 8,
                0 <= file < 8,
                steps <= 7,
                -1 <= dr <= 1,
                -1 <= df <= 1,
                self.chessboard@.wf(),
                ray_hits(self.chessboard@, king_position.0 as int, king_position.1 as int, dr as int, df as int, color, diagonal, 7)
                    == ray_hits(self.chessboard@, row as int, file as int, dr as int, df as int, color, diagonal, steps as nat),
            decreases steps,
        {
            let next_row = row + dr;
            let next_file = file + df;
            if next_row < 0 || next_row > 7 || next_file < 0 || next_file > 7 {
                return false;
            }
            match self.get_piece(next_row, next_file) {
                None => {
                    row = next_row;
                    file = next_file;
                    steps = steps - 1;
                },
                Some(p) => {
                    return p == Piece::Queen(color) || (if diagonal {
                        p == Piece::Bishop(color)
                    } else {
                        p == Piece::Rook(color)
                    });
                },
            }
        }
        false
    }

    /// Returns true if the king at `king_position` is exposed to a rook or queen of
    /// side `color` along its row or column.
    fn is_under_check_by_rook_queen(&self, king_position: (isize, isize), color: Color) -> (r: bool)
        requires
            self.chessboard@.wf(),
            on_board(king_position),
        ensures
            r == rook_queen_attack(self.chessboard@, king_position, color),
    {
        self.is_exposed_along(king_position, 0, 1, color, false) || self.is_exposed_along(
            king_position,
            0,
            -1,
            color,
            false,
        ) || self.is_exposed_along(king_position, 1, 0, color, false) || self.is_exposed_along(
            king_position,
            -1,
            0,
            color,
            false,
        )
    }

    /// Returns true if the king at `king_position` is exposed to a bishop or queen
    /// of side `color` along a diagonal.
    fn is_under_check_by_bishop_queen(&self, king_position: (isize, isize), color: Color) -> (r: bool)
        requires
            self.chessboard@.wf(),
            on_board(king_position),
        ensures
            r == bishop_queen_attack(self.chessboard@, king_position, color),
    {
        self.is_exposed_along(king_position, 1, 1, color, true) || self.is_exposed_along(
            king_position,
            1,
            -1,
            color,
            true,
        ) || self.is_exposed_along(king_position, -1, 1, color, true) || self.is_exposed_along(
            king_position,
            -1,
            -1,
            color,
            true,
        )
    }

    /// Returns true if a knight of side `color` is a knight's jump from `king_position`.
    fn is_under_check_by_knight(&self, king_position: (isize, isize), color: Color) -> (r: bool)
        requires
            self.chessboard@.wf(),
            on_board(king_position),
        ensures
            r == knight_attack(self.chessboard@, king_position, color),
    {
        let mut i: usize = 0;
        while i < 8
            invariant
                i <= 8,
                self.chessboard@.wf(),
                on_board(king_position),
                forall|j: int|
                    0 <= j < i ==> self.chessboard@.at(
                        king_position.0 + (#[trigger] knight_delta(j)).0,
                        king_position.1 + knight_delta(j).1,
                    ) != Some(Piece::Knight(color)),
            decreases 8 - i,
        {
            let m = knight_step(i);
            if self.holds(king_position.0 + m.0, king_position.1 + m.1, Piece::Knight(color)) {
                assert(self.chessboard@.at(
                    king_position.0 + knight_delta(i as int).0,
                    king_position.1 + knight_delta(i as int).1,
                ) == Some(Piece::Knight(color)));
                return true;
            }
            i = i + 1;
        }
        false
    }

    /// Returns true if a pawn of side `color` stands diagonally in front of the
    /// king at `king_position`, as seen from that pawn.
    fn is_under_check_by_pawn(&self, king_position: (isize, isize), color: Color) -> (r: bool)
        requires
            self.chessboard@.wf(),
            on_board(king_position),
        ensures
            r == pawn_attack(self.chessboard@, king_position, color),
    {
        let row = match color {
            Color::White => king_position.0 + 1,
            Color::Black => king_position.0 - 1,
        };
        let right = self.get_piece(row, king_position.1 + 1);
        let left = self.get_piece(row, king_position.1 - 1);
        Self::under_attack_from_pawn(color, right) || Self::under_attack_from_pawn(color, left)
    }

    /// Whether `piece` is a pawn of side `color`.
    fn under_attack_from_pawn(color: Color, piece: Option<Piece>) -> (r: bool)
        ensures
            r == (piece == Some(Piece::Pawn(color))),
    {
        match piece {
            Some(p) => p == Piece::Pawn(color),
            None => false,
        }
    }

    /// Whether `diff` is one of the eight knight offsets.
    fn is_knight_offset(diff: (isize, isize)) -> (r: bool)
        ensures
            r == exists|i: int| 0 <= i < 8 && #[trigger] knight_delta(i) == (diff.0 as int, diff.1 as int),
    {
        let mut i: usize = 0;
        while i < 8
            invariant
                i <= 8,
                forall|j: int| 0 <= j < i ==> #[trigger] knight_delta(j) != (diff.0 as int, diff.1 as int),
            decreases 8 - i,
        {
            let m = knight_step(i);
            if m.0 == diff.0 && m.1 == diff.1 {
                return true;
            }
            i = i + 1;
        }
        false
    }

    /// Moves the knight if `destination` is a knight's jump away; squares in
    /// between are not looked at.
    fn move_knight(&mut self, color: Color, source: (isize, isize), destination: (isize, isize)) -> (r: Result<(), Error>)
        requires
            old(self).wf(),
            on_board(source),
            on_board(destination),
            old(self).chessboard@.at_pos(source) == Some(Piece::Knight(color)),
        ensures
            final(self).wf(),
            matches_outcome(r, knight_outcome(old(self)@.board, old(self)@.rights, source, destination)),
            final(self)@ == after(old(self)@, knight_outcome(old(self)@.board, old(self)@.rights, source, destination)),
    {
        let diff = (destination.0 - source.0, destination.1 - source.1);
        if Self::is_knight_offset(diff) {
            self._move_piece(source, destination);
            Ok(())
        } else {
            Err(Error::InvalidMove("Can't move there: not a knight's jump".to_owned()))
        }
    }

    /// Returns an error if a square at index `start..end` of the source's row
    /// (`along_row`) or column holds a piece.
    fn rook_validation_helper(
        &self,
        source: (isize, isize),
        start: isize,
        end: isize,
        along_row: bool,
    ) -> (r: Result<(), Error>)
        requires
            self.chessboard@.wf(),
            on_board(source),
            0 <= start,
            end <= 8,
        ensures
            r is Ok <==> forall|x: int|
                start <= x < end ==> (if along_row {
                    self.chessboard@.at(source.0 as int, x)
                } else {
                    self.chessboard@.at(x, source.1 as int)
                }) is None,
            r is Err ==> r->Err_0 is InvalidMove,
    {
        let mut index = start;
        while index < end
            invariant
                start <= index,
                end <= 8,
                0 <= start,
                self.chessboard@.wf(),
                forall|x: int|
                    start <= x < index ==> (if along_row {
                        self.chessboard@.at(source.0 as int, x)
                    } else {
                        self.chessboard@.at(x, source.1 as int)
                    }) is None,
            decreases end - index,
        {
            let piece = if along_row {
                self.get_piece(source.0, index)
            } else {
                self.get_piece(index, source.1)
            };
            if piece.is_some() {
                return Err(Error::InvalidMove("Can't move there: the path is blocked".to_owned()));
            }
            index = index + 1;
        }
        Ok(())
    }

    /// Returns an error if a square strictly between `source` and `destination`,
    /// on the row or column they share, holds a piece.
    fn straight_path_check(&self, source: (isize, isize), destination: (isize, isize)) -> (r: Result<(), Error>)
        requires
            self.chessboard@.wf(),
            on_board(source),
            on_board(destination),
            source.0 == destination.0 || source.1 == destination.1,
        ensures
            r is Ok <==> straight_path_clear(self.chessboard@, source, destination),
            r is Err ==> r->Err_0 is InvalidMove,
    {
        let ghost b = self.chessboard@;
        let checked = if source.0 == destination.0 {
            if source.1 > destination.1 {
                self.rook_validation_helper(source, destination.1 + 1, source.1, true)
            } else {
                self.rook_validation_helper(source, source.1 + 1, destination.1, true)
            }
        } else {
            if source.0 > destination.0 {
                self.rook_validation_helper(source, destination.0 + 1, source.0, false)
            } else {
                self.rook_validation_helper(source, source.0 + 1, destination.0, false)
            }
        };
        proof {
            if source.0 == destination.0 {
                assert(checked is Ok <==> straight_path_clear(b, source, destination)) by {
                    if checked is Ok {
                        assert forall|f: int| between(f, source.1 as int, destination.1 as int) implies #[trigger] b.at(
                            source.0 as int,
                            f,
                        ) is None by {}
                    }
                }
            } else {
                assert(checked is Ok <==> straight_path_clear(b, source, destination)) by {
                    if checked is Ok {
                        assert forall|row: int| between(row, source.0 as int, destination.0 as int) implies #[trigger] b.at(
                            row,
                            source.1 as int,
                        ) is None by {}
                    }
                }
            }
        }
        checked
    }

    /// Moves the rook along its row or column if nothing stands in between; a rook
    /// leaving column 0 or 7 gives up castling on that wing.
    fn move_rook(&mut self, color: Color, source: (isize, isize), destination: (isize, isize)) -> (r: Result<(), Error>)
        requires
            old(self).wf(),
            on_board(source),
            on_board(destination),
            source != destination,
            old(self).chessboard@.at_pos(source) is Some,
        ensures
            final(self).wf(),
            matches_outcome(r, rook_outcome(old(self)@.board, old(self)@.rights, color, source, destination)),
            final(self)@ == after(old(self)@, rook_outcome(old(self)@.board, old(self)@.rights, color, source, destination)),
    {
        if source.0 != destination.0 && source.1 != destination.1 {
            return Err(Error::InvalidMove("Invalid move: a rook keeps to its row or column".to_owned()));
        }
        match self.straight_path_check(source, destination) {
            Err(e) => { return Err(e); },
            Ok(()) => {},
        }
        if source.1 == 0 {
            self.castling_rights.revoke(color, false);
        } else if source.1 == 7 {
            self.castling_rights.revoke(color, true);
        }
        self._move_piece(source, destination);
        Ok(())
    }

    /// Returns an error if a square `start..end` steps from `source` towards
    /// `destination` along their diagonal holds a piece.
    fn bishop_validation_helper(
        &self,
        source: (isize, isize),
        destination: (isize, isize),
        start: isize,
        end: isize,
    ) -> (r: Result<(), Error>)
        requires
            self.chessboard@.wf(),
            on_board(source),
            on_board(destination),
            0 <= start,
            end <= 8,
        ensures
            r is Ok <==> forall|i: int|
                start <= i < end ==> self.chessboard@.at(
                    #[trigger] diagonal_square(source, destination, i).0,
                    diagonal_square(source, destination, i).1,
                ) is None,
            r is Err ==> r->Err_0 is InvalidMove,
    {
        let mut index = start;
        while index < end
            invariant
                start <= index,
                end <= 8,
                0 <= start,
                self.chessboard@.wf(),
                on_board(source),
                forall|i: int|
                    start <= i < index ==> self.chessboard@.at(
                        #[trigger] diagonal_square(source, destination, i).0,
                        diagonal_square(source, destination, i).1,
                    ) is None,
            decreases end - index,
        {
            let row = if destination.0 > source.0 { source.0 + index } else { source.0 - index };
            let file = if destination.1 > source.1 { source.1 + index } else { source.1 - index };
            let piece = self.get_piece(row, file);
            assert(diagonal_square(source, destination, index as int) == (row as int, file as int));
            if piece.is_some() {
                assert(start <= index < end);
                assert(self.chessboard@.at(
                    diagonal_square(source, destination, index as int).0,
                    diagonal_square(source, destination, index as int).1,
                ) is Some);
                return Err(Error::InvalidMove("Can't move there: the path is blocked".to_owned()));
            }
            index = index + 1;
        }
        Ok(())
    }

    /// Moves the bishop along its diagonal if nothing stands in between.
    fn move_bishop(&mut self, _color: Color, source: (isize, isize), destination: (isize, isize)) -> (r: Result<(), Error>)
        requires
            old(self).wf(),
            on_board(source),
            on_board(destination),
            source != destination,
            old(self).chessboard@.at_pos(source) is Some,
        ensures
            final(self).wf(),
            matches_outcome(r, bishop_outcome(old(self)@.board, old(self)@.rights, source, destination)),
            final(self)@ == after(old(self)@, bishop_outcome(old(self)@.board, old(self)@.rights, source, destination)),
    {
        if source.0 + source.1 != destination.0 + destination.1 && source.0 - source.1 != destination.0
            - destination.1 {
            return Err(Error::InvalidMove("Invalid move: a bishop keeps to its diagonal".to_owned()));
        }
        let end = if source.0 > destination.0 {
            source.0 - destination.0
        } else {
            destination.0 - source.0
        };
        match self.bishop_validation_helper(source, destination, 1, end) {
            Err(e) => { return Err(e); },
            Ok(()) => {},
        }
        self._move_piece(source, destination);
        Ok(())
    }

    /// Moves the queen as a rook along a row or column, else as a bishop; the
    /// castling rights are left alone.
    fn move_queen(&mut self, color: Color, source: (isize, isize), destination: (isize, isize)) -> (r: Result<(), Error>)
        requires
            old(self).wf(),
            on_board(source),
            on_board(destination),
            source != destination,
            old(self).chessboard@.at_pos(source) is Some,
        ensures
            final(self).wf(),
            matches_outcome(r, queen_outcome(old(self)@.board, old(self)@.rights, source, destination)),
            final(self)@ == after(old(self)@, queen_outcome(old(self)@.board, old(self)@.rights, source, destination)),
    {
        if source.0 == destination.0 || source.1 == destination.1 {
            match self.straight_path_check(source, destination) {
                Err(e) => { return Err(e); },
                Ok(()) => {},
            }
            self._move_piece(source, destination);
            Ok(())
        } else if source.0 + source.1 == destination.0 + destination.1 || source.0 - source.1
            == destination.0 - destination.1 {
            self.move_bishop(color, source, destination)
        } else {
            Err(Error::InvalidMove("Invalid queen move".to_owned()))
        }
    }
}

/// The knight offset at index `i` of the table.
fn knight_step(i: usize) -> (r: (isize, isize))
    requires
        i < 8,
    ensures
        (r.0 as int, r.1 as int) == knight_delta(i as int),
{
    if i == 0 {
        (2, 1)
    } else if i == 1 {
        (2, -1)
    } else if i == 2 {
        (1, 2)
    } else if i == 3 {
        (-1, 2)
    } else if i == 4 {
        (-2, 1)
    } else if i == 5 {
        (-2, -1)
    } else if i == 6 {
        (-1, -2)
    } else {
        (1, -2)
    }
}

/// The king step at index `i` of the table.
fn king_step(i: usize) -> (r: (isize, isize))
    requires
        i < 8,
    ensures
        (r.0 as int, r.1 as int) == king_delta(i as int),
{
    if i == 0 {
        (1, 0)
    } else if i == 1 {
        (1, 1)
    } else if i == 2 {
        (0, 1)
    } else if i == 3 {
        (-1, 1)
    } else if i == 4 {
        (-1, 0)
    } else if i == 5 {
        (-1, -1)
    } else if i == 6 {
        (0, -1)
    } else {
        (1, -1)
    }
}

} // verus!
