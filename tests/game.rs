use chess::board::Board;
use chess::chess::Chess;
use chess::error::Error;
use chess::piece::{Color, Piece};
use chess::player::Player;
use chess::square::Square;

fn empty_board() -> Board {
    let mut board = Board::new();
    for row in 0..8 {
        for file in 0..8 {
            board.remove_piece(row, file);
        }
    }
    board
}

fn cells(game: &Chess) -> Vec<Option<Piece>> {
    let mut all = Vec::new();
    for row in 0..8 {
        for file in 0..8 {
            all.push(*game.board().get_piece(row, file));
        }
    }
    all
}

fn new_game() -> Chess {
    Chess::new(String::from("alice"), String::from("bob"))
}

/// Kings on e1 and e8 with nothing else on the board.
fn kings_only() -> Board {
    let mut board = empty_board();
    board.set_piece(7, 4, Piece::King(Color::White));
    board.set_piece(0, 4, Piece::King(Color::Black));
    board.set_king_position(Color::White, (7, 4));
    board.set_king_position(Color::Black, (0, 4));
    board
}

#[test]
fn opening_layout() {
    let board = Board::new();
    assert_eq!(*board.get_piece(7, 4), Some(Piece::King(Color::White)));
    assert_eq!(*board.get_piece(0, 4), Some(Piece::King(Color::Black)));
    assert_eq!(*board.get_piece(7, 3), Some(Piece::Queen(Color::White)));
    assert_eq!(*board.get_piece(0, 0), Some(Piece::Rook(Color::Black)));
    assert_eq!(*board.get_piece(7, 6), Some(Piece::Knight(Color::White)));
    assert_eq!(*board.get_piece(0, 5), Some(Piece::Bishop(Color::Black)));
    assert_eq!(*board.get_piece(6, 2), Some(Piece::Pawn(Color::White)));
    assert_eq!(*board.get_piece(1, 7), Some(Piece::Pawn(Color::Black)));
    assert_eq!(*board.get_piece(4, 4), None);
    assert_eq!(board.get_king_position(Color::White), (7, 4));
    assert_eq!(board.get_king_position(Color::Black), (0, 4));
}

#[test]
fn pawn_double_step_from_opening() {
    let mut game = new_game();
    assert!(game.make_a_move((6, 4), (4, 4), "").is_ok());
    assert_eq!(*game.board().get_piece(6, 4), None);
    assert_eq!(*game.board().get_piece(4, 4), Some(Piece::Pawn(Color::White)));
}

#[test]
fn queen_on_open_file_gives_check() {
    let mut board = empty_board();
    board.set_piece(0, 4, Piece::King(Color::Black));
    board.set_king_position(Color::Black, (0, 4));
    board.set_piece(7, 4, Piece::Queen(Color::White));
    board.set_piece(7, 0, Piece::King(Color::White));
    board.set_king_position(Color::White, (7, 0));
    let game = Chess::with_board(String::from("a"), String::from("b"), board);
    assert!(game.is_under_check(Color::Black));
    assert!(!game.is_under_check(Color::White));
}

#[test]
fn blocked_file_gives_no_check() {
    let mut board = kings_only();
    board.set_piece(7, 4, Piece::Queen(Color::White));
    board.set_piece(7, 0, Piece::King(Color::White));
    board.set_king_position(Color::White, (7, 0));
    board.set_piece(3, 4, Piece::Knight(Color::Black));
    let game = Chess::with_board(String::from("a"), String::from("b"), board);
    assert!(!game.is_under_check(Color::Black));
}

#[test]
fn fools_mate() {
    let mut game = new_game();
    assert_eq!(game.take_turn((6, 5), (5, 5), "").unwrap(), false);
    assert_eq!(game.take_turn((1, 4), (3, 4), "").unwrap(), false);
    assert_eq!(game.take_turn((6, 6), (4, 6), "").unwrap(), false);
    assert_eq!(game.take_turn((0, 3), (4, 7), "").unwrap(), true);
    assert_eq!(game.current_player().get_name(), "bob");
    assert!(game.is_under_check(Color::White));
    assert!(game.is_under_checkmate(Color::White));
}

#[test]
fn checkmate_search_leaves_state_alone() {
    let mut game = new_game();
    game.take_turn((6, 5), (5, 5), "").unwrap();
    game.take_turn((1, 4), (3, 4), "").unwrap();
    game.take_turn((6, 6), (4, 6), "").unwrap();
    game.take_turn((0, 3), (4, 7), "").unwrap();
    let before = cells(&game);
    let rights = game.castling_rights();
    assert!(game.is_under_checkmate(Color::White));
    assert_eq!(cells(&game), before);
    assert_eq!(game.castling_rights(), rights);
    assert_eq!(game.board().get_king_position(Color::White), (7, 4));
}

#[test]
fn check_with_escape_is_not_checkmate() {
    let mut board = empty_board();
    board.set_piece(0, 4, Piece::King(Color::Black));
    board.set_king_position(Color::Black, (0, 4));
    board.set_piece(7, 4, Piece::Queen(Color::White));
    board.set_piece(7, 0, Piece::King(Color::White));
    board.set_king_position(Color::White, (7, 0));
    let mut game = Chess::with_board(String::from("a"), String::from("b"), board);
    let before = cells(&game);
    assert!(!game.is_under_checkmate(Color::Black));
    assert_eq!(cells(&game), before);
}

#[test]
fn opening_is_not_checkmate() {
    let mut game = new_game();
    assert!(!game.is_under_checkmate(Color::White));
    assert!(!game.is_under_checkmate(Color::Black));
}

#[test]
fn moving_opponent_piece_is_refused() {
    let mut game = new_game();
    let before = cells(&game);
    let r = game.make_a_move((1, 4), (2, 4), "");
    assert!(matches!(r, Err(Error::InvalidMove(_))));
    assert_eq!(cells(&game), before);
}

#[test]
fn capturing_own_piece_is_refused() {
    let mut game = new_game();
    let before = cells(&game);
    let r = game.make_a_move((7, 0), (6, 0), "");
    assert!(matches!(r, Err(Error::InvalidMove(_))));
    assert_eq!(cells(&game), before);
}

#[test]
fn off_board_and_empty_squares_are_refused() {
    let mut game = new_game();
    assert!(matches!(game.make_a_move((6, 4), (8, 4), ""), Err(Error::InvalidDestination(_))));
    assert!(matches!(game.make_a_move((6, 4), (4, -1), ""), Err(Error::InvalidDestination(_))));
    assert!(matches!(game.make_a_move((9, 4), (4, 4), ""), Err(Error::InvalidSource(_))));
    assert!(matches!(game.make_a_move((4, 4), (3, 4), ""), Err(Error::InvalidSource(_))));
}

#[test]
fn move_into_check_is_rolled_back() {
    let mut board = kings_only();
    board.set_piece(6, 4, Piece::Rook(Color::White));
    board.set_piece(0, 4, Piece::Rook(Color::Black));
    board.set_piece(0, 0, Piece::King(Color::Black));
    board.set_king_position(Color::Black, (0, 0));
    let mut game = Chess::with_board(String::from("a"), String::from("b"), board);
    let before = cells(&game);
    let rights = game.castling_rights();
    let r = game.make_a_move((6, 4), (6, 3), "");
    assert!(matches!(r, Err(Error::KingUnderCheck(_))));
    assert_eq!(cells(&game), before);
    assert_eq!(game.castling_rights(), rights);
    assert_eq!(game.board().get_king_position(Color::White), (7, 4));
}

#[test]
fn king_step_into_check_is_rolled_back() {
    let mut board = kings_only();
    board.set_piece(0, 3, Piece::Rook(Color::Black));
    board.set_piece(0, 4, Piece::King(Color::Black));
    let mut game = Chess::with_board(String::from("a"), String::from("b"), board);
    let before = cells(&game);
    let r = game.make_a_move((7, 4), (7, 3), "");
    assert!(matches!(r, Err(Error::KingUnderCheck(_))));
    assert_eq!(cells(&game), before);
    assert_eq!(game.board().get_king_position(Color::White), (7, 4));
    assert!(game.castling_rights().white_kingside);
    assert!(game.castling_rights().white_queenside);
}

#[test]
fn rook_cannot_pass_a_piece() {
    let mut game = new_game();
    assert!(matches!(game.make_a_move((7, 0), (5, 0), ""), Err(Error::InvalidMove(_))));
}

#[test]
fn bishop_cannot_pass_a_piece() {
    let mut game = new_game();
    assert!(matches!(game.make_a_move((7, 2), (5, 4), ""), Err(Error::InvalidMove(_))));
}

#[test]
fn bishop_blocked_moving_down_right() {
    let mut board = kings_only();
    board.set_piece(2, 2, Piece::Bishop(Color::White));
    board.set_piece(3, 3, Piece::Pawn(Color::Black));
    let mut game = Chess::with_board(String::from("a"), String::from("b"), board);
    assert!(matches!(game.make_a_move((2, 2), (4, 4), ""), Err(Error::InvalidMove(_))));
    assert!(game.make_a_move((2, 2), (3, 3), "").is_ok());
}

#[test]
fn queen_cannot_pass_a_piece() {
    let mut game = new_game();
    assert!(matches!(game.make_a_move((7, 3), (5, 3), ""), Err(Error::InvalidMove(_))));
    assert!(matches!(game.make_a_move((7, 3), (5, 5), ""), Err(Error::InvalidMove(_))));
    assert!(matches!(game.make_a_move((7, 3), (5, 4), ""), Err(Error::InvalidMove(_))));
}

#[test]
fn knight_jumps_over_pieces() {
    let mut game = new_game();
    assert!(game.make_a_move((7, 1), (5, 2), "").is_ok());
    assert_eq!(*game.board().get_piece(5, 2), Some(Piece::Knight(Color::White)));
    assert_eq!(*game.board().get_piece(7, 1), None);
    assert!(matches!(game.make_a_move((7, 6), (5, 6), ""), Err(Error::InvalidMove(_))));
}

#[test]
fn castle_kingside() {
    let mut board = Board::new();
    board.remove_piece(7, 5);
    board.remove_piece(7, 6);
    let mut game = Chess::with_board(String::from("a"), String::from("b"), board);
    assert!(game.make_a_move((7, 4), (7, 6), "").is_ok());
    assert_eq!(*game.board().get_piece(7, 6), Some(Piece::King(Color::White)));
    assert_eq!(*game.board().get_piece(7, 5), Some(Piece::Rook(Color::White)));
    assert_eq!(*game.board().get_piece(7, 7), None);
    assert_eq!(*game.board().get_piece(7, 4), None);
    assert_eq!(game.board().get_king_position(Color::White), (7, 6));
    assert!(!game.castling_rights().white_kingside);
    assert!(game.castling_rights().white_queenside);
}

#[test]
fn castle_queenside() {
    let mut board = Board::new();
    board.remove_piece(7, 1);
    board.remove_piece(7, 2);
    board.remove_piece(7, 3);
    let mut game = Chess::with_board(String::from("a"), String::from("b"), board);
    assert!(game.make_a_move((7, 4), (7, 1), "").is_ok());
    assert_eq!(*game.board().get_piece(7, 1), Some(Piece::King(Color::White)));
    assert_eq!(*game.board().get_piece(7, 2), Some(Piece::Rook(Color::White)));
    assert_eq!(*game.board().get_piece(7, 0), None);
    assert_eq!(game.board().get_king_position(Color::White), (7, 1));
    assert!(!game.castling_rights().white_queenside);
}

#[test]
fn castling_needs_empty_squares() {
    let mut board = Board::new();
    board.remove_piece(7, 5);
    let mut game = Chess::with_board(String::from("a"), String::from("b"), board);
    let before = cells(&game);
    assert!(matches!(game.make_a_move((7, 4), (7, 6), ""), Err(Error::InvalidMove(_))));
    assert_eq!(cells(&game), before);
    assert!(game.castling_rights().white_kingside);
}

#[test]
fn king_step_clears_castling_rights() {
    let mut board = Board::new();
    board.remove_piece(7, 5);
    board.remove_piece(7, 6);
    let mut game = Chess::with_board(String::from("a"), String::from("b"), board);
    assert!(game.make_a_move((7, 4), (7, 5), "").is_ok());
    assert!(!game.castling_rights().white_kingside);
    assert!(!game.castling_rights().white_queenside);
    assert!(game.castling_rights().black_kingside);
    assert!(game.make_a_move((7, 5), (7, 4), "").is_ok());
    assert!(matches!(game.make_a_move((7, 4), (7, 6), ""), Err(Error::InvalidMove(_))));
}

#[test]
fn rook_leaving_corner_clears_castling_right() {
    let mut board = Board::new();
    board.remove_piece(6, 7);
    let mut game = Chess::with_board(String::from("a"), String::from("b"), board);
    assert!(game.make_a_move((7, 7), (5, 7), "").is_ok());
    assert!(!game.castling_rights().white_kingside);
    assert!(game.castling_rights().white_queenside);
}

#[test]
fn pawn_promotion() {
    let mut board = kings_only();
    board.set_piece(1, 7, Piece::Pawn(Color::White));
    let mut game = Chess::with_board(String::from("a"), String::from("b"), board);
    let before = cells(&game);
    assert!(matches!(game.make_a_move((1, 7), (0, 7), "X"), Err(Error::InvalidPromotion(_))));
    assert!(matches!(game.make_a_move((1, 7), (0, 7), ""), Err(Error::InvalidPromotion(_))));
    assert_eq!(cells(&game), before);
    assert!(game.make_a_move((1, 7), (0, 7), "N").is_ok());
    assert_eq!(*game.board().get_piece(0, 7), Some(Piece::Knight(Color::White)));
    assert_eq!(*game.board().get_piece(1, 7), None);
}

#[test]
fn pawn_rules() {
    let mut game = new_game();
    assert!(matches!(game.make_a_move((6, 4), (3, 4), ""), Err(Error::InvalidMove(_))));
    assert!(matches!(game.make_a_move((6, 4), (5, 5), ""), Err(Error::InvalidMove(_))));
    assert!(matches!(game.make_a_move((6, 4), (7, 4), ""), Err(Error::InvalidMove(_))));
    assert!(game.make_a_move((6, 4), (5, 4), "").is_ok());
    assert!(matches!(game.make_a_move((5, 4), (3, 4), ""), Err(Error::InvalidMove(_))));
}

#[test]
fn pawn_captures_diagonally() {
    let mut board = kings_only();
    board.set_piece(4, 4, Piece::Pawn(Color::White));
    board.set_piece(3, 5, Piece::Bishop(Color::Black));
    board.set_piece(3, 4, Piece::Knight(Color::Black));
    let mut game = Chess::with_board(String::from("a"), String::from("b"), board);
    assert!(matches!(game.make_a_move((4, 4), (3, 4), ""), Err(Error::InvalidMove(_))));
    assert!(matches!(game.make_a_move((4, 4), (3, 3), ""), Err(Error::InvalidMove(_))));
    assert!(game.make_a_move((4, 4), (3, 5), "").is_ok());
    assert_eq!(*game.board().get_piece(3, 5), Some(Piece::Pawn(Color::White)));
}

#[test]
fn knight_and_pawn_give_check() {
    let mut board = kings_only();
    board.set_piece(5, 5, Piece::Knight(Color::Black));
    let game = Chess::with_board(String::from("a"), String::from("b"), board);
    assert!(game.is_under_check(Color::White));

    let mut board = kings_only();
    board.set_piece(1, 3, Piece::Pawn(Color::White));
    let game = Chess::with_board(String::from("a"), String::from("b"), board);
    assert!(game.is_under_check(Color::Black));

    let mut board = kings_only();
    board.set_piece(1, 4, Piece::Pawn(Color::White));
    let game = Chess::with_board(String::from("a"), String::from("b"), board);
    assert!(!game.is_under_check(Color::Black));
}

#[test]
fn bishop_gives_check_on_diagonal() {
    let mut board = kings_only();
    board.set_piece(4, 1, Piece::Bishop(Color::Black));
    let game = Chess::with_board(String::from("a"), String::from("b"), board);
    assert!(game.is_under_check(Color::White));
}

#[test]
fn turns_alternate() {
    let mut game = new_game();
    assert_eq!(*game.current_player().get_color(), Color::White);
    assert_eq!(game.current_player().get_name(), "alice");
    game.take_turn((6, 4), (4, 4), "").unwrap();
    assert_eq!(*game.current_player().get_color(), Color::Black);
    assert!(matches!(game.take_turn((6, 3), (4, 3), ""), Err(Error::InvalidMove(_))));
    assert_eq!(*game.current_player().get_color(), Color::Black);
}

#[test]
fn colors_and_pieces() {
    assert_eq!(Color::White.other(), Color::Black);
    assert_eq!(Color::Black.other(), Color::White);
    assert_eq!(*Piece::Queen(Color::Black).get_color(), Color::Black);
    assert_eq!(*Piece::Pawn(Color::White).get_color(), Color::White);
}

#[test]
fn player_and_square() {
    let p = Player::new(String::from("carol"), Color::Black);
    assert_eq!(p.get_name(), "carol");
    assert_eq!(*p.get_color(), Color::Black);
    let mut sq = Square::new(None);
    assert_eq!(*sq.get_piece(), None);
    sq.place_piece(Piece::Rook(Color::White));
    assert_eq!(*sq.get_piece(), Some(Piece::Rook(Color::White)));
    sq.remove_piece();
    assert_eq!(*sq.get_piece(), None);
}

#[test]
fn reads_algebraic_squares() {
    assert_eq!(Chess::extract_position("e2"), Some((6, 4)));
    assert_eq!(Chess::extract_position("a8\n"), Some((0, 0)));
    assert_eq!(Chess::extract_position("h1"), Some((7, 7)));
    assert_eq!(Chess::extract_position("i1"), None);
    assert_eq!(Chess::extract_position("e9"), None);
    assert_eq!(Chess::extract_position("e"), None);
    assert_eq!(Chess::extract_position(""), None);
}

#[test]
fn queen_leaving_corner_file_keeps_castling_rights() {
    let mut board = kings_only();
    board.set_piece(3, 0, Piece::Queen(Color::White));
    board.set_piece(3, 7, Piece::Queen(Color::White));
    let mut game = Chess::with_board(String::from("a"), String::from("b"), board);
    let rights = game.castling_rights();
    assert!(game.make_a_move((3, 0), (4, 0), "").is_ok());
    assert!(game.make_a_move((3, 7), (3, 5), "").is_ok());
    assert_eq!(game.castling_rights(), rights);
    assert!(game.castling_rights().white_queenside);
    assert!(game.castling_rights().white_kingside);
}
