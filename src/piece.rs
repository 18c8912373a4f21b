use vstd::prelude::*;

verus! {

/// The two sides of the game.
#[derive(PartialEq, Eq, Structural, Debug, Copy, Clone)]
pub enum Color {
    Black,
    White,
}

/// A chess piece: its kind together with the side it belongs to.
#[derive(PartialEq, Eq, Structural, Debug, Copy, Clone)]
pub enum Piece {
    King(Color),
    Queen(Color),
    Rook(Color),
    Bishop(Color),
    Knight(Color),
    Pawn(Color),
}

/// The side opposite to `c`.
pub open spec fn opposite(c: Color) -> Color {
    match c {
        Color::Black => Color::White,
        Color::White => Color::Black,
    }
}

/// The side that piece `p` belongs to.
pub open spec fn color_of(p: Piece) -> Color {
    match p {
        Piece::King(c) => c,
        Piece::Queen(c) => c,
        Piece::Rook(c) => c,
        Piece::Bishop(c) => c,
        Piece::Knight(c) => c,
        Piece::Pawn(c) => c,
    }
}

impl Color {
    /// Returns the opposite side.
    pub fn other(&self) -> (r: Color)
        ensures
            r == opposite(*self),
            r != *self,
    {
        match self {
            Color::Black => Color::White,
            Color::White => Color::Black,
        }
    }
}

impl Piece {
    /// Returns the side this piece belongs to.
    pub fn get_color(&self) -> (r: &Color)
        ensures
            *r == color_of(*self),
    {
        match self {
            Piece::King(color) => color,
            Piece::Queen(color) => color,
            Piece::Rook(color) => color,
            Piece::Bishop(color) => color,
            Piece::Knight(color) => color,
            Piece::Pawn(color) => color,
        }
    }
}

} // verus!
