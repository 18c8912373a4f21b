use vstd::prelude::*;

use crate::piece::Piece;

verus! {

/// One square of the board: either empty or holding a single piece.
#[derive(Debug, Copy, Clone)]
pub struct Square {
    pub piece: Option<Piece>,
}

impl Square {
    pub fn new(piece: Option<Piece>) -> (r: Self)
        ensures
            r.piece == piece,
    {
        Square { piece }
    }

    pub fn get_piece(&self) -> (r: &Option<Piece>)
        ensures
            *r == self.piece,
    {
        &self.piece
    }

    pub fn place_piece(&mut self, piece: Piece)
        ensures
            final(self).piece == Some(piece),
    {
        self.piece = Some(piece);
    }

    pub fn remove_piece(&mut self)
        ensures
            final(self).piece.is_none(),
    {
        self.piece = None;
    }
}

} // verus!
