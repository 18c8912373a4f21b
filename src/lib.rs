use vstd::prelude::*;

pub mod board;
pub mod chess;
pub mod error;
pub mod laws;
pub mod piece;
pub mod player;
pub mod rules;
pub mod square;

verus! {

} // verus!
