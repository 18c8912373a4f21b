use vstd::prelude::*;

verus! {

/// Why a move was refused, or how the game ended; each carries a message for the player.
#[derive(Debug)]
pub enum Error {
    InvalidMove(String),
    InvalidDestination(String),
    InvalidSource(String),
    KingUnderCheck(String),
    Checkmate(String),
    InvalidPromotion(String),
    GameOver(String),
    DrawOffer(String),
    DrawRejected,
    Dummy,
}

/// The kind of refusal that the move pipeline reports, without its message.
#[derive(PartialEq, Eq, Structural, Debug, Copy, Clone)]
pub enum Fault {
    InvalidMove,
    InvalidDestination,
    InvalidSource,
    KingUnderCheck,
    InvalidPromotion,
}

/// True when `e` is the error variant that corresponds to `f`.
pub open spec fn reports(e: Error, f: Fault) -> bool {
    match f {
        Fault::InvalidMove => e is InvalidMove,
        Fault::InvalidDestination => e is InvalidDestination,
        Fault::InvalidSource => e is InvalidSource,
        Fault::KingUnderCheck => e is KingUnderCheck,
        Fault::InvalidPromotion => e is InvalidPromotion,
    }
}

} // verus!
