use vstd::prelude::*;
use crate::piece::Piece;

verus! {

/// What a move does besides taking a piece from one square to another.
#[derive(Clone, Copy, Debug, PartialEq, Eq, Structural)]
pub enum MoveFlag {
    PromoteToQueenAndCapture,
    PromoteToRookAndCapture,
    PromoteToBishopAndCapture,
    PromoteToKnightAndCapture,
    PromoteToQueen,
    PromoteToRook,
    PromoteToBishop,
    PromoteToKnight,
    Capture,
    EnPassantCapture,
    Castling,
    DoublePawnPush,
    Normal,
    /// The flag of a placeholder that stands for no move.
    NoMove,
}

/// A move: the square left, the square reached, and the flag that says
/// which side effects the move has.
#[derive(Clone, Copy, Debug, PartialEq, Eq, Structural)]
pub struct PieceMove {
    pub from: u8,
    pub to: u8,
    pub flag: MoveFlag,
}

impl MoveFlag {
    /// The piece that a promoting pawn turns into.
    pub open spec fn promotion(self) -> Option<Piece> {
        match self {
            MoveFlag::PromoteToQueen | MoveFlag::PromoteToQueenAndCapture => Some(Piece::Queen),
            MoveFlag::PromoteToRook | MoveFlag::PromoteToRookAndCapture => Some(Piece::Rook),
            MoveFlag::PromoteToBishop | MoveFlag::PromoteToBishopAndCapture => Some(
                Piece::Bishop,
            ),
            MoveFlag::PromoteToKnight | MoveFlag::PromoteToKnightAndCapture => Some(
                Piece::Knight,
            ),
            _ => None,
        }
    }

    /// Whether the move takes the piece that stands on its target square.
    pub open spec fn takes_target(self) -> bool {
        match self {
            MoveFlag::Capture
            | MoveFlag::PromoteToQueenAndCapture
            | MoveFlag::PromoteToRookAndCapture
            | MoveFlag::PromoteToBishopAndCapture
            | MoveFlag::PromoteToKnightAndCapture => true,
            _ => false,
        }
    }
}

} // verus!
