use vstd::prelude::*;
use crate::piece::Piece;

verus! {

/// The castling-rights bit of White's short castling (rook on h1).
pub const WHITE_KINGSIDE: u8 = 1;

/// The castling-rights bit of White's long castling (rook on a1).
pub const WHITE_QUEENSIDE: u8 = 2;

/// The castling-rights bit of Black's short castling (rook on h8).
pub const BLACK_KINGSIDE: u8 = 4;

/// The castling-rights bit of Black's long castling (rook on a8).
pub const BLACK_QUEENSIDE: u8 = 8;

/// For each square, the castling rights that survive a move from or to
/// it: leaving or reaching a king's or a rook's home square ends the
/// rights that need that piece there.
pub const CASTLING_RIGHTS_UPDATE: [u8; 64] = [
    0b1101, 0b1111, 0b1111, 0b1111, 0b1100, 0b1111, 0b1111, 0b1110,
    0b1111, 0b1111, 0b1111, 0b1111, 0b1111, 0b1111, 0b1111, 0b1111,
    0b1111, 0b1111, 0b1111, 0b1111, 0b1111, 0b1111, 0b1111, 0b1111,
    0b1111, 0b1111, 0b1111, 0b1111, 0b1111, 0b1111, 0b1111, 0b1111,
    0b1111, 0b1111, 0b1111, 0b1111, 0b1111, 0b1111, 0b1111, 0b1111,
    0b1111, 0b1111, 0b1111, 0b1111, 0b1111, 0b1111, 0b1111, 0b1111,
    0b1111, 0b1111, 0b1111, 0b1111, 0b1111, 0b1111, 0b1111, 0b1111,
    0b0111, 0b1111, 0b1111, 0b1111, 0b0011, 0b1111, 0b1111, 0b1011,
];

/// The part of a position that a move cannot be undone without: the
/// castling rights, the en-passant target, and the kind of the piece
/// captured last.
#[derive(Clone, Copy, Debug)]
pub struct BoardState {
    /// The castling rights still held, one bit each.
    pub castle_rights: u8,
    /// The square that a pawn skipped with the double push just made.
    pub en_passant: Option<u8>,
    /// The kind of the piece captured last.
    pub captured_piece_type: Option<Piece>,
}

/// Whether `rights` holds the right of the bit `bit`.
pub open spec fn has_right(rights: u8, bit: u8) -> bool {
    rights & bit != 0
}

impl BoardState {
    /// The state of a game not yet begun: all four castling rights, no
    /// en-passant target, nothing captured.
    pub fn new() -> (r: BoardState)
        ensures
            r.castle_rights == 0x0F,
            r.en_passant is None,
            r.captured_piece_type is None,
    {
        BoardState { castle_rights: 0x0F, en_passant: None, captured_piece_type: None }
    }

    pub fn white_kingside(&self) -> (r: bool)
        ensures
            r == has_right(self.castle_rights, WHITE_KINGSIDE),
    {
        self.castle_rights & WHITE_KINGSIDE != 0
    }

    pub fn white_queenside(&self) -> (r: bool)
        ensures
            r == has_right(self.castle_rights, WHITE_QUEENSIDE),
    {
        self.castle_rights & WHITE_QUEENSIDE != 0
    }

    pub fn black_kingside(&self) -> (r: bool)
        ensures
            r == has_right(self.castle_rights, BLACK_KINGSIDE),
    {
        self.castle_rights & BLACK_KINGSIDE != 0
    }

    pub fn black_queenside(&self) -> (r: bool)
        ensures
            r == has_right(self.castle_rights, BLACK_QUEENSIDE),
    {
        self.castle_rights & BLACK_QUEENSIDE != 0
    }
}

} // verus!
