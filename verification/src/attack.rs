use vstd::prelude::*;
use crate::attack_tables::{
    king_step, knight_step, lemma_king_table, lemma_knight_table, KING_ATTACK, KNIGHT_ATTACK,
};
use crate::bits::{
    bit_at, lemma_common_square, lemma_lowest, lemma_not_empty, lemma_shared_square,
    lemma_single_bit, lowest,
};
use crate::board::Board;
use crate::piece::{Color, Piece, PieceColor};
use crate::position::{file_of, rank_of};
use crate::rules::{
    attacked_by, first_piece, has_king, king_attacks, king_square, knight_attacks, pawn_attacks,
    ray_room, slider_attacks,
};

verus! {

impl Board {
    /// The bitboard of the piece `piece` of the colour `color`.
    pub fn piece_bitboard(&self, piece: Piece, color: Color) -> (bits: u64)
        ensures
            bits == self.bb(piece, color),
    {
        self.bitboard[piece.idx()][color.idx()]
    }

    /// Whether a bishop, rook or queen of `by` attacks the square `idx`
    /// from the direction `(dr, df)`.
    fn ray_attacked(&self, idx: u8, dr: i32, df: i32, by: Color) -> (hit: bool)
        requires
            idx < 64,
            -1 <= dr <= 1,
            -1 <= df <= 1,
        ensures
            hit == slider_attacks(self.pieces@, idx as int, by, dr as int, df as int),
    {
        let x = (idx / 8) as i32;
        let y = (idx % 8) as i32;
        let mut rank: i32 = x + dr;
        let mut file: i32 = y + df;
        if dr == 0 && df == 0 {
            return false;
        }
        while 0 <= rank && rank < 8 && 0 <= file && file < 8
            invariant
                x == rank_of(idx as int),
                y == file_of(idx as int),
                -1 <= rank <= 8,
                -1 <= file <= 8,
                -1 <= dr <= 1,
                -1 <= df <= 1,
                !(dr == 0 && df == 0),
                first_piece(self.pieces@, x + dr, y + df, dr as int, df as int) == first_piece(
                    self.pieces@,
                    rank as int,
                    file as int,
                    dr as int,
                    df as int,
                ),
            decreases ray_room(rank as int, file as int, dr as int, df as int),
        {
            let to = (rank * 8 + file) as usize;
            let found = self.pieces[to];
            if found != PieceColor::Empty {
                let slider = if dr == 0 || df == 0 {
                    Piece::Rook
                } else {
                    Piece::Bishop
                };
                return found == PieceColor::new(Piece::Queen, by) || found == PieceColor::new(
                    slider,
                    by,
                );
            }
            rank += dr;
            file += df;
        }
        false
    }

    /// Whether a knight of `by` attacks the square `idx`.
    fn knight_attacked(&self, idx: u8, by: Color) -> (hit: bool)
        requires
            self.placement_wf(),
            idx < 64,
        ensures
            hit == knight_attacks(self.pieces@, idx as int, by),
    {
        let knights = self.piece_bitboard(Piece::Knight, by);
        let reach = KNIGHT_ATTACK[idx as usize];
        proof {
            if reach & knights != 0 {
                lemma_common_square(reach, knights);
                let a = lowest(reach & knights);
                lemma_knight_table(idx as int, a);
                assert(self.pieces@[a] == PieceColor::of(Piece::Knight, by));
                assert(knight_step(a, idx as int));
            }
            if knight_attacks(self.pieces@, idx as int, by) {
                let a = choose|a: int|
                    0 <= a < 64 && #[trigger] self.pieces@[a] == PieceColor::of(Piece::Knight, by)
                        && knight_step(a, idx as int);
                lemma_knight_table(idx as int, a);
                assert(bit_at(self.bb(Piece::Knight, by), a));
                lemma_shared_square(reach, knights, a);
            }
        }
        reach & knights > 0
    }

    /// Whether a king of `by` attacks the square `idx`.
    fn king_attacked(&self, idx: u8, by: Color) -> (hit: bool)
        requires
            self.placement_wf(),
            idx < 64,
        ensures
            hit == king_attacks(self.pieces@, idx as int, by),
    {
        let kings = self.piece_bitboard(Piece::King, by);
        let reach = KING_ATTACK[idx as usize];
        proof {
            if reach & kings != 0 {
                lemma_common_square(reach, kings);
                let a = lowest(reach & kings);
                lemma_king_table(idx as int, a);
                assert(self.pieces@[a] == PieceColor::of(Piece::King, by));
                assert(king_step(a, idx as int));
            }
            if king_attacks(self.pieces@, idx as int, by) {
                let a = choose|a: int|
                    0 <= a < 64 && #[trigger] self.pieces@[a] == PieceColor::of(Piece::King, by)
                        && king_step(a, idx as int);
                lemma_king_table(idx as int, a);
                assert(bit_at(self.bb(Piece::King, by), a));
                lemma_shared_square(reach, kings, a);
            }
        }
        reach & kings > 0
    }

    /// Whether a pawn of `by` attacks the square `idx`.
    fn pawn_attacked(&self, idx: u8, by: Color) -> (hit: bool)
        requires
            self.placement_wf(),
            idx < 64,
        ensures
            hit == pawn_attacks(self.pieces@, idx as int, by),
    {
        let x = idx / 8;
        let y = idx % 8;
        let pawns = self.piece_bitboard(Piece::Pawn, by);
        proof {
            assert(forall|sq: int|
                0 <= sq < 64 ==> (#[trigger] bit_at(self.bb(Piece::Pawn, by), sq) <==> self.pieces[sq]
                    == PieceColor::of(Piece::Pawn, by)));
            if 0 <= idx + 7 < 64 {
                lemma_single_bit(pawns, idx + 7, 0);
            }
            if 0 <= idx + 9 < 64 {
                lemma_single_bit(pawns, idx + 9, 0);
            }
            if 0 <= idx - 7 < 64 {
                lemma_single_bit(pawns, idx - 7, 0);
            }
            if 0 <= idx - 9 < 64 {
                lemma_single_bit(pawns, idx - 9, 0);
            }
        }
        match by {
            Color::Black => x < 7 && ((y != 0 && pawns & (1u64 << ((idx + 7) as u64)) > 0) || (y
                != 7 && pawns & (1u64 << ((idx + 9) as u64)) > 0)),
            Color::White => x > 0 && ((y != 7 && pawns & (1u64 << ((idx - 7) as u64)) > 0) || (y
                != 0 && pawns & (1u64 << ((idx - 9) as u64)) > 0)),
        }
    }

    /// Whether some piece of `by` attacks the square `idx`: a bishop or
    /// queen along a diagonal, a rook or queen along a rank or file, a
    /// knight, a pawn, or a king.
    pub fn is_attacked_by(&self, idx: u8, by: Color) -> (hit: bool)
        requires
            self.placement_wf(),
            idx < 64,
        ensures
            hit == attacked_by(self.pieces@, idx as int, by),
    {
        self.ray_attacked(idx, -1, -1, by) || self.ray_attacked(idx, 1, -1, by)
            || self.ray_attacked(idx, -1, 1, by) || self.ray_attacked(idx, 1, 1, by)
            || self.ray_attacked(idx, -1, 0, by) || self.ray_attacked(idx, 1, 0, by)
            || self.ray_attacked(idx, 0, -1, by) || self.ray_attacked(idx, 0, 1, by)
            || self.knight_attacked(idx, by) || self.pawn_attacked(idx, by) || self.king_attacked(
            idx,
            by,
        )
    }

    /// Whether the player to move attacks the square `idx`.
    pub fn is_tile_attacked(&self, idx: u8) -> (hit: bool)
        requires
            self.placement_wf(),
            idx < 64,
        ensures
            hit == attacked_by(self@.squares, idx as int, self@.side),
    {
        self.is_attacked_by(idx, self.side_to_move)
    }

    /// The square of the king of `color`.
    pub fn king_index(&self, color: Color) -> (idx: u8)
        requires
            self.placement_wf(),
            self@.kings_ok(),
            has_king(self@.squares, color),
        ensures
            idx < 64,
            idx == king_square(self@.squares, color),
            self@.squares[idx as int] == PieceColor::of(Piece::King, color),
    {
        let kings = self.piece_bitboard(Piece::King, color);
        proof {
            let k = king_square(self@.squares, color);
            assert(bit_at(self.bb(Piece::King, color), k));
            lemma_not_empty(kings, k);
            lemma_lowest(kings);
            assert(self.pieces[lowest(kings)] == PieceColor::of(Piece::King, color));
        }
        kings.trailing_zeros() as u8
    }

    /// Whether the king of the player to move is attacked.
    pub fn is_checked(&mut self) -> (checked: bool)
        requires
            old(self).wf(),
            has_king(old(self)@.squares, old(self)@.side),
        ensures
            checked == old(self)@.in_check(),
            *final(self) == *old(self),
    {
        let king_idx = self.king_index(self.side_to_move);
        self.side_to_move = self.side_to_move.get_opposite();
        proof {
            old(self).lemma_same_placement(self);
        }
        let ans = self.is_tile_attacked(king_idx);
        self.side_to_move = self.side_to_move.get_opposite();
        ans
    }
}

} // verus!
