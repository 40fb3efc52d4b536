use vstd::prelude::*;
use crate::bits::bit_at;
use crate::board::Board;
use crate::generate_moves::{lemma_append_contains, lemma_append_no_duplicates};
use crate::move_lists::queen_list;
use crate::piece::Color;
use crate::piece_move::PieceMove;
use crate::rules::{diagonal_move, lemma_straight_not_diagonal, straight_move};

verus! {

impl Board {
    /// The moves of White's queens on the squares of `queen_pos`: those
    /// of a rook, then those of a bishop.
    pub(crate) fn generate_queen_moves_white(&self, queen_pos: u64) -> (moves: Vec<PieceMove>)
        ensures
            moves@ == queen_list(self.pieces@, Color::White, queen_pos),
            moves@.no_duplicates(),
            forall|m: PieceMove| #[trigger]
                moves@.contains(m) <==> (bit_at(queen_pos, m.from as int) && (straight_move(
                    self.pieces@,
                    Color::White,
                    m,
                ) || diagonal_move(self.pieces@, Color::White, m))),
    {
        let mut rook_moves = self.generate_rook_moves_white(queen_pos);
        let mut bishop_moves = self.generate_bishop_moves_white(queen_pos);
        proof {
            lemma_append_contains(rook_moves@, bishop_moves@);
            assert forall|m: PieceMove| rook_moves@.contains(m) implies !bishop_moves@.contains(
                m,
            ) by {
                lemma_straight_not_diagonal(self.pieces@, Color::White, m);
            }
            lemma_append_no_duplicates(rook_moves@, bishop_moves@);
        }
        rook_moves.append(&mut bishop_moves);
        rook_moves
    }

    /// The moves of Black's queens on the squares of `queen_pos`: those
    /// of a rook, then those of a bishop.
    pub(crate) fn generate_queen_moves_black(&self, queen_pos: u64) -> (moves: Vec<PieceMove>)
        ensures
            moves@ == queen_list(self.pieces@, Color::Black, queen_pos),
            moves@.no_duplicates(),
            forall|m: PieceMove| #[trigger]
                moves@.contains(m) <==> (bit_at(queen_pos, m.from as int) && (straight_move(
                    self.pieces@,
                    Color::Black,
                    m,
                ) || diagonal_move(self.pieces@, Color::Black, m))),
    {
        let mut rook_moves = self.generate_rook_moves_black(queen_pos);
        let mut bishop_moves = self.generate_bishop_moves_black(queen_pos);
        proof {
            lemma_append_contains(rook_moves@, bishop_moves@);
            assert forall|m: PieceMove| rook_moves@.contains(m) implies !bishop_moves@.contains(
                m,
            ) by {
                lemma_straight_not_diagonal(self.pieces@, Color::Black, m);
            }
            lemma_append_no_duplicates(rook_moves@, bishop_moves@);
        }
        rook_moves.append(&mut bishop_moves);
        rook_moves
    }
}

} // verus!
