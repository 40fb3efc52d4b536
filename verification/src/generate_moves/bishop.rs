use vstd::prelude::*;
use crate::bits::{bit_at, lemma_lowest, lemma_no_bits, lemma_pop_lowest};
use crate::board::Board;
use crate::move_lists::{bishop_from, bishop_list, bishop_pick, gather, lemma_gather_skip};
use crate::piece::Color;
use crate::piece_move::PieceMove;
use crate::rules::{lemma_one_direction, slide_move, diagonal_move};

verus! {

impl Board {
    /// The moves of the bishops of `us` that stand on the squares of
    /// `bishop_pos`: from each square, lowest first, the slides along its two diagonals.
    pub(crate) fn generate_bishop_moves(&self, bishop_pos: u64, us: Color) -> (moves: Vec<PieceMove>)
        ensures
            moves@ == bishop_list(self.pieces@, us, bishop_pos),
            moves@.no_duplicates(),
            forall|m: PieceMove| #[trigger]
                moves@.contains(m) <==> (bit_at(bishop_pos, m.from as int) && diagonal_move(
                    self.pieces@,
                    us,
                    m,
                )),
    {
        let mut moves: Vec<PieceMove> = Vec::with_capacity(16);
        let mut left = bishop_pos;
        let ghost mut done: int = 0;
        let ghost pick = bishop_pick(self.pieces@, us, bishop_pos);
        while left != 0
            invariant
                0 <= done <= 64,
                pick == bishop_pick(self.pieces@, us, bishop_pos),
                forall|sq: int| bit_at(left, sq) <==> (bit_at(bishop_pos, sq) && sq >= done),
                moves@ == gather(done, pick),
                moves@.no_duplicates(),
                forall|sq: int| bit_at(left, sq) ==> bit_at(bishop_pos, sq),
                forall|m: PieceMove| #[trigger]
                    moves@.contains(m) <==> (bit_at(bishop_pos, m.from as int) && !bit_at(
                        left,
                        m.from as int,
                    ) && diagonal_move(self.pieces@, us, m)),
            decreases left,
        {
            proof {
                lemma_lowest(left);
            }
            let from = left.trailing_zeros() as u8;
            let ghost left_before = left;
            let ghost listed = moves@;
            self.push_slides(&mut moves, from, -1, -1, us);
            proof {
                assert forall|m: PieceMove| #[trigger] moves@.contains(m) implies !(m.from == from
                    && slide_move(self.pieces@, us, 1, -1, m)) by {
                    if m.from == from && slide_move(self.pieces@, us, 1, -1, m) {
                        if slide_move(self.pieces@, us, -1, -1, m) {
                            lemma_one_direction(self.pieces@, us, -1, -1, 1, -1, m);
                        }
                    }
                }
            }
            self.push_slides(&mut moves, from, 1, -1, us);
            proof {
                assert forall|m: PieceMove| #[trigger] moves@.contains(m) implies !(m.from == from
                    && slide_move(self.pieces@, us, -1, 1, m)) by {
                    if m.from == from && slide_move(self.pieces@, us, -1, 1, m) {
                        if slide_move(self.pieces@, us, -1, -1, m) {
                            lemma_one_direction(self.pieces@, us, -1, -1, -1, 1, m);
                        }
                        if slide_move(self.pieces@, us, 1, -1, m) {
                            lemma_one_direction(self.pieces@, us, 1, -1, -1, 1, m);
                        }
                    }
                }
            }
            self.push_slides(&mut moves, from, -1, 1, us);
            proof {
                assert forall|m: PieceMove| #[trigger] moves@.contains(m) implies !(m.from == from
                    && slide_move(self.pieces@, us, 1, 1, m)) by {
                    if m.from == from && slide_move(self.pieces@, us, 1, 1, m) {
                        if slide_move(self.pieces@, us, -1, -1, m) {
                            lemma_one_direction(self.pieces@, us, -1, -1, 1, 1, m);
                        }
                        if slide_move(self.pieces@, us, 1, -1, m) {
                            lemma_one_direction(self.pieces@, us, 1, -1, 1, 1, m);
                        }
                        if slide_move(self.pieces@, us, -1, 1, m) {
                            lemma_one_direction(self.pieces@, us, -1, 1, 1, 1, m);
                        }
                    }
                }
            }
            self.push_slides(&mut moves, from, 1, 1, us);
            left &= left - 1;
            proof {
                lemma_gather_skip(done, from as int, pick);
                assert(pick(from as int) == bishop_from(self.pieces@, us, from));
                assert(moves@ =~= listed + bishop_from(self.pieces@, us, from));
                assert forall|sq: int| bit_at(left, sq) <==> (bit_at(bishop_pos, sq) && sq >= from
                    + 1) by {
                    if 0 <= sq < 64 {
                        lemma_pop_lowest(left_before, sq);
                    }
                }
                done = from + 1;
                lemma_pop_lowest(left_before, 0);
                assert forall|sq: int| bit_at(left, sq) implies bit_at(bishop_pos, sq) by {
                    lemma_pop_lowest(left_before, sq);
                }
                assert forall|m: PieceMove| #[trigger]
                    moves@.contains(m) <==> (bit_at(bishop_pos, m.from as int) && !bit_at(
                        left,
                        m.from as int,
                    ) && diagonal_move(self.pieces@, us, m)) by {
                    if 0 <= m.from < 64 {
                        lemma_pop_lowest(left_before, m.from as int);
                    }
                }
            }
        }
        proof {
            lemma_no_bits();
            lemma_gather_skip(done, 64, pick);
        }
        moves
    }

    /// The moves of White's bishops on the squares of `bishop_pos`.
    pub(crate) fn generate_bishop_moves_white(&self, bishop_pos: u64) -> (moves: Vec<PieceMove>)
        ensures
            moves@ == bishop_list(self.pieces@, Color::White, bishop_pos),
            moves@.no_duplicates(),
            forall|m: PieceMove| #[trigger]
                moves@.contains(m) <==> (bit_at(bishop_pos, m.from as int) && diagonal_move(
                    self.pieces@,
                    Color::White,
                    m,
                )),
    {
        self.generate_bishop_moves(bishop_pos, Color::White)
    }

    /// The moves of Black's bishops on the squares of `bishop_pos`.
    pub(crate) fn generate_bishop_moves_black(&self, bishop_pos: u64) -> (moves: Vec<PieceMove>)
        ensures
            moves@ == bishop_list(self.pieces@, Color::Black, bishop_pos),
            moves@.no_duplicates(),
            forall|m: PieceMove| #[trigger]
                moves@.contains(m) <==> (bit_at(bishop_pos, m.from as int) && diagonal_move(
                    self.pieces@,
                    Color::Black,
                    m,
                )),
    {
        self.generate_bishop_moves(bishop_pos, Color::Black)
    }
}

} // verus!
