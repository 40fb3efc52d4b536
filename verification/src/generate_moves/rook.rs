use vstd::prelude::*;
use crate::bits::{bit_at, lemma_lowest, lemma_no_bits, lemma_pop_lowest};
use crate::board::Board;
use crate::move_lists::{rook_from, rook_list, rook_pick, gather, lemma_gather_skip};
use crate::piece::Color;
use crate::piece_move::PieceMove;
use crate::rules::{lemma_one_direction, slide_move, straight_move};

verus! {

impl Board {
    /// The moves of the rooks of `us` that stand on the squares of
    /// `rook_pos`: from each square, lowest first, the slides along its rank and its file.
    pub(crate) fn generate_rook_moves(&self, rook_pos: u64, us: Color) -> (moves: Vec<PieceMove>)
        ensures
            moves@ == rook_list(self.pieces@, us, rook_pos),
            moves@.no_duplicates(),
            forall|m: PieceMove| #[trigger]
                moves@.contains(m) <==> (bit_at(rook_pos, m.from as int) && straight_move(
                    self.pieces@,
                    us,
                    m,
                )),
    {
        let mut moves: Vec<PieceMove> = Vec::with_capacity(16);
        let mut left = rook_pos;
        let ghost mut done: int = 0;
        let ghost pick = rook_pick(self.pieces@, us, rook_pos);
        while left != 0
            invariant
                0 <= done <= 64,
                pick == rook_pick(self.pieces@, us, rook_pos),
                forall|sq: int| bit_at(left, sq) <==> (bit_at(rook_pos, sq) && sq >= done),
                moves@ == gather(done, pick),
                moves@.no_duplicates(),
                forall|sq: int| bit_at(left, sq) ==> bit_at(rook_pos, sq),
                forall|m: PieceMove| #[trigger]
                    moves@.contains(m) <==> (bit_at(rook_pos, m.from as int) && !bit_at(
                        left,
                        m.from as int,
                    ) && straight_move(self.pieces@, us, m)),
            decreases left,
        {
            proof {
                lemma_lowest(left);
            }
            let from = left.trailing_zeros() as u8;
            let ghost left_before = left;
            let ghost listed = moves@;
            self.push_slides(&mut moves, from, 0, -1, us);
            proof {
                assert forall|m: PieceMove| #[trigger] moves@.contains(m) implies !(m.from == from
                    && slide_move(self.pieces@, us, 0, 1, m)) by {
                    if m.from == from && slide_move(self.pieces@, us, 0, 1, m) {
                        if slide_move(self.pieces@, us, 0, -1, m) {
                            lemma_one_direction(self.pieces@, us, 0, -1, 0, 1, m);
                        }
                    }
                }
            }
            self.push_slides(&mut moves, from, 0, 1, us);
            proof {
                assert forall|m: PieceMove| #[trigger] moves@.contains(m) implies !(m.from == from
                    && slide_move(self.pieces@, us, -1, 0, m)) by {
                    if m.from == from && slide_move(self.pieces@, us, -1, 0, m) {
                        if slide_move(self.pieces@, us, 0, -1, m) {
                            lemma_one_direction(self.pieces@, us, 0, -1, -1, 0, m);
                        }
                        if slide_move(self.pieces@, us, 0, 1, m) {
                            lemma_one_direction(self.pieces@, us, 0, 1, -1, 0, m);
                        }
                    }
                }
            }
            self.push_slides(&mut moves, from, -1, 0, us);
            proof {
                assert forall|m: PieceMove| #[trigger] moves@.contains(m) implies !(m.from == from
                    && slide_move(self.pieces@, us, 1, 0, m)) by {
                    if m.from == from && slide_move(self.pieces@, us, 1, 0, m) {
                        if slide_move(self.pieces@, us, 0, -1, m) {
                            lemma_one_direction(self.pieces@, us, 0, -1, 1, 0, m);
                        }
                        if slide_move(self.pieces@, us, 0, 1, m) {
                            lemma_one_direction(self.pieces@, us, 0, 1, 1, 0, m);
                        }
                        if slide_move(self.pieces@, us, -1, 0, m) {
                            lemma_one_direction(self.pieces@, us, -1, 0, 1, 0, m);
                        }
                    }
                }
            }
            self.push_slides(&mut moves, from, 1, 0, us);
            left &= left - 1;
            proof {
                lemma_gather_skip(done, from as int, pick);
                assert(pick(from as int) == rook_from(self.pieces@, us, from));
                assert(moves@ =~= listed + rook_from(self.pieces@, us, from));
                assert forall|sq: int| bit_at(left, sq) <==> (bit_at(rook_pos, sq) && sq >= from
                    + 1) by {
                    if 0 <= sq < 64 {
                        lemma_pop_lowest(left_before, sq);
                    }
                }
                done = from + 1;
                lemma_pop_lowest(left_before, 0);
                assert forall|sq: int| bit_at(left, sq) implies bit_at(rook_pos, sq) by {
                    lemma_pop_lowest(left_before, sq);
                }
                assert forall|m: PieceMove| #[trigger]
                    moves@.contains(m) <==> (bit_at(rook_pos, m.from as int) && !bit_at(
                        left,
                        m.from as int,
                    ) && straight_move(self.pieces@, us, m)) by {
                    if 0 <= m.from < 64 {
                        lemma_pop_lowest(left_before, m.from as int);
                    }
                }
            }
        }
        proof {
            lemma_no_bits();
            lemma_gather_skip(done, 64, pick);
        }
        moves
    }

    /// The moves of White's rooks on the squares of `rook_pos`.
    pub(crate) fn generate_rook_moves_white(&self, rook_pos: u64) -> (moves: Vec<PieceMove>)
        ensures
            moves@ == rook_list(self.pieces@, Color::White, rook_pos),
            moves@.no_duplicates(),
            forall|m: PieceMove| #[trigger]
                moves@.contains(m) <==> (bit_at(rook_pos, m.from as int) && straight_move(
                    self.pieces@,
                    Color::White,
                    m,
                )),
    {
        self.generate_rook_moves(rook_pos, Color::White)
    }

    /// The moves of Black's rooks on the squares of `rook_pos`.
    pub(crate) fn generate_rook_moves_black(&self, rook_pos: u64) -> (moves: Vec<PieceMove>)
        ensures
            moves@ == rook_list(self.pieces@, Color::Black, rook_pos),
            moves@.no_duplicates(),
            forall|m: PieceMove| #[trigger]
                moves@.contains(m) <==> (bit_at(rook_pos, m.from as int) && straight_move(
                    self.pieces@,
                    Color::Black,
                    m,
                )),
    {
        self.generate_rook_moves(rook_pos, Color::Black)
    }
}

} // verus!
