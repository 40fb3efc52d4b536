use vstd::prelude::*;
use crate::attack_tables::{lemma_knight_table, KNIGHT_ATTACK};
use crate::bits::{bit_at, lemma_lowest, lemma_no_bits, lemma_pop_lowest};
use crate::board::Board;
use crate::move_lists::{gather, knight_list, knight_pick, lemma_gather_skip, step_list};
use crate::piece::Color;
use crate::piece_move::PieceMove;
use crate::rules::knight_move;

verus! {

impl Board {
    /// The moves of the knights of `us` that stand on the squares of
    /// `knight_pos`: from each square, lowest first, the captures, then
    /// the quiet moves.
    pub(crate) fn generate_knight_moves(&self, knight_pos: u64, us: Color) -> (moves: Vec<
        PieceMove,
    >)
        requires
            self.placement_wf(),
        ensures
            moves@ == knight_list(self.pieces@, us, knight_pos),
            moves@.no_duplicates(),
            forall|m: PieceMove| #[trigger]
                moves@.contains(m) <==> (bit_at(knight_pos, m.from as int) && knight_move(
                    self.pieces@,
                    us,
                    m,
                )),
    {
        let mut moves: Vec<PieceMove> = Vec::with_capacity(16);
        let mut left = knight_pos;
        let ghost mut done: int = 0;
        let ghost pick = knight_pick(self.pieces@, us, knight_pos);
        while left != 0
            invariant
                0 <= done <= 64,
                pick == knight_pick(self.pieces@, us, knight_pos),
                forall|sq: int| bit_at(left, sq) <==> (bit_at(knight_pos, sq) && sq >= done),
                moves@ == gather(done, pick),
                self.placement_wf(),
                moves@.no_duplicates(),
                forall|sq: int| bit_at(left, sq) ==> bit_at(knight_pos, sq),
                forall|m: PieceMove| #[trigger]
                    moves@.contains(m) <==> (bit_at(knight_pos, m.from as int) && !bit_at(
                        left,
                        m.from as int,
                    ) && knight_move(self.pieces@, us, m)),
            decreases left,
        {
            proof {
                lemma_lowest(left);
            }
            let idx = left.trailing_zeros() as u8;
            let ghost left_before = left;
            let ghost listed = moves@;
            self.push_steps(&mut moves, idx, KNIGHT_ATTACK[idx as usize], us);
            left &= left - 1;
            proof {
                lemma_gather_skip(done, idx as int, pick);
                assert(pick(idx as int) == step_list(
                    self.pieces@,
                    us,
                    idx,
                    KNIGHT_ATTACK[idx as int],
                ));
                assert(moves@ =~= gather(idx + 1, pick));
                assert forall|sq: int| bit_at(left, sq) <==> (bit_at(knight_pos, sq) && sq >= idx
                    + 1) by {
                    if 0 <= sq < 64 {
                        lemma_pop_lowest(left_before, sq);
                    }
                }
                done = idx + 1;
                lemma_pop_lowest(left_before, 0);
                assert forall|sq: int| bit_at(left, sq) implies bit_at(knight_pos, sq) by {
                    lemma_pop_lowest(left_before, sq);
                }
                assert forall|m: PieceMove| #[trigger]
                    moves@.contains(m) <==> (bit_at(knight_pos, m.from as int) && !bit_at(
                        left,
                        m.from as int,
                    ) && knight_move(self.pieces@, us, m)) by {
                    if 0 <= m.from < 64 {
                        lemma_pop_lowest(left_before, m.from as int);
                    }
                    if 0 <= m.to < 64 {
                        lemma_knight_table(idx as int, m.to as int);
                    }
                }
            }
        }
        proof {
            lemma_no_bits();
            lemma_gather_skip(done, 64, pick);
        }
        moves
    }

    /// The moves of White's knights on the squares of `knight_pos`.
    pub(crate) fn generate_knight_moves_white(&self, knight_pos: u64) -> (moves: Vec<PieceMove>)
        requires
            self.placement_wf(),
        ensures
            moves@ == knight_list(self.pieces@, Color::White, knight_pos),
            moves@.no_duplicates(),
            forall|m: PieceMove| #[trigger]
                moves@.contains(m) <==> (bit_at(knight_pos, m.from as int) && knight_move(
                    self.pieces@,
                    Color::White,
                    m,
                )),
    {
        self.generate_knight_moves(knight_pos, Color::White)
    }

    /// The moves of Black's knights on the squares of `knight_pos`.
    pub(crate) fn generate_knight_moves_black(&self, knight_pos: u64) -> (moves: Vec<PieceMove>)
        requires
            self.placement_wf(),
        ensures
            moves@ == knight_list(self.pieces@, Color::Black, knight_pos),
            moves@.no_duplicates(),
            forall|m: PieceMove| #[trigger]
                moves@.contains(m) <==> (bit_at(knight_pos, m.from as int) && knight_move(
                    self.pieces@,
                    Color::Black,
                    m,
                )),
    {
        self.generate_knight_moves(knight_pos, Color::Black)
    }
}

} // verus!
