use vstd::prelude::*;
use crate::bits::{
    bit_at, lemma_bit_ops, lemma_file_masks, lemma_lowest, lemma_no_bits, lemma_pop_lowest,
    lemma_shl, lemma_shr, lemma_single_bit, lemma_start_bitboards,
};
use crate::board::Board;
use crate::generate_moves::push_move;
use crate::move_lists::{
    gather, lemma_gather_same, lemma_gather_skip, pawn_bits_pick, pawn_list, pawn_moves_to,
    pawn_pick,
};
use crate::piece::{Color, PieceColor};
use crate::piece_move::{MoveFlag, PieceMove};
use crate::position::{file_of, forward, pawn_home, promotion_rank};
use crate::rules::pawn_move;

verus! {

/// The three ways in which a pawn moves.
#[derive(Clone, Copy, PartialEq, Eq, Structural)]
pub enum PawnStep {
    /// One square ahead.
    Push,
    /// Two squares ahead, from the home rank.
    DoublePush,
    /// One square ahead and one to the side, taking a piece.
    Capture,
}

/// Whether the flag of `m` fits a pawn of `us` that makes the step
/// `step` to `m.to`: on the last rank one of the four promotions, with
/// or without capture; elsewhere the flag of the step, which for a
/// capture onto the en-passant target is `EnPassantCapture`.
pub open spec fn pawn_flag_fits(step: PawnStep, us: Color, en_passant: Option<u8>, m: PieceMove)
    -> bool {
    match step {
        PawnStep::Push => if promotion_rank(us, m.to as int) {
            m.flag.promotion() is Some && !m.flag.takes_target()
        } else {
            m.flag == MoveFlag::Normal
        },
        PawnStep::DoublePush => m.flag == MoveFlag::DoublePawnPush,
        PawnStep::Capture => if promotion_rank(us, m.to as int) {
            m.flag.promotion() is Some && m.flag.takes_target()
        } else if en_passant == Some(m.to) {
            m.flag == MoveFlag::EnPassantCapture
        } else {
            m.flag == MoveFlag::Capture
        },
    }
}

/// How far, in squares, a pawn of `us` has come that the bitboard shift
/// by `shift` has carried to its target.
pub open spec fn signed_shift(us: Color, shift: u8) -> int {
    match us {
        Color::White => shift as int,
        Color::Black => -(shift as int),
    }
}

/// The bitboard `bits` with every square moved `shift` squares ahead,
/// as `us` advances; what leaves the board is lost.
pub fn shift_forward(bits: u64, shift: u8, us: Color) -> (moved: u64)
    requires
        shift < 64,
    ensures
        forall|sq: int|
            0 <= sq < 64 ==> #[trigger] bit_at(moved, sq) == bit_at(
                bits,
                sq - signed_shift(us, shift),
            ),
{
    proof {
        assert forall|sq: int| 0 <= sq < 64 implies #[trigger] bit_at(bits << (shift as u64), sq)
            == bit_at(bits, sq - shift) by {
            lemma_shl(bits, shift as int, sq);
        }
        assert forall|sq: int| 0 <= sq < 64 implies #[trigger] bit_at(bits >> (shift as u64), sq)
            == bit_at(bits, sq + shift) by {
            lemma_shr(bits, shift as int, sq);
        }
    }
    match us {
        Color::White => bits << (shift as u64),
        Color::Black => bits >> (shift as u64),
    }
}

/// Appends the moves of the pawns of `us` that the step `step` takes to
/// the squares of `targets`, lowest square first; `shift` is the
/// distance between a pawn's square and its target.
pub fn push_pawn_moves(
    moves: &mut Vec<PieceMove>,
    targets: u64,
    shift: u8,
    step: PawnStep,
    us: Color,
    en_passant: Option<u8>,
)
    requires
        shift < 64,
        forall|sq: int| bit_at(targets, sq) ==> 0 <= sq - signed_shift(us, shift) < 64,
        old(moves)@.no_duplicates(),
        forall|m: PieceMove| #[trigger]
            old(moves)@.contains(m) ==> m.from != m.to - signed_shift(us, shift),
    ensures
        final(moves)@ == old(moves)@ + gather(
            64,
            pawn_bits_pick(targets, signed_shift(us, shift), step, us, en_passant),
        ),
        final(moves)@.no_duplicates(),
        forall|m: PieceMove| #[trigger]
            final(moves)@.contains(m) <==> (old(moves)@.contains(m) || (bit_at(
                targets,
                m.to as int,
            ) && m.from == m.to - signed_shift(us, shift) && pawn_flag_fits(
                step,
                us,
                en_passant,
                m,
            ))),
{
    let mut left = targets;
    let ghost mut done: int = 0;
    let ghost pick = pawn_bits_pick(targets, signed_shift(us, shift), step, us, en_passant);
    assert(moves@ =~= old(moves)@ + gather(0, pick));
    while left != 0
        invariant
            0 <= done <= 64,
            pick == pawn_bits_pick(targets, signed_shift(us, shift), step, us, en_passant),
            forall|sq: int| bit_at(left, sq) <==> (bit_at(targets, sq) && sq >= done),
            moves@ == old(moves)@ + gather(done, pick),
            shift < 64,
            moves@.no_duplicates(),
            forall|m: PieceMove| #[trigger]
                old(moves)@.contains(m) ==> m.from != m.to - signed_shift(us, shift),
            forall|sq: int| bit_at(targets, sq) ==> 0 <= sq - signed_shift(us, shift) < 64,
            forall|sq: int| bit_at(left, sq) ==> bit_at(targets, sq),
            forall|m: PieceMove| #[trigger]
                moves@.contains(m) <==> (old(moves)@.contains(m) || (bit_at(targets, m.to as int)
                    && !bit_at(left, m.to as int) && m.from == m.to - signed_shift(us, shift)
                    && pawn_flag_fits(step, us, en_passant, m))),
        decreases left,
    {
        proof {
            lemma_lowest(left);
        }
        let to = left.trailing_zeros() as u8;
        let from: u8 = match us {
            Color::White => to - shift,
            Color::Black => to + shift,
        };
        let last_rank = match us {
            Color::White => to >= 56,
            Color::Black => to < 8,
        };
        let ghost left_before = left;
        let ghost listed = moves@;
        match step {
            PawnStep::Push => {
                if last_rank {
                    push_move(moves, from, to, MoveFlag::PromoteToBishop);
                    push_move(moves, from, to, MoveFlag::PromoteToKnight);
                    push_move(moves, from, to, MoveFlag::PromoteToQueen);
                    push_move(moves, from, to, MoveFlag::PromoteToRook);
                } else {
                    push_move(moves, from, to, MoveFlag::Normal);
                }
            },
            PawnStep::DoublePush => {
                push_move(moves, from, to, MoveFlag::DoublePawnPush);
            },
            PawnStep::Capture => {
                let onto_target = match en_passant {
                    Some(target) => to == target,
                    None => false,
                };
                if last_rank {
                    push_move(moves, from, to, MoveFlag::PromoteToBishopAndCapture);
                    push_move(moves, from, to, MoveFlag::PromoteToKnightAndCapture);
                    push_move(moves, from, to, MoveFlag::PromoteToQueenAndCapture);
                    push_move(moves, from, to, MoveFlag::PromoteToRookAndCapture);
                } else if onto_target {
                    push_move(moves, from, to, MoveFlag::EnPassantCapture);
                } else {
                    push_move(moves, from, to, MoveFlag::Capture);
                }
            },
        }
        left &= left - 1;
        proof {
            lemma_gather_skip(done, to as int, pick);
            assert(pick(to as int) == pawn_moves_to(step, us, en_passant, from, to));
            assert(moves@ =~= listed + pawn_moves_to(step, us, en_passant, from, to));
            assert(moves@ =~= old(moves)@ + gather(to + 1, pick));
            assert forall|sq: int| bit_at(left, sq) <==> (bit_at(targets, sq) && sq >= to + 1) by {
                if 0 <= sq < 64 {
                    lemma_pop_lowest(left_before, sq);
                }
            }
            done = to + 1;
            lemma_pop_lowest(left_before, 0);
            assert forall|sq: int| bit_at(left, sq) implies bit_at(targets, sq) by {
                lemma_pop_lowest(left_before, sq);
            }
            assert forall|m: PieceMove| #[trigger]
                moves@.contains(m) <==> (old(moves)@.contains(m) || (bit_at(targets, m.to as int)
                    && !bit_at(left, m.to as int) && m.from == m.to - signed_shift(us, shift)
                    && pawn_flag_fits(step, us, en_passant, m))) by {
                if 0 <= m.to < 64 {
                    lemma_pop_lowest(left_before, m.to as int);
                }
            }
        }
    }
    proof {
        lemma_no_bits();
        lemma_gather_skip(done, 64, pick);
    }
}

impl Board {
    /// The moves of the pawns of the player to move, `us`, that stand on
    /// the squares of `pawn_pos`: the single pushes, the double pushes,
    /// the captures towards the a-file and those towards the h-file, the
    /// en-passant captures among them; each group by target, lowest
    /// first.
    pub(crate) fn generate_pawn_moves(&self, pawn_pos: u64, us: Color) -> (moves: Vec<PieceMove>)
        requires
            self.placement_wf(),
            self@.en_passant_ok(),
            us == self.side_to_move,
        ensures
            moves@ == pawn_list(self.pieces@, us, self.board_state.en_passant, pawn_pos),
            moves@.no_duplicates(),
            forall|m: PieceMove| #[trigger]
                moves@.contains(m) <==> (bit_at(pawn_pos, m.from as int) && pawn_move(
                    self.pieces@,
                    us,
                    self.board_state.en_passant,
                    m,
                )),
    {
        let empty_tiles = self.empty_squares();
        let enemy = self.occupancy(us.get_opposite());
        let en_passant = self.board_state.en_passant;
        let mut moves: Vec<PieceMove> = Vec::with_capacity(16);
        let ep_mask: u64 = match en_passant {
            Some(idx) => 1u64 << (idx as u64),
            None => 0,
        };
        let home_rank: u64 = match us {
            Color::White => 0x0000_0000_0000_ff00,
            Color::Black => 0x00ff_0000_0000_0000,
        };
        let not_a_file: u64 = 0xfefe_fefe_fefe_fefe;
        let not_h_file: u64 = 0x7f7f_7f7f_7f7f_7f7f;
        let (towards_a, towards_h): (u8, u8) = match us {
            Color::White => (7, 9),
            Color::Black => (9, 7),
        };
        let ghost step = forward(us);
        let ghost squares = self.pieces@;

        let ahead = shift_forward(pawn_pos, 8, us);
        let single_push = ahead & empty_tiles;
        let home_ahead = shift_forward(pawn_pos & home_rank, 8, us);
        let from_home = home_ahead & empty_tiles;
        let twice_ahead = shift_forward(from_home, 8, us);
        let double_push = twice_ahead & empty_tiles;
        let takers_a = shift_forward(pawn_pos & not_a_file, towards_a, us);
        let left_attack = takers_a & (enemy | ep_mask);
        let takers_h = shift_forward(pawn_pos & not_h_file, towards_h, us);
        let right_attack = takers_h & (enemy | ep_mask);
        proof {
            lemma_no_bits();
            assert forall|sq: int| 0 <= sq < 64 implies (#[trigger] bit_at(enemy | ep_mask, sq) <==> (
            squares[sq].color() == Some(us.other()) || en_passant == Some(sq as u8))) by {
                lemma_bit_ops(enemy, ep_mask, sq);
                if let Some(idx) = en_passant {
                    lemma_single_bit(0, idx as int, sq);
                }
            }
            assert forall|sq: int| 0 <= sq < 64 implies (#[trigger] bit_at(single_push, sq) <==> (
            bit_at(pawn_pos, sq - step) && squares[sq] == PieceColor::Empty)) by {
                lemma_bit_ops(ahead, empty_tiles, sq);
            }
            assert forall|sq: int| 0 <= sq < 64 implies (#[trigger] bit_at(from_home, sq) <==> (
            bit_at(pawn_pos, sq - step) && pawn_home(us, sq - step) && squares[sq]
                == PieceColor::Empty)) by {
                lemma_bit_ops(home_ahead, empty_tiles, sq);
                if 0 <= sq - step < 64 {
                    lemma_bit_ops(pawn_pos, home_rank, sq - step);
                    lemma_start_bitboards(sq - step);
                }
            }
            assert forall|sq: int| 0 <= sq < 64 implies (#[trigger] bit_at(double_push, sq) <==> (
            bit_at(pawn_pos, sq - 2 * step) && pawn_home(us, sq - 2 * step) && squares[sq - step]
                == PieceColor::Empty && squares[sq] == PieceColor::Empty)) by {
                lemma_bit_ops(twice_ahead, empty_tiles, sq);
                if 0 <= sq - step < 64 {
                    assert(bit_at(from_home, sq - step) <==> (bit_at(pawn_pos, sq - step - step)
                        && pawn_home(us, sq - step - step) && squares[sq - step]
                        == PieceColor::Empty));
                }
            }
            assert forall|sq: int| 0 <= sq < 64 implies (#[trigger] bit_at(left_attack, sq) <==> (
            bit_at(pawn_pos, sq - (step - 1)) && file_of(sq - (step - 1)) != 0 && (
            squares[sq].color() == Some(us.other()) || en_passant == Some(sq as u8)))) by {
                lemma_bit_ops(takers_a, enemy | ep_mask, sq);
                if 0 <= sq - (step - 1) < 64 {
                    lemma_bit_ops(pawn_pos, not_a_file, sq - (step - 1));
                    lemma_file_masks(sq - (step - 1));
                }
            }
            assert forall|sq: int| 0 <= sq < 64 implies (#[trigger] bit_at(right_attack, sq) <==> (
            bit_at(pawn_pos, sq - (step + 1)) && file_of(sq - (step + 1)) != 7 && (
            squares[sq].color() == Some(us.other()) || en_passant == Some(sq as u8)))) by {
                lemma_bit_ops(takers_h, enemy | ep_mask, sq);
                if 0 <= sq - (step + 1) < 64 {
                    lemma_bit_ops(pawn_pos, not_h_file, sq - (step + 1));
                    lemma_file_masks(sq - (step + 1));
                }
            }
        }
        push_pawn_moves(&mut moves, single_push, 8, PawnStep::Push, us, en_passant);
        push_pawn_moves(&mut moves, double_push, 16, PawnStep::DoublePush, us, en_passant);
        push_pawn_moves(&mut moves, left_attack, towards_a, PawnStep::Capture, us, en_passant);
        push_pawn_moves(&mut moves, right_attack, towards_h, PawnStep::Capture, us, en_passant);
        proof {
            let pushes = pawn_bits_pick(single_push, step, PawnStep::Push, us, en_passant);
            let doubles = pawn_bits_pick(
                double_push,
                2 * step,
                PawnStep::DoublePush,
                us,
                en_passant,
            );
            let takes_a = pawn_bits_pick(left_attack, step - 1, PawnStep::Capture, us, en_passant);
            let takes_h = pawn_bits_pick(
                right_attack,
                step + 1,
                PawnStep::Capture,
                us,
                en_passant,
            );
            let by_push = pawn_pick(squares, us, en_passant, pawn_pos, PawnStep::Push, step);
            let by_double = pawn_pick(
                squares,
                us,
                en_passant,
                pawn_pos,
                PawnStep::DoublePush,
                2 * step,
            );
            let by_a = pawn_pick(squares, us, en_passant, pawn_pos, PawnStep::Capture, step - 1);
            let by_h = pawn_pick(squares, us, en_passant, pawn_pos, PawnStep::Capture, step + 1);
            assert forall|sq: int| 0 <= sq < 64 implies #[trigger] pushes(sq) == by_push(sq) by {
                assert(bit_at(single_push, sq) <==> (bit_at(pawn_pos, sq - step) && squares[sq]
                    == PieceColor::Empty));
            }
            assert forall|sq: int| 0 <= sq < 64 implies #[trigger] doubles(sq) == by_double(
                sq,
            ) by {
                assert(bit_at(double_push, sq) <==> (bit_at(pawn_pos, sq - 2 * step) && pawn_home(
                    us,
                    sq - 2 * step,
                ) && squares[sq - step] == PieceColor::Empty && squares[sq]
                    == PieceColor::Empty));
            }
            assert forall|sq: int| 0 <= sq < 64 implies #[trigger] takes_a(sq) == by_a(sq) by {
                assert(bit_at(left_attack, sq) <==> (bit_at(pawn_pos, sq - (step - 1)) && file_of(
                    sq - (step - 1),
                ) != 0 && (squares[sq].color() == Some(us.other()) || en_passant == Some(
                    sq as u8,
                ))));
            }
            assert forall|sq: int| 0 <= sq < 64 implies #[trigger] takes_h(sq) == by_h(sq) by {
                assert(bit_at(right_attack, sq) <==> (bit_at(pawn_pos, sq - (step + 1))
                    && file_of(sq - (step + 1)) != 7 && (squares[sq].color() == Some(us.other())
                    || en_passant == Some(sq as u8))));
            }
            lemma_gather_same(64, pushes, by_push);
            lemma_gather_same(64, doubles, by_double);
            lemma_gather_same(64, takes_a, by_a);
            lemma_gather_same(64, takes_h, by_h);
            assert(moves@ =~= pawn_list(squares, us, en_passant, pawn_pos));
        }
        proof {
            assert forall|m: PieceMove| #[trigger]
                moves@.contains(m) <==> (bit_at(pawn_pos, m.from as int) && pawn_move(
                    squares,
                    us,
                    en_passant,
                    m,
                )) by {
                let from = m.from as int;
                let to = m.to as int;
                if 0 <= to < 64 {
                    assert(bit_at(single_push, to) <==> (bit_at(pawn_pos, to - step) && squares[to]
                        == PieceColor::Empty));
                    assert(bit_at(double_push, to) <==> (bit_at(pawn_pos, to - 2 * step)
                        && pawn_home(us, to - 2 * step) && squares[to - step] == PieceColor::Empty
                        && squares[to] == PieceColor::Empty));
                    assert(bit_at(left_attack, to) <==> (bit_at(pawn_pos, to - (step - 1))
                        && file_of(to - (step - 1)) != 0 && (squares[to].color() == Some(
                        us.other(),
                    ) || en_passant == Some(to as u8))));
                    assert(bit_at(right_attack, to) <==> (bit_at(pawn_pos, to - (step + 1))
                        && file_of(to - (step + 1)) != 7 && (squares[to].color() == Some(
                        us.other(),
                    ) || en_passant == Some(to as u8))));
                }
            }
        }
        moves
    }

    /// The moves of White's pawns on the squares of `pawn_pos`; White is
    /// to move.
    pub(crate) fn generate_pawn_moves_white(&self, pawn_pos: u64) -> (moves: Vec<PieceMove>)
        requires
            self.placement_wf(),
            self@.en_passant_ok(),
            self.side_to_move == Color::White,
        ensures
            moves@ == pawn_list(
                self.pieces@,
                Color::White,
                self.board_state.en_passant,
                pawn_pos,
            ),
            moves@.no_duplicates(),
            forall|m: PieceMove| #[trigger]
                moves@.contains(m) <==> (bit_at(pawn_pos, m.from as int) && pawn_move(
                    self.pieces@,
                    Color::White,
                    self.board_state.en_passant,
                    m,
                )),
    {
        self.generate_pawn_moves(pawn_pos, Color::White)
    }

    /// The moves of Black's pawns on the squares of `pawn_pos`; Black is
    /// to move.
    pub(crate) fn generate_pawn_moves_black(&self, pawn_pos: u64) -> (moves: Vec<PieceMove>)
        requires
            self.placement_wf(),
            self@.en_passant_ok(),
            self.side_to_move == Color::Black,
        ensures
            moves@ == pawn_list(
                self.pieces@,
                Color::Black,
                self.board_state.en_passant,
                pawn_pos,
            ),
            moves@.no_duplicates(),
            forall|m: PieceMove| #[trigger]
                moves@.contains(m) <==> (bit_at(pawn_pos, m.from as int) && pawn_move(
                    self.pieces@,
                    Color::Black,
                    self.board_state.en_passant,
                    m,
                )),
    {
        self.generate_pawn_moves(pawn_pos, Color::Black)
    }
}

} // verus!
