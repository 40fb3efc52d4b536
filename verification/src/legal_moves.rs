use vstd::prelude::*;
use crate::bits::{bit_at, lemma_lowest, lemma_no_bits};
use crate::board::Board;
use crate::generate_moves::{
    lemma_append_contains, lemma_append_no_duplicates, lemma_push_contains,
    lemma_push_no_duplicates,
};
use crate::laws::{lemma_board_determined, lemma_do_undo_round_trip};
use crate::move_lists::{kind_at, lemma_pieces_on};
use crate::piece::{lemma_piece_color, Color, Piece, PieceColor};
use crate::piece_move::PieceMove;
use crate::position::Position;
use crate::rules::has_king;

verus! {

impl Position {
    /// A pseudo-legal move finds the pieces that its flag speaks of
    /// where it needs them.
    pub proof fn lemma_pseudo_legal_move_ok(self, m: PieceMove)
        requires
            self.wf(),
            self.pseudo_legal(m),
        ensures
            self.move_ok(m),
    {
        let piece = self.squares[m.from as int].piece().unwrap();
        lemma_piece_color(self.squares[m.from as int], piece, self.side);
    }

    /// No move takes the mover's own king off the board.
    pub proof fn lemma_king_stays(self, m: PieceMove)
        requires
            self.wf(),
            self.move_ok(m),
            has_king(self.squares, self.side),
        ensures
            has_king(self.apply(m).squares, self.side),
    {
        let king = PieceColor::of(Piece::King, self.side);
        let k = choose|k: int| 0 <= k < 64 && #[trigger] self.squares[k] == king;
        let after = self.apply(m).squares;
        if k == m.from as int {
            assert(after[m.to as int] == king);
        } else {
            lemma_piece_color(self.squares[k], Piece::King, self.side);
            assert(after[k] == king);
        }
    }
}

impl Board {
    /// Whether the move `piece_move` leaves the mover's king safe: makes
    /// the move, looks whether the other player now attacks the mover's
    /// king, and takes the move back.
    pub(crate) fn validate_move_filter(&mut self, piece_move: &PieceMove) -> (keeps: bool)
        requires
            old(self).wf(),
            old(self)@.move_ok(*piece_move),
            has_king(old(self)@.squares, old(self)@.side),
        ensures
            *final(self) == *old(self),
            keeps == old(self)@.king_safe_after(*piece_move),
    {
        let board_state_copy = self.board_state;
        let captured_piece_type = self.pieces[piece_move.to as usize].try_extract_piece();
        proof {
            lemma_do_undo_round_trip(self@, *piece_move);
            self@.lemma_king_stays(*piece_move);
        }
        self.do_move(piece_move);
        let opposite_king = self.king_index(self.side_to_move.get_opposite());
        let is_attacked = self.is_tile_attacked(opposite_king);
        self.undo_move(piece_move, board_state_copy, captured_piece_type);
        proof {
            lemma_board_determined(*self, *old(self));
        }
        !is_attacked
    }

    /// The moves of the pieces of the kind `piece_type` that obey the
    /// piece's way of moving, whatever becomes of the mover's king.
    fn generate_candidates(&self, piece_type: &Piece) -> (moves: Vec<PieceMove>)
        requires
            self.wf(),
        ensures
            moves@ == self@.candidates(*piece_type),
            moves@.no_duplicates(),
            forall|m: PieceMove| #[trigger]
                moves@.contains(m) <==> (self@.pseudo_legal(m) && self@.squares[m.from as int]
                    == PieceColor::of(*piece_type, self@.side)),
    {
        let us = self.side_to_move;
        let positions = self.piece_bitboard(*piece_type, us);
        proof {
            assert forall|sq: int| 0 <= sq < 64 implies (#[trigger] bit_at(positions, sq)
                <==> self@.squares[sq] == PieceColor::of(*piece_type, us)) by {
                assert(bit_at(self.bb(*piece_type, us), sq) <==> self.pieces[sq]
                    == PieceColor::of(*piece_type, us));
            }
            lemma_pieces_on(self@.squares, PieceColor::of(*piece_type, us), positions);
        }
        proof {
            assert forall|sq: int| 0 <= sq < 64 implies (#[trigger] bit_at(positions, sq)
                <==> self.pieces[sq] == PieceColor::of(*piece_type, us)) by {
                assert(bit_at(self.bb(*piece_type, us), sq) <==> self.pieces[sq]
                    == PieceColor::of(*piece_type, us));
            }
            assert forall|m: PieceMove|
                self@.squares[m.from as int] == PieceColor::of(*piece_type, us) && m.from
                    < 64 implies self@.squares[m.from as int].color() == Some(us)
                && self@.squares[m.from as int].piece() == Some(*piece_type) by {
                lemma_piece_color(self@.squares[m.from as int], *piece_type, us);
            }
            lemma_no_bits();
            if positions != 0 {
                lemma_lowest(positions);
            }
        }
        match (piece_type, us) {
            (Piece::Pawn, Color::White) => self.generate_pawn_moves_white(positions),
            (Piece::Pawn, Color::Black) => self.generate_pawn_moves_black(positions),
            (Piece::Knight, Color::White) => self.generate_knight_moves_white(positions),
            (Piece::Knight, Color::Black) => self.generate_knight_moves_black(positions),
            (Piece::Bishop, Color::White) => self.generate_bishop_moves_white(positions),
            (Piece::Bishop, Color::Black) => self.generate_bishop_moves_black(positions),
            (Piece::Rook, Color::White) => self.generate_rook_moves_white(positions),
            (Piece::Rook, Color::Black) => self.generate_rook_moves_black(positions),
            (Piece::Queen, Color::White) => self.generate_queen_moves_white(positions),
            (Piece::Queen, Color::Black) => self.generate_queen_moves_black(positions),
            (Piece::King, Color::White) => if positions != 0 {
                self.generate_king_moves_white(positions)
            } else {
                Vec::new()
            },
            (Piece::King, Color::Black) => if positions != 0 {
                self.generate_king_moves_black(positions)
            } else {
                Vec::new()
            },
        }
    }

    /// All the pseudo-legal moves of the player to move: for each kind
    /// of piece, pawns first and the king last, the moves that obey the
    /// piece's way of moving, whatever becomes of the mover's king.
    pub fn generate_moves(&self) -> (moves: Vec<PieceMove>)
        requires
            self.wf(),
        ensures
            moves@ == self@.pseudo_legal_list(),
            moves@.no_duplicates(),
            forall|m: PieceMove| #[trigger] moves@.contains(m) <==> self@.pseudo_legal(m),
            self@.sorted_by_piece(moves@),
    {
        let kinds: [Piece; 6] = [
            Piece::Pawn,
            Piece::Knight,
            Piece::Bishop,
            Piece::Rook,
            Piece::Queen,
            Piece::King,
        ];
        let mut moves: Vec<PieceMove> = Vec::new();
        let mut i: usize = 0;
        while i < 6
            invariant
                i <= 6,
                self.wf(),
                kinds[0] == Piece::Pawn,
                kinds[1] == Piece::Knight,
                kinds[2] == Piece::Bishop,
                kinds[3] == Piece::Rook,
                kinds[4] == Piece::Queen,
                kinds[5] == Piece::King,
                moves@ == self@.candidates_upto(i as int),
                moves@.no_duplicates(),
                self@.sorted_by_piece(moves@),
                forall|m: PieceMove| #[trigger]
                    moves@.contains(m) <==> (self@.pseudo_legal(m)
                        && self@.squares[m.from as int].piece() is Some
                        && self@.squares[m.from as int].piece().unwrap().index() < i),
            decreases 6 - i,
        {
            let mut found = self.generate_candidates(&kinds[i]);
            proof {
                assert(kinds[i as int] == kind_at(i as int));
                lemma_append_contains(moves@, found@);
                assert forall|m: PieceMove|
                    self@.pseudo_legal(m) implies (self@.squares[m.from as int] == PieceColor::of(
                    kinds[i as int],
                    self@.side,
                ) <==> self@.squares[m.from as int].piece() == Some(kinds[i as int])) by {
                    lemma_piece_color(self@.squares[m.from as int], kinds[i as int], self@.side);
                }
                lemma_append_no_duplicates(moves@, found@);
                let joined = moves@ + found@;
                assert forall|a: int, b: int| 0 <= a < b < joined.len() implies self@.mover_rank(
                    #[trigger] joined[a],
                ) <= self@.mover_rank(#[trigger] joined[b]) by {
                    if a < moves@.len() {
                        assert(moves@.contains(moves@[a]));
                    } else {
                        assert(found@.contains(found@[a - moves@.len()]));
                    }
                    if b < moves@.len() {
                        assert(moves@.contains(moves@[b]));
                    } else {
                        assert(found@.contains(found@[b - moves@.len()]));
                    }
                }
            }
            moves.append(&mut found);
            i += 1;
        }
        proof {
            self@.lemma_all_kinds();
            assert forall|m: PieceMove| self@.pseudo_legal(m) implies self@.squares[m.from as int].piece()
                is Some by {
                lemma_piece_color(self@.squares[m.from as int], Piece::Pawn, self@.side);
            }
        }
        moves
    }

    /// The legal moves of the pieces of the kind `piece_type`: the
    /// pseudo-legal ones that leave the mover's king safe. The board is
    /// left as it was.
    pub(crate) fn generate_piece_move(&mut self, piece_type: &Piece) -> (moves: Vec<PieceMove>)
        requires
            old(self).wf(),
            has_king(old(self)@.squares, old(self)@.side),
        ensures
            *final(self) == *old(self),
            moves@ == old(self)@.safe_moves(old(self)@.candidates(*piece_type)),
            moves@.no_duplicates(),
            forall|m: PieceMove| #[trigger]
                moves@.contains(m) <==> (old(self)@.legal(m) && old(self)@.squares[m.from as int]
                    == PieceColor::of(*piece_type, old(self)@.side)),
    {
        let candidates = self.generate_candidates(piece_type);
        let mut moves: Vec<PieceMove> = Vec::new();
        let mut i: usize = 0;
        assert(candidates@.subrange(0, 0) =~= Seq::<PieceMove>::empty());
        while i < candidates.len()
            invariant
                i <= candidates.len(),
                candidates@ == self@.candidates(*piece_type),
                moves@ == self@.safe_moves(candidates@.subrange(0, i as int)),
                *self == *old(self),
                self.wf(),
                has_king(self@.squares, self@.side),
                candidates@.no_duplicates(),
                moves@.no_duplicates(),
                forall|m: PieceMove| #[trigger]
                    candidates@.contains(m) <==> (self@.pseudo_legal(m)
                        && self@.squares[m.from as int] == PieceColor::of(
                        *piece_type,
                        self@.side,
                    )),
                forall|m: PieceMove| #[trigger]
                    moves@.contains(m) <==> (candidates@.subrange(0, i as int).contains(m)
                        && self@.king_safe_after(m)),
            decreases candidates.len() - i,
        {
            let candidate = candidates[i];
            proof {
                assert(candidates@.contains(candidate));
                self@.lemma_pseudo_legal_move_ok(candidate);
                lemma_push_contains(moves@, candidate);
                lemma_push_contains(candidates@.subrange(0, i as int), candidate);
                assert(candidates@.subrange(0, i as int).push(candidate) =~= candidates@.subrange(
                    0,
                    i + 1,
                ));
                if candidates@.subrange(0, i as int).contains(candidate) {
                    let j = choose|j: int|
                        0 <= j < i && candidates@.subrange(0, i as int)[j] == candidate;
                    assert(candidates@[j] == candidates@[i as int]);
                }
                lemma_push_no_duplicates(moves@, candidate);
                assert(candidates@.subrange(0, i + 1).drop_last() =~= candidates@.subrange(
                    0,
                    i as int,
                ));
                assert(candidates@.subrange(0, i + 1).last() == candidate);
            }
            if self.validate_move_filter(&candidate) {
                moves.push(candidate);
            }
            i += 1;
        }
        proof {
            assert(candidates@.subrange(0, i as int) =~= candidates@);
        }
        moves
    }

    /// All the legal moves of the player to move: for each kind of
    /// piece, pawns first and the king last, the pseudo-legal moves that
    /// leave the mover's king safe. The board is left as it was.
    pub fn generate_all_moves(&mut self) -> (moves: Vec<PieceMove>)
        requires
            old(self).wf(),
            has_king(old(self)@.squares, old(self)@.side),
        ensures
            *final(self) == *old(self),
            moves@ == old(self)@.legal_list(),
            moves@.no_duplicates(),
            forall|m: PieceMove| #[trigger] moves@.contains(m) <==> old(self)@.legal(m),
            old(self)@.sorted_by_piece(moves@),
    {
        let kinds: [Piece; 6] = [
            Piece::Pawn,
            Piece::Knight,
            Piece::Bishop,
            Piece::Rook,
            Piece::Queen,
            Piece::King,
        ];
        let mut moves: Vec<PieceMove> = Vec::new();
        let mut i: usize = 0;
        while i < 6
            invariant
                i <= 6,
                *self == *old(self),
                self.wf(),
                has_king(self@.squares, self@.side),
                kinds[0] == Piece::Pawn,
                kinds[1] == Piece::Knight,
                kinds[2] == Piece::Bishop,
                kinds[3] == Piece::Rook,
                kinds[4] == Piece::Queen,
                kinds[5] == Piece::King,
                moves@ == self@.legal_upto(i as int),
                moves@.no_duplicates(),
                self@.sorted_by_piece(moves@),
                forall|m: PieceMove| #[trigger]
                    moves@.contains(m) <==> (self@.legal(m) && self@.squares[m.from as int].piece()
                        is Some && self@.squares[m.from as int].piece().unwrap().index() < i),
            decreases 6 - i,
        {
            let mut found = self.generate_piece_move(&kinds[i]);
            proof {
                assert(kinds[i as int] == kind_at(i as int));
                lemma_append_contains(moves@, found@);
                assert forall|m: PieceMove|
                    self@.legal(m) implies (self@.squares[m.from as int] == PieceColor::of(
                    kinds[i as int],
                    self@.side,
                ) <==> self@.squares[m.from as int].piece() == Some(kinds[i as int])) by {
                    lemma_piece_color(self@.squares[m.from as int], kinds[i as int], self@.side);
                }
                lemma_append_no_duplicates(moves@, found@);
                let joined = moves@ + found@;
                assert forall|a: int, b: int| 0 <= a < b < joined.len() implies self@.mover_rank(
                    #[trigger] joined[a],
                ) <= self@.mover_rank(#[trigger] joined[b]) by {
                    if a < moves@.len() {
                        assert(moves@.contains(moves@[a]));
                    } else {
                        assert(found@.contains(found@[a - moves@.len()]));
                    }
                    if b < moves@.len() {
                        assert(moves@.contains(moves@[b]));
                    } else {
                        assert(found@.contains(found@[b - moves@.len()]));
                    }
                }
            }
            moves.append(&mut found);
            i += 1;
        }
        proof {
            self@.lemma_all_kinds();
            assert forall|m: PieceMove| self@.legal(m) implies self@.squares[m.from as int].piece()
                is Some by {
                lemma_piece_color(self@.squares[m.from as int], Piece::Pawn, self@.side);
            }
        }
        moves
    }
}

} // verus!
