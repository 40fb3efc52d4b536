use vstd::prelude::*;
use crate::board::Board;
use crate::board_state::{BoardState, CASTLING_RIGHTS_UPDATE};
use crate::piece::{lemma_piece_color, Color, Piece, PieceColor};
use crate::piece_move::{MoveFlag, PieceMove};
use crate::position::{castle_rook_from, castle_rook_to, forward, is_castle_target};
use crate::zobrist::{castle_hash, CASTLE_HSH};

verus! {

impl Board {
    /// The keys of the castling rights held.
    pub fn calculate_castle_hsh(&self) -> (hsh: u64)
        ensures
            hsh == castle_hash(self.board_state.castle_rights),
    {
        let white_short: u64 = if self.board_state.white_kingside() {
            CASTLE_HSH[0]
        } else {
            0
        };
        let white_long: u64 = if self.board_state.white_queenside() {
            CASTLE_HSH[1]
        } else {
            0
        };
        let black_short: u64 = if self.board_state.black_kingside() {
            CASTLE_HSH[2]
        } else {
            0
        };
        let black_long: u64 = if self.board_state.black_queenside() {
            CASTLE_HSH[3]
        } else {
            0
        };
        white_short ^ white_long ^ black_short ^ black_long
    }

    /// Moves the piece on `from` to the empty square `to`.
    pub(crate) fn handle_move(&mut self, piece_move: &PieceMove)
        requires
            old(self).placement_wf(),
            piece_move.from < 64,
            piece_move.to < 64,
            old(self).pieces[piece_move.from as int].color() == Some(old(self).side_to_move),
            old(self).pieces[piece_move.to as int] == PieceColor::Empty,
        ensures
            final(self).placement_wf(),
            final(self).pieces@ == old(self).pieces@.update(
                piece_move.from as int,
                PieceColor::Empty,
            ).update(piece_move.to as int, old(self).pieces[piece_move.from as int]),
            final(self).residue() == old(self).residue(),
            final(self).side_to_move == old(self).side_to_move,
            final(self).board_state == (BoardState {
                castle_rights: old(self).board_state.castle_rights
                    & CASTLING_RIGHTS_UPDATE[piece_move.from as int],
                ..old(self).board_state
            }),
    {
        let us = self.side_to_move;
        let piece = self.pieces[piece_move.from as usize].extract_piece();
        proof {
            lemma_piece_color(self.pieces[piece_move.from as int], piece, us);
        }
        self.toggle_piece(us, piece, piece_move.from);
        self.toggle_piece(us, piece, piece_move.to);
        let ghost placed = *self;
        self.board_state.castle_rights &= CASTLING_RIGHTS_UPDATE[piece_move.from as usize];
        proof {
            placed.lemma_same_placement(self);
        }
    }

    /// Takes the piece on `to` off the board and moves the piece on
    /// `from` there; the rights state remembers the kind of the piece
    /// taken.
    pub(crate) fn handle_capture(&mut self, piece_move: &PieceMove)
        requires
            old(self).placement_wf(),
            piece_move.from < 64,
            piece_move.to < 64,
            old(self).pieces[piece_move.from as int].color() == Some(old(self).side_to_move),
            old(self).pieces[piece_move.to as int].color() == Some(
                old(self).side_to_move.other(),
            ),
        ensures
            final(self).placement_wf(),
            final(self).pieces@ == old(self).pieces@.update(
                piece_move.from as int,
                PieceColor::Empty,
            ).update(piece_move.to as int, old(self).pieces[piece_move.from as int]),
            final(self).residue() == old(self).residue(),
            final(self).side_to_move == old(self).side_to_move,
            final(self).board_state == (BoardState {
                castle_rights: (old(self).board_state.castle_rights
                    & CASTLING_RIGHTS_UPDATE[piece_move.from as int])
                    & CASTLING_RIGHTS_UPDATE[piece_move.to as int],
                en_passant: old(self).board_state.en_passant,
                captured_piece_type: old(self).pieces[piece_move.to as int].piece(),
            }),
    {
        let us = self.side_to_move;
        let them = self.side_to_move.get_opposite();
        let our_piece = self.pieces[piece_move.from as usize].extract_piece();
        let their_piece = self.pieces[piece_move.to as usize].extract_piece();
        proof {
            lemma_piece_color(self.pieces[piece_move.from as int], our_piece, us);
            lemma_piece_color(self.pieces[piece_move.to as int], their_piece, them);
        }
        self.toggle_piece(us, our_piece, piece_move.from);
        self.toggle_piece(them, their_piece, piece_move.to);
        self.toggle_piece(us, our_piece, piece_move.to);
        let ghost placed = *self;
        self.board_state.castle_rights &= CASTLING_RIGHTS_UPDATE[piece_move.from as usize];
        self.board_state.castle_rights &= CASTLING_RIGHTS_UPDATE[piece_move.to as usize];
        self.board_state.captured_piece_type = Some(their_piece);
        proof {
            placed.lemma_same_placement(self);
        }
    }

    /// Moves the pawn on `from` to the empty square `to` and takes the
    /// pawn that stands behind `to` off the board.
    pub(crate) fn handle_en_passant_capture(&mut self, piece_move: &PieceMove)
        requires
            old(self).placement_wf(),
            piece_move.from < 64,
            piece_move.to < 64,
            0 <= piece_move.to - forward(old(self).side_to_move) < 64,
            old(self).pieces[piece_move.from as int] == PieceColor::of(
                Piece::Pawn,
                old(self).side_to_move,
            ),
            old(self).pieces[piece_move.to as int] == PieceColor::Empty,
            old(self).pieces[piece_move.to - forward(old(self).side_to_move)] == PieceColor::of(
                Piece::Pawn,
                old(self).side_to_move.other(),
            ),
        ensures
            final(self).placement_wf(),
            final(self).pieces@ == old(self).pieces@.update(
                piece_move.from as int,
                PieceColor::Empty,
            ).update(piece_move.to - forward(old(self).side_to_move), PieceColor::Empty).update(
                piece_move.to as int,
                old(self).pieces[piece_move.from as int],
            ),
            final(self).residue() == old(self).residue(),
            final(self).side_to_move == old(self).side_to_move,
            final(self).board_state == old(self).board_state,
    {
        let us = self.side_to_move;
        let them = self.side_to_move.get_opposite();
        let victim_idx: u8 = if us == Color::White {
            piece_move.to - 8
        } else {
            piece_move.to + 8
        };
        self.toggle_piece(us, Piece::Pawn, piece_move.from);
        self.toggle_piece(them, Piece::Pawn, victim_idx);
        self.toggle_piece(us, Piece::Pawn, piece_move.to);
    }

    /// Turns the pawn that has reached `to` into the piece that the
    /// move's flag names.
    pub(crate) fn handle_promotion(&mut self, piece_move: &PieceMove)
        requires
            old(self).placement_wf(),
            piece_move.to < 64,
            piece_move.flag.promotion() is Some,
            old(self).pieces[piece_move.to as int] == PieceColor::of(
                Piece::Pawn,
                old(self).side_to_move,
            ),
        ensures
            final(self).placement_wf(),
            final(self).pieces@ == old(self).pieces@.update(
                piece_move.to as int,
                PieceColor::of(piece_move.flag.promotion().unwrap(), old(self).side_to_move),
            ),
            final(self).residue() == old(self).residue(),
            final(self).side_to_move == old(self).side_to_move,
            final(self).board_state == old(self).board_state,
    {
        let us = self.side_to_move;
        self.toggle_piece(us, Piece::Pawn, piece_move.to);
        match piece_move.flag {
            MoveFlag::PromoteToKnight | MoveFlag::PromoteToKnightAndCapture => self.toggle_piece(
                us,
                Piece::Knight,
                piece_move.to,
            ),
            MoveFlag::PromoteToBishop | MoveFlag::PromoteToBishopAndCapture => self.toggle_piece(
                us,
                Piece::Bishop,
                piece_move.to,
            ),
            MoveFlag::PromoteToRook | MoveFlag::PromoteToRookAndCapture => self.toggle_piece(
                us,
                Piece::Rook,
                piece_move.to,
            ),
            _ => self.toggle_piece(us, Piece::Queen, piece_move.to),
        }
        assert(self.pieces@ =~= old(self).pieces@.update(
            piece_move.to as int,
            PieceColor::of(piece_move.flag.promotion().unwrap(), old(self).side_to_move),
        ));
    }

    /// Moves the king from `from` to `to` and the rook of that side
    /// from its corner to the square that the king has passed.
    pub(crate) fn handle_castle(&mut self, piece_move: &PieceMove)
        requires
            old(self).placement_wf(),
            piece_move.from < 64,
            is_castle_target(piece_move.to as int),
            old(self).pieces[piece_move.from as int] == PieceColor::of(
                Piece::King,
                old(self).side_to_move,
            ),
            old(self).pieces[piece_move.to as int] == PieceColor::Empty,
            old(self).pieces[castle_rook_from(piece_move.to as int)] == PieceColor::of(
                Piece::Rook,
                old(self).side_to_move,
            ),
            old(self).pieces[castle_rook_to(piece_move.to as int)] == PieceColor::Empty,
        ensures
            final(self).placement_wf(),
            final(self).pieces@ == old(self).pieces@.update(
                piece_move.from as int,
                PieceColor::Empty,
            ).update(piece_move.to as int, old(self).pieces[piece_move.from as int]).update(
                castle_rook_from(piece_move.to as int),
                PieceColor::Empty,
            ).update(
                castle_rook_to(piece_move.to as int),
                PieceColor::of(Piece::Rook, old(self).side_to_move),
            ),
            final(self).residue() == old(self).residue(),
            final(self).side_to_move == old(self).side_to_move,
            final(self).board_state == (BoardState {
                castle_rights: (old(self).board_state.castle_rights
                    & CASTLING_RIGHTS_UPDATE[piece_move.from as int])
                    & CASTLING_RIGHTS_UPDATE[piece_move.to as int],
                ..old(self).board_state
            }),
    {
        let us = self.side_to_move;
        let (rook_from, rook_to): (u8, u8) = if piece_move.to == 6 {
            (7, 5)
        } else if piece_move.to == 2 {
            (0, 3)
        } else if piece_move.to == 62 {
            (63, 61)
        } else {
            (56, 59)
        };
        self.toggle_piece(us, Piece::King, piece_move.from);
        self.toggle_piece(us, Piece::King, piece_move.to);
        self.toggle_piece(us, Piece::Rook, rook_from);
        self.toggle_piece(us, Piece::Rook, rook_to);
        let ghost placed = *self;
        self.board_state.castle_rights &= CASTLING_RIGHTS_UPDATE[piece_move.from as usize];
        self.board_state.castle_rights &= CASTLING_RIGHTS_UPDATE[piece_move.to as usize];
        proof {
            placed.lemma_same_placement(self);
        }
    }

    /// Moves the pawn on `from` two ranks ahead to `to` and makes the
    /// square that it skips the en-passant target.
    pub(crate) fn handle_double_pawn_push(&mut self, piece_move: &PieceMove)
        requires
            old(self).placement_wf(),
            piece_move.from < 64,
            piece_move.to < 64,
            0 <= piece_move.from + forward(old(self).side_to_move) < 64,
            old(self).pieces[piece_move.from as int] == PieceColor::of(
                Piece::Pawn,
                old(self).side_to_move,
            ),
            old(self).pieces[piece_move.to as int] == PieceColor::Empty,
        ensures
            final(self).placement_wf(),
            final(self).pieces@ == old(self).pieces@.update(
                piece_move.from as int,
                PieceColor::Empty,
            ).update(piece_move.to as int, old(self).pieces[piece_move.from as int]),
            final(self).residue() == old(self).residue(),
            final(self).side_to_move == old(self).side_to_move,
            final(self).board_state == (BoardState {
                en_passant: Some((piece_move.from + forward(old(self).side_to_move)) as u8),
                ..old(self).board_state
            }),
    {
        let us = self.side_to_move;
        self.toggle_piece(us, Piece::Pawn, piece_move.from);
        self.toggle_piece(us, Piece::Pawn, piece_move.to);
        let ghost placed = *self;
        self.board_state.en_passant = Some(
            if us == Color::White {
                piece_move.from + 8
            } else {
                piece_move.from - 8
            },
        );
        proof {
            placed.lemma_same_placement(self);
        }
    }
}

} // verus!
