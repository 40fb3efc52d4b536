use vstd::prelude::*;
use crate::board::Board;
use crate::piece::{lemma_piece_color, Color, Piece, PieceColor};
use crate::piece_move::PieceMove;
use crate::position::{castle_rook_from, castle_rook_to, forward, is_castle_target};

verus! {

impl Board {
    /// Takes the piece on `to` back to the empty square `from`.
    pub(crate) fn handle_undo_move(&mut self, piece_move: &PieceMove)
        requires
            old(self).placement_wf(),
            piece_move.from < 64,
            piece_move.to < 64,
            old(self).pieces[piece_move.to as int].color() == Some(old(self).side_to_move),
            old(self).pieces[piece_move.from as int] == PieceColor::Empty,
        ensures
            final(self).placement_wf(),
            final(self).pieces@ == old(self).pieces@.update(
                piece_move.to as int,
                PieceColor::Empty,
            ).update(piece_move.from as int, old(self).pieces[piece_move.to as int]),
            final(self).residue() == old(self).residue(),
            final(self).side_to_move == old(self).side_to_move,
            final(self).board_state == old(self).board_state,
    {
        let us = self.side_to_move;
        let piece = self.pieces[piece_move.to as usize].extract_piece();
        proof {
            lemma_piece_color(self.pieces[piece_move.to as int], piece, us);
        }
        self.toggle_piece(us, piece, piece_move.to);
        self.toggle_piece(us, piece, piece_move.from);
    }

    /// Takes the piece on `to` back to the empty square `from` and puts
    /// the piece that it took back on `to`.
    pub(crate) fn handle_undo_capture(&mut self, piece_move: &PieceMove, captured_piece: &Piece)
        requires
            old(self).placement_wf(),
            piece_move.from < 64,
            piece_move.to < 64,
            old(self).pieces[piece_move.to as int].color() == Some(old(self).side_to_move),
            old(self).pieces[piece_move.from as int] == PieceColor::Empty,
        ensures
            final(self).placement_wf(),
            final(self).pieces@ == old(self).pieces@.update(
                piece_move.to as int,
                PieceColor::of(*captured_piece, old(self).side_to_move.other()),
            ).update(piece_move.from as int, old(self).pieces[piece_move.to as int]),
            final(self).residue() == old(self).residue(),
            final(self).side_to_move == old(self).side_to_move,
            final(self).board_state == old(self).board_state,
    {
        let us = self.side_to_move;
        let them = self.side_to_move.get_opposite();
        let our_piece = self.pieces[piece_move.to as usize].extract_piece();
        proof {
            lemma_piece_color(self.pieces[piece_move.to as int], our_piece, us);
        }
        self.toggle_piece(us, our_piece, piece_move.to);
        self.toggle_piece(us, our_piece, piece_move.from);
        self.toggle_piece(them, *captured_piece, piece_move.to);
        assert(self.pieces@ =~= old(self).pieces@.update(
            piece_move.to as int,
            PieceColor::of(*captured_piece, old(self).side_to_move.other()),
        ).update(piece_move.from as int, old(self).pieces[piece_move.to as int]));
    }

    /// Takes the pawn on `to` back to the empty square `from` and puts
    /// the pawn that it took back on the square behind `to`.
    pub(crate) fn handle_undo_en_passant_capture(&mut self, piece_move: &PieceMove)
        requires
            old(self).placement_wf(),
            piece_move.from < 64,
            piece_move.to < 64,
            0 <= piece_move.to - forward(old(self).side_to_move) < 64,
            piece_move.to - forward(old(self).side_to_move) != piece_move.from,
            old(self).pieces[piece_move.to as int] == PieceColor::of(
                Piece::Pawn,
                old(self).side_to_move,
            ),
            old(self).pieces[piece_move.from as int] == PieceColor::Empty,
            old(self).pieces[piece_move.to - forward(old(self).side_to_move)]
                == PieceColor::Empty,
        ensures
            final(self).placement_wf(),
            final(self).pieces@ == old(self).pieces@.update(
                piece_move.to as int,
                PieceColor::Empty,
            ).update(
                piece_move.from as int,
                PieceColor::of(Piece::Pawn, old(self).side_to_move),
            ).update(
                piece_move.to - forward(old(self).side_to_move),
                PieceColor::of(Piece::Pawn, old(self).side_to_move.other()),
            ),
            final(self).residue() == old(self).residue(),
            final(self).side_to_move == old(self).side_to_move,
            final(self).board_state == old(self).board_state,
    {
        let us = self.side_to_move;
        let them = self.side_to_move.get_opposite();
        let victim_idx: u8 = if us == Color::White {
            piece_move.to - 8
        } else {
            piece_move.to + 8
        };
        self.toggle_piece(us, Piece::Pawn, piece_move.to);
        self.toggle_piece(us, Piece::Pawn, piece_move.from);
        self.toggle_piece(them, Piece::Pawn, victim_idx);
    }

    /// Turns the piece on `to` back into the pawn that it was before it
    /// was promoted.
    pub(crate) fn handle_undo_promotion(&mut self, piece_move: &PieceMove)
        requires
            old(self).placement_wf(),
            piece_move.to < 64,
            old(self).pieces[piece_move.to as int].color() == Some(old(self).side_to_move),
        ensures
            final(self).placement_wf(),
            final(self).pieces@ == old(self).pieces@.update(
                piece_move.to as int,
                PieceColor::of(Piece::Pawn, old(self).side_to_move),
            ),
            final(self).residue() == old(self).residue(),
            final(self).side_to_move == old(self).side_to_move,
            final(self).board_state == old(self).board_state,
    {
        let us = self.side_to_move;
        let piece_type_to = self.pieces[piece_move.to as usize].extract_piece();
        proof {
            lemma_piece_color(self.pieces[piece_move.to as int], piece_type_to, us);
        }
        self.toggle_piece(us, piece_type_to, piece_move.to);
        self.toggle_piece(us, Piece::Pawn, piece_move.to);
        assert(self.pieces@ =~= old(self).pieces@.update(
            piece_move.to as int,
            PieceColor::of(Piece::Pawn, old(self).side_to_move),
        ));
    }

    /// Takes the king on `to` back to `from` and the rook beside it back
    /// to its corner.
    pub(crate) fn handle_undo_castle(&mut self, piece_move: &PieceMove)
        requires
            old(self).placement_wf(),
            piece_move.from < 64,
            is_castle_target(piece_move.to as int),
            piece_move.from != castle_rook_from(piece_move.to as int),
            old(self).pieces[piece_move.to as int] == PieceColor::of(
                Piece::King,
                old(self).side_to_move,
            ),
            old(self).pieces[piece_move.from as int] == PieceColor::Empty,
            old(self).pieces[castle_rook_to(piece_move.to as int)] == PieceColor::of(
                Piece::Rook,
                old(self).side_to_move,
            ),
            old(self).pieces[castle_rook_from(piece_move.to as int)] == PieceColor::Empty,
        ensures
            final(self).placement_wf(),
            final(self).pieces@ == old(self).pieces@.update(
                piece_move.to as int,
                PieceColor::Empty,
            ).update(piece_move.from as int, old(self).pieces[piece_move.to as int]).update(
                castle_rook_to(piece_move.to as int),
                PieceColor::Empty,
            ).update(
                castle_rook_from(piece_move.to as int),
                PieceColor::of(Piece::Rook, old(self).side_to_move),
            ),
            final(self).residue() == old(self).residue(),
            final(self).side_to_move == old(self).side_to_move,
            final(self).board_state == old(self).board_state,
    {
        let us = self.side_to_move;
        let (rook_from, rook_to): (u8, u8) = if piece_move.to == 6 {
            (7, 5)
        } else if piece_move.to == 2 {
            (0, 3)
        } else if piece_move.to == 62 {
            (63, 61)
        } else {
            (56, 59)
        };
        self.toggle_piece(us, Piece::King, piece_move.to);
        self.toggle_piece(us, Piece::King, piece_move.from);
        self.toggle_piece(us, Piece::Rook, rook_to);
        self.toggle_piece(us, Piece::Rook, rook_from);
    }

    /// Takes the pawn on `to` two ranks back to the empty square `from`.
    pub(crate) fn handle_undo_double_pawn_push(&mut self, piece_move: &PieceMove)
        requires
            old(self).placement_wf(),
            piece_move.from < 64,
            piece_move.to < 64,
            old(self).pieces[piece_move.to as int] == PieceColor::of(
                Piece::Pawn,
                old(self).side_to_move,
            ),
            old(self).pieces[piece_move.from as int] == PieceColor::Empty,
        ensures
            final(self).placement_wf(),
            final(self).pieces@ == old(self).pieces@.update(
                piece_move.to as int,
                PieceColor::Empty,
            ).update(piece_move.from as int, old(self).pieces[piece_move.to as int]),
            final(self).residue() == old(self).residue(),
            final(self).side_to_move == old(self).side_to_move,
            final(self).board_state == old(self).board_state,
    {
        let us = self.side_to_move;
        self.toggle_piece(us, Piece::Pawn, piece_move.to);
        self.toggle_piece(us, Piece::Pawn, piece_move.from);
    }
}

} // verus!
