use vstd::prelude::*;
use crate::attack_tables::{lemma_king_table, KING_ATTACK};
use crate::bits::{lemma_lowest, lowest};
use crate::board::Board;
use crate::generate_moves::push_move;
use crate::piece::{Color, Piece, PieceColor};
use crate::piece_move::{MoveFlag, PieceMove};
use crate::rules::king_move;

verus! {

impl Board {
    /// The moves of the king of the player to move, `us`, that stands on
    /// the lowest square of `king_pos`: the captures, then the quiet
    /// moves, then short and long castling where the position allows
    /// them.
    pub(crate) fn generate_king_moves(&self, king_pos: u64, us: Color) -> (moves: Vec<PieceMove>)
        requires
            self.placement_wf(),
            king_pos != 0,
            us == self.side_to_move,
        ensures
            moves@ == self@.king_list(king_pos),
            moves@.no_duplicates(),
            forall|m: PieceMove| #[trigger]
                moves@.contains(m) <==> ((m.from == lowest(king_pos) && king_move(
                    self.pieces@,
                    us,
                    m,
                )) || self@.castle_move(m)),
    {
        let mut moves: Vec<PieceMove> = Vec::with_capacity(8);
        proof {
            lemma_lowest(king_pos);
        }
        let idx = king_pos.trailing_zeros() as u8;
        self.push_steps(&mut moves, idx, KING_ATTACK[idx as usize], us);
        proof {
            assert forall|m: PieceMove| #[trigger]
                moves@.contains(m) <==> (m.from == lowest(king_pos) && king_move(
                    self.pieces@,
                    us,
                    m,
                )) by {
                if 0 <= m.to < 64 {
                    lemma_king_table(idx as int, m.to as int);
                }
            }
        }
        let them = us.get_opposite();
        let home: u8 = match us {
            Color::White => 4,
            Color::Black => 60,
        };
        let short = match us {
            Color::White => self.board_state.white_kingside(),
            Color::Black => self.board_state.black_kingside(),
        };
        let long = match us {
            Color::White => self.board_state.white_queenside(),
            Color::Black => self.board_state.black_queenside(),
        };
        let king = PieceColor::new(Piece::King, us);
        let rook = PieceColor::new(Piece::Rook, us);
        if short && self.pieces[home as usize] == king && self.pieces[(home + 1) as usize]
            == PieceColor::Empty && self.pieces[(home + 2) as usize] == PieceColor::Empty
            && self.pieces[(home + 3) as usize] == rook && !self.is_attacked_by(home, them)
            && !self.is_attacked_by(home + 1, them) {
            push_move(&mut moves, home, home + 2, MoveFlag::Castling);
        }
        if long && self.pieces[home as usize] == king && self.pieces[(home - 1) as usize]
            == PieceColor::Empty && self.pieces[(home - 2) as usize] == PieceColor::Empty
            && self.pieces[(home - 3) as usize] == PieceColor::Empty && self.pieces[(home
            - 4) as usize] == rook && !self.is_attacked_by(home, them) && !self.is_attacked_by(
            home - 1,
            them,
        ) {
            push_move(&mut moves, home, home - 2, MoveFlag::Castling);
        }
        moves
    }

    /// The moves of White's king; White is to move.
    pub(crate) fn generate_king_moves_white(&self, king_pos: u64) -> (moves: Vec<PieceMove>)
        requires
            self.placement_wf(),
            king_pos != 0,
            self.side_to_move == Color::White,
        ensures
            moves@ == self@.king_list(king_pos),
            moves@.no_duplicates(),
            forall|m: PieceMove| #[trigger]
                moves@.contains(m) <==> ((m.from == lowest(king_pos) && king_move(
                    self.pieces@,
                    Color::White,
                    m,
                )) || self@.castle_move(m)),
    {
        self.generate_king_moves(king_pos, Color::White)
    }

    /// The moves of Black's king; Black is to move.
    pub(crate) fn generate_king_moves_black(&self, king_pos: u64) -> (moves: Vec<PieceMove>)
        requires
            self.placement_wf(),
            king_pos != 0,
            self.side_to_move == Color::Black,
        ensures
            moves@ == self@.king_list(king_pos),
            moves@.no_duplicates(),
            forall|m: PieceMove| #[trigger]
                moves@.contains(m) <==> ((m.from == lowest(king_pos) && king_move(
                    self.pieces@,
                    Color::Black,
                    m,
                )) || self@.castle_move(m)),
    {
        self.generate_king_moves(king_pos, Color::Black)
    }
}

} // verus!
