use vstd::prelude::*;
use crate::attack_tables::{king_step, knight_step};
use crate::bits::{bit_at, lemma_lowest, lemma_no_bits, lowest};
use crate::board::Board;
use crate::game::lemma_apply_wf;
use crate::piece::{lemma_piece_color, Color, Piece, PieceColor};
use crate::piece_move::{MoveFlag, PieceMove};
use crate::position::{file_of, rank_of, Position};
use crate::rules::{
    attacked_by, first_piece, has_king, king_attacks, king_square, knight_attacks, pawn_attacks,
    pawn_capture_step, ray_reaches, ray_room, slide_move, slider_attacks, straight_move,
};

verus! {

/// Walking on from `(rank, file)` in the direction `(dr, df)` to `to`,
/// and then back from the square before `to`, one meets the same first
/// piece that one meets walking back from the square before
/// `(rank, file)`.
proof fn lemma_ray_back(
    squares: Seq<PieceColor>,
    rank: int,
    file: int,
    dr: int,
    df: int,
    to: int,
    from: int,
)
    requires
        -1 <= dr <= 1,
        -1 <= df <= 1,
        ray_reaches(squares, rank, file, dr, df, to),
        first_piece(squares, rank - dr, file - df, -dr, -df) == Some(from),
    ensures
        0 <= to < 64,
        first_piece(squares, rank_of(to) - dr, file_of(to) - df, -dr, -df) == Some(from),
    decreases ray_room(rank, file, dr, df),
{
    if 8 * rank + file != to {
        lemma_ray_back(squares, rank + dr, file + df, dr, df, to, from);
    }
}

/// A piece that slides to a square is the first piece met when walking
/// from that square back along the slide.
pub proof fn lemma_slide_seen_from_target(
    squares: Seq<PieceColor>,
    us: Color,
    dr: int,
    df: int,
    m: PieceMove,
)
    requires
        -1 <= dr <= 1,
        -1 <= df <= 1,
        slide_move(squares, us, dr, df, m),
        squares[m.from as int] != PieceColor::Empty,
    ensures
        first_piece(squares, rank_of(m.to as int) - dr, file_of(m.to as int) - df, -dr, -df)
            == Some(m.from as int),
{
    let from = m.from as int;
    assert(first_piece(squares, rank_of(from), file_of(from), -dr, -df) == Some(from));
    lemma_ray_back(squares, rank_of(from) + dr, file_of(from) + df, dr, df, m.to as int, from);
}

impl Position {
    /// Whether the player to move does not attack the king of the other
    /// player, who has just moved.
    pub open spec fn settled(self) -> bool {
        !attacked_by(self.squares, king_square(self.squares, self.side.other()), self.side)
    }

    /// Whether the position can arise in play: it is well formed, both
    /// kings stand on the board, and the player who has just moved has
    /// not left the own king attacked.
    pub open spec fn playable(self) -> bool {
        &&& self.wf()
        &&& has_king(self.squares, Color::White)
        &&& has_king(self.squares, Color::Black)
        &&& self.settled()
    }

    /// A pseudo-legal move onto a square on which a piece of the other
    /// player stands attacks that square.
    pub proof fn lemma_capture_attacks(self, m: PieceMove)
        requires
            self.wf(),
            self.pseudo_legal(m),
            m.to < 64,
            self.squares[m.to as int].color() == Some(self.side.other()),
        ensures
            attacked_by(self.squares, m.to as int, self.side),
    {
        let us = self.side;
        let from = m.from as int;
        let to = m.to as int;
        let squares = self.squares;
        let piece = squares[from].piece().unwrap();
        lemma_piece_color(squares[from], piece, us);
        match piece {
            Piece::Pawn => {
                assert(pawn_capture_step(us, from, to));
                assert(pawn_attacks(squares, to, us));
            },
            Piece::Knight => {
                assert(knight_step(from, to));
                assert(knight_attacks(squares, to, us));
            },
            Piece::King => {
                assert(king_step(from, to));
                assert(king_attacks(squares, to, us));
            },
            _ => {
                if piece != Piece::Bishop && straight_move(squares, us, m) {
                    if slide_move(squares, us, 0, -1, m) {
                        lemma_slide_seen_from_target(squares, us, 0, -1, m);
                        assert(slider_attacks(squares, to, us, 0, 1));
                    } else if slide_move(squares, us, 0, 1, m) {
                        lemma_slide_seen_from_target(squares, us, 0, 1, m);
                        assert(slider_attacks(squares, to, us, 0, -1));
                    } else if slide_move(squares, us, -1, 0, m) {
                        lemma_slide_seen_from_target(squares, us, -1, 0, m);
                        assert(slider_attacks(squares, to, us, 1, 0));
                    } else {
                        lemma_slide_seen_from_target(squares, us, 1, 0, m);
                        assert(slider_attacks(squares, to, us, -1, 0));
                    }
                } else {
                    if slide_move(squares, us, -1, -1, m) {
                        lemma_slide_seen_from_target(squares, us, -1, -1, m);
                        assert(slider_attacks(squares, to, us, 1, 1));
                    } else if slide_move(squares, us, 1, -1, m) {
                        lemma_slide_seen_from_target(squares, us, 1, -1, m);
                        assert(slider_attacks(squares, to, us, -1, 1));
                    } else if slide_move(squares, us, -1, 1, m) {
                        lemma_slide_seen_from_target(squares, us, -1, 1, m);
                        assert(slider_attacks(squares, to, us, 1, -1));
                    } else {
                        lemma_slide_seen_from_target(squares, us, 1, 1, m);
                        assert(slider_attacks(squares, to, us, -1, -1));
                    }
                }
            },
        }
    }

    /// In a playable position no pseudo-legal move takes a king.
    pub proof fn lemma_king_not_taken(self, m: PieceMove)
        requires
            self.playable(),
            self.pseudo_legal(m),
        ensures
            m.to < 64,
            self.squares[m.to as int].piece() != Some(Piece::King),
    {
        self.lemma_pseudo_legal_move_ok(m);
        let them = self.side.other();
        let target = self.squares[m.to as int];
        if target.piece() == Some(Piece::King) {
            lemma_piece_color(target, Piece::King, them);
            lemma_piece_color(target, Piece::King, self.side);
            lemma_piece_color(self.squares[m.from as int], Piece::King, self.side);
            if target.color() == Some(them) {
                self.lemma_capture_attacks(m);
                let k = king_square(self.squares, them);
                assert(self.squares[k] == self.squares[m.to as int]);
            } else {
                assert(m.flag == MoveFlag::Castling || target == PieceColor::Empty
                    || target.color() == Some(them));
            }
        }
    }

    /// A legal move leads from a playable position to a playable
    /// position.
    pub proof fn lemma_legal_keeps_playable(self, m: PieceMove)
        requires
            self.playable(),
            self.legal(m),
        ensures
            self.move_ok(m),
            self.apply(m).playable(),
    {
        self.lemma_pseudo_legal_move_ok(m);
        self.lemma_king_not_taken(m);
        self.lemma_king_stays(m);
        lemma_apply_wf(self, m);
        let them = self.side.other();
        let king = PieceColor::of(Piece::King, them);
        let k = choose|k: int| 0 <= k < 64 && #[trigger] self.squares[k] == king;
        lemma_piece_color(self.squares[k], Piece::King, them);
        lemma_piece_color(self.squares[m.from as int], Piece::King, them);
        assert(self.apply(m).squares[k] == king);
    }
}

/// The position in which a game begins is playable.
pub proof fn lemma_start_playable()
    ensures
        Position::start().playable(),
{
    let start = Position::start();
    let squares = start.squares;
    assert(squares[4] == PieceColor::WhiteKing);
    assert(squares[60] == PieceColor::BlackKing);
    assert(start.kings_ok()) by {
        assert forall|a: int, b: int|
            0 <= a < 64 && 0 <= b < 64 && #[trigger] squares[a] == #[trigger] squares[b]
                && squares[a].piece() == Some(Piece::King) implies a == b by {
            assert(a == 4 || a == 60);
            assert(b == 4 || b == 60);
        }
    }
    let k = king_square(squares, Color::Black);
    assert(k == 60);
    assert(squares[51] == PieceColor::BlackPawn);
    assert(squares[52] == PieceColor::BlackPawn);
    assert(squares[53] == PieceColor::BlackPawn);
    assert(squares[59] == PieceColor::BlackQueen);
    assert(squares[61] == PieceColor::BlackBishop);
    assert(!knight_attacks(squares, 60, Color::White)) by {
        assert forall|a: int|
            0 <= a < 64 && #[trigger] squares[a] == PieceColor::WhiteKnight implies !knight_step(
            a,
            60,
        ) by {
            assert(a == 1 || a == 6);
        }
    }
    assert(!king_attacks(squares, 60, Color::White)) by {
        assert forall|a: int|
            0 <= a < 64 && #[trigger] squares[a] == PieceColor::WhiteKing implies !king_step(
            a,
            60,
        ) by {
            assert(a == 4);
        }
    }
}

impl Board {
    /// Whether the position on the board is playable: both kings are
    /// there, and the player to move does not attack the king of the
    /// other.
    pub fn is_playable(&self) -> (playable: bool)
        requires
            self.wf(),
        ensures
            playable == self@.playable(),
    {
        let white_king = self.piece_bitboard(Piece::King, Color::White);
        let black_king = self.piece_bitboard(Piece::King, Color::Black);
        proof {
            lemma_no_bits();
            if white_king != 0 {
                lemma_lowest(white_king);
                assert(self.pieces[lowest(white_king)] == PieceColor::WhiteKing);
            }
            if black_king != 0 {
                lemma_lowest(black_king);
                assert(self.pieces[lowest(black_king)] == PieceColor::BlackKing);
            }
            if has_king(self@.squares, Color::White) {
                let k = choose|k: int|
                    0 <= k < 64 && #[trigger] self@.squares[k] == PieceColor::WhiteKing;
                assert(bit_at(self.bb(Piece::King, Color::White), k));
            }
            if has_king(self@.squares, Color::Black) {
                let k = choose|k: int|
                    0 <= k < 64 && #[trigger] self@.squares[k] == PieceColor::BlackKing;
                assert(bit_at(self.bb(Piece::King, Color::Black), k));
            }
        }
        if white_king == 0 || black_king == 0 {
            return false;
        }
        let other_king = self.king_index(self.side_to_move.get_opposite());
        !self.is_tile_attacked(other_king)
    }
}

} // verus!
