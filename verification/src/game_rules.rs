use vstd::prelude::*;
use crate::bits::{bit_at, lemma_bit_ops, lemma_lowest, lemma_no_bits, lowest};
use crate::board::Board;
use crate::game::{Game, GameEnum};
use crate::piece::{Color, Piece, PieceColor};
use crate::piece_move::{MoveFlag, PieceMove};
use crate::position::Position;
use crate::rules::has_king;

verus! {

/// How many of the lowest `n` squares the bitboard `x` holds.
pub open spec fn count_bits(x: u64, n: int) -> nat
    decreases n,
{
    if n <= 0 {
        0
    } else {
        count_bits(x, n - 1) + if bit_at(x, n - 1) {
            1nat
        } else {
            0nat
        }
    }
}

/// `u64::count_ones` gives the number of bits that are set in the
/// value, which are the squares that the bitboard holds.
pub assume_specification[ u64::count_ones ](x: u64) -> (ones: u32)
    ensures
        ones == count_bits(x, 64),
;

/// How many of the first `n` squares are not empty.
pub open spec fn piece_count(squares: Seq<PieceColor>, n: int) -> nat
    decreases n,
{
    if n <= 0 {
        0
    } else {
        piece_count(squares, n - 1) + if squares[n - 1] != PieceColor::Empty {
            1nat
        } else {
            0nat
        }
    }
}

/// Whether the square holds a pawn, a rook or a queen: a piece with
/// which a king can still force mate.
pub open spec fn is_mating_piece(pc: PieceColor) -> bool {
    pc.piece() == Some(Piece::Pawn) || pc.piece() == Some(Piece::Rook) || pc.piece() == Some(
        Piece::Queen,
    )
}

/// Whether too little is left on the board to mate: two pieces in all,
/// or three with no pawn, rook or queen among them.
pub open spec fn insufficient_material(squares: Seq<PieceColor>) -> bool {
    let total = piece_count(squares, 64);
    total == 2 || (total == 3 && forall|sq: int|
        0 <= sq < 64 ==> !is_mating_piece(#[trigger] squares[sq]))
}

/// Whether the move `m` sets the half-move clock back to `0`: it takes
/// a piece, or it moves a pawn. Castling does neither.
pub open spec fn resets_clock(position: Position, m: PieceMove) -> bool {
    match m.flag {
        MoveFlag::Normal => position.squares[m.from as int].piece() == Some(Piece::Pawn),
        MoveFlag::Castling | MoveFlag::NoMove => false,
        _ => true,
    }
}

/// The status after a move as far as draws go. `clock` is the half-move
/// clock after the move, `seen` the number of moves now counted from
/// the position before it, `squares` that position's squares. A clock
/// of 100 is a draw by the fifty-move rule; else a count of three is a
/// draw by repetition; else too little material is a draw; else the
/// status stays `before`.
pub open spec fn draw_status(clock: nat, seen: nat, squares: Seq<PieceColor>, before: GameEnum)
    -> GameEnum {
    if clock >= 100 {
        GameEnum::TieBy50Rule
    } else if seen >= 3 {
        GameEnum::TieByThreefoldRepetition
    } else if insufficient_material(squares) {
        GameEnum::TieByInsufficientMaterial
    } else {
        before
    }
}

/// The status of a game in which the player to move has no legal move:
/// if that player's king is attacked the other player has won, else the
/// game is drawn by stalemate.
pub open spec fn end_status(position: Position) -> GameEnum {
    if position.in_check() {
        match position.side {
            Color::White => GameEnum::BlackWon,
            Color::Black => GameEnum::WhiteWon,
        }
    } else {
        GameEnum::TieByStalemate
    }
}

/// A bitboard holds at most as many squares as it has bits.
pub proof fn lemma_count_bits_bound(x: u64, n: int)
    requires
        0 <= n,
    ensures
        count_bits(x, n) <= n,
    decreases n,
{
    if n > 0 {
        lemma_count_bits_bound(x, n - 1);
    }
}

impl Board {
    /// The two occupancies together hold as many squares as pieces
    /// stand on the board.
    pub proof fn lemma_count_pieces(&self, n: int)
        requires
            self.placement_wf(),
            0 <= n <= 64,
        ensures
            count_bits(self.occ(Color::White), n) + count_bits(self.occ(Color::Black), n)
                == piece_count(self.pieces@, n),
        decreases n,
    {
        if n > 0 {
            self.lemma_count_pieces(n - 1);
            assert(bit_at(self.occ(Color::White), n - 1) <==> self.pieces[n - 1].color() == Some(
                Color::White,
            ));
            assert(bit_at(self.occ(Color::Black), n - 1) <==> self.pieces[n - 1].color() == Some(
                Color::Black,
            ));
        }
    }
}

impl Game {
    /// Whether too little is left on the board to mate.
    pub fn check_for_insufficient_material(&self) -> (too_little: bool)
        requires
            self.board.placement_wf(),
        ensures
            too_little == insufficient_material(self@.position.squares),
    {
        let white_pieces = self.board.occupied[0].count_ones();
        let black_pieces = self.board.occupied[1].count_ones();
        proof {
            lemma_count_bits_bound(self.board.occupied[0], 64);
            lemma_count_bits_bound(self.board.occupied[1], 64);
            self.board.lemma_count_pieces(64);
        }
        let total = white_pieces + black_pieces;
        if total == 2 {
            return true;
        }
        if total == 3 {
            let white_pawns = self.board.piece_bitboard(Piece::Pawn, Color::White);
            let black_pawns = self.board.piece_bitboard(Piece::Pawn, Color::Black);
            let white_rooks = self.board.piece_bitboard(Piece::Rook, Color::White);
            let black_rooks = self.board.piece_bitboard(Piece::Rook, Color::Black);
            let white_queens = self.board.piece_bitboard(Piece::Queen, Color::White);
            let black_queens = self.board.piece_bitboard(Piece::Queen, Color::Black);
            let big_pieces = white_pawns | black_pawns | white_rooks | black_rooks | white_queens
                | black_queens;
            proof {
                let squares = self.board.pieces@;
                assert forall|sq: int| 0 <= sq < 64 implies (bit_at(big_pieces, sq)
                    <==> is_mating_piece(#[trigger] squares[sq])) by {
                    lemma_bit_ops(white_pawns, black_pawns, sq);
                    lemma_bit_ops(white_pawns | black_pawns, white_rooks, sq);
                    lemma_bit_ops(white_pawns | black_pawns | white_rooks, black_rooks, sq);
                    lemma_bit_ops(
                        white_pawns | black_pawns | white_rooks | black_rooks,
                        white_queens,
                        sq,
                    );
                    lemma_bit_ops(
                        white_pawns | black_pawns | white_rooks | black_rooks | white_queens,
                        black_queens,
                        sq,
                    );
                    assert(bit_at(self.board.bb(Piece::Pawn, Color::White), sq) <==> squares[sq]
                        == PieceColor::WhitePawn);
                    assert(bit_at(self.board.bb(Piece::Pawn, Color::Black), sq) <==> squares[sq]
                        == PieceColor::BlackPawn);
                    assert(bit_at(self.board.bb(Piece::Rook, Color::White), sq) <==> squares[sq]
                        == PieceColor::WhiteRook);
                    assert(bit_at(self.board.bb(Piece::Rook, Color::Black), sq) <==> squares[sq]
                        == PieceColor::BlackRook);
                    assert(bit_at(self.board.bb(Piece::Queen, Color::White), sq) <==> squares[sq]
                        == PieceColor::WhiteQueen);
                    assert(bit_at(self.board.bb(Piece::Queen, Color::Black), sq) <==> squares[sq]
                        == PieceColor::BlackQueen);
                }
                if big_pieces != 0 {
                    lemma_lowest(big_pieces);
                    assert(is_mating_piece(squares[lowest(big_pieces)]));
                } else {
                    lemma_no_bits();
                }
            }
            if big_pieces == 0 {
                return true;
            }
        }
        false
    }

    /// Sets the status to a draw if the rules say so: `hsh` is the
    /// signature of the position from which the move is made, already
    /// counted for it, and `new_half_move_clock` the clock after the
    /// move.
    pub fn check_for_draws(&mut self, hsh: u64, new_half_move_clock: usize)
        requires
            old(self).board.placement_wf(),
            old(self).hshs@.contains_key(hsh),
        ensures
            final(self).game_enum == draw_status(
                new_half_move_clock as nat,
                old(self).hshs@[hsh] as nat,
                old(self)@.position.squares,
                old(self).game_enum,
            ),
            final(self).board == old(self).board,
            final(self).states == old(self).states,
            final(self).hshs == old(self).hshs,
    {
        broadcast use vstd::std_specs::hash::group_hash_axioms;

        if new_half_move_clock >= 100 {
            self.game_enum = GameEnum::TieBy50Rule;
            return ;
        }
        let seen: usize = match self.hshs.get(&hsh) {
            Some(count) => *count,
            None => 0,
        };
        if seen >= 3 {
            self.game_enum = GameEnum::TieByThreefoldRepetition;
            return ;
        }
        if self.check_for_insufficient_material() {
            self.game_enum = GameEnum::TieByInsufficientMaterial;
            return ;
        }
    }

    /// Sets the status of a game in which the player to move has no
    /// legal move: the other player has won if the king is attacked,
    /// else the game is a stalemate.
    pub fn check_for_mate_or_stalemate(&mut self)
        requires
            old(self).board.wf(),
            has_king(old(self)@.position.squares, old(self)@.position.side),
        ensures
            final(self).game_enum == end_status(old(self)@.position),
            final(self).board == old(self).board,
            final(self).states == old(self).states,
            final(self).hshs == old(self).hshs,
    {
        if self.board.is_checked() {
            self.game_enum = match self.board.get_size_to_move() {
                Color::White => GameEnum::BlackWon,
                Color::Black => GameEnum::WhiteWon,
            }
        } else {
            self.game_enum = GameEnum::TieByStalemate;
        }
    }

    /// Ends the game if the player to move has no legal move.
    pub fn try_update_game_enum(&mut self)
        requires
            old(self).board.wf(),
            has_king(old(self)@.position.squares, old(self)@.position.side),
        ensures
            final(self).game_enum == if exists|m: PieceMove| old(self)@.position.legal(m) {
                old(self).game_enum
            } else {
                end_status(old(self)@.position)
            },
            final(self).board == old(self).board,
            final(self).states == old(self).states,
            final(self).hshs == old(self).hshs,
    {
        let moves = self.board.generate_all_moves();
        proof {
            if moves@.len() > 0 {
                assert(moves@.contains(moves@[0]));
                assert(old(self)@.position.legal(moves@[0]));
            } else {
                assert forall|m: PieceMove| !old(self)@.position.legal(m) by {
                    assert(!moves@.contains(m));
                }
            }
        }
        if moves.is_empty() {
            self.check_for_mate_or_stalemate();
        }
    }
}

} // verus!
