use vstd::prelude::*;
use crate::bits::{bit_at, lemma_bit_ops, lemma_bits_equal};
use crate::board::Board;
use crate::piece::{lemma_piece_color, Color, Piece, PieceColor};
use crate::piece_move::PieceMove;
use crate::position::Position;

verus! {

/// The signature that a well-formed board keeps up to date move by move
/// is the signature computed anew from its squares, its rights state and
/// its player to move; `Board::new`, `Board::do_move` and
/// `Board::undo_move` give well-formed boards.
pub proof fn lemma_hash_consistent(b: Board)
    requires
        b.wf(),
    ensures
        b.hsh == b@.hash(),
{
}

/// Taking back a move restores the position: after any move that the
/// position allows, `revert` with the rights state saved before the move
/// and the kind of the piece that stood on the move's target is allowed
/// and gives the position before the move, with the same squares, the
/// same rights state and the same player to move.
pub proof fn lemma_do_undo_round_trip(p: Position, m: PieceMove)
    requires
        p.wf(),
        p.move_ok(m),
    ensures
        p.apply(m).undo_ok(m, p.state, p.squares[m.to as int].piece()),
        p.apply(m).revert(m, p.state, p.squares[m.to as int].piece()) == p,
{
    let after = p.apply(m);
    let captured = p.squares[m.to as int].piece();
    let back = after.revert(m, p.state, captured);
    if m.flag.takes_target() {
        lemma_piece_color(p.squares[m.to as int], captured.unwrap(), p.side.other());
    }
    assert(back.squares =~= p.squares);
    assert(back == p);
}

/// The signature of the position after a move and its taking back is the
/// signature before the move.
pub proof fn lemma_round_trip_hash(p: Position, m: PieceMove)
    requires
        p.wf(),
        p.move_ok(m),
    ensures
        p.apply(m).revert(m, p.state, p.squares[m.to as int].piece()).hash() == p.hash(),
{
    lemma_do_undo_round_trip(p, m);
}

/// A well-formed board is determined by its position: two such boards
/// with the same squares, rights state and player to move have the same
/// bitboards, the same occupancies and the same signature.
pub proof fn lemma_board_determined(a: Board, b: Board)
    requires
        a.wf(),
        b.wf(),
        a@ == b@,
    ensures
        a == b,
{
    assert(a.pieces@ == b.pieces@);
    assert(a.pieces =~= b.pieces);
    assert forall|p: int, c: int| 0 <= p < 6 && 0 <= c < 2 implies a.bitboard[p][c]
        == b.bitboard[p][c] by {
        let piece = if p == 0 {
            Piece::Pawn
        } else if p == 1 {
            Piece::Knight
        } else if p == 2 {
            Piece::Bishop
        } else if p == 3 {
            Piece::Rook
        } else if p == 4 {
            Piece::Queen
        } else {
            Piece::King
        };
        let color = if c == 0 {
            Color::White
        } else {
            Color::Black
        };
        assert forall|sq: int| 0 <= sq < 64 implies bit_at(a.bb(piece, color), sq) == bit_at(
            b.bb(piece, color),
            sq,
        ) by {}
        lemma_bits_equal(a.bb(piece, color), b.bb(piece, color));
    }
    assert forall|p: int| 0 <= p < 6 implies a.bitboard[p] == b.bitboard[p] by {
        assert(a.bitboard[p][0] == b.bitboard[p][0]);
        assert(a.bitboard[p][1] == b.bitboard[p][1]);
        assert(a.bitboard[p] =~= b.bitboard[p]);
    }
    assert(a.bitboard =~= b.bitboard);
    assert forall|c: int| 0 <= c < 2 implies a.occupied[c] == b.occupied[c] by {
        let color = if c == 0 {
            Color::White
        } else {
            Color::Black
        };
        assert forall|sq: int| 0 <= sq < 64 implies bit_at(a.occ(color), sq) == bit_at(
            b.occ(color),
            sq,
        ) by {}
        lemma_bits_equal(a.occ(color), b.occ(color));
    }
    assert(a.occupied =~= b.occupied);
}

/// On a well-formed board the occupancy of each colour is the union of
/// that colour's six piece bitboards, and no square is occupied by both
/// colours.
pub proof fn lemma_occupancy(b: Board, color: Color)
    requires
        b.placement_wf(),
    ensures
        b.occ(color) == b.bb(Piece::Pawn, color) | b.bb(Piece::Knight, color) | b.bb(
            Piece::Bishop,
            color,
        ) | b.bb(Piece::Rook, color) | b.bb(Piece::Queen, color) | b.bb(Piece::King, color),
        b.occ(Color::White) & b.occ(Color::Black) == 0,
{
    let pawns = b.bb(Piece::Pawn, color);
    let knights = b.bb(Piece::Knight, color);
    let bishops = b.bb(Piece::Bishop, color);
    let rooks = b.bb(Piece::Rook, color);
    let queens = b.bb(Piece::Queen, color);
    let kings = b.bb(Piece::King, color);
    let all = pawns | knights | bishops | rooks | queens | kings;
    assert forall|sq: int| 0 <= sq < 64 implies bit_at(b.occ(color), sq) == bit_at(all, sq) by {
        lemma_bit_ops(pawns, knights, sq);
        lemma_bit_ops(pawns | knights, bishops, sq);
        lemma_bit_ops(pawns | knights | bishops, rooks, sq);
        lemma_bit_ops(pawns | knights | bishops | rooks, queens, sq);
        lemma_bit_ops(pawns | knights | bishops | rooks | queens, kings, sq);
        assert(bit_at(pawns, sq) <==> b.pieces[sq] == PieceColor::of(Piece::Pawn, color));
        assert(bit_at(knights, sq) <==> b.pieces[sq] == PieceColor::of(Piece::Knight, color));
        assert(bit_at(bishops, sq) <==> b.pieces[sq] == PieceColor::of(Piece::Bishop, color));
        assert(bit_at(rooks, sq) <==> b.pieces[sq] == PieceColor::of(Piece::Rook, color));
        assert(bit_at(queens, sq) <==> b.pieces[sq] == PieceColor::of(Piece::Queen, color));
        assert(bit_at(kings, sq) <==> b.pieces[sq] == PieceColor::of(Piece::King, color));
        assert(bit_at(b.occ(color), sq) <==> b.pieces[sq].color() == Some(color));
    }
    lemma_bits_equal(b.occ(color), all);
    let both = b.occ(Color::White) & b.occ(Color::Black);
    assert forall|sq: int| 0 <= sq < 64 implies bit_at(both, sq) == bit_at(0, sq) by {
        lemma_bit_ops(b.occ(Color::White), b.occ(Color::Black), sq);
        assert(bit_at(b.occ(Color::White), sq) <==> b.pieces[sq].color() == Some(Color::White));
        assert(bit_at(b.occ(Color::Black), sq) <==> b.pieces[sq].color() == Some(Color::Black));
    }
    lemma_bits_equal(both, 0);
}

} // verus!
