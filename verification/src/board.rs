use vstd::prelude::*;
use crate::bits::{
    bit_at, lemma_mask_rights, lemma_signature_after_move, lemma_signature_after_undo,
    lemma_single_bit, lemma_start_bitboards, lemma_xor_laws, lemma_xor_toggle,
};
use crate::board_state::{BoardState, CASTLING_RIGHTS_UPDATE};
use crate::piece::{Color, Piece, PieceColor};
use crate::piece_move::{MoveFlag, PieceMove};
use crate::position::Position;
use crate::zobrist::{
    castle_hash, en_passant_hash, lemma_placement_hash_update, lemma_side_hash_other,
    placement_hash, side_hash, EN_PASSANT_HSH, PIECE_COLOR_HSH, SIDE_TO_MOVE_HSH,
};

verus! {

/// A position, written down twice over: as one bitboard for each piece of
/// each colour, with the two occupancy bitboards, and as the array
/// `pieces` that says for each square what stands on it. `hsh` is the
/// position's signature.
#[derive(Clone, Copy, Debug)]
pub struct Board {
    pub side_to_move: Color,
    pub bitboard: [[u64; 2]; 6],
    pub occupied: [u64; 2],
    pub pieces: [PieceColor; 64],
    pub board_state: BoardState,
    pub hsh: u64,
}

impl View for Board {
    type V = Position;

    open spec fn view(&self) -> Position {
        Position { side: self.side_to_move, squares: self.pieces@, state: self.board_state }
    }
}

impl Board {
    /// The bitboard of the piece `piece` of the colour `color`.
    pub open spec fn bb(&self, piece: Piece, color: Color) -> u64 {
        self.bitboard[piece.index()][color.index()]
    }

    /// The bitboard of all the pieces of the colour `color`.
    pub open spec fn occ(&self, color: Color) -> u64 {
        self.occupied[color.index()]
    }

    /// Whether the bitboards and the array `pieces` say the same: a
    /// piece's bitboard holds exactly the squares on which `pieces` has
    /// that piece, and a colour's occupancy holds exactly the squares on
    /// which `pieces` has a piece of that colour.
    pub open spec fn placement_wf(&self) -> bool {
        &&& forall|piece: Piece, color: Color, sq: int|
            0 <= sq < 64 ==> (#[trigger] bit_at(self.bb(piece, color), sq) <==> self.pieces[sq]
                == PieceColor::of(piece, color))
        &&& forall|color: Color, sq: int|
            0 <= sq < 64 ==> (#[trigger] bit_at(self.occ(color), sq) <==> self.pieces[sq].color()
                == Some(color))
    }

    /// `hsh` without the keys of the pieces: what the rights, the
    /// en-passant target and the side to move have put into it.
    pub open spec fn residue(&self) -> u64 {
        self.hsh ^ placement_hash(self.pieces@, 64)
    }

    /// The invariant of a board: the two ways of writing the squares
    /// agree, the position is well formed, and `hsh` is its signature.
    pub open spec fn wf(&self) -> bool {
        &&& self.placement_wf()
        &&& self@.wf()
        &&& self.hsh == self@.hash()
    }

    /// The board on which a game begins.
    pub fn new() -> (board: Board)
        ensures
            board.wf(),
            board@ == Position::start(),
    {
        let mut bitboard = [[0u64;2];6];
        bitboard[0][0] = 0x0000_0000_0000_ff00;
        bitboard[0][1] = 0x00ff_0000_0000_0000;
        bitboard[1][0] = 0x0000_0000_0000_0042;
        bitboard[1][1] = 0x4200_0000_0000_0000;
        bitboard[2][0] = 0x0000_0000_0000_0024;
        bitboard[2][1] = 0x2400_0000_0000_0000;
        bitboard[3][0] = 0x0000_0000_0000_0081;
        bitboard[3][1] = 0x8100_0000_0000_0000;
        bitboard[4][0] = 0x0000_0000_0000_0008;
        bitboard[4][1] = 0x0800_0000_0000_0000;
        bitboard[5][0] = 0x0000_0000_0000_0010;
        bitboard[5][1] = 0x1000_0000_0000_0000;
        let pieces: [PieceColor; 64] = [
            PieceColor::WhiteRook, PieceColor::WhiteKnight, PieceColor::WhiteBishop,
            PieceColor::WhiteQueen, PieceColor::WhiteKing, PieceColor::WhiteBishop,
            PieceColor::WhiteKnight, PieceColor::WhiteRook,
            PieceColor::WhitePawn, PieceColor::WhitePawn, PieceColor::WhitePawn,
            PieceColor::WhitePawn, PieceColor::WhitePawn, PieceColor::WhitePawn,
            PieceColor::WhitePawn, PieceColor::WhitePawn,
            PieceColor::Empty, PieceColor::Empty, PieceColor::Empty, PieceColor::Empty,
            PieceColor::Empty, PieceColor::Empty, PieceColor::Empty, PieceColor::Empty,
            PieceColor::Empty, PieceColor::Empty, PieceColor::Empty, PieceColor::Empty,
            PieceColor::Empty, PieceColor::Empty, PieceColor::Empty, PieceColor::Empty,
            PieceColor::Empty, PieceColor::Empty, PieceColor::Empty, PieceColor::Empty,
            PieceColor::Empty, PieceColor::Empty, PieceColor::Empty, PieceColor::Empty,
            PieceColor::Empty, PieceColor::Empty, PieceColor::Empty, PieceColor::Empty,
            PieceColor::Empty, PieceColor::Empty, PieceColor::Empty, PieceColor::Empty,
            PieceColor::BlackPawn, PieceColor::BlackPawn, PieceColor::BlackPawn,
            PieceColor::BlackPawn, PieceColor::BlackPawn, PieceColor::BlackPawn,
            PieceColor::BlackPawn, PieceColor::BlackPawn,
            PieceColor::BlackRook, PieceColor::BlackKnight, PieceColor::BlackBishop,
            PieceColor::BlackQueen, PieceColor::BlackKing, PieceColor::BlackBishop,
            PieceColor::BlackKnight, PieceColor::BlackRook,
        ];
        let mut board = Board {
            side_to_move: Color::White,
            bitboard: bitboard,
            occupied: [0x0000_0000_0000_ffff, 0xffff_0000_0000_0000],
            pieces: pieces,
            board_state: BoardState::new(),
            hsh: 0u64,
        };
        proof {
            assert(board.pieces@ =~= Position::start().squares);
            assert forall|piece: Piece, color: Color, sq: int| 0 <= sq < 64 implies (
            #[trigger] bit_at(board.bb(piece, color), sq) <==> board.pieces[sq] == PieceColor::of(
                piece,
                color,
            )) by {
                lemma_start_bitboards(sq);
            }
            assert forall|color: Color, sq: int| 0 <= sq < 64 implies (#[trigger] bit_at(
                board.occ(color),
                sq,
            ) <==> board.pieces[sq].color() == Some(color)) by {
                lemma_start_bitboards(sq);
            }
        }
        let ghost placed = board;
        board.hsh = board.compute_full_hsh();
        proof {
            placed.lemma_same_placement(&board);
        }
        board
    }

    /// The player to move.
    pub fn get_size_to_move(&self) -> (side: Color)
        ensures
            side == self@.side,
    {
        self.side_to_move
    }

    /// The rights state: castling rights, en-passant target, last capture.
    pub fn get_board_state(&self) -> (state: BoardState)
        ensures
            state == self@.state,
    {
        self.board_state
    }

    /// The signature kept up to date move by move.
    pub fn get_board_hsh(&self) -> (hsh: u64)
        ensures
            hsh == self.hsh,
            self.wf() ==> hsh == self@.hash(),
    {
        self.hsh
    }

    /// The signature computed anew from the squares, the rights, the
    /// en-passant target and the side to move.
    pub fn compute_full_hsh(&self) -> (hsh: u64)
        ensures
            hsh == self@.hash(),
    {
        let mut hsh: u64 = 0;
        let mut idx: usize = 0;
        while idx < 64
            invariant
                idx <= 64,
                hsh == placement_hash(self.pieces@, idx as int),
            decreases 64 - idx,
        {
            let piece_color = self.pieces[idx];
            proof {
                lemma_xor_laws(hsh, 0, 0);
            }
            if piece_color != PieceColor::Empty {
                hsh ^= PIECE_COLOR_HSH[piece_color.idx()][idx];
            }
            idx += 1;
        }
        hsh ^= self.calculate_castle_hsh();
        let ep_key: u64 = match self.board_state.en_passant {
            Some(ep_idx) => EN_PASSANT_HSH[(ep_idx % 8) as usize],
            None => 0,
        };
        hsh ^= ep_key;
        let side_key: u64 = if self.side_to_move == Color::Black {
            SIDE_TO_MOVE_HSH
        } else {
            0
        };
        hsh ^= side_key;
        hsh
    }

    /// Makes the move: the pieces go where the move's flag sends them,
    /// the rights state follows, the other player is to move, and the
    /// signature is that of the new position.
    pub fn do_move(&mut self, piece_move: &PieceMove)
        requires
            old(self).wf(),
            old(self)@.move_ok(*piece_move),
        ensures
            final(self).wf(),
            final(self)@ == old(self)@.apply(*piece_move),
    {
        let ghost before = self@;
        let ghost h = self.hsh;
        let ghost p = placement_hash(self.pieces@, 64);
        let ghost c = castle_hash(self.board_state.castle_rights);
        let ghost e = en_passant_hash(self.board_state.en_passant);
        let ghost s = side_hash(self.side_to_move);
        proof {
            lemma_xor_laws(h, 0, 0);
            self.lemma_same_placement(self);
        }
        let ghost start = *self;
        if let Some(ep_idx) = self.board_state.en_passant {
            self.hsh ^= EN_PASSANT_HSH[(ep_idx % 8) as usize];
            self.board_state.en_passant = None;
        }
        self.hsh ^= self.calculate_castle_hsh();
        proof {
            start.lemma_same_placement(self);
        }
        assert(self.hsh == (h ^ e) ^ c);
        match piece_move.flag {
            MoveFlag::PromoteToQueenAndCapture
            | MoveFlag::PromoteToRookAndCapture
            | MoveFlag::PromoteToBishopAndCapture
            | MoveFlag::PromoteToKnightAndCapture => {
                self.handle_capture(piece_move);
                self.handle_promotion(piece_move);
            },
            MoveFlag::PromoteToQueen
            | MoveFlag::PromoteToRook
            | MoveFlag::PromoteToBishop
            | MoveFlag::PromoteToKnight => {
                self.handle_move(piece_move);
                self.handle_promotion(piece_move);
            },
            MoveFlag::Capture => {
                self.handle_capture(piece_move);
            },
            MoveFlag::EnPassantCapture => {
                self.handle_en_passant_capture(piece_move);
            },
            MoveFlag::Castling => {
                self.handle_castle(piece_move);
            },
            MoveFlag::DoublePawnPush => {
                self.handle_double_pawn_push(piece_move);
            },
            MoveFlag::Normal => {
                self.handle_move(piece_move);
            },
            MoveFlag::NoMove => {},
        }
        assert(self.pieces@ =~= before.squares_after(*piece_move));
        assert(self.board_state == before.state_after(*piece_move));
        let ghost moved = *self;
        let ghost rest_after = self.hsh;
        let ghost placed_after = placement_hash(self.pieces@, 64);
        let ghost rights_after = castle_hash(self.board_state.castle_rights);
        let ghost target_after = en_passant_hash(self.board_state.en_passant);
        self.hsh ^= self.calculate_castle_hsh();
        proof {
            lemma_xor_laws(self.hsh, 0, 0);
        }
        if let Some(ep_idx) = self.board_state.en_passant {
            self.hsh ^= EN_PASSANT_HSH[(ep_idx % 8) as usize];
        }
        self.side_to_move = self.side_to_move.get_opposite();
        self.hsh ^= SIDE_TO_MOVE_HSH;
        proof {
            moved.lemma_same_placement(self);
            lemma_side_hash_other(before.side);
            lemma_signature_after_move(
                h,
                p,
                c,
                e,
                s,
                rest_after,
                placed_after,
                rights_after,
                target_after,
                SIDE_TO_MOVE_HSH,
            );
            lemma_mask_rights(
                before.state.castle_rights,
                CASTLING_RIGHTS_UPDATE[piece_move.from as int],
            );
            lemma_mask_rights(
                before.state.castle_rights & CASTLING_RIGHTS_UPDATE[piece_move.from as int],
                CASTLING_RIGHTS_UPDATE[piece_move.to as int],
            );
        }
    }

    /// Takes back the move that led to this position. `board_state` is
    /// the rights state saved before the move, `captured_piece_type` the
    /// kind of the piece that stood on the move's target square then.
    pub fn undo_move(
        &mut self,
        piece_move: &PieceMove,
        board_state: BoardState,
        captured_piece_type: Option<Piece>,
    )
        requires
            old(self).wf(),
            old(self)@.undo_ok(*piece_move, board_state, captured_piece_type),
        ensures
            final(self).wf(),
            final(self)@ == old(self)@.revert(*piece_move, board_state, captured_piece_type),
    {
        let ghost after = self@;
        let ghost h = self.hsh;
        let ghost p = placement_hash(self.pieces@, 64);
        let ghost c = castle_hash(self.board_state.castle_rights);
        let ghost e = en_passant_hash(self.board_state.en_passant);
        let ghost s = side_hash(self.side_to_move);
        let ghost start = *self;
        proof {
            lemma_xor_laws(h ^ SIDE_TO_MOVE_HSH, 0, 0);
        }
        self.side_to_move = self.side_to_move.get_opposite();
        self.hsh ^= SIDE_TO_MOVE_HSH;
        if let Some(ep_idx) = self.board_state.en_passant {
            self.hsh ^= EN_PASSANT_HSH[(ep_idx % 8) as usize];
        }
        self.hsh ^= self.calculate_castle_hsh();
        self.board_state = board_state;
        proof {
            start.lemma_same_placement(self);
        }
        assert(self.hsh == ((h ^ SIDE_TO_MOVE_HSH) ^ e) ^ c);
        match piece_move.flag {
            MoveFlag::PromoteToQueenAndCapture
            | MoveFlag::PromoteToRookAndCapture
            | MoveFlag::PromoteToBishopAndCapture
            | MoveFlag::PromoteToKnightAndCapture => {
                self.handle_undo_promotion(piece_move);
                self.handle_undo_capture(piece_move, &captured_piece_type.unwrap())
            },
            MoveFlag::PromoteToQueen
            | MoveFlag::PromoteToRook
            | MoveFlag::PromoteToBishop
            | MoveFlag::PromoteToKnight => {
                self.handle_undo_promotion(piece_move);
                self.handle_undo_move(piece_move);
            },
            MoveFlag::Capture => {
                self.handle_undo_capture(piece_move, &captured_piece_type.unwrap());
            },
            MoveFlag::EnPassantCapture => {
                self.handle_undo_en_passant_capture(piece_move);
            },
            MoveFlag::Castling => {
                self.handle_undo_castle(piece_move);
            },
            MoveFlag::DoublePawnPush => {
                self.handle_undo_double_pawn_push(piece_move);
            },
            MoveFlag::Normal => {
                self.handle_undo_move(piece_move);
            },
            MoveFlag::NoMove => {},
        }
        assert(self.pieces@ =~= after.squares_before(*piece_move, captured_piece_type));
        let ghost moved = *self;
        let ghost rest_after = self.hsh;
        let ghost placed_after = placement_hash(self.pieces@, 64);
        let ghost rights_after = castle_hash(self.board_state.castle_rights);
        let ghost target_after = en_passant_hash(self.board_state.en_passant);
        self.hsh ^= self.calculate_castle_hsh();
        proof {
            lemma_xor_laws(self.hsh, 0, 0);
        }
        if let Some(ep_idx) = self.board_state.en_passant {
            self.hsh ^= EN_PASSANT_HSH[(ep_idx % 8) as usize];
        }
        proof {
            moved.lemma_same_placement(self);
            lemma_side_hash_other(after.side);
            lemma_signature_after_undo(
                h,
                p,
                c,
                e,
                s,
                rest_after,
                placed_after,
                rights_after,
                target_after,
                SIDE_TO_MOVE_HSH,
            );
        }
    }

    /// Whether two boards have the same pieces on the same squares.
    pub open spec fn same_placement(&self, other: &Board) -> bool {
        &&& self.bitboard == other.bitboard
        &&& self.occupied == other.occupied
        &&& self.pieces == other.pieces
    }

    /// `placement_wf` looks at the squares only.
    pub proof fn lemma_same_placement(&self, other: &Board)
        requires
            self.placement_wf(),
            self.same_placement(other),
        ensures
            other.placement_wf(),
    {
        assert forall|piece: Piece, color: Color, sq: int| 0 <= sq < 64 implies (
        #[trigger] bit_at(other.bb(piece, color), sq) <==> other.pieces[sq] == PieceColor::of(
            piece,
            color,
        )) by {
            assert(other.bb(piece, color) == self.bb(piece, color));
        }
        assert forall|color: Color, sq: int| 0 <= sq < 64 implies (#[trigger] bit_at(
            other.occ(color),
            sq,
        ) <==> other.pieces[sq].color() == Some(color)) by {
            assert(other.occ(color) == self.occ(color));
        }
    }

    /// Puts the piece on the square `idx` if the square is empty, and
    /// takes it off if it stands there: the occupancy, the piece's
    /// bitboard, the array `pieces` and the signature change together.
    pub fn toggle_piece(&mut self, color: Color, piece: Piece, idx: u8)
        requires
            idx < 64,
            old(self).placement_wf(),
            old(self).pieces[idx as int] == PieceColor::Empty || old(self).pieces[idx as int]
                == PieceColor::of(piece, color),
        ensures
            final(self).placement_wf(),
            final(self).pieces@ == old(self).pieces@.update(
                idx as int,
                if old(self).pieces[idx as int] == PieceColor::Empty {
                    PieceColor::of(piece, color)
                } else {
                    PieceColor::Empty
                },
            ),
            final(self).residue() == old(self).residue(),
            final(self).side_to_move == old(self).side_to_move,
            final(self).board_state == old(self).board_state,
    {
        let bit: u64 = 1u64 << (idx as u64);
        let c = color.idx();
        let p = piece.idx();
        let piece_color = PieceColor::new(piece, color);
        proof {
            lemma_single_bit(self.occupied[c as int], idx as int, idx as int);
        }
        self.occupied[c] ^= bit;
        self.bitboard[p][c] ^= bit;
        proof {
            lemma_single_bit(self.occupied[c as int], idx as int, idx as int);
        }
        if self.occupied[c] & bit > 0 {
            self.pieces[idx as usize] = piece_color;
        } else {
            self.pieces[idx as usize] = PieceColor::Empty;
        }
        self.hsh ^= PIECE_COLOR_HSH[piece_color.idx()][idx as usize];
        proof {
            let key = PIECE_COLOR_HSH[piece_color.index()][idx as int];
            lemma_placement_hash_update(old(self).pieces@, idx as int, self.pieces[idx as int], 64);
            lemma_xor_toggle(old(self).hsh, placement_hash(old(self).pieces@, 64), key);
            assert(self.occ(color) == old(self).occ(color) ^ bit);
            assert(self.occ(color.other()) == old(self).occ(color.other()));
            assert(self.bb(piece, color) == old(self).bb(piece, color) ^ bit);
            assert forall|pc: Piece, cl: Color, sq: int| 0 <= sq < 64 implies (#[trigger] bit_at(
                self.bb(pc, cl),
                sq,
            ) <==> self.pieces[sq] == PieceColor::of(pc, cl)) by {
                assert(bit_at(old(self).bb(pc, cl), sq) <==> old(self).pieces[sq]
                    == PieceColor::of(pc, cl));
                lemma_single_bit(old(self).bb(pc, cl), idx as int, sq);
                if pc == piece && cl == color {
                } else {
                    assert(self.bb(pc, cl) == old(self).bb(pc, cl));
                }
            }
            assert forall|cl: Color, sq: int| 0 <= sq < 64 implies (#[trigger] bit_at(
                self.occ(cl),
                sq,
            ) <==> self.pieces[sq].color() == Some(cl)) by {
                assert(bit_at(old(self).occ(cl), sq) <==> old(self).pieces[sq].color() == Some(
                    cl,
                ));
                lemma_single_bit(old(self).occ(cl), idx as int, sq);
            }
        }
    }
}

} // verus!
