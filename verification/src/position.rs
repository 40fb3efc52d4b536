use vstd::prelude::*;
use crate::board_state::{BoardState, CASTLING_RIGHTS_UPDATE};
use crate::piece::{Color, Piece, PieceColor};
use crate::piece_move::{MoveFlag, PieceMove};
use crate::zobrist::{castle_hash, en_passant_hash, placement_hash, side_hash};

verus! {

/// A position as the rules of the game see it: who is to move, what
/// stands on each of the 64 squares (square `8 * rank + file`, a1 first),
/// and the rights state. The bitboards of a `Board` are a second way to
/// write down `squares`; every contract of the library speaks of this
/// value.
pub struct Position {
    pub side: Color,
    pub squares: Seq<PieceColor>,
    pub state: BoardState,
}

/// The rank of a square, 0 for the first rank.
pub open spec fn rank_of(sq: int) -> int {
    sq / 8
}

/// The file of a square, 0 for the a-file.
pub open spec fn file_of(sq: int) -> int {
    sq % 8
}

/// Whether `(rank, file)` names a square of the board.
pub open spec fn on_board(rank: int, file: int) -> bool {
    0 <= rank < 8 && 0 <= file < 8
}

/// The step that a pawn of `side` makes when it advances one rank.
pub open spec fn forward(side: Color) -> int {
    match side {
        Color::White => 8,
        Color::Black => -8,
    }
}

/// Whether `sq` lies on the rank from which the pawns of `side` start.
pub open spec fn pawn_home(side: Color, sq: int) -> bool {
    match side {
        Color::White => 8 <= sq < 16,
        Color::Black => 48 <= sq < 56,
    }
}

/// Whether `sq` lies on the rank on which the pawns of `side` promote.
pub open spec fn promotion_rank(side: Color, sq: int) -> bool {
    match side {
        Color::White => 56 <= sq < 64,
        Color::Black => 0 <= sq < 8,
    }
}

/// Whether a castling king may end on `to`: g1, c1, g8 or c8.
pub open spec fn is_castle_target(to: int) -> bool {
    to == 6 || to == 2 || to == 62 || to == 58
}

/// The square that the rook leaves when the king castles to `to`.
pub open spec fn castle_rook_from(to: int) -> int {
    if to == 6 {
        7
    } else if to == 2 {
        0
    } else if to == 62 {
        63
    } else {
        56
    }
}

/// The square that the rook reaches when the king castles to `to`.
pub open spec fn castle_rook_to(to: int) -> int {
    if to == 6 {
        5
    } else if to == 2 {
        3
    } else if to == 62 {
        61
    } else {
        59
    }
}

/// The kind of the piece that starts on the back rank in the file `file`.
pub open spec fn back_rank_piece(file: int) -> Piece {
    if file == 0 || file == 7 {
        Piece::Rook
    } else if file == 1 || file == 6 {
        Piece::Knight
    } else if file == 2 || file == 5 {
        Piece::Bishop
    } else if file == 3 {
        Piece::Queen
    } else {
        Piece::King
    }
}

/// What stands on the square `sq` when a game begins.
pub open spec fn start_square(sq: int) -> PieceColor {
    if sq < 8 {
        PieceColor::of(back_rank_piece(sq), Color::White)
    } else if sq < 16 {
        PieceColor::WhitePawn
    } else if sq < 48 {
        PieceColor::Empty
    } else if sq < 56 {
        PieceColor::BlackPawn
    } else {
        PieceColor::of(back_rank_piece(sq - 56), Color::Black)
    }
}

impl Position {
    /// The position in which a game begins: White to move, all four
    /// castling rights, no en-passant target, nothing captured.
    pub open spec fn start() -> Position {
        Position {
            side: Color::White,
            squares: Seq::new(64, |sq: int| start_square(sq)),
            state: BoardState {
                castle_rights: 0x0F,
                en_passant: None,
                captured_piece_type: None,
            },
        }
    }

    /// Whether the en-passant target, if there is one, is the empty
    /// square behind a pawn of the player who has just moved.
    pub open spec fn en_passant_ok(self) -> bool {
        match self.state.en_passant {
            None => true,
            Some(target) => {
                let them = self.side.other();
                let skipped = target as int;
                &&& pawn_home(them, skipped - forward(them))
                &&& self.squares[skipped] == PieceColor::Empty
                &&& self.squares[skipped + forward(them)] == PieceColor::of(Piece::Pawn, them)
            },
        }
    }

    /// Whether neither player has more than one king.
    pub open spec fn kings_ok(self) -> bool {
        forall|a: int, b: int|
            0 <= a < 64 && 0 <= b < 64 && #[trigger] self.squares[a] == #[trigger] self.squares[b]
                && self.squares[a].piece() == Some(Piece::King) ==> a == b
    }

    /// The shape every position has: 64 squares, at most one king of
    /// each colour, four castling-right bits, and an en-passant target
    /// that fits the squares.
    pub open spec fn wf(self) -> bool {
        &&& self.squares.len() == 64
        &&& self.kings_ok()
        &&& self.state.castle_rights < 16
        &&& self.en_passant_ok()
    }

    /// The position's signature: the `^` of the keys of all that holds
    /// of it (each piece on its square, each castling right held, the file
    /// of the en-passant target, Black to move).
    pub open spec fn hash(self) -> u64 {
        placement_hash(self.squares, 64) ^ castle_hash(self.state.castle_rights)
            ^ en_passant_hash(self.state.en_passant) ^ side_hash(self.side)
    }

    /// Whether the pieces that the flag of `m` speaks of stand where `m`
    /// needs them: the player to move owns what stands on `m.from`, and
    /// the other squares that the move touches hold what its flag says.
    /// This asks nothing of how the piece on `m.from` moves.
    pub open spec fn move_ok(self, m: PieceMove) -> bool {
        let us = self.side;
        let them = us.other();
        let from = m.from as int;
        let to = m.to as int;
        &&& from < 64
        &&& to < 64
        &&& self.squares[from].color() == Some(us)
        &&& match m.flag {
            MoveFlag::Normal => self.squares[to] == PieceColor::Empty,
            MoveFlag::Capture => self.squares[to].color() == Some(them),
            MoveFlag::DoublePawnPush => {
                &&& self.squares[from] == PieceColor::of(Piece::Pawn, us)
                &&& pawn_home(us, from)
                &&& to == from + 2 * forward(us)
                &&& self.squares[from + forward(us)] == PieceColor::Empty
                &&& self.squares[to] == PieceColor::Empty
            },
            MoveFlag::EnPassantCapture => {
                let victim = to - forward(us);
                &&& self.squares[from] == PieceColor::of(Piece::Pawn, us)
                &&& self.squares[to] == PieceColor::Empty
                &&& 0 <= victim < 64
                &&& self.squares[victim] == PieceColor::of(Piece::Pawn, them)
            },
            MoveFlag::Castling => {
                &&& self.squares[from] == PieceColor::of(Piece::King, us)
                &&& is_castle_target(to)
                &&& self.squares[to] == PieceColor::Empty
                &&& self.squares[castle_rook_from(to)] == PieceColor::of(Piece::Rook, us)
                &&& self.squares[castle_rook_to(to)] == PieceColor::Empty
            },
            MoveFlag::NoMove => false,
            _ => {
                &&& self.squares[from] == PieceColor::of(Piece::Pawn, us)
                &&& if m.flag.takes_target() {
                    self.squares[to].color() == Some(them)
                } else {
                    self.squares[to] == PieceColor::Empty
                }
            },
        }
    }

    /// The squares after the move `m`.
    pub open spec fn squares_after(self, m: PieceMove) -> Seq<PieceColor> {
        let us = self.side;
        let from = m.from as int;
        let to = m.to as int;
        let moved = self.squares[from];
        let lifted = self.squares.update(from, PieceColor::Empty);
        match m.flag {
            MoveFlag::Normal | MoveFlag::Capture | MoveFlag::DoublePawnPush => lifted.update(
                to,
                moved,
            ),
            MoveFlag::EnPassantCapture => lifted.update(to - forward(us), PieceColor::Empty).update(
                to,
                moved,
            ),
            MoveFlag::Castling => lifted.update(to, moved).update(
                castle_rook_from(to),
                PieceColor::Empty,
            ).update(castle_rook_to(to), PieceColor::of(Piece::Rook, us)),
            MoveFlag::NoMove => self.squares,
            _ => lifted.update(to, PieceColor::of(m.flag.promotion().unwrap(), us)),
        }
    }

    /// The castling rights after the move `m`: a move that leaves or
    /// reaches a king's or a rook's home square ends the rights that
    /// need that piece there. An en-passant capture and a double pawn
    /// push touch no such square.
    pub open spec fn rights_after(self, m: PieceMove) -> u8 {
        let rights = self.state.castle_rights;
        let at_from = CASTLING_RIGHTS_UPDATE[m.from as int];
        let at_to = CASTLING_RIGHTS_UPDATE[m.to as int];
        match m.flag {
            MoveFlag::EnPassantCapture | MoveFlag::DoublePawnPush | MoveFlag::NoMove => rights,
            MoveFlag::Normal
            | MoveFlag::PromoteToQueen
            | MoveFlag::PromoteToRook
            | MoveFlag::PromoteToBishop
            | MoveFlag::PromoteToKnight => rights & at_from,
            _ => (rights & at_from) & at_to,
        }
    }

    /// The rights state after the move `m`: the rights of
    /// `rights_after`; an en-passant target only behind a pawn that has
    /// just made a double push; and the kind of the piece taken on
    /// `m.to`, where the move takes one there, else the tag as it was.
    pub open spec fn state_after(self, m: PieceMove) -> BoardState {
        BoardState {
            castle_rights: self.rights_after(m),
            en_passant: if m.flag == MoveFlag::DoublePawnPush {
                Some((m.from + forward(self.side)) as u8)
            } else {
                None
            },
            captured_piece_type: if m.flag.takes_target() {
                self.squares[m.to as int].piece()
            } else {
                self.state.captured_piece_type
            },
        }
    }

    /// The position after the move `m`, with the other player to move.
    pub open spec fn apply(self, m: PieceMove) -> Position {
        Position {
            side: self.side.other(),
            squares: self.squares_after(m),
            state: self.state_after(m),
        }
    }

    /// The squares before the move `m`, seen from the position that `m`
    /// led to; `captured` is the kind of the piece that `m` took on
    /// `m.to`, which the position after the move no longer shows.
    pub open spec fn squares_before(self, m: PieceMove, captured: Option<Piece>) -> Seq<
        PieceColor,
    > {
        let mover = self.side.other();
        let from = m.from as int;
        let to = m.to as int;
        let pawn = PieceColor::of(Piece::Pawn, mover);
        match m.flag {
            MoveFlag::Normal | MoveFlag::DoublePawnPush => self.squares.update(
                to,
                PieceColor::Empty,
            ).update(from, self.squares[to]),
            MoveFlag::Capture => self.squares.update(
                to,
                PieceColor::of(captured.unwrap(), self.side),
            ).update(from, self.squares[to]),
            MoveFlag::EnPassantCapture => self.squares.update(to, PieceColor::Empty).update(
                from,
                pawn,
            ).update(to - forward(mover), PieceColor::of(Piece::Pawn, self.side)),
            MoveFlag::Castling => self.squares.update(to, PieceColor::Empty).update(
                from,
                self.squares[to],
            ).update(castle_rook_to(to), PieceColor::Empty).update(
                castle_rook_from(to),
                PieceColor::of(Piece::Rook, mover),
            ),
            MoveFlag::NoMove => self.squares,
            _ => if m.flag.takes_target() {
                self.squares.update(to, PieceColor::of(captured.unwrap(), self.side)).update(
                    from,
                    pawn,
                )
            } else {
                self.squares.update(to, PieceColor::Empty).update(from, pawn)
            },
        }
    }

    /// The position before the move `m`: the player who made it is to
    /// move again, the pieces stand where they stood, and the rights
    /// state is `prior`, the one saved before the move.
    pub open spec fn revert(self, m: PieceMove, prior: BoardState, captured: Option<Piece>)
        -> Position {
        Position {
            side: self.side.other(),
            squares: self.squares_before(m, captured),
            state: prior,
        }
    }

    /// Whether `m` can have led to this position, and `prior` and
    /// `captured` can be what was saved before it: the moved piece stands
    /// on `m.to`, the squares that the move emptied are empty, a taken
    /// piece is named, and the position restored is well formed.
    pub open spec fn undo_ok(self, m: PieceMove, prior: BoardState, captured: Option<Piece>)
        -> bool {
        let mover = self.side.other();
        let from = m.from as int;
        let to = m.to as int;
        &&& from < 64
        &&& to < 64
        &&& self.squares[from] == PieceColor::Empty
        &&& self.squares[to].color() == Some(mover)
        &&& self.revert(m, prior, captured).wf()
        &&& match m.flag {
            MoveFlag::Normal => true,
            MoveFlag::Capture => captured is Some,
            MoveFlag::DoublePawnPush => self.squares[to] == PieceColor::of(Piece::Pawn, mover),
            MoveFlag::EnPassantCapture => {
                let victim = to - forward(mover);
                &&& self.squares[to] == PieceColor::of(Piece::Pawn, mover)
                &&& 0 <= victim < 64
                &&& victim != from
                &&& self.squares[victim] == PieceColor::Empty
            },
            MoveFlag::Castling => {
                &&& self.squares[to] == PieceColor::of(Piece::King, mover)
                &&& is_castle_target(to)
                &&& from != castle_rook_from(to)
                &&& self.squares[castle_rook_to(to)] == PieceColor::of(Piece::Rook, mover)
                &&& self.squares[castle_rook_from(to)] == PieceColor::Empty
            },
            MoveFlag::NoMove => false,
            _ => {
                &&& self.squares[to] == PieceColor::of(m.flag.promotion().unwrap(), mover)
                &&& m.flag.takes_target() ==> captured is Some
            },
        }
    }
}

} // verus!
