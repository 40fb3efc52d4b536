use vstd::prelude::*;
use crate::attack_tables::{king_step, knight_step};
use crate::board_state::{
    has_right, BLACK_KINGSIDE, BLACK_QUEENSIDE, WHITE_KINGSIDE, WHITE_QUEENSIDE,
};
use crate::piece::{Color, Piece, PieceColor};
use crate::piece_move::{MoveFlag, PieceMove};
use crate::position::{file_of, forward, on_board, pawn_home, promotion_rank, rank_of, Position};

verus! {

/// How many squares a walk from `(rank, file)` in the direction
/// `(dr, df)` can still visit before it leaves the board.
pub open spec fn ray_room(rank: int, file: int, dr: int, df: int) -> int {
    if !on_board(rank, file) {
        0
    } else if dr > 0 {
        8 - rank
    } else if dr < 0 {
        rank + 1
    } else if df > 0 {
        8 - file
    } else {
        file + 1
    }
}

/// The first square that is not empty on the walk that begins on
/// `(rank, file)` and goes on in the direction `(dr, df)`, if the walk
/// meets one before it leaves the board.
pub open spec fn first_piece(squares: Seq<PieceColor>, rank: int, file: int, dr: int, df: int)
    -> Option<int>
    decreases ray_room(rank, file, dr, df),
{
    if !on_board(rank, file) || (dr == 0 && df == 0) {
        None
    } else if squares[8 * rank + file] != PieceColor::Empty {
        Some(8 * rank + file)
    } else {
        first_piece(squares, rank + dr, file + df, dr, df)
    }
}

/// Whether the walk that begins on `(rank, file)` and goes on in the
/// direction `(dr, df)` over empty squares comes to the square `to`,
/// which itself may hold a piece.
pub open spec fn ray_reaches(
    squares: Seq<PieceColor>,
    rank: int,
    file: int,
    dr: int,
    df: int,
    to: int,
) -> bool
    decreases ray_room(rank, file, dr, df),
{
    if !on_board(rank, file) || (dr == 0 && df == 0) {
        false
    } else if 8 * rank + file == to {
        true
    } else if squares[8 * rank + file] != PieceColor::Empty {
        false
    } else {
        ray_reaches(squares, rank + dr, file + df, dr, df, to)
    }
}

/// `1`, `0` or `-1` as `x` is above, at or below zero.
pub open spec fn sign_of(x: int) -> int {
    if x > 0 {
        1
    } else if x < 0 {
        -1
    } else {
        0
    }
}

/// Whether the square `to` lies in the direction `(dr, df)` as seen from
/// the square `from`.
pub open spec fn heading(dr: int, df: int, from: int, to: int) -> bool {
    &&& sign_of(rank_of(to) - rank_of(from)) == dr
    &&& sign_of(file_of(to) - file_of(from)) == df
}

/// Whether a walk in the direction `(dr, df)` that has come to
/// `(rank, file)` has left the square `sq` behind.
pub open spec fn passed(dr: int, df: int, sq: int, rank: int, file: int) -> bool {
    if dr > 0 {
        rank > rank_of(sq)
    } else if dr < 0 {
        rank < rank_of(sq)
    } else if df > 0 {
        file > file_of(sq)
    } else {
        file < file_of(sq)
    }
}

/// Whether a bishop, rook or queen of `by` attacks `sq` along the
/// direction `(dr, df)` as seen from `sq`: the first piece in that
/// direction is a queen of `by`, or a rook on a rank or file, or a
/// bishop on a diagonal.
pub open spec fn slider_attacks(squares: Seq<PieceColor>, sq: int, by: Color, dr: int, df: int)
    -> bool {
    match first_piece(squares, rank_of(sq) + dr, file_of(sq) + df, dr, df) {
        Some(a) => squares[a] == PieceColor::of(Piece::Queen, by) || squares[a] == PieceColor::of(
            if dr == 0 || df == 0 {
                Piece::Rook
            } else {
                Piece::Bishop
            },
            by,
        ),
        None => false,
    }
}

/// Whether a pawn of `by` attacks `sq`: it stands one rank behind `sq`,
/// as `by` advances, on a neighbouring file.
pub open spec fn pawn_attacks(squares: Seq<PieceColor>, sq: int, by: Color) -> bool {
    let behind = sq - forward(by);
    &&& 0 <= behind < 64
    &&& {
        ||| file_of(sq) != 0 && squares[behind - 1] == PieceColor::of(Piece::Pawn, by)
        ||| file_of(sq) != 7 && squares[behind + 1] == PieceColor::of(Piece::Pawn, by)
    }
}

/// Whether a knight of `by` stands a knight's move away from `sq`.
pub open spec fn knight_attacks(squares: Seq<PieceColor>, sq: int, by: Color) -> bool {
    exists|a: int|
        0 <= a < 64 && #[trigger] squares[a] == PieceColor::of(Piece::Knight, by) && knight_step(
            a,
            sq,
        )
}

/// Whether a king of `by` stands next to `sq`.
pub open spec fn king_attacks(squares: Seq<PieceColor>, sq: int, by: Color) -> bool {
    exists|a: int|
        0 <= a < 64 && #[trigger] squares[a] == PieceColor::of(Piece::King, by) && king_step(a, sq)
}

/// Whether some piece of `by` attacks the square `sq`.
pub open spec fn attacked_by(squares: Seq<PieceColor>, sq: int, by: Color) -> bool {
    ||| slider_attacks(squares, sq, by, -1, -1)
    ||| slider_attacks(squares, sq, by, 1, -1)
    ||| slider_attacks(squares, sq, by, -1, 1)
    ||| slider_attacks(squares, sq, by, 1, 1)
    ||| slider_attacks(squares, sq, by, -1, 0)
    ||| slider_attacks(squares, sq, by, 1, 0)
    ||| slider_attacks(squares, sq, by, 0, -1)
    ||| slider_attacks(squares, sq, by, 0, 1)
    ||| knight_attacks(squares, sq, by)
    ||| pawn_attacks(squares, sq, by)
    ||| king_attacks(squares, sq, by)
}

/// Whether `color` has a king on the board.
pub open spec fn has_king(squares: Seq<PieceColor>, color: Color) -> bool {
    exists|k: int| 0 <= k < 64 && #[trigger] squares[k] == PieceColor::of(Piece::King, color)
}

/// The square on which the king of `color` stands.
pub open spec fn king_square(squares: Seq<PieceColor>, color: Color) -> int {
    choose|k: int| 0 <= k < 64 && #[trigger] squares[k] == PieceColor::of(Piece::King, color)
}

/// Whether the flag of `m` fits what stands on its target: `Normal` to
/// an empty square, `Capture` to a square that holds a piece of the
/// other player.
pub open spec fn lands(squares: Seq<PieceColor>, us: Color, m: PieceMove) -> bool {
    ||| squares[m.to as int] == PieceColor::Empty && m.flag == MoveFlag::Normal
    ||| squares[m.to as int].color() == Some(us.other()) && m.flag == MoveFlag::Capture
}

/// Whether `m` slides a piece of `us` from `m.from` in the direction
/// `(dr, df)` over empty squares to `m.to`.
pub open spec fn slide_move(squares: Seq<PieceColor>, us: Color, dr: int, df: int, m: PieceMove)
    -> bool {
    &&& m.from < 64
    &&& m.to < 64
    &&& ray_reaches(
        squares,
        rank_of(m.from as int) + dr,
        file_of(m.from as int) + df,
        dr,
        df,
        m.to as int,
    )
    &&& lands(squares, us, m)
}

/// Whether `m` is a rook's move: a slide along a rank or a file.
pub open spec fn straight_move(squares: Seq<PieceColor>, us: Color, m: PieceMove) -> bool {
    ||| slide_move(squares, us, 0, -1, m)
    ||| slide_move(squares, us, 0, 1, m)
    ||| slide_move(squares, us, -1, 0, m)
    ||| slide_move(squares, us, 1, 0, m)
}

/// Whether `m` is a bishop's move: a slide along a diagonal.
pub open spec fn diagonal_move(squares: Seq<PieceColor>, us: Color, m: PieceMove) -> bool {
    ||| slide_move(squares, us, -1, -1, m)
    ||| slide_move(squares, us, 1, -1, m)
    ||| slide_move(squares, us, -1, 1, m)
    ||| slide_move(squares, us, 1, 1, m)
}

/// Whether `m` is a knight's move.
pub open spec fn knight_move(squares: Seq<PieceColor>, us: Color, m: PieceMove) -> bool {
    &&& m.from < 64
    &&& m.to < 64
    &&& knight_step(m.from as int, m.to as int)
    &&& lands(squares, us, m)
}

/// Whether `m` is a king's move to a neighbouring square.
pub open spec fn king_move(squares: Seq<PieceColor>, us: Color, m: PieceMove) -> bool {
    &&& m.from < 64
    &&& m.to < 64
    &&& king_step(m.from as int, m.to as int)
    &&& lands(squares, us, m)
}

/// Whether a pawn of `us` on `from` captures on `to`: one rank ahead, on
/// a neighbouring file.
pub open spec fn pawn_capture_step(us: Color, from: int, to: int) -> bool {
    &&& 0 <= to < 64
    &&& {
        ||| to == from + forward(us) - 1 && file_of(from) != 0
        ||| to == from + forward(us) + 1 && file_of(from) != 7
    }
}

/// Whether `m` is a move of a pawn of `us`, with `en_passant` the
/// en-passant target: a push to the empty square ahead, a double push
/// from the home rank over two empty squares, a capture of a piece one
/// rank ahead on a neighbouring file, or an en-passant capture onto the
/// target. A pawn that reaches the last rank promotes, and the flag says
/// to what.
pub open spec fn pawn_move(
    squares: Seq<PieceColor>,
    us: Color,
    en_passant: Option<u8>,
    m: PieceMove,
) -> bool {
    let from = m.from as int;
    let to = m.to as int;
    &&& from < 64
    &&& to < 64
    &&& {
        ||| {
            &&& to == from + forward(us)
            &&& squares[to] == PieceColor::Empty
            &&& if promotion_rank(us, to) {
                m.flag.promotion() is Some && !m.flag.takes_target()
            } else {
                m.flag == MoveFlag::Normal
            }
        }
        ||| {
            &&& pawn_home(us, from)
            &&& to == from + 2 * forward(us)
            &&& squares[from + forward(us)] == PieceColor::Empty
            &&& squares[to] == PieceColor::Empty
            &&& m.flag == MoveFlag::DoublePawnPush
        }
        ||| {
            &&& pawn_capture_step(us, from, to)
            &&& squares[to].color() == Some(us.other())
            &&& if promotion_rank(us, to) {
                m.flag.promotion() is Some && m.flag.takes_target()
            } else {
                m.flag == MoveFlag::Capture
            }
        }
        ||| {
            &&& pawn_capture_step(us, from, to)
            &&& en_passant == Some(m.to)
            &&& m.flag == MoveFlag::EnPassantCapture
        }
    }
}

/// The square on which the king of `us` starts: e1 or e8.
pub open spec fn king_home(us: Color) -> int {
    match us {
        Color::White => 4,
        Color::Black => 60,
    }
}

/// The castling-rights bit of the short castling of `us`.
pub open spec fn kingside_right(us: Color) -> u8 {
    match us {
        Color::White => WHITE_KINGSIDE,
        Color::Black => BLACK_KINGSIDE,
    }
}

/// The castling-rights bit of the long castling of `us`.
pub open spec fn queenside_right(us: Color) -> u8 {
    match us {
        Color::White => WHITE_QUEENSIDE,
        Color::Black => BLACK_QUEENSIDE,
    }
}

impl Position {
    /// Whether the player to move may castle short but for the square
    /// on which the king ends: the right is held, king and rook stand
    /// on their home squares with nothing between them, and the other
    /// player attacks neither the king's square nor the square that the
    /// king passes.
    pub open spec fn can_castle_kingside(self) -> bool {
        let us = self.side;
        let home = king_home(us);
        &&& has_right(self.state.castle_rights, kingside_right(us))
        &&& self.squares[home] == PieceColor::of(Piece::King, us)
        &&& self.squares[home + 1] == PieceColor::Empty
        &&& self.squares[home + 2] == PieceColor::Empty
        &&& self.squares[home + 3] == PieceColor::of(Piece::Rook, us)
        &&& !attacked_by(self.squares, home, us.other())
        &&& !attacked_by(self.squares, home + 1, us.other())
    }

    /// Whether the player to move may castle long but for the square on
    /// which the king ends: as `can_castle_kingside`, towards the a-file,
    /// where three squares lie between king and rook.
    pub open spec fn can_castle_queenside(self) -> bool {
        let us = self.side;
        let home = king_home(us);
        &&& has_right(self.state.castle_rights, queenside_right(us))
        &&& self.squares[home] == PieceColor::of(Piece::King, us)
        &&& self.squares[home - 1] == PieceColor::Empty
        &&& self.squares[home - 2] == PieceColor::Empty
        &&& self.squares[home - 3] == PieceColor::Empty
        &&& self.squares[home - 4] == PieceColor::of(Piece::Rook, us)
        &&& !attacked_by(self.squares, home, us.other())
        &&& !attacked_by(self.squares, home - 1, us.other())
    }

    /// Whether `m` castles: the king goes two squares from its home
    /// square towards a rook, under `can_castle_kingside` or
    /// `can_castle_queenside`.
    pub open spec fn castle_move(self, m: PieceMove) -> bool {
        let home = king_home(self.side);
        &&& m.flag == MoveFlag::Castling
        &&& m.from == home
        &&& {
            ||| m.to == home + 2 && self.can_castle_kingside()
            ||| m.to == home - 2 && self.can_castle_queenside()
        }
    }

    /// Whether `m` moves a piece of the kind `piece` as that piece
    /// moves, whatever becomes of the mover's king.
    pub open spec fn piece_move(self, piece: Piece, m: PieceMove) -> bool {
        let us = self.side;
        match piece {
            Piece::Pawn => pawn_move(self.squares, us, self.state.en_passant, m),
            Piece::Knight => knight_move(self.squares, us, m),
            Piece::Bishop => diagonal_move(self.squares, us, m),
            Piece::Rook => straight_move(self.squares, us, m),
            Piece::Queen => straight_move(self.squares, us, m) || diagonal_move(
                self.squares,
                us,
                m,
            ),
            Piece::King => king_move(self.squares, us, m) || self.castle_move(m),
        }
    }

    /// The place of the piece that `m` moves in the order pawn, knight,
    /// bishop, rook, queen, king.
    pub open spec fn mover_rank(self, m: PieceMove) -> int {
        match self.squares[m.from as int].piece() {
            Some(piece) => piece.index(),
            None => 6,
        }
    }

    /// Whether the moves of `list` stand in the order of the pieces that
    /// they move: the pawns' moves first, the king's last.
    pub open spec fn sorted_by_piece(self, list: Seq<PieceMove>) -> bool {
        forall|i: int, j: int|
            0 <= i < j < list.len() ==> self.mover_rank(#[trigger] list[i]) <= self.mover_rank(
                #[trigger] list[j],
            )
    }

    /// Whether `m` is pseudo-legal: a piece of the player to move stands
    /// on `m.from`, and `m` moves it as that piece moves.
    pub open spec fn pseudo_legal(self, m: PieceMove) -> bool {
        &&& m.from < 64
        &&& self.squares[m.from as int].color() == Some(self.side)
        &&& self.piece_move(self.squares[m.from as int].piece().unwrap(), m)
    }

    /// Whether the king of the player to move is attacked.
    pub open spec fn in_check(self) -> bool {
        attacked_by(self.squares, king_square(self.squares, self.side), self.side.other())
    }

    /// Whether, after the move `m`, the other player does not attack the
    /// king of the player who made it.
    pub open spec fn king_safe_after(self, m: PieceMove) -> bool {
        !attacked_by(
            self.apply(m).squares,
            king_square(self.apply(m).squares, self.side),
            self.side.other(),
        )
    }

    /// Whether `m` is legal: pseudo-legal, and after it the other
    /// player does not attack the mover's king.
    pub open spec fn legal(self, m: PieceMove) -> bool {
        &&& self.pseudo_legal(m)
        &&& self.king_safe_after(m)
    }
}

/// A walk comes only to squares that lie in its direction.
pub proof fn lemma_ray_heading(
    squares: Seq<PieceColor>,
    from: int,
    rank: int,
    file: int,
    dr: int,
    df: int,
    to: int,
)
    requires
        0 <= from < 64,
        -1 <= dr <= 1,
        -1 <= df <= 1,
        sign_of(rank - rank_of(from)) == dr,
        sign_of(file - file_of(from)) == df,
        ray_reaches(squares, rank, file, dr, df, to),
    ensures
        heading(dr, df, from, to),
    decreases ray_room(rank, file, dr, df),
{
    if 8 * rank + file != to {
        lemma_ray_heading(squares, from, rank + dr, file + df, dr, df, to);
    }
}

/// A slide ends in the direction in which it goes.
pub proof fn lemma_slide_heading(squares: Seq<PieceColor>, us: Color, dr: int, df: int, m: PieceMove)
    requires
        -1 <= dr <= 1,
        -1 <= df <= 1,
        slide_move(squares, us, dr, df, m),
    ensures
        heading(dr, df, m.from as int, m.to as int),
{
    let from = m.from as int;
    lemma_ray_heading(
        squares,
        from,
        rank_of(from) + dr,
        file_of(from) + df,
        dr,
        df,
        m.to as int,
    );
}

/// A slide goes in one direction only.
pub proof fn lemma_one_direction(
    squares: Seq<PieceColor>,
    us: Color,
    dr: int,
    df: int,
    dr2: int,
    df2: int,
    m: PieceMove,
)
    requires
        -1 <= dr <= 1,
        -1 <= df <= 1,
        -1 <= dr2 <= 1,
        -1 <= df2 <= 1,
        slide_move(squares, us, dr, df, m),
        slide_move(squares, us, dr2, df2, m),
    ensures
        dr == dr2,
        df == df2,
{
    lemma_slide_heading(squares, us, dr, df, m);
    lemma_slide_heading(squares, us, dr2, df2, m);
}

/// No move is both a rook's and a bishop's.
pub proof fn lemma_straight_not_diagonal(squares: Seq<PieceColor>, us: Color, m: PieceMove)
    ensures
        !(straight_move(squares, us, m) && diagonal_move(squares, us, m)),
{
    if straight_move(squares, us, m) && diagonal_move(squares, us, m) {
        let (dr, df): (int, int) = if slide_move(squares, us, 0, -1, m) {
            (0, -1)
        } else if slide_move(squares, us, 0, 1, m) {
            (0, 1)
        } else if slide_move(squares, us, -1, 0, m) {
            (-1, 0)
        } else {
            (1, 0)
        };
        let (dr2, df2): (int, int) = if slide_move(squares, us, -1, -1, m) {
            (-1, -1)
        } else if slide_move(squares, us, 1, -1, m) {
            (1, -1)
        } else if slide_move(squares, us, -1, 1, m) {
            (-1, 1)
        } else {
            (1, 1)
        };
        lemma_one_direction(squares, us, dr, df, dr2, df2, m);
    }
}

} // verus!
