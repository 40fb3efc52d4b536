use vstd::prelude::*;
use crate::attack_tables::{KING_ATTACK, KNIGHT_ATTACK};
use crate::bits::{bit_at, lemma_bits_equal, lowest};
use crate::generate_moves::pawn::PawnStep;
use crate::piece::{Color, Piece, PieceColor};
use crate::piece_move::{MoveFlag, PieceMove};
use crate::position::{file_of, forward, on_board, pawn_home, promotion_rank, rank_of, Position};
use crate::rules::{king_home, ray_room};

verus! {

/// The lists that `pick` gives for the squares below `n`, joined in the
/// order of the squares, the lowest square first.
pub open spec fn gather(n: int, pick: spec_fn(int) -> Seq<PieceMove>) -> Seq<PieceMove>
    decreases n,
{
    if n <= 0 {
        Seq::empty()
    } else {
        gather(n - 1, pick) + pick(n - 1)
    }
}

/// Squares for which `pick` gives nothing add nothing.
pub proof fn lemma_gather_skip(from: int, to: int, pick: spec_fn(int) -> Seq<PieceMove>)
    requires
        0 <= from <= to,
        forall|sq: int| from <= sq < to ==> (#[trigger] pick(sq)).len() == 0,
    ensures
        gather(to, pick) == gather(from, pick),
    decreases to - from,
{
    if from < to {
        lemma_gather_skip(from, to - 1, pick);
        assert(gather(to - 1, pick) + pick(to - 1) =~= gather(to - 1, pick));
    }
}

/// Two ways of picking that give the same for every square give the
/// same list.
pub proof fn lemma_gather_same(
    n: int,
    first: spec_fn(int) -> Seq<PieceMove>,
    second: spec_fn(int) -> Seq<PieceMove>,
)
    requires
        forall|sq: int| 0 <= sq < n ==> #[trigger] first(sq) == second(sq),
    ensures
        gather(n, first) == gather(n, second),
    decreases n,
{
    if n > 0 {
        lemma_gather_same(n - 1, first, second);
        assert(first(n - 1) == second(n - 1));
    }
}

/// For a square of `targets` the move from `from` to it with the flag
/// `flag`, for another square nothing.
pub open spec fn target_pick(from: u8, targets: u64, flag: MoveFlag) -> spec_fn(int) -> Seq<
    PieceMove,
> {
    |to: int|
        if bit_at(targets, to) {
            seq![PieceMove { from, to: to as u8, flag }]
        } else {
            Seq::empty()
        }
}

/// Whether a move with the flag `flag` may end on `to`: a capture where
/// a piece of the other player stands, a quiet move where nothing
/// stands.
pub open spec fn fits(squares: Seq<PieceColor>, us: Color, to: int, flag: MoveFlag) -> bool {
    ||| flag == MoveFlag::Normal && squares[to] == PieceColor::Empty
    ||| flag == MoveFlag::Capture && squares[to].color() == Some(us.other())
}

/// For a square of `reach` on which a move with the flag `flag` may
/// end, the move from `from` to it; for another square nothing.
pub open spec fn landing_pick(
    squares: Seq<PieceColor>,
    us: Color,
    from: u8,
    reach: u64,
    flag: MoveFlag,
) -> spec_fn(int) -> Seq<PieceMove> {
    |to: int|
        if bit_at(reach, to) && fits(squares, us, to, flag) {
            seq![PieceMove { from, to: to as u8, flag }]
        } else {
            Seq::empty()
        }
}

/// The moves of a piece of `us` that steps from `from` to the squares
/// of `reach`: the captures by target, lowest first, then the quiet
/// moves by target, lowest first.
pub open spec fn step_list(squares: Seq<PieceColor>, us: Color, from: u8, reach: u64) -> Seq<
    PieceMove,
> {
    gather(64, landing_pick(squares, us, from, reach, MoveFlag::Capture)) + gather(
        64,
        landing_pick(squares, us, from, reach, MoveFlag::Normal),
    )
}

/// For a square of `knight_pos` the moves of a knight of `us` from it.
pub open spec fn knight_pick(squares: Seq<PieceColor>, us: Color, knight_pos: u64) -> spec_fn(
    int,
) -> Seq<PieceMove> {
    |from: int|
        if bit_at(knight_pos, from) {
            step_list(squares, us, from as u8, KNIGHT_ATTACK[from])
        } else {
            Seq::empty()
        }
}

/// The moves of the knights of `us` on the squares of `knight_pos`, by
/// the knight's square, lowest first.
pub open spec fn knight_list(squares: Seq<PieceColor>, us: Color, knight_pos: u64) -> Seq<
    PieceMove,
> {
    gather(64, knight_pick(squares, us, knight_pos))
}

/// The moves of a piece of `us` that has come from `from` and walks on
/// from `(rank, file)` in the direction `(dr, df)`: a quiet move to each
/// empty square, nearest first, and last a capture of the first piece
/// met if it is the other player's.
pub open spec fn ray_list(
    squares: Seq<PieceColor>,
    us: Color,
    from: u8,
    rank: int,
    file: int,
    dr: int,
    df: int,
) -> Seq<PieceMove>
    decreases ray_room(rank, file, dr, df),
{
    if !on_board(rank, file) || (dr == 0 && df == 0) {
        Seq::empty()
    } else {
        let to = (8 * rank + file) as u8;
        if squares[8 * rank + file] == PieceColor::Empty {
            seq![PieceMove { from, to, flag: MoveFlag::Normal }] + ray_list(
                squares,
                us,
                from,
                rank + dr,
                file + df,
                dr,
                df,
            )
        } else if squares[8 * rank + file].color() == Some(us.other()) {
            seq![PieceMove { from, to, flag: MoveFlag::Capture }]
        } else {
            Seq::empty()
        }
    }
}

/// The moves of a piece of `us` that slides from `from` in the direction
/// `(dr, df)`, nearest target first.
pub open spec fn slide_list(squares: Seq<PieceColor>, us: Color, from: u8, dr: int, df: int)
    -> Seq<PieceMove> {
    ray_list(squares, us, from, rank_of(from as int) + dr, file_of(from as int) + df, dr, df)
}

/// The moves of a rook of `us` on `from`: towards the a-file, towards
/// the h-file, towards the first rank, towards the eighth rank.
pub open spec fn rook_from(squares: Seq<PieceColor>, us: Color, from: u8) -> Seq<PieceMove> {
    slide_list(squares, us, from, 0, -1) + slide_list(squares, us, from, 0, 1) + slide_list(
        squares,
        us,
        from,
        -1,
        0,
    ) + slide_list(squares, us, from, 1, 0)
}

/// The moves of a bishop of `us` on `from`, diagonal by diagonal:
/// down towards the a-file, up towards the a-file, down towards the
/// h-file, up towards the h-file.
pub open spec fn bishop_from(squares: Seq<PieceColor>, us: Color, from: u8) -> Seq<PieceMove> {
    slide_list(squares, us, from, -1, -1) + slide_list(squares, us, from, 1, -1) + slide_list(
        squares,
        us,
        from,
        -1,
        1,
    ) + slide_list(squares, us, from, 1, 1)
}

/// For a square of `rook_pos` the moves of a rook of `us` from it.
pub open spec fn rook_pick(squares: Seq<PieceColor>, us: Color, rook_pos: u64) -> spec_fn(
    int,
) -> Seq<PieceMove> {
    |from: int|
        if bit_at(rook_pos, from) {
            rook_from(squares, us, from as u8)
        } else {
            Seq::empty()
        }
}

/// For a square of `bishop_pos` the moves of a bishop of `us` from it.
pub open spec fn bishop_pick(squares: Seq<PieceColor>, us: Color, bishop_pos: u64) -> spec_fn(
    int,
) -> Seq<PieceMove> {
    |from: int|
        if bit_at(bishop_pos, from) {
            bishop_from(squares, us, from as u8)
        } else {
            Seq::empty()
        }
}

/// The moves of the rooks of `us` on the squares of `rook_pos`, by the
/// rook's square, lowest first.
pub open spec fn rook_list(squares: Seq<PieceColor>, us: Color, rook_pos: u64) -> Seq<PieceMove> {
    gather(64, rook_pick(squares, us, rook_pos))
}

/// The moves of the bishops of `us` on the squares of `bishop_pos`, by
/// the bishop's square, lowest first.
pub open spec fn bishop_list(squares: Seq<PieceColor>, us: Color, bishop_pos: u64) -> Seq<
    PieceMove,
> {
    gather(64, bishop_pick(squares, us, bishop_pos))
}

/// The moves of the queens of `us` on the squares of `queen_pos`: all
/// their moves as rooks, then all their moves as bishops.
pub open spec fn queen_list(squares: Seq<PieceColor>, us: Color, queen_pos: u64) -> Seq<
    PieceMove,
> {
    rook_list(squares, us, queen_pos) + bishop_list(squares, us, queen_pos)
}

/// The moves of one pawn of `us` that makes the step `step` from `from`
/// to `to`. On the last rank they are the four promotions, to bishop,
/// knight, queen and rook in this order, with capture if the step is
/// one; elsewhere the one move with the flag of the step, which for a
/// capture onto the en-passant target is `EnPassantCapture`.
pub open spec fn pawn_moves_to(
    step: PawnStep,
    us: Color,
    en_passant: Option<u8>,
    from: u8,
    to: u8,
) -> Seq<PieceMove> {
    match step {
        PawnStep::Push => if promotion_rank(us, to as int) {
            seq![
                PieceMove { from, to, flag: MoveFlag::PromoteToBishop },
                PieceMove { from, to, flag: MoveFlag::PromoteToKnight },
                PieceMove { from, to, flag: MoveFlag::PromoteToQueen },
                PieceMove { from, to, flag: MoveFlag::PromoteToRook },
            ]
        } else {
            seq![PieceMove { from, to, flag: MoveFlag::Normal }]
        },
        PawnStep::DoublePush => seq![PieceMove { from, to, flag: MoveFlag::DoublePawnPush }],
        PawnStep::Capture => if promotion_rank(us, to as int) {
            seq![
                PieceMove { from, to, flag: MoveFlag::PromoteToBishopAndCapture },
                PieceMove { from, to, flag: MoveFlag::PromoteToKnightAndCapture },
                PieceMove { from, to, flag: MoveFlag::PromoteToQueenAndCapture },
                PieceMove { from, to, flag: MoveFlag::PromoteToRookAndCapture },
            ]
        } else if en_passant == Some(to) {
            seq![PieceMove { from, to, flag: MoveFlag::EnPassantCapture }]
        } else {
            seq![PieceMove { from, to, flag: MoveFlag::Capture }]
        },
    }
}

/// For a square of `targets` the moves of the pawn that the step `step`
/// has taken there from `delta` squares below; for another square
/// nothing.
pub open spec fn pawn_bits_pick(
    targets: u64,
    delta: int,
    step: PawnStep,
    us: Color,
    en_passant: Option<u8>,
) -> spec_fn(int) -> Seq<PieceMove> {
    |to: int|
        if bit_at(targets, to) {
            pawn_moves_to(step, us, en_passant, (to - delta) as u8, to as u8)
        } else {
            Seq::empty()
        }
}

/// Whether a pawn of `us` on a square of `pawn_pos` reaches `to` with
/// the step `step`, which takes it `delta` squares up the board: a push
/// to an empty square; a double push from the home rank over two empty
/// squares; a capture, not across the edge of the board, of a piece of
/// the other player or onto the en-passant target.
pub open spec fn pawn_target(
    squares: Seq<PieceColor>,
    us: Color,
    en_passant: Option<u8>,
    pawn_pos: u64,
    step: PawnStep,
    delta: int,
    to: int,
) -> bool {
    let from = to - delta;
    &&& 0 <= to < 64
    &&& bit_at(pawn_pos, from)
    &&& match step {
        PawnStep::Push => squares[to] == PieceColor::Empty,
        PawnStep::DoublePush => {
            &&& pawn_home(us, from)
            &&& squares[to - forward(us)] == PieceColor::Empty
            &&& squares[to] == PieceColor::Empty
        },
        PawnStep::Capture => {
            &&& if delta == forward(us) - 1 {
                file_of(from) != 0
            } else {
                file_of(from) != 7
            }
            &&& (squares[to].color() == Some(us.other()) || en_passant == Some(to as u8))
        },
    }
}

/// For a square that a pawn reaches as `pawn_target` says, the moves of
/// that pawn to it; for another square nothing.
pub open spec fn pawn_pick(
    squares: Seq<PieceColor>,
    us: Color,
    en_passant: Option<u8>,
    pawn_pos: u64,
    step: PawnStep,
    delta: int,
) -> spec_fn(int) -> Seq<PieceMove> {
    |to: int|
        if pawn_target(squares, us, en_passant, pawn_pos, step, delta, to) {
            pawn_moves_to(step, us, en_passant, (to - delta) as u8, to as u8)
        } else {
            Seq::empty()
        }
}

/// The moves of the pawns of `us` on the squares of `pawn_pos`: the
/// single pushes, the double pushes, the captures towards the a-file
/// and the captures towards the h-file, each group by target, lowest
/// first.
pub open spec fn pawn_list(
    squares: Seq<PieceColor>,
    us: Color,
    en_passant: Option<u8>,
    pawn_pos: u64,
) -> Seq<PieceMove> {
    let ahead = forward(us);
    gather(64, pawn_pick(squares, us, en_passant, pawn_pos, PawnStep::Push, ahead)) + gather(
        64,
        pawn_pick(squares, us, en_passant, pawn_pos, PawnStep::DoublePush, 2 * ahead),
    ) + gather(64, pawn_pick(squares, us, en_passant, pawn_pos, PawnStep::Capture, ahead - 1))
        + gather(64, pawn_pick(squares, us, en_passant, pawn_pos, PawnStep::Capture, ahead + 1))
}

/// Whether the bitboard `bits` holds the squares on which `pc` stands,
/// and no others.
pub open spec fn marks(bits: u64, squares: Seq<PieceColor>, pc: PieceColor) -> bool {
    forall|sq: int| 0 <= sq < 64 ==> (#[trigger] bit_at(bits, sq) <==> squares[sq] == pc)
}

/// The bitboard of the squares on which `pc` stands.
pub open spec fn pieces_on(squares: Seq<PieceColor>, pc: PieceColor) -> u64 {
    choose|bits: u64| marks(bits, squares, pc)
}

/// A bitboard that holds the squares on which `pc` stands, and no
/// others, is `pieces_on(squares, pc)`.
pub proof fn lemma_pieces_on(squares: Seq<PieceColor>, pc: PieceColor, bits: u64)
    requires
        marks(bits, squares, pc),
    ensures
        pieces_on(squares, pc) == bits,
{
    let chosen = pieces_on(squares, pc);
    assert(marks(chosen, squares, pc));
    assert forall|sq: int| 0 <= sq < 64 implies bit_at(chosen, sq) == bit_at(bits, sq) by {
        assert(bit_at(chosen, sq) <==> squares[sq] == pc);
        assert(bit_at(bits, sq) <==> squares[sq] == pc);
    }
    lemma_bits_equal(chosen, bits);
}

/// The kind of piece in the place `i` of the order pawn, knight, bishop,
/// rook, queen, king.
pub open spec fn kind_at(i: int) -> Piece {
    if i <= 0 {
        Piece::Pawn
    } else if i == 1 {
        Piece::Knight
    } else if i == 2 {
        Piece::Bishop
    } else if i == 3 {
        Piece::Rook
    } else if i == 4 {
        Piece::Queen
    } else {
        Piece::King
    }
}

impl Position {
    /// The castling moves of the player to move: short castling, then
    /// long castling, each where the position allows it.
    pub open spec fn castle_list(self) -> Seq<PieceMove> {
        let home = king_home(self.side) as u8;
        let short = if self.can_castle_kingside() {
            seq![PieceMove { from: home, to: (home + 2) as u8, flag: MoveFlag::Castling }]
        } else {
            Seq::empty()
        };
        let long = if self.can_castle_queenside() {
            seq![PieceMove { from: home, to: (home - 2) as u8, flag: MoveFlag::Castling }]
        } else {
            Seq::empty()
        };
        short + long
    }

    /// The moves of the king of the player to move that stands on the
    /// lowest square of `king_pos`: its steps, then the castling moves.
    /// Without a king there are none.
    pub open spec fn king_list(self, king_pos: u64) -> Seq<PieceMove> {
        if king_pos == 0 {
            Seq::empty()
        } else {
            step_list(
                self.squares,
                self.side,
                lowest(king_pos) as u8,
                KING_ATTACK[lowest(king_pos)],
            ) + self.castle_list()
        }
    }

    /// The pseudo-legal moves of the pieces of the kind `piece` of the
    /// player to move, in the order in which they are generated.
    pub open spec fn candidates(self, piece: Piece) -> Seq<PieceMove> {
        let here = pieces_on(self.squares, PieceColor::of(piece, self.side));
        match piece {
            Piece::Pawn => pawn_list(self.squares, self.side, self.state.en_passant, here),
            Piece::Knight => knight_list(self.squares, self.side, here),
            Piece::Bishop => bishop_list(self.squares, self.side, here),
            Piece::Rook => rook_list(self.squares, self.side, here),
            Piece::Queen => queen_list(self.squares, self.side, here),
            Piece::King => self.king_list(here),
        }
    }

    /// The moves of `list` that leave the mover's king safe, in the
    /// order in which they stand in `list`.
    pub open spec fn safe_moves(self, list: Seq<PieceMove>) -> Seq<PieceMove>
        decreases list.len(),
    {
        if list.len() == 0 {
            Seq::empty()
        } else {
            let earlier = self.safe_moves(list.drop_last());
            if self.king_safe_after(list.last()) {
                earlier.push(list.last())
            } else {
                earlier
            }
        }
    }

    /// The pseudo-legal moves of the first `n` kinds of piece in the
    /// order pawn, knight, bishop, rook, queen, king.
    pub open spec fn candidates_upto(self, n: int) -> Seq<PieceMove>
        decreases n,
    {
        if n <= 0 {
            Seq::empty()
        } else {
            self.candidates_upto(n - 1) + self.candidates(kind_at(n - 1))
        }
    }

    /// The legal moves of the first `n` kinds of piece in the order
    /// pawn, knight, bishop, rook, queen, king.
    pub open spec fn legal_upto(self, n: int) -> Seq<PieceMove>
        decreases n,
    {
        if n <= 0 {
            Seq::empty()
        } else {
            self.legal_upto(n - 1) + self.safe_moves(self.candidates(kind_at(n - 1)))
        }
    }

    /// The lists by kind of piece, joined, are the lists of all the
    /// moves.
    pub proof fn lemma_all_kinds(self)
        ensures
            self.candidates_upto(6) == self.pseudo_legal_list(),
            self.legal_upto(6) == self.legal_list(),
    {
        reveal_with_fuel(Position::candidates_upto, 7);
        reveal_with_fuel(Position::legal_upto, 7);
        assert(self.candidates_upto(6) =~= self.pseudo_legal_list());
        assert(self.legal_upto(6) =~= self.legal_list());
    }

    /// All the pseudo-legal moves of the player to move, in the order
    /// in which they are generated: those of the pawns, the knights, the
    /// bishops, the rooks, the queens and the king.
    pub open spec fn pseudo_legal_list(self) -> Seq<PieceMove> {
        self.candidates(Piece::Pawn) + self.candidates(Piece::Knight) + self.candidates(
            Piece::Bishop,
        ) + self.candidates(Piece::Rook) + self.candidates(Piece::Queen) + self.candidates(
            Piece::King,
        )
    }

    /// All the legal moves of the player to move, in the order in which
    /// they are generated: for each kind of piece, in the order of
    /// `pseudo_legal_list`, the pseudo-legal moves that leave the
    /// mover's king safe.
    pub open spec fn legal_list(self) -> Seq<PieceMove> {
        self.safe_moves(self.candidates(Piece::Pawn)) + self.safe_moves(
            self.candidates(Piece::Knight),
        ) + self.safe_moves(self.candidates(Piece::Bishop)) + self.safe_moves(
            self.candidates(Piece::Rook),
        ) + self.safe_moves(self.candidates(Piece::Queen)) + self.safe_moves(
            self.candidates(Piece::King),
        )
    }
}

} // verus!
