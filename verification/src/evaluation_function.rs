use vstd::prelude::*;
use crate::bits::{bit_at, lemma_lowest, lemma_no_bits, lemma_pop_lowest, lowest};
use crate::board::Board;
use crate::game::{Game, GameEnum, GameView};
use crate::game_rules::{count_bits, end_status, lemma_count_bits_bound};
use crate::piece::{Color, Piece};
use crate::piece_move::PieceMove;
use crate::random::choose_move;

verus! {

pub const PAWN_VALUE: i32 = 100;

pub const KNIGHT_VALUE: i32 = 320;

pub const BISHOP_VALUE: i32 = 330;

pub const ROOK_VALUE: i32 = 500;

pub const QUEEN_VALUE: i32 = 900;

/// The score of a game that White has won; Black's win scores the
/// opposite.
pub const MATE_VALUE: i32 = 20000;

/// What each square is worth to a pawn.
pub const PAWN_PST: [i32; 64] = [
    0, 0, 0, 0, 0, 0, 0, 0,
    50, 50, 50, 50, 50, 50, 50, 50,
    10, 10, 20, 30, 30, 20, 10, 10,
    5, 5, 10, 25, 25, 10, 5, 5,
    0, 0, 0, 20, 20, 0, 0, 0,
    5, -5, -10, 0, 0, -10, -5, 5,
    5, 10, 10, -20, -20, 10, 10, 5,
    0, 0, 0, 0, 0, 0, 0, 0,
];

/// What each square is worth to a knight.
pub const KNIGHT_PST: [i32; 64] = [
    -50, -40, -30, -30, -30, -30, -40, -50,
    -40, -20, 0, 0, 0, 0, -20, -40,
    -30, 0, 10, 15, 15, 10, 0, -30,
    -30, 5, 15, 20, 20, 15, 5, -30,
    -30, 0, 15, 20, 20, 15, 0, -30,
    -30, 5, 10, 15, 15, 10, 5, -30,
    -40, -20, 0, 5, 5, 0, -20, -40,
    -50, -40, -30, -30, -30, -30, -40, -50,
];

/// What each square is worth to a bishop.
pub const BISHOP_PST: [i32; 64] = [
    -20, -10, -10, -10, -10, -10, -10, -20,
    -10, 0, 0, 0, 0, 0, 0, -10,
    -10, 0, 5, 10, 10, 5, 0, -10,
    -10, 5, 5, 10, 10, 5, 5, -10,
    -10, 0, 10, 10, 10, 10, 0, -10,
    -10, 10, 10, 10, 10, 10, 10, -10,
    -10, 5, 0, 0, 0, 0, 5, -10,
    -20, -10, -10, -10, -10, -10, -10, -20,
];

/// What each square is worth to a rook.
pub const ROOK_PST: [i32; 64] = [
    0, 0, 0, 0, 0, 0, 0, 0,
    5, 10, 10, 10, 10, 10, 10, 5,
    -5, 0, 0, 0, 0, 0, 0, -5,
    -5, 0, 0, 0, 0, 0, 0, -5,
    -5, 0, 0, 0, 0, 0, 0, -5,
    -5, 0, 0, 0, 0, 0, 0, -5,
    -5, 0, 0, 0, 0, 0, 0, -5,
    0, 0, 0, 5, 5, 0, 0, 0,
];

/// What each square is worth to a queen.
pub const QUEEN_PST: [i32; 64] = [
    -20, -10, -10, -5, -5, -10, -10, -20,
    -10, 0, 0, 0, 0, 0, 0, -10,
    -10, 0, 5, 5, 5, 5, 0, -10,
    -5, 0, 5, 5, 5, 5, 0, -5,
    0, 0, 5, 5, 5, 5, 0, -5,
    -10, 5, 5, 5, 5, 5, 0, -10,
    -10, 0, 5, 0, 0, 0, 0, -10,
    -20, -10, -10, -5, -5, -10, -10, -20,
];

/// What each square is worth to a king while a queen is on the board.
pub const KING_MIDDLE_GAME_PST: [i32; 64] = [
    -30, -40, -40, -50, -50, -40, -40, -30,
    -30, -40, -40, -50, -50, -40, -40, -30,
    -30, -40, -40, -50, -50, -40, -40, -30,
    -30, -40, -40, -50, -50, -40, -40, -30,
    -20, -30, -30, -40, -40, -30, -30, -20,
    -10, -20, -20, -20, -20, -20, -20, -10,
    20, 20, 0, 0, 0, 0, 20, 20,
    20, 30, 10, 0, 0, 10, 30, 20,
];

/// What each square is worth to a king once the queens are gone.
pub const KING_END_GAME_PST: [i32; 64] = [
    -50, -40, -30, -20, -20, -30, -40, -50,
    -30, -20, -10, 0, 0, -10, -20, -30,
    -30, -10, 20, 30, 30, 20, -10, -30,
    -30, -10, 30, 40, 40, 30, -10, -30,
    -30, -10, 30, 40, 40, 30, -10, -30,
    -30, -10, 20, 30, 30, 20, -10, -30,
    -30, -30, 0, 0, 0, 0, -30, -30,
    -50, -30, -30, -30, -30, -30, -30, -50,
];

/// The square that lies as far from the eighth rank as `sq` lies from
/// the first, on the same file.
pub open spec fn mirror(sq: int) -> int {
    8 * (7 - sq / 8) + sq % 8
}

/// The worth, by the table `pst`, of the squares below `n` that the
/// bitboard `bits` holds. The table is read as it stands for White and
/// mirrored for Black.
pub open spec fn placed_sum(bits: u64, pst: Seq<i32>, is_white: bool, n: int) -> int
    decreases n,
{
    if n <= 0 {
        0
    } else {
        placed_sum(bits, pst, is_white, n - 1) + if bit_at(bits, n - 1) {
            pst[if is_white {
                n - 1
            } else {
                mirror(n - 1)
            }] as int
        } else {
            0
        }
    }
}

/// Whether the table has an entry for each square, none beyond `bound`
/// either way.
pub open spec fn table_within(pst: Seq<i32>, bound: int) -> bool {
    pst.len() == 64 && forall|i: int| 0 <= i < 64 ==> -bound <= #[trigger] pst[i] <= bound
}

/// Whether no entry of the table is beyond 50 either way.
pub open spec fn small_table(pst: Seq<i32>) -> bool {
    table_within(pst, 50)
}

/// The greatest entry of a table whose sum over all 64 squares still
/// fits the score.
pub const MAX_TABLE_ENTRY: i32 = 33554431;

/// How many more pieces of the kind `piece` White has than Black.
pub open spec fn lead(board: Board, piece: Piece) -> int {
    count_bits(board.bb(piece, Color::White), 64) - count_bits(board.bb(piece, Color::Black), 64)
}

/// The balance of material: each kind of piece at its value, White's
/// pieces counted for and Black's against.
pub open spec fn material(board: Board) -> int {
    lead(board, Piece::Pawn) * 100 + lead(board, Piece::Knight) * 320 + lead(
        board,
        Piece::Bishop,
    ) * 330 + lead(board, Piece::Rook) * 500 + lead(board, Piece::Queen) * 900
}

/// The balance of one kind of piece by where the pieces stand.
pub open spec fn placed(board: Board, piece: Piece, pst: Seq<i32>) -> int {
    placed_sum(board.bb(piece, Color::White), pst, true, 64) - placed_sum(
        board.bb(piece, Color::Black),
        pst,
        false,
        64,
    )
}

/// The table by which the kings are judged: that of the endgame once
/// neither player has a queen.
pub open spec fn king_table(board: Board) -> Seq<i32> {
    if count_bits(board.bb(Piece::Queen, Color::White), 64) == 0 && count_bits(
        board.bb(Piece::Queen, Color::Black),
        64,
    ) == 0 {
        KING_END_GAME_PST@
    } else {
        KING_MIDDLE_GAME_PST@
    }
}

/// The balance of the position by where the pieces stand.
pub open spec fn placement(board: Board) -> int {
    placed(board, Piece::Pawn, PAWN_PST@) + placed(board, Piece::Knight, KNIGHT_PST@) + placed(
        board,
        Piece::Bishop,
        BISHOP_PST@,
    ) + placed(board, Piece::Rook, ROOK_PST@) + placed(board, Piece::Queen, QUEEN_PST@) + placed(
        board,
        Piece::King,
        king_table(board),
    )
}

/// The score of a game as White sees it: `MATE_VALUE` for a game won,
/// its opposite for a game lost, `0` for a draw, and material plus
/// placement for a game still played.
pub open spec fn evaluation(status: GameEnum, board: Board) -> int {
    match status {
        GameEnum::WhiteWon => 20000,
        GameEnum::BlackWon => -20000,
        GameEnum::InAction => material(board) + placement(board),
        _ => 0,
    }
}

proof fn bv_mirror(sq: u32)
    by (bit_vector)
    requires
        sq < 64,
    ensures
        sq ^ 56 < 64,
        sq ^ 56 == 8 * (7 - sq / 8) + sq % 8,
{
}

/// Squares that a bitboard does not hold add nothing.
proof fn lemma_placed_sum_skip(bits: u64, pst: Seq<i32>, is_white: bool, from: int, to: int)
    requires
        0 <= from <= to,
        forall|sq: int| from <= sq < to ==> !bit_at(bits, sq),
    ensures
        placed_sum(bits, pst, is_white, to) == placed_sum(bits, pst, is_white, from),
    decreases to - from,
{
    if from < to {
        lemma_placed_sum_skip(bits, pst, is_white, from, to - 1);
    }
}

/// The worth of `n` squares by a table within `bound` is at most
/// `bound * n` either way.
pub proof fn lemma_placed_sum_bound(
    bits: u64,
    pst: Seq<i32>,
    is_white: bool,
    n: int,
    bound: int,
)
    requires
        0 <= n <= 64,
        table_within(pst, bound),
    ensures
        -(bound * n) <= placed_sum(bits, pst, is_white, n) <= bound * n,
    decreases n,
{
    assert(-bound <= pst[0] <= bound);
    if n > 0 {
        lemma_placed_sum_bound(bits, pst, is_white, n - 1, bound);
        assert(bound * n == bound * (n - 1) + bound) by (nonlinear_arith);
        let at = if is_white {
            n - 1
        } else {
            mirror(n - 1)
        };
        assert(0 <= at < 64);
        assert(-bound <= pst[at] <= bound);
    } else {
        assert(bound * n == 0) by (nonlinear_arith)
            requires
                n == 0,
        ;
    }
}

/// The worth, by the table `pst`, of the squares that `bitboard` holds.
/// The entries of the table are small enough for the sum to fit.
pub fn evaluate_bitboard(bitboard: u64, pst: &[i32; 64], is_white: bool) -> (score: i32)
    requires
        table_within(pst@, MAX_TABLE_ENTRY as int),
    ensures
        score == placed_sum(bitboard, pst@, is_white, 64),
{
    let mut score: i32 = 0;
    let mut left = bitboard;
    let ghost mut done: int = 0;
    while left != 0
        invariant
            table_within(pst@, 33554431),
            0 <= done <= 64,
            forall|sq: int| bit_at(left, sq) <==> (bit_at(bitboard, sq) && sq >= done),
            score == placed_sum(bitboard, pst@, is_white, done),
        decreases left,
    {
        proof {
            lemma_lowest(left);
            lemma_placed_sum_skip(bitboard, pst@, is_white, done, lowest(left));
            lemma_placed_sum_bound(bitboard, pst@, is_white, lowest(left), 33554431);
            bv_mirror(lowest(left) as u32);
        }
        let sq = left.trailing_zeros();
        let ghost left_before = left;
        left &= left - 1;
        if is_white {
            score += pst[sq as usize];
        } else {
            score += pst[(sq ^ 56) as usize];
        }
        proof {
            lemma_pop_lowest(left_before, 0);
            assert forall|s: int| bit_at(left, s) <==> (bit_at(bitboard, s) && s >= sq + 1) by {
                if 0 <= s < 64 {
                    lemma_pop_lowest(left_before, s);
                }
            }
            done = sq + 1;
        }
    }
    proof {
        lemma_no_bits();
        lemma_placed_sum_skip(bitboard, pst@, is_white, done, 64);
    }
    score
}

/// The seven tables are small.
proof fn lemma_small_tables()
    ensures
        small_table(PAWN_PST@),
        small_table(KNIGHT_PST@),
        small_table(BISHOP_PST@),
        small_table(ROOK_PST@),
        small_table(QUEEN_PST@),
        small_table(KING_MIDDLE_GAME_PST@),
        small_table(KING_END_GAME_PST@),
{
}

/// The balance of one kind of piece by where the pieces stand.
fn evaluate_piece(game: &Game, piece: Piece, pst: &[i32; 64]) -> (score: i32)
    requires
        small_table(pst@),
    ensures
        score == placed(game.board, piece, pst@),
        -6400 <= score <= 6400,
{
    proof {
        lemma_placed_sum_bound(game.board.bb(piece, Color::White), pst@, true, 64, 50);
        lemma_placed_sum_bound(game.board.bb(piece, Color::Black), pst@, false, 64, 50);
    }
    let ours = evaluate_bitboard(game.board.piece_bitboard(piece, Color::White), pst, true);
    let theirs = evaluate_bitboard(game.board.piece_bitboard(piece, Color::Black), pst, false);
    ours - theirs
}

/// The balance of the position by where the pieces stand.
pub fn evaluate_pos(game: &Game) -> (score: i32)
    ensures
        score == placement(game.board),
        -38400 <= score <= 38400,
{
    proof {
        lemma_small_tables();
    }
    let mut score: i32 = 0;
    score += evaluate_piece(game, Piece::Pawn, &PAWN_PST);
    score += evaluate_piece(game, Piece::Knight, &KNIGHT_PST);
    score += evaluate_piece(game, Piece::Bishop, &BISHOP_PST);
    score += evaluate_piece(game, Piece::Rook, &ROOK_PST);
    score += evaluate_piece(game, Piece::Queen, &QUEEN_PST);
    let w_queens_count = game.board.piece_bitboard(Piece::Queen, Color::White).count_ones();
    let b_queens_count = game.board.piece_bitboard(Piece::Queen, Color::Black).count_ones();
    if w_queens_count == 0 && b_queens_count == 0 {
        score += evaluate_piece(game, Piece::King, &KING_END_GAME_PST);
    } else {
        score += evaluate_piece(game, Piece::King, &KING_MIDDLE_GAME_PST);
    }
    score
}

/// How many more pieces of the kind `piece` White has than Black.
fn count_lead(game: &Game, piece: Piece) -> (more: i32)
    ensures
        more == lead(game.board, piece),
        -64 <= more <= 64,
{
    proof {
        lemma_count_bits_bound(game.board.bb(piece, Color::White), 64);
        lemma_count_bits_bound(game.board.bb(piece, Color::Black), 64);
    }
    let ours = game.board.piece_bitboard(piece, Color::White).count_ones() as i32;
    let theirs = game.board.piece_bitboard(piece, Color::Black).count_ones() as i32;
    ours - theirs
}

/// The balance of material.
pub fn evaluate_pawns(game: &Game) -> (score: i32)
    ensures
        score == material(game.board),
        -137600 <= score <= 137600,
{
    let mut score: i32 = 0;
    score += count_lead(game, Piece::Pawn) * PAWN_VALUE;
    score += count_lead(game, Piece::Knight) * KNIGHT_VALUE;
    score += count_lead(game, Piece::Bishop) * BISHOP_VALUE;
    score += count_lead(game, Piece::Rook) * ROOK_VALUE;
    score += count_lead(game, Piece::Queen) * QUEEN_VALUE;
    score
}

/// The score of the game as White sees it.
pub fn static_evaluation(game: &Game) -> (score: i32)
    ensures
        score == evaluation(game@.status, game.board),
        -176000 <= score <= 176000,
{
    match game.game_enum {
        GameEnum::WhiteWon => {
            return MATE_VALUE;
        },
        GameEnum::BlackWon => {
            return -MATE_VALUE;
        },
        GameEnum::TieBy50Rule
        | GameEnum::TieByInsufficientMaterial
        | GameEnum::TieByStalemate
        | GameEnum::TieByThreefoldRepetition => {
            return 0;
        },
        GameEnum::InAction => (),
    }
    let mut score = evaluate_pawns(game);
    score += evaluate_pos(game);
    score
}

/// What a finished walk is worth: `1` if White has won, `-1` if Black
/// has won, `0` otherwise.
pub open spec fn outcome(status: GameEnum) -> int {
    match status {
        GameEnum::WhiteWon => 1,
        GameEnum::BlackWon => -1,
        _ => 0,
    }
}

/// The status with which a walk of chance from the game `g` ends where
/// chance has no say: the status of `g` if the game is over, and that
/// of mate or stalemate if the player to move has no legal move. Where
/// the player to move has a choice, chance decides.
pub open spec fn walk_end(g: GameView) -> Option<GameEnum> {
    if g.status != GameEnum::InAction {
        Some(g.status)
    } else if !(exists|m: PieceMove| g.position.legal(m)) {
        Some(end_status(g.position))
    } else {
        None
    }
}

/// Whether a walk from the game `start` along the line `line` can have
/// ended in the game `end`: the moves of the line are legal, each in its
/// turn, and there are at most a hundred of them; and the walk has
/// stopped after them because the game was over or the hundred was
/// full, or because the player to move had no legal move, which ends
/// the game by mate or stalemate.
pub open spec fn walked(start: GameView, line: Seq<PieceMove>, end: GameView) -> bool {
    let reached = start.play(line);
    &&& start.is_legal_line(line)
    &&& line.len() <= 100
    &&& {
        ||| end == reached && (reached.status != GameEnum::InAction || line.len() == 100)
        ||| reached.status == GameEnum::InAction && !(exists|m: PieceMove|
            reached.position.legal(m)) && end == (GameView {
            status: end_status(reached.position),
            ..reached
        })
    }
}

/// Plays moves chosen by chance until the game ends, at most a hundred
/// of them, and says who has won. A game that is over is left as it
/// is; a game in which the player to move has no legal move gets the
/// status of mate or stalemate, and no move is made.
#[verifier::rlimit(40)]
pub fn random_walk(game: &mut Game) -> (score: i32)
    requires
        old(game).wf(),
        old(game)@.position.playable(),
        old(game)@.room(100),
    ensures
        final(game).wf(),
        score == outcome(final(game)@.status),
        old(game)@.history.len() <= final(game)@.history.len() <= old(game)@.history.len() + 100,
        walk_end(old(game)@) matches Some(status) ==> final(game)@ == (GameView {
            status,
            ..old(game)@
        }),
        exists|line: Seq<PieceMove>| walked(old(game)@, line, final(game)@),
{
    let mut limit: usize = 100;
    let mut stuck = false;
    let ghost mut line: Seq<PieceMove> = Seq::empty();
    while !stuck && limit > 0 && game.game_enum == GameEnum::InAction
        invariant
            limit <= 100,
            old(game)@.is_legal_line(line),
            line.len() <= 100 - limit,
            !stuck ==> line.len() == 100 - limit && game@ == old(game)@.play(line),
            stuck ==> old(game)@.play(line).status == GameEnum::InAction && !(exists|
                m: PieceMove,
            |
                old(game)@.play(line).position.legal(m)) && game@ == (GameView {
                status: end_status(old(game)@.play(line).position),
                ..old(game)@.play(line)
            }),
            game.wf(),
            game@.position.playable(),
            game@.room(limit as nat),
            old(game)@.history.len() <= game@.history.len() <= old(game)@.history.len() + 100
                - limit,
            !stuck && limit == 100 ==> game@ == old(game)@,
            walk_end(old(game)@) matches Some(status) ==> (limit == 100 || stuck) && (stuck
                ==> game@ == (GameView { status, ..old(game)@ })),
        decreases limit,
    {
        limit -= 1;
        let ghost reached = game@;
        let moves = game.board.generate_all_moves();
        proof {
            assert(reached == old(game)@.play(line));
            if moves@.len() > 0 {
                assert(moves@.contains(moves@[0]));
                assert(game@.position.legal(moves@[0]));
            }
        }
        if moves.is_empty() {
            proof {
                assert forall|m: PieceMove| !reached.position.legal(m) by {
                    assert(!moves@.contains(m));
                }
            }
            game.check_for_mate_or_stalemate();
            stuck = true;
            proof {
                assert(game@.counts =~= reached.counts);
                assert(game@ == (GameView { status: end_status(reached.position), ..reached }));
            }
        } else {
            match choose_move(&moves) {
                Some(random_move) => {
                    proof {
                        game@.position.lemma_legal_keeps_playable(random_move);
                        game@.lemma_room_after_move(random_move, limit as nat);
                        game.lemma_room();
                    }
                    game.do_move(&random_move);
                    proof {
                        let longer = line.push(random_move);
                        assert(moves@.contains(random_move));
                        assert(reached.position.legal(random_move));
                        assert(longer.drop_last() =~= line);
                        assert(longer.last() == random_move);
                        assert(old(game)@.play(longer) == reached.do_move(random_move));
                        assert(old(game)@.is_legal_line(longer));
                        line = longer;
                    }
                },
                None => {
                    stuck = true;
                },
            }
        }
    }
    proof {
        assert(walked(old(game)@, line, game@));
    }
    match game.game_enum {
        GameEnum::WhiteWon => 1,
        GameEnum::BlackWon => -1,
        _ => 0,
    }
}

/// The sum of the outcomes of `itr` walks of chance from the game's
/// position, each on a copy of the game. Where chance has no say, since
/// the game is over or the player to move has no legal move, every
/// walk ends as `walk_end` says, and the sum is `itr` times the outcome
/// of that status.
pub fn monte_carlo(game: &Game, itr: usize) -> (score: i32)
    requires
        game.wf(),
        game@.position.playable(),
        game@.room(100),
        itr <= i32::MAX,
    ensures
        -itr <= score <= itr,
        walk_end(game@) matches Some(status) ==> score == itr * outcome(status),
{
    let mut score: i32 = 0;
    let mut done: usize = 0;
    while done < itr
        invariant
            done <= itr <= i32::MAX,
            -done <= score <= done,
            game.wf(),
            game@.position.playable(),
            game@.room(100),
            walk_end(game@) matches Some(status) ==> score == done * outcome(status),
        decreases itr - done,
    {
        let mut game_simulation = Game::from(game);
        proof {
            assert(walk_end(game_simulation@) == walk_end(game@));
        }
        let walked = random_walk(&mut game_simulation);
        proof {
            if let Some(status) = walk_end(game@) {
                let worth = outcome(status);
                assert((done + 1) * worth == done * worth + worth) by (nonlinear_arith);
            }
        }
        score += walked;
        done += 1;
    }
    score
}

} // verus!
