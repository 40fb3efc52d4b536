use std::collections::HashMap;
use vstd::prelude::*;
use crate::bits::lemma_mask_rights;
use crate::board::Board;
use crate::board_state::{BoardState, CASTLING_RIGHTS_UPDATE};
use crate::game_rules::{draw_status, resets_clock};
use crate::king_safety::lemma_start_playable;
use crate::laws::lemma_do_undo_round_trip;
use crate::piece::{lemma_piece_color, Piece};
use crate::piece_move::{MoveFlag, PieceMove};
use crate::position::Position;

verus! {

/// What a game remembers of a move that it may have to take back.
#[derive(Clone, Copy, Debug)]
pub struct GameState {
    /// The move made.
    pub piece_move: PieceMove,
    /// The rights state before the move.
    pub board_state: BoardState,
    /// The half-move clock after the move: the number of moves made in
    /// a row, this one included, that neither took a piece nor moved a
    /// pawn.
    pub half_move_clock: usize,
    /// The kind of the piece that stood on the move's target.
    pub captured_piece: Option<Piece>,
}

/// How a game stands: still played, drawn, or won.
#[derive(Clone, Copy, Debug, PartialEq, Eq, Structural)]
pub enum GameEnum {
    InAction,
    TieByThreefoldRepetition,
    TieBy50Rule,
    TieByStalemate,
    TieByInsufficientMaterial,
    WhiteWon,
    BlackWon,
}

/// A game: the board, the moves that can still be taken back, how often
/// a move has been made from each position (by the position's
/// signature), and how the game stands.
pub struct Game {
    pub board: Board,
    pub states: Vec<GameState>,
    pub hshs: HashMap<u64, usize>,
    pub game_enum: GameEnum,
}

/// A game as the contracts see it.
pub struct GameView {
    /// The position on the board.
    pub position: Position,
    /// The moves that can be taken back, the last one last.
    pub history: Seq<GameState>,
    /// For each signature, how many moves made from a position with
    /// that signature are counted.
    pub counts: Map<u64, nat>,
    /// How the game stands.
    pub status: GameEnum,
}

/// How often `table` has counted the signature `hsh`: a signature that
/// it does not hold was never counted.
pub open spec fn count_of(table: Map<u64, usize>, hsh: u64) -> nat {
    if table.contains_key(hsh) {
        table[hsh] as nat
    } else {
        0
    }
}

/// Whether the moves of `history` can be taken back one after the other
/// from `position`: each move can have led to the position reached by
/// taking back the moves after it, the signature of the position before
/// it is still counted once for it, and its half-move clock is no
/// greater than the number of moves up to it.
pub open spec fn history_ok(position: Position, history: Seq<GameState>, counts: Map<u64, nat>)
    -> bool
    decreases history.len(),
{
    history.len() > 0 ==> {
        let top = history.last();
        let before = position.revert(top.piece_move, top.board_state, top.captured_piece);
        &&& position.undo_ok(top.piece_move, top.board_state, top.captured_piece)
        &&& counts[before.hash()] >= 1
        &&& top.half_move_clock <= history.len()
        &&& history_ok(
            before,
            history.drop_last(),
            counts.insert(before.hash(), (counts[before.hash()] - 1) as nat),
        )
    }
}

impl GameView {
    /// The half-move clock before the next move: that of the last move
    /// that can be taken back, or `0` if there is none.
    pub open spec fn clock(self) -> nat {
        if self.history.len() == 0 {
            0
        } else {
            self.history.last().half_move_clock as nat
        }
    }

    /// The half-move clock after the move `m`: `0` if `m` takes a piece
    /// or moves a pawn, else one more than before.
    pub open spec fn next_clock(self, m: PieceMove) -> nat {
        if resets_clock(self.position, m) {
            0
        } else {
            self.clock() + 1
        }
    }

    /// The invariant of a game: the position is well formed, every
    /// signature has a count, and the history can be taken back.
    pub open spec fn wf(self) -> bool {
        &&& self.position.wf()
        &&& forall|hsh: u64| self.counts.contains_key(hsh)
        &&& history_ok(self.position, self.history, self.counts)
    }

    /// The game after the move `m`. The move is remembered with the
    /// rights state and the piece on its target as they were; the
    /// position from which it is made is counted once more; the status
    /// is that of `draw_status` for the new clock, the new count and the
    /// squares before the move; and the move is made on the board.
    pub open spec fn do_move(self, m: PieceMove) -> GameView {
        let hsh = self.position.hash();
        GameView {
            position: self.position.apply(m),
            history: self.history.push(
                GameState {
                    piece_move: m,
                    board_state: self.position.state,
                    half_move_clock: self.next_clock(m) as usize,
                    captured_piece: self.position.squares[m.to as int].piece(),
                },
            ),
            counts: self.counts.insert(hsh, self.counts[hsh] + 1),
            status: draw_status(
                self.next_clock(m),
                self.counts[hsh] + 1,
                self.position.squares,
                self.status,
            ),
        }
    }

    /// The game after its last move is taken back: the position before
    /// that move, the history without it, the count of that position
    /// one less, and the game played on.
    pub open spec fn undo_move(self) -> GameView {
        let top = self.history.last();
        let before = self.position.revert(top.piece_move, top.board_state, top.captured_piece);
        GameView {
            position: before,
            history: self.history.drop_last(),
            counts: self.counts.insert(before.hash(), (self.counts[before.hash()] - 1) as nat),
            status: GameEnum::InAction,
        }
    }

    /// A move keeps the invariant, and taking it back gives the game
    /// as it was before the move, played on.
    pub proof fn lemma_do_move(self, m: PieceMove)
        requires
            self.wf(),
            self.position.move_ok(m),
            self.history.len() < usize::MAX,
        ensures
            self.do_move(m).wf(),
            self.do_move(m).undo_move() == (GameView { status: GameEnum::InAction, ..self }),
    {
        let after = self.do_move(m);
        let hsh = self.position.hash();
        lemma_do_undo_round_trip(self.position, m);
        if self.history.len() > 0 {
            assert(self.history.last().half_move_clock <= self.history.len());
        }
        assert(after.history.drop_last() =~= self.history);
        assert(after.counts.insert(hsh, (after.counts[hsh] - 1) as nat) =~= self.counts);
        assert(after.undo_move().history =~= self.history);
        assert(after.position.wf()) by {
            lemma_apply_wf(self.position, m);
        }
    }

    /// Whether `n` more moves can be recorded, wherever they lead: the
    /// history and every count can still grow by `n`.
    pub open spec fn room(self, n: nat) -> bool {
        &&& self.history.len() + n <= usize::MAX
        &&& forall|hsh: u64| self.counts[hsh] + n <= usize::MAX
    }

    /// A move uses up room for one move.
    pub proof fn lemma_room_after_move(self, m: PieceMove, n: nat)
        requires
            self.room(n + 1),
        ensures
            self.do_move(m).room(n),
    {
    }

    /// Taking back a move keeps the invariant.
    pub proof fn lemma_undo_move(self)
        requires
            self.wf(),
            self.history.len() > 0,
        ensures
            self.undo_move().wf(),
    {
    }
}

/// A move that finds its pieces leads from a well-formed position to a
/// well-formed position.
pub proof fn lemma_apply_wf(p: Position, m: PieceMove)
    requires
        p.wf(),
        p.move_ok(m),
    ensures
        p.apply(m).wf(),
{
    let after = p.apply(m);
    lemma_mask_rights(p.state.castle_rights, CASTLING_RIGHTS_UPDATE[m.from as int]);
    lemma_mask_rights(
        p.state.castle_rights & CASTLING_RIGHTS_UPDATE[m.from as int],
        CASTLING_RIGHTS_UPDATE[m.to as int],
    );
    assert(after.squares.len() == 64);
    assert(after.kings_ok());
    assert(after.en_passant_ok());
}

impl View for Game {
    type V = GameView;

    open spec fn view(&self) -> GameView {
        GameView {
            position: self.board@,
            history: self.states@,
            counts: Map::total(|hsh: u64| count_of(self.hshs@, hsh)),
            status: self.game_enum,
        }
    }
}

impl Game {
    /// The invariant of a game: that of its board and that of its view.
    pub open spec fn wf(&self) -> bool {
        &&& self.board.wf()
        &&& self@.wf()
    }

    /// Whether one more move can be recorded: the history and the count
    /// of the position on the board can still grow.
    pub open spec fn has_room(&self) -> bool {
        &&& self@.history.len() < usize::MAX
        &&& self@.counts[self@.position.hash()] < usize::MAX
    }

    /// Room for one move is room for the next move.
    pub proof fn lemma_room(&self)
        requires
            self.wf(),
            self@.room(1),
        ensures
            self.has_room(),
    {
        assert(self@.counts[self@.position.hash()] + 1 <= usize::MAX);
    }

    /// A game in its starting position, with no move made.
    pub fn new() -> (game: Game)
        ensures
            game.wf(),
            game@.position == Position::start(),
            game@.position.playable(),
            game@.history.len() == 0,
            forall|hsh: u64| game@.counts[hsh] == 0,
            game@.status == GameEnum::InAction,
    {
        proof {
            lemma_start_playable();
        }
        Game {
            board: Board::new(),
            states: Vec::new(),
            hshs: HashMap::new(),
            game_enum: GameEnum::InAction,
        }
    }

    /// The number of moves that can be taken back.
    pub fn get_states_stack_size(&self) -> (size: usize)
        ensures
            size == self@.history.len(),
    {
        self.states.len()
    }

    /// A copy of the game to play on without touching `game`: the same
    /// position, counts and status, and no move to take back.
    pub fn from(game: &Game) -> (copy: Game)
        requires
            game.wf(),
        ensures
            copy.wf(),
            copy@ == (GameView { history: Seq::empty(), ..game@ }),
            copy.board == game.board,
    {
        let copy = Game {
            board: game.board,
            states: Vec::new(),
            hshs: game.hshs.clone(),
            game_enum: game.game_enum,
        };
        proof {
            assert(copy@.counts =~= game@.counts);
            assert(copy@.history =~= Seq::empty());
        }
        copy
    }

    /// Makes the move and updates the status for draws; a mate or
    /// stalemate is for `try_update_game_enum` to find. The draw rules
    /// look at the position from which the move is made, counted once
    /// more, and at the half-move clock after the move.
    pub fn do_move(&mut self, piece_move: &PieceMove)
        requires
            old(self).wf(),
            old(self)@.position.move_ok(*piece_move),
            old(self).has_room(),
        ensures
            final(self).wf(),
            final(self)@ == old(self)@.do_move(*piece_move),
    {
        broadcast use vstd::std_specs::hash::group_hash_axioms;

        let half_move_clock: usize = if self.states.is_empty() {
            0
        } else {
            self.states[self.states.len() - 1].half_move_clock
        };
        proof {
            if self.states.len() > 0 {
                assert(self@.history.last().half_move_clock <= self@.history.len());
            }
            let from_square = self.board.pieces[piece_move.from as int];
            lemma_piece_color(from_square, Piece::Pawn, self.board.side_to_move);
        }
        let new_half_move_clock: usize = match piece_move.flag {
            MoveFlag::Normal => {
                if self.board.pieces[piece_move.from as usize].extract_piece() == Piece::Pawn {
                    0
                } else {
                    half_move_clock + 1
                }
            },
            MoveFlag::Castling | MoveFlag::NoMove => half_move_clock + 1,
            _ => 0,
        };
        let captured_piece = self.board.pieces[piece_move.to as usize].try_extract_piece();
        let (old_board_state, old_hsh) = (self.board.get_board_state(), self.board.get_board_hsh());
        self.states.push(
            GameState {
                piece_move: *piece_move,
                board_state: old_board_state,
                half_move_clock: new_half_move_clock,
                captured_piece,
            },
        );
        let seen: usize = match self.hshs.get(&old_hsh) {
            Some(count) => *count + 1,
            None => 1,
        };
        self.hshs.insert(old_hsh, seen);
        self.check_for_draws(old_hsh, new_half_move_clock);
        self.board.do_move(piece_move);
        proof {
            old(self)@.lemma_do_move(*piece_move);
            assert(self@.counts =~= old(self)@.do_move(*piece_move).counts);
            assert(self@ == old(self)@.do_move(*piece_move));
        }
    }

    /// Takes back the last move; the game is played on.
    pub fn undo_move(&mut self)
        requires
            old(self).wf(),
            old(self)@.history.len() > 0,
        ensures
            final(self).wf(),
            final(self)@ == old(self)@.undo_move(),
    {
        broadcast use vstd::std_specs::hash::group_hash_axioms;

        self.game_enum = GameEnum::InAction;
        let last = self.states[self.states.len() - 1];
        self.board.undo_move(&last.piece_move, last.board_state, last.captured_piece);
        self.states.pop();
        let hsh = self.board.get_board_hsh();
        let seen: Option<usize> = match self.hshs.get(&hsh) {
            Some(count) => Some(*count),
            None => None,
        };
        if let Some(count) = seen {
            self.hshs.insert(hsh, count - 1);
        }
        proof {
            old(self)@.lemma_undo_move();
            assert(self@.counts =~= old(self)@.undo_move().counts);
            assert(self@.history =~= old(self)@.undo_move().history);
        }
    }
}

} // verus!
