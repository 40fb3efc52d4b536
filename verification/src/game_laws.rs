use vstd::prelude::*;
use crate::game::{history_ok, GameEnum, GameState, GameView};
use crate::game_rules::resets_clock;
use crate::laws::lemma_do_undo_round_trip;
use crate::piece_move::PieceMove;
use crate::position::Position;

verus! {

/// The position from which the move `i` of `history` was made, found by
/// taking back from `position` the moves from the last down to that one.
pub open spec fn position_before(position: Position, history: Seq<GameState>, i: int) -> Position
    decreases history.len(),
{
    if history.len() == 0 {
        position
    } else {
        let top = history.last();
        let before = position.revert(top.piece_move, top.board_state, top.captured_piece);
        if i >= history.len() - 1 {
            before
        } else {
            position_before(before, history.drop_last(), i)
        }
    }
}

impl GameView {
    /// The game after the moves of `line`, made one after the other.
    pub open spec fn play(self, line: Seq<PieceMove>) -> GameView
        decreases line.len(),
    {
        if line.len() == 0 {
            self
        } else {
            self.play(line.drop_last()).do_move(line.last())
        }
    }

    /// Whether each move of `line` finds its pieces in the position in
    /// which it is made.
    pub open spec fn can_play(self, line: Seq<PieceMove>) -> bool
        decreases line.len(),
    {
        line.len() > 0 ==> {
            &&& self.can_play(line.drop_last())
            &&& self.play(line.drop_last()).position.move_ok(line.last())
        }
    }

    /// Whether each move of `line` is legal in the position in which it
    /// is made.
    pub open spec fn is_legal_line(self, line: Seq<PieceMove>) -> bool
        decreases line.len(),
    {
        line.len() > 0 ==> {
            &&& self.is_legal_line(line.drop_last())
            &&& self.play(line.drop_last()).position.legal(line.last())
        }
    }

    /// Legal play keeps a game in playable positions: after a line of
    /// legal moves from a playable position both kings stand on the
    /// board, the player who has just moved has not left the own king
    /// attacked, and every move of the line found its pieces.
    pub proof fn lemma_legal_play(self, line: Seq<PieceMove>)
        requires
            self.position.playable(),
            self.is_legal_line(line),
        ensures
            self.can_play(line),
            self.play(line).position.playable(),
        decreases line.len(),
    {
        if line.len() > 0 {
            self.lemma_legal_play(line.drop_last());
            self.play(line.drop_last()).position.lemma_legal_keeps_playable(line.last());
        }
    }

    /// Whether no move of `line` takes a piece or moves a pawn.
    pub open spec fn is_quiet(self, line: Seq<PieceMove>) -> bool
        decreases line.len(),
    {
        line.len() > 0 ==> {
            &&& self.is_quiet(line.drop_last())
            &&& !resets_clock(self.play(line.drop_last()).position, line.last())
        }
    }

    /// A line of moves keeps the invariant, uses up room for as many
    /// moves as it has, and adds a move to the history for each of its
    /// own.
    pub proof fn lemma_play(self, line: Seq<PieceMove>, spare: nat)
        requires
            self.wf(),
            self.can_play(line),
            self.room(line.len() + spare),
        ensures
            self.play(line).wf(),
            self.play(line).room(spare),
            self.play(line).history.len() == self.history.len() + line.len(),
        decreases line.len(),
    {
        if line.len() > 0 {
            let earlier = line.drop_last();
            self.lemma_play(earlier, spare + 1);
            self.play(earlier).lemma_do_move(line.last());
            self.play(earlier).lemma_room_after_move(line.last(), spare);
        }
    }

    /// After a line of moves that take no piece and move no pawn the
    /// half-move clock is at least the length of the line.
    pub proof fn lemma_quiet_clock(self, line: Seq<PieceMove>)
        requires
            self.wf(),
            self.can_play(line),
            self.is_quiet(line),
            self.room(line.len()),
        ensures
            self.play(line).clock() >= line.len(),
        decreases line.len(),
    {
        if line.len() > 0 {
            let earlier = line.drop_last();
            self.lemma_quiet_clock(earlier);
            self.lemma_play(earlier, 1);
            let reached = self.play(earlier);
            if reached.history.len() > 0 {
                assert(reached.history.last().half_move_clock <= reached.history.len());
            }
        }
    }

    /// The fifty-move rule: the last of a hundred moves in a row, or of
    /// more, that take no piece and move no pawn makes the game a draw
    /// by that rule.
    pub proof fn lemma_fifty_move_rule(self, line: Seq<PieceMove>)
        requires
            self.wf(),
            self.can_play(line),
            self.is_quiet(line),
            self.room(line.len()),
            line.len() >= 100,
        ensures
            self.play(line).status == GameEnum::TieBy50Rule,
    {
        let earlier = line.drop_last();
        self.lemma_quiet_clock(earlier);
    }

    /// Taking back a move gives the game as it was before the move,
    /// played on: the same position, the same history, and the same
    /// count for every signature.
    pub proof fn lemma_take_back(self, m: PieceMove)
        requires
            self.position.wf(),
            self.position.move_ok(m),
            forall|hsh: u64| self.counts.contains_key(hsh),
        ensures
            self.do_move(m).undo_move() == (GameView { status: GameEnum::InAction, ..self }),
    {
        let after = self.do_move(m);
        let hsh = self.position.hash();
        lemma_do_undo_round_trip(self.position, m);
        assert(after.undo_move().history =~= self.history);
        assert(after.undo_move().counts =~= self.counts);
    }

    /// The hundredth move in a row that takes no piece and moves no
    /// pawn makes the game a draw by the fifty-move rule, whatever else
    /// holds of the position.
    pub proof fn lemma_hundredth_quiet_move(self, m: PieceMove)
        requires
            self.clock() >= 99,
            !resets_clock(self.position, m),
        ensures
            self.do_move(m).status == GameEnum::TieBy50Rule,
    {
    }

    /// A signature from whose position a move of the history was made
    /// is still counted.
    pub proof fn lemma_counted_once(self, i: int)
        requires
            forall|hsh: u64| self.counts.contains_key(hsh),
            history_ok(self.position, self.history, self.counts),
            0 <= i < self.history.len(),
        ensures
            self.counts[position_before(self.position, self.history, i).hash()] >= 1,
        decreases self.history.len(),
    {
        if i < self.history.len() - 1 {
            self.undo_move().lemma_counted_once(i);
        }
    }

    /// A signature from whose position two moves of the history were
    /// made is counted twice.
    pub proof fn lemma_counted_twice(self, i: int, j: int)
        requires
            forall|hsh: u64| self.counts.contains_key(hsh),
            history_ok(self.position, self.history, self.counts),
            0 <= i < j < self.history.len(),
            position_before(self.position, self.history, i).hash() == position_before(
                self.position,
                self.history,
                j,
            ).hash(),
        ensures
            self.counts[position_before(self.position, self.history, i).hash()] >= 2,
        decreases self.history.len(),
    {
        if j < self.history.len() - 1 {
            self.undo_move().lemma_counted_twice(i, j);
        } else {
            self.undo_move().lemma_counted_once(i);
        }
    }

    /// Draw by repetition: when the position on the board has the
    /// signature of the positions from which two moves of the history
    /// were made, it is there for the third time, and the next move
    /// from it makes the game a draw by repetition, unless that move
    /// completes the hundred of the fifty-move rule.
    pub proof fn lemma_threefold_repetition(self, i: int, j: int, m: PieceMove)
        requires
            self.wf(),
            0 <= i < j < self.history.len(),
            position_before(self.position, self.history, i).hash() == self.position.hash(),
            position_before(self.position, self.history, j).hash() == self.position.hash(),
            self.next_clock(m) < 100,
        ensures
            self.do_move(m).status == GameEnum::TieByThreefoldRepetition,
    {
        self.lemma_counted_twice(i, j);
    }

    /// A move from a position from which two moves are already counted
    /// makes the game a draw by repetition, unless it completes the
    /// hundred of the fifty-move rule.
    pub proof fn lemma_third_move_from_position(self, m: PieceMove)
        requires
            self.counts[self.position.hash()] >= 2,
            self.next_clock(m) < 100,
        ensures
            self.do_move(m).status == GameEnum::TieByThreefoldRepetition,
    {
    }
}

} // verus!
