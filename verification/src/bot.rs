use vstd::prelude::*;
use crate::piece::Color;

pub mod bot;
pub mod mc_bot;
pub mod min_max;
pub mod random_bot;

verus! {

/// The room that a game must have for a search: enough for the deepest
/// line and for a walk of chance at its end.
pub const SEARCH_ROOM: usize = 256;

/// Whether the player `side` finds the score `ours` at least as good as
/// the score `theirs`: White wants high scores, Black low ones.
pub open spec fn no_worse(side: Color, ours: int, theirs: int) -> bool {
    match side {
        Color::White => ours >= theirs,
        Color::Black => ours <= theirs,
    }
}

/// Whether the player `side` finds the score `score` better than the
/// score `best`.
pub fn is_better(side: Color, score: i32, best: i32) -> (better: bool)
    ensures
        better == !no_worse(side, best as int, score as int),
{
    match side {
        Color::White => score > best,
        Color::Black => score < best,
    }
}

/// The score with which a search for the best move of `side` begins:
/// one that every other score betters.
pub fn worst_score(side: Color) -> (score: i32)
    ensures
        score == match side {
            Color::White => i32::MIN,
            Color::Black => i32::MAX,
        },
{
    match side {
        Color::White => i32::MIN,
        Color::Black => i32::MAX,
    }
}

} // verus!
