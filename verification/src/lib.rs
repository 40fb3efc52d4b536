//! A chess rules engine and the players that use it.
//!
//! The [`board::Board`] writes a position down twice, as bitboards and
//! as an array of squares, and keeps its signature up to date while
//! moves are made and taken back. The [`position::Position`] is the same
//! position as the rules see it; [`rules`] says how the pieces move and
//! attack, and every contract of the engine is stated over it. The
//! [`game::Game`] adds the history of the moves and the draws that
//! depend on it. The [`allocators`] hand move buffers to a search, one
//! for each depth, and the players of [`bot`] choose their moves by
//! chance, by walks of chance, or by looking ahead.

pub mod allocators;
pub mod attack;
pub mod attack_tables;
pub mod bits;
pub mod board;
pub mod board_state;
pub mod bot;
pub mod evaluation_function;
pub mod game;
pub mod game_laws;
pub mod game_rules;
pub mod generate_moves;
pub mod king_safety;
pub mod laws;
pub mod legal_moves;
pub mod move_handlers;
pub mod move_lists;
pub mod piece;
pub mod piece_move;
pub mod position;
pub mod random;
pub mod rules;
pub mod undo_move_handlers;
pub mod zobrist;
