use chess_engine::board::Board;
use chess_engine::game::{Game, GameEnum};
use chess_engine::piece::{Color, Piece, PieceColor};
use chess_engine::piece_move::{MoveFlag, PieceMove};

fn pick(game: &mut Game, from: u8, to: u8) -> PieceMove {
    let moves = game.board.generate_all_moves();
    for m in &moves {
        if m.from == from && m.to == to {
            return *m;
        }
    }
    panic!("no legal move from {} to {}", from, to);
}

fn make(game: &mut Game, from: u8, to: u8) {
    let m = pick(game, from, to);
    game.do_move(&m);
}

fn shuffle_knights(game: &mut Game, plies: usize) {
    let line = [(6u8, 21u8), (62, 45), (21, 6), (45, 62)];
    for _ in 0..plies {
        let (from, to) = line[game.get_states_stack_size() % 4];
        make(game, from, to);
    }
}

#[test]
fn new_game_is_in_action_with_no_history() {
    let game = Game::new();
    assert_eq!(game.game_enum, GameEnum::InAction);
    assert_eq!(game.get_states_stack_size(), 0);
    assert!(game.hshs.is_empty());
    assert_eq!(game.board.get_size_to_move(), Color::White);
    assert_eq!(game.board.get_board_state().castle_rights, 0x0F);
    assert_eq!(game.board.get_board_state().en_passant, None);
    assert!(game.board.is_playable());
}

#[test]
fn history_grows_and_shrinks_with_the_moves() {
    let mut game = Game::new();
    make(&mut game, 12, 28);
    assert_eq!(game.get_states_stack_size(), 1);
    make(&mut game, 52, 36);
    assert_eq!(game.get_states_stack_size(), 2);
    game.undo_move();
    assert_eq!(game.get_states_stack_size(), 1);
    game.undo_move();
    assert_eq!(game.get_states_stack_size(), 0);
}

#[test]
fn do_and_undo_restore_the_board() {
    let mut game = Game::new();
    let fresh = Board::new();
    let moves = game.board.generate_all_moves();
    for m in &moves {
        game.do_move(m);
        assert_eq!(game.board.get_size_to_move(), Color::Black);
        game.undo_move();
        assert_eq!(game.board.bitboard, fresh.bitboard);
        assert_eq!(game.board.occupied, fresh.occupied);
        assert_eq!(game.board.pieces, fresh.pieces);
        assert_eq!(game.board.hsh, fresh.hsh);
        assert_eq!(game.board.side_to_move, fresh.side_to_move);
        assert_eq!(game.board.board_state.castle_rights, fresh.board_state.castle_rights);
        assert_eq!(game.board.board_state.en_passant, fresh.board_state.en_passant);
    }
}

#[test]
fn occupancy_is_the_union_of_the_piece_bitboards() {
    let mut game = Game::new();
    for (from, to) in [(12u8, 28u8), (51, 35), (28, 35), (59, 35), (1, 18), (35, 32)] {
        make(&mut game, from, to);
        for c in 0..2 {
            let mut union = 0u64;
            for p in 0..6 {
                union |= game.board.bitboard[p][c];
            }
            assert_eq!(game.board.occupied[c], union);
        }
        assert_eq!(game.board.occupied[0] & game.board.occupied[1], 0);
        for sq in 0..64 {
            let on_board = (game.board.occupied[0] | game.board.occupied[1]) >> sq & 1 == 1;
            assert_eq!(on_board, game.board.pieces[sq] != PieceColor::Empty);
        }
    }
}

#[test]
fn captured_piece_is_remembered_and_restored() {
    let mut game = Game::new();
    make(&mut game, 12, 28);
    make(&mut game, 51, 35);
    let capture = pick(&mut game, 28, 35);
    assert_eq!(capture.flag, MoveFlag::Capture);
    game.do_move(&capture);
    assert_eq!(game.board.get_board_state().captured_piece_type, Some(Piece::Pawn));
    assert_eq!(game.states[2].captured_piece, Some(Piece::Pawn));
    assert_eq!(game.board.pieces[35], PieceColor::WhitePawn);
    game.undo_move();
    assert_eq!(game.board.pieces[35], PieceColor::BlackPawn);
    assert_eq!(game.board.pieces[28], PieceColor::WhitePawn);
    assert_eq!(game.board.get_board_state().captured_piece_type, None);
}

#[test]
fn counts_follow_the_moves_and_never_fall_below_zero() {
    let mut game = Game::new();
    let start = game.board.get_board_hsh();
    make(&mut game, 6, 21);
    assert_eq!(game.hshs[&start], 1);
    game.undo_move();
    assert_eq!(game.hshs[&start], 0);
    make(&mut game, 6, 21);
    make(&mut game, 62, 45);
    make(&mut game, 21, 6);
    make(&mut game, 45, 62);
    assert_eq!(game.board.get_board_hsh(), start);
    make(&mut game, 6, 21);
    assert_eq!(game.hshs[&start], 2);
    while game.get_states_stack_size() > 0 {
        game.undo_move();
    }
    assert!(game.hshs.values().all(|count| *count == 0));
}

#[test]
fn third_move_from_a_position_is_a_tie_by_repetition() {
    let mut game = Game::new();
    shuffle_knights(&mut game, 8);
    assert_eq!(game.board.get_board_hsh(), Board::new().get_board_hsh());
    assert_eq!(game.game_enum, GameEnum::InAction);
    shuffle_knights(&mut game, 1);
    assert_eq!(game.game_enum, GameEnum::TieByThreefoldRepetition);
    game.undo_move();
    assert_eq!(game.game_enum, GameEnum::InAction);
}

#[test]
fn a_hundred_quiet_half_moves_are_a_tie_by_the_fifty_move_rule() {
    let mut game = Game::new();
    shuffle_knights(&mut game, 99);
    assert_eq!(game.states[98].half_move_clock, 99);
    assert_eq!(game.game_enum, GameEnum::TieByThreefoldRepetition);
    shuffle_knights(&mut game, 1);
    assert_eq!(game.states[99].half_move_clock, 100);
    assert_eq!(game.game_enum, GameEnum::TieBy50Rule);
}

#[test]
fn pawn_moves_and_captures_set_the_clock_back() {
    let mut game = Game::new();
    make(&mut game, 6, 21);
    assert_eq!(game.states[0].half_move_clock, 1);
    make(&mut game, 62, 45);
    assert_eq!(game.states[1].half_move_clock, 2);
    make(&mut game, 11, 19);
    assert_eq!(game.states[2].half_move_clock, 0);
    make(&mut game, 52, 36);
    assert_eq!(game.states[3].half_move_clock, 0);
    make(&mut game, 21, 36);
    assert_eq!(game.states[4].half_move_clock, 0);
    make(&mut game, 57, 42);
    assert_eq!(game.states[5].half_move_clock, 1);
}

#[test]
fn castling_counts_as_a_quiet_move() {
    let mut game = Game::new();
    for (from, to) in [(6u8, 21u8), (62, 45), (14, 22), (54, 46), (5, 14), (61, 54)] {
        make(&mut game, from, to);
    }
    let clock = game.states[5].half_move_clock;
    let castle = pick(&mut game, 4, 6);
    assert_eq!(castle.flag, MoveFlag::Castling);
    game.do_move(&castle);
    assert_eq!(game.states[6].half_move_clock, clock + 1);
    assert_eq!(game.board.get_board_state().castle_rights, 0b1100);
}

#[test]
fn a_copy_has_the_position_and_counts_but_no_history() {
    let mut game = Game::new();
    make(&mut game, 12, 28);
    make(&mut game, 52, 36);
    let copy = Game::from(&game);
    assert_eq!(copy.get_states_stack_size(), 0);
    assert_eq!(copy.board.pieces, game.board.pieces);
    assert_eq!(copy.board.hsh, game.board.hsh);
    assert_eq!(copy.hshs, game.hshs);
    assert_eq!(copy.game_enum, game.game_enum);
    assert_eq!(game.get_states_stack_size(), 2);
}

#[test]
fn stalemate_reached_by_play() {
    let mut game = Game::new();
    let line = [
        (12u8, 20u8), (48, 32), (3, 39), (56, 40), (39, 32), (55, 39), (15, 31), (40, 47),
        (32, 50), (53, 45), (50, 51), (60, 53), (51, 49), (59, 19), (49, 57), (19, 55),
        (57, 58), (53, 46), (58, 44),
    ];
    for (from, to) in line {
        assert_eq!(game.game_enum, GameEnum::InAction);
        make(&mut game, from, to);
    }
    assert!(game.board.generate_all_moves().is_empty());
    assert!(!game.board.is_checked());
    game.try_update_game_enum();
    assert_eq!(game.game_enum, GameEnum::TieByStalemate);
}

#[test]
fn check_is_seen_for_the_player_to_move_only() {
    let mut game = Game::new();
    assert!(!game.board.is_checked());
    for (from, to) in [(12u8, 28u8), (53, 37), (3, 39)] {
        make(&mut game, from, to);
    }
    assert!(game.board.is_checked());
    assert_eq!(game.board.get_size_to_move(), Color::Black);
    assert_eq!(game.board.generate_all_moves().len(), 1);
}
