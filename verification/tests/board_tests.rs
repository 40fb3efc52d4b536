use chess_engine::board::Board;
use chess_engine::game::{Game, GameEnum};
use chess_engine::piece::{Color, PieceColor};
use chess_engine::piece_move::{MoveFlag, PieceMove};
use chess_engine::zobrist::{CASTLE_HSH, EN_PASSANT_HSH, PIECE_COLOR_HSH, SIDE_TO_MOVE_HSH};

fn find(moves: &Vec<PieceMove>, from: u8, to: u8) -> PieceMove {
    for m in moves {
        if m.from == from && m.to == to {
            return *m;
        }
    }
    panic!("no legal move from {} to {}", from, to);
}

fn play(game: &mut Game, from: u8, to: u8) {
    let moves = game.board.generate_all_moves();
    let m = find(&moves, from, to);
    game.do_move(&m);
}

fn perft(game: &mut Game, depth: u32) -> u64 {
    if depth == 0 {
        return 1;
    }
    let moves = game.board.generate_all_moves();
    let mut nodes = 0;
    for m in &moves {
        game.do_move(m);
        nodes += perft(game, depth - 1);
        game.undo_move();
    }
    nodes
}

#[test]
fn start_position_has_twenty_moves() {
    let mut board = Board::new();
    let moves = board.generate_all_moves();
    assert_eq!(moves.len(), 20);
    let pawn_moves = moves.iter().filter(|m| m.from >= 8 && m.from < 16).count();
    let knight_moves = moves.iter().filter(|m| m.from == 1 || m.from == 6).count();
    assert_eq!(pawn_moves, 16);
    assert_eq!(knight_moves, 4);
}

#[test]
fn black_has_twenty_moves_after_e4() {
    let mut game = Game::new();
    play(&mut game, 12, 28);
    assert_eq!(game.board.get_size_to_move(), Color::Black);
    assert_eq!(game.board.generate_all_moves().len(), 20);
}

#[test]
fn perft_from_the_start() {
    let mut game = Game::new();
    assert_eq!(perft(&mut game, 1), 20);
    assert_eq!(perft(&mut game, 2), 400);
    assert_eq!(perft(&mut game, 3), 8902);
}

#[test]
fn hash_matches_recomputation_along_a_line() {
    let mut game = Game::new();
    assert_eq!(game.board.get_board_hsh(), game.board.compute_full_hsh());
    for (from, to) in [(12u8, 28u8), (52, 36), (5, 26), (57, 42), (3, 39), (62, 45), (39, 53)] {
        play(&mut game, from, to);
        assert_eq!(game.board.get_board_hsh(), game.board.compute_full_hsh());
    }
    while game.get_states_stack_size() > 0 {
        game.undo_move();
        assert_eq!(game.board.get_board_hsh(), game.board.compute_full_hsh());
    }
    assert_eq!(game.board.get_board_hsh(), Board::new().get_board_hsh());
}

#[test]
fn scholars_mate_is_a_win_for_white() {
    let mut game = Game::new();
    for (from, to) in [(12u8, 28u8), (52, 36), (5, 26), (57, 42), (3, 39), (62, 45), (39, 53)] {
        play(&mut game, from, to);
    }
    assert_eq!(game.game_enum, GameEnum::InAction);
    assert!(game.board.generate_all_moves().is_empty());
    assert!(game.board.is_checked());
    game.try_update_game_enum();
    assert_eq!(game.game_enum, GameEnum::WhiteWon);
}

#[test]
fn double_push_sets_the_en_passant_target() {
    let mut game = Game::new();
    let moves = game.board.generate_all_moves();
    let m = find(&moves, 12, 28);
    assert_eq!(m.flag, MoveFlag::DoublePawnPush);
    game.do_move(&m);
    assert_eq!(game.board.get_board_state().en_passant, Some(20));
}

#[test]
fn start_signature_is_the_xor_of_its_keys() {
    let board = Board::new();
    let mut expected = 0u64;
    for sq in 0..64 {
        let row = board.pieces[sq].idx();
        if row != 0 {
            expected ^= PIECE_COLOR_HSH[row][sq];
        }
    }
    for key in CASTLE_HSH {
        expected ^= key;
    }
    assert_eq!(board.get_board_hsh(), expected);
    assert_eq!(board.get_board_hsh(), 0xa29a7d0f38690be4);
}

#[test]
fn signature_after_a_double_push() {
    let mut game = Game::new();
    let before = game.board.get_board_hsh();
    play(&mut game, 12, 28);
    let expected = before
        ^ PIECE_COLOR_HSH[1][12]
        ^ PIECE_COLOR_HSH[1][28]
        ^ EN_PASSANT_HSH[4]
        ^ SIDE_TO_MOVE_HSH;
    assert_eq!(game.board.get_board_hsh(), expected);
    assert_eq!(game.board.get_board_hsh(), 0x9fba7f7d7fbb3e52);
}

#[test]
fn castling_rights_are_part_of_the_signature() {
    let mut game = Game::new();
    // the king's rook goes out and comes back: the squares are the same,
    // the right to castle short is gone
    for (from, to) in [(6u8, 21u8), (62, 45), (7, 6), (63, 62), (6, 7), (62, 63), (21, 6), (45, 62)]
    {
        play(&mut game, from, to);
    }
    let fresh = Board::new();
    assert_eq!(game.board.pieces, fresh.pieces);
    assert_eq!(game.board.get_board_state().castle_rights, 0b1010);
    assert_eq!(game.board.get_board_hsh(), fresh.get_board_hsh() ^ CASTLE_HSH[0] ^ CASTLE_HSH[2]);
}

#[test]
fn pseudo_legal_moves_may_bare_the_king() {
    let mut game = Game::new();
    for (from, to) in [(12u8, 28u8), (53, 37), (3, 39)] {
        play(&mut game, from, to);
    }
    // Black is in check: one legal move, many pseudo-legal ones
    let pseudo = game.board.generate_moves();
    let legal = game.board.generate_all_moves();
    assert_eq!(legal.len(), 1);
    assert!(pseudo.len() > legal.len());
    for m in &legal {
        assert!(pseudo.contains(m));
    }
    assert_eq!(Board::new().generate_moves().len(), 20);
}

#[test]
fn no_move_is_generated_twice() {
    let mut game = Game::new();
    for (from, to) in [(12u8, 28u8), (52, 36), (6, 21), (57, 42), (5, 26), (61, 34), (3, 12)] {
        play(&mut game, from, to);
        let moves = game.board.generate_all_moves();
        for i in 0..moves.len() {
            for j in 0..i {
                assert_ne!(moves[i], moves[j]);
            }
        }
    }
}

#[test]
fn moves_stand_in_the_order_of_the_pieces() {
    let mut game = Game::new();
    for (from, to) in [(12u8, 28u8), (52, 36), (6, 21), (57, 42), (5, 26), (61, 34), (3, 12)] {
        play(&mut game, from, to);
        let moves = game.board.generate_all_moves();
        let ranks: Vec<usize> = moves
            .iter()
            .map(|m| game.board.pieces[m.from as usize].extract_piece().idx())
            .collect();
        for i in 1..ranks.len() {
            assert!(ranks[i - 1] <= ranks[i]);
        }
        assert!(moves.iter().all(|m| game.board.pieces[m.from as usize] != PieceColor::Empty));
    }
}

fn mv(from: u8, to: u8, flag: MoveFlag) -> PieceMove {
    PieceMove { from, to, flag }
}

#[test]
fn white_opens_with_pushes_then_double_pushes_then_knights() {
    let mut board = Board::new();
    let mut expected: Vec<PieceMove> = Vec::new();
    for i in 0..8u8 {
        expected.push(mv(8 + i, 16 + i, MoveFlag::Normal));
    }
    for i in 0..8u8 {
        expected.push(mv(8 + i, 24 + i, MoveFlag::DoublePawnPush));
    }
    expected.push(mv(1, 16, MoveFlag::Normal));
    expected.push(mv(1, 18, MoveFlag::Normal));
    expected.push(mv(6, 21, MoveFlag::Normal));
    expected.push(mv(6, 23, MoveFlag::Normal));
    assert_eq!(board.generate_moves(), expected);
    assert_eq!(board.generate_all_moves(), expected);
}

#[test]
fn black_answers_with_pushes_by_target_then_double_pushes() {
    let mut game = Game::new();
    play(&mut game, 12, 28);
    let mut expected: Vec<PieceMove> = Vec::new();
    for i in 0..8u8 {
        expected.push(mv(48 + i, 40 + i, MoveFlag::Normal));
    }
    for i in 0..8u8 {
        expected.push(mv(48 + i, 32 + i, MoveFlag::DoublePawnPush));
    }
    expected.push(mv(57, 40, MoveFlag::Normal));
    expected.push(mv(57, 42, MoveFlag::Normal));
    expected.push(mv(62, 45, MoveFlag::Normal));
    expected.push(mv(62, 47, MoveFlag::Normal));
    let moves = game.board.generate_all_moves();
    assert_eq!(moves, expected);
    assert!(moves.iter().take(16).all(|m| m.from > m.to));
}

#[test]
fn two_calls_give_the_same_list_and_leave_the_board() {
    let mut game = Game::new();
    for (from, to) in [(12u8, 28u8), (52, 36), (6, 21), (57, 42), (5, 26), (61, 34)] {
        play(&mut game, from, to);
        let before = game.board;
        let first = game.board.generate_all_moves();
        let second = game.board.generate_all_moves();
        assert_eq!(first, second);
        assert_eq!(game.board.bitboard, before.bitboard);
        assert_eq!(game.board.occupied, before.occupied);
        assert_eq!(game.board.pieces, before.pieces);
        assert_eq!(game.board.hsh, before.hsh);
        assert_eq!(game.board.side_to_move, before.side_to_move);
        assert_eq!(game.board.board_state.castle_rights, before.board_state.castle_rights);
        assert_eq!(game.board.board_state.en_passant, before.board_state.en_passant);
    }
}
