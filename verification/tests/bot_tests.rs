use chess_engine::allocators::allocator::IAllocator;
use chess_engine::allocators::list_stack_allocator::ListStackAllocator;
use chess_engine::allocators::list_stack_node::ListStackNode;
use chess_engine::allocators::node::INode;
use chess_engine::allocators::{MAX_BRANCH_FACTOR, MAX_DEEP};
use chess_engine::attack_tables::{KING_ATTACK, KNIGHT_ATTACK};
use chess_engine::bot::bot::IBot;
use chess_engine::bot::mc_bot::McBot;
use chess_engine::bot::min_max::MinMaxBot;
use chess_engine::bot::random_bot::RandomBot;
use chess_engine::bot::{is_better, worst_score};
use chess_engine::evaluation_function::{
    evaluate_bitboard, evaluate_pawns, evaluate_pos, monte_carlo, random_walk, static_evaluation,
    MATE_VALUE, PAWN_PST,
};
use chess_engine::game::{Game, GameEnum};
use chess_engine::piece::{Color, Piece, PieceColor};
use chess_engine::piece_move::{MoveFlag, PieceMove};

fn legal(game: &Game, m: &PieceMove) -> bool {
    let mut copy = Game::from(game);
    copy.board.generate_all_moves().contains(m)
}

fn step(game: &mut Game, from: u8, to: u8) {
    let moves = game.board.generate_all_moves();
    let m = *moves.iter().find(|m| m.from == from && m.to == to).unwrap();
    game.do_move(&m);
}

fn sample(n: u8) -> Vec<PieceMove> {
    (0..n).map(|i| PieceMove { from: i, to: i + 1, flag: MoveFlag::Normal }).collect()
}

#[test]
fn new_node_is_empty_with_room() {
    let node = ListStackNode::new(40);
    assert!(node.is_empty());
    assert_eq!(node.len(), 0);
    assert_eq!(node.score, 0);
    assert_eq!(node.vis, 0);
    assert!(node.moves.capacity() >= 40);
}

#[test]
fn node_takes_and_hands_back_its_moves() {
    let mut node = ListStackNode::new(8);
    node.set_moves(sample(3));
    assert_eq!(node.len(), 3);
    assert!(!node.is_empty());
    assert_eq!(node.as_slice(), sample(3).as_slice());
    node.as_slice_mut()[1].flag = MoveFlag::Capture;
    assert_eq!(node.as_slice()[1].flag, MoveFlag::Capture);
    let taken = node.take_moves();
    assert_eq!(taken.len(), 3);
    assert_eq!(taken[1].flag, MoveFlag::Capture);
    assert!(node.is_empty());
    node.set_moves(taken);
    assert_eq!(node.len(), 3);
    node.score = 7;
    node.vis = 2;
    node.clear();
    assert!(node.is_empty());
    assert_eq!(node.score, 0);
    assert_eq!(node.vis, 0);
}

#[test]
fn allocator_has_a_slot_for_each_depth() {
    let mut store = ListStackAllocator::new();
    assert_eq!(store.nodes.len(), MAX_DEEP);
    assert!(store.nodes.iter().all(|node| node.score == 0 && node.vis == 0 && node.is_empty()));
    for depth in 0..MAX_DEEP {
        let node = store.get_node(depth);
        assert!(node.is_empty());
        assert!(node.moves.capacity() >= MAX_BRANCH_FACTOR);
    }
}

#[test]
fn get_node_clears_its_slot_and_no_other() {
    let mut store = ListStackAllocator::new();
    store.get_node(2).set_moves(sample(5));
    store.get_node(3).set_moves(sample(7));
    assert_eq!(store.nodes[2].len(), 5);
    assert_eq!(store.nodes[3].len(), 7);
    let node = store.get_node(2);
    assert!(node.is_empty());
    assert_eq!(store.nodes[3].len(), 7);
    store.clean();
    assert!(store.nodes.iter().all(|node| node.is_empty()));
}

#[test]
fn slots_keep_their_room_once_warm() {
    let mut store = ListStackAllocator::new();
    let depth = 4;
    let room = store.get_node(depth).moves.capacity();
    for round in 0..50u8 {
        let node = store.get_node(depth);
        assert!(node.is_empty());
        for m in sample(round % 40) {
            node.moves.push(m);
        }
        assert_eq!(node.moves.capacity(), room);
    }
    assert_eq!(store.get_node(depth).moves.capacity(), room);
    let taken = store.get_node(depth).take_moves();
    assert_eq!(taken.capacity(), room);
    store.get_node(depth + 1);
    store.get_node(depth).set_moves(taken);
    assert_eq!(store.nodes[depth].moves.capacity(), room);
}

#[test]
fn attack_tables_hold_the_moves_of_knight_and_king() {
    for a in 0..64i32 {
        for b in 0..64i32 {
            let dr = (a / 8 - b / 8).abs();
            let df = (a % 8 - b % 8).abs();
            let knight = (dr == 1 && df == 2) || (dr == 2 && df == 1);
            let king = a != b && dr <= 1 && df <= 1;
            assert_eq!(KNIGHT_ATTACK[a as usize] >> b & 1 == 1, knight);
            assert_eq!(KING_ATTACK[a as usize] >> b & 1 == 1, king);
        }
    }
}

#[test]
fn start_position_is_balanced() {
    let game = Game::new();
    assert_eq!(evaluate_pawns(&game), 0);
    assert_eq!(evaluate_pos(&game), 0);
    assert_eq!(static_evaluation(&game), 0);
}

#[test]
fn evaluation_reads_the_tables() {
    let mut game = Game::new();
    step(&mut game, 12, 28);
    assert_eq!(evaluate_pawns(&game), 0);
    assert_eq!(static_evaluation(&game), PAWN_PST[28] - PAWN_PST[12]);
    assert_eq!(static_evaluation(&game), -25);
    assert_eq!(evaluate_bitboard(1 << 12, &PAWN_PST, true), 50);
    assert_eq!(evaluate_bitboard(1 << 12, &PAWN_PST, false), -20);
    assert_eq!(evaluate_bitboard((1 << 12) | (1 << 27), &PAWN_PST, true), 75);
    assert_eq!(evaluate_bitboard(0, &PAWN_PST, true), 0);
}

#[test]
fn material_counts_each_piece_at_its_value() {
    let mut game = Game::new();
    for (from, to) in [(12u8, 28u8), (51, 35), (28, 35)] {
        step(&mut game, from, to);
    }
    assert_eq!(evaluate_pawns(&game), 100);
    step(&mut game, 59, 35);
    assert_eq!(evaluate_pawns(&game), 0);
    for (from, to) in [(1u8, 18u8), (35, 32), (18, 1), (32, 8)] {
        step(&mut game, from, to);
    }
    assert_eq!(evaluate_pawns(&game), -100);
    step(&mut game, 0, 8);
    assert_eq!(evaluate_pawns(&game), 800);
}

#[test]
fn finished_games_score_by_their_result() {
    let mut game = Game::new();
    game.game_enum = GameEnum::WhiteWon;
    assert_eq!(static_evaluation(&game), MATE_VALUE);
    assert_eq!(static_evaluation(&game), 20000);
    game.game_enum = GameEnum::BlackWon;
    assert_eq!(static_evaluation(&game), -20000);
    for tie in [
        GameEnum::TieBy50Rule,
        GameEnum::TieByInsufficientMaterial,
        GameEnum::TieByStalemate,
        GameEnum::TieByThreefoldRepetition,
    ] {
        game.game_enum = tie;
        assert_eq!(static_evaluation(&game), 0);
    }
}

#[test]
fn random_walk_ends_with_a_result() {
    for _ in 0..5 {
        let mut game = Game::new();
        let score = random_walk(&mut game);
        assert!(score >= -1 && score <= 1);
        assert!(game.get_states_stack_size() <= 100);
        match game.game_enum {
            GameEnum::WhiteWon => assert_eq!(score, 1),
            GameEnum::BlackWon => assert_eq!(score, -1),
            _ => assert_eq!(score, 0),
        }
        assert_eq!(game.board.get_board_hsh(), game.board.compute_full_hsh());
    }
}

#[test]
fn monte_carlo_stays_within_its_number_of_walks() {
    let game = Game::new();
    assert_eq!(monte_carlo(&game, 0), 0);
    let score = monte_carlo(&game, 4);
    assert!(score >= -4 && score <= 4);
    assert_eq!(game.get_states_stack_size(), 0);
}

#[test]
fn random_bot_makes_a_legal_move() {
    let mut bot = RandomBot::new();
    let mut game = Game::new();
    for _ in 0..20 {
        let m = bot.get_best_move(&game);
        assert!(legal(&game, &m));
        game.do_move(&m);
        if game.board.generate_all_moves().is_empty() {
            break;
        }
    }
}

#[test]
fn random_bot_has_only_one_move_to_choose() {
    let mut game = Game::new();
    for (from, to) in [(12u8, 28u8), (53, 37), (3, 39)] {
        step(&mut game, from, to);
    }
    let only = PieceMove { from: 54, to: 46, flag: MoveFlag::Normal };
    assert_eq!(RandomBot::new().get_best_move(&game), only);
}

#[test]
fn monte_carlo_bot_makes_a_legal_move() {
    let mut bot = McBot::new(2);
    let game = Game::new();
    let m = bot.get_best_move(&game);
    assert!(legal(&game, &m));
    assert_eq!(game.get_states_stack_size(), 0);
    assert_eq!(bot.memory.nodes[0].len(), 20);
}

#[test]
fn min_max_bot_makes_a_legal_move() {
    let mut bot = MinMaxBot::new(ListStackAllocator::new(), 2);
    let game = Game::new();
    let m = bot.get_best_move(&game);
    assert!(legal(&game, &m));
    assert_eq!(game.get_states_stack_size(), 0);
}

#[test]
fn min_max_bot_takes_the_mate_in_one() {
    let mut game = Game::new();
    for (from, to) in [(12u8, 28u8), (52, 36), (5, 26), (57, 42), (3, 39), (62, 45)] {
        step(&mut game, from, to);
    }
    let mut bot = MinMaxBot::new(ListStackAllocator::new(), 2);
    let m = bot.get_best_move(&game);
    assert_eq!(m, PieceMove { from: 39, to: 53, flag: MoveFlag::Capture });
}

#[test]
fn min_max_scores_a_line_and_restores_the_game() {
    let mut game = Game::new();
    let before = game.board.get_board_hsh();
    let mut bot = MinMaxBot::new(ListStackAllocator::new(), 1);
    let e4 = PieceMove { from: 12, to: 28, flag: MoveFlag::DoublePawnPush };
    assert_eq!(bot.do_min_max(&e4, 1, &mut game), -25);
    assert_eq!(game.board.get_board_hsh(), before);
    assert_eq!(game.get_states_stack_size(), 0);
    assert_eq!(game.game_enum, GameEnum::InAction);
}

#[test]
fn piece_and_colour_make_the_right_square_content() {
    assert_eq!(PieceColor::new(Piece::Queen, Color::Black), PieceColor::BlackQueen);
    assert_eq!(PieceColor::new(Piece::Pawn, Color::White), PieceColor::WhitePawn);
    assert_eq!(PieceColor::BlackRook.extract_piece(), Piece::Rook);
    assert_eq!(PieceColor::Empty.try_extract_piece(), None);
    assert_eq!(PieceColor::WhiteKing.try_extract_piece(), Some(Piece::King));
    assert_eq!(PieceColor::WhiteKing.owner(), Some(Color::White));
    assert_eq!(PieceColor::Empty.owner(), None);
    assert_eq!(Color::White.get_opposite(), Color::Black);
    assert_eq!(Color::Black.get_opposite(), Color::White);
    assert_eq!(PieceColor::BlackKing.idx(), 12);
    assert_eq!(Piece::King.idx(), 5);
    assert_eq!(Color::Black.idx(), 1);
}

#[test]
fn white_wants_high_scores_and_black_low_ones() {
    assert!(is_better(Color::White, 5, 3));
    assert!(!is_better(Color::White, 3, 3));
    assert!(!is_better(Color::White, 1, 3));
    assert!(is_better(Color::Black, 1, 3));
    assert!(!is_better(Color::Black, 3, 3));
    assert!(!is_better(Color::Black, 5, 3));
    assert_eq!(worst_score(Color::White), i32::MIN);
    assert_eq!(worst_score(Color::Black), i32::MAX);
}

#[test]
fn walks_from_a_finished_game_all_end_alike() {
    let mut game = Game::new();
    game.game_enum = GameEnum::WhiteWon;
    assert_eq!(monte_carlo(&game, 3), 3);
    assert_eq!(monte_carlo(&game, 0), 0);
    game.game_enum = GameEnum::BlackWon;
    assert_eq!(monte_carlo(&game, 5), -5);
    game.game_enum = GameEnum::TieBy50Rule;
    assert_eq!(monte_carlo(&game, 5), 0);
    let before = game.board.get_board_hsh();
    assert_eq!(random_walk(&mut game), 0);
    assert_eq!(game.game_enum, GameEnum::TieBy50Rule);
    assert_eq!(game.get_states_stack_size(), 0);
    assert_eq!(game.board.get_board_hsh(), before);
}

#[test]
fn walks_from_a_mate_count_the_win() {
    let mut game = Game::new();
    for (from, to) in [(12u8, 28u8), (52, 36), (5, 26), (57, 42), (3, 39), (62, 45), (39, 53)] {
        step(&mut game, from, to);
    }
    assert_eq!(game.game_enum, GameEnum::InAction);
    assert_eq!(monte_carlo(&game, 4), 4);
    let moves_made = game.get_states_stack_size();
    assert_eq!(random_walk(&mut game), 1);
    assert_eq!(game.game_enum, GameEnum::WhiteWon);
    assert_eq!(game.get_states_stack_size(), moves_made);
}
