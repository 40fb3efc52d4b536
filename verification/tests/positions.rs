use chess_engine::board::Board;
use chess_engine::board_state::BoardState;
use chess_engine::game::{Game, GameEnum};
use chess_engine::piece::{Color, Piece, PieceColor};
use chess_engine::piece_move::{MoveFlag, PieceMove};
use std::collections::HashMap;

fn piece_of(c: char) -> PieceColor {
    match c {
        'P' => PieceColor::WhitePawn,
        'N' => PieceColor::WhiteKnight,
        'B' => PieceColor::WhiteBishop,
        'R' => PieceColor::WhiteRook,
        'Q' => PieceColor::WhiteQueen,
        'K' => PieceColor::WhiteKing,
        'p' => PieceColor::BlackPawn,
        'n' => PieceColor::BlackKnight,
        'b' => PieceColor::BlackBishop,
        'r' => PieceColor::BlackRook,
        'q' => PieceColor::BlackQueen,
        'k' => PieceColor::BlackKing,
        _ => panic!("no such piece: {}", c),
    }
}

fn kind(pc: PieceColor) -> Option<(usize, usize)> {
    match pc {
        PieceColor::Empty => None,
        PieceColor::WhitePawn => Some((0, 0)),
        PieceColor::WhiteKnight => Some((1, 0)),
        PieceColor::WhiteBishop => Some((2, 0)),
        PieceColor::WhiteRook => Some((3, 0)),
        PieceColor::WhiteQueen => Some((4, 0)),
        PieceColor::WhiteKing => Some((5, 0)),
        PieceColor::BlackPawn => Some((0, 1)),
        PieceColor::BlackKnight => Some((1, 1)),
        PieceColor::BlackBishop => Some((2, 1)),
        PieceColor::BlackRook => Some((3, 1)),
        PieceColor::BlackQueen => Some((4, 1)),
        PieceColor::BlackKing => Some((5, 1)),
    }
}

fn square(name: &str) -> u8 {
    let bytes = name.as_bytes();
    (bytes[1] - b'1') * 8 + (bytes[0] - b'a')
}

/// The board of a position written in Forsyth-Edwards notation.
fn board_from_fen(fen: &str) -> Board {
    let fields: Vec<&str> = fen.split(' ').collect();
    let mut pieces = [PieceColor::Empty; 64];
    let mut rank: usize = 7;
    let mut file: usize = 0;
    for c in fields[0].chars() {
        if c == '/' {
            rank -= 1;
            file = 0;
        } else if c.is_ascii_digit() {
            file += c as usize - '0' as usize;
        } else {
            pieces[rank * 8 + file] = piece_of(c);
            file += 1;
        }
    }
    let mut bitboard = [[0u64; 2]; 6];
    let mut occupied = [0u64; 2];
    for sq in 0..64 {
        if let Some((p, c)) = kind(pieces[sq]) {
            bitboard[p][c] |= 1u64 << sq;
            occupied[c] |= 1u64 << sq;
        }
    }
    let mut castle_rights = 0u8;
    for c in fields[2].chars() {
        match c {
            'K' => castle_rights |= 1,
            'Q' => castle_rights |= 2,
            'k' => castle_rights |= 4,
            'q' => castle_rights |= 8,
            _ => {}
        }
    }
    let en_passant = if fields[3] == "-" { None } else { Some(square(fields[3])) };
    let mut board = Board {
        side_to_move: if fields[1] == "w" { Color::White } else { Color::Black },
        bitboard,
        occupied,
        pieces,
        board_state: BoardState { castle_rights, en_passant, captured_piece_type: None },
        hsh: 0,
    };
    board.hsh = board.compute_full_hsh();
    board
}

fn game_from_fen(fen: &str) -> Game {
    Game {
        board: board_from_fen(fen),
        states: Vec::new(),
        hshs: HashMap::new(),
        game_enum: GameEnum::InAction,
    }
}

fn perft(game: &mut Game, depth: u32) -> u64 {
    if depth == 0 {
        return 1;
    }
    let moves = game.board.generate_all_moves();
    if depth == 1 {
        return moves.len() as u64;
    }
    let mut nodes = 0;
    for m in &moves {
        game.do_move(m);
        nodes += perft(game, depth - 1);
        game.undo_move();
    }
    nodes
}

fn has_move(moves: &Vec<PieceMove>, from: &str, to: &str, flag: MoveFlag) -> bool {
    moves.iter().any(|m| m.from == square(from) && m.to == square(to) && m.flag == flag)
}

fn count_flag(moves: &Vec<PieceMove>, flag: MoveFlag) -> usize {
    moves.iter().filter(|m| m.flag == flag).count()
}

#[test]
fn fen_of_the_start_is_the_new_board() {
    let board = board_from_fen("rnbqkbnr/pppppppp/8/8/8/8/PPPPPPPP/RNBQKBNR w KQkq -");
    let fresh = Board::new();
    assert_eq!(board.bitboard, fresh.bitboard);
    assert_eq!(board.occupied, fresh.occupied);
    assert_eq!(board.pieces, fresh.pieces);
    assert_eq!(board.hsh, fresh.hsh);
    assert_eq!(board.side_to_move, fresh.side_to_move);
}

#[test]
fn perft_start_depth_four() {
    let mut game = Game::new();
    assert_eq!(perft(&mut game, 4), 197281);
}

#[test]
fn perft_with_castling_pins_and_promotions() {
    let mut game =
        game_from_fen("r3k2r/p1ppqpb1/bn2pnp1/3PN3/1p2P3/2N2Q1p/PPPBBPPP/R3K2R w KQkq -");
    assert_eq!(perft(&mut game, 1), 48);
    assert_eq!(perft(&mut game, 2), 2039);
    assert_eq!(perft(&mut game, 3), 97862);
}

#[test]
fn perft_of_a_rook_ending_with_en_passant() {
    let mut game = game_from_fen("8/2p5/3p4/KP5r/1R3p1k/8/4P1P1/8 w - -");
    assert_eq!(perft(&mut game, 1), 14);
    assert_eq!(perft(&mut game, 2), 191);
    assert_eq!(perft(&mut game, 3), 2812);
    assert_eq!(perft(&mut game, 4), 43238);
}

#[test]
fn perft_with_a_pawn_about_to_promote() {
    let mut game = game_from_fen("rnbq1k1r/pp1Pbppp/2p5/8/2B5/8/PPP1NnPP/RNBQK2R w KQ -");
    assert_eq!(perft(&mut game, 1), 44);
    assert_eq!(perft(&mut game, 2), 1486);
    assert_eq!(perft(&mut game, 3), 62379);
}

#[test]
fn perft_of_a_position_in_check() {
    let mut game =
        game_from_fen("r3k2r/Pppp1ppp/1b3nbN/nP6/BBP1P3/q4N2/Pp1P2PP/R2Q1RK1 w kq -");
    assert_eq!(perft(&mut game, 1), 6);
    assert_eq!(perft(&mut game, 2), 264);
    assert_eq!(perft(&mut game, 3), 9467);
}

#[test]
fn perft_of_a_quiet_middle_game() {
    let mut game = game_from_fen(
        "r4rk1/1pp1qppp/p1np1n2/2b1p1B1/2B1P1b1/P1NP1N2/1PP1QPPP/R4RK1 w - -",
    );
    assert_eq!(perft(&mut game, 1), 46);
    assert_eq!(perft(&mut game, 2), 2079);
    assert_eq!(perft(&mut game, 3), 89890);
}

#[test]
fn both_castlings_are_offered_when_the_way_is_free() {
    let mut board = board_from_fen("r3k2r/8/8/8/8/8/8/R3K2R w KQkq -");
    let moves = board.generate_all_moves();
    assert!(has_move(&moves, "e1", "g1", MoveFlag::Castling));
    assert!(has_move(&moves, "e1", "c1", MoveFlag::Castling));
    assert_eq!(count_flag(&moves, MoveFlag::Castling), 2);
    let mut board = board_from_fen("r3k2r/8/8/8/8/8/8/R3K2R b KQkq -");
    let moves = board.generate_all_moves();
    assert!(has_move(&moves, "e8", "g8", MoveFlag::Castling));
    assert!(has_move(&moves, "e8", "c8", MoveFlag::Castling));
}

#[test]
fn no_castling_without_the_right() {
    let mut board = board_from_fen("r3k2r/8/8/8/8/8/8/R3K2R w Qk -");
    let moves = board.generate_all_moves();
    assert!(!has_move(&moves, "e1", "g1", MoveFlag::Castling));
    assert!(has_move(&moves, "e1", "c1", MoveFlag::Castling));
}

#[test]
fn no_castling_out_of_through_or_into_check() {
    // the rook on e8 gives check
    let mut board = board_from_fen("4r1k1/8/8/8/8/8/8/R3K2R w KQ -");
    assert_eq!(count_flag(&board.generate_all_moves(), MoveFlag::Castling), 0);
    // the rook on f8 attacks f1, which the king would pass
    let mut board = board_from_fen("5rk1/8/8/8/8/8/8/R3K2R w KQ -");
    let moves = board.generate_all_moves();
    assert!(!has_move(&moves, "e1", "g1", MoveFlag::Castling));
    assert!(has_move(&moves, "e1", "c1", MoveFlag::Castling));
    // the rook on g8 attacks g1, on which the king would end
    let mut board = board_from_fen("6rk/8/8/8/8/8/8/R3K2R w KQ -");
    let moves = board.generate_all_moves();
    assert!(!has_move(&moves, "e1", "g1", MoveFlag::Castling));
    assert!(has_move(&moves, "e1", "c1", MoveFlag::Castling));
    // the rook on b8 attacks b1 only, which the king does not touch
    let mut board = board_from_fen("1r4k1/8/8/8/8/8/8/R3K2R w KQ -");
    assert!(has_move(&board.generate_all_moves(), "e1", "c1", MoveFlag::Castling));
}

#[test]
fn no_castling_over_a_piece() {
    let mut board = board_from_fen("4k3/8/8/8/8/8/8/RN2K1NR w KQ -");
    assert_eq!(count_flag(&board.generate_all_moves(), MoveFlag::Castling), 0);
}

#[test]
fn castling_moves_the_rook_and_ends_the_rights() {
    let mut board = board_from_fen("r3k2r/8/8/8/8/8/8/R3K2R w KQkq -");
    let before = board.hsh;
    let castle = PieceMove { from: 4, to: 6, flag: MoveFlag::Castling };
    let state = board.get_board_state();
    board.do_move(&castle);
    assert_eq!(board.pieces[6], PieceColor::WhiteKing);
    assert_eq!(board.pieces[5], PieceColor::WhiteRook);
    assert_eq!(board.pieces[4], PieceColor::Empty);
    assert_eq!(board.pieces[7], PieceColor::Empty);
    assert_eq!(board.get_board_state().castle_rights, 0b1100);
    assert_eq!(board.hsh, board.compute_full_hsh());
    board.undo_move(&castle, state, None);
    assert_eq!(board.hsh, before);
    assert_eq!(board.pieces[4], PieceColor::WhiteKing);
    assert_eq!(board.pieces[7], PieceColor::WhiteRook);
    assert_eq!(board.get_board_state().castle_rights, 0b1111);
}

#[test]
fn en_passant_takes_the_pawn_behind_the_target() {
    let mut board = board_from_fen("4k3/8/8/3pP3/8/8/8/4K3 w - d6");
    let moves = board.generate_all_moves();
    assert!(has_move(&moves, "e5", "d6", MoveFlag::EnPassantCapture));
    assert_eq!(count_flag(&moves, MoveFlag::EnPassantCapture), 1);
    let capture = PieceMove { from: square("e5"), to: square("d6"), flag: MoveFlag::EnPassantCapture };
    let state = board.get_board_state();
    let before = (board.bitboard, board.occupied, board.pieces, board.hsh);
    board.do_move(&capture);
    assert_eq!(board.pieces[square("d6") as usize], PieceColor::WhitePawn);
    assert_eq!(board.pieces[square("d5") as usize], PieceColor::Empty);
    assert_eq!(board.pieces[square("e5") as usize], PieceColor::Empty);
    assert_eq!(board.get_board_state().en_passant, None);
    assert_eq!(board.hsh, board.compute_full_hsh());
    board.undo_move(&capture, state, None);
    assert_eq!((board.bitboard, board.occupied, board.pieces, board.hsh), before);
    assert_eq!(board.get_board_state().en_passant, Some(square("d6")));
}

#[test]
fn en_passant_that_bares_the_king_is_not_legal() {
    let mut board = board_from_fen("8/8/8/K2pP2r/8/8/8/7k w - d6");
    assert_eq!(count_flag(&board.generate_all_moves(), MoveFlag::EnPassantCapture), 0);
}

#[test]
fn a_pawn_on_the_seventh_promotes_four_ways() {
    let mut board = board_from_fen("1n2k3/P6p/8/8/8/8/8/4K3 w - -");
    let moves = board.generate_all_moves();
    for flag in [
        MoveFlag::PromoteToQueen,
        MoveFlag::PromoteToRook,
        MoveFlag::PromoteToBishop,
        MoveFlag::PromoteToKnight,
    ] {
        assert!(has_move(&moves, "a7", "a8", flag));
    }
    for flag in [
        MoveFlag::PromoteToQueenAndCapture,
        MoveFlag::PromoteToRookAndCapture,
        MoveFlag::PromoteToBishopAndCapture,
        MoveFlag::PromoteToKnightAndCapture,
    ] {
        assert!(has_move(&moves, "a7", "b8", flag));
    }
    assert_eq!(moves.iter().filter(|m| m.from == square("a7")).count(), 8);
}

#[test]
fn promotion_and_capture_round_trip() {
    let mut board = board_from_fen("1n2k3/P6p/8/8/8/8/8/4K3 w - -");
    let before = (board.bitboard, board.occupied, board.pieces, board.hsh);
    let state = board.get_board_state();
    let promote = PieceMove { from: 48, to: 57, flag: MoveFlag::PromoteToKnightAndCapture };
    board.do_move(&promote);
    assert_eq!(board.pieces[57], PieceColor::WhiteKnight);
    assert_eq!(board.pieces[48], PieceColor::Empty);
    assert_eq!(board.get_board_state().captured_piece_type, Some(Piece::Knight));
    assert_eq!(board.hsh, board.compute_full_hsh());
    board.undo_move(&promote, state, Some(Piece::Knight));
    assert_eq!((board.bitboard, board.occupied, board.pieces, board.hsh), before);
}

#[test]
fn black_pawns_move_down_the_board() {
    let mut board = board_from_fen("4k3/3p4/8/8/4P3/8/p6P/1N2K3 b - e3");
    let moves = board.generate_all_moves();
    assert!(has_move(&moves, "d7", "d6", MoveFlag::Normal));
    assert!(has_move(&moves, "d7", "d5", MoveFlag::DoublePawnPush));
    assert!(has_move(&moves, "a2", "a1", MoveFlag::PromoteToQueen));
    assert!(has_move(&moves, "a2", "b1", MoveFlag::PromoteToQueenAndCapture));
    let mut board = board_from_fen("4k3/8/8/8/3pP3/8/8/4K3 b - e3");
    assert!(has_move(&board.generate_all_moves(), "d4", "e3", MoveFlag::EnPassantCapture));
}

#[test]
fn a_pinned_piece_stays_on_the_line_of_the_pin() {
    let mut board = board_from_fen("4k3/8/8/8/8/4r3/4R3/4K3 w - -");
    let moves = board.generate_all_moves();
    assert!(has_move(&moves, "e2", "e3", MoveFlag::Capture));
    assert!(!moves.iter().any(|m| m.from == square("e2") && m.to % 8 != 4));
}

#[test]
fn stalemate_position_is_a_tie() {
    let mut game = game_from_fen("7k/5Q2/6K1/8/8/8/8/8 b - -");
    assert!(game.board.generate_all_moves().is_empty());
    assert!(!game.board.is_checked());
    game.try_update_game_enum();
    assert_eq!(game.game_enum, GameEnum::TieByStalemate);
}

#[test]
fn mate_by_black_is_a_win_for_black() {
    let mut game = game_from_fen("rnb1kbnr/pppp1ppp/8/4p3/6Pq/5P2/PPPPP2P/RNBQKBNR w KQkq -");
    assert!(game.board.generate_all_moves().is_empty());
    game.try_update_game_enum();
    assert_eq!(game.game_enum, GameEnum::BlackWon);
}

#[test]
fn a_game_with_moves_left_stays_in_action() {
    let mut game = Game::new();
    game.try_update_game_enum();
    assert_eq!(game.game_enum, GameEnum::InAction);
}

#[test]
fn bare_kings_are_insufficient_material() {
    let game = game_from_fen("4k3/8/8/8/8/8/8/4K3 w - -");
    assert!(game.check_for_insufficient_material());
    let game = game_from_fen("4k3/8/8/8/8/8/8/4KN2 w - -");
    assert!(game.check_for_insufficient_material());
    let game = game_from_fen("4kb2/8/8/8/8/8/8/4K3 w - -");
    assert!(game.check_for_insufficient_material());
    let game = game_from_fen("4k3/8/8/8/8/8/4P3/4K3 w - -");
    assert!(!game.check_for_insufficient_material());
    let game = game_from_fen("4k3/8/8/8/8/8/8/4KR2 w - -");
    assert!(!game.check_for_insufficient_material());
    let game = game_from_fen("4k3/8/8/8/8/8/8/3QK3 w - -");
    assert!(!game.check_for_insufficient_material());
    let game = game_from_fen("4kn2/8/8/8/8/8/8/4KN2 w - -");
    assert!(!game.check_for_insufficient_material());
    assert!(!Game::new().check_for_insufficient_material());
}

#[test]
fn a_move_from_bare_kings_is_a_tie_by_material() {
    let mut game = game_from_fen("4k3/8/8/8/8/8/8/4K3 w - -");
    let moves = game.board.generate_all_moves();
    game.do_move(&moves[0]);
    assert_eq!(game.game_enum, GameEnum::TieByInsufficientMaterial);
    game.undo_move();
    assert_eq!(game.game_enum, GameEnum::InAction);
}

#[test]
fn attacks_of_every_kind_are_seen() {
    let board = board_from_fen("4k3/8/8/8/8/8/8/R3K3 w - -");
    assert!(board.is_tile_attacked(square("a8")));
    assert!(board.is_tile_attacked(square("d1")));
    assert!(board.is_tile_attacked(square("d2")));
    assert!(board.is_tile_attacked(square("f1")));
    assert!(!board.is_tile_attacked(square("h8")));
    let board = board_from_fen("4k3/8/8/8/3B4/8/8/4K3 w - -");
    assert!(board.is_tile_attacked(square("h8")));
    assert!(board.is_tile_attacked(square("a1")));
    assert!(!board.is_tile_attacked(square("d8")));
    let board = board_from_fen("4k3/8/8/8/3N4/8/8/4K3 w - -");
    assert!(board.is_tile_attacked(square("e6")));
    assert!(board.is_tile_attacked(square("b3")));
    assert!(!board.is_tile_attacked(square("d5")));
    let board = board_from_fen("4k3/8/8/8/3P4/8/8/4K3 w - -");
    assert!(board.is_tile_attacked(square("c5")));
    assert!(board.is_tile_attacked(square("e5")));
    assert!(!board.is_tile_attacked(square("d5")));
    assert!(!board.is_tile_attacked(square("c3")));
    let board = board_from_fen("4k3/8/8/8/3p4/8/8/4K3 b - -");
    assert!(board.is_tile_attacked(square("c3")));
    assert!(board.is_tile_attacked(square("e3")));
    assert!(!board.is_tile_attacked(square("c5")));
    let board = board_from_fen("4k3/8/8/8/8/8/8/R2nK3 w - -");
    assert!(board.is_tile_attacked(square("d1")));
    assert!(!board.is_tile_attacked(square("e1")));
    assert!(board.is_attacked_by(square("f2"), Color::Black));
}

#[test]
fn a_position_with_a_king_to_take_is_not_playable() {
    assert!(board_from_fen("rnbqkbnr/pppppppp/8/8/8/8/PPPPPPPP/RNBQKBNR w KQkq -").is_playable());
    // White is to move and attacks the black king
    assert!(!board_from_fen("4k3/8/8/8/8/8/8/4RK2 w - -").is_playable());
    // it is Black's move: the check is Black's to answer
    assert!(board_from_fen("4k3/8/8/8/8/8/8/4RK2 b - -").is_playable());
    // a king is missing
    assert!(!board_from_fen("8/8/8/8/8/8/8/4RK2 w - -").is_playable());
}

#[test]
fn pseudo_legal_moves_need_no_king() {
    let board = board_from_fen("8/8/8/8/8/8/P6p/R7 w - -");
    let moves = board.generate_moves();
    assert!(has_move(&moves, "a2", "a3", MoveFlag::Normal));
    assert!(has_move(&moves, "a2", "a4", MoveFlag::DoublePawnPush));
    assert!(has_move(&moves, "a1", "h1", MoveFlag::Normal));
    assert!(!has_move(&moves, "h2", "h1", MoveFlag::PromoteToQueen));
    assert_eq!(moves.len(), 9);
}

fn made(from: &str, to: &str, flag: MoveFlag) -> PieceMove {
    PieceMove { from: square(from), to: square(to), flag }
}

#[test]
fn a_rook_slides_file_side_first_and_nearest_square_first() {
    let mut board = board_from_fen("7k/8/8/3p4/8/1P1R4/8/K7 w - -");
    let moves = board.generate_all_moves();
    let rook: Vec<PieceMove> = moves.iter().filter(|m| m.from == square("d3")).copied().collect();
    let expected = vec![
        made("d3", "c3", MoveFlag::Normal),
        made("d3", "e3", MoveFlag::Normal),
        made("d3", "f3", MoveFlag::Normal),
        made("d3", "g3", MoveFlag::Normal),
        made("d3", "h3", MoveFlag::Normal),
        made("d3", "d2", MoveFlag::Normal),
        made("d3", "d1", MoveFlag::Normal),
        made("d3", "d4", MoveFlag::Normal),
        made("d3", "d5", MoveFlag::Capture),
    ];
    assert_eq!(rook, expected);
}

#[test]
fn a_bishop_slides_diagonal_by_diagonal() {
    let mut board = board_from_fen("6k1/8/8/8/8/2B5/8/K7 w - -");
    let moves = board.generate_all_moves();
    let bishop: Vec<PieceMove> = moves.iter().filter(|m| m.from == square("c3")).copied().collect();
    let expected = vec![
        made("c3", "b2", MoveFlag::Normal),
        made("c3", "b4", MoveFlag::Normal),
        made("c3", "a5", MoveFlag::Normal),
        made("c3", "d2", MoveFlag::Normal),
        made("c3", "e1", MoveFlag::Normal),
        made("c3", "d4", MoveFlag::Normal),
        made("c3", "e5", MoveFlag::Normal),
        made("c3", "f6", MoveFlag::Normal),
        made("c3", "g7", MoveFlag::Normal),
        made("c3", "h8", MoveFlag::Normal),
    ];
    assert_eq!(bishop, expected);
}

#[test]
fn the_moves_of_a_position_stand_in_their_order() {
    // pawns: pushes, double pushes, captures towards the a-file, then
    // towards the h-file; the knight takes before it goes; the queen
    // moves as a rook, then as a bishop; the king steps, then castles
    let mut board = board_from_fen("4k3/8/8/8/8/2p1p3/3P4/R3K2N w Q -");
    let moves = board.generate_all_moves();
    let expected = vec![
        made("d2", "d3", MoveFlag::Normal),
        made("d2", "d4", MoveFlag::DoublePawnPush),
        made("d2", "c3", MoveFlag::Capture),
        made("d2", "e3", MoveFlag::Capture),
        made("h1", "f2", MoveFlag::Normal),
        made("h1", "g3", MoveFlag::Normal),
        made("a1", "b1", MoveFlag::Normal),
        made("a1", "c1", MoveFlag::Normal),
        made("a1", "d1", MoveFlag::Normal),
        made("a1", "a2", MoveFlag::Normal),
        made("a1", "a3", MoveFlag::Normal),
        made("a1", "a4", MoveFlag::Normal),
        made("a1", "a5", MoveFlag::Normal),
        made("a1", "a6", MoveFlag::Normal),
        made("a1", "a7", MoveFlag::Normal),
        made("a1", "a8", MoveFlag::Normal),
        made("e1", "d1", MoveFlag::Normal),
        made("e1", "f1", MoveFlag::Normal),
        made("e1", "e2", MoveFlag::Normal),
        made("e1", "c1", MoveFlag::Castling),
    ];
    assert_eq!(moves, expected);
}

#[test]
fn promotions_come_as_bishop_knight_queen_rook() {
    let mut board = board_from_fen("1n2k3/P6p/8/8/8/8/8/4K3 w - -");
    let moves = board.generate_all_moves();
    let pawn: Vec<PieceMove> = moves.iter().filter(|m| m.from == square("a7")).copied().collect();
    let expected = vec![
        made("a7", "a8", MoveFlag::PromoteToBishop),
        made("a7", "a8", MoveFlag::PromoteToKnight),
        made("a7", "a8", MoveFlag::PromoteToQueen),
        made("a7", "a8", MoveFlag::PromoteToRook),
        made("a7", "b8", MoveFlag::PromoteToBishopAndCapture),
        made("a7", "b8", MoveFlag::PromoteToKnightAndCapture),
        made("a7", "b8", MoveFlag::PromoteToQueenAndCapture),
        made("a7", "b8", MoveFlag::PromoteToRookAndCapture),
    ];
    assert_eq!(pawn, expected);
}

#[test]
fn king_and_queen_against_the_bare_king_in_the_corner() {
    let mut game = game_from_fen("7k/5K2/6Q1/8/8/8/8/8 b - -");
    let before = game.board;
    assert!(game.board.generate_all_moves().is_empty());
    game.try_update_game_enum();
    assert_eq!(game.game_enum, GameEnum::TieByStalemate);
    assert_ne!(game.game_enum, GameEnum::WhiteWon);
    assert_eq!(game.board.pieces, before.pieces);
    assert_eq!(game.board.bitboard, before.bitboard);
    assert_eq!(game.board.occupied, before.occupied);
    assert_eq!(game.board.hsh, before.hsh);
    assert_eq!(game.board.side_to_move, before.side_to_move);
}
