use tetris::pieces::{piece, Piece, Tetromino};
use tetris::tetris_engine::Game;

fn game_with(kind: usize) -> Game {
    let mut game = Game::new();
    game.current_piece = piece(kind);
    game
}

fn cells_of(position: (i8, i8), shape: &Tetromino) -> Vec<(i8, i8)> {
    shape.iter().map(|&(tx, ty)| (position.0 + tx, position.1 - ty)).collect()
}

fn occupied(game: &Game) -> Vec<(usize, usize, u8)> {
    let mut out: Vec<(usize, usize, u8)> = Vec::new();
    for row in 0..20usize {
        for col in 0..10usize {
            if game.board[row][col] != 0 {
                out.push((row, col, game.board[row][col]));
            }
        }
    }
    out
}

fn same_piece(a: &Piece, b: &Piece) -> bool {
    a.index == b.index && a.name == b.name && a.rotations == b.rotations
}

#[test]
fn a_new_game_is_empty() {
    let game = Game::new();
    assert_eq!(game.board, [[0u8; 10]; 20]);
    assert_eq!(game.current_rotation, 0);
    assert_eq!(game.current_position, (4, 0));
    assert_eq!(game.score, 0);
    assert_eq!(game.lines_cleared, 0);
    assert!(game.hold_piece.is_none());
    assert!(!game.already_switched);
    assert!((1..=7).contains(&game.current_piece.index));
    assert_eq!(game.bag.next_pieces.len(), 5);
    assert_eq!(game.bag.queue.len(), 1);
}

#[test]
fn the_first_seven_pieces_of_a_game_differ() {
    for _ in 0..20 {
        let mut game = Game::new();
        let mut seen: [bool; 8] = [false; 8];
        seen[game.current_piece.index as usize] = true;
        for _ in 0..6 {
            let next = game.get_next();
            assert!(!seen[next.index as usize]);
            seen[next.index as usize] = true;
        }
    }
}

#[test]
fn current_tetromino_follows_the_rotation() {
    let mut game = game_with(5);
    for rotation in 0..4usize {
        game.current_rotation = rotation;
        assert_eq!(game.current_tetromino(), piece(5).rotations[rotation]);
    }
}

#[test]
fn check_tetromino_respects_walls_and_floor() {
    let game = game_with(5);
    let t = piece(5).rotations[0];
    assert!(game.check_tetromino((4, 0), &t));
    assert!(game.check_tetromino((1, 5), &t));
    assert!(!game.check_tetromino((0, 5), &t));
    assert!(game.check_tetromino((8, 5), &t));
    assert!(!game.check_tetromino((9, 5), &t));
    assert!(game.check_tetromino((4, 19), &t));
    assert!(!game.check_tetromino((4, 20), &t));
    let i = piece(0).rotations[0];
    assert!(game.check_tetromino((7, 5), &i));
    assert!(!game.check_tetromino((8, 5), &i));
    assert!(game.check_tetromino((1, 5), &i));
    assert!(!game.check_tetromino((0, 5), &i));
}

#[test]
fn check_tetromino_treats_rows_above_the_field_as_free() {
    let mut game = game_with(5);
    let t = piece(5).rotations[0];
    assert!(game.check_tetromino((4, -5), &t));
    assert!(game.check_tetromino((4, -100), &t));
    assert!(!game.check_tetromino((0, -5), &t));
    game.board[0][4] = 1;
    assert!(game.check_tetromino((4, -1), &t));
    assert!(!game.check_tetromino((4, 0), &t));
    assert!(!game.check_tetromino((4, 1), &t));
}

#[test]
fn check_tetromino_sees_occupied_cells() {
    let mut game = game_with(5);
    let t = piece(5).rotations[0];
    game.board[10][4] = 1;
    assert!(!game.check_tetromino((4, 10), &t));
    assert!(!game.check_tetromino((4, 11), &t));
    assert!(!game.check_tetromino((3, 10), &t));
    assert!(!game.check_tetromino((5, 10), &t));
    assert!(game.check_tetromino((4, 9), &t));
    assert!(game.check_tetromino((6, 10), &t));
    assert!(game.check_tetromino((2, 10), &t));
}

#[test]
fn check_tetromino_copes_with_extreme_arguments() {
    let game = game_with(5);
    let far: Tetromino = [(127, 127), (-128, -128), (0, 0), (1, 1)];
    assert!(!game.check_tetromino((127, 127), &far));
    assert!(!game.check_tetromino((-128, -128), &far));
    let high: Tetromino = [(0, 127), (1, 127), (2, 127), (3, 127)];
    assert!(game.check_tetromino((0, -128), &high));
}

#[test]
fn move_piece_moves_by_one_column() {
    let mut game = game_with(5);
    assert!(game.move_piece(1));
    assert_eq!(game.current_position, (5, 0));
    assert!(game.move_piece(-1));
    assert!(game.move_piece(-1));
    assert_eq!(game.current_position, (3, 0));
    assert_eq!(game.current_rotation, 0);
}

#[test]
fn move_piece_is_blocked_by_the_wall() {
    let mut game = game_with(5);
    game.current_position = (1, 3);
    assert!(!game.move_piece(-1));
    assert_eq!(game.current_position, (1, 3));
    game.current_position = (8, 3);
    assert!(!game.move_piece(1));
    assert_eq!(game.current_position, (8, 3));
}

#[test]
fn move_piece_is_blocked_by_a_locked_cell() {
    let mut game = game_with(5);
    game.current_position = (4, 10);
    game.board[10][6] = 2;
    assert!(!game.move_piece(1));
    assert_eq!(game.current_position, (4, 10));
    assert!(game.move_piece(-1));
    assert_eq!(game.current_position, (3, 10));
}

#[test]
fn hard_move_slides_to_the_wall() {
    let mut game = game_with(5);
    game.hard_move(-1);
    assert_eq!(game.current_position, (1, 0));
    game.hard_move(1);
    assert_eq!(game.current_position, (8, 0));
    let mut game = game_with(0);
    game.hard_move(1);
    assert_eq!(game.current_position, (7, 0));
    game.hard_move(-1);
    assert_eq!(game.current_position, (1, 0));
}

#[test]
fn hard_move_stops_at_a_locked_cell() {
    let mut game = game_with(5);
    game.current_position = (4, 10);
    game.board[10][8] = 2;
    game.hard_move(1);
    assert_eq!(game.current_position, (6, 10));
    game.hard_move(1);
    assert_eq!(game.current_position, (6, 10));
}

#[test]
fn drop_moves_down_one_row() {
    let mut game = game_with(5);
    assert!(game.drop());
    assert_eq!(game.current_position, (4, 1));
    game.current_position = (4, 19);
    assert!(!game.drop());
    assert_eq!(game.current_position, (4, 19));
    game.current_position = (4, 10);
    game.board[11][3] = 1;
    assert!(!game.drop());
    assert_eq!(game.current_position, (4, 10));
}

#[test]
fn the_ghost_rests_on_the_floor_or_the_stack() {
    let mut game = game_with(5);
    assert_eq!(game.get_ghost(), (4, 19));
    assert_eq!(game.current_position, (4, 0));
    game.board[15][4] = 1;
    assert_eq!(game.get_ghost(), (4, 14));
    game.current_position = (7, 3);
    assert_eq!(game.get_ghost(), (7, 19));
    game.current_position = (4, 14);
    assert_eq!(game.get_ghost(), (4, 14));
}

#[test]
fn the_ghost_of_a_standing_i_piece() {
    let mut game = game_with(0);
    game.current_rotation = 1;
    assert_eq!(game.get_ghost(), (4, 17));
    game.current_rotation = 3;
    assert_eq!(game.get_ghost(), (4, 18));
}

#[test]
fn hard_drop_on_an_empty_board() {
    for kind in 0..7usize {
        let mut game = game_with(kind);
        let index: u8 = piece(kind).index;
        let shape = piece(kind).rotations[0];
        let upcoming = game.get_nexts();
        let lock_out = game.hard_drop();
        assert!(!lock_out);
        let mut expected: Vec<(usize, usize, u8)> = cells_of((4, 19), &shape)
            .iter()
            .map(|&(col, row)| (row as usize, col as usize, index))
            .collect();
        expected.sort();
        assert_eq!(occupied(&game), expected);
        assert!(expected.iter().any(|&(row, _, _)| row == 19));
        assert_eq!(game.lines_cleared, 0);
        assert_eq!(game.score, 0);
        assert_eq!(game.current_position, (4, 0));
        assert_eq!(game.current_rotation, 0);
        assert!(same_piece(&game.current_piece, &upcoming[0]));
        assert!(!game.already_switched);
    }
}

#[test]
fn hard_drop_lands_on_the_stack() {
    let mut game = game_with(3);
    game.board[19][4] = 7;
    game.board[18][4] = 7;
    assert!(!game.hard_drop());
    assert_eq!(
        occupied(&game),
        vec![(16, 4, 2), (16, 5, 2), (17, 4, 2), (17, 5, 2), (18, 4, 7), (19, 4, 7)]
    );
}

#[test]
fn rotate_on_an_empty_board_turns_in_place() {
    let mut game = game_with(5);
    game.current_position = (4, 10);
    game.rotate(1);
    assert_eq!((game.current_rotation, game.current_position), (1, (4, 10)));
    game.rotate(1);
    assert_eq!((game.current_rotation, game.current_position), (2, (4, 10)));
    game.rotate(2);
    assert_eq!((game.current_rotation, game.current_position), (0, (4, 10)));
    game.rotate(3);
    assert_eq!((game.current_rotation, game.current_position), (3, (4, 10)));
    game.rotate(3);
    assert_eq!((game.current_rotation, game.current_position), (2, (4, 10)));
}

#[test]
fn rotate_of_the_i_piece_applies_its_first_kick() {
    let mut game = game_with(0);
    game.current_position = (4, 10);
    game.rotate(1);
    assert_eq!((game.current_rotation, game.current_position), (1, (5, 10)));
    game.rotate(1);
    assert_eq!((game.current_rotation, game.current_position), (2, (5, 11)));
    game.rotate(2);
    assert_eq!((game.current_rotation, game.current_position), (0, (4, 10)));
}

#[test]
fn rotate_kicks_off_the_wall() {
    let mut game = game_with(5);
    game.current_rotation = 1;
    game.current_position = (0, 10);
    game.rotate(1);
    assert_eq!((game.current_rotation, game.current_position), (2, (1, 10)));
}

#[test]
fn rotate_takes_the_fifth_kick_when_the_first_four_are_blocked() {
    let mut game = game_with(5);
    game.current_position = (4, 10);
    game.board[11][4] = 1;
    game.board[9][3] = 1;
    game.rotate(1);
    assert_eq!((game.current_rotation, game.current_position), (1, (3, 12)));
}

#[test]
fn rotate_with_every_other_footprint_cell_occupied() {
    let mut game = game_with(5);
    game.current_position = (4, 10);
    let new_shape = piece(5).rotations[1];
    let candidates: [(i8, i8); 5] = [(4, 10), (3, 10), (3, 9), (4, 12), (3, 12)];
    let last = cells_of(candidates[4], &new_shape);
    for candidate in &candidates[..4] {
        for (col, row) in cells_of(*candidate, &new_shape) {
            if !last.contains(&(col, row)) {
                game.board[row as usize][col as usize] = 1;
            }
        }
    }
    game.rotate(1);
    assert_eq!((game.current_rotation, game.current_position), (1, (3, 12)));
}

#[test]
fn rotate_with_all_five_kicks_blocked_changes_nothing() {
    let mut game = game_with(5);
    game.current_position = (4, 10);
    game.board[11][4] = 1;
    game.board[9][3] = 1;
    game.board[12][3] = 1;
    let board = game.board;
    game.rotate(1);
    assert_eq!((game.current_rotation, game.current_position), (0, (4, 10)));
    assert_eq!(game.board, board);
}

#[test]
fn rotate_takes_the_second_kick_before_the_third() {
    let mut game = game_with(5);
    game.current_position = (4, 10);
    game.board[11][4] = 1;
    game.rotate(1);
    assert_eq!((game.current_rotation, game.current_position), (1, (3, 10)));
}

#[test]
fn the_o_piece_turns_without_moving_its_cells() {
    let mut game = game_with(3);
    game.current_position = (4, 5);
    let mut before = cells_of(game.current_position, &game.current_tetromino());
    before.sort();
    let expected: [(usize, (i8, i8)); 4] = [(1, (4, 4)), (2, (5, 4)), (3, (5, 5)), (0, (4, 5))];
    for (rotation, position) in expected {
        game.rotate(1);
        assert_eq!((game.current_rotation, game.current_position), (rotation, position));
        let mut after = cells_of(game.current_position, &game.current_tetromino());
        after.sort();
        assert_eq!(after, before);
    }
    game.rotate(2);
    assert_eq!((game.current_rotation, game.current_position), (2, (5, 4)));
    game.rotate(3);
    assert_eq!((game.current_rotation, game.current_position), (1, (4, 4)));
}

#[test]
fn the_o_piece_turns_without_a_fit_test() {
    let mut game = game_with(3);
    game.current_position = (4, 5);
    for row in 0..20usize {
        for col in 0..10usize {
            game.board[row][col] = 1;
        }
    }
    game.rotate(1);
    assert_eq!((game.current_rotation, game.current_position), (1, (4, 4)));
}

#[test]
fn hold_sets_the_piece_aside_and_draws_the_next() {
    let mut game = game_with(5);
    game.current_position = (6, 8);
    game.current_rotation = 2;
    let upcoming = game.get_nexts();
    assert!(game.hold_piece());
    assert!(same_piece(&game.hold_piece.unwrap(), &piece(5)));
    assert!(same_piece(&game.current_piece, &upcoming[0]));
    assert_eq!(game.current_position, (4, 0));
    assert_eq!(game.current_rotation, 0);
    assert!(game.already_switched);
    assert!(same_piece(&game.get_nexts()[0], &upcoming[1]));
}

#[test]
fn a_second_hold_in_a_row_is_refused() {
    let mut game = game_with(5);
    assert!(game.hold_piece());
    game.current_position = (6, 8);
    game.current_rotation = 1;
    let piece_before = game.current_piece;
    let held_before = game.hold_piece.unwrap();
    let shown_before = game.bag.next_pieces.clone();
    let reserve_before = game.bag.queue.clone();
    assert!(!game.hold_piece());
    assert!(same_piece(&game.current_piece, &piece_before));
    assert!(same_piece(&game.hold_piece.unwrap(), &held_before));
    assert_eq!(game.current_position, (6, 8));
    assert_eq!(game.current_rotation, 1);
    assert!(game.already_switched);
    assert_eq!(game.bag.next_pieces, shown_before);
    assert_eq!(game.bag.queue, reserve_before);
    assert_eq!(game.board, [[0u8; 10]; 20]);
    assert_eq!(game.score, 0);
    assert_eq!(game.lines_cleared, 0);
}

#[test]
fn hold_swaps_with_the_piece_set_aside() {
    let mut game = game_with(5);
    game.hold_piece = Some(piece(0));
    game.current_position = (2, 7);
    game.current_rotation = 3;
    let shown_before = game.bag.next_pieces.clone();
    assert!(game.hold_piece());
    assert!(same_piece(&game.current_piece, &piece(0)));
    assert!(same_piece(&game.hold_piece.unwrap(), &piece(5)));
    assert_eq!(game.current_position, (4, 0));
    assert_eq!(game.current_rotation, 0);
    assert_eq!(game.bag.next_pieces, shown_before);
}

#[test]
fn hold_is_allowed_again_after_a_placement() {
    let mut game = game_with(5);
    assert!(game.hold_piece());
    assert!(!game.hold_piece());
    game.hard_drop();
    assert!(!game.already_switched);
    assert!(game.hold_piece());
    assert!(!game.hold_piece());
}

#[test]
fn get_next_draws_what_get_nexts_shows() {
    let mut game = Game::new();
    for _ in 0..30 {
        let shown = game.get_nexts();
        for i in 0..5usize {
            assert!(same_piece(&shown[i], &piece(game.bag.next_pieces[i])));
        }
        let drawn = game.get_next();
        assert!(same_piece(&drawn, &shown[0]));
        let shown_after = game.get_nexts();
        for i in 0..4usize {
            assert!(same_piece(&shown_after[i], &shown[i + 1]));
        }
    }
}

#[test]
fn place_writes_the_piece_and_summons_the_next() {
    let mut game = game_with(0);
    game.current_position = (4, 19);
    game.already_switched = true;
    let upcoming = game.get_nexts();
    assert!(!game.place());
    assert_eq!(occupied(&game), vec![(19, 3, 1), (19, 4, 1), (19, 5, 1), (19, 6, 1)]);
    assert!(same_piece(&game.current_piece, &upcoming[0]));
    assert_eq!(game.current_position, (4, 0));
    assert_eq!(game.current_rotation, 0);
    assert!(!game.already_switched);
    assert_eq!(game.score, 0);
    assert_eq!(game.lines_cleared, 0);
}

#[test]
fn place_does_not_test_the_fit() {
    let mut game = game_with(5);
    game.current_position = (4, 10);
    game.board[10][4] = 1;
    assert!(!game.place());
    assert_eq!(occupied(&game), vec![(9, 4, 3), (10, 3, 3), (10, 4, 3), (10, 5, 3)]);
}

#[test]
fn place_above_the_field_signals_lock_out() {
    let mut game = game_with(5);
    let upcoming = game.get_nexts();
    assert!(game.place());
    assert_eq!(occupied(&game), vec![(0, 3, 3), (0, 4, 3), (0, 5, 3)]);
    assert!(same_piece(&game.current_piece, &upcoming[0]));
    assert_eq!(game.current_position, (4, 0));
}

#[test]
fn place_entirely_above_the_field_writes_nothing() {
    let mut game = game_with(5);
    game.current_position = (4, -3);
    assert!(game.place());
    assert_eq!(occupied(&game), vec![]);
    let t = piece(5).rotations[0];
    assert!(game.check_tetromino((4, -3), &t));
}

#[test]
fn a_placed_piece_blocks_its_own_position() {
    for kind in 0..7usize {
        for rotation in 0..4usize {
            let mut game = game_with(kind);
            game.board[19][0] = 6;
            game.board[18][9] = 5;
            game.current_rotation = rotation;
            game.current_position = (4, 10);
            let shape = game.current_tetromino();
            let position = game.current_position;
            assert!(game.check_tetromino(position, &shape));
            assert!(!game.place());
            assert!(!game.check_tetromino(position, &shape));
            assert_eq!(game.board[19][0], 6);
            assert_eq!(game.board[18][9], 5);
            assert_eq!(occupied(&game).len(), 6);
        }
    }
}

#[test]
fn a_cleared_row_frees_the_position_again() {
    let mut game = game_with(0);
    for col in 0..10usize {
        if !(3..=6).contains(&col) {
            game.board[19][col] = 2;
        }
    }
    game.current_position = (4, 19);
    let shape = game.current_tetromino();
    assert!(game.check_tetromino((4, 19), &shape));
    assert!(!game.place());
    assert_eq!(occupied(&game), vec![]);
    assert!(game.check_tetromino((4, 19), &shape));
}

#[test]
fn a_full_row_is_removed_and_the_row_above_sinks() {
    let mut game = game_with(0);
    for col in 0..10usize {
        if !(3..=6).contains(&col) {
            game.board[19][col] = 2;
        }
    }
    game.board[18][0] = 5;
    game.board[18][7] = 4;
    game.current_position = (4, 19);
    assert!(!game.place());
    assert_eq!(occupied(&game), vec![(19, 0, 5), (19, 7, 4)]);
    assert_eq!(game.board[18], [0u8; 10]);
    assert_eq!(game.lines_cleared, 1);
    assert_eq!(game.score, 40);
}

#[test]
fn rows_that_are_not_full_keep_their_order() {
    let mut game = game_with(3);
    for col in 0..10usize {
        game.board[19][col] = 1;
        game.board[17][col] = 1;
    }
    game.board[18][2] = 6;
    game.board[16][8] = 7;
    game.board[15][0] = 4;
    game.current_position = (4, 1);
    assert!(!game.place());
    assert_eq!(
        occupied(&game),
        vec![
            (2, 4, 2),
            (2, 5, 2),
            (3, 4, 2),
            (3, 5, 2),
            (17, 0, 4),
            (18, 8, 7),
            (19, 2, 6)
        ]
    );
    assert_eq!(game.lines_cleared, 2);
    assert_eq!(game.score, 100);
}

#[test]
fn four_rows_at_level_zero_score_1200() {
    let mut game = game_with(0);
    for row in 16..20usize {
        for col in 0..9usize {
            game.board[row][col] = 3;
        }
    }
    game.current_rotation = 1;
    game.current_position = (9, 17);
    assert!(!game.place());
    assert_eq!(game.score, 1200);
    assert_eq!(game.lines_cleared, 4);
    assert_eq!(game.board, [[0u8; 10]; 20]);
}

#[test]
fn one_row_at_level_two_scores_120() {
    let mut game = game_with(0);
    game.lines_cleared = 27;
    game.score = 1000;
    for col in 0..10usize {
        if !(3..=6).contains(&col) {
            game.board[19][col] = 2;
        }
    }
    game.current_position = (4, 19);
    assert!(!game.place());
    assert_eq!(game.score, 1120);
    assert_eq!(game.lines_cleared, 28);
}

#[test]
fn the_level_before_the_removal_counts() {
    let mut game = game_with(0);
    game.lines_cleared = 9;
    for row in 18..20usize {
        for col in 0..9usize {
            game.board[row][col] = 3;
        }
    }
    game.board[17][0] = 1;
    game.board[16][0] = 1;
    game.current_rotation = 1;
    game.current_position = (9, 17);
    assert!(!game.place());
    assert_eq!(game.lines_cleared, 11);
    assert_eq!(game.score, 100);
    assert_eq!(game.get_level(), 1);
}

#[test]
fn three_rows_score_300() {
    let mut game = game_with(0);
    game.lines_cleared = 10;
    for row in 17..20usize {
        for col in 0..9usize {
            game.board[row][col] = 3;
        }
    }
    game.current_rotation = 1;
    game.current_position = (9, 17);
    assert!(!game.place());
    assert_eq!(game.lines_cleared, 13);
    assert_eq!(game.score, 600);
    assert_eq!(occupied(&game), vec![(19, 9, 1)]);
}

#[test]
fn more_than_four_rows_score_nothing() {
    let mut game = game_with(0);
    for row in 14..20usize {
        for col in 0..10usize {
            game.board[row][col] = 3;
        }
    }
    game.current_position = (4, 5);
    assert!(!game.place());
    assert_eq!(game.lines_cleared, 6);
    assert_eq!(game.score, 0);
    assert_eq!(occupied(&game), vec![(11, 3, 1), (11, 4, 1), (11, 5, 1), (11, 6, 1)]);
}

#[test]
fn the_level_is_a_tenth_of_the_rows() {
    let mut game = Game::new();
    for (lines, level) in [(0u32, 0u32), (9, 0), (10, 1), (27, 2), (100, 10), (4294967295, 429496729)] {
        game.lines_cleared = lines;
        assert_eq!(game.get_level(), level);
    }
}

#[test]
fn soft_drop_leaves_the_game_as_it_is() {
    let mut game = game_with(5);
    game.current_position = (3, 7);
    game.soft_drop();
    assert_eq!(game.current_position, (3, 7));
    assert_eq!(game.current_rotation, 0);
    assert_eq!(game.board, [[0u8; 10]; 20]);
}

#[test]
fn rotations_never_lift_the_piece_out_of_reach() {
    for kind in 0..7usize {
        for filled_from in [0usize, 1, 2, 3, 20] {
            let mut game = game_with(kind);
            for row in filled_from..20usize {
                for col in 0..10usize {
                    game.board[row][col] = 1;
                }
            }
            let turns: [i32; 7] = [1, 3, 2, 1, 1, 2, 3];
            for step in 0..700usize {
                game.rotate(turns[step % 7]);
                if step % 5 == 0 {
                    game.move_piece(if step % 2 == 0 { -1 } else { 1 });
                }
                let (x, y) = game.current_position;
                assert!(-12 <= y && y <= 21, "piece {} at row {}", kind, y);
                assert!(-2 <= x && x <= 11);
                for (col, row) in cells_of((x, y), &game.current_tetromino()) {
                    assert!(0 <= col && col < 10 && row < 20);
                }
            }
        }
    }
}

#[test]
fn the_third_kick_lifts_the_piece_by_a_row() {
    let mut game = game_with(5);
    game.current_position = (4, 10);
    game.board[11][4] = 1;
    game.board[11][3] = 1;
    game.rotate(1);
    assert_eq!((game.current_rotation, game.current_position), (1, (3, 9)));
}
