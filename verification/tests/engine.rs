use tetris_tui::cell::{empty_cell, i_cell, o_cell, Cell};
use tetris_tui::game::{Game, GameInput, Phase};
use tetris_tui::tetromino::{Position, Tetromino};
use tetris_tui::{PLAY_HEIGHT, PLAY_WIDTH};

fn i_states() -> Vec<Vec<Vec<Cell>>> {
    let e = empty_cell();
    let i = i_cell();
    vec![
        vec![
            vec![e, e, e, e],
            vec![i, i, i, i],
            vec![e, e, e, e],
            vec![e, e, e, e],
        ],
        vec![
            vec![e, e, i, e],
            vec![e, e, i, e],
            vec![e, e, i, e],
            vec![e, e, i, e],
        ],
        vec![
            vec![e, e, e, e],
            vec![e, e, e, e],
            vec![i, i, i, i],
            vec![e, e, e, e],
        ],
        vec![
            vec![e, i, e, e],
            vec![e, i, e, e],
            vec![e, i, e, e],
            vec![e, i, e, e],
        ],
    ]
}

fn i_piece(is_next: bool) -> Tetromino {
    let (row, col) = if is_next { (2, 1) } else { (0, 3) };
    Tetromino {
        states: i_states(),
        current_state: 0,
        position: Position { row, col },
    }
}

fn o_piece() -> Tetromino {
    let o = o_cell();
    Tetromino {
        states: vec![vec![vec![o, o], vec![o, o]]],
        current_state: 0,
        position: Position { row: 0, col: 4 },
    }
}

fn occupied_count(game: &Game) -> usize {
    let mut n = 0;
    for row in &game.play_grid {
        for cell in row {
            if cell.occupied {
                n += 1;
            }
        }
    }
    n
}

#[test]
fn can_move_respects_bounds_and_cells() {
    let mut game = Game::new(i_piece(false), i_piece(true), 0, 0, false);
    let piece = game.current_tetromino.clone();
    // Legal placement in the empty field.
    assert!(game.can_move(&piece, 0, 3));
    // The horizontal I occupies box columns 0..4 in box row 1: column -1
    // would leave the field on the left, column 7 on the right.
    assert!(!game.can_move(&piece, 0, -1));
    assert!(game.can_move(&piece, 0, 0));
    assert!(game.can_move(&piece, 0, 6));
    assert!(!game.can_move(&piece, 0, 7));
    // Its blocks sit in box row 1, so row 18 puts them on the bottom row
    // and row 19 pushes them out below.
    assert!(game.can_move(&piece, 18, 3));
    assert!(!game.can_move(&piece, 19, 3));
    // An occupied destination cell blocks the move.
    game.play_grid[19][5] = i_cell();
    assert!(!game.can_move(&piece, 18, 3));
    assert!(game.can_move(&piece, 17, 3));
}

#[test]
fn blocks_above_the_top_row_do_not_collide() {
    let mut game = Game::new(i_piece(false), i_piece(true), 0, 0, false);
    let piece = game.current_tetromino.clone();
    // The horizontal I's blocks sit in box row 1; with the box corner two
    // rows above the field they lie above row 0, which is permitted.
    assert!(game.can_move(&piece, -2, 3));
    assert!(game.can_move(&piece, -10, 3));
    // The side walls still apply to blocks above the top.
    assert!(!game.can_move(&piece, -2, -1));
    assert!(!game.can_move(&piece, -2, 7));
    // A vertical piece straddling the top edge is checked only where its
    // blocks are inside the field.
    let mut vertical = piece.clone();
    vertical.current_state = 1;
    assert!(game.can_move(&vertical, -2, 3));
    game.play_grid[0][5] = i_cell();
    assert!(!game.can_move(&vertical, -2, 3));
    assert!(game.can_move(&vertical, -4, 3));
}

#[test]
fn lock_copies_exactly_the_occupied_cells() {
    let mut game = Game::new(i_piece(false), i_piece(true), 0, 0, false);
    game.current_tetromino.position = Position { row: 18, col: 3 };
    game.lock_tetromino();
    for col in 3..7 {
        assert_eq!(game.play_grid[19][col], i_cell());
    }
    // Every cell outside the piece's blocks is untouched.
    for row in 0..PLAY_HEIGHT {
        for col in 0..PLAY_WIDTH {
            if !(row == 19 && (3..7).contains(&col)) {
                assert_eq!(game.play_grid[row][col], empty_cell());
            }
        }
    }
}

#[test]
fn clear_awards_scores_by_the_table() {
    for (rows, points) in [(1usize, 100usize), (2, 300), (3, 500), (4, 800)] {
        for level in [0usize, 2, 7] {
            let mut game = Game::new(i_piece(false), i_piece(true), 0, 0, false);
            game.level = level;
            for r in 0..rows {
                for c in 0..PLAY_WIDTH {
                    game.play_grid[PLAY_HEIGHT - 1 - r][c] = i_cell();
                }
            }
            let cleared = game.clear_filled_rows();
            assert_eq!(cleared, rows);
            assert_eq!(game.score, points * (level + 1));
            assert_eq!(game.lines, rows);
        }
    }
    // Clearing nothing awards nothing.
    let mut game = Game::new(i_piece(false), i_piece(true), 0, 0, false);
    game.play_grid[19][0] = i_cell();
    let cleared = game.clear_filled_rows();
    assert_eq!(cleared, 0);
    assert_eq!(game.score, 0);
    assert_eq!(game.lines, 0);
}

#[test]
fn clear_conserves_row_count_and_never_adds_cells() {
    let mut game = Game::new(i_piece(false), i_piece(true), 0, 0, false);
    // One filled row at the bottom, a partial row above it.
    for c in 0..PLAY_WIDTH {
        game.play_grid[19][c] = i_cell();
    }
    game.play_grid[18][0] = o_cell();
    game.play_grid[18][7] = o_cell();
    let before = occupied_count(&game);
    let cleared = game.clear_filled_rows();
    assert_eq!(cleared, 1);
    assert_eq!(game.play_grid.len(), PLAY_HEIGHT);
    for row in &game.play_grid {
        assert_eq!(row.len(), PLAY_WIDTH);
    }
    let after = occupied_count(&game);
    assert!(after <= before);
    assert_eq!(after, before - PLAY_WIDTH);
    // The partial row slid down to the bottom.
    assert_eq!(game.play_grid[19][0], o_cell());
    assert_eq!(game.play_grid[19][7], o_cell());
    assert_eq!(game.play_grid[19][1], empty_cell());
}

#[test]
fn level_and_interval_progress_monotonically() {
    let mut game = Game::new(i_piece(false), i_piece(true), 0, 0, false);
    assert_eq!(game.drop_interval, 500);
    let mut last_level = game.level;
    let mut last_interval = game.drop_interval;
    game.lines = 200;
    for _ in 0..12 {
        game.maybe_level_up();
        assert!(game.level >= last_level);
        assert!(game.drop_interval <= last_interval);
        last_level = game.level;
        last_interval = game.drop_interval;
    }
    // The first step from level 0 takes a tenth off 500.
    let mut fresh = Game::new(i_piece(false), i_piece(true), 0, 0, false);
    fresh.lines = 20;
    fresh.maybe_level_up();
    assert_eq!(fresh.level, 1);
    assert_eq!(fresh.drop_interval, 450);
    // Without enough lines nothing changes.
    let mut idle = Game::new(i_piece(false), i_piece(true), 0, 0, false);
    idle.lines = 19;
    idle.maybe_level_up();
    assert_eq!(idle.level, 0);
    assert_eq!(idle.drop_interval, 500);
}

#[test]
fn starting_level_pre_decays_the_interval() {
    let game = Game::new(i_piece(false), i_piece(true), 0, 1, false);
    assert_eq!(game.drop_interval, 450);
    let game = Game::new(i_piece(false), i_piece(true), 0, 2, false);
    assert_eq!(game.drop_interval, 405);
    assert_eq!(game.level, 2);
}

#[test]
fn handicap_rows_miss_exactly_one_cell() {
    let game = Game::new(i_piece(false), i_piece(true), 3, 0, false);
    assert_eq!(game.play_grid.len(), PLAY_HEIGHT);
    for row in 0..PLAY_HEIGHT - 3 {
        for col in 0..PLAY_WIDTH {
            assert_eq!(game.play_grid[row][col], empty_cell());
        }
    }
    for row in PLAY_HEIGHT - 3..PLAY_HEIGHT {
        let empties = game.play_grid[row]
            .iter()
            .filter(|cell| !cell.occupied)
            .count();
        assert_eq!(empties, 1);
    }
}

#[test]
fn clear_lines() {
    // Four I pieces: two horizontal at the edges of the bottom row, then
    // two vertical pieces filling the two middle columns; exactly one row
    // clears and the vertical pieces leave their residue above.
    let mut game = Game::new(i_piece(false), i_piece(true), 0, 0, false);

    // First piece to the left border, then hard drop.
    game.handle_input(GameInput::MoveLeft, i_piece(true));
    game.handle_input(GameInput::MoveLeft, i_piece(true));
    game.handle_input(GameInput::MoveLeft, i_piece(true));
    let cleared = game.handle_input(GameInput::HardDrop, i_piece(true));
    assert_eq!(cleared, 0);
    for col in 0..4 {
        assert_eq!(game.play_grid[19][col], i_cell());
    }

    // Second piece to the right border.
    game.handle_input(GameInput::MoveRight, i_piece(true));
    game.handle_input(GameInput::MoveRight, i_piece(true));
    game.handle_input(GameInput::MoveRight, i_piece(true));
    let cleared = game.handle_input(GameInput::HardDrop, i_piece(true));
    assert_eq!(cleared, 0);
    for col in 6..10 {
        assert_eq!(game.play_grid[19][col], i_cell());
    }

    // Third piece: rotate to vertical, one column left, drop.
    game.handle_input(GameInput::Rotate, i_piece(true));
    game.handle_input(GameInput::MoveLeft, i_piece(true));
    let cleared = game.handle_input(GameInput::HardDrop, i_piece(true));
    assert_eq!(cleared, 0);
    for row in 16..20 {
        assert_eq!(game.play_grid[row][4], i_cell());
    }

    // Fourth piece: rotate to vertical and drop; the bottom row fills and
    // clears.
    game.handle_input(GameInput::Rotate, i_piece(true));
    let cleared = game.handle_input(GameInput::HardDrop, i_piece(true));
    assert_eq!(cleared, 1);
    for col in 0..4 {
        assert_eq!(game.play_grid[19][col], empty_cell());
    }
    for col in 6..10 {
        assert_eq!(game.play_grid[19][col], empty_cell());
    }
    for row in 18..20 {
        for col in 4..6 {
            assert_eq!(game.play_grid[row][col], i_cell());
        }
    }
    assert_eq!(game.lines, 1);
    assert_eq!(game.score, 100);
}

#[test]
fn blocked_spawn_ends_the_round_on_the_next_tick() {
    let mut game = Game::new(o_piece(), o_piece(), 0, 0, false);
    // Occupy the top rows except the rightmost column, so no row is
    // filled but the spawn area is walled in.
    for row in 0..3 {
        for col in 0..PLAY_WIDTH - 1 {
            game.play_grid[row][col] = i_cell();
        }
    }
    assert_eq!(game.phase, Phase::Playing);
    let cleared = game.gravity_step(o_piece());
    assert_eq!(cleared, 0);
    // The freshly spawned piece is blocked left, right, down and in its
    // rotated form, so the session is over at once.
    assert_eq!(game.phase, Phase::GameOver);
}

#[test]
fn garbage_rows_replace_the_top_of_the_field() {
    let mut game = Game::new(i_piece(false), i_piece(true), 0, 0, false);
    // Mark the top rows and a middle row so the shift is visible.
    game.play_grid[0][0] = i_cell();
    game.play_grid[1][1] = i_cell();
    game.play_grid[2][2] = o_cell();
    let old_row2 = game.play_grid[2].clone();
    game.apply_cleared_rows(2);
    assert_eq!(game.play_grid.len(), PLAY_HEIGHT);
    // The top two rows are gone: what was row 2 is now row 0.
    assert_eq!(game.play_grid[0], old_row2);
    // Two new rows sit at the bottom, each fully occupied except exactly
    // one cell.
    for row in PLAY_HEIGHT - 2..PLAY_HEIGHT {
        let empties = game.play_grid[row]
            .iter()
            .filter(|cell| !cell.occupied)
            .count();
        assert_eq!(empties, 1);
    }
}

#[test]
fn pause_and_quit_follow_the_menu_choices() {
    let mut game = Game::new(i_piece(false), i_piece(true), 0, 0, false);
    game.handle_input(GameInput::TogglePause, i_piece(true));
    assert_eq!(game.phase, Phase::Paused);
    game.pause_choice(false);
    assert_eq!(game.phase, Phase::Playing);
    game.handle_input(GameInput::Quit, i_piece(true));
    assert_eq!(game.phase, Phase::QuitConfirm);
    game.quit_confirm_choice(false);
    assert_eq!(game.phase, Phase::Playing);
    game.handle_input(GameInput::Quit, i_piece(true));
    game.quit_confirm_choice(true);
    assert_eq!(game.phase, Phase::Terminated);
}

#[test]
fn notification_interrupts_play_and_counts_a_win() {
    let mut game = Game::new(i_piece(false), i_piece(true), 0, 0, true);
    game.apply_notification();
    assert_eq!(game.phase, Phase::Notified);
    assert_eq!(game.multiplayer_score.my_score, 1);
    assert_eq!(game.multiplayer_score.competitor_score, 0);
    game.notified_choice(
        tetris_tui::game::MenuChoice::Restart,
        i_piece(false),
        i_piece(true),
    );
    assert_eq!(game.phase, Phase::Playing);
    assert_eq!(game.score, 0);
    assert_eq!(game.lines, 0);
    // The tally survives the restart.
    assert_eq!(game.multiplayer_score.my_score, 1);
}

#[test]
fn reset_restores_a_fresh_round() {
    let mut game = Game::new(i_piece(false), i_piece(true), 2, 3, false);
    game.score = 1234;
    game.lines = 55;
    game.level = 7;
    game.reset(i_piece(false), i_piece(true));
    assert_eq!(game.score, 0);
    assert_eq!(game.lines, 0);
    assert_eq!(game.level, 3);
    assert_eq!(game.phase, Phase::Playing);
    // The handicap comes back with the new grid.
    for row in PLAY_HEIGHT - 2..PLAY_HEIGHT {
        let empties = game.play_grid[row]
            .iter()
            .filter(|cell| !cell.occupied)
            .count();
        assert_eq!(empties, 1);
    }
}

#[test]
fn soft_drop_moves_down_one_row() {
    let mut game = Game::new(i_piece(false), i_piece(true), 0, 0, false);
    let row = game.current_tetromino.position.row;
    game.handle_input(GameInput::SoftDrop, i_piece(true));
    assert_eq!(game.current_tetromino.position.row, row + 1);
    game.maybe_level_up();
    let cleared = game.gravity_step(i_piece(true));
    assert_eq!(cleared, 0);
    assert_eq!(game.current_tetromino.position.row, row + 2);
}

#[test]
fn level_stops_rising_past_the_cap() {
    let mut game = Game::new(i_piece(false), i_piece(true), 0, 0, false);
    game.lines = usize::MAX - PLAY_HEIGHT;
    for _ in 0..40 {
        game.maybe_level_up();
    }
    // The level passes the cap by exactly one step and then freezes.
    assert_eq!(game.level, 21);
    let interval = game.drop_interval;
    game.maybe_level_up();
    assert_eq!(game.level, 21);
    assert_eq!(game.drop_interval, interval);
}

#[test]
fn the_largest_handicap_fills_the_whole_field() {
    let game = Game::new(i_piece(false), i_piece(true), 10, 20, false);
    assert_eq!(game.level, 20);
    for row in PLAY_HEIGHT - 10..PLAY_HEIGHT {
        let empties = game.play_grid[row]
            .iter()
            .filter(|cell| !cell.occupied)
            .count();
        assert_eq!(empties, 1);
    }
    for row in 0..PLAY_HEIGHT - 10 {
        for col in 0..PLAY_WIDTH {
            assert_eq!(game.play_grid[row][col], empty_cell());
        }
    }
}
