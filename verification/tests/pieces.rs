use tetris_tui::cell::{empty_cell, i_cell, o_cell, Cell};
use tetris_tui::game::{Game, GameInput};
use tetris_tui::shapes::tetromino_width;
use tetris_tui::tetromino::{Position, RandomTetromino, Tetromino, TetrominoSpawner};
use tetris_tui::{NEXT_WIDTH, PLAY_WIDTH};

fn horizontal_i_state() -> Vec<Vec<Cell>> {
    let e = empty_cell();
    let i = i_cell();
    vec![
        vec![e, e, e, e],
        vec![i, i, i, i],
        vec![e, e, e, e],
        vec![e, e, e, e],
    ]
}

fn vertical_i_state() -> Vec<Vec<Cell>> {
    let e = empty_cell();
    let i = i_cell();
    vec![
        vec![e, e, i, e],
        vec![e, e, i, e],
        vec![e, e, i, e],
        vec![e, e, i, e],
    ]
}

fn test_piece() -> Tetromino {
    Tetromino {
        states: vec![horizontal_i_state(), vertical_i_state()],
        current_state: 0,
        position: Position { row: 0, col: 3 },
    }
}

#[test]
fn tetromino_width_counts_occupied_columns() {
    assert_eq!(tetromino_width(&horizontal_i_state()), 4);
    assert_eq!(tetromino_width(&vertical_i_state()), 1);
    let o = o_cell();
    assert_eq!(tetromino_width(&vec![vec![o, o], vec![o, o]]), 2);
    let e = empty_cell();
    assert_eq!(tetromino_width(&vec![vec![e, e], vec![e, e]]), 0);
}

#[test]
fn random_spawn_centres_the_piece() {
    let spawner = RandomTetromino;
    for _ in 0..50 {
        let piece = spawner.spawn(false);
        assert_eq!(piece.current_state, 0);
        assert_eq!(piece.position.row, 0);
        assert!(!piece.states.is_empty());
        let width = tetromino_width(&piece.states[0]);
        assert_eq!(piece.position.col, ((PLAY_WIDTH - width) / 2) as isize);
    }
    for _ in 0..50 {
        let piece = spawner.spawn(true);
        assert_eq!(piece.position.row, 2);
        let width = tetromino_width(&piece.states[0]);
        assert_eq!(piece.position.col, ((NEXT_WIDTH - width) / 2) as isize);
    }
}

#[test]
fn random_spawn_draws_from_the_catalog() {
    let spawner = RandomTetromino;
    for _ in 0..50 {
        let piece = spawner.spawn(false);
        // Every catalog entry has one state (O) or four, square grids of
        // side two to four, and exactly four blocks of a single colour.
        assert!(piece.states.len() == 1 || piece.states.len() == 4);
        for state in &piece.states {
            let side = state.len();
            assert!((2..=4).contains(&side));
            let mut blocks = 0;
            let mut color = None;
            for row in state {
                assert_eq!(row.len(), side);
                for cell in row {
                    if cell.occupied {
                        blocks += 1;
                        match color {
                            None => color = Some(cell.color),
                            Some(c) => assert_eq!(cell.color, c),
                        }
                    }
                }
            }
            assert_eq!(blocks, 4);
        }
    }
}

#[test]
fn moves_commit_only_when_legal() {
    let mut game = Game::new(test_piece(), test_piece(), 0, 0, false);
    game.move_left();
    assert_eq!(game.current_tetromino.position.col, 2);
    game.move_right();
    assert_eq!(game.current_tetromino.position.col, 3);
    game.move_down();
    assert_eq!(game.current_tetromino.position.row, 1);
    // Against the left wall the move is refused.
    for _ in 0..10 {
        game.move_left();
    }
    assert_eq!(game.current_tetromino.position.col, 0);
    game.move_left();
    assert_eq!(game.current_tetromino.position.col, 0);
}

#[test]
fn get_cells_shows_the_current_state() {
    let mut piece = test_piece();
    assert_eq!(*piece.get_cells(), horizontal_i_state());
    piece.current_state = 1;
    assert_eq!(*piece.get_cells(), vertical_i_state());
}

#[test]
fn rotation_cycles_back_to_the_start() {
    // In an open field every rotation fits, and one full cycle restores
    // the original state index without moving the piece.
    let mut game = Game::new(test_piece(), test_piece(), 0, 0, false);
    game.move_down();
    game.move_down();
    let start_state = game.current_tetromino.current_state;
    let start_pos = game.current_tetromino.position;
    let states = game.current_tetromino.states.len();
    for step in 1..=states {
        game.rotate();
        if step < states {
            assert_ne!(game.current_tetromino.current_state, start_state);
        }
        assert_eq!(game.current_tetromino.position, start_pos);
    }
    assert_eq!(game.current_tetromino.current_state, start_state);
}

#[test]
fn blocked_rotation_is_rejected_in_place() {
    let mut game = Game::new(test_piece(), test_piece(), 0, 0, false);
    // The vertical state needs box column 2 free over four rows; block it.
    game.play_grid[3][5] = i_cell();
    let before = game.current_tetromino.current_state;
    game.rotate();
    assert_eq!(game.current_tetromino.current_state, before);
    assert_eq!(game.current_tetromino.position, Position { row: 0, col: 3 });
}

#[test]
fn hard_drop_falls_to_the_lowest_legal_row() {
    let mut game = Game::new(test_piece(), test_piece(), 0, 0, false);
    game.hard_drop();
    // The blocks sit in box row 1, so the box corner stops at row 18.
    assert_eq!(game.current_tetromino.position.row, 18);
    assert_eq!(game.current_tetromino.position.col, 3);
    // With an obstacle the piece stops on top of it.
    let mut game = Game::new(test_piece(), test_piece(), 0, 0, false);
    game.play_grid[19][4] = i_cell();
    game.hard_drop();
    assert_eq!(game.current_tetromino.position.row, 17);
}

#[test]
fn advancing_recentres_the_next_piece() {
    let mut game = Game::new(test_piece(), test_piece(), 0, 0, false);
    let cleared = game.handle_input(GameInput::HardDrop, test_piece());
    assert_eq!(cleared, 0);
    // The preview piece became current, recentred at the top.
    assert_eq!(game.current_tetromino.position.row, 0);
    assert_eq!(game.current_tetromino.position.col, 3);
}
