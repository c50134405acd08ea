use tetris_bane::block::{canonical_block, Color, Label, Position};
use tetris_bane::board::{is_occupied, paint_positions};
use tetris_bane::game::{
    apply_input, has_block_finished_falling, initialise_game, initialise_world, land_block,
    move_block, rotate_block, update, Input, Mode, State, DEFAULT_FALL_RATE, FAST_FALL_RATE,
    GAME_OVER_PAUSE,
};

fn grey() -> Color {
    Color { r: 100, g: 100, b: 100 }
}

fn classic_mode() -> Mode {
    Mode::Classic { label: String::from("Classic") }
}

fn bane_mode() -> Mode {
    Mode::Bane { label: String::from("Bane") }
}

fn row_cells(y: i32, xs: std::ops::Range<i32>) -> Vec<Position> {
    xs.map(|x| Position { x, y }).collect()
}

#[test]
fn fresh_games_have_their_modes_dimensions() {
    let classic = initialise_game(&classic_mode());
    assert_eq!(classic.board.len(), 21);
    assert_eq!(classic.board[0].len(), 10);
    assert_eq!(classic.score, 0);
    assert_eq!(classic.block_orientation, 0);
    assert_eq!(classic.fall_rate_millis, DEFAULT_FALL_RATE);

    let bane = initialise_game(&bane_mode());
    assert_eq!(bane.board.len(), 25);
    assert_eq!(bane.board[0].len(), 18);
}

#[test]
fn a_fresh_world_starts_in_the_menu() {
    let world = initialise_world();
    assert_eq!(world.state, State::Menu);
    assert_eq!(world.menu.items.len(), 5);
    assert!(world.music_file.is_empty());
}

#[test]
fn a_move_into_the_wall_leaves_every_cell_in_place() {
    let game = initialise_game(&classic_mode());
    let mut block = canonical_block(&Label::I, 0);
    // flush against the left wall: cells at x 0..=3
    let left = move_block(&block, &game.board, Position { x: -1, y: 0 });
    assert_eq!(left, block.positions);
    // one step right is free
    let right = move_block(&block, &game.board, Position { x: 1, y: 0 });
    assert_eq!(right, row_cells(0, 1..5));
    block.positions = right;
    let back = move_block(&block, &game.board, Position { x: -1, y: 0 });
    assert_eq!(back, row_cells(0, 0..4));
}

#[test]
fn a_move_into_a_landed_piece_is_refused_whole() {
    let game = initialise_game(&classic_mode());
    let board = paint_positions(&game.board, &vec![Position { x: 4, y: 0 }], grey());
    let block = canonical_block(&Label::I, 0);
    // cells at x 0..=3; x 4 is occupied, so the move must not happen
    let moved = move_block(&block, &board, Position { x: 1, y: 0 });
    assert_eq!(moved, block.positions);
}

#[test]
fn a_blocked_rotation_keeps_cells_and_orientation() {
    let game = initialise_game(&classic_mode());
    let block = canonical_block(&Label::T, 0);
    // on the top row the T's rotation would leave the board upward
    let (cells, orientation) = rotate_block(&block, &game.board, 0);
    assert_eq!(cells, block.positions);
    assert_eq!(orientation, 0);
}

#[test]
fn an_open_rotation_advances_the_orientation() {
    let game = initialise_game(&classic_mode());
    let mut block = canonical_block(&Label::T, 3);
    for p in block.positions.iter_mut() {
        p.y += 5;
    }
    let (cells, orientation) = rotate_block(&block, &game.board, 0);
    assert_ne!(cells, block.positions);
    assert_eq!(orientation, 1);
}

#[test]
fn a_piece_is_finished_on_the_bottom_row_or_on_a_stack() {
    let game = initialise_game(&classic_mode());
    let mut block = canonical_block(&Label::I, 3);
    assert!(!has_block_finished_falling(&game.board, &block));

    for p in block.positions.iter_mut() {
        p.y = 20;
    }
    assert!(has_block_finished_falling(&game.board, &block));

    let mut resting = canonical_block(&Label::I, 3);
    for p in resting.positions.iter_mut() {
        p.y = 9;
    }
    let stacked = paint_positions(&game.board, &vec![Position { x: 5, y: 10 }], grey());
    assert!(has_block_finished_falling(&stacked, &resting));
}

#[test]
fn a_colliding_spawn_ends_the_session_and_shows_the_overflow() {
    let mut world = initialise_world();
    world.state = State::Play;
    // fill the spawn window so any fresh classic piece collides,
    // leaving the last column open so no row is full
    let mut blocked = Vec::new();
    for y in 0..3 {
        blocked.extend(row_cells(y, 0..9));
    }
    world.game.board = paint_positions(&world.game.board, &blocked, grey());
    // the current piece rests on the bottom row
    world.game.block = canonical_block(&Label::O, 3);
    for p in world.game.block.positions.iter_mut() {
        p.y += 19;
    }
    let spawned = canonical_block(&Label::I, 3);
    let spawned_color = spawned.color;
    land_block(&mut world, spawned);
    assert_eq!(world.state, State::GameOver);
    assert_eq!(world.game.fall_rate_millis, GAME_OVER_PAUSE);
    assert_eq!(world.menu.item_selected, 0);
    // the colliding piece was painted once so the loss is visible
    assert_eq!(world.game.board[0][3], Some(spawned_color));
    assert_eq!(world.game.board[0][6], Some(spawned_color));
}

#[test]
fn landing_without_a_clear_keeps_the_score_at_zero() {
    let mut world = initialise_world();
    world.state = State::Play;
    world.game.block = canonical_block(&Label::O, 3);
    for p in world.game.block.positions.iter_mut() {
        p.y += 19;
    }
    land_block(&mut world, canonical_block(&Label::T, 3));
    assert_eq!(world.game.score, 0);
    assert_eq!(world.state, State::Play);
    // the landed piece is on the board for good
    assert!(is_occupied(&world.game.board, Position { x: 3, y: 20 }));
    // the fresh piece was adopted with a reset orientation and rate
    assert_eq!(world.game.block_orientation, 0);
    assert_eq!(world.game.fall_rate_millis, DEFAULT_FALL_RATE);
    assert_eq!(world.game.block.label, Label::T);
}

#[test]
fn completing_a_row_clears_it_and_scores_one_point() {
    let mut world = initialise_world();
    world.state = State::Play;
    // bottom row full except columns 3..=6
    let mut filled = row_cells(20, 0..3);
    filled.extend(row_cells(20, 7..10));
    world.game.board = paint_positions(&world.game.board, &filled, grey());
    // an I piece rests exactly in the gap
    world.game.block = canonical_block(&Label::I, 3);
    for p in world.game.block.positions.iter_mut() {
        p.y = 20;
    }
    land_block(&mut world, canonical_block(&Label::T, 3));
    assert_eq!(world.game.score, 1);
    // the completed row is gone; the bottom row is empty again
    for x in 0..10 {
        assert!(!is_occupied(&world.game.board, Position { x, y: 20 }));
    }
    assert_eq!(world.state, State::Play);
}

#[test]
fn soft_drop_keys_set_and_restore_the_fall_rate() {
    let mut world = initialise_world();
    world.state = State::Play;
    apply_input(&Some(Input::DownKeyDown), &mut world);
    assert_eq!(world.game.fall_rate_millis, FAST_FALL_RATE);
    apply_input(&Some(Input::DownKeyUp), &mut world);
    assert_eq!(world.game.fall_rate_millis, DEFAULT_FALL_RATE);
}

#[test]
fn escape_suspends_the_session_with_the_paused_menu() {
    let mut world = initialise_world();
    world.state = State::Play;
    apply_input(&Some(Input::EscKeyDown), &mut world);
    assert_eq!(world.state, State::Paused);
    assert_eq!(world.menu.item_selected, 0);
    assert_eq!(world.menu.title, "Paused");
    match &world.menu.items[0] {
        tetris_bane::menu::Item::Resume { label } => {
            assert_eq!(label, "Resume                ")
        },
        _ => panic!("the paused menu must lead with Resume"),
    }
}

#[test]
fn an_i_piece_moves_left_once_then_falls_to_the_bottom() {
    let mut world = initialise_world();
    world.state = State::Play;
    world.game = initialise_game(&classic_mode());
    world.game.block = canonical_block(&Label::I, 3);

    update(&Some(Input::LeftKeyDown), &mut world);
    assert_eq!(
        world.game.block.positions[..4].to_vec(),
        row_cells(0, 2..6),
        "one step left from the spawn column"
    );

    // hold the soft drop and let the clock tick the piece down
    update(&Some(Input::DownKeyDown), &mut world);
    let mut guard: u64 = 0;
    while !is_occupied(&world.game.board, Position { x: 2, y: 20 }) {
        update(&None, &mut world);
        guard += 1;
        assert!(guard < 50_000_000, "the piece never landed");
    }
    // the piece was painted onto the bottom row where it fell
    for x in 2..6 {
        assert!(is_occupied(&world.game.board, Position { x, y: 20 }));
    }
    // and a fresh piece took its place near the top
    assert!(world.game.block.positions.iter().all(|p| p.y <= 2));
    assert_eq!(world.game.score, 0);
    assert_eq!(world.state, State::Play);
}

#[test]
fn a_lost_session_returns_to_the_menu_after_the_pause() {
    let mut world = initialise_world();
    world.state = State::Play;
    let mut blocked = Vec::new();
    for y in 0..3 {
        blocked.extend(row_cells(y, 0..9));
    }
    world.game.board = paint_positions(&world.game.board, &blocked, grey());
    world.game.block = canonical_block(&Label::O, 3);
    for p in world.game.block.positions.iter_mut() {
        p.y += 19;
    }
    land_block(&mut world, canonical_block(&Label::I, 3));
    assert_eq!(world.state, State::GameOver);
    let mut guard: u64 = 0;
    while world.state != State::Menu {
        update(&None, &mut world);
        guard += 1;
        assert!(guard < 50_000_000, "the session never returned to the menu");
    }
}
