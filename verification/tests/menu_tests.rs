use tetris_bane::game::{initialise_world, Input, Mode, State};
use tetris_bane::menu::{
    change_index_wrapped, initialise, mode_label, music_label, paused_menu_items, update,
    volume_label, Item,
};
use tetris_bane::sound::music_path;

fn label_of(item: &Item) -> &String {
    match item {
        Item::Play { label } => label,
        Item::Mode { label } => label,
        Item::Quit { label } => label,
        Item::Resume { label } => label,
        Item::EndGame { label } => label,
        Item::Music { label } => label,
        Item::MusicVolume { label } => label,
    }
}

#[test]
fn a_fresh_menu_shows_the_main_entries() {
    let menu = initialise();
    assert_eq!(menu.title, "Tetris Bane");
    assert_eq!(menu.items.len(), 5);
    assert_eq!(menu.item_selected, 0);
    assert_eq!(menu.mode_selected, 0);
    assert!(menu.music_toggle);
    assert_eq!(menu.music_volume, 70);
    assert_eq!(label_of(&menu.items[0]), "Play                  ");
    assert_eq!(label_of(&menu.items[1]), "Mode:          Classic");
    assert_eq!(label_of(&menu.items[2]), "Music:              On");
    assert_eq!(label_of(&menu.items[3]), "Volume: |.......     |");
    assert_eq!(label_of(&menu.items[4]), "Quit                  ");
}

#[test]
fn labels_are_padded_to_a_fixed_width() {
    assert_eq!(mode_label(&Mode::Chill { label: String::from("Chill") }), "Mode:            Chill");
    assert_eq!(music_label(true), "Music:              On");
    assert_eq!(music_label(false), "Music:             Off");
    assert_eq!(volume_label(0), "Volume: |            |");
    assert_eq!(volume_label(70), "Volume: |.......     |");
    assert_eq!(volume_label(128), "Volume: |............|");
}

#[test]
fn the_paused_entries_lead_with_resume_and_end_game() {
    let items = paused_menu_items(true, 70);
    assert_eq!(label_of(&items[0]), "Resume                ");
    assert_eq!(label_of(&items[1]), "End Game              ");
    assert_eq!(label_of(&items[4]), "Quit                  ");
}

#[test]
fn index_changes_wrap_at_both_ends() {
    assert_eq!(change_index_wrapped(0, -1, 5), 4);
    assert_eq!(change_index_wrapped(4, 1, 5), 0);
    assert_eq!(change_index_wrapped(2, 1, 5), 3);
    assert_eq!(change_index_wrapped(2, -1, 5), 1);
}

#[test]
fn navigation_moves_the_highlight_and_wraps() {
    let mut world = initialise_world();
    update(&Some(Input::UpKeyDown), &mut world);
    assert_eq!(world.menu.item_selected, 4);
    update(&Some(Input::DownKeyDown), &mut world);
    assert_eq!(world.menu.item_selected, 0);
    update(&Some(Input::DownKeyDown), &mut world);
    assert_eq!(world.menu.item_selected, 1);
}

#[test]
fn confirming_play_starts_a_session_with_its_music() {
    let mut world = initialise_world();
    update(&Some(Input::ReturnKeyDown), &mut world);
    assert_eq!(world.state, State::Play);
    assert_eq!(world.music_file, "assets/music/midnight-tale-by-kevin-macleod.ogg");
    assert_eq!(world.game.board.len(), 21);
    assert_eq!(world.game.board[0].len(), 10);
    assert_eq!(world.game.score, 0);
}

#[test]
fn cycling_the_mode_relabels_its_entry_and_wraps() {
    let mut world = initialise_world();
    world.menu.item_selected = 1;
    update(&Some(Input::RightKeyDown), &mut world);
    assert_eq!(world.menu.mode_selected, 1);
    assert_eq!(label_of(&world.menu.items[1]), "Mode:            Chill");
    update(&Some(Input::RightKeyDown), &mut world);
    assert_eq!(world.menu.mode_selected, 2);
    assert_eq!(label_of(&world.menu.items[1]), "Mode:             Bane");
    update(&Some(Input::RightKeyDown), &mut world);
    assert_eq!(world.menu.mode_selected, 0);
    assert_eq!(label_of(&world.menu.items[1]), "Mode:          Classic");
    update(&Some(Input::LeftKeyDown), &mut world);
    assert_eq!(world.menu.mode_selected, 2);
}

#[test]
fn a_bane_session_plays_on_the_larger_board() {
    let mut world = initialise_world();
    world.menu.item_selected = 1;
    update(&Some(Input::LeftKeyDown), &mut world);
    assert_eq!(world.menu.mode_selected, 2);
    world.menu.item_selected = 0;
    update(&Some(Input::ReturnKeyDown), &mut world);
    assert_eq!(world.state, State::Play);
    assert_eq!(world.game.board.len(), 25);
    assert_eq!(world.game.board[0].len(), 18);
    assert_eq!(world.music_file, "assets/music/Kevin_MacLeod_-_Ghost_Dance.ogg");
}

#[test]
fn the_volume_steps_by_ten_and_clamps_at_both_ends() {
    let mut world = initialise_world();
    world.menu.item_selected = 3;
    for _ in 0..8 {
        update(&Some(Input::LeftKeyDown), &mut world);
    }
    assert_eq!(world.menu.music_volume, 0);
    update(&Some(Input::LeftKeyDown), &mut world);
    assert_eq!(world.menu.music_volume, 0);
    assert_eq!(label_of(&world.menu.items[3]), "Volume: |            |");
    for _ in 0..13 {
        update(&Some(Input::RightKeyDown), &mut world);
    }
    assert_eq!(world.menu.music_volume, 128);
    assert_eq!(label_of(&world.menu.items[3]), "Volume: |............|");
}

#[test]
fn the_music_toggle_flips_and_relabels() {
    let mut world = initialise_world();
    world.menu.item_selected = 2;
    update(&Some(Input::ReturnKeyDown), &mut world);
    assert!(!world.menu.music_toggle);
    assert_eq!(label_of(&world.menu.items[2]), "Music:             Off");
    update(&Some(Input::LeftKeyDown), &mut world);
    assert!(world.menu.music_toggle);
    assert_eq!(label_of(&world.menu.items[2]), "Music:              On");
}

#[test]
fn escape_quits_from_the_menu_and_resumes_from_pause() {
    let mut world = initialise_world();
    update(&Some(Input::EscKeyDown), &mut world);
    assert_eq!(world.state, State::Quit);

    let mut paused = initialise_world();
    paused.state = State::Play;
    tetris_bane::game::apply_input(&Some(Input::EscKeyDown), &mut paused);
    assert_eq!(paused.state, State::Paused);
    update(&Some(Input::EscKeyDown), &mut paused);
    assert_eq!(paused.state, State::Play);
}

#[test]
fn resume_and_end_game_leave_the_paused_screen() {
    let mut world = initialise_world();
    world.state = State::Play;
    tetris_bane::game::apply_input(&Some(Input::EscKeyDown), &mut world);
    assert_eq!(world.state, State::Paused);
    update(&Some(Input::ReturnKeyDown), &mut world);
    assert_eq!(world.state, State::Play);
    assert_eq!(world.menu.title, "Tetris Bane");

    tetris_bane::game::apply_input(&Some(Input::EscKeyDown), &mut world);
    world.menu.item_selected = 1;
    update(&Some(Input::ReturnKeyDown), &mut world);
    assert_eq!(world.state, State::Menu);
    assert_eq!(world.menu.item_selected, 0);
    assert_eq!(label_of(&world.menu.items[0]), "Play                  ");
}

#[test]
fn each_mode_names_its_music_track() {
    assert_eq!(
        music_path(&Mode::Classic { label: String::from("Classic") }),
        "assets/music/midnight-tale-by-kevin-macleod.ogg"
    );
    assert_eq!(
        music_path(&Mode::Chill { label: String::from("Chill") }),
        "assets/music/a-very-brady-special-by-kevin-macleod.ogg"
    );
    assert_eq!(
        music_path(&Mode::Bane { label: String::from("Bane") }),
        "assets/music/Kevin_MacLeod_-_Ghost_Dance.ogg"
    );
}
