//! The menu: its items with their padded labels, navigation, and the
//! settings it owns (mode selection, music toggle, music volume).

use vstd::prelude::*;
use vstd::pervasive::VecAdditionalExecFns;

use crate::game;
use crate::game::Mode;
use crate::game::World;
use crate::sound;

verus! {

/// A selectable menu entry, carrying the text it is drawn with.
pub enum Item {
    Play { label: String },
    Mode { label: String },
    Quit { label: String },
    Resume { label: String },
    EndGame { label: String },
    Music { label: String },
    MusicVolume { label: String },
}

/// The menu state: its entries, the highlighted index, the title line,
/// the music settings, and the mode selection.
pub struct Menu {
    pub items: Vec<Item>,
    pub item_selected: usize,
    pub title: String,
    pub music_toggle: bool,
    pub music_volume: i32,
    pub modes: Vec<Mode>,
    pub mode_selected: usize,
}

/// The text of a mode's label field.
pub open spec fn mode_text(mode: Mode) -> Seq<char> {
    match mode {
        Mode::Classic { label } => label@,
        Mode::Chill { label } => label@,
        Mode::Bane { label } => label@,
    }
}

/// A mode label that the fixed-width menu line can carry.
pub open spec fn mode_label_fits(mode: Mode) -> bool {
    mode_text(mode).len() <= 17
}

/// `n` repetitions of one character.
pub open spec fn const_chars(n: nat, c: char) -> Seq<char> {
    Seq::new(n, |i: int| c)
}

/// The mode entry's text: the prefix, padding to a fixed width, then
/// the mode's name, right-aligned.
pub open spec fn spec_mode_label(mode: Mode) -> Seq<char> {
    "Mode:"@ + const_chars((17 - mode_text(mode).len()) as nat, ' ') + mode_text(mode)
}

/// The music toggle entry's text.
pub open spec fn spec_music_label(toggle: bool) -> Seq<char> {
    if toggle {
        "Music:              On"@
    } else {
        "Music:             Off"@
    }
}

/// The volume entry's text: one dot for each full ten of volume,
/// padded to a twelve-place gauge.
pub open spec fn spec_volume_label(volume: int) -> Seq<char> {
    "Volume: |"@ + const_chars((volume / 10) as nat, '.') + const_chars(
        (12 - volume / 10) as nat,
        ' ',
    ) + "|"@
}

/// The main menu: Play, the mode selector, the music entries, Quit.
pub open spec fn is_main_menu_items(
    items: Seq<Item>,
    mode: Mode,
    toggle: bool,
    volume: int,
) -> bool {
    &&& items.len() == 5
    &&& items[0] matches Item::Play { label } && label@ == "Play                  "@
    &&& items[1] matches Item::Mode { label } && label@ == spec_mode_label(mode)
    &&& items[2] matches Item::Music { label } && label@ == spec_music_label(toggle)
    &&& items[3] matches Item::MusicVolume { label } && label@ == spec_volume_label(volume)
    &&& items[4] matches Item::Quit { label } && label@ == "Quit                  "@
}

/// The paused menu: Resume, End Game, the music entries, Quit.
pub open spec fn is_paused_menu_items(items: Seq<Item>, toggle: bool, volume: int) -> bool {
    &&& items.len() == 5
    &&& items[0] matches Item::Resume { label } && label@ == "Resume                "@
    &&& items[1] matches Item::EndGame { label } && label@ == "End Game              "@
    &&& items[2] matches Item::Music { label } && label@ == spec_music_label(toggle)
    &&& items[3] matches Item::MusicVolume { label } && label@ == spec_volume_label(volume)
    &&& items[4] matches Item::Quit { label } && label@ == "Quit                  "@
}

/// No entry that only the paused menu offers.
pub open spec fn main_shape(items: Seq<Item>) -> bool {
    forall|i: int| 0 <= i < items.len() ==> !((#[trigger] items[i]) is Resume || items[i]
        is EndGame)
}

/// No entry that only the main menu offers; in particular no mode
/// selector, so the mode cannot change while a session is suspended.
pub open spec fn paused_shape(items: Seq<Item>) -> bool {
    forall|i: int| 0 <= i < items.len() ==> !((#[trigger] items[i]) is Mode || items[i] is Play)
}

/// A well-formed menu: a selected entry and a selected mode that
/// exist, a volume within the mixer's range, and mode labels that the
/// fixed-width lines can carry.
pub open spec fn menu_wf(m: Menu) -> bool {
    &&& 1 <= m.items@.len() <= 100
    &&& m.item_selected < m.items@.len()
    &&& m.modes@.len() >= 1
    &&& m.modes@.len() <= 1000
    &&& m.mode_selected < m.modes@.len()
    &&& 0 <= m.music_volume <= 128
    &&& forall|k: int| 0 <= k < m.modes@.len() ==> mode_label_fits(#[trigger] m.modes@[k])
}

/// Append `n` copies of a one-character string.
fn append_run(s: &mut String, piece: &str, n: usize)
    requires
        piece@.len() == 1,
    ensures
        final(s)@ == old(s)@ + const_chars(n as nat, piece@[0]),
{
    let mut k: usize = 0;
    while k < n
        invariant
            k <= n,
            piece@.len() == 1,
            s@ =~= old(s)@ + const_chars(k as nat, piece@[0]),
        decreases n - k,
    {
        s.append(piece);
        k += 1;
    }
    proof {
        assert(s@ =~= old(s)@ + const_chars(n as nat, piece@[0]));
    }
}

/// The text for the mode entry.
pub fn mode_label(mode: &Mode) -> (s: String)
    requires
        mode_label_fits(*mode),
    ensures
        s@ == spec_mode_label(*mode),
{
    let text: &String = match mode {
        Mode::Classic { label } => label,
        Mode::Chill { label } => label,
        Mode::Bane { label } => label,
    };
    let text_len = text.as_str().unicode_len();
    let mut s = String::from_str("Mode:");
    proof {
        reveal_strlit(" ");
    }
    append_run(&mut s, " ", 17 - text_len);
    s.append(text.as_str());
    proof {
        assert(s@ =~= spec_mode_label(*mode));
    }
    s
}

/// The text for the music toggle entry.
pub fn music_label(toggle: bool) -> (s: String)
    ensures
        s@ == spec_music_label(toggle),
{
    if toggle {
        String::from_str("Music:              On")
    } else {
        String::from_str("Music:             Off")
    }
}

/// The text for the volume entry.
pub fn volume_label(volume: i32) -> (s: String)
    requires
        0 <= volume <= 128,
    ensures
        s@ == spec_volume_label(volume as int),
{
    let n_dots: usize = (volume / 10) as usize;
    let n_spaces: usize = 12 - n_dots;
    let mut s = String::from_str("Volume: |");
    proof {
        reveal_strlit(".");
        reveal_strlit(" ");
        reveal_strlit("|");
    }
    append_run(&mut s, ".", n_dots);
    append_run(&mut s, " ", n_spaces);
    s.append("|");
    proof {
        assert(s@ =~= spec_volume_label(volume as int));
    }
    s
}

/// The mode entry for the currently selected mode.
pub fn build_mode_item(modes: &Vec<Mode>, selected: usize) -> (item: Item)
    requires
        selected < modes@.len(),
        mode_label_fits(modes@[selected as int]),
    ensures
        item matches Item::Mode { label } && label@ == spec_mode_label(modes@[selected as int]),
{
    Item::Mode { label: mode_label(&modes[selected]) }
}

/// The main menu's entries for the given settings.
pub fn menu_items(
    modes: &Vec<Mode>,
    selected: usize,
    music_toggle: bool,
    music_volume: i32,
) -> (items: Vec<Item>)
    requires
        selected < modes@.len(),
        mode_label_fits(modes@[selected as int]),
        0 <= music_volume <= 128,
    ensures
        is_main_menu_items(items@, modes@[selected as int], music_toggle, music_volume as int),
        main_shape(items@),
{
    let mut items: Vec<Item> = Vec::new();
    items.push(Item::Play { label: String::from_str("Play                  ") });
    items.push(build_mode_item(modes, selected));
    items.push(Item::Music { label: music_label(music_toggle) });
    items.push(Item::MusicVolume { label: volume_label(music_volume) });
    items.push(Item::Quit { label: String::from_str("Quit                  ") });
    items
}

/// The paused menu's entries for the given settings.
pub fn paused_menu_items(music_toggle: bool, music_volume: i32) -> (items: Vec<Item>)
    requires
        0 <= music_volume <= 128,
    ensures
        is_paused_menu_items(items@, music_toggle, music_volume as int),
        paused_shape(items@),
{
    let mut items: Vec<Item> = Vec::new();
    items.push(Item::Resume { label: String::from_str("Resume                ") });
    items.push(Item::EndGame { label: String::from_str("End Game              ") });
    items.push(Item::Music { label: music_label(music_toggle) });
    items.push(Item::MusicVolume { label: volume_label(music_volume) });
    items.push(Item::Quit { label: String::from_str("Quit                  ") });
    items
}

/// A fresh menu: the three modes with the first selected, music on at
/// volume 70, and the main entries with the first highlighted.
pub fn initialise() -> (m: Menu)
    ensures
        menu_wf(m),
        m.modes@.len() == 3,
        m.modes@[0] is Classic,
        m.modes@[1] is Chill,
        m.modes@[2] is Bane,
        m.mode_selected == 0,
        m.item_selected == 0,
        m.music_toggle == true,
        m.music_volume == 70,
        m.title@ == "Tetris Bane"@,
        is_main_menu_items(m.items@, m.modes@[0], true, 70),
        main_shape(m.items@),
{
    let music_toggle = true;
    let music_volume: i32 = 70;
    let mut modes: Vec<Mode> = Vec::new();
    modes.push(Mode::Classic { label: String::from_str("Classic") });
    modes.push(Mode::Chill { label: String::from_str("Chill") });
    modes.push(Mode::Bane { label: String::from_str("Bane") });
    proof {
        reveal_strlit("Classic");
        reveal_strlit("Chill");
        reveal_strlit("Bane");
        assert(mode_label_fits(modes@[0]));
        assert(mode_label_fits(modes@[1]));
        assert(mode_label_fits(modes@[2]));
    }
    let items = menu_items(&modes, 0, music_toggle, music_volume);
    Menu {
        items,
        item_selected: 0,
        title: String::from_str("Tetris Bane"),
        music_toggle,
        music_volume,
        modes,
        mode_selected: 0,
    }
}

/// Move an index by one step, wrapping around the ends.
pub open spec fn spec_change_index(index: int, delta: int, length: int) -> int {
    if index + delta < 0 {
        length - 1
    } else {
        (index + delta) % length
    }
}

/// The index one step up or down from `index`, wrapping modulo
/// `length`.
pub fn change_index_wrapped(index: usize, delta: i32, length: usize) -> (r: usize)
    requires
        delta == -1i32 || delta == 1i32,
        index < length,
        length <= 1000000,
    ensures
        r == spec_change_index(index as int, delta as int, length as int),
        r < length,
{
    if delta < 0 && index == 0 {
        length - 1
    } else {
        let next = if delta < 0 {
            index - 1
        } else {
            index + 1
        };
        next % length
    }
}

/// A volume step held to the mixer's range.
pub open spec fn clamp_volume(v: int) -> int {
    if v < 0 {
        0
    } else if v > 128 {
        128
    } else {
        v
    }
}

/// The entry lists agree everywhere but (at most) at `sel`.
pub open spec fn items_same_but(a: Seq<Item>, b: Seq<Item>, sel: int) -> bool {
    &&& b.len() == a.len()
    &&& forall|j: int| 0 <= j < a.len() && j != sel ==> a[j] == #[trigger] b[j]
}

/// The settings the menu owns, other than its entry list and cursor,
/// are unchanged.
pub open spec fn same_settings(m0: Menu, m1: Menu) -> bool {
    &&& m1.title == m0.title
    &&& m1.music_toggle == m0.music_toggle
    &&& m1.music_volume == m0.music_volume
    &&& m1.modes == m0.modes
    &&& m1.mode_selected == m0.mode_selected
}

/// Everything around the menu is unchanged.
pub open spec fn same_world_around_menu(w0: World, w1: World) -> bool {
    &&& w1.game == w0.game
    &&& w1.state == w0.state
    &&& w1.music_file == w0.music_file
}

/// The music toggle flipped, and the toggle's entry relabeled in
/// place.
pub open spec fn music_toggled(m0: Menu, m1: Menu) -> bool {
    &&& m1.music_toggle == !m0.music_toggle
    &&& items_same_but(m0.items@, m1.items@, m0.item_selected as int)
    &&& m1.items@[m0.item_selected as int] matches Item::Music { label } && label@
        == spec_music_label(!m0.music_toggle)
    &&& m1.item_selected == m0.item_selected
    &&& m1.title == m0.title
    &&& m1.music_volume == m0.music_volume
    &&& m1.modes == m0.modes
    &&& m1.mode_selected == m0.mode_selected
}

/// What a left or right step does, depending on the highlighted entry:
/// cycle the mode, flip the music toggle, or nudge the volume; any
/// other entry ignores it.
pub open spec fn shift_rel(w0: World, w1: World, delta: int) -> bool {
    let m0 = w0.menu;
    let m1 = w1.menu;
    let sel = m0.item_selected as int;
    match m0.items@[sel] {
        Item::Mode { .. } => {
            let new_mode = spec_change_index(
                m0.mode_selected as int,
                delta,
                m0.modes@.len() as int,
            );
            &&& same_world_around_menu(w0, w1)
            &&& m1.mode_selected == new_mode
            &&& items_same_but(m0.items@, m1.items@, sel)
            &&& m1.items@[sel] matches Item::Mode { label } && label@ == spec_mode_label(
                m0.modes@[new_mode],
            )
            &&& m1.item_selected == m0.item_selected
            &&& m1.title == m0.title
            &&& m1.music_toggle == m0.music_toggle
            &&& m1.music_volume == m0.music_volume
            &&& m1.modes == m0.modes
        },
        Item::Music { .. } => same_world_around_menu(w0, w1) && music_toggled(m0, m1),
        Item::MusicVolume { .. } => {
            let v = clamp_volume(m0.music_volume + delta * 10);
            &&& same_world_around_menu(w0, w1)
            &&& m1.music_volume == v
            &&& items_same_but(m0.items@, m1.items@, sel)
            &&& m1.items@[sel] matches Item::MusicVolume { label } && label@ == spec_volume_label(
                v,
            )
            &&& m1.item_selected == m0.item_selected
            &&& m1.title == m0.title
            &&& m1.music_toggle == m0.music_toggle
            &&& m1.modes == m0.modes
            &&& m1.mode_selected == m0.mode_selected
        },
        _ => w1 == w0,
    }
}

/// What confirming the highlighted entry does: start a fresh session,
/// abandon one, resume one, quit, or fall back to the left-step
/// behavior for the setting entries.
pub open spec fn confirm_rel(w0: World, w1: World) -> bool {
    let m0 = w0.menu;
    let sel = m0.item_selected as int;
    match m0.items@[sel] {
        Item::Play { .. } => {
            &&& w1.state is Play
            &&& w1.music_file@ == sound::spec_music_path(game::current_mode(m0))
            &&& game::is_initial_game(w1.game, game::current_mode(m0))
            &&& w1.menu == m0
        },
        Item::EndGame { .. } => {
            &&& w1.state is Menu
            &&& w1.game == w0.game
            &&& w1.music_file == w0.music_file
            &&& w1.menu.item_selected == 0
            &&& is_main_menu_items(
                w1.menu.items@,
                game::current_mode(m0),
                m0.music_toggle,
                m0.music_volume as int,
            )
            &&& w1.menu.title@ == "Tetris Bane"@
            &&& w1.menu.music_toggle == m0.music_toggle
            &&& w1.menu.music_volume == m0.music_volume
            &&& w1.menu.modes == m0.modes
            &&& w1.menu.mode_selected == m0.mode_selected
        },
        Item::Resume { .. } => {
            &&& w1.state is Play
            &&& w1.game == w0.game
            &&& w1.music_file == w0.music_file
            &&& w1.menu.title@ == "Tetris Bane"@
            &&& w1.menu.items == m0.items
            &&& w1.menu.item_selected == m0.item_selected
            &&& w1.menu.music_toggle == m0.music_toggle
            &&& w1.menu.music_volume == m0.music_volume
            &&& w1.menu.modes == m0.modes
            &&& w1.menu.mode_selected == m0.mode_selected
        },
        Item::Quit { .. } => {
            &&& w1.state is Quit
            &&& w1.game == w0.game
            &&& w1.menu == w0.menu
            &&& w1.music_file == w0.music_file
        },
        Item::Mode { .. } => shift_rel(w0, w1, -1),
        Item::Music { .. } => same_world_around_menu(w0, w1) && music_toggled(m0, w1.menu),
        Item::MusicVolume { .. } => w1 == w0,
    }
}

/// What escape does: it resumes a paused session, and quits from the
/// top-level menu.
pub open spec fn escape_rel(w0: World, w1: World) -> bool {
    &&& w1.game == w0.game
    &&& w1.menu == w0.menu
    &&& w1.music_file == w0.music_file
    &&& if w0.state is Paused {
        w1.state is Play
    } else {
        w1.state is Quit
    }
}

/// The highlight moved one entry up or down, wrapping.
pub open spec fn selection_moved(w0: World, w1: World, delta: int) -> bool {
    &&& same_world_around_menu(w0, w1)
    &&& w1.menu.item_selected == spec_change_index(
        w0.menu.item_selected as int,
        delta,
        w0.menu.items@.len() as int,
    )
    &&& w1.menu.items == w0.menu.items
    &&& same_settings(w0.menu, w1.menu)
}

/// What one input event does to the menu screen.
pub open spec fn menu_update_rel(w0: World, event: Option<game::Input>, w1: World) -> bool {
    match event {
        Option::None => w1 == w0,
        Option::Some(e) => match e {
            game::Input::LeftKeyDown => shift_rel(w0, w1, -1),
            game::Input::RightKeyDown => shift_rel(w0, w1, 1),
            game::Input::UpKeyDown => selection_moved(w0, w1, -1),
            game::Input::DownKeyDown => selection_moved(w0, w1, 1),
            game::Input::ReturnKeyDown | game::Input::SpaceKeyDown => confirm_rel(w0, w1),
            game::Input::EscKeyDown => escape_rel(w0, w1),
            _ => w1 == w0,
        },
    }
}

/// Flip the music toggle and relabel its entry in place.
pub fn toggle_music(menu: &mut Menu)
    requires
        menu_wf(*old(menu)),
    ensures
        menu_wf(*final(menu)),
        music_toggled(*old(menu), *final(menu)),
        main_shape(old(menu).items@) ==> main_shape(final (menu).items@),
        paused_shape(old(menu).items@) ==> paused_shape(final (menu).items@),
{
    menu.music_toggle = !menu.music_toggle;
    let item = Item::Music { label: music_label(menu.music_toggle) };
    menu.items.set(menu.item_selected, item);
    proof {
        assert forall|j: int|
            0 <= j < old(menu).items@.len() && j != old(menu).item_selected implies old(
            menu,
        ).items@[j] == #[trigger] menu.items@[j] by {}
    }
}

/// The variant of the highlighted entry, free of any borrow of it.
enum ItemKind {
    PlayItem,
    ModeItem,
    QuitItem,
    ResumeItem,
    EndGameItem,
    MusicItem,
    VolumeItem,
}

/// Which entry the highlight rests on.
fn selected_kind(menu: &Menu) -> (k: ItemKind)
    requires
        menu.item_selected < menu.items@.len(),
    ensures
        k is PlayItem <==> menu.items@[menu.item_selected as int] is Play,
        k is ModeItem <==> menu.items@[menu.item_selected as int] is Mode,
        k is QuitItem <==> menu.items@[menu.item_selected as int] is Quit,
        k is ResumeItem <==> menu.items@[menu.item_selected as int] is Resume,
        k is EndGameItem <==> menu.items@[menu.item_selected as int] is EndGame,
        k is MusicItem <==> menu.items@[menu.item_selected as int] is Music,
        k is VolumeItem <==> menu.items@[menu.item_selected as int] is MusicVolume,
{
    match &menu.items[menu.item_selected] {
        Item::Play { .. } => ItemKind::PlayItem,
        Item::Mode { .. } => ItemKind::ModeItem,
        Item::Quit { .. } => ItemKind::QuitItem,
        Item::Resume { .. } => ItemKind::ResumeItem,
        Item::EndGame { .. } => ItemKind::EndGameItem,
        Item::Music { .. } => ItemKind::MusicItem,
        Item::MusicVolume { .. } => ItemKind::VolumeItem,
    }
}

/// Apply a left or right step to the highlighted entry: cycle the mode
/// selection, flip the music toggle, or nudge the volume by ten,
/// clamped to the mixer's range. Any other entry ignores it.
pub fn shift_left_or_right(world: &mut World, delta: i32)
    requires
        menu_wf(old(world).menu),
        delta == -1i32 || delta == 1i32,
    ensures
        menu_wf(final (world).menu),
        shift_rel(*old(world), *final(world), delta as int),
        main_shape(old(world).menu.items@) ==> main_shape(final (world).menu.items@),
        paused_shape(old(world).menu.items@) ==> paused_shape(final (world).menu.items@),
        final (world).menu.items@[old(world).menu.item_selected as int] is Mode ==> old(
            world,
        ).menu.items@[old(world).menu.item_selected as int] is Mode,
{
    let kind = selected_kind(&world.menu);
    match kind {
        ItemKind::ModeItem => {
            let new_mode = change_index_wrapped(
                world.menu.mode_selected,
                delta,
                world.menu.modes.len(),
            );
            world.menu.mode_selected = new_mode;
            let item = build_mode_item(&world.menu.modes, new_mode);
            world.menu.items.set(world.menu.item_selected, item);
            proof {
                assert forall|j: int|
                    0 <= j < old(world).menu.items@.len() && j != old(world).menu.item_selected
                    implies old(world).menu.items@[j] == #[trigger] world.menu.items@[j] by {}
            }
        },
        ItemKind::MusicItem => {
            toggle_music(&mut world.menu);
        },
        ItemKind::VolumeItem => {
            let step: i32 = delta * 10;
            let raw: i32 = world.menu.music_volume + step;
            let volume: i32 = if raw < 0 {
                0
            } else if raw > 128 {
                128
            } else {
                raw
            };
            world.menu.music_volume = volume;
            let item = Item::MusicVolume { label: volume_label(volume) };
            world.menu.items.set(world.menu.item_selected, item);
            proof {
                assert forall|j: int|
                    0 <= j < old(world).menu.items@.len() && j != old(world).menu.item_selected
                    implies old(world).menu.items@[j] == #[trigger] world.menu.items@[j] by {}
            }
        },
        _ => {},
    }
}

/// Drive the menu screen with one input event: navigate, adjust the
/// highlighted setting, confirm it, or leave the screen. Meaningful
/// only from the menu proper or the paused screen — escape's meaning
/// depends on which.
pub fn update(event: &Option<game::Input>, world: &mut World)
    requires
        game::world_wf(*old(world)),
        old(world).state is Menu || old(world).state is Paused,
    ensures
        game::world_wf(*final(world)),
        menu_update_rel(*old(world), *event, *final(world)),
{
    match event {
        Option::Some(e) => match e {
            game::Input::LeftKeyDown => {
                shift_left_or_right(world, -1);
            },
            game::Input::RightKeyDown => {
                shift_left_or_right(world, 1);
            },
            game::Input::UpKeyDown => {
                let s = change_index_wrapped(world.menu.item_selected, -1, world.menu.items.len());
                world.menu.item_selected = s;
            },
            game::Input::DownKeyDown => {
                let s = change_index_wrapped(world.menu.item_selected, 1, world.menu.items.len());
                world.menu.item_selected = s;
            },
            game::Input::ReturnKeyDown | game::Input::SpaceKeyDown => {
                let kind = selected_kind(&world.menu);
                match kind {
                    ItemKind::PlayItem => {
                        proof {
                            if old(world).state is Paused {
                                assert(!(old(world).menu.items@[old(
                                    world,
                                ).menu.item_selected as int] is Play));
                            }
                        }
                        world.state = game::State::Play;
                        world.music_file = sound::music_path(
                            &world.menu.modes[world.menu.mode_selected],
                        );
                        let fresh = game::initialise_game(
                            &world.menu.modes[world.menu.mode_selected],
                        );
                        world.game = fresh;
                    },
                    ItemKind::EndGameItem => {
                        world.state = game::State::Menu;
                        world.menu.item_selected = 0;
                        let items = menu_items(
                            &world.menu.modes,
                            world.menu.mode_selected,
                            world.menu.music_toggle,
                            world.menu.music_volume,
                        );
                        world.menu.items = items;
                        world.menu.title = String::from_str("Tetris Bane");
                    },
                    ItemKind::ResumeItem => {
                        proof {
                            if old(world).state is Menu {
                                assert(!(old(world).menu.items@[old(
                                    world,
                                ).menu.item_selected as int] is Resume));
                            }
                        }
                        world.state = game::State::Play;
                        world.menu.title = String::from_str("Tetris Bane");
                    },
                    ItemKind::QuitItem => {
                        world.state = game::State::Quit;
                    },
                    ItemKind::ModeItem => {
                        shift_left_or_right(world, -1);
                    },
                    ItemKind::MusicItem => {
                        toggle_music(&mut world.menu);
                    },
                    ItemKind::VolumeItem => {},
                }
            },
            game::Input::EscKeyDown => {
                if world.state == game::State::Paused {
                    world.state = game::State::Play;
                } else {
                    world.state = game::State::Quit;
                }
            },
            _ => {},
        },
        Option::None => {},
    }
}

} // verus!
