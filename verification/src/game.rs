//! The play-session engine: the board-owning `Game`, the `World` that
//! wraps it together with the menu, and the tick/input state machine.
//!
//! Every accepted action replaces the piece's whole cell list; every
//! rejected one leaves it untouched. The one terminal condition is the
//! transition to `GameOver`, which is an ordinary state change.

use vstd::prelude::*;

use crate::block;
use crate::block::{Block, Delta, Position};
use crate::board;
use crate::board::{Board, Grid};
use crate::menu;
use crate::menu::Menu;

verus! {

/// A ruleset variant. It selects the piece set, the board dimensions,
/// and (for the audio layer) a music track. The label is what the menu
/// shows for the variant.
pub enum Mode {
    Classic { label: String },
    Chill { label: String },
    Bane { label: String },
}

/// The top-level session state. Exactly one is active at a time.
#[derive(Clone, Copy, PartialEq, Eq, Structural, Debug)]
pub enum State {
    Play,
    Menu,
    Quit,
    GameOver,
    Paused,
}

/// A discrete, already-debounced input event. Mapping raw keyboard
/// state to these is the caller's business.
#[derive(Clone, Copy, Debug)]
pub enum Input {
    LeftKeyDown,
    RightKeyDown,
    UpKeyDown,
    DownKeyDown,
    DownKeyUp,
    ReturnKeyDown,
    SpaceKeyDown,
    SpaceKeyUp,
    SKeyDown,
    SKeyUp,
    EscKeyDown,
    PKeyDown,
}

/// Fall interval while a soft drop is held, in milliseconds.
pub const FAST_FALL_RATE: u128 = 25;

/// Default fall interval, in milliseconds.
pub const DEFAULT_FALL_RATE: u128 = 500;

/// How long the final board stays visible after a loss, in milliseconds.
pub const GAME_OVER_PAUSE: u128 = 1000;

/// Columns of the board used by the harder variant.
pub const BANE_BOARD_COLUMNS: usize = 18;

/// Rows of the board used by the harder variant, including the hidden
/// top row.
pub const BANE_BOARD_ROWS: usize = 25;

/// Columns of the standard board.
pub const CLASSIC_BOARD_COLUMNS: usize = 10;

/// Rows of the standard board, including the hidden top row.
pub const CLASSIC_BOARD_ROWS: usize = 21;

/// The number of board columns a mode plays on.
pub open spec fn mode_columns(mode: Mode) -> nat {
    match mode {
        Mode::Bane { .. } => BANE_BOARD_COLUMNS as nat,
        _ => CLASSIC_BOARD_COLUMNS as nat,
    }
}

/// The number of board rows a mode plays on.
pub open spec fn mode_rows(mode: Mode) -> nat {
    match mode {
        Mode::Bane { .. } => BANE_BOARD_ROWS as nat,
        _ => CLASSIC_BOARD_ROWS as nat,
    }
}

/// Declares `std::time::Instant` so the fall clock can live in a
/// field. Its values are opaque; only the wrappers below touch them.
#[verifier::external_type_specification]
#[verifier::external_body]
pub struct ExInstant(std::time::Instant);

/// Relies on `std::time::Instant::now`: an opaque reading of a
/// monotonic clock. Nothing is assumed of the value.
#[verifier::external_body]
fn instant_now() -> std::time::Instant {
    std::time::Instant::now()
}

/// Relies on `Instant::elapsed` and `Duration::as_millis`: the whole
/// milliseconds since the reading was taken. Nothing is assumed of the
/// value; the engine's contracts cover every outcome.
#[verifier::external_body]
fn elapsed_millis(t: &std::time::Instant) -> u128 {
    t.elapsed().as_millis()
}

/// One play session: the falling piece and its orientation index, the
/// board, the fall timer, and the score.
pub struct Game {
    pub block: Block,
    pub block_orientation: u8,
    pub board: Board,
    pub fall_rate_millis: u128,
    pub block_drop_clock: std::time::Instant,
    pub score: i32,
}

/// Everything the program tracks: the session, the menu, the top-level
/// state, and the music track the audio layer should play.
pub struct World {
    pub game: Game,
    pub menu: Menu,
    pub state: State,
    pub music_file: String,
}

/// The mode the menu currently selects.
pub open spec fn current_mode(m: Menu) -> Mode {
    m.modes@[m.mode_selected as int]
}

/// A well-formed session: a well-formed board with room to spare in
/// `i32` coordinates, a well-formed piece whose cells all lie on the
/// board, an orientation index below four, and a non-negative score.
pub open spec fn game_wf(g: Game) -> bool {
    &&& board::grid_wf(board::grid_of(g.board))
    &&& board::grid_of(g.board).len() + 16 <= i32::MAX
    &&& board::grid_of(g.board)[0].len() + 16 <= i32::MAX
    &&& block::block_wf(g.block)
    &&& forall|i: int| 0 <= i < g.block.positions@.len() ==> board::in_bounds(
        board::grid_of(g.board),
        #[trigger] g.block.positions@[i],
    )
    &&& g.block_orientation < 4
    &&& g.score >= 0
}

/// The session's board has the dimensions its mode plays on.
pub open spec fn game_matches_mode(g: Game, mode: Mode) -> bool {
    &&& board::grid_of(g.board).len() == mode_rows(mode)
    &&& board::grid_of(g.board)[0].len() == mode_columns(mode)
}

/// A well-formed world. While a session is active (playing, paused or
/// just lost) its board matches the selected mode, and the menu holds
/// the entries of the screen the state calls for, so that a suspended
/// session's mode cannot change under it.
pub open spec fn world_wf(w: World) -> bool {
    &&& game_wf(w.game)
    &&& menu::menu_wf(w.menu)
    &&& (w.state is Play || w.state is Paused || w.state is GameOver) ==> game_matches_mode(
        w.game,
        current_mode(w.menu),
    )
    &&& (w.state is Menu || w.state is GameOver) ==> menu::main_shape(w.menu.items@)
    &&& w.state is Paused ==> menu::paused_shape(w.menu.items@)
}

/// Equal piece contents: same cells in the same order, same color,
/// same label.
pub open spec fn block_like(a: Block, b: Block) -> bool {
    &&& a.positions@ == b.positions@
    &&& a.color == b.color
    &&& a.label == b.label
}

/// Equal sessions, except that nothing is said of the fall clock.
pub open spec fn game_like(a: Game, b: Game) -> bool {
    &&& block_like(a.block, b.block)
    &&& a.block_orientation == b.block_orientation
    &&& board::grid_of(a.board) == board::grid_of(b.board)
    &&& a.fall_rate_millis == b.fall_rate_millis
    &&& a.score == b.score
}

/// Equal worlds, except that nothing is said of the fall clock.
pub open spec fn world_like(a: World, b: World) -> bool {
    &&& game_like(a.game, b.game)
    &&& a.menu == b.menu
    &&& a.state == b.state
    &&& a.music_file == b.music_file
}

/// A fresh session for the mode: an empty board of the mode's
/// dimensions, a spawned piece, orientation zero, the default fall
/// rate, and no score.
pub open spec fn is_initial_game(g: Game, mode: Mode) -> bool {
    &&& game_wf(g)
    &&& board::grid_of(g.board) == board::blank_rows(mode_rows(mode), mode_columns(mode))
    &&& block::is_spawn_block(mode, g.block)
    &&& g.block_orientation == 0
    &&& g.fall_rate_millis == DEFAULT_FALL_RATE
    &&& g.score == 0
}

/// A fresh spawn of any of the mode's labels lies on any board at
/// least as large as the mode's spawn window.
pub proof fn lemma_spawn_block_in_bounds(mode: Mode, b: Block, cols: int, rows: int)
    requires
        block::is_spawn_block(mode, b),
        cols >= block::spawn_offset(mode) + 5,
        rows >= 3,
    ensures
        b.positions@.len() == block::cell_count(b.label),
        forall|i: int| 0 <= i < b.positions@.len() ==> 0 <= (#[trigger] b.positions@[i]).x < cols
            && 0 <= b.positions@[i].y < rows,
{
    let k = choose|k: int|
        0 <= k < block::mode_label_count(mode) && block::is_spawn_block_at(mode, k, b);
    let off = block::spawn_offset(mode);
    assert forall|i: int| 0 <= i < b.positions@.len() implies 0 <= (
    #[trigger] b.positions@[i]).x < cols && 0 <= b.positions@[i].y < rows by {
        assert(b.positions@[i] == block::base_cell(b.label, off, i));
    }
}

/// A fresh session for the given mode, with the fall clock just reset.
pub fn initialise_game(mode: &Mode) -> (g: Game)
    ensures
        is_initial_game(g, *mode),
        game_matches_mode(g, *mode),
{
    let (rows, cols): (usize, usize) = match mode {
        Mode::Bane { .. } => (BANE_BOARD_ROWS, BANE_BOARD_COLUMNS),
        _ => (CLASSIC_BOARD_ROWS, CLASSIC_BOARD_COLUMNS),
    };
    let mut b: Board = Vec::new();
    let mut y: usize = 0;
    while y < rows
        invariant
            y <= rows,
            b@.len() == y,
            forall|j: int| 0 <= j < y ==> (#[trigger] b@[j])@ == board::blank_row(cols as nat),
        decreases rows - y,
    {
        b.push(board::blank_row_vec(cols));
        y += 1;
    }
    proof {
        assert(board::grid_of(b) =~~= board::blank_rows(rows as nat, cols as nat));
    }
    let blk = block::spawn(mode);
    proof {
        lemma_spawn_block_in_bounds(*mode, blk, cols as int, rows as int);
    }
    Game {
        board: b,
        block: blk,
        block_drop_clock: instant_now(),
        fall_rate_millis: DEFAULT_FALL_RATE,
        score: 0,
        block_orientation: 0,
    }
}

/// The whole program's starting state: a fresh menu showing its first
/// entry, a session for the first mode behind it, and no music chosen.
pub fn initialise_world() -> (w: World)
    ensures
        world_wf(w),
        w.state is Menu,
        is_initial_game(w.game, current_mode(w.menu)),
        w.menu.modes@.len() == 3,
        w.menu.modes@[0] is Classic,
        w.menu.modes@[1] is Chill,
        w.menu.modes@[2] is Bane,
        w.menu.mode_selected == 0,
        w.menu.item_selected == 0,
        w.menu.music_toggle == true,
        w.menu.music_volume == 70,
        w.menu.title@ == "Tetris Bane"@,
        menu::is_main_menu_items(w.menu.items@, current_mode(w.menu), true, 70),
        w.music_file@ == Seq::<char>::empty(),
{
    let m = menu::initialise();
    let game = initialise_game(&m.modes[0]);
    World { game, menu: m, state: State::Menu, music_file: String::new() }
}

/// Each cell shifted by one delta.
pub open spec fn shifted_cells(ps: Seq<Position>, d: Delta) -> Seq<Position> {
    Seq::new(ps.len(), |i: int| block::pos_add(ps[i], d))
}

/// The outcome of attempting a move: the shifted cells when every one
/// of them is placeable, the original cells untouched otherwise.
pub open spec fn moved_cells(g: Grid, ps: Seq<Position>, d: Delta) -> Seq<Position> {
    if board::all_placeable(g, shifted_cells(ps, d)) {
        shifted_cells(ps, d)
    } else {
        ps
    }
}

/// Candidate cells for a move of the whole piece by `delta`: adopted
/// in their entirety if every cell is placeable, rejected in their
/// entirety otherwise.
pub fn move_block(block: &Block, board_: &Board, delta: Delta) -> (r: Vec<Position>)
    requires
        board::grid_wf(board::grid_of(*board_)),
        forall|i: int| 0 <= i < block.positions@.len() ==> block::pos_add_fits(
            #[trigger] block.positions@[i],
            delta,
        ),
    ensures
        r@ == moved_cells(board::grid_of(*board_), block.positions@, delta),
{
    let mut candidate: Vec<Position> = Vec::new();
    let mut i: usize = 0;
    while i < block.positions.len()
        invariant
            i <= block.positions@.len(),
            forall|j: int| 0 <= j < block.positions@.len() ==> block::pos_add_fits(
                #[trigger] block.positions@[j],
                delta,
            ),
            candidate@ =~= shifted_cells(block.positions@, delta).take(i as int),
        decreases block.positions@.len() - i,
    {
        candidate.push(block.positions[i] + delta);
        i += 1;
    }
    proof {
        assert(candidate@ =~= shifted_cells(block.positions@, delta));
    }
    if board::positions_empty_on_board(&candidate, board_) {
        candidate
    } else {
        block::clone_positions(&block.positions)
    }
}

/// The cell directly below `p`.
pub open spec fn below(p: Position) -> Position {
    Position { x: p.x, y: (p.y + 1) as i32 }
}

/// The piece can fall no further: some cell sits on the bottom row, or
/// some cell has an occupied cell directly below it.
pub open spec fn finished_falling(g: Grid, ps: Seq<Position>) -> bool {
    exists|i: int|
        0 <= i < ps.len() && (ps[i].y == g.len() - 1 || board::occupied(g, below(ps[i])))
}

/// Whether the piece has come to rest, checked against a board that
/// does not contain the piece's own cells.
pub fn has_block_finished_falling(board_: &Board, block: &Block) -> (r: bool)
    requires
        board::grid_wf(board::grid_of(*board_)),
        board::grid_of(*board_).len() + 16 <= i32::MAX,
        forall|i: int| 0 <= i < block.positions@.len() ==> board::in_bounds(
            board::grid_of(*board_),
            #[trigger] block.positions@[i],
        ),
    ensures
        r == finished_falling(board::grid_of(*board_), block.positions@),
{
    proof {
        assert(board::grid_of(*board_).len() == board_@.len());
    }
    let bottom = board_.len() - 1;
    let mut i: usize = 0;
    while i < block.positions.len()
        invariant
            i <= block.positions@.len(),
            board::grid_wf(board::grid_of(*board_)),
            board::grid_of(*board_).len() + 16 <= i32::MAX,
            bottom == board::grid_of(*board_).len() - 1,
            forall|j: int| 0 <= j < block.positions@.len() ==> board::in_bounds(
                board::grid_of(*board_),
                #[trigger] block.positions@[j],
            ),
            forall|j: int| 0 <= j < i ==> !(block.positions@[j].y == board::grid_of(
                *board_,
            ).len() - 1 || board::occupied(board::grid_of(*board_), below(
                #[trigger] block.positions@[j],
            ))),
        decreases block.positions@.len() - i,
    {
        let p = block.positions[i];
        if p.y as usize == bottom {
            return true;
        }
        if board::is_occupied(board_, Position { x: p.x, y: p.y + 1 }) {
            return true;
        }
        i += 1;
    }
    false
}

/// The outcome of attempting a rotation: the rotated cells with the
/// orientation advanced when every cell is placeable; the original
/// cells and orientation untouched otherwise.
pub open spec fn rotation_result(g: Grid, b: Block, orientation: u8) -> (Seq<Position>, u8) {
    let cand = block::rotated_cells(b.positions@, b.label, orientation as int);
    if board::all_placeable(g, cand) {
        (cand, (((orientation as int) + 1) % 4) as u8)
    } else {
        (b.positions@, orientation)
    }
}

/// Candidate cells and orientation for rotating the piece one step:
/// adopted only if every rotated cell is placeable — there is no wall
/// kick; a blocked rotation is simply refused.
pub fn rotate_block(block: &Block, board_: &Board, orientation: u8) -> (r: (Vec<Position>, u8))
    requires
        board::grid_wf(board::grid_of(*board_)),
        board::grid_of(*board_).len() + 16 <= i32::MAX,
        board::grid_of(*board_)[0].len() + 16 <= i32::MAX,
        block::block_wf(*block),
        orientation < 4,
        forall|i: int| 0 <= i < block.positions@.len() ==> board::in_bounds(
            board::grid_of(*board_),
            #[trigger] block.positions@[i],
        ),
    ensures
        (r.0@, r.1) == rotation_result(board::grid_of(*board_), *block, orientation),
        r.1 < 4,
{
    proof {
        let step = (orientation as int) % (block::cycle_length(block.label) as int);
        assert forall|i: int| 0 <= i < block.positions@.len() implies block::pos_add_fits(
            #[trigger] block.positions@[i],
            block::rotation_delta(block.label, step, i),
        ) by {
            block::lemma_rotation_delta_small(block.label, step, i);
        }
    }
    let candidate = block::rotate_block(block, orientation);
    if board::positions_empty_on_board(&candidate, board_) {
        (candidate, (orientation + 1) % 4)
    } else {
        (block::clone_positions(&block.positions), orientation)
    }
}

/// A score total capped at the top of its range.
pub open spec fn clamped_score(s: int) -> int {
    if s <= i32::MAX {
        s
    } else {
        i32::MAX as int
    }
}

/// Add cleared rows to the score, saturating at the top of the range.
fn add_score(score: i32, cleared: i32) -> (r: i32)
    requires
        score >= 0,
        cleared >= 0,
    ensures
        r == clamped_score(score + cleared),
        r >= 0,
{
    if score <= i32::MAX - cleared {
        score + cleared
    } else {
        i32::MAX
    }
}

/// What landing the piece does to the world, given the piece that the
/// catalog spawned next. The landed piece is painted for good; if the
/// fresh piece fits, it is adopted; if not, it is painted once so the
/// final frame shows the overflow, and the session ends. Either way
/// the full rows are then cleared and scored, one point per row.
pub open spec fn land_rel(w0: World, spawned: Block, w1: World) -> bool {
    let g = board::grid_of(w0.game.board);
    let landed = board::painted(g, w0.game.block.positions@, w0.game.block.color);
    if board::all_placeable(landed, spawned.positions@) {
        &&& board::grid_of(w1.game.board) == board::cleared_grid(landed)
        &&& w1.game.score == clamped_score(w0.game.score + board::full_row_count(landed))
        &&& block_like(w1.game.block, spawned)
        &&& w1.game.block_orientation == 0
        &&& w1.game.fall_rate_millis == DEFAULT_FALL_RATE
        &&& w1.state == w0.state
        &&& w1.menu == w0.menu
        &&& w1.music_file == w0.music_file
    } else {
        let shown = board::painted(landed, spawned.positions@, spawned.color);
        &&& board::grid_of(w1.game.board) == board::cleared_grid(shown)
        &&& w1.game.score == clamped_score(w0.game.score + board::full_row_count(shown))
        &&& block_like(w1.game.block, w0.game.block)
        &&& w1.game.block_orientation == w0.game.block_orientation
        &&& w1.game.fall_rate_millis == GAME_OVER_PAUSE
        &&& w1.state is GameOver
        &&& menu::is_main_menu_items(
            w1.menu.items@,
            current_mode(w0.menu),
            w0.menu.music_toggle,
            w0.menu.music_volume as int,
        )
        &&& w1.menu.item_selected == 0
        &&& w1.menu.title == w0.menu.title
        &&& w1.menu.music_toggle == w0.menu.music_toggle
        &&& w1.menu.music_volume == w0.menu.music_volume
        &&& w1.menu.modes == w0.menu.modes
        &&& w1.menu.mode_selected == w0.menu.mode_selected
        &&& w1.music_file == w0.music_file
    }
}

/// Land the piece where it lies and bring in the freshly spawned one,
/// ending the session instead if the fresh piece does not fit.
pub fn land_block(world: &mut World, spawned: Block)
    requires
        world_wf(*old(world)),
        game_matches_mode(old(world).game, current_mode(old(world).menu)),
        finished_falling(
            board::grid_of(old(world).game.board),
            old(world).game.block.positions@,
        ),
        block::is_spawn_block(current_mode(old(world).menu), spawned),
    ensures
        world_wf(*final(world)),
        land_rel(*old(world), spawned, *final(world)),
        final (world).state == old(world).state || final (world).state is GameOver,
{
    proof {
        let m = current_mode(old(world).menu);
        // every mode's board is at least as large as its spawn window
        assert(mode_columns(m) >= block::spawn_offset(m) + 5 && mode_rows(m) >= 3);
        lemma_spawn_block_in_bounds(
            current_mode(old(world).menu),
            spawned,
            board::grid_of(old(world).game.board)[0].len() as int,
            board::grid_of(old(world).game.board).len() as int,
        );
    }
    let landed = board::paint_positions(
        &world.game.board,
        &world.game.block.positions,
        world.game.block.color,
    );
    if !board::positions_empty_on_board(&spawned.positions, &landed) {
        world.state = State::GameOver;
        world.menu.items = menu::menu_items(
            &world.menu.modes,
            world.menu.mode_selected,
            world.menu.music_toggle,
            world.menu.music_volume,
        );
        world.menu.item_selected = 0;
        world.game.fall_rate_millis = GAME_OVER_PAUSE;
        let shown = board::paint_positions(&landed, &spawned.positions, spawned.color);
        let (cleared_board, cleared) = board::delete_full_lines(&shown);
        world.game.board = cleared_board;
        world.game.score = add_score(world.game.score, cleared);
    } else {
        world.game.block = spawned;
        world.game.block_orientation = 0;
        world.game.fall_rate_millis = DEFAULT_FALL_RATE;
        let (cleared_board, cleared) = board::delete_full_lines(&landed);
        world.game.board = cleared_board;
        world.game.score = add_score(world.game.score, cleared);
    }
}

/// A rejected move leaves the piece's cells exactly as they were:
/// motion is all-or-nothing, never clipped to the cells that would
/// have fit.
pub proof fn lemma_rejected_move_unchanged(g: Grid, ps: Seq<Position>, d: Delta)
    requires
        !board::all_placeable(g, shifted_cells(ps, d)),
    ensures
        moved_cells(g, ps, d) == ps,
{
}

/// A spawned piece that does not fit the settled board ends the
/// session in `GameOver`; no error is raised, it is an ordinary state
/// transition.
pub proof fn lemma_blocked_spawn_is_game_over(w0: World, spawned: Block, w1: World)
    requires
        land_rel(w0, spawned, w1),
        !board::all_placeable(
            board::painted(
                board::grid_of(w0.game.board),
                w0.game.block.positions@,
                w0.game.block.color,
            ),
            spawned.positions@,
        ),
    ensures
        w1.state is GameOver,
{
}

/// How many rows a landing clears, counting the colliding spawn's
/// cells when the session ends.
pub open spec fn landed_full_rows(w0: World, spawned: Block) -> nat {
    let g = board::grid_of(w0.game.board);
    let landed = board::painted(g, w0.game.block.positions@, w0.game.block.color);
    if board::all_placeable(landed, spawned.positions@) {
        board::full_row_count(landed)
    } else {
        board::full_row_count(board::painted(landed, spawned.positions@, spawned.color))
    }
}

/// Landing scores one point per cleared row and nothing else: a
/// landing that clears nothing keeps the score, and one that clears
/// `n` rows adds exactly `n` while the score's range has room.
pub proof fn lemma_land_scoring(w0: World, spawned: Block, w1: World)
    requires
        land_rel(w0, spawned, w1),
        w0.game.score >= 0,
    ensures
        landed_full_rows(w0, spawned) == 0 ==> w1.game.score == w0.game.score,
        w0.game.score + landed_full_rows(w0, spawned) <= i32::MAX ==> w1.game.score
            == w0.game.score + landed_full_rows(w0, spawned),
{
}

/// What one input event does to the world: soft-drop keys set the fall
/// rate, the arrows attempt a move or rotation under the all-or-
/// nothing rule, escape or `p` suspends the session, and anything else
/// is ignored.
pub open spec fn input_rel(w0: World, event: Input, w1: World) -> bool {
    let g = board::grid_of(w0.game.board);
    match event {
        Input::SKeyUp | Input::SpaceKeyUp | Input::DownKeyUp => {
            &&& rate_changed(w0, w1, DEFAULT_FALL_RATE)
        },
        Input::DownKeyDown | Input::SpaceKeyDown | Input::SKeyDown => {
            &&& rate_changed(w0, w1, FAST_FALL_RATE)
        },
        Input::LeftKeyDown => piece_moved(
            w0,
            w1,
            moved_cells(g, w0.game.block.positions@, Position { x: -1i32, y: 0 }),
            w0.game.block_orientation,
        ),
        Input::RightKeyDown => piece_moved(
            w0,
            w1,
            moved_cells(g, w0.game.block.positions@, Position { x: 1, y: 0 }),
            w0.game.block_orientation,
        ),
        Input::UpKeyDown => piece_moved(
            w0,
            w1,
            rotation_result(g, w0.game.block, w0.game.block_orientation).0,
            rotation_result(g, w0.game.block, w0.game.block_orientation).1,
        ),
        Input::EscKeyDown | Input::PKeyDown => {
            &&& game_like(w0.game, w1.game)
            &&& w1.state is Paused
            &&& menu::is_paused_menu_items(
                w1.menu.items@,
                w0.menu.music_toggle,
                w0.menu.music_volume as int,
            )
            &&& w1.menu.item_selected == 0
            &&& w1.menu.title@ == "Paused"@
            &&& w1.menu.music_toggle == w0.menu.music_toggle
            &&& w1.menu.music_volume == w0.menu.music_volume
            &&& w1.menu.modes == w0.menu.modes
            &&& w1.menu.mode_selected == w0.menu.mode_selected
            &&& w1.music_file == w0.music_file
        },
        Input::ReturnKeyDown => world_like(w0, w1),
    }
}

/// Only the fall rate differs.
pub open spec fn rate_changed(w0: World, w1: World, rate: u128) -> bool {
    &&& block_like(w1.game.block, w0.game.block)
    &&& w1.game.block_orientation == w0.game.block_orientation
    &&& board::grid_of(w1.game.board) == board::grid_of(w0.game.board)
    &&& w1.game.fall_rate_millis == rate
    &&& w1.game.score == w0.game.score
    &&& w1.menu == w0.menu
    &&& w1.state == w0.state
    &&& w1.music_file == w0.music_file
}

/// Only the piece's cells and orientation differ.
pub open spec fn piece_moved(w0: World, w1: World, ps: Seq<Position>, orientation: u8) -> bool {
    &&& w1.game.block.positions@ == ps
    &&& w1.game.block.label == w0.game.block.label
    &&& w1.game.block.color == w0.game.block.color
    &&& w1.game.block_orientation == orientation
    &&& board::grid_of(w1.game.board) == board::grid_of(w0.game.board)
    &&& w1.game.fall_rate_millis == w0.game.fall_rate_millis
    &&& w1.game.score == w0.game.score
    &&& w1.menu == w0.menu
    &&& w1.state == w0.state
    &&& w1.music_file == w0.music_file
}

/// The input phase of a tick: no event leaves the world as it is.
pub open spec fn input_step(w0: World, event: Option<Input>, w1: World) -> bool {
    match event {
        Option::None => world_like(w0, w1),
        Option::Some(e) => input_rel(w0, e, w1),
    }
}

/// Apply at most one input event to the session.
pub fn apply_input(event: &Option<Input>, world: &mut World)
    requires
        world_wf(*old(world)),
        old(world).state is Play || old(world).state is GameOver,
    ensures
        world_wf(*final(world)),
        input_step(*old(world), *event, *final(world)),
        final (world).state is Play || final (world).state is GameOver || final (world).state
            is Paused,
        game_matches_mode(final (world).game, current_mode(final (world).menu)),
{
    match event {
        Option::Some(e) => match e {
            Input::SKeyUp | Input::SpaceKeyUp | Input::DownKeyUp => {
                world.game.fall_rate_millis = DEFAULT_FALL_RATE;
            },
            Input::LeftKeyDown => {
                let p = move_block(&world.game.block, &world.game.board, Position { x: -1, y: 0 });
                world.game.block.positions = p;
            },
            Input::RightKeyDown => {
                let p = move_block(&world.game.block, &world.game.board, Position { x: 1, y: 0 });
                world.game.block.positions = p;
            },
            Input::UpKeyDown => {
                let (p, orientation) = rotate_block(
                    &world.game.block,
                    &world.game.board,
                    world.game.block_orientation,
                );
                world.game.block.positions = p;
                world.game.block_orientation = orientation;
            },
            Input::DownKeyDown | Input::SpaceKeyDown | Input::SKeyDown => {
                world.game.fall_rate_millis = FAST_FALL_RATE;
            },
            Input::EscKeyDown | Input::PKeyDown => {
                world.state = State::Paused;
                world.menu.items = menu::paused_menu_items(
                    world.menu.music_toggle,
                    world.menu.music_volume,
                );
                world.menu.item_selected = 0;
                world.menu.title = String::from_str("Paused");
            },
            Input::ReturnKeyDown => {},
        },
        Option::None => {},
    }
}

/// After the loss pause the world returns to the menu; nothing else
/// moves.
pub open spec fn gameover_to_menu(w1: World, w2: World) -> bool {
    &&& w1.state is GameOver
    &&& w2.state is Menu
    &&& game_like(w1.game, w2.game)
    &&& w2.menu == w1.menu
    &&& w2.music_file == w1.music_file
}

/// The piece fell one row (or was refused, landing next tick); nothing
/// else moves.
pub open spec fn fell_one_row(w1: World, w2: World) -> bool {
    &&& piece_moved(
        w1,
        w2,
        moved_cells(
            board::grid_of(w1.game.board),
            w1.game.block.positions@,
            Position { x: 0, y: 1 },
        ),
        w1.game.block_orientation,
    )
}

/// The fall phase of a tick: a landed piece is settled and replaced by
/// some fresh spawn of the selected mode; otherwise the piece falls by
/// one row.
pub open spec fn tick_step(w1: World, w2: World) -> bool {
    &&& !(w1.state is GameOver)
    &&& if finished_falling(board::grid_of(w1.game.board), w1.game.block.positions@) {
        exists|spawned: Block|
            block::is_spawn_block(current_mode(w1.menu), spawned) && land_rel(w1, spawned, w2)
    } else {
        fell_one_row(w1, w2)
    }
}

/// One call of `update` applies the event (if any), and then, only if
/// the fall clock has run out, either returns a finished session to
/// the menu or advances the fall by one step.
pub open spec fn update_rel(w0: World, event: Option<Input>, w_mid: World, w2: World) -> bool {
    &&& input_step(w0, event, w_mid)
    &&& (world_like(w_mid, w2) || gameover_to_menu(w_mid, w2) || tick_step(w_mid, w2))
}

/// One frame of the session: process the event handed in, then let the
/// piece fall if the fall interval has elapsed. Every rejected action
/// is a silent no-op; the only terminal outcome is the `GameOver`
/// transition, and a finished session returns to the menu by itself
/// after the loss pause.
pub fn update(event: &Option<Input>, world: &mut World)
    requires
        world_wf(*old(world)),
        old(world).state is Play || old(world).state is GameOver,
    ensures
        world_wf(*final(world)),
        exists|w_mid: World| #[trigger] update_rel(*old(world), *event, w_mid, *final(world)),
{
    apply_input(event, world);
    let ghost w_mid = *world;
    if elapsed_millis(&world.game.block_drop_clock) > world.game.fall_rate_millis {
        world.game.block_drop_clock = instant_now();

        // The game-over state lets the player soak briefly in their
        // defeat rather than cutting to the menu at once.
        if world.state == State::GameOver {
            world.state = State::Menu;
            proof {
                assert(update_rel(*old(world), *event, w_mid, *world));
            }
            return ;
        }
        // Landing is checked before the fall so that a piece wedged in
        // at the last moment still counts.
        if has_block_finished_falling(&world.game.board, &world.game.block) {
            let spawned = block::spawn(&world.menu.modes[world.menu.mode_selected]);
            let ghost sp = spawned;
            land_block(world, spawned);
            proof {
                assert(land_rel(w_mid, sp, *world));
                assert(tick_step(w_mid, *world));
                assert(update_rel(*old(world), *event, w_mid, *world));
            }
            return ;
        }
        let p = move_block(&world.game.block, &world.game.board, Position { x: 0, y: 1 });
        world.game.block.positions = p;
        proof {
            assert(tick_step(w_mid, *world));
            assert(update_rel(*old(world), *event, w_mid, *world));
        }
        return ;
    }
    proof {
        assert(world_like(w_mid, *world));
        assert(update_rel(*old(world), *event, w_mid, *world));
    }
}

} // verus!
