//! The piece catalog: labels, spawn layouts, colors, and the
//! offset-table rotation of a piece's cell list.
//!
//! A piece is a loose, order-significant list of cells. Rotation adds a
//! per-cell delta taken from a per-label table; the table is chosen so
//! that a full cycle of steps returns every cell to where it started
//! (see [`lemma_rotation_cycle_identity`]).

use vstd::prelude::*;

use crate::game::Mode;

verus! {

/// An RGB triple. The board stores one per occupied cell; the renderer
/// is the only consumer of the channel values.
#[derive(Clone, Copy, PartialEq, Eq, Structural, Debug)]
pub struct Color {
    pub r: u8,
    pub g: u8,
    pub b: u8,
}

/// A board coordinate (or, used as a `Delta`, a displacement).
/// `x` grows rightward, `y` grows downward.
#[derive(Clone, Copy, PartialEq, Eq, Structural, Debug)]
pub struct Position {
    pub x: i32,
    pub y: i32,
}

/// A displacement has the same shape as a coordinate.
pub type Delta = Position;

/// Component-wise sum of a position and a delta, as mathematical
/// integers truncated back into `i32`.
pub open spec fn pos_add(a: Position, b: Position) -> Position {
    Position { x: (a.x + b.x) as i32, y: (a.y + b.y) as i32 }
}

/// True when the component-wise sum stays inside `i32`, so that
/// executable addition neither overflows nor truncates.
pub open spec fn pos_add_fits(a: Position, b: Position) -> bool {
    &&& i32::MIN <= a.x + b.x <= i32::MAX
    &&& i32::MIN <= a.y + b.y <= i32::MAX
}

impl vstd::std_specs::ops::AddSpecImpl for Position {
    open spec fn obeys_add_spec() -> bool {
        true
    }

    open spec fn add_req(self, rhs: Position) -> bool {
        pos_add_fits(self, rhs)
    }

    open spec fn add_spec(self, rhs: Position) -> Position {
        pos_add(self, rhs)
    }
}

impl core::ops::Add for Position {
    type Output = Position;

    fn add(self, other: Position) -> Position {
        Position { x: self.x + other.x, y: self.y + other.y }
    }
}

/// The closed set of piece shapes. The `Bane`-prefixed labels are the
/// larger shapes of the harder variant.
#[derive(Clone, Copy, PartialEq, Eq, Structural, Debug)]
pub enum Label {
    T,
    S,
    Z,
    L,
    J,
    O,
    I,
    BaneT,
    BaneO,
    BaneS,
    BaneX,
    BaneI,
    BaneL,
    BaneN,
}

/// A piece in play: an ordered cell list (the order is significant and
/// preserved across rotations), its color, and the label that selects
/// its rotation table.
#[derive(Clone)]
pub struct Block {
    pub positions: Vec<Position>,
    pub color: Color,
    pub label: Label,
}

/// A block is well-formed when its cell list has exactly the length
/// that its label's layout and rotation table expect.
pub open spec fn block_wf(b: Block) -> bool {
    b.positions@.len() == cell_count(b.label)
}

/// How many cells a piece with this label has.
pub open spec fn cell_count(label: Label) -> nat {
    match label {
        Label::BaneO => 9,
        Label::BaneT | Label::BaneS | Label::BaneX | Label::BaneI | Label::BaneL
            | Label::BaneN => 5,
        _ => 4,
    }
}

/// How many distinct orientation steps the label's table has: two for
/// the two-state symmetric shapes, four otherwise.
pub open spec fn cycle_length(label: Label) -> nat {
    match label {
        Label::I | Label::S | Label::Z | Label::BaneI => 2,
        _ => 4,
    }
}

/// Fully symmetric square-like labels, for which rotation is a no-op.
pub open spec fn is_square(label: Label) -> bool {
    match label {
        Label::O | Label::BaneO | Label::BaneX => true,
        _ => false,
    }
}

/// The color a label's pieces carry.
pub open spec fn label_color(label: Label) -> Color {
    match label {
        Label::I | Label::BaneI => Color { r: 54, g: 97, b: 254 },
        Label::T | Label::BaneT => Color { r: 0, g: 140, b: 54 },
        Label::O | Label::BaneO => Color { r: 0, g: 195, b: 218 },
        Label::L | Label::BaneL => Color { r: 231, g: 141, b: 213 },
        Label::J | Label::BaneN => Color { r: 208, g: 49, b: 3 },
        Label::S | Label::BaneS => Color { r: 205, g: 31, b: 72 },
        Label::Z | Label::BaneX => Color { r: 243, g: 238, b: 217 },
    }
}

/// The `i`-th cell of a label's canonical spawn layout, translated so
/// its reference column sits at `offset`.
pub open spec fn base_cell(label: Label, offset: i32, i: int) -> Position {
    match label {
        Label::I => {
            if i == 0 { Position { y: 0, x: offset } }
            else if i == 1 { Position { y: 0, x: (offset + 1) as i32 } }
            else if i == 2 { Position { y: 0, x: (offset + 2) as i32 } }
            else { Position { y: 0, x: (offset + 3) as i32 } }
        },
        Label::T => {
            if i == 0 { Position { y: 0, x: offset } }
            else if i == 1 { Position { y: 0, x: (offset + 1) as i32 } }
            else if i == 2 { Position { y: 0, x: (offset + 2) as i32 } }
            else { Position { y: 1, x: (offset + 1) as i32 } }
        },
        Label::O => {
            if i == 0 { Position { y: 0, x: offset } }
            else if i == 1 { Position { y: 0, x: (offset + 1) as i32 } }
            else if i == 2 { Position { y: 1, x: offset } }
            else { Position { y: 1, x: (offset + 1) as i32 } }
        },
        Label::L => {
            if i == 0 { Position { y: 0, x: offset } }
            else if i == 1 { Position { y: 0, x: (offset + 1) as i32 } }
            else if i == 2 { Position { y: 0, x: (offset + 2) as i32 } }
            else { Position { y: 1, x: offset } }
        },
        Label::J => {
            if i == 0 { Position { y: 0, x: offset } }
            else if i == 1 { Position { y: 0, x: (offset + 1) as i32 } }
            else if i == 2 { Position { y: 0, x: (offset + 2) as i32 } }
            else { Position { y: 1, x: (offset + 2) as i32 } }
        },
        Label::S => {
            if i == 0 { Position { y: 1, x: offset } }
            else if i == 1 { Position { y: 1, x: (offset + 1) as i32 } }
            else if i == 2 { Position { y: 0, x: (offset + 1) as i32 } }
            else { Position { y: 0, x: (offset + 2) as i32 } }
        },
        Label::Z => {
            if i == 0 { Position { y: 0, x: offset } }
            else if i == 1 { Position { y: 0, x: (offset + 1) as i32 } }
            else if i == 2 { Position { y: 1, x: (offset + 1) as i32 } }
            else { Position { y: 1, x: (offset + 2) as i32 } }
        },
        Label::BaneO => {
            if i == 0 { Position { y: 0, x: offset } }
            else if i == 1 { Position { y: 0, x: (offset + 1) as i32 } }
            else if i == 2 { Position { y: 0, x: (offset + 2) as i32 } }
            else if i == 3 { Position { y: 1, x: offset } }
            else if i == 4 { Position { y: 1, x: (offset + 1) as i32 } }
            else if i == 5 { Position { y: 1, x: (offset + 2) as i32 } }
            else if i == 6 { Position { y: 2, x: offset } }
            else if i == 7 { Position { y: 2, x: (offset + 1) as i32 } }
            else { Position { y: 2, x: (offset + 2) as i32 } }
        },
        Label::BaneT => {
            if i == 0 { Position { y: 0, x: offset } }
            else if i == 1 { Position { y: 0, x: (offset + 1) as i32 } }
            else if i == 2 { Position { y: 0, x: (offset + 2) as i32 } }
            else if i == 3 { Position { y: 1, x: (offset + 1) as i32 } }
            else { Position { y: 2, x: (offset + 1) as i32 } }
        },
        Label::BaneS => {
            if i == 0 { Position { y: 2, x: offset } }
            else if i == 1 { Position { y: 1, x: offset } }
            else if i == 2 { Position { y: 1, x: (offset + 1) as i32 } }
            else if i == 3 { Position { y: 0, x: (offset + 1) as i32 } }
            else { Position { y: 0, x: (offset + 2) as i32 } }
        },
        Label::BaneX => {
            if i == 0 { Position { y: 0, x: (offset + 1) as i32 } }
            else if i == 1 { Position { y: 1, x: offset } }
            else if i == 2 { Position { y: 1, x: (offset + 1) as i32 } }
            else if i == 3 { Position { y: 2, x: (offset + 1) as i32 } }
            else { Position { y: 1, x: (offset + 2) as i32 } }
        },
        Label::BaneI => {
            if i == 0 { Position { y: 0, x: offset } }
            else if i == 1 { Position { y: 0, x: (offset + 1) as i32 } }
            else if i == 2 { Position { y: 0, x: (offset + 2) as i32 } }
            else if i == 3 { Position { y: 0, x: (offset + 3) as i32 } }
            else { Position { y: 0, x: (offset + 4) as i32 } }
        },
        Label::BaneL => {
            if i == 0 { Position { y: 0, x: offset } }
            else if i == 1 { Position { y: 0, x: (offset + 1) as i32 } }
            else if i == 2 { Position { y: 0, x: (offset + 2) as i32 } }
            else if i == 3 { Position { y: 1, x: offset } }
            else { Position { y: 2, x: offset } }
        },
        Label::BaneN => {
            if i == 0 { Position { y: 0, x: offset } }
            else if i == 1 { Position { y: 0, x: (offset + 1) as i32 } }
            else if i == 2 { Position { y: 0, x: (offset + 2) as i32 } }
            else if i == 3 { Position { y: 1, x: offset } }
            else { Position { y: 1, x: (offset + 2) as i32 } }
        },
    }
}

/// A label's whole spawn layout at a given column offset.
pub open spec fn spawn_cells(label: Label, offset: i32) -> Seq<Position> {
    Seq::new(cell_count(label), |i: int| base_cell(label, offset, i))
}

/// The spawn column for a mode's pieces.
pub open spec fn spawn_offset(mode: Mode) -> i32 {
    match mode {
        Mode::Bane { .. } => 7,
        _ => 3,
    }
}

/// How many labels a mode draws from.
pub open spec fn mode_label_count(mode: Mode) -> nat {
    match mode {
        Mode::Classic { .. } => 7,
        Mode::Chill { .. } => 2,
        Mode::Bane { .. } => 7,
    }
}

/// The `k`-th label of a mode's permitted set.
pub open spec fn mode_label_at(mode: Mode, k: int) -> Label {
    match mode {
        Mode::Classic { .. } => {
            if k == 0 { Label::I }
            else if k == 1 { Label::T }
            else if k == 2 { Label::O }
            else if k == 3 { Label::S }
            else if k == 4 { Label::Z }
            else if k == 5 { Label::J }
            else { Label::L }
        },
        Mode::Chill { .. } => {
            if k == 0 { Label::O } else { Label::I }
        },
        Mode::Bane { .. } => {
            if k == 0 { Label::BaneN }
            else if k == 1 { Label::BaneX }
            else if k == 2 { Label::BaneS }
            else if k == 3 { Label::BaneO }
            else if k == 4 { Label::BaneT }
            else if k == 5 { Label::BaneI }
            else { Label::BaneL }
        },
    }
}

/// `b` is exactly the fresh piece of the mode's `k`-th label: canonical
/// layout at the mode's spawn column, the label's color.
pub open spec fn is_spawn_block_at(mode: Mode, k: int, b: Block) -> bool {
    &&& b.label == mode_label_at(mode, k)
    &&& b.positions@ == spawn_cells(b.label, spawn_offset(mode))
    &&& b.color == label_color(b.label)
}

/// `b` is a fresh piece of one of the mode's permitted labels.
pub open spec fn is_spawn_block(mode: Mode, b: Block) -> bool {
    exists|k: int| 0 <= k < mode_label_count(mode) && is_spawn_block_at(mode, k, b)
}

/// Executable mirror of [`cell_count`].
pub fn label_cell_count(label: &Label) -> (n: usize)
    ensures
        n == cell_count(*label),
{
    match label {
        Label::BaneO => 9,
        Label::BaneT | Label::BaneS | Label::BaneX | Label::BaneI | Label::BaneL
            | Label::BaneN => 5,
        _ => 4,
    }
}

/// Executable mirror of [`cycle_length`].
pub fn label_cycle_length(label: &Label) -> (n: usize)
    ensures
        n == cycle_length(*label),
{
    match label {
        Label::I | Label::S | Label::Z | Label::BaneI => 2,
        _ => 4,
    }
}

/// Executable mirror of [`label_color`].
pub fn color_of(label: &Label) -> (c: Color)
    ensures
        c == label_color(*label),
{
    match label {
        Label::I | Label::BaneI => Color { r: 54, g: 97, b: 254 },
        Label::T | Label::BaneT => Color { r: 0, g: 140, b: 54 },
        Label::O | Label::BaneO => Color { r: 0, g: 195, b: 218 },
        Label::L | Label::BaneL => Color { r: 231, g: 141, b: 213 },
        Label::J | Label::BaneN => Color { r: 208, g: 49, b: 3 },
        Label::S | Label::BaneS => Color { r: 205, g: 31, b: 72 },
        Label::Z | Label::BaneX => Color { r: 243, g: 238, b: 217 },
    }
}

/// Executable mirror of [`base_cell`].
fn base_cell_at(label: &Label, offset: i32, i: usize) -> (p: Position)
    requires
        0 <= offset <= i32::MAX - 8,
        i < cell_count(*label),
    ensures
        p == base_cell(*label, offset, i as int),
{
    match label {
        Label::I | Label::BaneI | Label::BaneL | Label::BaneN | Label::L | Label::J
            | Label::T | Label::BaneO | Label::BaneT => {
            if i == 0 { Position { y: 0, x: offset } }
            else if i == 1 { Position { y: 0, x: offset + 1 } }
            else if i == 2 { Position { y: 0, x: offset + 2 } }
            else {
                match label {
                    Label::I => Position { y: 0, x: offset + 3 },
                    Label::T => Position { y: 1, x: offset + 1 },
                    Label::L => Position { y: 1, x: offset },
                    Label::J => Position { y: 1, x: offset + 2 },
                    Label::BaneI => {
                        if i == 3 { Position { y: 0, x: offset + 3 } }
                        else { Position { y: 0, x: offset + 4 } }
                    },
                    Label::BaneL => {
                        if i == 3 { Position { y: 1, x: offset } }
                        else { Position { y: 2, x: offset } }
                    },
                    Label::BaneN => {
                        if i == 3 { Position { y: 1, x: offset } }
                        else { Position { y: 1, x: offset + 2 } }
                    },
                    Label::BaneT => {
                        if i == 3 { Position { y: 1, x: offset + 1 } }
                        else { Position { y: 2, x: offset + 1 } }
                    },
                    _ => {
                        // BaneO: rows of three
                        if i == 3 { Position { y: 1, x: offset } }
                        else if i == 4 { Position { y: 1, x: offset + 1 } }
                        else if i == 5 { Position { y: 1, x: offset + 2 } }
                        else if i == 6 { Position { y: 2, x: offset } }
                        else if i == 7 { Position { y: 2, x: offset + 1 } }
                        else { Position { y: 2, x: offset + 2 } }
                    },
                }
            }
        },
        Label::O => {
            if i == 0 { Position { y: 0, x: offset } }
            else if i == 1 { Position { y: 0, x: offset + 1 } }
            else if i == 2 { Position { y: 1, x: offset } }
            else { Position { y: 1, x: offset + 1 } }
        },
        Label::S => {
            if i == 0 { Position { y: 1, x: offset } }
            else if i == 1 { Position { y: 1, x: offset + 1 } }
            else if i == 2 { Position { y: 0, x: offset + 1 } }
            else { Position { y: 0, x: offset + 2 } }
        },
        Label::Z => {
            if i == 0 { Position { y: 0, x: offset } }
            else if i == 1 { Position { y: 0, x: offset + 1 } }
            else if i == 2 { Position { y: 1, x: offset + 1 } }
            else { Position { y: 1, x: offset + 2 } }
        },
        Label::BaneS => {
            if i == 0 { Position { y: 2, x: offset } }
            else if i == 1 { Position { y: 1, x: offset } }
            else if i == 2 { Position { y: 1, x: offset + 1 } }
            else if i == 3 { Position { y: 0, x: offset + 1 } }
            else { Position { y: 0, x: offset + 2 } }
        },
        Label::BaneX => {
            if i == 0 { Position { y: 0, x: offset + 1 } }
            else if i == 1 { Position { y: 1, x: offset } }
            else if i == 2 { Position { y: 1, x: offset + 1 } }
            else if i == 3 { Position { y: 2, x: offset + 1 } }
            else { Position { y: 1, x: offset + 2 } }
        },
    }
}

/// The mode's `k`-th permitted label.
fn label_for_index(mode: &Mode, k: usize) -> (l: Label)
    requires
        k < mode_label_count(*mode),
    ensures
        l == mode_label_at(*mode, k as int),
{
    match mode {
        Mode::Classic { .. } => {
            if k == 0 { Label::I }
            else if k == 1 { Label::T }
            else if k == 2 { Label::O }
            else if k == 3 { Label::S }
            else if k == 4 { Label::Z }
            else if k == 5 { Label::J }
            else { Label::L }
        },
        Mode::Chill { .. } => {
            if k == 0 { Label::O } else { Label::I }
        },
        Mode::Bane { .. } => {
            if k == 0 { Label::BaneN }
            else if k == 1 { Label::BaneX }
            else if k == 2 { Label::BaneS }
            else if k == 3 { Label::BaneO }
            else if k == 4 { Label::BaneT }
            else if k == 5 { Label::BaneI }
            else { Label::BaneL }
        },
    }
}

/// Relies on rand's `Rng::gen_range` over `0..n`: it panics only on an
/// empty range and otherwise returns a value of the range, drawn
/// uniformly.
#[verifier::external_body]
fn random_below(n: usize) -> (r: usize)
    requires
        n >= 1,
    ensures
        r < n,
{
    rand::Rng::gen_range(&mut rand::thread_rng(), 0..n)
}

/// The canonical fresh piece of a label: its spawn layout translated
/// to `offset`, in the label's color.
pub fn canonical_block(label: &Label, offset: i32) -> (b: Block)
    requires
        0 <= offset <= i32::MAX - 8,
    ensures
        b.label == *label,
        b.positions@ == spawn_cells(*label, offset),
        b.color == label_color(*label),
        block_wf(b),
{
    let count = label_cell_count(label);
    let mut positions: Vec<Position> = Vec::new();
    let mut i: usize = 0;
    while i < count
        invariant
            i <= count,
            count == cell_count(*label),
            0 <= offset <= i32::MAX - 8,
            positions@ =~= Seq::new(i as nat, |j: int| base_cell(*label, offset, j)),
        decreases count - i,
    {
        positions.push(base_cell_at(label, offset, i));
        i += 1;
    }
    proof {
        assert(positions@ =~= spawn_cells(*label, offset));
    }
    Block { positions, color: color_of(label), label: *label }
}

/// Spawn a fresh piece for the mode: a label drawn at random from the
/// mode's permitted set, laid out at the mode's spawn column.
pub fn spawn(mode: &Mode) -> (b: Block)
    ensures
        is_spawn_block(*mode, b),
        block_wf(b),
{
    let n: usize = match mode {
        Mode::Classic { .. } => 7,
        Mode::Chill { .. } => 2,
        Mode::Bane { .. } => 7,
    };
    let k = random_below(n);
    let label = label_for_index(mode, k);
    let offset: i32 = match mode {
        Mode::Bane { .. } => 7,
        _ => 3,
    };
    let b = canonical_block(&label, offset);
    proof {
        assert(is_spawn_block_at(*mode, k as int, b));
    }
    b
}

/// The per-cell displacement of the label's rotation table at a given
/// orientation step. Zero for the square labels (never consulted) and
/// for steps beyond the label's cycle.
pub open spec fn rotation_delta(label: Label, step: int, i: int) -> Delta {
    match label {
        Label::T => {
            if step == 0 {
                if i == 0 { Position { y: 0, x: 0 } }
                else if i == 1 { Position { y: 0, x: 0 } }
                else if i == 2 { Position { y: -1i32, x: -1i32 } }
                else { Position { y: 0, x: 0 } }
            } else if step == 1 {
                if i == 0 { Position { y: 0, x: 0 } }
                else if i == 1 { Position { y: 0, x: 0 } }
                else if i == 2 { Position { y: 0, x: 0 } }
                else { Position { y: -1i32, x: 1 } }
            } else if step == 2 {
                if i == 0 { Position { y: 1, x: 1 } }
                else if i == 1 { Position { y: 0, x: 0 } }
                else if i == 2 { Position { y: 0, x: 0 } }
                else { Position { y: 0, x: 0 } }
            } else {
                if i == 0 { Position { y: -1i32, x: -1i32 } }
                else if i == 1 { Position { y: 0, x: 0 } }
                else if i == 2 { Position { y: 1, x: 1 } }
                else { Position { y: 1, x: -1i32 } }
            }
        },
        Label::I => {
            if step == 0 {
                if i == 0 { Position { y: -2i32, x: 2 } }
                else if i == 1 { Position { y: -1i32, x: 1 } }
                else if i == 2 { Position { y: 0, x: 0 } }
                else { Position { y: 1, x: -1i32 } }
            } else {
                if i == 0 { Position { y: 2, x: -2i32 } }
                else if i == 1 { Position { y: 1, x: -1i32 } }
                else if i == 2 { Position { y: 0, x: 0 } }
                else { Position { y: -1i32, x: 1 } }
            }
        },
        Label::L => {
            if step == 0 {
                if i == 0 { Position { y: -1i32, x: 0 } }
                else if i == 1 { Position { y: 0, x: 0 } }
                else if i == 2 { Position { y: -1i32, x: -1i32 } }
                else { Position { y: 0, x: 1 } }
            } else if step == 1 {
                if i == 0 { Position { y: 1, x: 0 } }
                else if i == 1 { Position { y: 0, x: 0 } }
                else if i == 2 { Position { y: 0, x: 1 } }
                else { Position { y: -1i32, x: 1 } }
            } else if step == 2 {
                if i == 0 { Position { y: 1, x: 1 } }
                else if i == 1 { Position { y: 0, x: 0 } }
                else if i == 2 { Position { y: 0, x: -1i32 } }
                else { Position { y: 1, x: 0 } }
            } else {
                if i == 0 { Position { y: -1i32, x: -1i32 } }
                else if i == 1 { Position { y: 0, x: 0 } }
                else if i == 2 { Position { y: 1, x: 1 } }
                else { Position { y: 0, x: -2i32 } }
            }
        },
        Label::J => {
            if step == 0 {
                if i == 0 { Position { y: -1i32, x: 1 } }
                else if i == 1 { Position { y: 0, x: 0 } }
                else if i == 2 { Position { y: 1, x: -1i32 } }
                else { Position { y: 0, x: -2i32 } }
            } else if step == 1 {
                if i == 0 { Position { y: 0, x: -1i32 } }
                else if i == 1 { Position { y: 0, x: 0 } }
                else if i == 2 { Position { y: -1i32, x: 1 } }
                else { Position { y: -1i32, x: 0 } }
            } else if step == 2 {
                if i == 0 { Position { y: 0, x: 1 } }
                else if i == 1 { Position { y: 0, x: 0 } }
                else if i == 2 { Position { y: -1i32, x: 0 } }
                else { Position { y: 1, x: 1 } }
            } else {
                if i == 0 { Position { y: 1, x: -1i32 } }
                else if i == 1 { Position { y: 0, x: 0 } }
                else if i == 2 { Position { y: 1, x: 0 } }
                else { Position { y: 0, x: 1 } }
            }
        },
        Label::S => {
            if step == 0 {
                if i == 0 { Position { y: 0, x: 2 } }
                else if i == 1 { Position { y: -2i32, x: 0 } }
                else if i == 2 { Position { y: 0, x: 0 } }
                else { Position { y: 0, x: 0 } }
            } else {
                if i == 0 { Position { y: 0, x: -2i32 } }
                else if i == 1 { Position { y: 2, x: 0 } }
                else if i == 2 { Position { y: 0, x: 0 } }
                else { Position { y: 0, x: 0 } }
            }
        },
        Label::Z => {
            if step == 0 {
                if i == 0 { Position { y: 2, x: 1 } }
                else if i == 1 { Position { y: 0, x: 1 } }
                else if i == 2 { Position { y: 0, x: 0 } }
                else { Position { y: 0, x: 0 } }
            } else {
                if i == 0 { Position { y: -2i32, x: -1i32 } }
                else if i == 1 { Position { y: 0, x: -1i32 } }
                else if i == 2 { Position { y: 0, x: 0 } }
                else { Position { y: 0, x: 0 } }
            }
        },
        Label::BaneT => {
            if step == 0 {
                if i == 0 { Position { y: 0, x: 0 } }
                else if i == 1 { Position { y: 1, x: -1i32 } }
                else if i == 2 { Position { y: 1, x: 0 } }
                else if i == 3 { Position { y: 0, x: 0 } }
                else { Position { y: 0, x: -1i32 } }
            } else if step == 1 {
                if i == 0 { Position { y: 0, x: 1 } }
                else if i == 1 { Position { y: 1, x: 1 } }
                else if i == 2 { Position { y: 1, x: 0 } }
                else if i == 3 { Position { y: 0, x: 0 } }
                else { Position { y: 0, x: 0 } }
            } else if step == 2 {
                if i == 0 { Position { y: 0, x: 1 } }
                else if i == 1 { Position { y: -1i32, x: 1 } }
                else if i == 2 { Position { y: 0, x: 0 } }
                else if i == 3 { Position { y: 0, x: 0 } }
                else { Position { y: -1i32, x: 0 } }
            } else {
                if i == 0 { Position { y: 0, x: -2i32 } }
                else if i == 1 { Position { y: -1i32, x: -1i32 } }
                else if i == 2 { Position { y: -2i32, x: 0 } }
                else if i == 3 { Position { y: 0, x: 0 } }
                else { Position { y: 1, x: 1 } }
            }
        },
        Label::BaneS => {
            if step == 0 {
                if i == 0 { Position { y: 0, x: 2 } }
                else if i == 1 { Position { y: 1, x: 1 } }
                else if i == 2 { Position { y: 0, x: 0 } }
                else if i == 3 { Position { y: 1, x: -1i32 } }
                else { Position { y: 0, x: -2i32 } }
            } else if step == 1 {
                if i == 0 { Position { y: -2i32, x: 0 } }
                else if i == 1 { Position { y: -1i32, x: 1 } }
                else if i == 2 { Position { y: 0, x: 0 } }
                else if i == 3 { Position { y: 1, x: 1 } }
                else { Position { y: 2, x: 0 } }
            } else if step == 2 {
                if i == 0 { Position { y: 0, x: -2i32 } }
                else if i == 1 { Position { y: -1i32, x: -1i32 } }
                else if i == 2 { Position { y: 0, x: 0 } }
                else if i == 3 { Position { y: -1i32, x: 1 } }
                else { Position { y: 0, x: 2 } }
            } else {
                if i == 0 { Position { y: 2, x: 0 } }
                else if i == 1 { Position { y: 1, x: -1i32 } }
                else if i == 2 { Position { y: 0, x: 0 } }
                else if i == 3 { Position { y: -1i32, x: -1i32 } }
                else { Position { y: -2i32, x: 0 } }
            }
        },
        Label::BaneI => {
            if step == 0 {
                if i == 0 { Position { y: -2i32, x: 2 } }
                else if i == 1 { Position { y: -1i32, x: 1 } }
                else if i == 2 { Position { y: 0, x: 0 } }
                else if i == 3 { Position { y: 1, x: -1i32 } }
                else { Position { y: 2, x: -2i32 } }
            } else {
                if i == 0 { Position { y: 2, x: -2i32 } }
                else if i == 1 { Position { y: 1, x: -1i32 } }
                else if i == 2 { Position { y: 0, x: 0 } }
                else if i == 3 { Position { y: -1i32, x: 1 } }
                else { Position { y: -2i32, x: 2 } }
            }
        },
        Label::BaneL => {
            if step == 0 {
                if i == 0 { Position { y: 0, x: 0 } }
                else if i == 1 { Position { y: 2, x: 0 } }
                else if i == 2 { Position { y: 2, x: 0 } }
                else if i == 3 { Position { y: 0, x: 0 } }
                else { Position { y: 0, x: 0 } }
            } else if step == 1 {
                if i == 0 { Position { y: 0, x: 2 } }
                else if i == 1 { Position { y: 0, x: 0 } }
                else if i == 2 { Position { y: 0, x: 0 } }
                else if i == 3 { Position { y: 0, x: 2 } }
                else { Position { y: 0, x: 0 } }
            } else if step == 2 {
                if i == 0 { Position { y: 0, x: 0 } }
                else if i == 1 { Position { y: -2i32, x: 0 } }
                else if i == 2 { Position { y: 0, x: 0 } }
                else if i == 3 { Position { y: 0, x: 0 } }
                else { Position { y: -2i32, x: 0 } }
            } else {
                if i == 0 { Position { y: 0, x: -2i32 } }
                else if i == 1 { Position { y: 0, x: 0 } }
                else if i == 2 { Position { y: -2i32, x: 0 } }
                else if i == 3 { Position { y: 0, x: -2i32 } }
                else { Position { y: 2, x: 0 } }
            }
        },
        Label::BaneN => {
            if step == 0 {
                if i == 0 { Position { y: 1, x: 1 } }
                else if i == 1 { Position { y: 0, x: 0 } }
                else if i == 2 { Position { y: -1i32, x: -1i32 } }
                else if i == 3 { Position { y: 0, x: 2 } }
                else { Position { y: -2i32, x: 0 } }
            } else if step == 1 {
                if i == 0 { Position { y: -1i32, x: 1 } }
                else if i == 1 { Position { y: 0, x: 0 } }
                else if i == 2 { Position { y: 1, x: -1i32 } }
                else if i == 3 { Position { y: -2i32, x: 0 } }
                else { Position { y: 0, x: -2i32 } }
            } else if step == 2 {
                if i == 0 { Position { y: -1i32, x: -1i32 } }
                else if i == 1 { Position { y: 0, x: 0 } }
                else if i == 2 { Position { y: 1, x: 1 } }
                else if i == 3 { Position { y: 0, x: -2i32 } }
                else { Position { y: 2, x: 0 } }
            } else {
                if i == 0 { Position { y: 1, x: -1i32 } }
                else if i == 1 { Position { y: 0, x: 0 } }
                else if i == 2 { Position { y: -1i32, x: 1 } }
                else if i == 3 { Position { y: 2, x: 0 } }
                else { Position { y: 0, x: 2 } }
            }
        },
        Label::O | Label::BaneO | Label::BaneX => Position { y: 0, x: 0 },
    }
}

/// One whole table row: the per-cell deltas of a label at one step.
pub open spec fn rotation_step(label: Label, step: int) -> Seq<Delta> {
    Seq::new(cell_count(label), |i: int| rotation_delta(label, step, i))
}

/// Executable mirror of [`rotation_delta`].
fn rotation_delta_at(label: &Label, step: usize, i: usize) -> (d: Delta)
    requires
        step < cycle_length(*label),
        i < cell_count(*label),
    ensures
        d == rotation_delta(*label, step as int, i as int),
{
    match label {
        Label::T => {
            if step == 0 {
                if i == 0 { Position { y: 0, x: 0 } }
                else if i == 1 { Position { y: 0, x: 0 } }
                else if i == 2 { Position { y: -1i32, x: -1i32 } }
                else { Position { y: 0, x: 0 } }
            } else if step == 1 {
                if i == 0 { Position { y: 0, x: 0 } }
                else if i == 1 { Position { y: 0, x: 0 } }
                else if i == 2 { Position { y: 0, x: 0 } }
                else { Position { y: -1i32, x: 1 } }
            } else if step == 2 {
                if i == 0 { Position { y: 1, x: 1 } }
                else if i == 1 { Position { y: 0, x: 0 } }
                else if i == 2 { Position { y: 0, x: 0 } }
                else { Position { y: 0, x: 0 } }
            } else {
                if i == 0 { Position { y: -1i32, x: -1i32 } }
                else if i == 1 { Position { y: 0, x: 0 } }
                else if i == 2 { Position { y: 1, x: 1 } }
                else { Position { y: 1, x: -1i32 } }
            }
        },
        Label::I => {
            if step == 0 {
                if i == 0 { Position { y: -2i32, x: 2 } }
                else if i == 1 { Position { y: -1i32, x: 1 } }
                else if i == 2 { Position { y: 0, x: 0 } }
                else { Position { y: 1, x: -1i32 } }
            } else {
                if i == 0 { Position { y: 2, x: -2i32 } }
                else if i == 1 { Position { y: 1, x: -1i32 } }
                else if i == 2 { Position { y: 0, x: 0 } }
                else { Position { y: -1i32, x: 1 } }
            }
        },
        Label::L => {
            if step == 0 {
                if i == 0 { Position { y: -1i32, x: 0 } }
                else if i == 1 { Position { y: 0, x: 0 } }
                else if i == 2 { Position { y: -1i32, x: -1i32 } }
                else { Position { y: 0, x: 1 } }
            } else if step == 1 {
                if i == 0 { Position { y: 1, x: 0 } }
                else if i == 1 { Position { y: 0, x: 0 } }
                else if i == 2 { Position { y: 0, x: 1 } }
                else { Position { y: -1i32, x: 1 } }
            } else if step == 2 {
                if i == 0 { Position { y: 1, x: 1 } }
                else if i == 1 { Position { y: 0, x: 0 } }
                else if i == 2 { Position { y: 0, x: -1i32 } }
                else { Position { y: 1, x: 0 } }
            } else {
                if i == 0 { Position { y: -1i32, x: -1i32 } }
                else if i == 1 { Position { y: 0, x: 0 } }
                else if i == 2 { Position { y: 1, x: 1 } }
                else { Position { y: 0, x: -2i32 } }
            }
        },
        Label::J => {
            if step == 0 {
                if i == 0 { Position { y: -1i32, x: 1 } }
                else if i == 1 { Position { y: 0, x: 0 } }
                else if i == 2 { Position { y: 1, x: -1i32 } }
                else { Position { y: 0, x: -2i32 } }
            } else if step == 1 {
                if i == 0 { Position { y: 0, x: -1i32 } }
                else if i == 1 { Position { y: 0, x: 0 } }
                else if i == 2 { Position { y: -1i32, x: 1 } }
                else { Position { y: -1i32, x: 0 } }
            } else if step == 2 {
                if i == 0 { Position { y: 0, x: 1 } }
                else if i == 1 { Position { y: 0, x: 0 } }
                else if i == 2 { Position { y: -1i32, x: 0 } }
                else { Position { y: 1, x: 1 } }
            } else {
                if i == 0 { Position { y: 1, x: -1i32 } }
                else if i == 1 { Position { y: 0, x: 0 } }
                else if i == 2 { Position { y: 1, x: 0 } }
                else { Position { y: 0, x: 1 } }
            }
        },
        Label::S => {
            if step == 0 {
                if i == 0 { Position { y: 0, x: 2 } }
                else if i == 1 { Position { y: -2i32, x: 0 } }
                else if i == 2 { Position { y: 0, x: 0 } }
                else { Position { y: 0, x: 0 } }
            } else {
                if i == 0 { Position { y: 0, x: -2i32 } }
                else if i == 1 { Position { y: 2, x: 0 } }
                else if i == 2 { Position { y: 0, x: 0 } }
                else { Position { y: 0, x: 0 } }
            }
        },
        Label::Z => {
            if step == 0 {
                if i == 0 { Position { y: 2, x: 1 } }
                else if i == 1 { Position { y: 0, x: 1 } }
                else if i == 2 { Position { y: 0, x: 0 } }
                else { Position { y: 0, x: 0 } }
            } else {
                if i == 0 { Position { y: -2i32, x: -1i32 } }
                else if i == 1 { Position { y: 0, x: -1i32 } }
                else if i == 2 { Position { y: 0, x: 0 } }
                else { Position { y: 0, x: 0 } }
            }
        },
        Label::BaneT => {
            if step == 0 {
                if i == 0 { Position { y: 0, x: 0 } }
                else if i == 1 { Position { y: 1, x: -1i32 } }
                else if i == 2 { Position { y: 1, x: 0 } }
                else if i == 3 { Position { y: 0, x: 0 } }
                else { Position { y: 0, x: -1i32 } }
            } else if step == 1 {
                if i == 0 { Position { y: 0, x: 1 } }
                else if i == 1 { Position { y: 1, x: 1 } }
                else if i == 2 { Position { y: 1, x: 0 } }
                else if i == 3 { Position { y: 0, x: 0 } }
                else { Position { y: 0, x: 0 } }
            } else if step == 2 {
                if i == 0 { Position { y: 0, x: 1 } }
                else if i == 1 { Position { y: -1i32, x: 1 } }
                else if i == 2 { Position { y: 0, x: 0 } }
                else if i == 3 { Position { y: 0, x: 0 } }
                else { Position { y: -1i32, x: 0 } }
            } else {
                if i == 0 { Position { y: 0, x: -2i32 } }
                else if i == 1 { Position { y: -1i32, x: -1i32 } }
                else if i == 2 { Position { y: -2i32, x: 0 } }
                else if i == 3 { Position { y: 0, x: 0 } }
                else { Position { y: 1, x: 1 } }
            }
        },
        Label::BaneS => {
            if step == 0 {
                if i == 0 { Position { y: 0, x: 2 } }
                else if i == 1 { Position { y: 1, x: 1 } }
                else if i == 2 { Position { y: 0, x: 0 } }
                else if i == 3 { Position { y: 1, x: -1i32 } }
                else { Position { y: 0, x: -2i32 } }
            } else if step == 1 {
                if i == 0 { Position { y: -2i32, x: 0 } }
                else if i == 1 { Position { y: -1i32, x: 1 } }
                else if i == 2 { Position { y: 0, x: 0 } }
                else if i == 3 { Position { y: 1, x: 1 } }
                else { Position { y: 2, x: 0 } }
            } else if step == 2 {
                if i == 0 { Position { y: 0, x: -2i32 } }
                else if i == 1 { Position { y: -1i32, x: -1i32 } }
                else if i == 2 { Position { y: 0, x: 0 } }
                else if i == 3 { Position { y: -1i32, x: 1 } }
                else { Position { y: 0, x: 2 } }
            } else {
                if i == 0 { Position { y: 2, x: 0 } }
                else if i == 1 { Position { y: 1, x: -1i32 } }
                else if i == 2 { Position { y: 0, x: 0 } }
                else if i == 3 { Position { y: -1i32, x: -1i32 } }
                else { Position { y: -2i32, x: 0 } }
            }
        },
        Label::BaneI => {
            if step == 0 {
                if i == 0 { Position { y: -2i32, x: 2 } }
                else if i == 1 { Position { y: -1i32, x: 1 } }
                else if i == 2 { Position { y: 0, x: 0 } }
                else if i == 3 { Position { y: 1, x: -1i32 } }
                else { Position { y: 2, x: -2i32 } }
            } else {
                if i == 0 { Position { y: 2, x: -2i32 } }
                else if i == 1 { Position { y: 1, x: -1i32 } }
                else if i == 2 { Position { y: 0, x: 0 } }
                else if i == 3 { Position { y: -1i32, x: 1 } }
                else { Position { y: -2i32, x: 2 } }
            }
        },
        Label::BaneL => {
            if step == 0 {
                if i == 0 { Position { y: 0, x: 0 } }
                else if i == 1 { Position { y: 2, x: 0 } }
                else if i == 2 { Position { y: 2, x: 0 } }
                else if i == 3 { Position { y: 0, x: 0 } }
                else { Position { y: 0, x: 0 } }
            } else if step == 1 {
                if i == 0 { Position { y: 0, x: 2 } }
                else if i == 1 { Position { y: 0, x: 0 } }
                else if i == 2 { Position { y: 0, x: 0 } }
                else if i == 3 { Position { y: 0, x: 2 } }
                else { Position { y: 0, x: 0 } }
            } else if step == 2 {
                if i == 0 { Position { y: 0, x: 0 } }
                else if i == 1 { Position { y: -2i32, x: 0 } }
                else if i == 2 { Position { y: 0, x: 0 } }
                else if i == 3 { Position { y: 0, x: 0 } }
                else { Position { y: -2i32, x: 0 } }
            } else {
                if i == 0 { Position { y: 0, x: -2i32 } }
                else if i == 1 { Position { y: 0, x: 0 } }
                else if i == 2 { Position { y: -2i32, x: 0 } }
                else if i == 3 { Position { y: 0, x: -2i32 } }
                else { Position { y: 2, x: 0 } }
            }
        },
        Label::BaneN => {
            if step == 0 {
                if i == 0 { Position { y: 1, x: 1 } }
                else if i == 1 { Position { y: 0, x: 0 } }
                else if i == 2 { Position { y: -1i32, x: -1i32 } }
                else if i == 3 { Position { y: 0, x: 2 } }
                else { Position { y: -2i32, x: 0 } }
            } else if step == 1 {
                if i == 0 { Position { y: -1i32, x: 1 } }
                else if i == 1 { Position { y: 0, x: 0 } }
                else if i == 2 { Position { y: 1, x: -1i32 } }
                else if i == 3 { Position { y: -2i32, x: 0 } }
                else { Position { y: 0, x: -2i32 } }
            } else if step == 2 {
                if i == 0 { Position { y: -1i32, x: -1i32 } }
                else if i == 1 { Position { y: 0, x: 0 } }
                else if i == 2 { Position { y: 1, x: 1 } }
                else if i == 3 { Position { y: 0, x: -2i32 } }
                else { Position { y: 2, x: 0 } }
            } else {
                if i == 0 { Position { y: 1, x: -1i32 } }
                else if i == 1 { Position { y: 0, x: 0 } }
                else if i == 2 { Position { y: -1i32, x: 1 } }
                else if i == 3 { Position { y: 2, x: 0 } }
                else { Position { y: 0, x: 2 } }
            }
        },
        Label::O | Label::BaneO | Label::BaneX => Position { y: 0, x: 0 },
    }
}

/// One rotation-table row as a vector: the per-cell deltas of the
/// label at the given orientation step.
pub fn rotation_vectors(label: &Label, step: usize) -> (v: Vec<Delta>)
    requires
        step < cycle_length(*label),
    ensures
        v@ == rotation_step(*label, step as int),
{
    let count = label_cell_count(label);
    let mut v: Vec<Delta> = Vec::new();
    let mut i: usize = 0;
    while i < count
        invariant
            i <= count,
            count == cell_count(*label),
            step < cycle_length(*label),
            v@ =~= Seq::new(i as nat, |j: int| rotation_delta(*label, step as int, j)),
        decreases count - i,
    {
        v.push(rotation_delta_at(label, step, i));
        i += 1;
    }
    proof {
        assert(v@ =~= rotation_step(*label, step as int));
    }
    v
}

/// The candidate cell list after one rotation step: each cell plus its
/// table delta, the step taken modulo the label's cycle; unchanged for
/// the square labels.
pub open spec fn rotated_cells(ps: Seq<Position>, label: Label, orientation: int) -> Seq<
    Position,
> {
    if is_square(label) {
        ps
    } else {
        Seq::new(
            ps.len(),
            |i: int| pos_add(ps[i], rotation_delta(label, orientation % (cycle_length(label) as int), i)),
        )
    }
}

/// All the additions of one rotation step stay inside `i32`.
pub open spec fn rotation_fits(ps: Seq<Position>, label: Label, orientation: int) -> bool {
    is_square(label) || (forall|i: int|
        0 <= i < ps.len() ==> pos_add_fits(
            #[trigger] ps[i],
            rotation_delta(label, orientation % (cycle_length(label) as int), i),
        ))
}

/// Clone a cell list, element for element.
pub fn clone_positions(v: &Vec<Position>) -> (r: Vec<Position>)
    ensures
        r@ == v@,
{
    let r = v.clone();
    proof {
        assert(r@ =~= v@);
    }
    r
}

/// The candidate cell list for rotating a piece one step out of the
/// given orientation. Pure: the piece itself is untouched, and the
/// caller is responsible for validating the candidate against the
/// board before adopting it.
pub fn rotate_block(block: &Block, orientation: u8) -> (r: Vec<Position>)
    requires
        orientation < 4,
        block_wf(*block),
        rotation_fits(block.positions@, block.label, orientation as int),
    ensures
        r@ == rotated_cells(block.positions@, block.label, orientation as int),
{
    match block.label {
        // No point rotating the square blocks.
        Label::O | Label::BaneO | Label::BaneX => {
            return clone_positions(&block.positions);
        },
        _ => {},
    }
    let cyc = label_cycle_length(&block.label);
    let step = (orientation as usize) % cyc;
    let deltas = rotation_vectors(&block.label, step);
    let mut out: Vec<Position> = Vec::new();
    let mut i: usize = 0;
    while i < block.positions.len()
        invariant
            i <= block.positions@.len(),
            block_wf(*block),
            !is_square(block.label),
            orientation < 4,
            rotation_fits(block.positions@, block.label, orientation as int),
            step == (orientation as int) % (cycle_length(block.label) as int),
            deltas@ == rotation_step(block.label, step as int),
            out@ =~= Seq::new(
                i as nat,
                |j: int| pos_add(block.positions@[j], rotation_delta(block.label, step as int, j)),
            ),
        decreases block.positions@.len() - i,
    {
        out.push(block.positions[i] + deltas[i]);
        i += 1;
    }
    proof {
        assert(out@ =~= rotated_cells(block.positions@, block.label, orientation as int));
    }
    out
}

/// Every displacement in the rotation tables is small: at most three
/// cells along either axis.
pub proof fn lemma_rotation_delta_small(label: Label, step: int, i: int)
    ensures
        -3 <= rotation_delta(label, step, i).x <= 3,
        -3 <= rotation_delta(label, step, i).y <= 3,
{
}

/// Room enough around a coordinate that a few table steps can never
/// reach the edge of `i32`.
pub open spec fn rotation_headroom(p: Position) -> bool {
    &&& i32::MIN + 16 <= p.x <= i32::MAX - 16
    &&& i32::MIN + 16 <= p.y <= i32::MAX - 16
}

/// Rotation round-trip identity: stepping a well-formed cell list
/// through a label's full orientation cycle (steps 0,1,2,3 — or 0,1
/// for the two-step labels) returns every cell to its original
/// position exactly.
pub proof fn lemma_rotation_cycle_identity(ps: Seq<Position>, label: Label)
    requires
        ps.len() == cell_count(label),
        forall|i: int| 0 <= i < ps.len() ==> rotation_headroom(#[trigger] ps[i]),
    ensures
        rotated_cells(
            rotated_cells(rotated_cells(rotated_cells(ps, label, 0), label, 1), label, 2),
            label,
            3,
        ) == ps,
        cycle_length(label) == 2 ==> rotated_cells(rotated_cells(ps, label, 0), label, 1) == ps,
{
    if is_square(label) {
    } else {
        let r1 = rotated_cells(ps, label, 0);
        let r2 = rotated_cells(r1, label, 1);
        let r3 = rotated_cells(r2, label, 2);
        let r4 = rotated_cells(r3, label, 3);
        assert forall|i: int| 0 <= i < ps.len() implies r4[i] == ps[i] by {
            assert(rotation_headroom(ps[i]));
        }
        assert(r4 =~= ps);
        if cycle_length(label) == 2 {
            assert forall|i: int| 0 <= i < ps.len() implies r2[i] == ps[i] by {
                assert(rotation_headroom(ps[i]));
            }
            assert(r2 =~= ps);
        }
    }
}

} // verus!
