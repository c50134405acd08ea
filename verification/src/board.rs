//! The occupancy board: a grid of optional colors with paint,
//! occupancy and bounds queries, and full-row clearing.

use vstd::prelude::*;

use crate::block::{Color, Position};

verus! {

/// The board: rows of cells, top row first, each cell empty (`None`)
/// or occupied by a color.
pub type Board = Vec<Vec<Option<Color>>>;

/// The mathematical contents of a board.
pub type Grid = Seq<Seq<Option<Color>>>;

/// The grid a board holds.
pub open spec fn grid_of(board: Board) -> Grid {
    board@.map_values(|row: Vec<Option<Color>>| row@)
}

/// A well-formed grid: at least one row, all rows of one nonzero
/// width, and both extents small enough to live in `i32` coordinates.
pub open spec fn grid_wf(g: Grid) -> bool {
    &&& 1 <= g.len() <= i32::MAX
    &&& 1 <= g[0].len() <= i32::MAX
    &&& forall|y: int| 0 <= y < g.len() ==> #[trigger] g[y].len() == g[0].len()
}

/// Both coordinates fall within the grid's extents.
pub open spec fn in_bounds(g: Grid, p: Position) -> bool {
    &&& 0 <= p.x < g[0].len()
    &&& 0 <= p.y < g.len()
}

/// The cell at `p` holds a color. Meaningful only in bounds.
pub open spec fn occupied(g: Grid, p: Position) -> bool {
    g[p.y as int][p.x as int] is Some
}

/// The sole admission rule for a cell: in bounds and not occupied.
pub open spec fn placeable(g: Grid, p: Position) -> bool {
    in_bounds(g, p) && !occupied(g, p)
}

/// Every cell of the candidate list is independently placeable.
pub open spec fn all_placeable(g: Grid, ps: Seq<Position>) -> bool {
    forall|i: int| 0 <= i < ps.len() ==> placeable(g, #[trigger] ps[i])
}

/// Some listed cell sits at `(x, y)`.
pub open spec fn covers(ps: Seq<Position>, x: int, y: int) -> bool {
    exists|i: int| 0 <= i < ps.len() && ps[i].x == x && ps[i].y == y
}

/// The grid with every listed cell set to `color` and every other cell
/// unchanged.
pub open spec fn painted(g: Grid, ps: Seq<Position>, color: Color) -> Grid {
    Seq::new(
        g.len(),
        |y: int| Seq::new(
            g[y].len(),
            |x: int| if covers(ps, x, y) { Some(color) } else { g[y][x] },
        ),
    )
}

/// A row is full when none of its cells are empty.
pub open spec fn row_full(row: Seq<Option<Color>>) -> bool {
    forall|x: int| 0 <= x < row.len() ==> (#[trigger] row[x]) is Some
}

/// An empty row of the given width.
pub open spec fn blank_row(w: nat) -> Seq<Option<Color>> {
    Seq::new(w, |x: int| None::<Color>)
}

/// `n` empty rows of width `w`.
pub open spec fn blank_rows(n: nat, w: nat) -> Grid {
    Seq::new(n, |y: int| blank_row(w))
}

/// The rows of `g` that are not full, in their original order.
pub open spec fn kept_rows(g: Grid) -> Grid
    decreases g.len(),
{
    if g.len() == 0 {
        Seq::empty()
    } else {
        let rest = kept_rows(g.drop_last());
        if row_full(g.last()) {
            rest
        } else {
            rest.push(g.last())
        }
    }
}

/// How many rows of `g` are full.
pub open spec fn full_row_count(g: Grid) -> nat {
    (g.len() - kept_rows(g).len()) as nat
}

/// The grid after a clear: the full rows removed, and as many blank
/// rows inserted at the top, the other rows keeping their order.
pub open spec fn cleared_grid(g: Grid) -> Grid {
    blank_rows(full_row_count(g), g[0].len()) + kept_rows(g)
}

/// Not-full rows are never more numerous than all rows.
pub proof fn lemma_kept_rows_len(g: Grid)
    ensures
        kept_rows(g).len() <= g.len(),
    decreases g.len(),
{
    if g.len() > 0 {
        lemma_kept_rows_len(g.drop_last());
    }
}

/// Every kept row is one of the grid's rows, so clearing preserves the
/// rows' common width.
pub proof fn lemma_kept_rows_width(g: Grid, w: nat)
    requires
        forall|y: int| 0 <= y < g.len() ==> (#[trigger] g[y]).len() == w,
    ensures
        forall|y: int| 0 <= y < kept_rows(g).len() ==> (#[trigger] kept_rows(g)[y]).len() == w,
    decreases g.len(),
{
    if g.len() > 0 {
        assert forall|y: int| 0 <= y < g.drop_last().len() implies (#[trigger] g.drop_last()[y]).len()
            == w by {
            assert(g.drop_last()[y] == g[y]);
        }
        lemma_kept_rows_width(g.drop_last(), w);
        let rest = kept_rows(g.drop_last());
        assert(g.last() == g[g.len() - 1]);
        assert forall|y: int| 0 <= y < kept_rows(g).len() implies (#[trigger] kept_rows(g)[y]).len()
            == w by {
            if row_full(g.last()) || y < rest.len() {
                assert(kept_rows(g)[y] == rest[y]);
            } else {
                assert(kept_rows(g)[y] == g.last());
            }
        }
    }
}

/// Clearing a board with no full row keeps the board exactly as it
/// was and removes nothing.
pub proof fn lemma_clear_no_full_rows(g: Grid)
    requires
        forall|y: int| 0 <= y < g.len() ==> !row_full(#[trigger] g[y]),
    ensures
        kept_rows(g) == g,
        full_row_count(g) == 0,
        g.len() > 0 ==> cleared_grid(g) == g,
    decreases g.len(),
{
    if g.len() == 0 {
        assert(kept_rows(g) =~= g);
    } else {
        lemma_clear_no_full_rows(g.drop_last());
        assert(kept_rows(g) =~= g);
        assert(cleared_grid(g) =~= g);
    }
}

/// All-or-nothing admission is monotone: a candidate cell list that is
/// accepted as a whole has each of its cells independently placeable
/// against the same grid.
pub proof fn lemma_all_placeable_each(g: Grid, ps: Seq<Position>, i: int)
    requires
        all_placeable(g, ps),
        0 <= i < ps.len(),
    ensures
        placeable(g, ps[i]),
{
}

/// Whether the cell at `position` is occupied. The caller must have
/// bounds-checked: out-of-bounds occupancy is not a meaningful query.
pub fn is_occupied(board: &Board, position: Position) -> (r: bool)
    requires
        grid_wf(grid_of(*board)),
        in_bounds(grid_of(*board), position),
    ensures
        r == occupied(grid_of(*board), position),
{
    proof {
        assert(grid_of(*board).len() == board@.len());
        assert(grid_of(*board)[position.y as int] == board@[position.y as int]@);
    }
    let row: &Vec<Option<Color>> = &board[position.y as usize];
    match row[position.x as usize] {
        Some(_) => true,
        None => false,
    }
}

/// Whether a piece cell may sit at `p`: in bounds and unoccupied.
pub fn can_move_here(board: &Board, p: Position) -> (r: bool)
    requires
        grid_wf(grid_of(*board)),
    ensures
        r == placeable(grid_of(*board), p),
{
    proof {
        assert(grid_of(*board).len() == board@.len());
        assert(grid_of(*board)[0] == board@[0]@);
    }
    if p.x < 0 || p.y < 0 {
        return false;
    }
    if p.x as usize >= board[0].len() {
        return false;
    }
    if p.y as usize >= board.len() {
        return false;
    }
    !is_occupied(board, p)
}

/// Whether every listed cell may sit where it is listed.
pub fn positions_empty_on_board(positions: &Vec<Position>, board: &Board) -> (r: bool)
    requires
        grid_wf(grid_of(*board)),
    ensures
        r == all_placeable(grid_of(*board), positions@),
{
    let mut i: usize = 0;
    while i < positions.len()
        invariant
            i <= positions@.len(),
            grid_wf(grid_of(*board)),
            forall|j: int| 0 <= j < i ==> placeable(grid_of(*board), #[trigger] positions@[j]),
        decreases positions@.len() - i,
    {
        if !can_move_here(board, positions[i]) {
            return false;
        }
        i += 1;
    }
    true
}

/// Whether some listed cell sits at `(x, y)`.
fn covers_cell(positions: &Vec<Position>, x: i32, y: i32) -> (r: bool)
    ensures
        r == covers(positions@, x as int, y as int),
{
    let mut i: usize = 0;
    while i < positions.len()
        invariant
            i <= positions@.len(),
            forall|j: int| 0 <= j < i ==> !(#[trigger] positions@[j].x == x && positions@[j].y
                == y),
        decreases positions@.len() - i,
    {
        let p = positions[i];
        if p.x == x && p.y == y {
            return true;
        }
        i += 1;
    }
    false
}

/// An owned copy of a row, cell for cell.
fn clone_row(row: &Vec<Option<Color>>) -> (r: Vec<Option<Color>>)
    ensures
        r@ == row@,
{
    let r = row.clone();
    proof {
        assert forall|i: int| 0 <= i < row@.len() implies r@[i] == row@[i] by {
            assert(cloned(row@[i], r@[i]));
        }
        assert(r@ =~= row@);
    }
    r
}

/// A freshly allocated empty row of the given width.
pub fn blank_row_vec(w: usize) -> (r: Vec<Option<Color>>)
    ensures
        r@ == blank_row(w as nat),
{
    let mut r: Vec<Option<Color>> = Vec::new();
    let mut x: usize = 0;
    while x < w
        invariant
            x <= w,
            r@ =~= blank_row(x as nat),
        decreases w - x,
    {
        r.push(None);
        x += 1;
    }
    proof {
        assert(r@ =~= blank_row(w as nat));
    }
    r
}

/// The board with every listed cell set to `color`. The caller
/// guarantees the cells are in bounds, having validated the list.
pub fn paint_positions(board: &Board, positions: &Vec<Position>, color: Color) -> (r: Board)
    requires
        grid_wf(grid_of(*board)),
        forall|i: int| 0 <= i < positions@.len() ==> in_bounds(
            grid_of(*board),
            #[trigger] positions@[i],
        ),
    ensures
        grid_of(r) == painted(grid_of(*board), positions@, color),
        grid_wf(grid_of(r)),
        grid_of(r).len() == grid_of(*board).len(),
        grid_of(r)[0].len() == grid_of(*board)[0].len(),
{
    let ghost g = grid_of(*board);
    let mut r: Board = Vec::new();
    let mut y: usize = 0;
    while y < board.len()
        invariant
            y <= board@.len(),
            grid_wf(g),
            g == grid_of(*board),
            grid_of(r) =~~= painted(g, positions@, color).take(y as int),
            r@.len() == y,
        decreases board@.len() - y,
    {
        let row: &Vec<Option<Color>> = &board[y];
        let mut new_row: Vec<Option<Color>> = Vec::new();
        let mut x: usize = 0;
        while x < row.len()
            invariant
                x <= row@.len(),
                grid_wf(g),
                row@ == g[y as int],
                0 <= y < g.len(),
                new_row@ =~= painted(g, positions@, color)[y as int].take(x as int),
            decreases row@.len() - x,
        {
            if covers_cell(positions, x as i32, y as i32) {
                new_row.push(Some(color));
            } else {
                new_row.push(row[x]);
            }
            x += 1;
        }
        r.push(new_row);
        y += 1;
    }
    proof {
        assert(grid_of(r) =~~= painted(g, positions@, color));
    }
    r
}

/// Whether a row has no empty cell.
pub fn is_row_full(row: &Vec<Option<Color>>) -> (r: bool)
    ensures
        r == row_full(row@),
{
    let mut x: usize = 0;
    while x < row.len()
        invariant
            x <= row@.len(),
            forall|j: int| 0 <= j < x ==> (#[trigger] row@[j]) is Some,
        decreases row@.len() - x,
    {
        if row[x].is_none() {
            return false;
        }
        x += 1;
    }
    true
}

/// Remove every full row (detected on the board as given, in one
/// pass), insert as many blank rows at the top, and return the number
/// removed, for scoring.
pub fn delete_full_lines(board: &Board) -> (r: (Board, i32))
    requires
        grid_wf(grid_of(*board)),
    ensures
        grid_of(r.0) == cleared_grid(grid_of(*board)),
        r.1 == full_row_count(grid_of(*board)),
        0 <= r.1 <= grid_of(*board).len(),
        grid_wf(grid_of(r.0)),
        grid_of(r.0).len() == grid_of(*board).len(),
        grid_of(r.0)[0].len() == grid_of(*board)[0].len(),
{
    let ghost g = grid_of(*board);
    let width = board[0].len();
    let mut kept: Board = Vec::new();
    let mut full: usize = 0;
    let mut y: usize = 0;
    while y < board.len()
        invariant
            y <= board@.len(),
            grid_wf(g),
            g == grid_of(*board),
            width == g[0].len(),
            grid_of(kept) =~~= kept_rows(g.take(y as int)),
            full == y - kept_rows(g.take(y as int)).len(),
            kept_rows(g.take(y as int)).len() <= y,
        decreases board@.len() - y,
    {
        proof {
            assert(g.take(y as int + 1).drop_last() =~= g.take(y as int));
            assert(g.take(y as int + 1).last() == g[y as int]);
            lemma_kept_rows_len(g.take(y as int + 1));
        }
        if is_row_full(&board[y]) {
            full += 1;
        } else {
            kept.push(clone_row(&board[y]));
        }
        y += 1;
    }
    proof {
        assert(g.take(g.len() as int) =~= g);
        lemma_kept_rows_len(g);
    }
    let mut result: Board = Vec::new();
    let mut k: usize = 0;
    while k < full
        invariant
            k <= full,
            grid_wf(g),
            width == g[0].len(),
            result@.len() == k,
            forall|j: int| 0 <= j < k ==> (#[trigger] result@[j])@ == blank_row(width as nat),
        decreases full - k,
    {
        result.push(blank_row_vec(width));
        k += 1;
    }
    let mut i: usize = 0;
    while i < kept.len()
        invariant
            i <= kept@.len(),
            grid_wf(g),
            width == g[0].len(),
            grid_of(kept) == kept_rows(g),
            full == full_row_count(g),
            full + kept@.len() == g.len(),
            result@.len() == full + i,
            forall|j: int| 0 <= j < full ==> (#[trigger] result@[j])@ == blank_row(width as nat),
            forall|j: int| full <= j < full + i ==> (#[trigger] result@[j])@ == kept_rows(g)[j
                - full],
        decreases kept@.len() - i,
    {
        proof {
            assert(kept@[i as int]@ == grid_of(kept)[i as int]);
        }
        result.push(clone_row(&kept[i]));
        i += 1;
    }
    proof {
        assert forall|j: int| 0 <= j < result@.len() implies grid_of(result)[j] == cleared_grid(
            g,
        )[j] by {
            assert(grid_of(result)[j] == result@[j]@);
            if j < full {
                assert(cleared_grid(g)[j] == blank_row(g[0].len()));
            } else {
                assert(cleared_grid(g)[j] == kept_rows(g)[j - full]);
            }
        }
        assert(grid_of(result) =~= cleared_grid(g));
        lemma_kept_rows_width(g, g[0].len());
        assert(grid_wf(grid_of(result)));
    }
    (result, full as i32)
}

} // verus!
