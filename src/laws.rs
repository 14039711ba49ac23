use vstd::prelude::*;

use vstd::arithmetic::div_mod::{
    lemma_fundamental_div_mod, lemma_mod_sub_multiples_vanish, lemma_small_mod,
};

use crate::cell::{flipped, rule, Cell};
use crate::grid::{generations, lemma_index_in_bounds, lemma_row_in_bounds, Grid};

verus! {

/// Every offset of a neighbour count lands on a cell of the grid.
proof fn lemma_offset_in_bounds(g: Grid, row: int, column: int, delta_row: int, delta_col: int)
    requires
        g.wf(),
        g.in_bounds(row, column),
        0 <= delta_row,
        0 <= delta_col,
    ensures
        0 <= g.index(
            (row + delta_row) % (g.height as int),
            (column + delta_col) % (g.width as int),
        ) < g.cells.len(),
{
    let r = (row + delta_row) % (g.height as int);
    let c = (column + delta_col) % (g.width as int);
    lemma_index_in_bounds(g.width, g.height, r, c);
}

/// On a grid where every cell is dead, every cell has no live neighbour.
pub proof fn lemma_all_dead_no_live_neighbors(g: Grid, row: int, column: int)
    requires
        g.wf(),
        g.in_bounds(row, column),
        forall|i: int| 0 <= i < g.cells.len() ==> g.cells[i] == Cell::Dead,
    ensures
        g.neighbor_count(row, column) == 0,
{
    let h = g.height as int;
    let w = g.width as int;
    assert forall|dr: int, dc: int|
        (dr == h - 1 || dr == 0 || dr == 1) && (dc == w - 1 || dc == 0 || dc == 1) implies #[trigger] g.offset_live(
        row,
        column,
        dr,
        dc,
    ) == 0 by {
        lemma_offset_in_bounds(g, row, column, dr, dc);
    }
}

/// Toggling the same cell twice gives back the grid it started from.
pub proof fn lemma_toggle_twice(g: Grid, row: int, column: int)
    requires
        g.wf(),
        g.in_bounds(row, column),
    ensures
        g.toggled(row, column).toggled(row, column) == g,
        g.toggled(row, column).toggled(row, column).cell(row, column) == g.cell(row, column),
{
    lemma_index_in_bounds(g.width, g.height, row, column);
    let once = g.toggled(row, column);
    assert(once.cell(row, column) == flipped(g.cell(row, column)));
    assert(once.toggled(row, column).cells =~= g.cells);
}

/// The rule table: a live cell with fewer than two or more than three live
/// neighbours dies, with two or three it stays alive; a dead cell with
/// exactly three comes alive and stays dead with any other count.
pub proof fn lemma_rule_table(live_neighbors: nat)
    ensures
        live_neighbors < 2 ==> rule(Cell::Alive, live_neighbors) == Cell::Dead,
        live_neighbors == 2 || live_neighbors == 3 ==> rule(Cell::Alive, live_neighbors)
            == Cell::Alive,
        live_neighbors > 3 ==> rule(Cell::Alive, live_neighbors) == Cell::Dead,
        live_neighbors == 3 ==> rule(Cell::Dead, live_neighbors) == Cell::Alive,
        live_neighbors != 3 ==> rule(Cell::Dead, live_neighbors) == Cell::Dead,
{
}

/// A generation step keeps the grid's dimensions and its well-formedness.
pub proof fn lemma_next_keeps_dimensions(g: Grid)
    requires
        g.wf(),
    ensures
        g.next().width == g.width,
        g.next().height == g.height,
        g.next().wf(),
{
}

/// Any number of generation steps keeps the grid's dimensions.
pub proof fn lemma_generations_keep_dimensions(g: Grid, k: nat)
    requires
        g.wf(),
    ensures
        generations(g, k).width == g.width,
        generations(g, k).height == g.height,
        generations(g, k).wf(),
    decreases k,
{
    if k > 0 {
        lemma_generations_keep_dimensions(g, (k - 1) as nat);
        lemma_next_keeps_dimensions(generations(g, (k - 1) as nat));
    }
}

/// Two equal grids stay equal through any number of generation steps: the
/// step depends on the grid alone.
pub proof fn lemma_generations_deterministic(a: Grid, b: Grid, k: nat)
    requires
        a == b,
    ensures
        generations(a, k) == generations(b, k),
    decreases k,
{
    if k > 0 {
        lemma_generations_deterministic(a, b, (k - 1) as nat);
    }
}

/// Whether (`row`, `column`) is one of the four cells of the 2 by 2 block
/// whose top left cell is (`row0`, `col0`).
pub open spec fn in_block(row0: int, col0: int, row: int, column: int) -> bool {
    (row == row0 || row == row0 + 1) && (column == col0 || column == col0 + 1)
}

/// The grid's live cells are exactly the 2 by 2 block whose top left cell is
/// (`row0`, `col0`), which lies inside the grid without wrapping.
pub open spec fn is_single_block(g: Grid, row0: int, col0: int) -> bool {
    &&& 0 <= row0 && row0 + 1 < g.height
    &&& 0 <= col0 && col0 + 1 < g.width
    &&& forall|row: int, column: int|
        g.in_bounds(row, column) ==> #[trigger] g.cell(row, column) == if in_block(
            row0,
            col0,
            row,
            column,
        ) {
            Cell::Alive
        } else {
            Cell::Dead
        }
}

/// The three coordinates that a neighbour count reaches along one axis of
/// length `n`, written without the modulo.
proof fn lemma_wrapped_steps(n: int, x: int)
    requires
        n >= 1,
        0 <= x < n,
    ensures
        (x + (n - 1)) % n == if x == 0 {
            n - 1
        } else {
            x - 1
        },
        (x + 0) % n == x,
        (x + 1) % n == if x == n - 1 {
            0
        } else {
            x + 1
        },
{
    lemma_small_mod(x as nat, n as nat);
    if x == 0 {
        lemma_small_mod((n - 1) as nat, n as nat);
    } else {
        lemma_mod_sub_multiples_vanish(x + (n - 1), n);
        lemma_small_mod((x - 1) as nat, n as nat);
    }
    if x == n - 1 {
        lemma_mod_sub_multiples_vanish(x + 1, n);
        lemma_small_mod(0, n as nat);
    } else {
        lemma_small_mod((x + 1) as nat, n as nat);
    }
}

/// Around a single block on a grid at least 4 by 4, a cell of the block has
/// three live neighbours and any other cell has a count other than three.
proof fn lemma_block_neighbor_count(g: Grid, row0: int, col0: int, row: int, column: int)
    requires
        g.wf(),
        g.width >= 4,
        g.height >= 4,
        is_single_block(g, row0, col0),
        g.in_bounds(row, column),
    ensures
        in_block(row0, col0, row, column) ==> g.neighbor_count(row, column) == 3,
        !in_block(row0, col0, row, column) ==> g.neighbor_count(row, column) != 3,
{
    lemma_wrapped_steps(g.height as int, row);
    lemma_wrapped_steps(g.width as int, column);
}

/// A single 2 by 2 block on a grid at least 4 by 4 is a still life: the next
/// generation, computed from the current one alone, is the same grid.
pub proof fn lemma_block_still_life(g: Grid, row0: int, col0: int)
    requires
        g.wf(),
        g.width >= 4,
        g.height >= 4,
        is_single_block(g, row0, col0),
    ensures
        g.next() == g,
{
    let w = g.width as int;
    assert forall|i: int| 0 <= i < g.cells.len() implies #[trigger] g.next().cells[i]
        == g.cells[i] by {
        lemma_row_in_bounds(g.width, g.height, i);
        lemma_fundamental_div_mod(i, w);
        let row = i / w;
        let column = i % w;
        assert(row * w == w * row) by (nonlinear_arith);
        assert(g.cell(row, column) == g.cells[i]);
        lemma_block_neighbor_count(g, row0, col0, row, column);
    }
    assert(g.next().cells =~= g.cells);
}

} // verus!
