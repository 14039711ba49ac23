use vstd::prelude::*;

use crate::cell::{flipped, live, next_state, rule, Cell};

verus! {

/// The mathematical model of a grid: its dimensions and its cells in
/// row-major order (the cell at `row`, `column` has index
/// `row * width + column`).
pub struct Grid {
    pub width: nat,
    pub height: nat,
    pub cells: Seq<Cell>,
}

/// The seed pattern of a new grid: the cell at linear index `i` starts alive
/// when `i` is a multiple of 2 or of 7.
pub open spec fn seed_cell(i: int) -> Cell {
    if i % 2 == 0 || i % 7 == 0 {
        Cell::Alive
    } else {
        Cell::Dead
    }
}

/// The seed pattern over `n` cells.
pub open spec fn seed(n: nat) -> Seq<Cell> {
    Seq::new(n, |i: int| seed_cell(i))
}

/// The grid after `k` generations.
pub open spec fn generations(g: Grid, k: nat) -> Grid
    decreases k,
{
    if k == 0 {
        g
    } else {
        generations(g, (k - 1) as nat).next()
    }
}

impl Grid {
    /// Both dimensions are positive and there is one cell per coordinate.
    pub open spec fn wf(self) -> bool {
        &&& self.width >= 1
        &&& self.height >= 1
        &&& self.cells.len() == self.width * self.height
    }

    pub open spec fn in_bounds(self, row: int, column: int) -> bool {
        0 <= row < self.height && 0 <= column < self.width
    }

    pub open spec fn index(self, row: int, column: int) -> int {
        row * self.width + column
    }

    pub open spec fn cell(self, row: int, column: int) -> Cell {
        self.cells[self.index(row, column)]
    }

    /// What the offset (`delta_row`, `delta_col`) from (`row`, `column`)
    /// adds to the neighbour count: the wrapped cell there, if alive, unless
    /// the offset is (0, 0), the cell itself.
    pub open spec fn offset_live(self, row: int, column: int, delta_row: int, delta_col: int) -> nat {
        if delta_row == 0 && delta_col == 0 {
            0
        } else {
            live(
                self.cell(
                    (row + delta_row) % (self.height as int),
                    (column + delta_col) % (self.width as int),
                ),
            )
        }
    }

    /// The offsets of one row delta, the column deltas being `width - 1`, 0
    /// and 1.
    pub open spec fn offset_row_live(self, row: int, column: int, delta_row: int) -> nat {
        self.offset_live(row, column, delta_row, self.width - 1) + self.offset_live(
            row,
            column,
            delta_row,
            0,
        ) + self.offset_live(row, column, delta_row, 1)
    }

    /// The live neighbour count of a cell: a sum over the offsets whose row
    /// delta is `height - 1`, 0 or 1 and whose column delta is `width - 1`, 0
    /// or 1, each taken modulo the grid's dimensions. Each offset counts once,
    /// also where two of them reach the same cell on a grid one cell wide or
    /// high.
    pub open spec fn neighbor_count(self, row: int, column: int) -> nat {
        self.offset_row_live(row, column, self.height - 1) + self.offset_row_live(row, column, 0)
            + self.offset_row_live(row, column, 1)
    }

    /// The next generation: every cell gets the rule applied to its state and
    /// live neighbour count in this one.
    pub open spec fn next(self) -> Grid {
        Grid {
            width: self.width,
            height: self.height,
            cells: Seq::new(
                self.cells.len(),
                |i: int|
                    rule(
                        self.cells[i],
                        self.neighbor_count(i / (self.width as int), i % (self.width as int)),
                    ),
            ),
        }
    }

    /// The grid with one cell replaced.
    pub open spec fn with_cell(self, row: int, column: int, value: Cell) -> Grid {
        Grid { cells: self.cells.update(self.index(row, column), value), ..self }
    }

    /// The grid with one cell flipped.
    pub open spec fn toggled(self, row: int, column: int) -> Grid {
        self.with_cell(row, column, flipped(self.cell(row, column)))
    }
}

/// A coordinate inside the grid has an index inside the cell sequence.
pub proof fn lemma_index_in_bounds(width: nat, height: nat, row: int, column: int)
    requires
        0 <= row < height,
        0 <= column < width,
    ensures
        0 <= row * width <= row * width + column < width * height,
        row * width + column <= (height - 1) * width + column,
{
    assert(0 <= row * width <= (height - 1) * width) by (nonlinear_arith)
        requires
            0 <= row < height,
    ;
    assert((height - 1) * width + column < width * height) by (nonlinear_arith)
        requires
            0 <= column < width,
            height >= 1,
    ;
}

/// The row of a linear index inside the cell sequence is inside the grid.
pub proof fn lemma_row_in_bounds(width: nat, height: nat, i: int)
    requires
        width >= 1,
        0 <= i < width * height,
    ensures
        0 <= i / (width as int) < height,
        0 <= i % (width as int) < width,
{
    assert(i / (width as int) < height) by (nonlinear_arith)
        requires
            width >= 1,
            0 <= i < width * height,
    ;
    assert(0 <= i / (width as int)) by (nonlinear_arith)
        requires
            width >= 1,
            0 <= i,
    ;
}

/// A game of Life: a grid of fixed size that a host advances one generation
/// at a time and whose cells it may flip.
pub struct App {
    width: u32,
    height: u32,
    cells: Vec<Cell>,
}

impl View for App {
    type V = Grid;

    closed spec fn view(&self) -> Grid {
        Grid { width: self.width as nat, height: self.height as nat, cells: self.cells@ }
    }
}

impl App {
    #[verifier::type_invariant]
    pub(crate) open spec fn inv(&self) -> bool {
        &&& self@.wf()
        &&& self@.cells.len() <= usize::MAX
    }

    /// A 64 by 64 grid filled with the seed pattern.
    pub fn new() -> (app: App)
        ensures
            app@.width == 64,
            app@.height == 64,
            app@.cells == seed(64 * 64),
    {
        App::with_dimensions(64, 64)
    }

    /// A grid of the given size filled with the seed pattern.
    pub fn with_dimensions(width: u32, height: u32) -> (app: App)
        requires
            width >= 1,
            height >= 1,
            width * height <= usize::MAX,
        ensures
            app@.width == width,
            app@.height == height,
            app@.cells == seed((width * height) as nat),
    {
        let n: usize = width as usize * height as usize;
        let mut cells: Vec<Cell> = Vec::with_capacity(n);
        let mut i: usize = 0;
        while i < n
            invariant
                i <= n,
                cells@ == seed(i as nat),
            decreases n - i,
        {
            let cell = if i % 2 == 0 || i % 7 == 0 {
                Cell::Alive
            } else {
                Cell::Dead
            };
            cells.push(cell);
            i = i + 1;
            assert(cells@ =~= seed(i as nat));
        }
        assert(cells@.len() == width * height);
        App { width, height, cells }
    }

    pub fn width(&self) -> (r: u32)
        ensures
            r == self@.width,
    {
        self.width
    }

    pub fn height(&self) -> (r: u32)
        ensures
            r == self@.height,
    {
        self.height
    }

    /// The index of a coordinate in the row-major cell array.
    pub fn get_index(&self, row: u32, column: u32) -> (r: usize)
        requires
            self@.in_bounds(row as int, column as int),
        ensures
            r == self@.index(row as int, column as int),
            r < self@.cells.len(),
    {
        proof {
            use_type_invariant(self);
            lemma_index_in_bounds(self.width as nat, self.height as nat, row as int, column as int);
        }
        row as usize * self.width as usize + column as usize
    }

    pub fn cell_at(&self, row: u32, column: u32) -> (r: Cell)
        requires
            self@.in_bounds(row as int, column as int),
        ensures
            r == self@.cell(row as int, column as int),
    {
        self.cells[self.get_index(row, column)]
    }

    pub fn set_cell(&mut self, row: u32, column: u32, value: Cell)
        requires
            old(self)@.in_bounds(row as int, column as int),
        ensures
            final(self)@ == old(self)@.with_cell(row as int, column as int, value),
    {
        proof {
            use_type_invariant(&*self);
        }
        let idx = self.get_index(row, column);
        self.cells[idx] = value;
    }

    /// The number of live cells among the neighbours of (`row`, `column`),
    /// counted once per offset as `Grid::neighbor_count` says.
    pub fn live_neighbor_count(&self, row: u32, column: u32) -> (count: u8)
        requires
            self@.in_bounds(row as int, column as int),
        ensures
            count == self@.neighbor_count(row as int, column as int),
            count <= 8,
    {
        proof {
            use_type_invariant(self);
        }
        let up = self.height - 1;
        self.row_neighbor_count(row, column, up) + self.row_neighbor_count(row, column, 0)
            + self.row_neighbor_count(row, column, 1)
    }

    /// The part of the neighbour count that comes from one row delta.
    fn row_neighbor_count(&self, row: u32, column: u32, delta_row: u32) -> (count: u8)
        requires
            self@.in_bounds(row as int, column as int),
            delta_row <= self@.height,
        ensures
            count == self@.offset_row_live(row as int, column as int, delta_row as int),
            count <= 3,
            delta_row == 0 ==> count <= 2,
    {
        proof {
            use_type_invariant(self);
        }
        let left = self.width - 1;
        self.offset_live(row, column, delta_row, left) + self.offset_live(row, column, delta_row, 0)
            + self.offset_live(row, column, delta_row, 1)
    }

    /// What one offset adds to the neighbour count.
    fn offset_live(&self, row: u32, column: u32, delta_row: u32, delta_col: u32) -> (count: u8)
        requires
            self@.in_bounds(row as int, column as int),
            delta_row <= self@.height,
            delta_col <= self@.width,
        ensures
            count == self@.offset_live(row as int, column as int, delta_row as int, delta_col as int),
            count <= 1,
    {
        proof {
            use_type_invariant(self);
        }
        if delta_row == 0 && delta_col == 0 {
            return 0;
        }
        let neighbor_row = ((row as u64 + delta_row as u64) % self.height as u64) as u32;
        let neighbor_col = ((column as u64 + delta_col as u64) % self.width as u64) as u32;
        let idx = self.get_index(neighbor_row, neighbor_col);
        self.cells[idx].live_count()
    }

    /// Advances one generation. Every cell of the next generation is computed
    /// from the current one into a new buffer, which then replaces the cells.
    pub fn tick(&mut self)
        ensures
            final(self)@ == old(self)@.next(),
            final(self)@.width == old(self)@.width,
            final(self)@.height == old(self)@.height,
    {
        proof {
            use_type_invariant(&*self);
        }
        let n = self.cells.len();
        let width = self.width as usize;
        let mut next: Vec<Cell> = Vec::with_capacity(n);
        let mut i: usize = 0;
        while i < n
            invariant
                *self == *old(self),
                self@.wf(),
                n == self@.cells.len(),
                width == self@.width,
                i <= n,
                next@.len() == i,
                forall|k: int| 0 <= k < i ==> next@[k] == #[trigger] self@.next().cells[k],
            decreases n - i,
        {
            proof {
                lemma_row_in_bounds(self@.width, self@.height, i as int);
            }
            let row = (i / width) as u32;
            let column = (i % width) as u32;
            let live_neighbors = self.live_neighbor_count(row, column);
            next.push(next_state(self.cells[i], live_neighbors));
            i = i + 1;
        }
        assert(next@ =~= self@.next().cells);
        self.cells = next;
    }

    /// Flips the cell at (`row`, `column`) between alive and dead.
    pub fn toggle(&mut self, row: u32, column: u32)
        requires
            old(self)@.in_bounds(row as int, column as int),
        ensures
            final(self)@ == old(self)@.toggled(row as int, column as int),
    {
        proof {
            use_type_invariant(&*self);
        }
        let value = self.cell_at(row, column).flip();
        self.set_cell(row, column, value);
    }
}

} // verus!
