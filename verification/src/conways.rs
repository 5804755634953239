//! The grid of cells and the rules that advance it by one generation.

use vstd::prelude::*;

verus! {

/// The state of one cell.
#[derive(Clone, Copy, PartialEq, Eq, Debug, Structural)]
pub enum CellState {
    /// An empty cell.
    Dead,
    /// A populated cell.
    Alive,
}

/// Why a grid operation was refused.
#[derive(Clone, Copy, PartialEq, Eq, Debug, Structural)]
pub enum GridError {
    /// A coordinate pair lies outside the grid.
    OutOfBounds,
    /// A grid was asked for with a width or height of zero.
    InvalidDimensions,
}

/// The state a cell takes in the next generation, given its current state and
/// the number of its live neighbors.
pub open spec fn next_state(current: CellState, neighbors: nat) -> CellState {
    match current {
        CellState::Alive => if neighbors == 2 || neighbors == 3 {
            CellState::Alive
        } else {
            CellState::Dead
        },
        CellState::Dead => if neighbors == 3 {
            CellState::Alive
        } else {
            CellState::Dead
        },
    }
}

/// Applies the transition rule to one cell.
pub fn evolve(current: CellState, neighbors: u8) -> (next: CellState)
    ensures
        next == next_state(current, neighbors as nat),
{
    match current {
        CellState::Alive => if neighbors == 2 || neighbors == 3 {
            CellState::Alive
        } else {
            CellState::Dead
        },
        CellState::Dead => if neighbors == 3 {
            CellState::Alive
        } else {
            CellState::Dead
        },
    }
}

/// Whether `cells` is a rectangle of `height` rows with `width` cells each.
pub open spec fn rectangular(cells: Seq<Seq<CellState>>, width: nat, height: nat) -> bool {
    &&& cells.len() == height
    &&& forall|y: int| 0 <= y < cells.len() ==> (#[trigger] cells[y]).len() == width
}

/// The rectangle of the given size in which every cell is dead.
pub open spec fn all_dead(width: nat, height: nat) -> Seq<Seq<CellState>> {
    Seq::new(height, |y: int| Seq::new(width, |x: int| CellState::Dead))
}

/// Whether column `x` of row `y` lies inside `cells` and holds a live cell.
/// Positions outside the rectangle hold nothing: there is no wraparound.
pub open spec fn alive_at(cells: Seq<Seq<CellState>>, x: int, y: int) -> bool {
    &&& 0 <= y < cells.len()
    &&& 0 <= x < cells[y].len()
    &&& cells[y][x] == CellState::Alive
}

/// What the position `(x, y)` adds to a neighbor count: 1 for a live cell
/// inside `cells`, 0 otherwise.
pub open spec fn live(cells: Seq<Seq<CellState>>, x: int, y: int) -> nat {
    if alive_at(cells, x, y) {
        1
    } else {
        0
    }
}

/// The number of live cells among the eight positions around `(x, y)`.
pub open spec fn neighbor_count(cells: Seq<Seq<CellState>>, x: int, y: int) -> nat {
    live(cells, x - 1, y - 1) + live(cells, x, y - 1) + live(cells, x + 1, y - 1)
        + live(cells, x - 1, y) + live(cells, x + 1, y)
        + live(cells, x - 1, y + 1) + live(cells, x, y + 1) + live(cells, x + 1, y + 1)
}

/// The generation that follows `cells`: every cell is the transition rule
/// applied to its state and its neighbor count in `cells` itself.
pub open spec fn next_generation(cells: Seq<Seq<CellState>>) -> Seq<Seq<CellState>> {
    Seq::new(
        cells.len(),
        |y: int|
            Seq::new(
                cells[y].len(),
                |x: int| next_state(cells[y][x], neighbor_count(cells, x, y)),
            ),
    )
}

/// A fixed-size rectangle of cells with closed boundaries.
pub struct Grid {
    grid: Vec<Vec<CellState>>,
    width: usize,
    height: usize,
}

impl View for Grid {
    type V = Seq<Seq<CellState>>;

    /// The rows of the grid from top to bottom, each from left to right.
    closed spec fn view(&self) -> Seq<Seq<CellState>> {
        Seq::new(self.grid@.len(), |y: int| self.grid@[y]@)
    }
}

impl Grid {
    /// The number of columns.
    pub closed spec fn spec_width(&self) -> nat {
        self.width as nat
    }

    /// The number of rows.
    pub closed spec fn spec_height(&self) -> nat {
        self.height as nat
    }

    /// Whether `(x, y)` names a cell of this grid.
    pub open spec fn in_bounds(&self, x: int, y: int) -> bool {
        0 <= x < self.spec_width() && 0 <= y < self.spec_height()
    }

    /// The invariant of every grid: both dimensions are positive and the
    /// cells form a rectangle of exactly that size.
    pub open spec fn wf(&self) -> bool {
        &&& self.spec_width() > 0
        &&& self.spec_height() > 0
        &&& rectangular(self@, self.spec_width(), self.spec_height())
    }

    /// Creates a grid of the given size with every cell dead. A width or a
    /// height of zero is refused.
    pub fn new(width: usize, height: usize) -> (r: Result<Grid, GridError>)
        ensures
            r is Err <==> width == 0 || height == 0,
            r matches Err(e) ==> e == GridError::InvalidDimensions,
            r matches Ok(g) ==> g.wf() && g.spec_width() == width && g.spec_height() == height
                && g@ == all_dead(width as nat, height as nat),
    {
        if width == 0 || height == 0 {
            return Err(GridError::InvalidDimensions);
        }
        let grid = Self::dead_rows(width, height);
        Ok(Grid { grid, width, height })
    }

    /// Builds `height` rows of `width` dead cells.
    fn dead_rows(width: usize, height: usize) -> (rows: Vec<Vec<CellState>>)
        ensures
            rows@.len() == height,
            forall|y: int| 0 <= y < height ==> (#[trigger] rows@[y])@ == Seq::new(
                width as nat,
                |x: int| CellState::Dead,
            ),
    {
        let mut rows: Vec<Vec<CellState>> = Vec::new();
        let mut y: usize = 0;
        while y < height
            invariant
                y <= height,
                rows@.len() == y,
                forall|j: int| 0 <= j < y ==> (#[trigger] rows@[j])@ == Seq::new(
                    width as nat,
                    |x: int| CellState::Dead,
                ),
            decreases height - y,
        {
            let mut row: Vec<CellState> = Vec::new();
            let mut x: usize = 0;
            while x < width
                invariant
                    x <= width,
                    row@.len() == x,
                    forall|i: int| 0 <= i < x ==> row@[i] == CellState::Dead,
                decreases width - x,
            {
                row.push(CellState::Dead);
                x += 1;
            }
            rows.push(row);
            y += 1;
        }
        rows
    }

    /// The number of columns.
    pub fn width(&self) -> (w: usize)
        ensures
            w == self.spec_width(),
    {
        self.width
    }

    /// The number of rows.
    pub fn height(&self) -> (h: usize)
        ensures
            h == self.spec_height(),
    {
        self.height
    }

    /// Reads the cell in column `x` of row `y`.
    pub fn get(&self, x: usize, y: usize) -> (r: Result<CellState, GridError>)
        requires
            self.wf(),
        ensures
            self.in_bounds(x as int, y as int) ==> r == Ok::<CellState, GridError>(
                self@[y as int][x as int],
            ),
            !self.in_bounds(x as int, y as int) ==> r == Err::<CellState, GridError>(
                GridError::OutOfBounds,
            ),
    {
        if x >= self.width || y >= self.height {
            return Err(GridError::OutOfBounds);
        }
        assert(self@[y as int].len() == self.width);
        Ok(self.grid[y][x])
    }

    /// Overwrites the cell in column `x` of row `y` and leaves every other
    /// cell as it was. Outside the grid nothing is written.
    pub fn set(&mut self, x: usize, y: usize, state: CellState) -> (r: Result<(), GridError>)
        requires
            old(self).wf(),
        ensures
            final(self).wf(),
            final(self).spec_width() == old(self).spec_width(),
            final(self).spec_height() == old(self).spec_height(),
            old(self).in_bounds(x as int, y as int) ==> r is Ok && final(self)@ == old(self)@.update(
                y as int,
                old(self)@[y as int].update(x as int, state),
            ),
            !old(self).in_bounds(x as int, y as int) ==> r == Err::<(), GridError>(
                GridError::OutOfBounds,
            ) && *final(self) == *old(self),
    {
        if x >= self.width || y >= self.height {
            return Err(GridError::OutOfBounds);
        }
        assert(self@[y as int].len() == self.width);
        self.grid[y][x] = state;
        assert(self@ =~~= old(self)@.update(
            y as int,
            old(self)@[y as int].update(x as int, state),
        ));
        Ok(())
    }

    /// Writes `Alive` into the cell in column `x` of row `y`.
    pub fn set_alive(&mut self, x: usize, y: usize) -> (r: Result<(), GridError>)
        requires
            old(self).wf(),
        ensures
            final(self).wf(),
            final(self).spec_width() == old(self).spec_width(),
            final(self).spec_height() == old(self).spec_height(),
            old(self).in_bounds(x as int, y as int) ==> r is Ok && final(self)@ == old(self)@.update(
                y as int,
                old(self)@[y as int].update(x as int, CellState::Alive),
            ),
            !old(self).in_bounds(x as int, y as int) ==> r == Err::<(), GridError>(
                GridError::OutOfBounds,
            ) && *final(self) == *old(self),
    {
        self.set(x, y, CellState::Alive)
    }

    /// Writes `Dead` into the cell in column `x` of row `y`.
    pub fn set_dead(&mut self, x: usize, y: usize) -> (r: Result<(), GridError>)
        requires
            old(self).wf(),
        ensures
            final(self).wf(),
            final(self).spec_width() == old(self).spec_width(),
            final(self).spec_height() == old(self).spec_height(),
            old(self).in_bounds(x as int, y as int) ==> r is Ok && final(self)@ == old(self)@.update(
                y as int,
                old(self)@[y as int].update(x as int, CellState::Dead),
            ),
            !old(self).in_bounds(x as int, y as int) ==> r == Err::<(), GridError>(
                GridError::OutOfBounds,
            ) && *final(self) == *old(self),
    {
        self.set(x, y, CellState::Dead)
    }

    /// Fetches the cell at `(x, y)` if there is one and reports 1 for a live
    /// cell; a position past the right or bottom edge counts as dead.
    fn live_at(&self, x: usize, y: usize) -> (n: u8)
        requires
            self.wf(),
        ensures
            n == live(self@, x as int, y as int),
    {
        if y < self.height && x < self.width {
            match self.grid[y][x] {
                CellState::Alive => 1,
                CellState::Dead => 0,
            }
        } else {
            0
        }
    }

    /// Counts the live cells of row `y` in the columns `x - 1` and `x + 1`,
    /// and in column `x` too when `center` is set.
    fn live_in_row(&self, x: usize, y: usize, center: bool) -> (n: u8)
        requires
            self.wf(),
            x < self.spec_width(),
        ensures
            n == live(self@, x - 1, y as int) + (if center {
                live(self@, x as int, y as int)
            } else {
                0
            }) + live(self@, x + 1, y as int),
    {
        let left: u8 = if x > 0 {
            self.live_at(x - 1, y)
        } else {
            0
        };
        let middle: u8 = if center {
            self.live_at(x, y)
        } else {
            0
        };
        let right: u8 = self.live_at(x + 1, y);
        left + middle + right
    }

    /// Counts the live neighbors of a cell that is known to lie in the grid.
    fn neighbors_of(&self, x: usize, y: usize) -> (n: u8)
        requires
            self.wf(),
            self.in_bounds(x as int, y as int),
        ensures
            n == neighbor_count(self@, x as int, y as int),
            n <= 8,
    {
        let above: u8 = if y > 0 {
            self.live_in_row(x, y - 1, true)
        } else {
            0
        };
        let beside: u8 = self.live_in_row(x, y, false);
        let below: u8 = self.live_in_row(x, y + 1, true);
        above + beside + below
    }

    /// Counts the live cells among the up to eight neighbors of `(x, y)`.
    /// Neighbors that would lie beyond an edge do not exist and count as
    /// nothing.
    pub fn count_neighbors(&self, x: usize, y: usize) -> (r: Result<u8, GridError>)
        requires
            self.wf(),
        ensures
            self.in_bounds(x as int, y as int) ==> r == Ok::<u8, GridError>(
                neighbor_count(self@, x as int, y as int) as u8,
            ) && neighbor_count(self@, x as int, y as int) <= 8,
            !self.in_bounds(x as int, y as int) ==> r == Err::<u8, GridError>(
                GridError::OutOfBounds,
            ),
    {
        if x >= self.width || y >= self.height {
            return Err(GridError::OutOfBounds);
        }
        Ok(self.neighbors_of(x, y))
    }

    /// Advances the grid by one generation. Every cell of the new
    /// generation is computed from the generation before it, and the whole
    /// grid is replaced at once.
    pub fn next_cell_generation(&mut self)
        requires
            old(self).wf(),
        ensures
            final(self).wf(),
            final(self).spec_width() == old(self).spec_width(),
            final(self).spec_height() == old(self).spec_height(),
            final(self)@ == next_generation(old(self)@),
    {
        let mut new_grid: Vec<Vec<CellState>> = Vec::new();
        let mut y: usize = 0;
        while y < self.height
            invariant
                self.wf(),
                *self == *old(self),
                y <= self.height,
                new_grid@.len() == y,
                forall|j: int|
                    0 <= j < y ==> (#[trigger] new_grid@[j])@ == next_generation(self@)[j],
            decreases self.height - y,
        {
            let mut row: Vec<CellState> = Vec::new();
            let mut x: usize = 0;
            while x < self.width
                invariant
                    self.wf(),
                    y < self.height,
                    x <= self.width,
                    row@.len() == x,
                    forall|i: int|
                        0 <= i < x ==> row@[i] == next_state(
                            self@[y as int][i],
                            neighbor_count(self@, i, y as int),
                        ),
                decreases self.width - x,
            {
                let neighbors: u8 = self.neighbors_of(x, y);
                let next = evolve(self.grid[y][x], neighbors);
                row.push(next);
                x += 1;
            }
            new_grid.push(row);
            y += 1;
        }
        self.grid = new_grid;
    }
}

} // verus!
