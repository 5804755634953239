//! Facts about neighbor counts and generations that hold of every grid.

use crate::conways::{
    alive_at, all_dead, neighbor_count, next_generation, next_state, rectangular, CellState,
};
use vstd::prelude::*;

verus! {

/// A neighbor count never exceeds eight.
pub proof fn lemma_neighbor_count_bounds(cells: Seq<Seq<CellState>>, x: int, y: int)
    ensures
        0 <= neighbor_count(cells, x, y) <= 8,
{
}

/// Where no cell is alive, every neighbor count is zero.
pub proof fn lemma_no_life_no_neighbors(cells: Seq<Seq<CellState>>, x: int, y: int)
    requires
        forall|i: int, j: int| !alive_at(cells, i, j),
    ensures
        neighbor_count(cells, x, y) == 0,
{
}

/// In a grid that was just created, every neighbor count is zero.
pub proof fn lemma_all_dead_has_no_neighbors(width: nat, height: nat, x: int, y: int)
    ensures
        rectangular(all_dead(width, height), width, height),
        neighbor_count(all_dead(width, height), x, y) == 0,
{
    lemma_no_life_no_neighbors(all_dead(width, height), x, y);
}

/// 1 if `(x, y)` lies inside a rectangle of the given size, 0 otherwise.
pub open spec fn inside(width: nat, height: nat, x: int, y: int) -> nat {
    if 0 <= x < width && 0 <= y < height {
        1
    } else {
        0
    }
}

/// How many of the eight positions around `(x, y)` lie inside a rectangle of
/// the given size.
pub open spec fn neighbors_inside(width: nat, height: nat, x: int, y: int) -> nat {
    inside(width, height, x - 1, y - 1) + inside(width, height, x, y - 1) + inside(
        width,
        height,
        x + 1,
        y - 1,
    ) + inside(width, height, x - 1, y) + inside(width, height, x + 1, y) + inside(
        width,
        height,
        x - 1,
        y + 1,
    ) + inside(width, height, x, y + 1) + inside(width, height, x + 1, y + 1)
}

/// A cell has no more live neighbors than it has neighbors inside the grid:
/// nothing beyond an edge is counted.
pub proof fn lemma_count_stays_inside(
    cells: Seq<Seq<CellState>>,
    width: nat,
    height: nat,
    x: int,
    y: int,
)
    requires
        rectangular(cells, width, height),
    ensures
        neighbor_count(cells, x, y) <= neighbors_inside(width, height, x, y),
{
}

/// A corner cell has at most three neighbors, and a cell on an edge at most
/// five.
pub proof fn lemma_border_counts(
    cells: Seq<Seq<CellState>>,
    width: nat,
    height: nat,
    x: int,
    y: int,
)
    requires
        rectangular(cells, width, height),
        0 <= x < width,
        0 <= y < height,
    ensures
        (x == 0 || x == width - 1) && (y == 0 || y == height - 1) ==> neighbor_count(cells, x, y)
            <= 3,
        x == 0 || x == width - 1 || y == 0 || y == height - 1 ==> neighbor_count(cells, x, y)
            <= 5,
{
    lemma_count_stays_inside(cells, width, height, x, y);
}

/// A neighbor count depends on the eight surrounding positions only: two
/// grids of one size that agree there give the same count, whatever they
/// hold elsewhere, the opposite edge included.
pub proof fn lemma_count_is_local(
    a: Seq<Seq<CellState>>,
    b: Seq<Seq<CellState>>,
    width: nat,
    height: nat,
    x: int,
    y: int,
)
    requires
        rectangular(a, width, height),
        rectangular(b, width, height),
        forall|i: int, j: int|
            x - 1 <= i <= x + 1 && y - 1 <= j <= y + 1 && 0 <= i < width && 0 <= j < height
                ==> a[j][i] == b[j][i],
    ensures
        neighbor_count(a, x, y) == neighbor_count(b, x, y),
{
}

/// The transition rule, row by row: a live cell with fewer than two live
/// neighbors dies, one with two or three lives on, one with more than three
/// dies; a dead cell comes alive with exactly three and stays dead otherwise.
pub proof fn lemma_transition_table(n: nat)
    ensures
        n < 2 ==> next_state(CellState::Alive, n) == CellState::Dead,
        n == 2 || n == 3 ==> next_state(CellState::Alive, n) == CellState::Alive,
        n > 3 ==> next_state(CellState::Alive, n) == CellState::Dead,
        n == 3 ==> next_state(CellState::Dead, n) == CellState::Alive,
        n != 3 ==> next_state(CellState::Dead, n) == CellState::Dead,
{
}

/// A generation has the size of the one before it, and each of its cells is
/// the transition rule applied to that cell and its neighbor count in the
/// generation before: no cell of the new generation enters another's count.
pub proof fn lemma_next_generation_cellwise(cells: Seq<Seq<CellState>>, width: nat, height: nat)
    requires
        rectangular(cells, width, height),
    ensures
        rectangular(next_generation(cells), width, height),
        forall|x: int, y: int|
            0 <= x < width && 0 <= y < height ==> #[trigger] next_generation(cells)[y][x]
                == next_state(cells[y][x], neighbor_count(cells, x, y)),
{
}

/// Whether the live cells of `cells` are exactly the four of the square
/// block whose top left cell is `(bx, by)`.
pub open spec fn is_block(
    cells: Seq<Seq<CellState>>,
    width: nat,
    height: nat,
    bx: int,
    by: int,
) -> bool {
    &&& rectangular(cells, width, height)
    &&& 0 <= bx && bx + 1 < width
    &&& 0 <= by && by + 1 < height
    &&& forall|x: int, y: int|
        0 <= x < width && 0 <= y < height ==> (#[trigger] cells[y][x] == CellState::Alive <==> bx
            <= x <= bx + 1 && by <= y <= by + 1)
}

/// A block is a still life: alone on a grid of any size, it is its own next
/// generation.
pub proof fn lemma_block_is_still_life(
    cells: Seq<Seq<CellState>>,
    width: nat,
    height: nat,
    bx: int,
    by: int,
)
    requires
        is_block(cells, width, height, bx, by),
    ensures
        next_generation(cells) == cells,
{
    lemma_next_generation_cellwise(cells, width, height);
    assert forall|y: int| 0 <= y < height implies #[trigger] next_generation(cells)[y]
        =~= cells[y] by {}
}

/// Whether the live cells of `cells` are exactly the three of the upright
/// line centered on `(cx, cy)`, with a free column on either side.
pub open spec fn is_vertical_blinker(
    cells: Seq<Seq<CellState>>,
    width: nat,
    height: nat,
    cx: int,
    cy: int,
) -> bool {
    &&& rectangular(cells, width, height)
    &&& 1 <= cx && cx + 1 < width
    &&& 1 <= cy && cy + 1 < height
    &&& forall|x: int, y: int|
        0 <= x < width && 0 <= y < height ==> (#[trigger] cells[y][x] == CellState::Alive <==> x
            == cx && cy - 1 <= y <= cy + 1)
}

/// Whether the live cells of `cells` are exactly the three of the level line
/// centered on `(cx, cy)`, with a free row above and below.
pub open spec fn is_horizontal_blinker(
    cells: Seq<Seq<CellState>>,
    width: nat,
    height: nat,
    cx: int,
    cy: int,
) -> bool {
    &&& rectangular(cells, width, height)
    &&& 1 <= cx && cx + 1 < width
    &&& 1 <= cy && cy + 1 < height
    &&& forall|x: int, y: int|
        0 <= x < width && 0 <= y < height ==> (#[trigger] cells[y][x] == CellState::Alive <==> y
            == cy && cx - 1 <= x <= cx + 1)
}

/// An upright blinker becomes the level one around the same center.
pub proof fn lemma_vertical_blinker_turns(
    cells: Seq<Seq<CellState>>,
    width: nat,
    height: nat,
    cx: int,
    cy: int,
)
    requires
        is_vertical_blinker(cells, width, height, cx, cy),
    ensures
        is_horizontal_blinker(next_generation(cells), width, height, cx, cy),
{
    lemma_next_generation_cellwise(cells, width, height);
}

/// A level blinker becomes the upright one around the same center.
pub proof fn lemma_horizontal_blinker_turns(
    cells: Seq<Seq<CellState>>,
    width: nat,
    height: nat,
    cx: int,
    cy: int,
)
    requires
        is_horizontal_blinker(cells, width, height, cx, cy),
    ensures
        is_vertical_blinker(next_generation(cells), width, height, cx, cy),
{
    lemma_next_generation_cellwise(cells, width, height);
}

/// A blinker has period two: after two generations the grid is what it was.
pub proof fn lemma_blinker_has_period_two(
    cells: Seq<Seq<CellState>>,
    width: nat,
    height: nat,
    cx: int,
    cy: int,
)
    requires
        is_vertical_blinker(cells, width, height, cx, cy),
    ensures
        next_generation(next_generation(cells)) == cells,
{
    let once = next_generation(cells);
    let twice = next_generation(once);
    lemma_vertical_blinker_turns(cells, width, height, cx, cy);
    lemma_horizontal_blinker_turns(once, width, height, cx, cy);
    assert forall|y: int| 0 <= y < height implies #[trigger] twice[y] =~= cells[y] by {}
}

} // verus!
