use game_of_life::conways::{evolve, CellState, Grid};

const A: CellState = CellState::Alive;
const D: CellState = CellState::Dead;

fn grid_from(rows: &[&str]) -> Grid {
    let mut grid = Grid::new(rows[0].len(), rows.len()).unwrap();
    for (y, row) in rows.iter().enumerate() {
        for (x, c) in row.chars().enumerate() {
            if c == 'O' {
                grid.set(x, y, CellState::Alive).unwrap();
            }
        }
    }
    grid
}

fn rows_of(grid: &Grid) -> Vec<String> {
    let mut rows = Vec::new();
    for y in 0..grid.height() {
        let mut row = String::new();
        for x in 0..grid.width() {
            row.push(if grid.get(x, y) == Ok(CellState::Alive) { 'O' } else { '.' });
        }
        rows.push(row);
    }
    rows
}

/// A 3x3 grid whose center is `center` and which has `n` live cells around it.
fn center_with_neighbors(center: CellState, n: usize) -> Grid {
    let around = [(0, 0), (1, 0), (2, 0), (0, 1), (2, 1), (0, 2), (1, 2), (2, 2)];
    let mut grid = Grid::new(3, 3).unwrap();
    grid.set(1, 1, center).unwrap();
    for &(x, y) in around.iter().take(n) {
        grid.set(x, y, CellState::Alive).unwrap();
    }
    grid
}

#[test]
fn evolve_follows_the_table() {
    let alive = [D, D, A, A, D, D, D, D, D];
    let dead = [D, D, D, A, D, D, D, D, D];
    for n in 0..=8u8 {
        assert_eq!(evolve(A, n), alive[n as usize]);
        assert_eq!(evolve(D, n), dead[n as usize]);
    }
}

#[test]
fn live_cell_dies_of_underpopulation() {
    for n in 0..=1 {
        let mut grid = center_with_neighbors(A, n);
        assert_eq!(grid.count_neighbors(1, 1), Ok(n as u8));
        grid.next_cell_generation();
        assert_eq!(grid.get(1, 1), Ok(D));
    }
}

#[test]
fn live_cell_survives_with_two_neighbors() {
    let mut grid = center_with_neighbors(A, 2);
    assert_eq!(grid.count_neighbors(1, 1), Ok(2));
    grid.next_cell_generation();
    assert_eq!(grid.get(1, 1), Ok(A));
}

#[test]
fn live_cell_survives_with_three_neighbors() {
    let mut grid = center_with_neighbors(A, 3);
    assert_eq!(grid.count_neighbors(1, 1), Ok(3));
    grid.next_cell_generation();
    assert_eq!(grid.get(1, 1), Ok(A));
}

#[test]
fn live_cell_dies_of_overpopulation() {
    for n in 4..=8 {
        let mut grid = center_with_neighbors(A, n);
        assert_eq!(grid.count_neighbors(1, 1), Ok(n as u8));
        grid.next_cell_generation();
        assert_eq!(grid.get(1, 1), Ok(D));
    }
}

#[test]
fn dead_cell_comes_alive_with_three_neighbors() {
    let mut grid = center_with_neighbors(D, 3);
    assert_eq!(grid.count_neighbors(1, 1), Ok(3));
    grid.next_cell_generation();
    assert_eq!(grid.get(1, 1), Ok(A));
}

#[test]
fn dead_cell_stays_dead_without_three_neighbors() {
    for n in [0, 1, 2, 4, 5, 6, 7, 8] {
        let mut grid = center_with_neighbors(D, n);
        assert_eq!(grid.count_neighbors(1, 1), Ok(n as u8));
        grid.next_cell_generation();
        assert_eq!(grid.get(1, 1), Ok(D));
    }
}

#[test]
fn generation_keeps_the_size() {
    let mut grid = grid_from(&["..O....", ".O.O...", "..OO..."]);
    grid.next_cell_generation();
    assert_eq!(grid.width(), 7);
    assert_eq!(grid.height(), 3);
}

#[test]
fn dead_grid_stays_dead() {
    let mut grid = Grid::new(4, 4).unwrap();
    grid.next_cell_generation();
    assert_eq!(rows_of(&grid), vec!["....", "....", "....", "...."]);
}

#[test]
fn row_of_three_is_computed_from_one_snapshot() {
    // Updating in place from left to right would kill (1, 1) before its
    // neighbors are counted and leave the grid empty.
    let mut grid = grid_from(&[".....", ".OOO.", "....."]);
    grid.next_cell_generation();
    assert_eq!(rows_of(&grid), vec!["..O..", "..O..", "..O.."]);
}

#[test]
fn block_is_unchanged() {
    let rows = ["....", ".OO.", ".OO.", "...."];
    let mut grid = grid_from(&rows);
    for &(x, y) in [(1, 1), (2, 1), (1, 2), (2, 2)].iter() {
        assert_eq!(grid.count_neighbors(x, y), Ok(3));
    }
    grid.next_cell_generation();
    assert_eq!(rows_of(&grid), rows.to_vec());
    grid.next_cell_generation();
    assert_eq!(rows_of(&grid), rows.to_vec());
}

#[test]
fn block_in_a_corner_is_unchanged() {
    let rows = ["OO...", "OO...", ".....", ".....", "....."];
    let mut grid = grid_from(&rows);
    grid.next_cell_generation();
    assert_eq!(rows_of(&grid), rows.to_vec());
}

#[test]
fn blinker_has_period_two() {
    let upright = [".....", "..O..", "..O..", "..O..", "....."];
    let level = [".....", ".....", ".OOO.", ".....", "....."];
    let mut grid = Grid::new(5, 5).unwrap();
    grid.set(2, 1, CellState::Alive).unwrap();
    grid.set(2, 2, CellState::Alive).unwrap();
    grid.set(2, 3, CellState::Alive).unwrap();
    assert_eq!(rows_of(&grid), upright.to_vec());
    grid.next_cell_generation();
    assert_eq!(rows_of(&grid), level.to_vec());
    grid.next_cell_generation();
    assert_eq!(rows_of(&grid), upright.to_vec());
}

#[test]
fn toad_has_period_two() {
    let first = ["......", "......", "..OOO.", ".OOO..", "......", "......"];
    let second = ["......", "...O..", ".O..O.", ".O..O.", "..O...", "......"];
    let mut grid = grid_from(&first);
    grid.next_cell_generation();
    assert_eq!(rows_of(&grid), second.to_vec());
    grid.next_cell_generation();
    assert_eq!(rows_of(&grid), first.to_vec());
}

#[test]
fn glider_moves_one_cell_diagonally_in_four_generations() {
    let mut grid = grid_from(&[".O....", "..O...", "OOO...", "......", "......", "......"]);
    for _ in 0..4 {
        grid.next_cell_generation();
    }
    assert_eq!(
        rows_of(&grid),
        vec!["......", "..O...", "...O..", ".OOO..", "......", "......"]
    );
}

#[test]
fn edge_cells_have_no_neighbors_beyond_the_edge() {
    // With wraparound the three cells of the top row would each have two
    // neighbors in a grid of width three and survive.
    let mut grid = grid_from(&["O.O", "...", "..."]);
    assert_eq!(grid.count_neighbors(0, 0), Ok(0));
    assert_eq!(grid.count_neighbors(2, 0), Ok(0));
    assert_eq!(grid.count_neighbors(1, 0), Ok(2));
    grid.next_cell_generation();
    assert_eq!(rows_of(&grid), vec!["...", "...", "..."]);
}
