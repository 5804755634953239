//! The decisions of an interactive session: the starting pattern, and what a
//! key press or a mouse button does to the grid.

use crate::conways::{CellState, Grid, GridError};
use vstd::prelude::*;

verus! {

/// Whether generations advance by themselves.
#[derive(Clone, Copy, PartialEq, Eq, Debug, Structural)]
pub enum State {
    /// The grid advances as time passes.
    Running,
    /// The grid stands still and can be edited.
    Paused,
}

impl State {
    /// The other state.
    pub open spec fn spec_toggled(self) -> State {
        match self {
            State::Running => State::Paused,
            State::Paused => State::Running,
        }
    }

    /// Switches between running and paused.
    pub fn toggled(self) -> (next: State)
        ensures
            next == self.spec_toggled(),
    {
        match self {
            State::Running => State::Paused,
            State::Paused => State::Running,
        }
    }
}

/// What the user did since the last frame.
#[derive(Clone, Copy, PartialEq, Eq, Debug)]
pub struct Input {
    /// The pause key was pressed.
    pub toggle: bool,
    /// The button that draws live cells is held down.
    pub draw: bool,
    /// The button that erases cells is held down.
    pub erase: bool,
    /// The column of the cell under the pointer.
    pub x: usize,
    /// The row of the cell under the pointer.
    pub y: usize,
}

impl Input {
    /// The state after this input: the pause key switches it.
    pub open spec fn next_state(self, state: State) -> State {
        if self.toggle {
            state.spec_toggled()
        } else {
            state
        }
    }

    /// Whether this input writes a cell: a button is held while the session
    /// is paused.
    pub open spec fn edits(self, state: State) -> bool {
        self.next_state(state) == State::Paused && (self.draw || self.erase)
    }

    /// What an edit writes. Erasing wins where both buttons are held.
    pub open spec fn brush(self) -> CellState {
        if self.erase {
            CellState::Dead
        } else {
            CellState::Alive
        }
    }
}

/// The smallest width of a grid that holds the starting pattern.
pub const GLIDER_MIN_WIDTH: usize = 15;

/// The smallest height of a grid that holds the starting pattern.
pub const GLIDER_MIN_HEIGHT: usize = 14;

/// Whether `(x, y)` is one of the nine cells of the starting pattern.
pub open spec fn glider_cell(x: int, y: int) -> bool {
    ||| y == 10 && (x == 10 || x == 13)
    ||| y == 11 && x == 14
    ||| y == 12 && (x == 10 || x == 14)
    ||| y == 13 && 11 <= x <= 14
}

/// `cells` with the starting pattern written over it.
pub open spec fn with_glider(cells: Seq<Seq<CellState>>) -> Seq<Seq<CellState>> {
    Seq::new(
        cells.len(),
        |y: int|
            Seq::new(
                cells[y].len(),
                |x: int|
                    if glider_cell(x, y) {
                        CellState::Alive
                    } else {
                        cells[y][x]
                    },
            ),
    )
}

/// Brings the nine cells of the starting pattern to life and leaves the rest
/// of the grid as it is. A grid too small for the pattern is left untouched.
pub fn setup_glider(grid: &mut Grid) -> (r: Result<(), GridError>)
    requires
        old(grid).wf(),
    ensures
        final(grid).wf(),
        final(grid).spec_width() == old(grid).spec_width(),
        final(grid).spec_height() == old(grid).spec_height(),
        old(grid).spec_width() >= GLIDER_MIN_WIDTH && old(grid).spec_height() >= GLIDER_MIN_HEIGHT
            ==> r is Ok && final(grid)@ == with_glider(old(grid)@),
        old(grid).spec_width() < GLIDER_MIN_WIDTH || old(grid).spec_height() < GLIDER_MIN_HEIGHT
            ==> r == Err::<(), GridError>(GridError::OutOfBounds) && *final(grid) == *old(grid),
{
    if grid.width() < GLIDER_MIN_WIDTH || grid.height() < GLIDER_MIN_HEIGHT {
        return Err(GridError::OutOfBounds);
    }
    let _ = grid.set(10, 10, CellState::Alive);
    let _ = grid.set(13, 10, CellState::Alive);
    let _ = grid.set(14, 11, CellState::Alive);
    let _ = grid.set(10, 12, CellState::Alive);
    let _ = grid.set(14, 12, CellState::Alive);
    let _ = grid.set(11, 13, CellState::Alive);
    let _ = grid.set(12, 13, CellState::Alive);
    let _ = grid.set(13, 13, CellState::Alive);
    let _ = grid.set(14, 13, CellState::Alive);
    assert(grid@ =~~= with_glider(old(grid)@));
    Ok(())
}

/// Applies one frame's input. The pause key switches the state first; while
/// the session is then paused, a held button writes the cell under the
/// pointer. A pointer outside the grid is an error and changes nothing.
pub fn handle_input(grid: &mut Grid, state: State, input: Input) -> (r: Result<State, GridError>)
    requires
        old(grid).wf(),
    ensures
        final(grid).wf(),
        final(grid).spec_width() == old(grid).spec_width(),
        final(grid).spec_height() == old(grid).spec_height(),
        !input.edits(state) ==> r == Ok::<State, GridError>(input.next_state(state)) && *final(grid)
            == *old(grid),
        input.edits(state) && old(grid).in_bounds(input.x as int, input.y as int) ==> r == Ok::<
            State,
            GridError,
        >(input.next_state(state)) && final(grid)@ == old(grid)@.update(
            input.y as int,
            old(grid)@[input.y as int].update(input.x as int, input.brush()),
        ),
        input.edits(state) && !old(grid).in_bounds(input.x as int, input.y as int) ==> r == Err::<
            State,
            GridError,
        >(GridError::OutOfBounds) && *final(grid) == *old(grid),
{
    let next = if input.toggle {
        state.toggled()
    } else {
        state
    };
    if next == State::Paused && (input.draw || input.erase) {
        let brush = if input.erase {
            CellState::Dead
        } else {
            CellState::Alive
        };
        match grid.set(input.x, input.y, brush) {
            Ok(()) => Ok(next),
            Err(e) => Err(e),
        }
    } else {
        Ok(next)
    }
}

} // verus!
