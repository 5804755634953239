//! Conway's Game of Life on a finite grid with closed boundaries.
//!
//! [`conways`] holds the grid and the generation step, [`laws`] what is
//! proved of them for every grid, and [`game`] the decisions of an
//! interactive session.

pub mod conways;
pub mod game;
pub mod laws;
