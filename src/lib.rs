//! Conway's Game of Life on a toroidal grid: the cell states, the grid with
//! its neighbour counting and generation step, and the decisions a host
//! makes on timer ticks, start/stop requests and clicks.

pub mod cell;
pub mod grid;
pub mod host;
pub mod laws;

pub use cell::{next_state, Cell};
pub use grid::{App, Grid};
pub use host::{Msg, TimerAction};
