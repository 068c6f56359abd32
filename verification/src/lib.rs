//! Rule engine of a falling-block puzzle game on a fixed grid of ten columns
//! and twenty-four rows: the pieces and their orientations, the occupancy
//! grid with its line clearing, the bag that deals the pieces, and the
//! per-tick update of a running game.
//!
//! Every function carries a contract over a mathematical model of its data,
//! and the contracts are machine-checked.

pub mod game;
pub mod models;
