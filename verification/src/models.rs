//! The data of the game: cells, the grid, the pieces and their supply.

pub mod block;
pub mod count;
pub mod field;
pub mod tetromino;
pub mod tetromino_factory;
