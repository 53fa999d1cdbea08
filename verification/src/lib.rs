//! Simulation core of a falling-block puzzle game: integer grid vectors with
//! cardinal rotations, debounced button axes, tetromino geometry, the playfield
//! grid, and the per-tick game state machine.
pub mod binary_axis;
pub mod game;
pub mod intvector;
pub mod playfield;
pub mod tetris_input;
pub mod tetromino;
