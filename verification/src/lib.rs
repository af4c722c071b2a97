//! A falling-block puzzle simulation core.
//!
//! The crate provides the grid-and-piece engine of the game: an occupancy
//! grid with quarter-turn rotation, a piece (its local grid plus a board
//! coordinate), a collision oracle between piece and board, and a
//! simulation controller that applies gravity-driven descent and debounced
//! directional input. Window creation, drawing and the fixed-timestep frame
//! pump are left to the surrounding program, which feeds the controller
//! input events and per-tick `advance` calls and reads occupancy back out.

pub mod cellmatrix;
pub mod frametimer;
pub mod tetris;
pub mod tetromino;
