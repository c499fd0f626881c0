//! A falling-block puzzle game: the board and piece simulation, verified.
//!
//! The crate holds the deterministic core of the game (grid, piece catalog,
//! board, game session and scene switching). Windowing, input devices and
//! drawing live outside of it and only exchange plain values with it.

pub mod grid;
pub mod point;
pub mod tetromino;
pub mod board;
pub mod game;
pub mod game_over;
pub mod main_menu;
pub mod scene;
