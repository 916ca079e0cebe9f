//! A cellular-automaton engine with an interactive editor: a dense grid, a
//! double-buffered generation step, cursor-based editing, and the control
//! logic of the background workers that drive them.

pub mod backend;
pub mod control;
pub mod editor;
pub mod game;
pub mod grid;
pub mod presets;
pub mod runner;

pub use control::{AppAction, GameState};
