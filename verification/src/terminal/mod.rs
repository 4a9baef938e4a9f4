//! Terminal emulation: cells, the screen grid, the escape-sequence interpreter and
//! the render model handed to the UI.

pub mod cell;
pub mod colors;

pub use cell::{Cell, CellAttrs, DEFAULT_BG, DEFAULT_FG};
pub mod screen;
pub mod parser;
pub mod renderer;
