//! Terminal emulation core: a byte-stream parser for ANSI/VT100 output that
//! keeps a fixed-size grid of styled cells, with colour themes and the
//! key-to-byte mapping used to talk back to the child process.

pub mod color;
pub mod grid;
pub mod keys;
pub mod sgr;
pub mod term;
pub mod theme;
pub mod theorems;

pub use color::Color;
pub use grid::{Cell, Grid, Style};
pub use keys::{key_to_bytes, KeyInput};
pub use sgr::{apply_sgr, Attrs};
pub use term::{process_byte, process_bytes, EscapeState, TermState};
pub use theme::Theme;
