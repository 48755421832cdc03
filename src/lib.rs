//! Input handling for an interactive fractal viewer: the rules that turn
//! window events into view commands.
pub mod input;
