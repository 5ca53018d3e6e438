//! An interactive line-editing core for a command shell: a gap buffer for
//! localized edits, a raw-mode key decoder for ANSI escape sequences, a line
//! editor that applies key events and emits terminal repaint instructions,
//! and an on-the-fly lexer for shell input.

pub mod decoder;
pub mod editor;
pub mod gap_buffer;
pub mod lexer;
