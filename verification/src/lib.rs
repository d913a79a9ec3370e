//! Turns Unicode text into the byte stream an ESC/P dot-matrix printer expects.
//!
//! The printer renders one 8-bit character table at a time. For every input
//! character the library finds the tables that can represent it, keeps the
//! active table whenever that table will do, and otherwise emits the command
//! that selects another table before the character's byte.
//!
//! [`printer::PrinterState`] holds the active table; its
//! [`printer::Process::process`] takes one character and appends the bytes
//! for it to a sink. [`transcode::transcode_character`] is the step from a
//! character to its codes, [`style`] holds the commands for the settings of
//! page and type, and [`laws`] states what holds of every input.

pub mod charset;
pub mod laws;
pub mod lookup;
pub mod printer;
pub mod style;
pub mod transcode;
