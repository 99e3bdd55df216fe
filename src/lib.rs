//! An interactive shell prompt: a single input line whose submitted commands
//! run through an external shell, with their output kept in a history pane.
//!
//! The library holds the session logic: what each key press does to the input
//! line and the history, when the session ends, what text a command run leaves
//! behind, and what the two panes of the screen show. Terminal and process I/O
//! stay with the caller, which hands the library plain values.
pub mod output;
pub mod render;
pub mod session;
pub mod text;
