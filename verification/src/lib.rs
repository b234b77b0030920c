//! The verified core of a two-pane terminal to-do list: the task data, the
//! key bindings, and the state machine (selection, pending-task input,
//! completion, deletion, bounded undo/redo history) that every key press drives.

pub mod data;
pub mod text;
pub mod keys;
pub mod app;
pub mod screen;
pub mod laws;
