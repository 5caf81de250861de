//! A multi-select list for the terminal, and the todo records it is used on.
//!
//! The list is a state machine over plain values: it is configured, drawn as
//! text, and moved from state to state by key events. Reading keys and
//! writing to the terminal are left to the caller.

pub mod todos;
pub mod traits;
pub mod ui;
