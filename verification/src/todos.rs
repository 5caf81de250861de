//! Todo records, and what is decided about them.

pub mod completion;
pub mod decimal;
pub mod todo_model;
