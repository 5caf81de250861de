//! The interactive list.

pub mod event;
pub mod laws;
pub mod select;
pub mod style;
pub mod view;
