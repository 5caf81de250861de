//! What a record must offer to be shown in a list.

pub mod has_id;
pub mod render_line;
