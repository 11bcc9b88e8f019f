//! Building blocks that do not know about the pager itself.

pub mod ansi;
pub mod borders;
pub mod file;
pub mod layout;
pub mod style;
pub mod text;
