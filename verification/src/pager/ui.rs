//! The two parts of the screen: the viewport and the command line.

pub mod command_line;
pub mod view;
