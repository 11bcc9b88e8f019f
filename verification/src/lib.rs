//! The viewing engine of a terminal pager: text measurement that skips escape
//! sequences, layout, the scrolling viewport, the command line and the pager
//! that ties them together.

pub mod helpers;
pub mod pager;
