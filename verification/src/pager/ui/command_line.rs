//! The command line: the row in which a search or a place to go to is typed.

use vstd::prelude::*;
use vstd::std_specs::cmp::PartialEqSpecImpl;

pub mod events;
pub mod render;

verus! {

/// What the command line is taking in.
#[derive(Clone, Copy, Debug, PartialEq, Eq, Structural)]
pub enum Mode {
    /// Nothing: keys move the viewport.
    Base,
    /// A line, or a line and a column, to go to.
    Goto,
    /// A text to search for.
    Search,
}

impl Default for Mode {
    fn default() -> (out: Self)
        ensures
            out == Mode::Base,
    {
        Mode::Base
    }
}

/// The command line.
#[derive(Debug)]
pub struct CommandLine {
    /// What has been typed.
    pub input: String,
    /// What is being taken in.
    pub mode: Mode,
    /// The column at which the command line starts.
    pub x: u16,
    /// The row of the command line.
    pub y: u16,
    /// The number of rows.
    pub height: usize,
    /// The number of columns.
    pub width: usize,
}

impl CommandLine {
    /// Nothing is typed while nothing is taken in.
    pub open spec fn wf(&self) -> bool {
        self.mode == Mode::Base ==> self.input@.len() == 0
    }

    /// An empty command line without place or size that takes nothing in.
    pub open spec fn is_blank(&self) -> bool {
        &&& self.input@.len() == 0
        &&& self.mode == Mode::Base
        &&& self.x == 0
        &&& self.y == 0
        &&& self.height == 0
        &&& self.width == 0
    }

    /// Both command lines would draw the same picture.
    pub open spec fn same_frame(&self, other: &CommandLine) -> bool {
        &&& self.input@ == other.input@
        &&& self.mode == other.mode
        &&& self.x == other.x
        &&& self.y == other.y
        &&& self.height == other.height
        &&& self.width == other.width
    }

    /// Gives the command line its place and its size.
    pub fn setup(&mut self, pos: (u16, u16), size: (usize, usize))
        ensures
            *final(self) == (CommandLine {
                x: pos.0,
                y: pos.1,
                width: size.0,
                height: size.1,
                ..*old(self)
            }),
    {
        self.x = pos.0;
        self.y = pos.1;
        self.width = size.0;
        self.height = size.1;
    }
}

impl Default for CommandLine {
    /// The blank command line.
    fn default() -> (out: Self)
        ensures
            out.is_blank(),
    {
        CommandLine { input: String::new(), mode: Mode::Base, x: 0, y: 0, height: 0, width: 0 }
    }
}

impl Clone for CommandLine {
    fn clone(&self) -> (out: Self)
        ensures
            out == *self,
    {
        CommandLine {
            input: self.input.clone(),
            mode: self.mode,
            x: self.x,
            y: self.y,
            height: self.height,
            width: self.width,
        }
    }
}

impl PartialEq for CommandLine {
    fn eq(&self, other: &Self) -> (same: bool) {
        self.input == other.input && self.mode == other.mode && self.x == other.x && self.y
            == other.y && self.height == other.height && self.width == other.width
    }
}

impl PartialEqSpecImpl for CommandLine {
    open spec fn obeys_eq_spec() -> bool {
        true
    }

    open spec fn eq_spec(&self, other: &Self) -> bool {
        self.same_frame(other)
    }
}

impl Eq for CommandLine {

}

} // verus!
