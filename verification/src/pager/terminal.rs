//! What the pager hears from the terminal and what it asks of it. The pager
//! decides what to draw and where; whoever owns the terminal hands it the
//! input events one by one and carries its operations out in order.

use vstd::prelude::*;

verus! {

/// A key, as far as the pager tells keys apart.
#[derive(Clone, Copy, Debug, PartialEq, Eq, Structural)]
pub enum KeyCode {
    Up,
    Down,
    Left,
    Right,
    PageUp,
    PageDown,
    Home,
    End,
    Esc,
    Enter,
    Backspace,
    /// A key that types a character.
    Char(char),
    /// Any other key.
    Other,
}

/// A key that was pressed.
#[derive(Clone, Copy, Debug, PartialEq, Eq, Structural)]
pub struct KeyEvent {
    pub code: KeyCode,
    /// The control key, and no other modifier, was held down.
    pub control: bool,
}

/// What the terminal reports.
#[derive(Clone, Copy, Debug, PartialEq, Eq, Structural)]
pub enum Event {
    /// A key was pressed.
    Key(KeyEvent),
    /// The mouse wheel turned up.
    ScrollUp,
    /// The mouse wheel turned down.
    ScrollDown,
    /// The terminal now has this many columns and rows.
    Resize(u16, u16),
    /// Anything else: a key that was released or is repeating, another move
    /// of the mouse, a paste. The pager ignores it.
    Other,
}

/// One operation on the terminal.
#[derive(Debug)]
pub enum Op {
    /// Put the cursor at a column and a row, both counted from zero.
    MoveTo(u16, u16),
    /// Put the cursor at a column of its row.
    MoveToColumn(u16),
    /// Put the cursor at the start of the row this many rows further down.
    MoveToNextLine(u16),
    /// Clear the row of the cursor.
    ClearLine,
    /// Write text at the cursor.
    Print(String),
    /// Send what was written so far.
    Flush,
}

/// An operation, with its text as characters.
pub enum OpView {
    MoveTo(u16, u16),
    MoveToColumn(u16),
    MoveToNextLine(u16),
    ClearLine,
    Print(Seq<char>),
    Flush,
}

impl View for Op {
    type V = OpView;

    open spec fn view(&self) -> OpView {
        match self {
            Op::MoveTo(column, row) => OpView::MoveTo(*column, *row),
            Op::MoveToColumn(column) => OpView::MoveToColumn(*column),
            Op::MoveToNextLine(rows) => OpView::MoveToNextLine(*rows),
            Op::ClearLine => OpView::ClearLine,
            Op::Print(text) => OpView::Print(text@),
            Op::Flush => OpView::Flush,
        }
    }
}

/// A list of operations, each with its text as characters.
pub open spec fn views(ops: Seq<Op>) -> Seq<OpView> {
    ops.map_values(|op: Op| op@)
}

/// A number, cut down to what a `u16` holds.
pub open spec fn clamped(n: int) -> u16 {
    if n <= 0 {
        0
    } else if n >= u16::MAX {
        u16::MAX
    } else {
        n as u16
    }
}

/// A column or row as the terminal addresses it: what lies beyond its range
/// is put on its last column or row.
pub fn clamp(n: usize) -> (out: u16)
    ensures
        out == clamped(n as int),
{
    if n >= 65535 {
        65535
    } else {
        n as u16
    }
}

} // verus!
