//! The pager: the buffered lines, the viewport and the command line, and
//! what ties them together.
//!
//! The pager neither reads nor writes. Whoever runs it hands it the lines of
//! the input one by one for as long as it asks for more, carries out the
//! operations that it wants drawn, and hands it each event of the terminal.

use crate::helpers::layout::{
    allocation, distribute, fixed_total, flexible_count, is_last_flexible, Size,
};
use crate::pager::terminal::{clamp, clamped, views, Op};
use crate::pager::ui::command_line::CommandLine;
use crate::pager::ui::view::View;
use vstd::prelude::*;
use vstd::view::View as _;

pub mod events;
pub mod render;
pub mod terminal;
pub mod ui;

verus! {

/// The two parts of the screen as they were drawn last.
#[derive(Debug)]
pub struct PreviousFrame {
    pub view: View,
    pub command_line: CommandLine,
}

/// The pager.
#[derive(Debug)]
pub struct Pager {
    /// The lines that have been read so far.
    pub lines: Vec<String>,
    /// The viewport.
    pub view: View,
    /// The command line.
    pub command_line: CommandLine,
    /// What was drawn last.
    pub prev: PreviousFrame,
    /// Whether the whole input is read, however far away the viewport is.
    pub read_all: bool,
    /// The number of columns of the terminal.
    pub width: usize,
    /// The number of rows of the terminal.
    pub height: usize,
    /// Whether the pager is done.
    pub exit: bool,
}

/// An offset that counts from one, as an index; none is the first.
pub open spec fn index_of_offset(offset: Option<usize>) -> usize {
    match offset {
        Some(n) => if n >= 1 {
            (n - 1) as usize
        } else {
            0
        },
        None => 0,
    }
}

fn offset_index(offset: Option<usize>) -> (index: usize)
    ensures
        index == index_of_offset(offset),
{
    match offset {
        Some(n) => n.saturating_sub(1),
        None => 0,
    }
}

impl Pager {
    /// The rows of the viewport: all rows of the terminal but the one of the
    /// command line.
    pub open spec fn view_rows(&self) -> usize {
        if self.height >= 1 {
            (self.height - 1) as usize
        } else {
            0
        }
    }

    /// The pager with its screen laid out: the command line has the last row
    /// of the terminal, the viewport all rows above it, and both have all
    /// columns.
    pub open spec fn laid_out(&self) -> Pager {
        Pager {
            view: View { width: self.width, height: self.view_rows(), ..self.view },
            command_line: CommandLine {
                x: 0,
                y: clamped(self.view_rows() as int),
                width: self.width,
                height: 1,
                ..self.command_line
            },
            ..*self
        }
    }

    /// Whether the pager asks for another line when it holds `line_count`
    /// lines: always while it reads the whole input, else until it holds
    /// more than one page behind the page on screen.
    pub open spec fn wants_more(&self, line_count: nat) -> bool {
        self.read_all || line_count <= self.view.end_row() + self.view.height
    }

    /// The number of lines that the pager holds once it has pulled lines
    /// for as long as it asks for more, from `held` lines on and with
    /// `available` lines left in the input.
    pub open spec fn held_after_pulling(&self, held: nat, available: nat) -> nat
        decreases available,
    {
        if available > 0 && self.wants_more(held) {
            self.held_after_pulling(held + 1, (available - 1) as nat)
        } else {
            held
        }
    }

    /// A pager for a terminal of `size.0` columns and `size.1` rows. It
    /// holds no line and has drawn nothing yet.
    pub fn init(size: (u16, u16)) -> (out: Pager)
        ensures
            out.lines@.len() == 0,
            out.view.is_blank(),
            out.command_line.is_blank(),
            out.prev.view.is_blank(),
            out.prev.command_line.is_blank(),
            !out.read_all,
            out.width == size.0,
            out.height == size.1,
            !out.exit,
    {
        Pager {
            lines: Vec::new(),
            view: View::default(),
            command_line: CommandLine::default(),
            prev: PreviousFrame { view: View::default(), command_line: CommandLine::default() },
            read_all: false,
            width: size.0 as usize,
            height: size.1 as usize,
            exit: false,
        }
    }

    /// Shows or hides the line numbers.
    pub fn with_line_numbers(&mut self, yes: bool) -> (out: &mut Self)
        ensures
            *out == (Pager { view: View { show_line_numbers: yes, ..old(self).view }, ..*old(self) }),
            *final(self) == *final(out),
    {
        self.view.show_line_numbers = yes;
        self
    }

    /// Shows or hides the frame.
    pub fn with_borders(&mut self, yes: bool) -> (out: &mut Self)
        ensures
            *out == (Pager { view: View { show_borders: yes, ..old(self).view }, ..*old(self) }),
            *final(self) == *final(out),
    {
        self.view.show_borders = yes;
        self
    }

    /// Puts the viewport at a row and a column, both counted from one. A
    /// missing one is the first.
    pub fn with_offset(&mut self, row: Option<usize>, col: Option<usize>) -> (out: &mut Self)
        ensures
            *out == (Pager {
                view: View {
                    scroll_row: index_of_offset(row),
                    scroll_col: index_of_offset(col),
                    ..old(self).view
                },
                ..*old(self)
            }),
            *final(self) == *final(out),
    {
        self.view.scroll_row = offset_index(row);
        self.view.scroll_col = offset_index(col);
        self
    }

    /// Makes the pager read the whole input, or only as far as it shows.
    pub fn all(&mut self, yes: bool) -> (out: &mut Self)
        ensures
            *out == (Pager { read_all: yes, ..*old(self) }),
            *final(self) == *final(out),
    {
        self.read_all = yes;
        self
    }

    /// Lays the screen out and draws the frame: the command line gets the
    /// last row of the terminal, the viewport all rows above it.
    pub fn setup(&mut self) -> (ops: Vec<Op>)
        ensures
            *final(self) == old(self).laid_out(),
            final(self).view.is_frame(views(ops@)),
    {
        let slots = vec![Size::Flexible, Size::Fixed(1)];
        let sizes = distribute(self.height, slots.as_slice());
        proof {
            let s = slots@;
            reveal_with_fuel(fixed_total, 3);
            reveal_with_fuel(flexible_count, 3);
            assert(s.drop_last().drop_last().len() == 0);
            assert(fixed_total(s) == 1);
            assert(flexible_count(s) == 1);
            assert(is_last_flexible(s, 0));
            assert(sizes@[0] as nat == allocation(self.height as nat, s, 0));
            assert(sizes@[1] as nat == allocation(self.height as nat, s, 1));
        }
        let ops = self.view.setup((self.width, sizes[0]));
        self.command_line.setup((0, clamp(sizes[0])), (self.width, sizes[1]));
        ops
    }

    /// Tells whether the pager asks for another line of the input. Asked
    /// before each line is pulled, this keeps the pager from holding more
    /// than one page and one line behind the page on screen, unless it
    /// reads the whole input.
    pub fn wants_line(&self) -> (more: bool)
        ensures
            more == self.wants_more(self.lines@.len()),
    {
        self.read_all || self.lines.len() <= self.view.end().saturating_add(self.view.height)
    }

    /// Takes the next line of the input in, and tells whether the pager
    /// asks for another one.
    pub fn buffer_line(&mut self, line: String) -> (more: bool)
        ensures
            *final(self) == (Pager { lines: final(self).lines, ..*old(self) }),
            final(self).lines@ == old(self).lines@.push(line),
            more == old(self).wants_more(old(self).lines@.len() + 1),
            more == final(self).wants_more(final(self).lines@.len()),
            !old(self).read_all && old(self).wants_more(old(self).lines@.len())
                ==> final(self).lines@.len() <= old(self).view.end_row() + old(self).view.height
                + 1,
    {
        self.lines.push(line);
        self.wants_line()
    }

    /// Marks the pager as done.
    pub fn exit(&mut self)
        ensures
            *final(self) == (Pager { exit: true, ..*old(self) }),
    {
        self.exit = true;
    }
}

/// Pulling lines for as long as the pager asks for more reads ahead by one
/// page and no further. It ends with the input used up or with more lines
/// held than the page on screen and one page behind it take; it never holds
/// more than one line beyond that, unless it held more before; and it pulls
/// nothing where it holds enough already. A pager that reads the whole input
/// uses the input up.
pub proof fn lemma_pulling_reads_one_page_ahead(pager: Pager, held: nat, available: nat)
    ensures
        ({
            let bound = pager.view.end_row() + pager.view.height;
            let after = pager.held_after_pulling(held, available);
            &&& held <= after <= held + available
            &&& after == held + available || after > bound
            &&& pager.read_all ==> after == held + available
            &&& !pager.read_all ==> after <= held || after <= bound + 1
            &&& !pager.read_all && held > bound ==> after == held
        }),
    decreases available,
{
    if available > 0 && pager.wants_more(held) {
        lemma_pulling_reads_one_page_ahead(pager, held + 1, (available - 1) as nat);
    }
}

} // verus!
