//! The viewport: which part of the buffered lines is on screen, and how.

use crate::helpers::borders::{is_edge, Borders};
use crate::helpers::style::{paint, paints, Style};
use crate::pager::terminal::{clamp, clamped, views, Op, OpView};
use vstd::prelude::*;
use vstd::std_specs::cmp::PartialEqSpecImpl;
use vstd::view::View as _;

pub mod events;
pub mod render;

verus! {

/// The viewport.
#[derive(Debug)]
pub struct View {
    /// The text to look for; empty where nothing is searched.
    pub search: String,
    /// The index of the first line on screen.
    pub scroll_row: usize,
    /// The number of columns that are cut off at the left.
    pub scroll_col: usize,
    /// Whether each line is shown with its number.
    pub show_line_numbers: bool,
    /// Whether the frame is drawn.
    pub show_borders: bool,
    /// The column of the top left corner.
    pub x: u16,
    /// The row of the top left corner.
    pub y: u16,
    /// The number of rows, those of the frame included.
    pub height: usize,
    /// The number of columns, those of the frame included.
    pub width: usize,
    /// The glyphs of the frame.
    pub borders: Borders,
}

/// A sum, cut down to what a `usize` holds.
pub open spec fn capped(n: int) -> usize {
    if n >= usize::MAX {
        usize::MAX
    } else if n <= 0 {
        0
    } else {
        n as usize
    }
}

/// The operations that draw the two upright edges of a frame: row by row the
/// left edge, then the right edge in column `right_column`, then the move
/// to the next row.
pub open spec fn sides_of(rows: nat, right_column: u16, left: Seq<char>, right: Seq<char>) -> Seq<
    OpView,
>
    decreases rows,
{
    if rows == 0 {
        Seq::empty()
    } else {
        sides_of((rows - 1) as nat, right_column, left, right) + seq![
            OpView::Print(left),
            OpView::MoveToColumn(right_column),
            OpView::Print(right),
            OpView::MoveToNextLine(1),
        ]
    }
}

/// The operations that draw a frame from its four styled parts: the top
/// edge at the corner `(x, y)`, then `rows` times the upright edges, then the
/// bottom edge.
pub open spec fn frame_of(
    x: u16,
    y: u16,
    rows: nat,
    right_column: u16,
    top: Seq<char>,
    bottom: Seq<char>,
    left: Seq<char>,
    right: Seq<char>,
) -> Seq<OpView> {
    seq![OpView::MoveTo(x, y), OpView::Print(top)] + sides_of(rows, right_column, left, right)
        + seq![OpView::Print(bottom)]
}

impl View {
    /// Both viewports would draw the same picture of the same lines.
    pub open spec fn same_frame(&self, other: &View) -> bool {
        &&& self.search@ == other.search@
        &&& self.scroll_row == other.scroll_row
        &&& self.scroll_col == other.scroll_col
        &&& self.show_line_numbers == other.show_line_numbers
        &&& self.show_borders == other.show_borders
        &&& self.x == other.x
        &&& self.y == other.y
        &&& self.height == other.height
        &&& self.width == other.width
        &&& self.borders.same_glyphs(&other.borders)
    }

    /// A viewport without size at the top left of the lines, with nothing
    /// searched, without line numbers, and with a frame of single lines that
    /// is not drawn.
    pub open spec fn is_blank(&self) -> bool {
        &&& self.search@.len() == 0
        &&& self.scroll_row == 0
        &&& self.scroll_col == 0
        &&& !self.show_line_numbers
        &&& !self.show_borders
        &&& self.x == 0
        &&& self.y == 0
        &&& self.height == 0
        &&& self.width == 0
        &&& self.borders.is_single_line()
    }

    /// The rows that the frame takes: none where it is not drawn.
    pub open spec fn frame_rows(&self) -> nat {
        if self.show_borders {
            self.borders.rows_taken()
        } else {
            0
        }
    }

    /// The number of rows for lines: the rows that the frame leaves, and
    /// none where it takes more than there are.
    pub open spec fn page(&self) -> nat {
        if self.height >= self.frame_rows() {
            (self.height - self.frame_rows()) as nat
        } else {
            0
        }
    }

    /// The index behind the last line of the page: the first line on screen
    /// and the rows of the viewport, less the rows that the frame takes.
    pub open spec fn end_row(&self) -> usize {
        capped(self.scroll_row + self.height - self.frame_rows())
    }

    /// The columns between the two edges of the frame.
    pub open spec fn inner_width(&self) -> nat {
        if self.width >= self.borders.columns_taken() {
            (self.width - self.borders.columns_taken()) as nat
        } else {
            0
        }
    }

    /// `ops` draw the frame of this viewport, or nothing where it has none.
    pub open spec fn is_frame(&self, ops: Seq<OpView>) -> bool {
        if self.show_borders {
            exists|top: Seq<char>, bottom: Seq<char>, left: Seq<char>, right: Seq<char>|
                #![auto]
                is_edge(
                    top,
                    self.borders.top_left@,
                    self.borders.top@,
                    self.borders.top_right@,
                    self.inner_width(),
                ) && is_edge(
                    bottom,
                    self.borders.bottom_left@,
                    self.borders.bottom@,
                    self.borders.bottom_right@,
                    self.inner_width(),
                ) && paints(Style::DarkGrey, left, self.borders.left@) && paints(
                    Style::DarkGrey,
                    right,
                    self.borders.right@,
                ) && ops == frame_of(
                    self.x,
                    self.y,
                    self.page(),
                    clamped(self.width - 1),
                    top,
                    bottom,
                    left,
                    right,
                )
        } else {
            ops.len() == 0
        }
    }

    /// The index of the first line on screen.
    pub fn start(&self) -> (row: usize)
        ensures
            row == self.scroll_row,
    {
        self.scroll_row
    }

    /// The index behind the last line of the page.
    pub fn end(&self) -> (row: usize)
        ensures
            row == self.end_row(),
    {
        let taken = if self.show_borders {
            self.borders.height_reduction()
        } else {
            0
        };
        if self.height >= taken {
            self.scroll_row.saturating_add(self.height - taken)
        } else {
            self.scroll_row.saturating_sub(taken - self.height)
        }
    }

    /// The number of rows for lines.
    pub fn rows(&self) -> (rows: usize)
        ensures
            rows == self.page(),
    {
        let taken = if self.show_borders {
            self.borders.height_reduction()
        } else {
            0
        };
        self.height.saturating_sub(taken)
    }

    /// Gives the viewport its size and draws its frame.
    pub fn setup(&mut self, size: (usize, usize)) -> (ops: Vec<Op>)
        ensures
            *final(self) == (View { width: size.0, height: size.1, ..*old(self) }),
            final(self).is_frame(views(ops@)),
    {
        self.width = size.0;
        self.height = size.1;
        self.render_borders()
    }

    /// The operations that draw a frame of this viewport's size from its four
    /// styled parts.
    pub fn frame(&self, top: String, bottom: String, left: &str, right: &str) -> (ops: Vec<Op>)
        ensures
            views(ops@) == frame_of(
                self.x,
                self.y,
                self.page(),
                clamped(self.width - 1),
                top@,
                bottom@,
                left@,
                right@,
            ),
    {
        let rows = self.rows();
        let right_column = clamp(self.width.saturating_sub(1));
        let mut ops: Vec<Op> = Vec::new();
        ops.push(Op::MoveTo(self.x, self.y));
        ops.push(Op::Print(top));
        let ghost head = seq![OpView::MoveTo(self.x, self.y), OpView::Print(top@)];
        assert(views(ops@) =~= head + sides_of(0, right_column, left@, right@));
        let mut row: usize = 0;
        while row < rows
            invariant
                row <= rows,
                views(ops@) == head + sides_of(row as nat, right_column, left@, right@),
            decreases rows - row,
        {
            let ghost before = views(ops@);
            ops.push(Op::Print(String::from_str(left)));
            ops.push(Op::MoveToColumn(right_column));
            ops.push(Op::Print(String::from_str(right)));
            ops.push(Op::MoveToNextLine(1));
            row = row + 1;
            assert(views(ops@) =~= before + seq![
                OpView::Print(left@),
                OpView::MoveToColumn(right_column),
                OpView::Print(right@),
                OpView::MoveToNextLine(1),
            ]);
            assert(views(ops@) =~= head + sides_of(row as nat, right_column, left@, right@));
        }
        let ghost body = views(ops@);
        ops.push(Op::Print(bottom));
        assert(views(ops@) =~= body + seq![OpView::Print(bottom@)]);
        ops
    }

    /// Draws the frame, where the viewport has one.
    pub fn render_borders(&self) -> (ops: Vec<Op>)
        ensures
            self.is_frame(views(ops@)),
    {
        if !self.show_borders {
            return Vec::new();
        }
        let inner = self.width.saturating_sub(self.borders.width_reduction());
        let top = self.borders.top(inner);
        let bottom = self.borders.bottom(inner);
        let left = paint(Style::DarkGrey, self.borders.left.as_str());
        let right = paint(Style::DarkGrey, self.borders.right.as_str());
        let ghost top_text = top@;
        let ghost bottom_text = bottom@;
        let ops = self.frame(top, bottom, left.as_str(), right.as_str());
        assert(self.is_frame(views(ops@))) by {
            assert(is_edge(
                top_text,
                self.borders.top_left@,
                self.borders.top@,
                self.borders.top_right@,
                self.inner_width(),
            ));
            assert(views(ops@) == frame_of(
                self.x,
                self.y,
                self.page(),
                clamped(self.width - 1),
                top_text,
                bottom_text,
                left@,
                right@,
            ));
        }
        ops
    }
}

impl Default for View {
    /// The blank viewport.
    fn default() -> (out: Self)
        ensures
            out.is_blank(),
    {
        View {
            search: String::new(),
            scroll_row: 0,
            scroll_col: 0,
            show_line_numbers: false,
            show_borders: false,
            x: 0,
            y: 0,
            height: 0,
            width: 0,
            borders: Borders::default(),
        }
    }
}

impl Clone for View {
    fn clone(&self) -> (out: Self)
        ensures
            out == *self,
    {
        View {
            search: self.search.clone(),
            scroll_row: self.scroll_row,
            scroll_col: self.scroll_col,
            show_line_numbers: self.show_line_numbers,
            show_borders: self.show_borders,
            x: self.x,
            y: self.y,
            height: self.height,
            width: self.width,
            borders: self.borders.clone(),
        }
    }
}

impl PartialEq for View {
    fn eq(&self, other: &Self) -> (same: bool) {
        self.search == other.search && self.scroll_row == other.scroll_row && self.scroll_col
            == other.scroll_col && self.show_line_numbers == other.show_line_numbers
            && self.show_borders == other.show_borders && self.x == other.x && self.y == other.y
            && self.height == other.height && self.width == other.width && self.borders
            == other.borders
    }
}

impl PartialEqSpecImpl for View {
    open spec fn obeys_eq_spec() -> bool {
        true
    }

    open spec fn eq_spec(&self, other: &Self) -> bool {
        self.same_frame(other)
    }
}

impl Eq for View {

}

} // verus!
