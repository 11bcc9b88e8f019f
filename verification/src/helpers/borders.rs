//! The frame around the viewport: its glyphs and the room it takes.

use crate::helpers::style::{is_dark_grey, paint, Style};
use crate::helpers::text::{repeat, repeated};
use vstd::prelude::*;
use vstd::std_specs::cmp::PartialEqSpecImpl;

verus! {

/// The eight glyphs of a frame. An empty glyph leaves its place out.
#[derive(Debug)]
pub struct Borders {
    pub top: String,
    pub bottom: String,
    pub left: String,
    pub right: String,
    pub top_left: String,
    pub top_right: String,
    pub bottom_left: String,
    pub bottom_right: String,
}

/// `out` is a horizontal edge: the left corner, `width` times the `fill`
/// glyph and the right corner, each of them styled in dark grey.
pub open spec fn is_edge(
    out: Seq<char>,
    left: Seq<char>,
    fill: Seq<char>,
    right: Seq<char>,
    width: nat,
) -> bool {
    exists|a: Seq<char>, b: Seq<char>, c: Seq<char>|
        #![auto]
        is_dark_grey(a, left) && is_dark_grey(b, repeated(fill, width)) && is_dark_grey(c, right)
            && out == a + b + c
}

impl Borders {
    /// Both frames show the same glyphs.
    pub open spec fn same_glyphs(&self, other: &Borders) -> bool {
        &&& self.top@ == other.top@
        &&& self.bottom@ == other.bottom@
        &&& self.left@ == other.left@
        &&& self.right@ == other.right@
        &&& self.top_left@ == other.top_left@
        &&& self.top_right@ == other.top_right@
        &&& self.bottom_left@ == other.bottom_left@
        &&& self.bottom_right@ == other.bottom_right@
    }

    /// The frame of single lines, as the box-drawing characters draw them.
    pub open spec fn is_single_line(&self) -> bool {
        &&& self.top@ == "─"@
        &&& self.bottom@ == "─"@
        &&& self.left@ == "│"@
        &&& self.right@ == "│"@
        &&& self.top_left@ == "┌"@
        &&& self.top_right@ == "┐"@
        &&& self.bottom_left@ == "└"@
        &&& self.bottom_right@ == "┘"@
    }

    /// The frame has a row above the content.
    pub open spec fn has_top(&self) -> bool {
        self.top@.len() > 0 || self.top_left@.len() > 0 || self.top_right@.len() > 0
    }

    /// The frame has a row below the content.
    pub open spec fn has_bottom(&self) -> bool {
        self.bottom@.len() > 0 || self.bottom_left@.len() > 0 || self.bottom_right@.len() > 0
    }

    /// The frame has a column left of the content.
    pub open spec fn has_left(&self) -> bool {
        self.left@.len() > 0 || self.top_left@.len() > 0 || self.bottom_left@.len() > 0
    }

    /// The frame has a column right of the content.
    pub open spec fn has_right(&self) -> bool {
        self.right@.len() > 0 || self.top_right@.len() > 0 || self.bottom_right@.len() > 0
    }

    /// The rows that the frame takes from the content.
    pub open spec fn rows_taken(&self) -> nat {
        (if self.has_top() {
            1nat
        } else {
            0nat
        }) + (if self.has_bottom() {
            1nat
        } else {
            0nat
        })
    }

    /// The columns that the frame takes from the content.
    pub open spec fn columns_taken(&self) -> nat {
        (if self.has_left() {
            1nat
        } else {
            0nat
        }) + (if self.has_right() {
            1nat
        } else {
            0nat
        })
    }

    /// The top edge for a content of `width` columns.
    pub fn top(&self, width: usize) -> (out: String)
        ensures
            is_edge(out@, self.top_left@, self.top@, self.top_right@, width as nat),
    {
        edge(self.top_left.as_str(), self.top.as_str(), self.top_right.as_str(), width)
    }

    /// The bottom edge for a content of `width` columns.
    pub fn bottom(&self, width: usize) -> (out: String)
        ensures
            is_edge(out@, self.bottom_left@, self.bottom@, self.bottom_right@, width as nat),
    {
        edge(self.bottom_left.as_str(), self.bottom.as_str(), self.bottom_right.as_str(), width)
    }

    /// The number of rows that the frame takes from the content: one for a
    /// top edge and one for a bottom edge.
    pub fn height_reduction(&self) -> (rows: usize)
        ensures
            rows == self.rows_taken(),
            rows <= 2,
    {
        let mut reduction: usize = 0;
        if !self.top.as_str().is_empty() || !self.top_left.as_str().is_empty()
            || !self.top_right.as_str().is_empty() {
            reduction = reduction + 1;
        }
        if !self.bottom.as_str().is_empty() || !self.bottom_left.as_str().is_empty()
            || !self.bottom_right.as_str().is_empty() {
            reduction = reduction + 1;
        }
        reduction
    }

    /// The number of columns that the frame takes from the content: one for a
    /// left edge and one for a right edge.
    pub fn width_reduction(&self) -> (columns: usize)
        ensures
            columns == self.columns_taken(),
            columns <= 2,
    {
        let mut reduction: usize = 0;
        if !self.left.as_str().is_empty() || !self.top_left.as_str().is_empty()
            || !self.bottom_left.as_str().is_empty() {
            reduction = reduction + 1;
        }
        if !self.right.as_str().is_empty() || !self.top_right.as_str().is_empty()
            || !self.bottom_right.as_str().is_empty() {
            reduction = reduction + 1;
        }
        reduction
    }
}

/// A horizontal edge: the left corner, `width` times the `fill` glyph and the
/// right corner, each of them in dark grey.
fn edge(left: &str, fill: &str, right: &str, width: usize) -> (out: String)
    ensures
        is_edge(out@, left@, fill@, right@, width as nat),
{
    let a = paint(Style::DarkGrey, left);
    let b = paint(Style::DarkGrey, repeat(fill, width).as_str());
    let c = paint(Style::DarkGrey, right);
    let mut out = a.clone();
    out.append(b.as_str());
    out.append(c.as_str());
    assert(out@ == a@ + b@ + c@);
    out
}

impl Default for Borders {
    /// The frame of single lines.
    fn default() -> (out: Self)
        ensures
            out.is_single_line(),
    {
        Borders {
            top: String::from_str("─"),
            bottom: String::from_str("─"),
            left: String::from_str("│"),
            right: String::from_str("│"),
            top_left: String::from_str("┌"),
            top_right: String::from_str("┐"),
            bottom_left: String::from_str("└"),
            bottom_right: String::from_str("┘"),
        }
    }
}

impl Clone for Borders {
    fn clone(&self) -> (out: Self)
        ensures
            out == *self,
    {
        Borders {
            top: self.top.clone(),
            bottom: self.bottom.clone(),
            left: self.left.clone(),
            right: self.right.clone(),
            top_left: self.top_left.clone(),
            top_right: self.top_right.clone(),
            bottom_left: self.bottom_left.clone(),
            bottom_right: self.bottom_right.clone(),
        }
    }
}

impl PartialEq for Borders {
    fn eq(&self, other: &Self) -> (same: bool) {
        self.top == other.top && self.bottom == other.bottom && self.left == other.left
            && self.right == other.right && self.top_left == other.top_left && self.top_right
            == other.top_right && self.bottom_left == other.bottom_left && self.bottom_right
            == other.bottom_right
    }
}

impl PartialEqSpecImpl for Borders {
    open spec fn obeys_eq_spec() -> bool {
        true
    }

    open spec fn eq_spec(&self, other: &Self) -> bool {
        self.same_glyphs(other)
    }
}

impl Eq for Borders {

}

} // verus!
