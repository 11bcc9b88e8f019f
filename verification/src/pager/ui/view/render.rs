//! How the viewport draws the lines on its page.

use super::View;
use crate::helpers::ansi::{
    fit_visible, fitted, lemma_without_no_cells, skip_visible, visible_width, width_of,
    without_cells,
};
use crate::helpers::style::{paint, paints, Style};
use crate::helpers::text::{decimal, decimal_of, occurs, replace_all, replaced, right_aligned, right_aligned_of};
use crate::pager::terminal::{clamp, clamped, views, Op, OpView};
use vstd::prelude::*;
use vstd::view::View as _;

verus! {

/// The line number `number` as the viewport shows it: the number, moved to
/// the right of three columns, and a divider, both in dark grey and each
/// with a space behind it.
pub open spec fn is_gutter(number: nat, gutter: Seq<char>) -> bool {
    exists|digits: Seq<char>, divider: Seq<char>|
        #![auto]
        paints(Style::DarkGrey, digits, right_aligned_of(decimal_of(number), 3)) && paints(
            Style::DarkGrey,
            divider,
            "│"@,
        ) && gutter == digits + seq![' '] + divider + seq![' ']
}

impl View {
    /// The columns that a line may fill: what the frame leaves, less a margin
    /// of one column on either side.
    pub open spec fn interior(&self) -> nat {
        if self.width >= self.borders.columns_taken() + 2 {
            (self.width - (self.borders.columns_taken() + 2)) as nat
        } else {
            0
        }
    }

    /// `s` without the columns that are scrolled away at the left.
    pub open spec fn clipped(&self, s: Seq<char>) -> Seq<char> {
        without_cells(s, self.scroll_col as nat)
    }

    /// `body` is what the viewport shows of `line`. Without a search it is
    /// the line, clipped. With one, a line that holds a match has each match
    /// replaced by the search text in bold black on white, and is then
    /// clipped; a line that holds none is clipped and then put in dark grey.
    pub open spec fn is_body(&self, line: Seq<char>, body: Seq<char>) -> bool {
        if self.search@.len() == 0 {
            body == self.clipped(line)
        } else if occurs(line, self.search@) {
            exists|mark: Seq<char>|
                #![auto]
                paints(Style::BlackOnWhiteBold, mark, self.search@) && body == self.clipped(
                    replaced(line, self.search@, mark),
                )
        } else {
            paints(Style::DarkGrey, body, self.clipped(line))
        }
    }

    /// `row` is the row that the viewport draws for `line`, which has the
    /// number `number`: the line number where those are shown, then what
    /// the viewport shows of the line, the two cut down and filled up to the
    /// columns that a line may fill.
    pub open spec fn is_row(&self, line: Seq<char>, number: nat, row: Seq<char>) -> bool {
        exists|gutter: Seq<char>, body: Seq<char>|
            #![auto]
            (if self.show_line_numbers {
                is_gutter(number, gutter)
            } else {
                gutter.len() == 0
            }) && self.is_body(line, body) && row == fitted(gutter + body, self.interior())
    }

    /// The number of lines that are drawn when `line_count` lines are
    /// buffered: those of the page that are there.
    pub open spec fn shown(&self, line_count: nat) -> nat {
        let last = if self.end_row() <= line_count {
            self.end_row() as nat
        } else {
            line_count
        };
        if last >= self.scroll_row {
            (last - self.scroll_row) as nat
        } else {
            0
        }
    }

    /// The column in which every row starts: behind the left edge of the
    /// frame, and one column further where the frame is drawn.
    pub open spec fn first_column(&self) -> u16 {
        clamped(
            width_of(self.borders.left@) + if self.show_borders {
                1int
            } else {
                0int
            },
        )
    }

    /// The row of the terminal on which the `i`-th line of the page is drawn.
    pub open spec fn row_on_screen(&self, i: int) -> u16 {
        clamped(
            i + if self.show_borders {
                1int
            } else {
                0int
            },
        )
    }

    /// The `i`-th three of `ops` draw the `i`-th line of the page: they move
    /// to the start of its row, print it and send it.
    pub open spec fn draws_row(&self, lines: Seq<String>, ops: Seq<OpView>, i: int) -> bool {
        &&& ops[3 * i] == OpView::MoveTo(self.first_column(), self.row_on_screen(i))
        &&& ops[3 * i + 1] matches OpView::Print(row) && self.is_row(
            lines[self.scroll_row + i]@,
            (self.scroll_row + i + 1) as nat,
            row,
        )
        &&& ops[3 * i + 2] == OpView::Flush
    }

    /// `ops` draw the page: three operations for each line that is shown, from
    /// the first line of the page down.
    pub open spec fn is_page(&self, lines: Seq<String>, ops: Seq<OpView>) -> bool {
        &&& ops.len() == 3 * self.shown(lines.len())
        &&& forall|i: int| 0 <= i < self.shown(lines.len()) ==> #[trigger] self.draws_row(lines, ops, i)
    }

    /// The line number: the number at the right of three columns and a
    /// divider, both in dark grey.
    pub fn gutter(number: usize) -> (out: String)
        ensures
            is_gutter(number as nat, out@),
    {
        let plain = right_aligned(decimal(number).as_str(), 3);
        let digits = paint(Style::DarkGrey, plain.as_str());
        let divider = paint(Style::DarkGrey, "│");
        let mut out = digits.clone();
        proof {
            reveal_strlit(" ");
            assert(" "@ =~= seq![' ']);
        }
        out.append(" ");
        out.append(divider.as_str());
        out.append(" ");
        assert(out@ == digits@ + seq![' '] + divider@ + seq![' ']);
        out
    }

    /// What the viewport shows of `line`: its matches marked or the line in
    /// dark grey where a search is set, and the columns at its left cut off.
    pub fn body(&self, line: &str) -> (out: String)
        ensures
            self.is_body(line@, out@),
    {
        if self.search.as_str().is_empty() {
            return self.clip(line);
        }
        let mark = paint(Style::BlackOnWhiteBold, self.search.as_str());
        let (marked, found) = replace_all(line, self.search.as_str(), mark.as_str());
        if found {
            self.clip(marked.as_str())
        } else {
            let clipped = self.clip(line);
            paint(Style::DarkGrey, clipped.as_str())
        }
    }

    /// Cuts off the columns that are scrolled away at the left.
    pub fn clip(&self, s: &str) -> (out: String)
        ensures
            out@ == self.clipped(s@),
    {
        if self.scroll_col > 0 {
            skip_visible(s, self.scroll_col)
        } else {
            proof {
                lemma_without_no_cells(s@);
            }
            String::from_str(s)
        }
    }

    /// The row for `line`, which has the number `number`.
    pub fn row(&self, line: &str, number: usize) -> (out: String)
        ensures
            self.is_row(line@, number as nat, out@),
    {
        let body = self.body(line);
        let mut content = if self.show_line_numbers {
            Self::gutter(number)
        } else {
            String::new()
        };
        let ghost gutter = content@;
        content.append(body.as_str());
        let width = self.width.saturating_sub(self.borders.width_reduction().saturating_add(2));
        let out = fit_visible(content.as_str(), width);
        assert(out@ == fitted(gutter + body@, self.interior()));
        out
    }

    /// Draws the lines of the page, as far as they are buffered: for each a
    /// move to the start of its row, the row itself, and a flush.
    pub fn render(&self, lines: &Vec<String>) -> (ops: Vec<Op>)
        ensures
            self.is_page(lines@, views(ops@)),
    {
        let start = self.start();
        let end = if self.end() <= lines.len() {
            self.end()
        } else {
            lines.len()
        };
        let offset: usize = if self.show_borders {
            1
        } else {
            0
        };
        let column = clamp(visible_width(self.borders.left.as_str()).saturating_add(offset));
        let mut ops: Vec<Op> = Vec::new();
        if end <= start {
            return ops;
        }
        let mut i: usize = 0;
        while i < end - start
            invariant
                start == self.scroll_row,
                start < end <= lines@.len(),
                end - start == self.shown(lines@.len()),
                i <= end - start,
                offset == if self.show_borders {
                    1int
                } else {
                    0int
                },
                column == self.first_column(),
                ops@.len() == 3 * i,
                forall|k: int| 0 <= k < i ==> #[trigger] self.draws_row(lines@, views(ops@), k),
            decreases end - start - i,
        {
            let ghost before = views(ops@);
            let text = self.row(lines[start + i].as_str(), start + i + 1);
            ops.push(Op::MoveTo(column, clamp(i.saturating_add(offset))));
            ops.push(Op::Print(text));
            ops.push(Op::Flush);
            proof {
                let after = views(ops@);
                assert forall|k: int| 0 <= k < i implies #[trigger] self.draws_row(
                    lines@,
                    after,
                    k,
                ) by {
                    assert(self.draws_row(lines@, before, k));
                    assert(after[3 * k] == before[3 * k]);
                    assert(after[3 * k + 1] == before[3 * k + 1]);
                    assert(after[3 * k + 2] == before[3 * k + 2]);
                }
                assert(self.draws_row(lines@, after, i as int));
            }
            i = i + 1;
        }
        ops
    }
}

} // verus!
