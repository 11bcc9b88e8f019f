//! How the pager draws: each part of the screen only when it differs from
//! what was drawn of it last.

use crate::pager::terminal::{views, Op, OpView};
use crate::pager::{Pager, PreviousFrame};
use vstd::prelude::*;
use vstd::view::View as _;

verus! {

impl Pager {
    /// The viewport is as it was drawn last.
    pub open spec fn view_is_drawn(&self) -> bool {
        self.view.same_frame(&self.prev.view)
    }

    /// The command line is as it was drawn last.
    pub open spec fn command_line_is_drawn(&self) -> bool {
        self.command_line.same_frame(&self.prev.command_line)
    }

    /// `after` and `ops` are what drawing makes of this pager. A part that
    /// is as it was drawn last is left alone; any other one is drawn, the
    /// viewport before the command line, and remembered as drawn.
    pub open spec fn draws(&self, after: &Pager, ops: Seq<OpView>) -> bool {
        exists|page: Seq<OpView>, line: Seq<OpView>|
            #![auto]
            {
                &&& if self.view_is_drawn() {
                    page.len() == 0
                } else {
                    self.view.is_page(self.lines@, page)
                }
                &&& if self.command_line_is_drawn() {
                    line.len() == 0
                } else {
                    self.command_line.is_line(line)
                }
                &&& ops == page + line
                &&& *after == (Pager {
                    prev: PreviousFrame {
                        view: if self.view_is_drawn() {
                            self.prev.view
                        } else {
                            self.view
                        },
                        command_line: if self.command_line_is_drawn() {
                            self.prev.command_line
                        } else {
                            self.command_line
                        },
                    },
                    ..*self
                })
            }
    }

    /// Draws what has changed since it was drawn last.
    pub fn render(&mut self) -> (ops: Vec<Op>)
        ensures
            old(self).draws(final(self), views(ops@)),
            final(self).view_is_drawn(),
            final(self).command_line_is_drawn(),
    {
        let mut ops: Vec<Op> = Vec::new();
        if self.view != self.prev.view {
            ops = self.view.render(&self.lines);
            self.prev.view = self.view.clone();
        }
        let ghost page = views(ops@);
        let mut line: Vec<Op> = Vec::new();
        if self.command_line != self.prev.command_line {
            line = self.command_line.render();
            self.prev.command_line = self.command_line.clone();
        }
        let ghost line_views = views(line@);
        ops.append(&mut line);
        assert(views(ops@) =~= page + line_views);
        ops
    }
}

/// Drawing twice in a row writes nothing the second time: what the first
/// drawing has left is drawn, so the second one finds nothing to do and
/// leaves the pager as it is.
pub proof fn lemma_second_render_is_silent(
    first: Pager,
    second: Pager,
    third: Pager,
    ops: Seq<OpView>,
    more: Seq<OpView>,
)
    requires
        first.draws(&second, ops),
        second.draws(&third, more),
    ensures
        more.len() == 0,
        third == second,
{
    assert(second.view_is_drawn());
    assert(second.command_line_is_drawn());
}

} // verus!
