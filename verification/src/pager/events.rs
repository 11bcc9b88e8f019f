//! How the pager hands an event around: first to the command line, then to
//! the viewport, and what neither keeps to itself it looks at once more.

use crate::helpers::file::{parse_row_and_col, row_and_col_of};
use crate::pager::terminal::{views, Event, KeyCode, Op};
use crate::pager::ui::command_line::{CommandLine, Mode};
use crate::pager::ui::view::{capped, View};
use crate::pager::Pager;
use vstd::prelude::*;
use vstd::view::View as _;

verus! {

/// What the pager asks of whoever runs it, once it has seen an event.
#[derive(Debug)]
pub enum Action {
    /// Nothing.
    Nothing,
    /// To carry these operations out.
    Draw(Vec<Op>),
    /// To hand over every line that the input still holds, and then to call
    /// `end`.
    ReadAll,
}

/// The place that a goto names as `row` or `row:column`, both counted from
/// one: the indices of the row and the column. A part that is missing or is
/// no number is taken as one.
pub open spec fn target_of(input: Seq<char>) -> (usize, usize) {
    let (row, col) = row_and_col_of(input);
    (
        match row {
            Some(n) => capped(n - 1),
            None => 0,
        },
        match col {
            Some(n) => capped(n - 1),
            None => 0,
        },
    )
}

/// Reads the place that a goto names.
pub fn goto_target(input: &str) -> (target: (usize, usize))
    ensures
        target == target_of(input@),
{
    let (row, col) = parse_row_and_col(input);
    let row = match row {
        Some(n) => n.saturating_sub(1),
        None => 0,
    };
    let col = match col {
        Some(n) => n.saturating_sub(1),
        None => 0,
    };
    (row, col)
}

impl Pager {
    /// The pager after the enter key. In the search mode the viewport
    /// searches for what is typed. In the goto mode the viewport goes where
    /// the typed text says and the text is emptied.
    pub open spec fn submitted(&self, after: &Pager) -> bool {
        match self.command_line.mode {
            Mode::Base => *after == *self,
            Mode::Search => {
                &&& after.view.search@ == self.command_line.input@
                &&& *after == (Pager {
                    view: View { search: after.view.search, ..self.view },
                    ..*self
                })
            },
            Mode::Goto => {
                &&& after.command_line.input@.len() == 0
                &&& *after == (Pager {
                    view: View {
                        scroll_row: target_of(self.command_line.input@).0,
                        scroll_col: target_of(self.command_line.input@).1,
                        ..self.view
                    },
                    command_line: CommandLine {
                        input: after.command_line.input,
                        ..self.command_line
                    },
                    ..*self
                })
            },
        }
    }

    /// The pager with its viewport on the last page: its first line is so
    /// many lines before the end as the viewport has rows, less one.
    pub open spec fn at_end(&self) -> Pager {
        Pager {
            view: View {
                scroll_row: capped(self.lines@.len() - self.view.height + 1),
                ..self.view
            },
            ..*self
        }
    }

    /// Commits what is typed in the command line.
    pub fn submit(&mut self)
        ensures
            old(self).submitted(final(self)),
            old(self).command_line.wf() ==> final(self).command_line.wf(),
    {
        match self.command_line.mode {
            Mode::Base => {},
            Mode::Search => {
                self.view.search = self.command_line.input.clone();
            },
            Mode::Goto => {
                let (row, col) = goto_target(self.command_line.input.as_str());
                self.view.scroll_row = row;
                self.view.scroll_col = col;
                self.command_line.input = String::new();
            },
        }
    }

    /// Puts the viewport on the last page. This is for the time when the
    /// whole input has been read.
    pub fn end(&mut self)
        ensures
            *final(self) == old(self).at_end(),
    {
        let count = self.lines.len();
        self.view.scroll_row = if count >= self.view.height {
            (count - self.view.height).saturating_add(1)
        } else {
            0
        };
    }

    /// Takes the new size of the terminal, lays the screen out again and
    /// draws the frame.
    pub fn resize(&mut self, w: u16, h: u16) -> (ops: Vec<Op>)
        ensures
            *final(self) == (Pager { width: w as usize, height: h as usize, ..*old(self) }).laid_out(),
            final(self).view.is_frame(views(ops@)),
    {
        self.width = w as usize;
        self.height = h as usize;
        self.setup()
    }

    /// Whether the event, which neither the command line nor the viewport
    /// kept, ends the pager: the escape key and `q` do.
    pub open spec fn quits(event: Event) -> bool {
        event matches Event::Key(key) && (key.code == KeyCode::Esc || key.code == KeyCode::Char(
            'q',
        ))
    }

    /// `after` and `action` are what the event, which the command line has
    /// not kept to itself, makes of this pager. The end key makes it read
    /// the whole input and asks for all of it; the escape key and `q` end
    /// it; the enter key commits what is typed; a new size is laid out and
    /// asks for the frame to be drawn; anything else changes nothing.
    pub open spec fn decides(&self, event: Event, after: &Pager, action: Action) -> bool {
        match event {
            Event::Key(key) => if key.code == KeyCode::End {
                *after == (Pager { read_all: true, ..*self }) && action is ReadAll
            } else if Self::quits(event) {
                *after == (Pager { exit: true, ..*self }) && action is Nothing
            } else if key.code == KeyCode::Enter {
                self.submitted(after) && action is Nothing
            } else {
                *after == *self && action is Nothing
            },
            Event::Resize(w, h) => {
                &&& *after == (Pager { width: w as usize, height: h as usize, ..*self }).laid_out()
                &&& action matches Action::Draw(ops) && after.view.is_frame(views(ops@))
            },
            _ => *after == *self && action is Nothing,
        }
    }

    /// `after` and `action` are what an event makes of this pager.
    ///
    /// The command line takes the event in first. What it keeps to itself
    /// goes no further and asks for nothing. Any other event makes the
    /// viewport move, and then the pager decides on it.
    pub open spec fn reacts(&self, event: Event, after: &Pager, action: Action) -> bool {
        exists|line: CommandLine|
            #![auto]
            self.command_line.takes(event, &line) && if self.command_line.consumes(event) {
                *after == (Pager { command_line: line, ..*self }) && action is Nothing
            } else {
                (Pager {
                    command_line: line,
                    view: self.view.after_event(event, self.lines@.len()),
                    ..*self
                }).decides(event, after, action)
            }
    }

    /// Hands an event around, and tells what is to be done about it.
    pub fn handle_events(&mut self, event: &Event) -> (action: Action)
        ensures
            old(self).reacts(*event, final(self), action),
            old(self).command_line.wf() ==> final(self).command_line.wf(),
    {
        let consumed = self.command_line.handle_events(event);
        let ghost line = self.command_line;
        if consumed {
            return Action::Nothing;
        }
        self.view.handle_events(event, &self.lines);
        let ghost moved = *self;
        let action = match event {
            Event::Key(key) => match key.code {
                KeyCode::End => {
                    self.read_all = true;
                    Action::ReadAll
                },
                KeyCode::Esc => {
                    self.exit();
                    Action::Nothing
                },
                KeyCode::Char(c) => {
                    if c == 'q' {
                        self.exit();
                    }
                    Action::Nothing
                },
                KeyCode::Enter => {
                    self.submit();
                    Action::Nothing
                },
                _ => Action::Nothing,
            },
            Event::Resize(w, h) => Action::Draw(self.resize(*w, *h)),
            _ => Action::Nothing,
        };
        assert(moved.decides(*event, self, action));
        assert(old(self).command_line.takes(*event, &line));
        action
    }
}

} // verus!
