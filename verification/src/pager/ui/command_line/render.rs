//! How the command line is drawn.

use super::{CommandLine, Mode};
use crate::helpers::ansi::{visible_width, width_of};
use crate::helpers::style::{is_painted, paint, paint_all, paints, pieces, Piece, Style};
use crate::pager::terminal::{clamp, clamped, views, Op, OpView};
use vstd::prelude::*;

verus! {

/// The help for a mode, piece by piece: the keys that do something in it and
/// what they do.
pub open spec fn help_of(mode: Mode) -> Seq<(Style, Seq<char>)> {
    match mode {
        Mode::Search => seq![
            (Style::DarkGreen, "Enter"@),
            (Style::Plain, " "@),
            (Style::DarkGreyItalic, "Submit"@),
            (Style::Plain, " "@),
            (Style::DarkGrey, "•"@),
            (Style::Plain, " "@),
            (Style::DarkGreen, "Ctrl+G"@),
            (Style::Plain, " "@),
            (Style::DarkGreyItalic, "Goto"@),
            (Style::Plain, " "@),
            (Style::DarkGrey, "•"@),
            (Style::Plain, " "@),
            (Style::DarkGreen, "Esc"@),
            (Style::Plain, " "@),
            (Style::DarkGreyItalic, "Back"@),
        ],
        Mode::Goto => seq![
            (Style::DarkGreen, "Enter"@),
            (Style::Plain, " "@),
            (Style::DarkGreyItalic, "Submit"@),
            (Style::Plain, " "@),
            (Style::DarkGrey, "•"@),
            (Style::Plain, " "@),
            (Style::DarkGreen, "Ctrl+F"@),
            (Style::Plain, " "@),
            (Style::DarkGreyItalic, "Find"@),
            (Style::Plain, " "@),
            (Style::DarkGrey, "•"@),
            (Style::Plain, " "@),
            (Style::DarkGreen, "Esc"@),
            (Style::Plain, " "@),
            (Style::DarkGreyItalic, "Back"@),
        ],
        Mode::Base => seq![
            (Style::DarkGreen, "Ctrl+F"@),
            (Style::DarkGreyItalic, ", "@),
            (Style::DarkGreen, "/"@),
            (Style::Plain, " "@),
            (Style::DarkGreyItalic, "Find"@),
            (Style::Plain, " "@),
            (Style::DarkGrey, "•"@),
            (Style::Plain, " "@),
            (Style::DarkGreen, "Ctrl+G"@),
            (Style::DarkGreyItalic, ", "@),
            (Style::DarkGreen, ":"@),
            (Style::Plain, " "@),
            (Style::DarkGreyItalic, "Goto"@),
            (Style::Plain, " "@),
            (Style::DarkGrey, "•"@),
            (Style::Plain, " "@),
            (Style::DarkGreen, "Esc"@),
            (Style::Plain, " "@),
            (Style::DarkGreyItalic, "Quit"@),
        ],
    }
}

/// The badge that names a mode, and its style. Nothing names the base mode.
pub open spec fn badge_of(mode: Mode) -> (Style, Seq<char>) {
    match mode {
        Mode::Base => (Style::Plain, ""@),
        Mode::Goto => (Style::BlackOnCyan, " GOTO "@),
        Mode::Search => (Style::BlackOnDarkYellow, " FIND "@),
    }
}

/// What to type in a mode, shown as long as nothing is typed.
pub open spec fn hint_of(mode: Mode) -> Seq<char> {
    match mode {
        Mode::Base => ""@,
        Mode::Goto => "Enter Line or Line:Column"@,
        Mode::Search => "Enter Search Query…"@,
    }
}

/// The help for a mode, piece by piece.
pub fn help(mode: Mode) -> (out: Vec<Piece>)
    ensures
        pieces(out@) == help_of(mode),
{
    let out: Vec<Piece> = match mode {
        Mode::Search => vec![
            (Style::DarkGreen, "Enter"),
            (Style::Plain, " "),
            (Style::DarkGreyItalic, "Submit"),
            (Style::Plain, " "),
            (Style::DarkGrey, "•"),
            (Style::Plain, " "),
            (Style::DarkGreen, "Ctrl+G"),
            (Style::Plain, " "),
            (Style::DarkGreyItalic, "Goto"),
            (Style::Plain, " "),
            (Style::DarkGrey, "•"),
            (Style::Plain, " "),
            (Style::DarkGreen, "Esc"),
            (Style::Plain, " "),
            (Style::DarkGreyItalic, "Back"),
        ],
        Mode::Goto => vec![
            (Style::DarkGreen, "Enter"),
            (Style::Plain, " "),
            (Style::DarkGreyItalic, "Submit"),
            (Style::Plain, " "),
            (Style::DarkGrey, "•"),
            (Style::Plain, " "),
            (Style::DarkGreen, "Ctrl+F"),
            (Style::Plain, " "),
            (Style::DarkGreyItalic, "Find"),
            (Style::Plain, " "),
            (Style::DarkGrey, "•"),
            (Style::Plain, " "),
            (Style::DarkGreen, "Esc"),
            (Style::Plain, " "),
            (Style::DarkGreyItalic, "Back"),
        ],
        Mode::Base => vec![
            (Style::DarkGreen, "Ctrl+F"),
            (Style::DarkGreyItalic, ", "),
            (Style::DarkGreen, "/"),
            (Style::Plain, " "),
            (Style::DarkGreyItalic, "Find"),
            (Style::Plain, " "),
            (Style::DarkGrey, "•"),
            (Style::Plain, " "),
            (Style::DarkGreen, "Ctrl+G"),
            (Style::DarkGreyItalic, ", "),
            (Style::DarkGreen, ":"),
            (Style::Plain, " "),
            (Style::DarkGreyItalic, "Goto"),
            (Style::Plain, " "),
            (Style::DarkGrey, "•"),
            (Style::Plain, " "),
            (Style::DarkGreen, "Esc"),
            (Style::Plain, " "),
            (Style::DarkGreyItalic, "Quit"),
        ],
    };
    assert(pieces(out@) =~= help_of(mode));
    out
}

impl CommandLine {
    /// The operations that draw the command line from its four styled
    /// parts. They clear the row, put the help at its right end, one column
    /// short of the edge, and write from the left the badge of the mode and
    /// what is typed with the cursor behind it; where nothing is typed, the
    /// cursor with the hint behind it, and in the base mode neither.
    pub open spec fn line_of(
        &self,
        help: Seq<char>,
        badge: Seq<char>,
        cursor: Seq<char>,
        hint: Seq<char>,
    ) -> Seq<OpView> {
        seq![
            OpView::MoveTo(self.x, self.y),
            OpView::ClearLine,
            OpView::MoveToColumn(clamped(self.width - (width_of(help) + 1))),
            OpView::Print(help),
            OpView::MoveToColumn(self.x),
            OpView::Print(" "@),
            OpView::Print(badge),
            OpView::Print(" "@),
        ] + (if self.input@.len() > 0 {
            seq![OpView::Print(self.input@), OpView::Print(cursor)]
        } else if self.mode != Mode::Base {
            seq![OpView::Print(cursor), OpView::Print(hint)]
        } else {
            Seq::empty()
        }) + seq![OpView::Flush]
    }

    /// `ops` draw the command line: the help of its mode, the badge of its
    /// mode, a blinking bar as the cursor and the hint of its mode in dark
    /// grey italics, put together as `line_of` says.
    pub open spec fn is_line(&self, ops: Seq<OpView>) -> bool {
        exists|help: Seq<char>, badge: Seq<char>, cursor: Seq<char>, hint: Seq<char>|
            #![auto]
            is_painted(help_of(self.mode), help) && paints(
                badge_of(self.mode).0,
                badge,
                badge_of(self.mode).1,
            ) && paints(Style::RapidBlink, cursor, "|"@) && paints(
                Style::DarkGreyItalic,
                hint,
                hint_of(self.mode),
            ) && ops == self.line_of(help, badge, cursor, hint)
    }

    /// The operations that draw the command line from its four styled parts.
    pub fn line(&self, help: String, badge: String, cursor: String, hint: String) -> (ops: Vec<Op>)
        ensures
            views(ops@) == self.line_of(help@, badge@, cursor@, hint@),
    {
        let column = clamp(self.width.saturating_sub(visible_width(help.as_str()).saturating_add(1)));
        let mut ops: Vec<Op> = Vec::new();
        ops.push(Op::MoveTo(self.x, self.y));
        ops.push(Op::ClearLine);
        ops.push(Op::MoveToColumn(column));
        ops.push(Op::Print(help));
        ops.push(Op::MoveToColumn(self.x));
        ops.push(Op::Print(String::from_str(" ")));
        ops.push(Op::Print(badge));
        ops.push(Op::Print(String::from_str(" ")));
        if !self.input.as_str().is_empty() {
            ops.push(Op::Print(self.input.clone()));
            ops.push(Op::Print(cursor));
        } else if self.mode != Mode::Base {
            ops.push(Op::Print(cursor));
            ops.push(Op::Print(hint));
        }
        ops.push(Op::Flush);
        assert(views(ops@) =~= self.line_of(help@, badge@, cursor@, hint@));
        ops
    }

    /// Draws the command line.
    pub fn render(&self) -> (ops: Vec<Op>)
        ensures
            self.is_line(views(ops@)),
    {
        let help = paint_all(&help(self.mode));
        let badge = match self.mode {
            Mode::Base => paint(Style::Plain, ""),
            Mode::Goto => paint(Style::BlackOnCyan, " GOTO "),
            Mode::Search => paint(Style::BlackOnDarkYellow, " FIND "),
        };
        let cursor = paint(Style::RapidBlink, "|");
        let hint = match self.mode {
            Mode::Base => paint(Style::DarkGreyItalic, ""),
            Mode::Goto => paint(Style::DarkGreyItalic, "Enter Line or Line:Column"),
            Mode::Search => paint(Style::DarkGreyItalic, "Enter Search Query…"),
        };
        let ghost parts = (help@, badge@, cursor@, hint@);
        let ops = self.line(help, badge, cursor, hint);
        assert(views(ops@) == self.line_of(parts.0, parts.1, parts.2, parts.3));
        ops
    }
}

} // verus!
