//! How the viewport moves.

use super::{capped, View};
use crate::pager::terminal::{Event, KeyCode};
use vstd::prelude::*;
use vstd::view::View as _;

verus! {

impl View {
    /// The viewport `n` lines further up; it stops at the first line.
    pub open spec fn scrolled_up(&self, n: usize) -> View {
        if self.scroll_row > 0 {
            View { scroll_row: capped(self.scroll_row - n), ..*self }
        } else {
            *self
        }
    }

    /// The viewport `n` lines further down, as long as its page ends before
    /// the last of the `line_count` buffered lines; else it stays.
    pub open spec fn scrolled_down(&self, n: usize, line_count: nat) -> View {
        if self.end_row() < line_count {
            View { scroll_row: capped(self.scroll_row + n), ..*self }
        } else {
            *self
        }
    }

    /// The viewport `n` columns further left; it stops at the first column.
    pub open spec fn scrolled_left(&self, n: usize) -> View {
        View { scroll_col: capped(self.scroll_col - n), ..*self }
    }

    /// The viewport `n` columns further right.
    pub open spec fn scrolled_right(&self, n: usize) -> View {
        View { scroll_col: capped(self.scroll_col + n), ..*self }
    }

    /// The viewport one page further up: all its rows but one; it stops at
    /// the first line.
    pub open spec fn paged_up(&self) -> View {
        View { scroll_row: capped(self.scroll_row - capped(self.height - 1)), ..*self }
    }

    /// The viewport one page further down: all its rows but one where a full
    /// page of buffered lines follows, else on the last page, and where it
    /// is as it was where its page already holds the last buffered line.
    pub open spec fn paged_down(&self, line_count: nat) -> View {
        if self.end_row() + self.height < line_count {
            View { scroll_row: capped(self.scroll_row + capped(self.height - 1)), ..*self }
        } else if self.end_row() < line_count {
            View { scroll_row: capped(line_count - self.height + 1), ..*self }
        } else {
            *self
        }
    }

    /// The viewport at the first column; from the first column, at the first
    /// line.
    pub open spec fn homed(&self) -> View {
        if self.scroll_col > 0 {
            View { scroll_col: 0, ..*self }
        } else {
            View { scroll_row: 0, ..*self }
        }
    }

    /// The viewport after the terminal has reported `event`, with
    /// `line_count` lines buffered.
    pub open spec fn after_event(&self, event: Event, line_count: nat) -> View {
        match event {
            Event::Key(key) => match key.code {
                KeyCode::Up => self.scrolled_up(1),
                KeyCode::Down => self.scrolled_down(1, line_count),
                KeyCode::Left => self.scrolled_left(1),
                KeyCode::Right => self.scrolled_right(1),
                KeyCode::PageUp => self.paged_up(),
                KeyCode::PageDown => self.paged_down(line_count),
                KeyCode::Home => self.homed(),
                KeyCode::Char(c) => if c == 'k' {
                    self.scrolled_up(1)
                } else if c == 'j' {
                    self.scrolled_down(1, line_count)
                } else if c == 'h' {
                    self.scrolled_left(1)
                } else if c == 'l' {
                    self.scrolled_right(1)
                } else {
                    *self
                },
                _ => *self,
            },
            Event::ScrollUp => self.scrolled_up(1),
            Event::ScrollDown => self.scrolled_down(1, line_count),
            _ => *self,
        }
    }

    /// The viewport after it has been scrolled up by each of `steps` in turn.
    pub open spec fn after_scrolls_up(&self, steps: Seq<usize>) -> View
        decreases steps.len(),
    {
        if steps.len() == 0 {
            *self
        } else {
            self.after_scrolls_up(steps.drop_last()).scrolled_up(steps.last())
        }
    }

    /// The viewport after it has been scrolled down by each of `steps` in
    /// turn, with `line_count` lines buffered.
    pub open spec fn after_scrolls_down(&self, steps: Seq<usize>, line_count: nat) -> View
        decreases steps.len(),
    {
        if steps.len() == 0 {
            *self
        } else {
            self.after_scrolls_down(steps.drop_last(), line_count).scrolled_down(
                steps.last(),
                line_count,
            )
        }
    }

    /// Reacts to a key or to the mouse wheel by moving. The viewport never
    /// keeps an event to itself.
    pub fn handle_events(&mut self, event: &Event, lines: &Vec<String>) -> (consumed: bool)
        ensures
            !consumed,
            *final(self) == old(self).after_event(*event, lines@.len()),
    {
        match event {
            Event::Key(key) => match key.code {
                KeyCode::Up => self.scroll_up(1),
                KeyCode::Down => self.scroll_down(1, lines),
                KeyCode::Left => self.scroll_left(1),
                KeyCode::Right => self.scroll_right(1),
                KeyCode::PageUp => self.page_up(),
                KeyCode::PageDown => self.page_down(lines),
                KeyCode::Home => self.home(),
                KeyCode::Char(c) => if c == 'k' {
                    self.scroll_up(1)
                } else if c == 'j' {
                    self.scroll_down(1, lines)
                } else if c == 'h' {
                    self.scroll_left(1)
                } else if c == 'l' {
                    self.scroll_right(1)
                } else {
                    false
                },
                _ => false,
            },
            Event::ScrollUp => self.scroll_up(1),
            Event::ScrollDown => self.scroll_down(1, lines),
            _ => false,
        }
    }

    /// Scrolls up by `n` lines, but not beyond the first line.
    pub fn scroll_up(&mut self, n: usize) -> (consumed: bool)
        ensures
            !consumed,
            *final(self) == old(self).scrolled_up(n),
    {
        if self.start() > 0 {
            self.scroll_row = self.scroll_row.saturating_sub(n);
        }
        false
    }

    /// Scrolls down by `n` lines, unless the page already holds the last
    /// buffered line.
    pub fn scroll_down(&mut self, n: usize, lines: &Vec<String>) -> (consumed: bool)
        ensures
            !consumed,
            *final(self) == old(self).scrolled_down(n, lines@.len()),
    {
        if self.end() < lines.len() {
            self.scroll_row = self.scroll_row.saturating_add(n);
        }
        false
    }

    /// Scrolls left by `n` columns, but not beyond the first column.
    pub fn scroll_left(&mut self, n: usize) -> (consumed: bool)
        ensures
            !consumed,
            *final(self) == old(self).scrolled_left(n),
    {
        self.scroll_col = self.scroll_col.saturating_sub(n);
        false
    }

    /// Scrolls right by `n` columns.
    pub fn scroll_right(&mut self, n: usize) -> (consumed: bool)
        ensures
            !consumed,
            *final(self) == old(self).scrolled_right(n),
    {
        self.scroll_col = self.scroll_col.saturating_add(n);
        false
    }

    /// Scrolls up by one page.
    pub fn page_up(&mut self) -> (consumed: bool)
        ensures
            !consumed,
            *final(self) == old(self).paged_up(),
    {
        self.scroll_row = self.scroll_row.saturating_sub(self.height.saturating_sub(1));
        false
    }

    /// Scrolls down by one page.
    pub fn page_down(&mut self, lines: &Vec<String>) -> (consumed: bool)
        ensures
            !consumed,
            *final(self) == old(self).paged_down(lines@.len()),
    {
        let end = self.end();
        let count = lines.len();
        if end.saturating_add(self.height) < count {
            self.scroll_row = self.scroll_row.saturating_add(self.height.saturating_sub(1));
        } else if end < count {
            self.scroll_row = if count >= self.height {
                (count - self.height).saturating_add(1)
            } else {
                0
            };
        }
        false
    }

    /// Goes to the first column; from the first column, to the first line.
    pub fn home(&mut self) -> (consumed: bool)
        ensures
            !consumed,
            *final(self) == old(self).homed(),
    {
        if self.scroll_col > 0 {
            self.scroll_col = 0;
        } else {
            self.scroll_row = 0;
        }
        false
    }
}

/// Scrolling down never takes the end of the page far beyond the buffered
/// lines: with steps of at most `most` lines, an end that lay at most
/// `most - 1` lines behind the last buffered line still does so after any
/// number of steps. With steps of one line the page never ends behind the
/// last buffered line; without a frame its first line then never exceeds
/// the number of lines less the rows of the viewport. The steps change
/// nothing but the first line on screen.
pub proof fn lemma_scroll_down_stays_in_buffer(
    view: View,
    steps: Seq<usize>,
    line_count: usize,
    most: usize,
)
    requires
        most >= 1,
        forall|i: int| 0 <= i < steps.len() ==> steps[i] <= most,
        view.scroll_row + view.height - view.frame_rows() <= line_count + most - 1,
    ensures
        view.after_scrolls_down(steps, line_count as nat).scroll_row + view.height
            - view.frame_rows() <= line_count + most - 1,
        view.after_scrolls_down(steps, line_count as nat) == (View {
            scroll_row: view.after_scrolls_down(steps, line_count as nat).scroll_row,
            ..view
        }),
    decreases steps.len(),
{
    if steps.len() > 0 {
        lemma_scroll_down_stays_in_buffer(view, steps.drop_last(), line_count, most);
        let before = view.after_scrolls_down(steps.drop_last(), line_count as nat);
        assert(before.frame_rows() == view.frame_rows());
        assert(steps.last() <= most);
    }
}

/// Scrolling up never takes the viewport above the first line, nor below
/// where it was: after any steps its first line lies between the two.
pub proof fn lemma_scroll_up_stays_at_or_below_top(view: View, steps: Seq<usize>)
    ensures
        0 <= view.after_scrolls_up(steps).scroll_row <= view.scroll_row,
    decreases steps.len(),
{
    if steps.len() > 0 {
        lemma_scroll_up_stays_at_or_below_top(view, steps.drop_last());
    }
}

} // verus!
