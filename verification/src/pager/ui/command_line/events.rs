//! How the command line takes keys in.

use super::{CommandLine, Mode};
use crate::helpers::file::is_digit;
use crate::helpers::text::{chars_of, string_of, whitespace, without_last_word};
use crate::pager::terminal::{Event, KeyCode, KeyEvent};
use vstd::prelude::*;

verus! {

/// The key opens the search: `/`, or `f` with the control key.
pub open spec fn opens_search(key: KeyEvent) -> bool {
    key.code == KeyCode::Char('/') || (key.control && key.code == KeyCode::Char('f'))
}

/// The key opens the goto: `:` or `;`, or `g` with the control key.
pub open spec fn opens_goto(key: KeyEvent) -> bool {
    key.code == KeyCode::Char(':') || key.code == KeyCode::Char(';') || (key.control && key.code
        == KeyCode::Char('g'))
}

/// The character can stand in a place to go to: a digit or the colon.
pub open spec fn fits_goto(c: char) -> bool {
    c == ':' || is_digit(c)
}

impl CommandLine {
    /// Whether the command line keeps the event to itself. While it takes
    /// text in, it keeps the escape key and every key that types a
    /// character; else it keeps nothing.
    pub open spec fn consumes(&self, event: Event) -> bool {
        self.mode != Mode::Base && match event {
            Event::Key(key) => key.code == KeyCode::Esc || key.code is Char,
            _ => false,
        }
    }

    /// What the command line takes in after the event.
    pub open spec fn mode_after(&self, event: Event) -> Mode {
        match event {
            Event::Key(key) => if self.mode == Mode::Base {
                if opens_search(key) {
                    Mode::Search
                } else if opens_goto(key) {
                    Mode::Goto
                } else {
                    Mode::Base
                }
            } else if key.code == KeyCode::Esc {
                Mode::Base
            } else if key.control && key.code == KeyCode::Char('f') {
                Mode::Search
            } else if key.control && key.code == KeyCode::Char('g') {
                Mode::Goto
            } else {
                self.mode
            },
            _ => self.mode,
        }
    }

    /// What is typed after the event. While text is taken in, the escape key
    /// and a change of mode empty it, a character is added to it (in a place
    /// to go to only a digit or a colon), the backspace key takes its last
    /// character, and with the control key its last word.
    pub open spec fn input_after(&self, event: Event) -> Seq<char> {
        match event {
            Event::Key(key) => if self.mode == Mode::Base {
                self.input@
            } else if key.code == KeyCode::Esc {
                Seq::empty()
            } else if key.control && (key.code == KeyCode::Char('f') || key.code == KeyCode::Char(
                'g',
            )) {
                Seq::empty()
            } else {
                match key.code {
                    KeyCode::Char(c) => if self.mode == Mode::Search || fits_goto(c) {
                        self.input@.push(c)
                    } else {
                        self.input@
                    },
                    KeyCode::Backspace => if key.control {
                        without_last_word(self.input@)
                    } else if self.input@.len() > 0 {
                        self.input@.drop_last()
                    } else {
                        self.input@
                    },
                    _ => self.input@,
                }
            },
            _ => self.input@,
        }
    }

    /// `after` is this command line once it has taken `event` in: its mode
    /// and what is typed are as `mode_after` and `input_after` say, and
    /// nothing else has changed.
    pub open spec fn takes(&self, event: Event, after: &CommandLine) -> bool {
        &&& after.input@ == self.input_after(event)
        &&& *after == (CommandLine { mode: self.mode_after(event), input: after.input, ..*self })
    }

    /// Takes an event in, and tells whether the event is used up by that.
    pub fn handle_events(&mut self, event: &Event) -> (consumed: bool)
        ensures
            consumed == old(self).consumes(*event),
            old(self).takes(*event, final(self)),
            old(self).wf() ==> final(self).wf(),
    {
        match self.mode {
            Mode::Base => self.handle_base_mode_events(event),
            _ => self.handle_search_and_goto_mode_events(event),
        }
    }

    /// Takes an event in while text is typed.
    fn handle_search_and_goto_mode_events(&mut self, event: &Event) -> (consumed: bool)
        requires
            old(self).mode != Mode::Base,
        ensures
            consumed == old(self).consumes(*event),
            old(self).takes(*event, final(self)),
            final(self).wf(),
    {
        match event {
            Event::Key(key) => {
                match key.code {
                    KeyCode::Esc => {
                        self.mode = Mode::Base;
                        self.input = String::new();
                        true
                    },
                    KeyCode::Char(c) => {
                        if key.control && c == 'f' {
                            self.mode = Mode::Search;
                            self.input = String::new();
                        } else if key.control && c == 'g' {
                            self.mode = Mode::Goto;
                            self.input = String::new();
                        } else if self.mode == Mode::Search || c == ':' || ('0' <= c && c <= '9') {
                            self.input.push(c);
                        }
                        true
                    },
                    KeyCode::Backspace => {
                        if key.control {
                            self.delete_word();
                        } else {
                            self.delete_char();
                        }
                        false
                    },
                    _ => false,
                }
            },
            _ => false,
        }
    }

    /// Takes an event in while nothing is typed: the keys that open the
    /// search or the goto do so, and are left for others to see.
    fn handle_base_mode_events(&mut self, event: &Event) -> (consumed: bool)
        requires
            old(self).mode == Mode::Base,
        ensures
            !consumed,
            old(self).takes(*event, final(self)),
            final(self).input == old(self).input,
    {
        match event {
            Event::Key(key) => {
                match key.code {
                    KeyCode::Char(c) => {
                        if c == '/' || (key.control && c == 'f') {
                            self.mode = Mode::Search;
                        } else if c == ':' || c == ';' || (key.control && c == 'g') {
                            self.mode = Mode::Goto;
                        }
                    },
                    _ => {},
                }
            },
            _ => {},
        }
        false
    }

    /// Takes the last character away.
    pub fn delete_char(&mut self)
        ensures
            final(self).input@ == if old(self).input@.len() > 0 {
                old(self).input@.drop_last()
            } else {
                old(self).input@
            },
            *final(self) == (CommandLine { input: final(self).input, ..*old(self) }),
    {
        let chars = chars_of(self.input.as_str());
        let n = chars.len();
        if n > 0 {
            let shorter = string_of(chars.as_slice(), 0, n - 1);
            assert(chars@.subrange(0, n - 1) =~= chars@.drop_last());
            self.input = shorter;
        }
    }

    /// Takes the last word away, and the white space that sets it off.
    pub fn delete_word(&mut self)
        ensures
            final(self).input@ == without_last_word(old(self).input@),
            *final(self) == (CommandLine { input: final(self).input, ..*old(self) }),
    {
        let chars = chars_of(self.input.as_str());
        let mut end: usize = chars.len();
        assert(chars@.take(end as int) =~= chars@);
        while end > 0 && !whitespace(chars[end - 1])
            invariant
                end <= chars@.len(),
                without_last_word(chars@.take(end as int)) == without_last_word(chars@),
            decreases end,
        {
            assert(chars@.take(end as int).drop_last() =~= chars@.take(end - 1));
            end = end - 1;
        }
        let kept = if end > 0 {
            assert(chars@.take(end as int).drop_last() =~= chars@.subrange(0, end - 1));
            string_of(chars.as_slice(), 0, end - 1)
        } else {
            assert(chars@.take(0) =~= Seq::<char>::empty());
            String::new()
        };
        self.input = kept;
    }
}

/// Nothing is typed while nothing is taken in: a command line of which this
/// holds takes any event in without losing it, since every way back to the
/// base mode empties what is typed.
pub proof fn lemma_base_mode_has_no_input(line: CommandLine, event: Event, after: CommandLine)
    requires
        line.wf(),
        line.takes(event, &after),
    ensures
        after.wf(),
{
}

} // verus!
