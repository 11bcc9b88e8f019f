use pager::helpers::ansi::visible_width;
use pager::helpers::style::{paint, Style};
use pager::pager::terminal::{Event, KeyCode, KeyEvent, Op};
use pager::pager::ui::command_line::render::help;
use pager::pager::ui::command_line::{CommandLine, Mode};

fn key(code: KeyCode) -> Event {
    Event::Key(KeyEvent { code, control: false })
}

fn ctrl(code: KeyCode) -> Event {
    Event::Key(KeyEvent { code, control: true })
}

fn typed(mode: Mode, input: &str) -> CommandLine {
    let mut line = CommandLine::default();
    line.mode = mode;
    line.input = input.to_string();
    line
}

fn printed(op: &Op) -> &str {
    match op {
        Op::Print(text) => text,
        other => panic!("no text in {other:?}"),
    }
}

#[test]
fn default_command_line_takes_nothing_in() {
    let line = CommandLine::default();
    assert_eq!(Mode::Base, line.mode);
    assert_eq!(Mode::Base, Mode::default());
    assert_eq!("", line.input);
    assert_eq!((0, 0, 0, 0), (line.x, line.y, line.width, line.height));
}

#[test]
fn setup_places_the_command_line() {
    let mut line = typed(Mode::Search, "abc");
    line.setup((2, 23), (80, 1));
    assert_eq!((2, 23, 80, 1), (line.x, line.y, line.width, line.height));
    assert_eq!(Mode::Search, line.mode);
    assert_eq!("abc", line.input);
}

#[test]
fn base_mode_opens_search_and_goto_and_keeps_nothing() {
    for (event, mode) in [
        (key(KeyCode::Char('/')), Mode::Search),
        (ctrl(KeyCode::Char('/')), Mode::Search),
        (ctrl(KeyCode::Char('f')), Mode::Search),
        (key(KeyCode::Char(':')), Mode::Goto),
        (key(KeyCode::Char(';')), Mode::Goto),
        (ctrl(KeyCode::Char('g')), Mode::Goto),
        (key(KeyCode::Char('f')), Mode::Base),
        (key(KeyCode::Char('g')), Mode::Base),
        (key(KeyCode::Char('q')), Mode::Base),
        (key(KeyCode::Esc), Mode::Base),
        (key(KeyCode::Enter), Mode::Base),
        (key(KeyCode::Backspace), Mode::Base),
        (Event::ScrollDown, Mode::Base),
        (Event::Resize(3, 4), Mode::Base),
        (Event::Other, Mode::Base),
    ] {
        let mut line = CommandLine::default();
        assert!(!line.handle_events(&event), "{event:?}");
        assert_eq!(mode, line.mode, "{event:?}");
        assert_eq!("", line.input);
    }
}

#[test]
fn search_mode_takes_every_character() {
    let mut line = typed(Mode::Search, "");
    for c in ['a', ' ', 'q', ':', '7', '/', 'é', 'f'] {
        assert!(line.handle_events(&key(KeyCode::Char(c))));
    }
    assert!(line.handle_events(&ctrl(KeyCode::Char('x'))));
    assert_eq!("a q:7/éfx", line.input);
    assert_eq!(Mode::Search, line.mode);
}

#[test]
fn goto_mode_takes_digits_and_colons_only() {
    let mut line = typed(Mode::Goto, "");
    for c in ['1', 'a', '2', ':', ' ', '3', 'q', '+', '٣', '0', '9'] {
        assert!(line.handle_events(&key(KeyCode::Char(c))), "{c:?}");
    }
    assert_eq!("12:309", line.input);
    assert_eq!(Mode::Goto, line.mode);
}

#[test]
fn escape_goes_back_to_the_base_mode_and_empties_the_input() {
    for mode in [Mode::Search, Mode::Goto] {
        let mut line = typed(mode, "abc");
        assert!(line.handle_events(&key(KeyCode::Esc)));
        assert_eq!(Mode::Base, line.mode);
        assert_eq!("", line.input);
    }
}

#[test]
fn changing_the_mode_empties_the_input() {
    let mut line = typed(Mode::Goto, "12");
    assert!(line.handle_events(&ctrl(KeyCode::Char('f'))));
    assert_eq!(Mode::Search, line.mode);
    assert_eq!("", line.input);
    line.input = "abc".to_string();
    assert!(line.handle_events(&ctrl(KeyCode::Char('g'))));
    assert_eq!(Mode::Goto, line.mode);
    assert_eq!("", line.input);
    line.input = "7".to_string();
    assert!(line.handle_events(&ctrl(KeyCode::Char('g'))));
    assert_eq!(Mode::Goto, line.mode);
    assert_eq!("", line.input);
}

#[test]
fn backspace_takes_the_last_character_and_is_not_kept() {
    let mut line = typed(Mode::Search, "abé");
    assert!(!line.handle_events(&key(KeyCode::Backspace)));
    assert_eq!("ab", line.input);
    line.handle_events(&key(KeyCode::Backspace));
    line.handle_events(&key(KeyCode::Backspace));
    assert_eq!("", line.input);
    assert!(!line.handle_events(&key(KeyCode::Backspace)));
    assert_eq!("", line.input);
    assert_eq!(Mode::Search, line.mode);
}

#[test]
fn control_backspace_takes_the_last_word() {
    for (before, after) in [
        ("foo bar", "foo"),
        ("foo bar baz", "foo bar"),
        ("foo", ""),
        ("foo ", "foo"),
        ("foo  bar", "foo "),
        (" ", ""),
        ("", ""),
    ] {
        let mut line = typed(Mode::Search, before);
        assert!(!line.handle_events(&ctrl(KeyCode::Backspace)));
        assert_eq!(after, line.input, "{before:?}");
        let words: Vec<&str> = before.split(" ").collect();
        assert_eq!(words[..words.len() - 1].join(" "), line.input);
    }
}

#[test]
fn control_backspace_takes_any_white_space_as_the_end_of_a_word() {
    for (before, after) in [("foo\tbar", "foo"), ("foo bar\u{a0}baz", "foo bar"), ("a\nb c", "a\nb")] {
        let mut line = typed(Mode::Search, before);
        assert!(!line.handle_events(&ctrl(KeyCode::Backspace)));
        assert_eq!(after, line.input, "{before:?}");
    }
}

#[test]
fn other_events_pass_through_while_typing() {
    for event in [
        key(KeyCode::Enter),
        key(KeyCode::Up),
        key(KeyCode::End),
        key(KeyCode::Other),
        Event::ScrollUp,
        Event::Resize(1, 2),
        Event::Other,
    ] {
        let mut line = typed(Mode::Goto, "12");
        assert!(!line.handle_events(&event));
        assert_eq!(Mode::Goto, line.mode);
        assert_eq!("12", line.input);
    }
}

#[test]
fn input_is_empty_whenever_the_mode_is_base() {
    let mut line = CommandLine::default();
    for event in [
        key(KeyCode::Char('/')),
        key(KeyCode::Char('a')),
        key(KeyCode::Char('b')),
        ctrl(KeyCode::Char('g')),
        key(KeyCode::Char('4')),
        key(KeyCode::Esc),
        key(KeyCode::Char('x')),
        key(KeyCode::Char(':')),
        key(KeyCode::Char('1')),
        key(KeyCode::Esc),
    ] {
        line.handle_events(&event);
        assert!(line.mode != Mode::Base || line.input.is_empty());
    }
    assert_eq!(Mode::Base, line.mode);
}

#[test]
fn help_names_the_keys_of_each_mode() {
    let plain = |mode: Mode| help(mode).iter().map(|piece| piece.1).collect::<String>();
    assert_eq!("Ctrl+F, / Find • Ctrl+G, : Goto • Esc Quit", plain(Mode::Base));
    assert_eq!("Enter Submit • Ctrl+G Goto • Esc Back", plain(Mode::Search));
    assert_eq!("Enter Submit • Ctrl+F Find • Esc Back", plain(Mode::Goto));
    assert_eq!((Style::DarkGreen, "Ctrl+F"), help(Mode::Base)[0]);
    assert_eq!((Style::DarkGreyItalic, ", "), help(Mode::Base)[1]);
    assert_eq!((Style::DarkGrey, "•"), help(Mode::Base)[6]);
    assert_eq!((Style::DarkGreyItalic, "Back"), help(Mode::Goto)[14]);
}

#[test]
fn render_in_base_mode_shows_the_help_only() {
    let mut line = CommandLine::default();
    line.setup((0, 23), (80, 1));
    let ops = line.render();
    assert_eq!(9, ops.len());
    assert!(matches!(ops[0], Op::MoveTo(0, 23)));
    assert!(matches!(ops[1], Op::ClearLine));
    assert!(matches!(ops[2], Op::MoveToColumn(37)));
    assert_eq!(42, visible_width(printed(&ops[3])));
    assert!(printed(&ops[3]).starts_with(&paint(Style::DarkGreen, "Ctrl+F")));
    assert!(printed(&ops[3]).ends_with(&paint(Style::DarkGreyItalic, "Quit")));
    assert!(matches!(ops[4], Op::MoveToColumn(0)));
    assert_eq!(" ", printed(&ops[5]));
    assert_eq!("", printed(&ops[6]));
    assert_eq!(" ", printed(&ops[7]));
    assert!(matches!(ops[8], Op::Flush));
}

#[test]
fn render_shows_the_badge_the_cursor_and_the_hint() {
    let mut line = typed(Mode::Search, "");
    line.setup((1, 9), (60, 1));
    let ops = line.render();
    assert_eq!(11, ops.len());
    assert!(matches!(ops[0], Op::MoveTo(1, 9)));
    assert!(matches!(ops[2], Op::MoveToColumn(22)));
    assert_eq!(37, visible_width(printed(&ops[3])));
    assert!(matches!(ops[4], Op::MoveToColumn(1)));
    assert_eq!(paint(Style::BlackOnDarkYellow, " FIND "), printed(&ops[6]));
    assert_eq!(paint(Style::RapidBlink, "|"), printed(&ops[8]));
    assert_eq!(paint(Style::DarkGreyItalic, "Enter Search Query…"), printed(&ops[9]));
    assert!(matches!(ops[10], Op::Flush));

    line.mode = Mode::Goto;
    let ops = line.render();
    assert_eq!(paint(Style::BlackOnCyan, " GOTO "), printed(&ops[6]));
    assert_eq!(paint(Style::DarkGreyItalic, "Enter Line or Line:Column"), printed(&ops[9]));
}

#[test]
fn render_shows_what_is_typed_with_the_cursor_behind() {
    let mut line = typed(Mode::Goto, "12:3");
    line.setup((0, 5), (10, 1));
    let ops = line.render();
    assert_eq!(11, ops.len());
    assert!(matches!(ops[2], Op::MoveToColumn(0)));
    assert_eq!("12:3", printed(&ops[8]));
    assert_eq!(paint(Style::RapidBlink, "|"), printed(&ops[9]));
}

#[test]
fn line_is_put_together_from_its_parts() {
    let mut line = typed(Mode::Search, "");
    line.setup((3, 4), (20, 1));
    let ops = line.line("help".to_string(), "B".to_string(), "C".to_string(), "H".to_string());
    assert_eq!(11, ops.len());
    assert!(matches!(ops[2], Op::MoveToColumn(15)));
    assert_eq!("help", printed(&ops[3]));
    assert_eq!("B", printed(&ops[6]));
    assert_eq!("C", printed(&ops[8]));
    assert_eq!("H", printed(&ops[9]));
}

#[test]
fn command_lines_compare_and_copy_by_what_they_show() {
    let line = typed(Mode::Search, "abc");
    let copy = line.clone();
    assert!(line == copy);
    let mut other = line.clone();
    other.input.push('d');
    assert!(line != other);
    let mut other = line.clone();
    other.mode = Mode::Goto;
    assert!(line != other);
    let mut other = line.clone();
    other.width = 3;
    assert!(line != other);
}
