use pager::pager::events::{goto_target, Action};
use pager::pager::terminal::{clamp, Event, KeyCode, KeyEvent, Op};
use pager::pager::ui::command_line::Mode;
use pager::pager::Pager;

fn key(code: KeyCode) -> Event {
    Event::Key(KeyEvent { code, control: false })
}

fn filled(size: (u16, u16), count: usize) -> Pager {
    let mut pager = Pager::init(size);
    pager.setup();
    for n in 1..=count {
        pager.buffer_line(format!("line {n}"));
    }
    pager
}

fn type_in(pager: &mut Pager, text: &str) {
    for c in text.chars() {
        assert!(matches!(pager.handle_events(&key(KeyCode::Char(c))), Action::Nothing));
    }
}

#[test]
fn init_takes_the_size_and_nothing_else() {
    let pager = Pager::init((80, 24));
    assert_eq!((80, 24), (pager.width, pager.height));
    assert!(pager.lines.is_empty());
    assert!(!pager.read_all);
    assert!(!pager.exit);
    assert_eq!((0, 0), (pager.view.width, pager.view.height));
    assert_eq!(Mode::Base, pager.command_line.mode);
    assert!(pager.view == pager.prev.view);
    assert!(pager.command_line == pager.prev.command_line);
}

#[test]
fn options_are_set_one_after_the_other() {
    let mut pager = Pager::init((80, 24));
    pager.with_line_numbers(true).with_borders(true).all(true);
    assert!(pager.view.show_line_numbers);
    assert!(pager.view.show_borders);
    assert!(pager.read_all);
    pager.with_line_numbers(false).all(false);
    assert!(!pager.view.show_line_numbers);
    assert!(pager.view.show_borders);
    assert!(!pager.read_all);
}

#[test]
fn offsets_count_from_one() {
    let mut pager = Pager::init((80, 24));
    pager.with_offset(Some(5), Some(7));
    assert_eq!((4, 6), (pager.view.scroll_row, pager.view.scroll_col));
    pager.with_offset(Some(5), None);
    assert_eq!((4, 0), (pager.view.scroll_row, pager.view.scroll_col));
    pager.with_offset(None, None);
    assert_eq!((0, 0), (pager.view.scroll_row, pager.view.scroll_col));
    pager.with_offset(Some(0), Some(1));
    assert_eq!((0, 0), (pager.view.scroll_row, pager.view.scroll_col));
    pager.with_offset(Some(usize::MAX), Some(2));
    assert_eq!((usize::MAX - 1, 1), (pager.view.scroll_row, pager.view.scroll_col));
}

#[test]
fn setup_gives_the_last_row_to_the_command_line() {
    let mut pager = Pager::init((80, 24));
    assert!(pager.setup().is_empty());
    assert_eq!((80, 23), (pager.view.width, pager.view.height));
    assert_eq!((0, 23), (pager.command_line.x, pager.command_line.y));
    assert_eq!((80, 1), (pager.command_line.width, pager.command_line.height));

    let mut tiny = Pager::init((5, 0));
    tiny.setup();
    assert_eq!(0, tiny.view.height);
    assert_eq!(0, tiny.command_line.y);
    assert_eq!(1, tiny.command_line.height);

    let mut framed = Pager::init((10, 6));
    framed.with_borders(true);
    assert_eq!(2 + 4 * 3 + 1, framed.setup().len());
}

#[test]
fn lines_are_asked_for_until_a_page_lies_behind_the_page() {
    let mut pager = Pager::init((80, 24));
    pager.setup();
    for n in 1..=46 {
        assert!(pager.buffer_line(format!("line {n}")), "line {n}");
    }
    assert!(!pager.buffer_line("line 47".to_string()));
    assert_eq!(47, pager.lines.len());
    assert_eq!("line 47", pager.lines[46]);
    assert!(!pager.buffer_line("line 48".to_string()));
    assert_eq!(48, pager.lines.len());

    for _ in 0..3 {
        pager.view.scroll_down(1, &pager.lines.clone());
    }
    assert!(pager.buffer_line("line 49".to_string()));
    assert!(!pager.buffer_line("line 50".to_string()));
}

fn pull(pager: &mut Pager, input: &mut dyn Iterator<Item = String>) -> usize {
    let mut pulled = 0;
    while pager.wants_line() {
        match input.next() {
            Some(line) => {
                pager.buffer_line(line);
                pulled += 1;
            }
            None => break,
        }
    }
    pulled
}

#[test]
fn a_line_is_asked_for_only_while_the_read_ahead_is_short() {
    let mut pager = Pager::init((80, 24));
    pager.setup();
    let mut input = (1..=100).map(|n| format!("line {n}"));
    assert!(pager.wants_line());
    assert_eq!(47, pull(&mut pager, &mut input));
    assert_eq!(47, pager.lines.len());
    assert!(!pager.wants_line());
    assert_eq!(0, pull(&mut pager, &mut input));
    assert_eq!(47, pager.lines.len());

    pager.handle_events(&key(KeyCode::Down));
    assert!(pager.wants_line());
    assert_eq!(1, pull(&mut pager, &mut input));
    pager.handle_events(&key(KeyCode::PageDown));
    assert_eq!(22, pull(&mut pager, &mut input));
    assert_eq!(70, pager.lines.len());
    assert_eq!(pager.view.end() + pager.view.height + 1, pager.lines.len());

    pager.handle_events(&key(KeyCode::PageUp));
    assert_eq!(0, pull(&mut pager, &mut input));
    assert_eq!(70, pager.lines.len());
}

#[test]
fn pulling_stops_when_the_input_is_used_up() {
    let mut pager = Pager::init((80, 24));
    pager.setup();
    let mut input = (1..=10).map(|n| format!("line {n}"));
    assert_eq!(10, pull(&mut pager, &mut input));
    assert!(pager.wants_line());
    assert_eq!(0, pull(&mut pager, &mut input));
    assert_eq!(10, pager.lines.len());
}

#[test]
fn the_whole_input_is_pulled_when_everything_is_read() {
    let mut pager = Pager::init((80, 24));
    pager.setup();
    let mut input = (1..=500).map(|n| format!("line {n}"));
    assert_eq!(47, pull(&mut pager, &mut input));
    assert!(matches!(pager.handle_events(&key(KeyCode::End)), Action::ReadAll));
    assert!(pager.wants_line());
    assert_eq!(453, pull(&mut pager, &mut input));
    assert!(pager.wants_line());
    pager.end();
    assert_eq!(500 - 23 + 1, pager.view.scroll_row);
}

#[test]
fn all_lines_are_asked_for_when_everything_is_read() {
    let mut pager = Pager::init((80, 24));
    pager.setup();
    pager.all(true);
    for n in 1..=200 {
        assert!(pager.buffer_line(format!("line {n}")));
    }
    assert_eq!(200, pager.lines.len());
}

#[test]
fn goto_reads_row_and_column_and_takes_one_for_what_is_missing() {
    assert_eq!((4, 6), goto_target("5:7"));
    assert_eq!((4, 0), goto_target("5"));
    assert_eq!((0, 0), goto_target("row:col"));
    assert_eq!((0, 6), goto_target(":7"));
    assert_eq!((0, 0), goto_target(""));
    assert_eq!((0, 0), goto_target("0:0"));
    assert_eq!((0, 0), goto_target("1:1"));
    assert_eq!((11, 0), goto_target("12:x"));
    assert_eq!((0, 2), goto_target("x:3:4"));
}

#[test]
fn quit_key_ends_the_pager() {
    for code in [KeyCode::Char('q'), KeyCode::Esc] {
        let mut pager = filled((80, 24), 30);
        assert!(matches!(pager.handle_events(&key(code)), Action::Nothing));
        assert!(pager.exit);
        assert_eq!(30, pager.lines.len());
        assert!(!pager.read_all);
    }
    let mut pager = filled((80, 24), 30);
    pager.exit();
    assert!(pager.exit);
}

#[test]
fn keys_typed_into_the_command_line_go_no_further() {
    let mut pager = filled((80, 24), 100);
    type_in(&mut pager, "/jq");
    assert_eq!(Mode::Search, pager.command_line.mode);
    assert_eq!("jq", pager.command_line.input);
    assert_eq!(0, pager.view.scroll_row);
    assert!(!pager.exit);
    assert!(matches!(pager.handle_events(&key(KeyCode::Esc)), Action::Nothing));
    assert_eq!(Mode::Base, pager.command_line.mode);
    assert!(!pager.exit);
    type_in(&mut pager, "j");
    assert_eq!(1, pager.view.scroll_row);
}

#[test]
fn movement_keys_reach_the_view() {
    let mut pager = filled((80, 25), 100);
    for _ in 0..5 {
        assert!(matches!(pager.handle_events(&key(KeyCode::Down)), Action::Nothing));
    }
    assert_eq!(5, pager.view.start());
    assert_eq!(29, pager.view.end());
    pager.handle_events(&Event::ScrollUp);
    pager.handle_events(&key(KeyCode::Right));
    assert_eq!((4, 1), (pager.view.scroll_row, pager.view.scroll_col));
    pager.handle_events(&key(KeyCode::Backspace));
    pager.handle_events(&Event::Other);
    assert_eq!((4, 1), (pager.view.scroll_row, pager.view.scroll_col));
}

#[test]
fn enter_commits_a_search() {
    let mut pager = filled((80, 24), 30);
    type_in(&mut pager, "/needle");
    assert!(matches!(pager.handle_events(&key(KeyCode::Enter)), Action::Nothing));
    assert_eq!("needle", pager.view.search);
    assert_eq!(Mode::Search, pager.command_line.mode);
    assert_eq!("needle", pager.command_line.input);
}

#[test]
fn enter_commits_a_goto_and_empties_the_input() {
    let mut pager = filled((80, 24), 30);
    type_in(&mut pager, ":5:7");
    assert_eq!("5:7", pager.command_line.input);
    assert!(matches!(pager.handle_events(&key(KeyCode::Enter)), Action::Nothing));
    assert_eq!((4, 6), (pager.view.scroll_row, pager.view.scroll_col));
    assert_eq!(Mode::Goto, pager.command_line.mode);
    assert_eq!("", pager.command_line.input);
    type_in(&mut pager, "9");
    pager.handle_events(&key(KeyCode::Enter));
    assert_eq!((8, 0), (pager.view.scroll_row, pager.view.scroll_col));
    pager.handle_events(&key(KeyCode::Enter));
    assert_eq!((0, 0), (pager.view.scroll_row, pager.view.scroll_col));
}

#[test]
fn enter_in_base_mode_changes_nothing() {
    let mut pager = filled((80, 24), 30);
    pager.submit();
    pager.handle_events(&key(KeyCode::Enter));
    assert_eq!("", pager.view.search);
    assert_eq!((0, 0), (pager.view.scroll_row, pager.view.scroll_col));
}

#[test]
fn end_key_asks_for_the_whole_input_and_end_goes_to_the_last_page() {
    let mut pager = filled((80, 24), 30);
    assert!(matches!(pager.handle_events(&key(KeyCode::End)), Action::ReadAll));
    assert!(pager.read_all);
    for n in 31..=100 {
        assert!(pager.buffer_line(format!("line {n}")));
    }
    pager.end();
    assert_eq!(100 - 23 + 1, pager.view.scroll_row);

    let mut short = filled((80, 24), 5);
    short.end();
    assert_eq!(0, short.view.scroll_row);
}

#[test]
fn resize_lays_the_screen_out_again() {
    let mut pager = filled((80, 24), 30);
    pager.with_borders(true);
    match pager.handle_events(&Event::Resize(40, 10)) {
        Action::Draw(ops) => {
            assert_eq!(2 + 4 * 7 + 1, ops.len());
            assert!(matches!(ops[0], Op::MoveTo(0, 0)));
            assert!(matches!(ops[3], Op::MoveToColumn(39)));
        }
        other => panic!("{other:?}"),
    }
    assert_eq!((40, 10), (pager.width, pager.height));
    assert_eq!((40, 9), (pager.view.width, pager.view.height));
    assert_eq!((0, 9), (pager.command_line.x, pager.command_line.y));
    assert_eq!((40, 1), (pager.command_line.width, pager.command_line.height));
    assert_eq!(30, pager.lines.len());
    assert_eq!(2 + 4 * 3 + 1, pager.resize(20, 6).len());
    assert_eq!(5, pager.view.height);
}

#[test]
fn render_draws_both_parts_the_first_time() {
    let mut pager = filled((30, 4), 10);
    let ops = pager.render();
    assert_eq!(3 * 3 + 9, ops.len());
    assert!(matches!(ops[0], Op::MoveTo(1, 0)));
    match &ops[1] {
        Op::Print(text) => assert_eq!("line 1                    ", text),
        other => panic!("{other:?}"),
    }
    assert!(matches!(ops[9], Op::MoveTo(0, 3)));
    assert!(matches!(ops[10], Op::ClearLine));
    assert!(pager.view == pager.prev.view);
    assert!(pager.command_line == pager.prev.command_line);
}

#[test]
fn render_writes_nothing_the_second_time() {
    let mut pager = filled((30, 4), 10);
    assert!(!pager.render().is_empty());
    assert!(pager.render().is_empty());
    assert!(pager.render().is_empty());
}

#[test]
fn render_draws_only_the_part_that_changed() {
    let mut pager = filled((30, 4), 10);
    pager.render();
    pager.handle_events(&key(KeyCode::Down));
    let ops = pager.render();
    assert_eq!(3 * 3, ops.len());
    assert!(pager.render().is_empty());
    pager.handle_events(&key(KeyCode::Char('/')));
    let ops = pager.render();
    assert_eq!(11, ops.len());
    assert!(matches!(ops[1], Op::ClearLine));
    assert!(pager.render().is_empty());
    pager.handle_events(&Event::Other);
    pager.handle_events(&key(KeyCode::Other));
    assert!(pager.render().is_empty());
    pager.handle_events(&key(KeyCode::Up));
    assert_eq!(3 * 3, pager.render().len());
}

#[test]
fn a_hundred_lines_five_steps_down_and_quit() {
    let mut pager = Pager::init((80, 25));
    pager.setup();
    let mut input = (1..=100).map(|n| format!("line {n}"));
    assert_eq!(49, pull(&mut pager, &mut input));
    pager.render();
    for _ in 0..5 {
        pager.handle_events(&key(KeyCode::Down));
    }
    assert_eq!(5, pager.view.start());
    assert_eq!(29, pager.view.end());
    let ops = pager.render();
    assert_eq!(3 * 24, ops.len());
    match (&ops[1], &ops[3 * 23 + 1]) {
        (Op::Print(first), Op::Print(last)) => {
            assert!(first.starts_with("line 6 "));
            assert!(last.starts_with("line 29 "));
        }
        other => panic!("{other:?}"),
    }
    assert_eq!(5, pull(&mut pager, &mut input));
    assert!(matches!(pager.handle_events(&key(KeyCode::Char('q'))), Action::Nothing));
    assert!(pager.exit);
    assert_eq!(54, pager.lines.len());
    assert_eq!(46, input.count());
}

#[test]
fn clamp_cuts_down_to_the_range_of_the_terminal() {
    assert_eq!(0, clamp(0));
    assert_eq!(65534, clamp(65534));
    assert_eq!(65535, clamp(65535));
    assert_eq!(65535, clamp(65536));
    assert_eq!(65535, clamp(usize::MAX));
}
