use pager::helpers::ansi::{fit_visible, skip_visible, truncate_visible, visible_width, AnsiString};

#[test]
fn helpers_should_return_normal_width_for_regular_strings() {
    let str = "Hello World!";
    assert_eq!(str.len(), str.visible_width())
}

#[test]
fn helpers_should_correctly_account_for_ansi_codes() {
    let str = "Hello World!";
    let ansi_str = "\x1b[31mHello World!\x1b[0m";
    assert_eq!(str.len(), ansi_str.visible_width())
}

#[test]
fn ansi_should_return_normal_width_for_regular_strings() {
    let str = "Hello World!";
    assert_eq!(str.len(), str.visible_width())
}

#[test]
fn should_return_zero_for_empty_string() {
    assert_eq!(0, "".visible_width())
}

#[test]
fn ansi_should_correctly_account_for_ansi_codes() {
    let str = "Hello World!";
    let ansi_str = "\x1b[31mHello World!\x1b[0m";
    assert_eq!(str.len(), ansi_str.visible_width())
}

#[test]
fn width_of_escape_skipping_example_is_twelve() {
    assert_eq!(12, visible_width("\x1b[31mHello World!\x1b[0m"));
    assert_eq!(12, visible_width("Hello World!"));
    assert_eq!(0, visible_width(""));
}

#[test]
fn width_counts_characters_not_bytes() {
    assert_eq!(6, visible_width("héllo│"));
    assert_eq!(3, visible_width("───"));
}

#[test]
fn width_skips_sequences_with_parameters() {
    assert_eq!(2, visible_width("\x1b[38;5;8mab\x1b[39m"));
    assert_eq!(2, visible_width("\x1b[mab\x1b[m"));
    assert_eq!(2, visible_width("\x1b[48;5;15m\x1b[38;5;0m\x1b[1mab\x1b[0m"));
}

#[test]
fn width_ends_a_bracket_sequence_at_the_first_final_character() {
    // `H` ends the sequence, so `m` is text.
    assert_eq!(2, visible_width("\x1b[2;3Hma"));
    // `|` is the last final character, `}` is none.
    assert_eq!(1, visible_width("\x1b[|a"));
    assert_eq!(0, visible_width("\x1b[}a"));
    assert_eq!(1, visible_width("\x1b[}@a"));
}

#[test]
fn width_ends_a_sequence_without_bracket_at_m() {
    assert_eq!(2, visible_width("\x1bXXmab"));
    assert_eq!(2, visible_width("\x1bmab"));
    assert_eq!(0, visible_width("\x1bXXab"));
}

#[test]
fn width_lets_an_unfinished_sequence_run_to_the_end() {
    assert_eq!(2, visible_width("ab\x1b[31"));
    assert_eq!(2, visible_width("ab\x1b"));
    assert_eq!(0, visible_width("\x1b"));
}

#[test]
fn truncate_cuts_plain_text_at_the_width() {
    assert_eq!("Hello", truncate_visible("Hello World!", 5));
    assert_eq!("abc", truncate_visible("abc", 10));
    assert_eq!("abc", truncate_visible("abc", 3));
    assert_eq!("", truncate_visible("abc", 0));
    assert_eq!("", truncate_visible("", 4));
}

#[test]
fn truncate_keeps_sequences_whole() {
    assert_eq!("\x1b[31mHel", truncate_visible("\x1b[31mHello\x1b[0m", 3));
    assert_eq!("\x1b[31mHello\x1b[0m", truncate_visible("\x1b[31mHello\x1b[0m World", 5));
    assert_eq!("\x1b[31mHello\x1b[0m", truncate_visible("\x1b[31mHello\x1b[0m", 5));
    assert_eq!("\x1b[31m", truncate_visible("\x1b[31mabc", 0));
}

#[test]
fn truncate_never_exceeds_the_width() {
    let text = "\x1b[1ma\x1b[0mb\x1b[4mc\x1b[0md";
    for width in 0..6 {
        let cut = truncate_visible(text, width);
        assert!(visible_width(cut) <= width);
        assert!(text.starts_with(cut));
    }
    assert_eq!(text, truncate_visible(text, 4));
}

#[test]
fn truncate_keeps_an_unfinished_sequence_at_the_end() {
    assert_eq!("ab\x1b[3", truncate_visible("ab\x1b[3", 5));
    assert_eq!("ab\x1b[3", truncate_visible("ab\x1b[3", 2));
    assert_eq!("a", truncate_visible("ab\x1b[3", 1));
}

#[test]
fn truncate_through_the_trait() {
    assert_eq!("ab", "abc".truncate_visible(2));
    assert_eq!("│─", "│─┐".truncate_visible(2));
}

#[test]
fn skip_drops_cells_and_keeps_sequences() {
    assert_eq!("llo", skip_visible("Hello", 2));
    assert_eq!("\x1b[31mllo\x1b[0m", skip_visible("\x1b[31mHello\x1b[0m", 2));
    assert_eq!("\x1b[31m\x1b[0m", skip_visible("\x1b[31mHello\x1b[0m", 9));
    assert_eq!("", skip_visible("ab", 5));
    assert_eq!("ab", skip_visible("ab", 0));
    assert_eq!("a\x1b[1mc", skip_visible("\x1b[1mc", 0).replacen("", "a", 1));
}

#[test]
fn skip_leaves_the_cells_that_remain() {
    let text = "\x1b[1mab\x1b[0mcd\x1b[4mef";
    for count in 0..8 {
        let rest = skip_visible(text, count);
        assert_eq!(6usize.saturating_sub(count), visible_width(&rest));
    }
}

#[test]
fn fit_cuts_and_fills_to_the_width() {
    assert_eq!("abc  ", fit_visible("abc", 5));
    assert_eq!("abc", fit_visible("abcdef", 3));
    assert_eq!("\x1b[1mab\x1b[0m  ", fit_visible("\x1b[1mab\x1b[0m", 4));
    assert_eq!("   ", fit_visible("", 3));
    assert_eq!("", fit_visible("abc", 0));
}
