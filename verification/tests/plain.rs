use crossterm::style::force_color_output;
use pager::helpers::ansi::visible_width;
use pager::helpers::style::{paint, Style};

// The only test of this file: it switches colours off for its whole process.
#[test]
fn styles_leave_the_colour_codes_empty_when_colours_are_off() {
    force_color_output(false);
    assert_eq!("text", paint(Style::Plain, "text"));
    assert_eq!("\x1b[mtext\x1b[m", paint(Style::DarkGrey, "text"));
    assert_eq!("\x1b[m\x1b[3mtext\x1b[0m", paint(Style::DarkGreyItalic, "text"));
    assert_eq!("\x1b[mtext\x1b[m", paint(Style::DarkGreen, "text"));
    assert_eq!("\x1b[m\x1b[m\x1b[1mtext\x1b[0m", paint(Style::BlackOnWhiteBold, "text"));
    assert_eq!("\x1b[m\x1b[mtext\x1b[m\x1b[m", paint(Style::BlackOnCyan, "text"));
    assert_eq!("\x1b[m\x1b[mtext\x1b[m\x1b[m", paint(Style::BlackOnDarkYellow, "text"));
    assert_eq!("\x1b[6mtext\x1b[0m", paint(Style::RapidBlink, "text"));
    for style in [
        Style::DarkGrey,
        Style::DarkGreyItalic,
        Style::DarkGreen,
        Style::BlackOnWhiteBold,
        Style::BlackOnCyan,
        Style::BlackOnDarkYellow,
        Style::RapidBlink,
    ] {
        assert_eq!(4, visible_width(&paint(style, "text")));
    }
}
