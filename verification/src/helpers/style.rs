//! Styled text, as crossterm writes it.
//!
//! crossterm puts a text between an opening and a closing escape sequence.
//! Which sequences it writes for a colour depends on the process: with
//! `NO_COLOR` set in the environment a colour code is left empty, and on a
//! console that takes no escape sequences crossterm writes nothing at all.
//! So each function here promises one of these three outcomes and no more.

use crossterm::style::{style, Stylize};
use vstd::prelude::*;

verus! {

/// `out` is `text` between the sequences of `colour`, or between those of
/// `plain`, or empty.
pub open spec fn styled(
    out: Seq<char>,
    text: Seq<char>,
    colour: (Seq<char>, Seq<char>),
    plain: (Seq<char>, Seq<char>),
) -> bool {
    ||| out == colour.0 + text + colour.1
    ||| out == plain.0 + text + plain.1
    ||| out.len() == 0
}

/// `out` is `text` in dark grey.
pub open spec fn is_dark_grey(out: Seq<char>, text: Seq<char>) -> bool {
    styled(out, text, ("\x1b[38;5;8m"@, "\x1b[39m"@), ("\x1b[m"@, "\x1b[m"@))
}

/// `out` is `text` in dark grey italics.
pub open spec fn is_dark_grey_italic(out: Seq<char>, text: Seq<char>) -> bool {
    styled(out, text, ("\x1b[38;5;8m\x1b[3m"@, "\x1b[0m"@), ("\x1b[m\x1b[3m"@, "\x1b[0m"@))
}

/// `out` is `text` in dark green.
pub open spec fn is_dark_green(out: Seq<char>, text: Seq<char>) -> bool {
    styled(out, text, ("\x1b[38;5;2m"@, "\x1b[39m"@), ("\x1b[m"@, "\x1b[m"@))
}

/// `out` is `text` in bold black on white.
pub open spec fn is_black_on_white_bold(out: Seq<char>, text: Seq<char>) -> bool {
    styled(
        out,
        text,
        ("\x1b[48;5;15m\x1b[38;5;0m\x1b[1m"@, "\x1b[0m"@),
        ("\x1b[m\x1b[m\x1b[1m"@, "\x1b[0m"@),
    )
}

/// `out` is `text` in black on cyan.
pub open spec fn is_black_on_cyan(out: Seq<char>, text: Seq<char>) -> bool {
    styled(
        out,
        text,
        ("\x1b[48;5;14m\x1b[38;5;0m"@, "\x1b[49m\x1b[39m"@),
        ("\x1b[m\x1b[m"@, "\x1b[m\x1b[m"@),
    )
}

/// `out` is `text` in black on dark yellow.
pub open spec fn is_black_on_dark_yellow(out: Seq<char>, text: Seq<char>) -> bool {
    styled(
        out,
        text,
        ("\x1b[48;5;3m\x1b[38;5;0m"@, "\x1b[49m\x1b[39m"@),
        ("\x1b[m\x1b[m"@, "\x1b[m\x1b[m"@),
    )
}

/// `out` is `text`, blinking fast.
pub open spec fn is_rapid_blink(out: Seq<char>, text: Seq<char>) -> bool {
    styled(out, text, ("\x1b[6m"@, "\x1b[0m"@), ("\x1b[6m"@, "\x1b[0m"@))
}

/// crossterm's `style(text).dark_grey()`, written out. Believed of it: the
/// result is the text behind the code for the foreground colour 8 and before
/// the code that resets the foreground; or, with colours switched off, the
/// same with both colour codes empty; or nothing, on a console that takes no
/// escape sequences.
#[verifier::external_body]
fn dark_grey(text: &str) -> (out: String)
    ensures
        is_dark_grey(out@, text@),
{
    style(text).dark_grey().to_string()
}

/// crossterm's `style(text).dark_grey().italic()`, written out. Believed of
/// it: the result is the text behind the codes for the foreground colour 8
/// and for italics, and before the code that resets every style; or, with
/// colours switched off, the same with the colour code empty; or nothing, on
/// a console that takes no escape sequences.
#[verifier::external_body]
fn dark_grey_italic(text: &str) -> (out: String)
    ensures
        is_dark_grey_italic(out@, text@),
{
    style(text).dark_grey().italic().to_string()
}

/// crossterm's `style(text).dark_green()`, written out. Believed of it: the
/// result is the text behind the code for the foreground colour 2 and before
/// the code that resets the foreground; or, with colours switched off, the
/// same with both colour codes empty; or nothing, on a console that takes no
/// escape sequences.
#[verifier::external_body]
fn dark_green(text: &str) -> (out: String)
    ensures
        is_dark_green(out@, text@),
{
    style(text).dark_green().to_string()
}

/// crossterm's `style(text).black().on_white().bold()`, written out.
/// Believed of it: the result is the text behind the codes for the
/// background colour 15, the foreground colour 0 and bold, in this order, and
/// before the code that resets every style; or, with colours switched off,
/// the same with both colour codes empty; or nothing, on a console that
/// takes no escape sequences.
#[verifier::external_body]
fn black_on_white_bold(text: &str) -> (out: String)
    ensures
        is_black_on_white_bold(out@, text@),
{
    style(text).black().on_white().bold().to_string()
}

/// crossterm's `style(text).black().on_cyan()`, written out. Believed of it:
/// the result is the text behind the codes for the background colour 14 and
/// the foreground colour 0, and before the codes that reset the background
/// and the foreground, in this order; or, with colours switched off, the
/// same with all four colour codes empty; or nothing, on a console that
/// takes no escape sequences.
#[verifier::external_body]
fn black_on_cyan(text: &str) -> (out: String)
    ensures
        is_black_on_cyan(out@, text@),
{
    style(text).black().on_cyan().to_string()
}

/// crossterm's `style(text).black().on_dark_yellow()`, written out. Believed
/// of it: the result is the text behind the codes for the background colour
/// 3 and the foreground colour 0, and before the codes that reset the
/// background and the foreground, in this order; or, with colours switched
/// off, the same with all four colour codes empty; or nothing, on a console
/// that takes no escape sequences.
#[verifier::external_body]
fn black_on_dark_yellow(text: &str) -> (out: String)
    ensures
        is_black_on_dark_yellow(out@, text@),
{
    style(text).black().on_dark_yellow().to_string()
}

/// crossterm's `style(text).rapid_blink()`, written out. Believed of it: the
/// result is the text behind the code for fast blinking and before the code
/// that resets every style; or nothing, on a console that takes no escape
/// sequences.
#[verifier::external_body]
fn rapid_blink(text: &str) -> (out: String)
    ensures
        is_rapid_blink(out@, text@),
{
    style(text).rapid_blink().to_string()
}

/// The ways in which the pager styles a text.
#[derive(Clone, Copy, Debug, PartialEq, Eq, Structural)]
pub enum Style {
    /// As it is.
    Plain,
    /// Frames, line numbers and lines without a match.
    DarkGrey,
    /// Hints and explanations.
    DarkGreyItalic,
    /// The names of keys.
    DarkGreen,
    /// A match of the search.
    BlackOnWhiteBold,
    /// The badge of the goto mode.
    BlackOnCyan,
    /// The badge of the search mode.
    BlackOnDarkYellow,
    /// The cursor.
    RapidBlink,
}

/// `out` is `text` in the given style.
pub open spec fn paints(style: Style, out: Seq<char>, text: Seq<char>) -> bool {
    match style {
        Style::Plain => out == text,
        Style::DarkGrey => is_dark_grey(out, text),
        Style::DarkGreyItalic => is_dark_grey_italic(out, text),
        Style::DarkGreen => is_dark_green(out, text),
        Style::BlackOnWhiteBold => is_black_on_white_bold(out, text),
        Style::BlackOnCyan => is_black_on_cyan(out, text),
        Style::BlackOnDarkYellow => is_black_on_dark_yellow(out, text),
        Style::RapidBlink => is_rapid_blink(out, text),
    }
}

/// Writes `text` in the given style.
pub fn paint(style: Style, text: &str) -> (out: String)
    ensures
        paints(style, out@, text@),
{
    match style {
        Style::Plain => String::from_str(text),
        Style::DarkGrey => dark_grey(text),
        Style::DarkGreyItalic => dark_grey_italic(text),
        Style::DarkGreen => dark_green(text),
        Style::BlackOnWhiteBold => black_on_white_bold(text),
        Style::BlackOnCyan => black_on_cyan(text),
        Style::BlackOnDarkYellow => black_on_dark_yellow(text),
        Style::RapidBlink => rapid_blink(text),
    }
}

/// A piece of text and the style to write it in.
pub type Piece = (Style, &'static str);

/// The pieces, each with its text as characters.
pub open spec fn pieces(parts: Seq<Piece>) -> Seq<(Style, Seq<char>)> {
    parts.map_values(|part: Piece| (part.0, part.1@))
}

/// `out` is the pieces in a row, each in its style.
pub open spec fn is_painted(parts: Seq<(Style, Seq<char>)>, out: Seq<char>) -> bool
    decreases parts.len(),
{
    if parts.len() == 0 {
        out.len() == 0
    } else {
        exists|init: Seq<char>, last: Seq<char>|
            #![auto]
            is_painted(parts.drop_last(), init) && paints(parts.last().0, last, parts.last().1)
                && out == init + last
    }
}

/// Writes the pieces in a row, each in its style.
pub fn paint_all(parts: &Vec<Piece>) -> (out: String)
    ensures
        is_painted(pieces(parts@), out@),
{
    let mut out = String::new();
    let mut i: usize = 0;
    assert(pieces(parts@).take(0) =~= Seq::empty());
    while i < parts.len()
        invariant
            i <= parts@.len(),
            is_painted(pieces(parts@).take(i as int), out@),
        decreases parts@.len() - i,
    {
        let ghost init = out@;
        let last = paint(parts[i].0, parts[i].1);
        out.append(last.as_str());
        proof {
            let seen = pieces(parts@).take(i + 1);
            assert(seen.drop_last() =~= pieces(parts@).take(i as int));
            assert(seen.last() == (parts@[i as int].0, parts@[i as int].1@));
            assert(is_painted(seen.drop_last(), init) && paints(seen.last().0, last@, seen.last().1)
                && out@ == init + last@);
        }
        i = i + 1;
    }
    assert(pieces(parts@).take(parts@.len() as int) =~= pieces(parts@));
    out
}

} // verus!
