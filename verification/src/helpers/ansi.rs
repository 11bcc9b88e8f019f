//! Measuring and cutting text that holds terminal escape sequences.
//!
//! An escape sequence starts with the escape character. Followed by `[` it
//! runs up to and including the first character in the range `@` to `|`;
//! otherwise it runs up to and including the first `m`. A sequence that the
//! text does not finish runs to the end of the text. Every character outside
//! an escape sequence occupies one terminal cell.

use crate::helpers::text::{
    lemma_repeated_char, lemma_take_all, lemma_take_step, repeat, repeated,
};
use vstd::prelude::*;

verus! {

/// The character that starts an escape sequence.
pub const ESC: char = '\x1b';

/// Where a left-to-right scan stands between two characters.
#[derive(Clone, Copy, Debug, PartialEq, Eq, Structural)]
pub enum Scan {
    /// Outside any escape sequence.
    Text,
    /// Right behind the escape character.
    Escape,
    /// Inside a sequence that began with the escape character and `[`.
    Csi,
    /// Inside a sequence that began with the escape character alone.
    Legacy,
}

/// The characters that end a sequence which began with the escape character and `[`.
pub open spec fn ends_csi(c: char) -> bool {
    '\x40' <= c <= '\x7c'
}

impl Scan {
    /// Where the scan stands after it has read `c`.
    pub open spec fn next(self, c: char) -> Scan {
        match self {
            Scan::Text => if c == ESC {
                Scan::Escape
            } else {
                Scan::Text
            },
            Scan::Escape => if c == '[' {
                Scan::Csi
            } else if c == 'm' {
                Scan::Text
            } else {
                Scan::Legacy
            },
            Scan::Csi => if ends_csi(c) {
                Scan::Text
            } else {
                Scan::Csi
            },
            Scan::Legacy => if c == 'm' {
                Scan::Text
            } else {
                Scan::Legacy
            },
        }
    }

    /// Whether `c`, read in this state, occupies a terminal cell.
    pub open spec fn shows(self, c: char) -> bool {
        self is Text && c != ESC
    }

    /// Reads one character: the state behind it, and whether it occupies a cell.
    pub fn step(self, c: char) -> (out: (Scan, bool))
        ensures
            out.0 == self.next(c),
            out.1 == self.shows(c),
    {
        match self {
            Scan::Text => if c == ESC {
                (Scan::Escape, false)
            } else {
                (Scan::Text, true)
            },
            Scan::Escape => if c == '[' {
                (Scan::Csi, false)
            } else if c == 'm' {
                (Scan::Text, false)
            } else {
                (Scan::Legacy, false)
            },
            Scan::Csi => if '\x40' <= c && c <= '\x7c' {
                (Scan::Text, false)
            } else {
                (Scan::Csi, false)
            },
            Scan::Legacy => if c == 'm' {
                (Scan::Text, false)
            } else {
                (Scan::Legacy, false)
            },
        }
    }
}

/// Where a scan stands after it has read all of `s`.
pub open spec fn scan_of(s: Seq<char>) -> Scan
    decreases s.len(),
{
    if s.len() == 0 {
        Scan::Text
    } else {
        scan_of(s.drop_last()).next(s.last())
    }
}

/// The number of terminal cells that `s` occupies.
pub open spec fn width_of(s: Seq<char>) -> nat
    decreases s.len(),
{
    if s.len() == 0 {
        0
    } else {
        width_of(s.drop_last()) + if scan_of(s.drop_last()).shows(s.last()) {
            1nat
        } else {
            0nat
        }
    }
}

/// The first `k` characters of `s` fit into `width` cells and end outside an
/// escape sequence, or are all of `s`.
pub open spec fn fits(s: Seq<char>, k: int, width: nat) -> bool {
    &&& 0 <= k <= s.len()
    &&& width_of(s.take(k)) <= width
    &&& (scan_of(s.take(k)) is Text || k == s.len())
}

/// `out` is the longest beginning of `s` that fits into `width` cells.
pub open spec fn is_longest_fit(s: Seq<char>, width: nat, out: Seq<char>) -> bool {
    &&& fits(s, out.len() as int, width)
    &&& out == s.take(out.len() as int)
    &&& forall|k: int| fits(s, k, width) ==> k <= out.len()
}

/// The longest beginning of `s` that fits into `width` cells.
pub open spec fn longest_fit(s: Seq<char>, width: nat) -> Seq<char> {
    s.take(choose|k: int| fits(s, k, width) && forall|j: int| fits(s, j, width) ==> j <= k)
}

/// `s`, cut down and then filled up with spaces to `width` cells: its longest
/// beginning that fits, and a space for each cell that this leaves free.
pub open spec fn fitted(s: Seq<char>, width: nat) -> Seq<char> {
    let kept = longest_fit(s, width);
    kept + repeated(seq![' '], (width - width_of(kept)) as nat)
}

/// `s` without its first `count` characters that occupy a cell. The escape
/// sequences among them stay.
pub open spec fn without_cells(s: Seq<char>, count: nat) -> Seq<char>
    decreases s.len(),
{
    if s.len() == 0 {
        s
    } else if scan_of(s.drop_last()).shows(s.last()) && width_of(s.drop_last()) < count {
        without_cells(s.drop_last(), count)
    } else {
        without_cells(s.drop_last(), count).push(s.last())
    }
}

/// A text without the escape character occupies as many cells as it has
/// characters, and a scan ends outside any escape sequence.
pub proof fn lemma_width_of_plain(s: Seq<char>)
    requires
        forall|i: int| 0 <= i < s.len() ==> s[i] != ESC,
    ensures
        width_of(s) == s.len(),
        scan_of(s) == Scan::Text,
    decreases s.len(),
{
    if s.len() > 0 {
        lemma_width_of_plain(s.drop_last());
    }
}

proof fn lemma_longest_fit_below(s: Seq<char>, width: nat, bound: int) -> (k: int)
    requires
        0 <= bound <= s.len(),
    ensures
        0 <= k <= bound,
        fits(s, k, width),
        forall|j: int| j <= bound && fits(s, j, width) ==> j <= k,
    decreases bound,
{
    if bound == 0 {
        assert(s.take(0) =~= Seq::<char>::empty());
        0
    } else {
        let below = lemma_longest_fit_below(s, width, bound - 1);
        if fits(s, bound, width) {
            bound
        } else {
            below
        }
    }
}

/// Every text has a longest beginning that fits, whatever the width.
pub proof fn lemma_longest_fit_exists(s: Seq<char>, width: nat)
    ensures
        is_longest_fit(s, width, longest_fit(s, width)),
{
    let k = lemma_longest_fit_below(s, width, s.len() as int);
    assert(s.take(k).len() == k);
    assert(s.take(k).take(k) =~= s.take(k));
    assert(is_longest_fit(s, width, s.take(k)));
    lemma_longest_fit(s, width, s.take(k));
}

/// Text without the escape character, put behind a text that ends outside
/// any escape sequence, occupies one more cell for each of its characters.
pub proof fn lemma_width_of_plain_behind(s: Seq<char>, plain: Seq<char>)
    requires
        scan_of(s) == Scan::Text,
        forall|i: int| 0 <= i < plain.len() ==> plain[i] != ESC,
    ensures
        width_of(s + plain) == width_of(s) + plain.len(),
        scan_of(s + plain) == Scan::Text,
    decreases plain.len(),
{
    if plain.len() == 0 {
        assert(s + plain =~= s);
    } else {
        lemma_width_of_plain_behind(s, plain.drop_last());
        assert((s + plain).drop_last() =~= s + plain.drop_last());
    }
}

/// A text that is cut down and filled up occupies the whole width, unless
/// what is kept of it ends inside an escape sequence.
pub proof fn lemma_fitted_fills_the_width(s: Seq<char>, width: nat)
    requires
        scan_of(longest_fit(s, width)) == Scan::Text,
    ensures
        width_of(fitted(s, width)) == width,
        scan_of(fitted(s, width)) == Scan::Text,
{
    lemma_longest_fit_exists(s, width);
    let kept = longest_fit(s, width);
    assert(s.take(kept.len() as int) == kept);
    let filling = repeated(seq![' '], (width - width_of(kept)) as nat);
    lemma_repeated_char(' ', (width - width_of(kept)) as nat);
    lemma_width_of_plain_behind(kept, filling);
}

/// Dropping the first `count` cells leaves the cells that remain, and leaves a
/// scan where it stood.
pub proof fn lemma_without_cells(s: Seq<char>, count: nat)
    ensures
        scan_of(without_cells(s, count)) == scan_of(s),
        width_of(without_cells(s, count)) == if width_of(s) >= count {
            (width_of(s) - count) as nat
        } else {
            0
        },
    decreases s.len(),
{
    if s.len() > 0 {
        let init = s.drop_last();
        lemma_without_cells(init, count);
        if !(scan_of(init).shows(s.last()) && width_of(init) < count) {
            let kept = without_cells(init, count);
            assert(kept.push(s.last()).drop_last() =~= kept);
        }
    }
}

/// There is one longest beginning that fits, and `longest_fit` is it.
pub proof fn lemma_longest_fit(s: Seq<char>, width: nat, out: Seq<char>)
    requires
        is_longest_fit(s, width, out),
    ensures
        out == longest_fit(s, width),
{
    let k = choose|k: int| fits(s, k, width) && forall|j: int| fits(s, j, width) ==> j <= k;
    assert(fits(s, out.len() as int, width) && forall|j: int|
        fits(s, j, width) ==> j <= out.len() as int);
    assert(k == out.len());
}

/// Dropping no cell leaves the text as it is.
pub proof fn lemma_without_no_cells(s: Seq<char>)
    ensures
        without_cells(s, 0) == s,
    decreases s.len(),
{
    if s.len() > 0 {
        lemma_without_no_cells(s.drop_last());
        assert(s.drop_last().push(s.last()) =~= s);
    }
}

/// Counts the terminal cells that `s` occupies.
pub fn visible_width(s: &str) -> (w: usize)
    ensures
        w == width_of(s@),
        w <= s@.len(),
        (forall|i: int| 0 <= i < s@.len() ==> s@[i] != ESC) ==> w == s@.len(),
{
    let n = s.unicode_len();
    let mut state = Scan::Text;
    let mut w: usize = 0;
    for c in it: s.chars()
        invariant
            it.seq() == s@,
            n == s@.len(),
            state == scan_of(s@.take(it.index() as int)),
            w == width_of(s@.take(it.index() as int)),
            w <= it.index(),
    {
        proof {
            lemma_take_step(s@, it.index() as int);
        }
        let (next, shown) = state.step(c);
        if shown {
            w = w + 1;
        }
        state = next;
    }
    proof {
        lemma_take_all(s@);
        if forall|i: int| 0 <= i < s@.len() ==> s@[i] != ESC {
            lemma_width_of_plain(s@);
        }
    }
    w
}

/// Cuts `s` down to its longest beginning that occupies at most `width` cells
/// and does not end inside an escape sequence that `s` goes on with.
pub fn truncate_visible(s: &str, width: usize) -> (out: &str)
    ensures
        is_longest_fit(s@, width as nat, out@),
        out@ == longest_fit(s@, width as nat),
{
    let n = s.unicode_len();
    let mut state = Scan::Text;
    let mut w: usize = 0;
    let mut i: usize = 0;
    let mut cut: usize = 0;
    proof {
        lemma_take_all(s@);
    }
    for c in it: s.chars()
        invariant
            it.seq() == s@,
            n == s@.len(),
            i == it.index(),
            state == scan_of(s@.take(i as int)),
            w == width_of(s@.take(i as int)),
            w <= i,
            cut <= i,
            fits(s@, cut as int, width as nat),
            forall|k: int| 0 <= k <= i && fits(s@, k, width as nat) ==> k <= cut,
    {
        proof {
            lemma_take_step(s@, i as int);
        }
        let (next, shown) = state.step(c);
        if shown {
            w = w + 1;
        }
        state = next;
        i = i + 1;
        if w <= width && (state == Scan::Text || i == n) {
            cut = i;
        }
    }
    let out = s.substring_char(0, cut);
    proof {
        assert(s@.subrange(0, cut as int) =~= s@.take(cut as int));
        lemma_longest_fit(s@, width as nat, out@);
    }
    out
}

/// Cuts `s` down to `width` cells and fills it up with spaces to that width.
pub fn fit_visible(s: &str, width: usize) -> (out: String)
    ensures
        out@ == fitted(s@, width as nat),
        scan_of(longest_fit(s@, width as nat)) == Scan::Text ==> width_of(out@) == width,
{
    let kept = truncate_visible(s, width);
    let used = visible_width(kept);
    proof {
        reveal_strlit(" ");
        assert(" "@ =~= seq![' ']);
    }
    let filling = repeat(" ", width - used);
    let mut out = String::from_str(kept);
    out.append(filling.as_str());
    proof {
        if scan_of(longest_fit(s@, width as nat)) == Scan::Text {
            lemma_fitted_fills_the_width(s@, width as nat);
        }
    }
    out
}

/// Removes the first `count` characters that occupy a cell, and keeps every
/// escape sequence.
pub fn skip_visible(s: &str, count: usize) -> (out: String)
    ensures
        out@ == without_cells(s@, count as nat),
        width_of(out@) == if width_of(s@) >= count {
            width_of(s@) - count
        } else {
            0
        },
{
    let n = s.unicode_len();
    let mut state = Scan::Text;
    let mut w: usize = 0;
    let mut out = String::new();
    proof {
        lemma_take_all(s@);
    }
    for c in it: s.chars()
        invariant
            it.seq() == s@,
            n == s@.len(),
            state == scan_of(s@.take(it.index() as int)),
            w == width_of(s@.take(it.index() as int)),
            w <= it.index(),
            out@ == without_cells(s@.take(it.index() as int), count as nat),
    {
        proof {
            lemma_take_step(s@, it.index() as int);
        }
        let (next, shown) = state.step(c);
        if !(shown && w < count) {
            out.push(c);
        }
        if shown {
            w = w + 1;
        }
        state = next;
    }
    proof {
        lemma_without_cells(s@, count as nat);
    }
    out
}

/// Text that knows how many terminal cells it occupies.
pub trait AnsiString {
    /// The characters of the text.
    spec fn text(&self) -> Seq<char>;

    /// Counts the terminal cells that the text occupies.
    fn visible_width(&self) -> (w: usize)
        ensures
            w == width_of(self.text()),
    ;

    /// The longest beginning of the text that occupies at most `width` cells
    /// and does not end inside an escape sequence that the text goes on with.
    fn truncate_visible(&self, width: usize) -> (out: &str)
        ensures
            is_longest_fit(self.text(), width as nat, out@),
            out@ == longest_fit(self.text(), width as nat),
    ;
}

impl AnsiString for str {
    open spec fn text(&self) -> Seq<char> {
        self@
    }

    fn visible_width(&self) -> (w: usize) {
        visible_width(self)
    }

    fn truncate_visible(&self, width: usize) -> (out: &str) {
        truncate_visible(self, width)
    }
}

} // verus!
