//! Plain text as sequences of characters: conversions, repetition, decimal
//! numbers and literal search.

use vstd::prelude::*;

verus! {

/// std's `String::push`: it appends the one character to the end of the string
/// and leaves the rest as it was.
pub assume_specification[ String::push ](s: &mut String, c: char)
    ensures
        final(s)@ == old(s)@.push(c),
;

/// The first `i + 1` items are the first `i` and the one behind them.
pub proof fn lemma_take_step<T>(s: Seq<T>, i: int)
    requires
        0 <= i < s.len(),
    ensures
        s.take(i + 1).drop_last() == s.take(i),
        s.take(i + 1).last() == s[i],
        s.take(i + 1) == s.take(i).push(s[i]),
{
    assert(s.take(i + 1).drop_last() =~= s.take(i));
    assert(s.take(i + 1) =~= s.take(i).push(s[i]));
}

/// Taking every item leaves the sequence as it is, taking none leaves nothing.
pub proof fn lemma_take_all<T>(s: Seq<T>)
    ensures
        s.take(s.len() as int) == s,
        s.take(0) == Seq::<T>::empty(),
{
    assert(s.take(s.len() as int) =~= s);
    assert(s.take(0) =~= Seq::<T>::empty());
}

/// The characters of a string, one by one.
pub fn chars_of(s: &str) -> (out: Vec<char>)
    ensures
        out@ == s@,
{
    let mut out: Vec<char> = Vec::new();
    for c in it: s.chars()
        invariant
            it.seq() == s@,
            out@ == s@.take(it.index() as int),
    {
        proof {
            lemma_take_step(s@, it.index() as int);
        }
        out.push(c);
    }
    proof {
        lemma_take_all(s@);
    }
    out
}

/// The string made of `chars[from..to]`.
pub fn string_of(chars: &[char], from: usize, to: usize) -> (out: String)
    requires
        from <= to <= chars@.len(),
    ensures
        out@ == chars@.subrange(from as int, to as int),
{
    let mut out = String::new();
    let mut i: usize = from;
    while i < to
        invariant
            from <= i <= to <= chars@.len(),
            out@ == chars@.subrange(from as int, i as int),
        decreases to - i,
    {
        out.push(chars[i]);
        assert(chars@.subrange(from as int, i + 1) =~= chars@.subrange(from as int, i as int).push(
            chars@[i as int],
        ));
        i = i + 1;
    }
    assert(chars@.subrange(from as int, from as int) =~= Seq::<char>::empty());
    out
}

/// `s` written `times` times in a row.
pub open spec fn repeated(s: Seq<char>, times: nat) -> Seq<char>
    decreases times,
{
    if times == 0 {
        Seq::empty()
    } else {
        repeated(s, (times - 1) as nat) + s
    }
}

/// A row of one character is as long as it says, and holds nothing else.
pub proof fn lemma_repeated_char(c: char, times: nat)
    ensures
        repeated(seq![c], times).len() == times,
        forall|i: int| 0 <= i < times ==> repeated(seq![c], times)[i] == c,
    decreases times,
{
    if times > 0 {
        lemma_repeated_char(c, (times - 1) as nat);
    }
}

/// Writes `s` `times` times in a row.
pub fn repeat(s: &str, times: usize) -> (out: String)
    ensures
        out@ == repeated(s@, times as nat),
{
    let mut out = String::new();
    let mut i: usize = 0;
    while i < times
        invariant
            i <= times,
            out@ == repeated(s@, i as nat),
        decreases times - i,
    {
        out.append(s);
        i = i + 1;
    }
    out
}

/// The character that stands for a digit below ten.
pub open spec fn digit_char(d: nat) -> char {
    if d == 0 {
        '0'
    } else if d == 1 {
        '1'
    } else if d == 2 {
        '2'
    } else if d == 3 {
        '3'
    } else if d == 4 {
        '4'
    } else if d == 5 {
        '5'
    } else if d == 6 {
        '6'
    } else if d == 7 {
        '7'
    } else if d == 8 {
        '8'
    } else {
        '9'
    }
}

/// A number in decimal, without leading zeros.
pub open spec fn decimal_of(n: nat) -> Seq<char>
    decreases n,
{
    if n < 10 {
        seq![digit_char(n)]
    } else {
        decimal_of(n / 10).push(digit_char(n % 10))
    }
}

fn digit(d: usize) -> (c: char)
    requires
        d < 10,
    ensures
        c == digit_char(d as nat),
{
    if d == 0 {
        '0'
    } else if d == 1 {
        '1'
    } else if d == 2 {
        '2'
    } else if d == 3 {
        '3'
    } else if d == 4 {
        '4'
    } else if d == 5 {
        '5'
    } else if d == 6 {
        '6'
    } else if d == 7 {
        '7'
    } else if d == 8 {
        '8'
    } else {
        '9'
    }
}

fn push_decimal(out: &mut String, n: usize)
    ensures
        final(out)@ == old(out)@ + decimal_of(n as nat),
    decreases n,
{
    if n >= 10 {
        push_decimal(out, n / 10);
    }
    out.push(digit(n % 10));
    assert(out@ =~= old(out)@ + decimal_of(n as nat));
}

/// Writes a number in decimal.
pub fn decimal(n: usize) -> (out: String)
    ensures
        out@ == decimal_of(n as nat),
{
    let mut out = String::new();
    push_decimal(&mut out, n);
    assert(Seq::<char>::empty() + decimal_of(n as nat) =~= decimal_of(n as nat));
    out
}

/// `s` moved to the right edge of a field of `width` characters; a longer `s`
/// is left as it is.
pub open spec fn right_aligned_of(s: Seq<char>, width: nat) -> Seq<char> {
    if s.len() >= width {
        s
    } else {
        repeated(seq![' '], (width - s.len()) as nat) + s
    }
}

/// Pads `s` with spaces on the left until it has `width` characters.
pub fn right_aligned(s: &str, width: usize) -> (out: String)
    ensures
        out@ == right_aligned_of(s@, width as nat),
{
    let len = s.unicode_len();
    if len >= width {
        String::from_str(s)
    } else {
        proof {
            reveal_strlit(" ");
            assert(" "@ =~= seq![' ']);
        }
        let mut out = repeat(" ", width - len);
        out.append(s);
        out
    }
}

/// The index of the first `c` in `s`; the length of `s` where it holds none.
pub open spec fn index_of(s: Seq<char>, c: char) -> int
    decreases s.len(),
{
    if s.len() == 0 || s[0] == c {
        0
    } else {
        1 + index_of(s.skip(1), c)
    }
}

/// `index_of` is the one place before which `s` holds no `c` and at which it
/// holds one or ends.
pub proof fn lemma_index_of(s: Seq<char>, c: char, at: int)
    requires
        0 <= at <= s.len(),
        forall|k: int| 0 <= k < at ==> s[k] != c,
        at < s.len() ==> s[at] == c,
    ensures
        index_of(s, c) == at,
    decreases s.len(),
{
    if at > 0 {
        lemma_index_of(s.skip(1), c, at - 1);
    }
}

/// Finds the first `c` at or behind `from`; gives the length where there is none.
pub fn find_char(chars: &[char], c: char, from: usize) -> (at: usize)
    requires
        from <= chars@.len(),
    ensures
        from <= at <= chars@.len(),
        at == from + index_of(chars@.skip(from as int), c),
{
    let mut at: usize = from;
    while at < chars.len() && chars[at] != c
        invariant
            from <= at <= chars@.len(),
            forall|k: int| from <= k < at ==> chars@[k] != c,
        decreases chars@.len() - at,
    {
        at = at + 1;
    }
    proof {
        lemma_index_of(chars@.skip(from as int), c, at - from);
    }
    at
}

/// The characters that separate words: the blank, the tab, the ends of a
/// line and the other characters that Unicode calls white space.
pub open spec fn is_whitespace(c: char) -> bool {
    ||| c == ' '
    ||| '\u{9}' <= c <= '\u{d}'
    ||| c == '\u{85}'
    ||| c == '\u{a0}'
    ||| c == '\u{1680}'
    ||| '\u{2000}' <= c <= '\u{200a}'
    ||| c == '\u{2028}'
    ||| c == '\u{2029}'
    ||| c == '\u{202f}'
    ||| c == '\u{205f}'
    ||| c == '\u{3000}'
}

/// Tells whether a character separates words.
pub fn whitespace(c: char) -> (out: bool)
    ensures
        out == is_whitespace(c),
{
    c == ' ' || ('\u{9}' <= c && c <= '\u{d}') || c == '\u{85}' || c == '\u{a0}' || c
        == '\u{1680}' || ('\u{2000}' <= c && c <= '\u{200a}') || c == '\u{2028}' || c
        == '\u{2029}' || c == '\u{202f}' || c == '\u{205f}' || c == '\u{3000}'
}

/// The text up to its last white space, without that white space; nothing
/// where the text holds none. This takes the last word off a text, and the
/// one character that sets it off.
pub open spec fn without_last_word(s: Seq<char>) -> Seq<char>
    decreases s.len(),
{
    if s.len() == 0 {
        s
    } else if is_whitespace(s.last()) {
        s.drop_last()
    } else {
        without_last_word(s.drop_last())
    }
}

/// Whether `needle` stands in `s` at index `at`.
pub open spec fn occurs_at(s: Seq<char>, needle: Seq<char>, at: int) -> bool {
    0 <= at && at + needle.len() <= s.len() && s.subrange(at, at + needle.len()) == needle
}

/// Whether `needle` stands anywhere in `s`.
pub open spec fn occurs(s: Seq<char>, needle: Seq<char>) -> bool {
    exists|at: int| occurs_at(s, needle, at)
}

/// `s` with `with` in place of each occurrence of `needle`, taken from left
/// to right, none overlapping an earlier one. An empty `needle` occurs nowhere.
pub open spec fn replaced(s: Seq<char>, needle: Seq<char>, with: Seq<char>) -> Seq<char>
    decreases s.len(),
{
    if needle.len() == 0 || s.len() < needle.len() {
        s
    } else if occurs_at(s, needle, 0) {
        with + replaced(s.skip(needle.len() as int), needle, with)
    } else {
        seq![s[0]] + replaced(s.skip(1), needle, with)
    }
}

/// Tells whether `needle` stands in `chars` at index `at`.
pub fn matches_at(chars: &[char], needle: &[char], at: usize) -> (found: bool)
    requires
        at <= chars@.len(),
    ensures
        found == occurs_at(chars@, needle@, at as int),
{
    let m = needle.len();
    if chars.len() - at < m {
        return false;
    }
    let mut k: usize = 0;
    while k < m
        invariant
            k <= m,
            m == needle@.len(),
            at + m <= chars@.len() <= usize::MAX,
            forall|j: int| 0 <= j < k ==> chars@[at + j] == needle@[j],
        decreases m - k,
    {
        if chars[at + k] != needle[k] {
            proof {
                let window = chars@.subrange(at as int, at + m);
                assert(window[k as int] == chars@[at + k]);
            }
            return false;
        }
        k = k + 1;
    }
    assert(chars@.subrange(at as int, at + m) =~= needle@);
    true
}

/// Puts `with` in place of each occurrence of `needle` in `text`, from left to
/// right, and tells whether there was one.
pub fn replace_all(text: &str, needle: &str, with: &str) -> (out: (String, bool))
    ensures
        out.0@ == replaced(text@, needle@, with@),
        out.1 == (needle@.len() > 0 && occurs(text@, needle@)),
{
    let chars = chars_of(text);
    let pattern = chars_of(needle);
    let n = chars.len();
    let m = pattern.len();
    if m == 0 {
        return (String::from_str(text), false);
    }
    let mut out = String::new();
    let mut found = false;
    let mut i: usize = 0;
    proof {
        assert(text@.skip(0) =~= text@);
        assert(out@ + replaced(text@, needle@, with@) =~= replaced(text@, needle@, with@));
    }
    while i < n
        invariant
            i <= n,
            n == chars@.len(),
            m == pattern@.len(),
            m > 0,
            chars@ == text@,
            pattern@ == needle@,
            out@ + replaced(text@.skip(i as int), needle@, with@) == replaced(
                text@,
                needle@,
                with@,
            ),
            found == exists|at: int| at < i && occurs_at(text@, needle@, at),
        decreases n - i,
    {
        let ghost rest = text@.skip(i as int);
        let here = matches_at(chars.as_slice(), pattern.as_slice(), i);
        proof {
            if i + m <= n {
                assert(rest.subrange(0, m as int) =~= text@.subrange(i as int, i + m));
            }
            assert(occurs_at(rest, needle@, 0) == here);
        }
        if here {
            let ghost before = out@;
            out.append(with);
            proof {
                assert(rest.skip(m as int) =~= text@.skip(i + m));
                assert(before + (with@ + replaced(rest.skip(m as int), needle@, with@)) =~= (before
                    + with@) + replaced(rest.skip(m as int), needle@, with@));
                assert(occurs_at(text@, needle@, i as int));
            }
            found = true;
            i = i + m;
        } else {
            let ghost before = out@;
            out.push(chars[i]);
            proof {
                assert(rest.skip(1) =~= text@.skip(i + 1));
                if rest.len() < m {
                    assert(replaced(rest, needle@, with@) == rest);
                    assert(replaced(rest.skip(1), needle@, with@) == rest.skip(1));
                    assert(rest =~= seq![rest[0]] + rest.skip(1));
                }
                assert(before + (seq![rest[0]] + replaced(rest.skip(1), needle@, with@)) =~= (
                before.push(chars@[i as int])) + replaced(rest.skip(1), needle@, with@));
            }
            i = i + 1;
        }
    }
    proof {
        assert(text@.skip(n as int) =~= Seq::<char>::empty());
        assert(out@ + Seq::<char>::empty() =~= out@);
        if found {
            let at = choose|at: int| at < n && occurs_at(text@, needle@, at);
            assert(occurs(text@, needle@));
        } else {
            assert forall|at: int| !occurs_at(text@, needle@, at) by {
                if occurs_at(text@, needle@, at) {
                    assert(at < n);
                }
            }
        }
    }
    (out, found)
}

} // verus!
