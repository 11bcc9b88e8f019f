//! Naming a file together with the place at which to open it, as in
//! `notes.txt:12:4`, and reading a `row:column` pair.

use crate::helpers::text::{chars_of, find_char, index_of, string_of};
use vstd::prelude::*;

verus! {

/// A file to view, and where to start in it. Row and column count from one.
#[derive(Debug)]
pub struct File {
    pub filename: String,
    pub row: Option<usize>,
    pub col: Option<usize>,
}

/// One of the ten digits.
pub open spec fn is_digit(c: char) -> bool {
    '0' <= c <= '9'
}

/// What a digit counts.
pub open spec fn digit_value(c: char) -> nat {
    (c as int - '0' as int) as nat
}

/// What a row of digits counts, read as a decimal number.
pub open spec fn digits_value(s: Seq<char>) -> nat
    decreases s.len(),
{
    if s.len() == 0 {
        0
    } else {
        digits_value(s.drop_last()) * 10 + digit_value(s.last())
    }
}

/// `s` holds digits only.
pub open spec fn all_digits(s: Seq<char>) -> bool {
    forall|i: int| 0 <= i < s.len() ==> is_digit(#[trigger] s[i])
}

/// `s` without a plus sign at its front.
pub open spec fn unsigned_part(s: Seq<char>) -> Seq<char> {
    if s.len() > 0 && s[0] == '+' {
        s.skip(1)
    } else {
        s
    }
}

/// The number that `s` writes: at least one digit, behind at most one plus
/// sign, with a value that a `usize` holds. Anything else writes no number.
pub open spec fn number_of(s: Seq<char>) -> Option<usize> {
    let digits = unsigned_part(s);
    if digits.len() > 0 && all_digits(digits) && digits_value(digits) <= usize::MAX {
        Some(digits_value(digits) as usize)
    } else {
        None
    }
}

/// The text before the first colon.
pub open spec fn first_field(s: Seq<char>) -> Seq<char> {
    s.take(index_of(s, ':'))
}

/// The text behind the first colon, where there is one.
pub open spec fn behind_first_field(s: Seq<char>) -> Option<Seq<char>> {
    if index_of(s, ':') < s.len() {
        Some(s.skip(index_of(s, ':') + 1))
    } else {
        None
    }
}

/// The row and the column that `s` names as `row:column`: the numbers in its
/// first and its second field.
pub open spec fn row_and_col_of(s: Seq<char>) -> (Option<usize>, Option<usize>) {
    (
        number_of(first_field(s)),
        match behind_first_field(s) {
            Some(rest) => number_of(first_field(rest)),
            None => None,
        },
    )
}

proof fn lemma_digits_value_grows(s: Seq<char>, k: int)
    requires
        0 <= k <= s.len(),
    ensures
        digits_value(s.take(k)) <= digits_value(s),
    decreases s.len(),
{
    if k == s.len() {
        assert(s.take(k) =~= s);
    } else {
        assert(s.drop_last().take(k) =~= s.take(k));
        lemma_digits_value_grows(s.drop_last(), k);
    }
}

fn digit_of(c: char) -> (out: Option<usize>)
    ensures
        out is Some == is_digit(c),
        out is Some ==> out->0 == digit_value(c),
{
    if c == '0' {
        Some(0)
    } else if c == '1' {
        Some(1)
    } else if c == '2' {
        Some(2)
    } else if c == '3' {
        Some(3)
    } else if c == '4' {
        Some(4)
    } else if c == '5' {
        Some(5)
    } else if c == '6' {
        Some(6)
    } else if c == '7' {
        Some(7)
    } else if c == '8' {
        Some(8)
    } else if c == '9' {
        Some(9)
    } else {
        None
    }
}

/// Reads `chars[from..to]` as a number.
pub fn parse_number(chars: &[char], from: usize, to: usize) -> (out: Option<usize>)
    requires
        from <= to <= chars@.len(),
    ensures
        out == number_of(chars@.subrange(from as int, to as int)),
{
    let ghost s = chars@.subrange(from as int, to as int);
    let mut start: usize = from;
    if start < to && chars[start] == '+' {
        start = start + 1;
    }
    let ghost digits = chars@.subrange(start as int, to as int);
    assert(digits =~= unsigned_part(s));
    if start == to {
        return None;
    }
    let mut value: usize = 0;
    let mut i: usize = start;
    assert(chars@.subrange(start as int, start as int) =~= Seq::<char>::empty());
    while i < to
        invariant
            start <= i <= to <= chars@.len(),
            digits == chars@.subrange(start as int, to as int),
            digits == unsigned_part(chars@.subrange(from as int, to as int)),
            all_digits(chars@.subrange(start as int, i as int)),
            value == digits_value(chars@.subrange(start as int, i as int)),
        decreases to - i,
    {
        let ghost seen = chars@.subrange(start as int, i as int);
        let ghost more = chars@.subrange(start as int, i + 1);
        proof {
            assert(more.drop_last() =~= seen);
            assert(more.last() == chars@[i as int]);
            assert(digits.take(i + 1 - start) =~= more);
            assert(digits[i - start] == chars@[i as int]);
            lemma_digits_value_grows(digits, i + 1 - start);
        }
        let next = match digit_of(chars[i]) {
            Some(d) => match value.checked_mul(10) {
                Some(tens) => tens.checked_add(d),
                None => None,
            },
            None => None,
        };
        match next {
            Some(v) => {
                value = v;
            },
            None => {
                return None;
            },
        }
        i = i + 1;
    }
    assert(chars@.subrange(start as int, to as int) == digits);
    Some(value)
}

/// Reads `row:column`. Either part that is missing or is no number is `None`.
pub fn parse_row_and_col(s: &str) -> (out: (Option<usize>, Option<usize>))
    ensures
        out == row_and_col_of(s@),
{
    let chars = chars_of(s);
    let n = chars.len();
    let first = find_char(chars.as_slice(), ':', 0);
    assert(chars@.skip(0) =~= chars@);
    assert(chars@.subrange(0, first as int) =~= first_field(s@));
    let row = parse_number(chars.as_slice(), 0, first);
    let col = if first < n {
        let second = find_char(chars.as_slice(), ':', first + 1);
        proof {
            let rest = chars@.skip(first + 1);
            assert(chars@.subrange(first + 1, second as int) =~= first_field(rest));
        }
        parse_number(chars.as_slice(), first + 1, second)
    } else {
        None
    };
    (row, col)
}

impl File {
    /// The file that `s` names: the name is the text before the first colon,
    /// the place is read from the text behind it.
    pub open spec fn named_by(&self, s: Seq<char>) -> bool {
        &&& self.filename@ == first_field(s)
        &&& (self.row, self.col) == match behind_first_field(s) {
            Some(rest) => row_and_col_of(rest),
            None => (None, None),
        }
    }

    /// Reads `name`, `name:row` or `name:row:column`.
    pub fn parse(s: &str) -> (out: File)
        ensures
            out.named_by(s@),
    {
        let chars = chars_of(s);
        let n = chars.len();
        let colon = find_char(chars.as_slice(), ':', 0);
        assert(chars@.skip(0) =~= chars@);
        let filename = string_of(chars.as_slice(), 0, colon);
        assert(chars@.subrange(0, colon as int) =~= first_field(s@));
        if colon < n {
            let rest = string_of(chars.as_slice(), colon + 1, n);
            assert(chars@.subrange(colon + 1, n as int) =~= chars@.skip(colon + 1));
            let (row, col) = parse_row_and_col(rest.as_str());
            File { filename, row, col }
        } else {
            File { filename, row: None, col: None }
        }
    }
}

impl Clone for File {
    fn clone(&self) -> (out: Self)
        ensures
            out == *self,
    {
        File { filename: self.filename.clone(), row: self.row, col: self.col }
    }
}

impl std::str::FromStr for File {
    type Err = String;

    /// Reads `name`, `name:row` or `name:row:column`; this never fails.
    fn from_str(s: &str) -> (out: Result<Self, Self::Err>)
        ensures
            out is Ok,
            out->Ok_0.named_by(s@),
    {
        Ok(File::parse(s))
    }
}

} // verus!
