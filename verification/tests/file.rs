use pager::helpers::file::{parse_number, parse_row_and_col, File};

#[test]
fn should_parse_line_col_string() {
    assert_eq!((Some(5), Some(7)), parse_row_and_col("5:7"));
}

#[test]
fn should_parse_line_alone() {
    assert_eq!((Some(5), None), parse_row_and_col("5"));
}

#[test]
fn should_not_parse_anything_other_than_numbers() {
    assert_eq!((None, None), parse_row_and_col("row:col"));
}

#[test]
fn row_and_col_take_the_first_two_fields() {
    assert_eq!((None, None), parse_row_and_col(""));
    assert_eq!((None, Some(7)), parse_row_and_col(":7"));
    assert_eq!((Some(5), None), parse_row_and_col("5:"));
    assert_eq!((Some(5), Some(7)), parse_row_and_col("5:7:9"));
    assert_eq!((Some(5), None), parse_row_and_col("5::9"));
    assert_eq!((Some(5), None), parse_row_and_col("5:x"));
    assert_eq!((None, Some(7)), parse_row_and_col("x:7"));
}

fn number(s: &str) -> Option<usize> {
    let chars: Vec<char> = s.chars().collect();
    parse_number(&chars, 0, chars.len())
}

#[test]
fn numbers_are_digits_behind_at_most_one_plus() {
    assert_eq!(Some(0), number("0"));
    assert_eq!(Some(7), number("007"));
    assert_eq!(Some(5), number("+5"));
    assert_eq!(Some(1234567890), number("1234567890"));
    assert_eq!(None, number(""));
    assert_eq!(None, number("+"));
    assert_eq!(None, number("++5"));
    assert_eq!(None, number("-5"));
    assert_eq!(None, number(" 5"));
    assert_eq!(None, number("5 "));
    assert_eq!(None, number("5a"));
    assert_eq!(None, number("٣"));
}

#[test]
fn numbers_agree_with_the_standard_library() {
    for s in ["0", "42", "+42", "", "+", "4 2", "-1", "99999999999999999999999", "00012"] {
        assert_eq!(s.parse::<usize>().ok(), number(s));
    }
}

#[test]
fn numbers_stop_at_the_largest_one() {
    let largest = usize::MAX.to_string();
    assert_eq!(Some(usize::MAX), number(&largest));
    let mut beyond = largest.clone();
    beyond.push('0');
    assert_eq!(None, number(&beyond));
    let mut next: Vec<char> = largest.chars().collect();
    let last = next.len() - 1;
    next[last] = char::from_digit(next[last].to_digit(10).unwrap() + 1, 10).unwrap();
    assert_eq!(None, parse_number(&next, 0, next.len()));
}

#[test]
fn numbers_are_read_from_a_part_of_the_text() {
    let chars: Vec<char> = "ab12:34".chars().collect();
    assert_eq!(Some(12), parse_number(&chars, 2, 4));
    assert_eq!(Some(34), parse_number(&chars, 5, 7));
    assert_eq!(None, parse_number(&chars, 0, 4));
    assert_eq!(None, parse_number(&chars, 3, 3));
}

#[test]
fn file_is_a_name_with_an_optional_place() {
    let plain = File::parse("notes.txt");
    assert_eq!("notes.txt", plain.filename);
    assert_eq!(None, plain.row);
    assert_eq!(None, plain.col);

    let row = File::parse("notes.txt:12");
    assert_eq!("notes.txt", row.filename);
    assert_eq!(Some(12), row.row);
    assert_eq!(None, row.col);

    let both = File::parse("notes.txt:12:4");
    assert_eq!("notes.txt", both.filename);
    assert_eq!(Some(12), both.row);
    assert_eq!(Some(4), both.col);

    let odd = File::parse("notes.txt:x:4");
    assert_eq!("notes.txt", odd.filename);
    assert_eq!(None, odd.row);
    assert_eq!(Some(4), odd.col);

    let empty = File::parse("");
    assert_eq!("", empty.filename);
    assert_eq!(None, empty.row);
}

#[test]
fn file_is_read_from_a_string_and_copied() {
    let file: File = "src/main.rs:3:9".parse().unwrap();
    let copy = file.clone();
    assert_eq!("src/main.rs", copy.filename);
    assert_eq!(Some(3), copy.row);
    assert_eq!(Some(9), copy.col);
}
