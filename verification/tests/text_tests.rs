use cargo_info::report::labelled_line;
use cargo_info::text::{decimal_text, join_lines, push_decimal, push_padded, push_spaces};

#[test]
fn decimal_of_zero_is_one_digit() {
    assert_eq!(decimal_text(0), "0");
}

#[test]
fn decimal_of_single_digits() {
    for n in 0..10u64 {
        assert_eq!(decimal_text(n), n.to_string());
    }
}

#[test]
fn decimal_keeps_inner_zeros() {
    assert_eq!(decimal_text(10), "10");
    assert_eq!(decimal_text(1005), "1005");
    assert_eq!(decimal_text(120_000), "120000");
}

#[test]
fn decimal_of_largest_value() {
    assert_eq!(decimal_text(u64::MAX), "18446744073709551615");
}

#[test]
fn decimal_agrees_with_std_on_a_spread_of_values() {
    let mut n: u64 = 1;
    while n < u64::MAX / 7 {
        assert_eq!(decimal_text(n), n.to_string());
        assert_eq!(decimal_text(n - 1), (n - 1).to_string());
        n *= 7;
    }
}

#[test]
fn push_decimal_appends_behind_what_is_there() {
    let mut out = String::from("n=");
    push_decimal(&mut out, 42);
    assert_eq!(out, "n=42");
}

#[test]
fn push_spaces_appends_exactly_that_many() {
    let mut out = String::from("x");
    push_spaces(&mut out, 0);
    assert_eq!(out, "x");
    push_spaces(&mut out, 3);
    assert_eq!(out, "x   ");
}

#[test]
fn push_padded_fills_to_the_width() {
    let mut out = String::new();
    push_padded(&mut out, "ab", 5);
    assert_eq!(out, "ab   ");
}

#[test]
fn push_padded_keeps_a_longer_text_whole() {
    let mut out = String::new();
    push_padded(&mut out, "abcdef", 3);
    assert_eq!(out, "abcdef");
    let mut exact = String::new();
    push_padded(&mut exact, "abc", 3);
    assert_eq!(exact, "abc");
}

#[test]
fn push_padded_counts_characters_not_bytes() {
    let mut out = String::new();
    push_padded(&mut out, "héé", 5);
    assert_eq!(out, "héé  ");
}

#[test]
fn labelled_line_has_a_column_of_sixteen() {
    assert_eq!(labelled_line("Crate:", "foo"), "Crate:          foo");
    assert_eq!(labelled_line("Version history:", ""), "Version history:");
    assert_eq!(labelled_line("Documentation:", "x"), "Documentation:  x");
}

#[test]
fn labelled_line_with_a_long_label_is_not_cut() {
    assert_eq!(labelled_line("A label of more than sixteen:", "v"), "A label of more than sixteen:v");
}

#[test]
fn join_lines_of_nothing_is_empty() {
    assert_eq!(join_lines(&Vec::new()), "");
}

#[test]
fn join_lines_of_one_line_has_no_feed() {
    assert_eq!(join_lines(&vec!["only".to_string()]), "only");
}

#[test]
fn join_lines_sets_feeds_between_lines() {
    let lines = vec!["a".to_string(), String::new(), "c".to_string()];
    assert_eq!(join_lines(&lines), "a\n\nc");
}
