use ncgopher::text::{
    joined, decimal_string, ends_with, find_from, same_text, split_chars, split_lines, starts_with,
    starts_with_at, string_from, to_chars,
};

fn lines_of(s: &str) -> Vec<String> {
    split_lines(&to_chars(s))
}

fn owned(v: &[&str]) -> Vec<String> {
    v.iter().map(|s| s.to_string()).collect()
}

#[test]
fn chars_round_trip() {
    let v = to_chars("a\tbç");
    assert_eq!(v, vec!['a', '\t', 'b', 'ç']);
    assert_eq!(string_from(&v, 0, 4), "a\tbç");
    assert_eq!(string_from(&v, 1, 3), "\tb");
    assert_eq!(string_from(&v, 2, 2), "");
}

#[test]
fn lines_end_at_line_feeds() {
    assert_eq!(lines_of("one\ntwo\nthree"), owned(&["one", "two", "three"]));
}

#[test]
fn lines_drop_carriage_return_before_line_feed() {
    assert_eq!(lines_of("one\r\ntwo\r\n"), owned(&["one", "two"]));
}

#[test]
fn last_line_keeps_bare_carriage_return() {
    assert_eq!(lines_of("one\ntwo\r"), owned(&["one", "two\r"]));
}

#[test]
fn lines_agree_with_std_on_samples() {
    for s in ["", "\n", "\n\n", "a", "a\n", "a\n\nb", "\r\n", "a\r\r\nb", "\ra\n", "x\r\n\r\ny\n"] {
        let expected: Vec<String> = s.lines().map(String::from).collect();
        assert_eq!(lines_of(s), expected, "for {:?}", s);
    }
}

#[test]
fn empty_text_has_no_lines() {
    assert_eq!(lines_of(""), Vec::<String>::new());
}

#[test]
fn split_gives_one_piece_more_than_separators() {
    assert_eq!(split_chars(&to_chars("a\tb\t\tc"), '\t'), owned(&["a", "b", "", "c"]));
    assert_eq!(split_chars(&to_chars(""), '\t'), owned(&[""]));
    assert_eq!(split_chars(&to_chars("\t"), '\t'), owned(&["", ""]));
    assert_eq!(split_chars(&to_chars("abc"), '\t'), owned(&["abc"]));
}

#[test]
fn find_from_counts_from_the_start() {
    let v = to_chars("ab/cd/e");
    assert_eq!(find_from(&v, 0, '/'), 2);
    assert_eq!(find_from(&v, 3, '/'), 5);
    assert_eq!(find_from(&v, 6, '/'), 7);
    assert_eq!(find_from(&v, 7, '/'), 7);
}

#[test]
fn prefixes_and_suffixes() {
    assert!(starts_with("gopher://x", "gopher://"));
    assert!(!starts_with("gopher:/", "gopher://"));
    assert!(starts_with("abc", ""));
    assert!(ends_with("notes.txt", ".txt"));
    assert!(!ends_with("txt", ".txt"));
    assert!(!ends_with("notes.txt.gz", ".txt"));
    assert!(starts_with_at(&to_chars("xxabc"), 2, &to_chars("ab")));
    assert!(!starts_with_at(&to_chars("xxabc"), 4, &to_chars("cd")));
}

#[test]
fn same_text_compares_characters() {
    assert!(same_text(".", "."));
    assert!(!same_text(".", ".."));
    assert!(same_text("", ""));
}

#[test]
fn concat_joins() {
    assert_eq!(joined("ab", "cd"), "abcd");
    assert_eq!(joined("", ""), "");
}

#[test]
fn decimal_of_numbers() {
    assert_eq!(decimal_string(0), "0");
    assert_eq!(decimal_string(7), "7");
    assert_eq!(decimal_string(10), "10");
    assert_eq!(decimal_string(1234567890), "1234567890");
    assert_eq!(decimal_string(usize::MAX), usize::MAX.to_string());
}
