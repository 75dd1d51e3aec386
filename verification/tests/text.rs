use exoingest::text::{content_lines, split_str, to_lower};

#[test]
fn split_keeps_empty_segments() {
    assert_eq!(split_str("a,,b", ','), vec!["a", "", "b"]);
    assert_eq!(split_str("", ','), vec![""]);
    assert_eq!(split_str(",", ','), vec!["", ""]);
    assert_eq!(split_str("one", ','), vec!["one"]);
}

#[test]
fn content_lines_skip_comments_blanks_and_cr() {
    let text = "# note\r\nfirst\r\n\r\nsecond\n# tail\n";
    assert_eq!(content_lines(text), vec!["first", "second"]);
}

#[test]
fn lowercase_folds_ascii_only() {
    assert_eq!(to_lower('A'), 'a');
    assert_eq!(to_lower('Z'), 'z');
    assert_eq!(to_lower('a'), 'a');
    assert_eq!(to_lower('0'), '0');
    assert_eq!(to_lower(' '), ' ');
    assert_eq!(to_lower('@'), '@');
    assert_eq!(to_lower('['), '[');
}
