use editor_core::text::{
    chars_of, decimal_string, fit_to_width, push_centered, push_right_aligned, push_spaces,
    split_lines, string_of,
};

fn lines(content: &str) -> Vec<String> {
    split_lines(content)
}

#[test]
fn split_lines_ends_lines_at_line_feeds() {
    assert_eq!(lines("ab\ncd"), vec!["ab", "cd"]);
    assert_eq!(lines("ab\ncd\n"), vec!["ab", "cd"]);
    assert_eq!(lines("\n"), vec![""]);
    assert_eq!(lines("\n\n"), vec!["", ""]);
    assert_eq!(lines("a\n\nb"), vec!["a", "", "b"]);
    assert!(lines("").is_empty());
}

#[test]
fn split_lines_drops_the_carriage_return_before_a_line_feed() {
    assert_eq!(lines("ab\r\ncd\r\n"), vec!["ab", "cd"]);
    assert_eq!(lines("ab\r\r\ncd"), vec!["ab\r", "cd"]);
    assert_eq!(lines("a\rb\n"), vec!["a\rb"]);
    assert_eq!(lines("ab\r"), vec!["ab\r"]);
    assert_eq!(lines("\r\n"), vec![""]);
}

#[test]
fn split_lines_agrees_with_std() {
    for content in ["", "a", "a\n", "a\nb", "a\r\nb\r\n", "\n\na\n", "a\r", "a\r\r\n", "\r", "x\n\r\ny"] {
        let expected: Vec<String> = content.lines().map(|line| line.to_string()).collect();
        assert_eq!(lines(content), expected);
    }
}

#[test]
fn chars_of_gives_each_character() {
    assert_eq!(chars_of("a\u{597d}b"), vec!['a', '\u{597d}', 'b']);
    assert!(chars_of("").is_empty());
}

#[test]
fn string_of_takes_a_prefix() {
    let chars = vec!['a', 'b', 'c'];
    assert_eq!(string_of(&chars, 0), "");
    assert_eq!(string_of(&chars, 2), "ab");
    assert_eq!(string_of(&chars, 3), "abc");
}

#[test]
fn decimal_string_writes_digits() {
    assert_eq!(decimal_string(0), "0");
    assert_eq!(decimal_string(7), "7");
    assert_eq!(decimal_string(10), "10");
    assert_eq!(decimal_string(1234567890), "1234567890");
    assert_eq!(decimal_string(usize::MAX), format!("{}", usize::MAX));
}

#[test]
fn push_spaces_appends_spaces() {
    let mut text = "a".to_string();
    push_spaces(&mut text, 3);
    assert_eq!(text, "a   ");
    push_spaces(&mut text, 0);
    assert_eq!(text, "a   ");
}

#[test]
fn push_centered_puts_the_odd_space_right() {
    let mut text = "~".to_string();
    push_centered(&mut text, "abc", 8);
    assert_eq!(text, format!("~{:^8}", "abc"));
    assert_eq!(text, "~  abc   ");
    let mut tight = String::new();
    push_centered(&mut tight, "abc", 2);
    assert_eq!(tight, "abc");
}

#[test]
fn push_right_aligned_pads_on_the_left() {
    let mut text = "x".to_string();
    push_right_aligned(&mut text, "1/2", 6);
    assert_eq!(text, format!("x{:>6}", "1/2"));
    let mut tight = String::new();
    push_right_aligned(&mut tight, "1/2", 1);
    assert_eq!(tight, "1/2");
}

#[test]
fn fit_to_width_cuts_or_pads() {
    for (text, width) in [("abc", 5), ("abc", 3), ("abcdef", 4), ("", 2), ("a\u{597d}c", 2), ("x", 0)] {
        assert_eq!(fit_to_width(text, width), format!("{:width$.width$}", text));
    }
    assert_eq!(fit_to_width("abc", 5), "abc  ");
    assert_eq!(fit_to_width("abcdef", 4), "abcd");
}
