use editor_core::line::{
    fits_in_line, is_blank, starts_with_control_code, GraphemeWidth, Line, TextFragment,
};

#[test]
fn line_counts_graphemes_not_characters() {
    let line = Line::from("a\u{310}e\u{301}o\u{308}\u{332}");
    assert_eq!(line.grapheme_count(), 3);
    assert_eq!(line.as_string(), "a\u{310}e\u{301}o\u{308}\u{332}");
    assert_eq!(Line::from("").grapheme_count(), 0);
}

#[test]
fn line_keeps_its_raw_text() {
    let line = Line::from("a\tb\u{3000}c");
    assert_eq!(line.as_string(), "a\tb\u{3000}c");
}

#[test]
fn line_slices_full_width_with_ellipsis() {
    let line = Line::from("ab\u{597d}cd");
    assert_eq!(line.grapheme_count(), 5);
    assert_eq!(line.get(3..4), "\u{22ef}");
    assert_eq!(line.get(0..3), "ab\u{22ef}");
    assert_eq!(line.get(3..6), "\u{22ef}cd");
    assert_eq!(line.get(2..4), "\u{597d}");
    assert_eq!(line.get(0..6), "ab\u{597d}cd");
    assert_eq!(line.get(0..100), "ab\u{597d}cd");
}

#[test]
fn line_get_of_empty_range_is_empty() {
    let line = Line::from("hello");
    assert_eq!(line.get(2..2), "");
    assert_eq!(line.get(3..1), "");
    assert_eq!(line.get(5..9), "");
    assert_eq!(line.get(1..3), "el");
}

#[test]
fn line_width_until_counts_columns() {
    let line = Line::from("ab\u{597d}cd");
    assert_eq!(line.width_until(0), 0);
    assert_eq!(line.width_until(1), 1);
    assert_eq!(line.width_until(2), 2);
    assert_eq!(line.width_until(3), 4);
    assert_eq!(line.width_until(4), 5);
    assert_eq!(line.width_until(5), 6);
}

#[test]
fn line_width_until_clamps_past_the_end() {
    let line = Line::from("ab\u{597d}cd");
    assert_eq!(line.width_until(6), 6);
    assert_eq!(line.width_until(usize::MAX), 6);
    assert_eq!(Line::from("").width_until(3), 0);
}

#[test]
fn line_width_until_never_decreases() {
    let line = Line::from("a\u{597d}\tb\u{3000}\u{1f600}c");
    let mut last = 0;
    for index in 0..=line.grapheme_count() + 2 {
        let width = line.width_until(index);
        assert!(width >= last);
        last = width;
    }
    assert_eq!(last, line.width_until(line.grapheme_count()));
}

#[test]
fn line_draws_tab_as_space() {
    let line = Line::from("a\tb");
    assert_eq!(line.get(0..3), "a b");
    assert_eq!(line.width_until(3), 3);
    assert_eq!(Line::replacement_character("\t"), Some(' '));
}

#[test]
fn line_draws_space_as_it_is() {
    assert_eq!(Line::replacement_character(" "), None);
    assert_eq!(Line::from("a b").get(0..3), "a b");
}

#[test]
fn line_marks_other_white_space() {
    assert_eq!(Line::replacement_character("\u{a0}"), Some('\u{2423}'));
    assert_eq!(Line::replacement_character("\u{3000}"), Some('\u{2423}'));
    let line = Line::from("a\u{3000}b");
    assert_eq!(line.get(0..3), "a\u{2423}b");
    // a replacement takes one column, whatever the cluster measures
    assert_eq!(line.width_until(2), 2);
}

#[test]
fn line_marks_zero_width_text() {
    assert_eq!(Line::replacement_character("\n"), Some('\u{25af}'));
    assert_eq!(Line::replacement_character("\u{200b}"), Some(' '));
    assert_eq!(Line::replacement_character(""), Some('.'));
    assert_eq!(Line::replacement_character("a"), None);
    assert_eq!(Line::replacement_character("\u{597d}"), None);
}

#[test]
fn choose_replacement_follows_the_measurements() {
    assert_eq!(Line::choose_replacement(" ", 1, true, false), None);
    assert_eq!(Line::choose_replacement("\t", 0, true, true), Some(' '));
    assert_eq!(Line::choose_replacement("x", 1, true, false), Some('\u{2423}'));
    assert_eq!(Line::choose_replacement("x", 2, true, false), Some('\u{2423}'));
    assert_eq!(Line::choose_replacement("x", 0, false, true), Some('\u{25af}'));
    assert_eq!(Line::choose_replacement("xy", 0, false, true), Some(' '));
    assert_eq!(Line::choose_replacement("x", 0, false, false), Some(' '));
    assert_eq!(Line::choose_replacement("x", 0, true, false), Some(' '));
    assert_eq!(Line::choose_replacement("", 0, true, false), Some('.'));
    assert_eq!(Line::choose_replacement("x", 1, false, false), None);
    assert_eq!(Line::choose_replacement("x", 2, false, true), None);
}

#[test]
fn fragment_width_follows_the_measurements() {
    let line = Line::new(vec![
        TextFragment::new("a".to_string(), 1, false, false),
        TextFragment::new("b".to_string(), 2, false, false),
        TextFragment::new("c".to_string(), 0, false, false),
        TextFragment::new("d".to_string(), 2, true, false),
        TextFragment::new("e".to_string(), 3, false, false),
    ]);
    assert_eq!(line.width_until(1), 1);
    assert_eq!(line.width_until(2), 3);
    assert_eq!(line.width_until(3), 4);
    assert_eq!(line.width_until(4), 5);
    assert_eq!(line.width_until(5), 7);
    assert_eq!(line.get(0..7), "ab \u{2423}e");
    assert_eq!(line.as_string(), "abcde");
}

#[test]
fn grapheme_width_in_columns() {
    assert_eq!(GraphemeWidth::Half.width(), 1);
    assert_eq!(GraphemeWidth::Full.width(), 2);
}

#[test]
fn line_insert_char_puts_it_before_the_grapheme() {
    let mut line = Line::from("abc");
    line.insert_char('x', 1);
    assert_eq!(line.as_string(), "axbc");
    line.insert_char('y', 0);
    assert_eq!(line.as_string(), "yaxbc");
    line.insert_char('z', 5);
    assert_eq!(line.as_string(), "yaxbcz");
    assert_eq!(line.grapheme_count(), 6);
    assert_eq!(line.width_until(6), 6);
}

#[test]
fn line_insert_char_past_the_end_appends() {
    let mut line = Line::from("ab");
    line.insert_char('c', 7);
    assert_eq!(line.as_string(), "abc");
}

#[test]
fn line_insert_char_segments_anew() {
    let mut line = Line::from("ea");
    line.insert_char('\u{301}', 1);
    assert_eq!(line.as_string(), "e\u{301}a");
    assert_eq!(line.grapheme_count(), 2);
}

#[test]
fn line_delete_grapheme_takes_the_whole_cluster() {
    let mut line = Line::from("ae\u{301}b");
    line.delete_grapheme_at(1);
    assert_eq!(line.as_string(), "ab");
    line.delete_grapheme_at(0);
    assert_eq!(line.as_string(), "b");
    line.delete_grapheme_at(5);
    assert_eq!(line.as_string(), "b");
    line.delete_grapheme_at(0);
    assert_eq!(line.as_string(), "");
    assert_eq!(line.grapheme_count(), 0);
}

#[test]
fn line_insert_then_delete_restores() {
    for index in 0..=3 {
        let mut line = Line::from("a\u{597d}c");
        line.insert_char('x', index);
        line.delete_grapheme_at(index);
        assert_eq!(line.as_string(), "a\u{597d}c");
    }
}

#[test]
fn line_append_str_adds_to_the_end() {
    let mut line = Line::from("ab");
    line.append_str("cd");
    assert_eq!(line.as_string(), "abcd");
    assert_eq!(line.grapheme_count(), 4);
    line.append_str("");
    assert_eq!(line.as_string(), "abcd");
    // the first character of what is added may join the last cluster
    let mut joined = Line::from("e");
    joined.append_str("\u{301}f");
    assert_eq!(joined.grapheme_count(), 2);
    assert_eq!(joined.width_until(2), 2);
}

#[test]
fn line_split_keeps_the_prefix_and_returns_the_rest() {
    let mut line = Line::from("ab\u{597d}cd");
    let rest = Line::new(line.split(2));
    assert_eq!(line.as_string(), "ab");
    assert_eq!(line.grapheme_count(), 2);
    assert_eq!(line.width_until(2), 2);
    assert_eq!(rest.as_string(), "\u{597d}cd");
    assert_eq!(rest.grapheme_count(), 3);
    assert_eq!(rest.width_until(3), 4);
    assert_eq!(rest.get(0..2), "\u{597d}");
}

#[test]
fn line_split_at_the_ends() {
    let mut line = Line::from("abc");
    let rest = Line::new(line.split(3));
    assert_eq!(line.as_string(), "abc");
    assert_eq!(rest.grapheme_count(), 0);
    let all = Line::new(line.split(0));
    assert_eq!(line.as_string(), "");
    assert_eq!(line.width_until(1), 0);
    assert_eq!(all.as_string(), "abc");
}

#[test]
fn line_str_to_fragments_makes_one_fragment_for_each_cluster() {
    let fragments = Line::str_to_fragments("a\r\nb\u{1f1f7}\u{1f1fa}\u{1f1f8}\u{1f1f9}");
    assert_eq!(fragments.len(), 5);
    let line = Line::new(fragments);
    assert_eq!(line.as_string(), "a\r\nb\u{1f1f7}\u{1f1fa}\u{1f1f8}\u{1f1f9}");
}

#[test]
fn line_measure_all_keeps_the_clusters_it_is_given() {
    let clusters = vec!["ab".to_string(), "\t".to_string(), "\u{597d}".to_string()];
    let line = Line::new(Line::measure_all(clusters));
    assert_eq!(line.grapheme_count(), 3);
    assert_eq!(line.as_string(), "ab\t\u{597d}");
    assert_eq!(line.width_until(1), 2);
    assert_eq!(line.width_until(2), 3);
    assert_eq!(line.width_until(3), 5);
    assert_eq!(line.get(0..5), "ab \u{597d}");
}

#[test]
fn line_insert_that_joins_a_cluster_is_not_undone_by_delete() {
    let mut line = Line::from("e");
    line.insert_char('\u{301}', 1);
    assert_eq!(line.grapheme_count(), 1);
    line.delete_grapheme_at(1);
    assert_eq!(line.as_string(), "e\u{301}");
}

#[test]
fn blank_text_is_white_space_only() {
    assert!(is_blank(""));
    assert!(is_blank(" \t\u{a0}\u{3000}\n"));
    assert!(!is_blank(" a "));
    assert!(!is_blank("\u{200b}"));
}

#[test]
fn control_code_at_the_start() {
    assert!(starts_with_control_code("\n"));
    assert!(starts_with_control_code("\u{7}a"));
    assert!(!starts_with_control_code("a\u{7}"));
    assert!(!starts_with_control_code(""));
}

#[test]
fn fits_in_line_up_to_half_the_greatest_length() {
    assert!(fits_in_line(0));
    assert!(fits_in_line(1_000_000));
    assert!(fits_in_line(usize::MAX / 2));
    assert!(!fits_in_line(usize::MAX / 2 + 1));
    assert!(!fits_in_line(usize::MAX));
}
