use editor_core::buffer::{Buffer, IoError};
use editor_core::file_info::FileInfo;

fn loaded(content: &str) -> Buffer {
    let mut buffer = Buffer::default();
    assert_eq!(buffer.load("test.txt", Ok(content.to_string())), Ok(()));
    buffer
}

fn row(buffer: &Buffer, index: usize) -> String {
    buffer.get_line(index, 0..usize::MAX).unwrap()
}

#[test]
fn buffer_starts_empty() {
    let buffer = Buffer::default();
    assert!(buffer.is_empty());
    assert_eq!(buffer.height(), 0);
    assert!(!buffer.is_dirty());
    assert!(!buffer.is_file_loaded());
    assert_eq!(buffer.get_path(), None);
    assert_eq!(buffer.file_name(), "[No Name]");
    assert_eq!(buffer.file_text(), "");
}

#[test]
fn buffer_load_splits_into_rows() {
    let buffer = loaded("ab\ncd\r\n\nef");
    assert_eq!(buffer.height(), 4);
    assert_eq!(row(&buffer, 0), "ab");
    assert_eq!(row(&buffer, 1), "cd");
    assert_eq!(row(&buffer, 2), "");
    assert_eq!(row(&buffer, 3), "ef");
    assert!(!buffer.is_dirty());
    assert!(buffer.is_file_loaded());
    assert_eq!(buffer.get_path(), Some("test.txt"));
}

#[test]
fn buffer_load_failure_leaves_the_buffer() {
    let mut buffer = loaded("ab\ncd");
    let mut flag = false;
    buffer.insert_char('x', 0, 0, &mut flag);
    assert_eq!(buffer.load("other.txt", Err(IoError::NotFound)), Err(IoError::NotFound));
    assert_eq!(buffer.height(), 2);
    assert_eq!(row(&buffer, 0), "xab");
    assert_eq!(buffer.get_path(), Some("test.txt"));
    assert!(buffer.is_dirty());
}

#[test]
fn buffer_load_does_not_touch_the_dirty_flag() {
    let mut buffer = Buffer::default();
    let mut flag = false;
    buffer.insert_char('x', 0, 0, &mut flag);
    assert!(buffer.is_dirty());
    assert_eq!(buffer.load("a.txt", Ok("one\ntwo".to_string())), Ok(()));
    assert!(buffer.is_dirty());
    assert_eq!(buffer.height(), 2);
}

#[test]
fn buffer_save_after_load_round_trips() {
    for content in ["", "a\n", "ab\ncd\n", "\n\n", "x\u{597d}\n\ty \n"] {
        assert_eq!(loaded(content).file_text(), content);
    }
    assert_eq!(loaded("ab\ncd").file_text(), "ab\ncd\n");
    assert_eq!(loaded("ab\r\ncd\r\n").file_text(), "ab\ncd\n");
}

#[test]
fn buffer_reload_after_edits_gives_the_rows() {
    let mut buffer = loaded("ab\ncd\nef");
    let mut flag = false;
    buffer.insert_char('x', 1, 1, &mut flag);
    buffer.split_and_merge(0, 1, 1);
    buffer.delete_and_merge(3, 2);
    buffer.delete_grapheme_at(0, 0);
    let reloaded = loaded(&buffer.file_text());
    assert_eq!(reloaded.height(), buffer.height());
    for index in 0..buffer.height() {
        assert_eq!(row(&reloaded, index), row(&buffer, index));
    }
    assert_eq!(buffer.file_text(), "\nb\ncxdef\n");
}

#[test]
fn buffer_save_clears_dirty_only_on_success() {
    let mut buffer = loaded("ab");
    let mut flag = false;
    buffer.insert_char('x', 0, 0, &mut flag);
    assert_eq!(buffer.save(Err(IoError::PermissionDenied)), Err(IoError::PermissionDenied));
    assert!(buffer.is_dirty());
    assert_eq!(buffer.save(Ok(())), Ok(()));
    assert!(!buffer.is_dirty());
}

#[test]
fn buffer_save_without_file_changes_nothing() {
    let mut buffer = Buffer::default();
    let mut flag = false;
    buffer.insert_char('x', 0, 0, &mut flag);
    assert_eq!(buffer.save(Ok(())), Ok(()));
    assert!(buffer.is_dirty());
    assert!(!buffer.is_file_loaded());
}

#[test]
fn buffer_save_as_takes_the_file_on_success() {
    let mut buffer = Buffer::default();
    let mut flag = false;
    buffer.insert_char('x', 0, 0, &mut flag);
    assert_eq!(buffer.save_as("new.txt", Err(IoError::Other)), Err(IoError::Other));
    assert!(buffer.is_dirty());
    assert_eq!(buffer.get_path(), None);
    assert_eq!(buffer.save_as("new.txt", Ok(())), Ok(()));
    assert!(!buffer.is_dirty());
    assert_eq!(buffer.get_path(), Some("new.txt"));
    assert_eq!(buffer.file_name(), "new.txt");
}

#[test]
fn buffer_queries_clamp_out_of_range() {
    let buffer = loaded("ab\u{597d}\nc");
    assert_eq!(buffer.grapheme_count(0), 3);
    assert_eq!(buffer.grapheme_count(1), 1);
    assert_eq!(buffer.grapheme_count(2), 0);
    assert_eq!(buffer.grapheme_count(99), 0);
    assert_eq!(buffer.row_width_until(0, 3), 4);
    assert_eq!(buffer.row_width_until(0, 9), 4);
    assert_eq!(buffer.row_width_until(2, 1), 0);
    assert_eq!(buffer.get_valid_grapheme_ind(0, 2), 2);
    assert_eq!(buffer.get_valid_grapheme_ind(0, 7), 3);
    assert_eq!(buffer.get_valid_grapheme_ind(1, 7), 1);
    assert_eq!(buffer.get_valid_grapheme_ind(2, 7), 0);
}

#[test]
fn buffer_get_line_is_none_past_the_end() {
    let buffer = loaded("ab\u{597d}cd");
    assert_eq!(buffer.get_line(0, 3..4), Some("\u{22ef}".to_string()));
    assert_eq!(buffer.get_line(0, 1..2), Some("b".to_string()));
    assert_eq!(buffer.get_line(0, 2..2), Some(String::new()));
    assert_eq!(buffer.get_line(1, 0..5), None);
}

#[test]
fn buffer_insert_char_into_a_row() {
    let mut buffer = loaded("ab\ncd");
    let mut grew = false;
    buffer.insert_char('x', 1, 1, &mut grew);
    assert!(grew);
    assert_eq!(row(&buffer, 0), "ab");
    assert_eq!(row(&buffer, 1), "cxd");
    assert!(buffer.is_dirty());
    assert_eq!(buffer.height(), 2);
}

#[test]
fn buffer_insert_char_below_the_last_row_makes_a_row() {
    let mut buffer = loaded("ab");
    let mut grew = false;
    buffer.insert_char('x', 1, 0, &mut grew);
    assert!(grew);
    assert_eq!(buffer.height(), 2);
    assert_eq!(row(&buffer, 1), "x");
    // further down a row is made as well, but not where it was asked for
    buffer.insert_char('y', 9, 0, &mut grew);
    assert!(!grew);
    assert_eq!(buffer.height(), 3);
    assert_eq!(row(&buffer, 2), "y");
}

#[test]
fn buffer_insert_char_that_joins_a_cluster_does_not_grow_the_row() {
    let mut buffer = loaded("e");
    let mut grew = true;
    buffer.insert_char('\u{301}', 0, 1, &mut grew);
    assert!(!grew);
    assert_eq!(buffer.grapheme_count(0), 1);
    assert!(buffer.is_dirty());
}

#[test]
fn buffer_insert_then_delete_restores_the_row() {
    for index in 0..=2 {
        let mut buffer = loaded("ab\ncd");
        let mut grew = false;
        buffer.insert_char('x', 1, index, &mut grew);
        buffer.delete_grapheme_at(1, index);
        assert_eq!(buffer.file_text(), "ab\ncd\n");
    }
}

#[test]
fn buffer_delete_grapheme_at_out_of_range_row_only_marks_dirty() {
    let mut buffer = loaded("ab");
    buffer.delete_grapheme_at(5, 0);
    assert_eq!(buffer.file_text(), "ab\n");
    assert!(buffer.is_dirty());
    buffer.delete_grapheme_at(0, 0);
    assert_eq!(buffer.file_text(), "b\n");
}

#[test]
fn buffer_delete_and_merge_joins_rows() {
    let mut buffer = loaded("ab\ncd\nef");
    buffer.delete_and_merge(1, 0);
    assert_eq!(buffer.height(), 2);
    assert_eq!(row(&buffer, 0), "abcd");
    assert_eq!(row(&buffer, 1), "ef");
    assert!(buffer.is_dirty());
}

#[test]
fn buffer_split_and_merge_breaks_a_row() {
    let mut buffer = loaded("abcd\nef");
    buffer.split_and_merge(0, 1, 1);
    assert_eq!(buffer.height(), 3);
    assert_eq!(row(&buffer, 0), "a");
    assert_eq!(row(&buffer, 1), "bcd");
    assert_eq!(row(&buffer, 2), "ef");
    assert!(buffer.is_dirty());
    // below the last row an empty row is added
    buffer.split_and_merge(3, 0, 3);
    assert_eq!(buffer.height(), 4);
    assert_eq!(row(&buffer, 3), "");
}

#[test]
fn file_info_knows_its_path() {
    let none = FileInfo::new();
    assert!(!none.has_path());
    assert_eq!(none.get_path(), None);
    assert_eq!(none.to_string(), "[No Name]");
    let some = FileInfo::from("dir/sub/file.txt");
    assert!(some.has_path());
    assert_eq!(some.get_path(), Some("dir/sub/file.txt"));
    assert_eq!(some.to_string(), "file.txt");
    assert_eq!(FileInfo::from("..").to_string(), "[No Name]");
}

#[test]
fn file_info_name_or_default() {
    assert_eq!(FileInfo::name_or_default(Some("a.rs".to_string())), "a.rs");
    assert_eq!(FileInfo::name_or_default(None), "[No Name]");
}

#[test]
fn buffer_row_with_a_line_feed_is_reloaded_as_two_rows() {
    let mut buffer = loaded("ab");
    let mut grew = false;
    buffer.insert_char('\n', 0, 1, &mut grew);
    assert_eq!(buffer.height(), 1);
    assert_eq!(buffer.file_text(), "a\nb\n");
    assert_eq!(loaded(&buffer.file_text()).height(), 2);
}

#[test]
fn buffer_row_that_ends_in_a_carriage_return_loses_it_on_reload() {
    let buffer = loaded("ab\r\r\ncd");
    assert_eq!(buffer.file_text(), "ab\r\ncd\n");
    assert_eq!(loaded(&buffer.file_text()).file_text(), "ab\ncd\n");
}

#[test]
fn buffer_char_count_counts_characters() {
    let buffer = loaded("e\u{301}\u{597d}\n");
    assert_eq!(buffer.char_count(0), 3);
    assert_eq!(buffer.grapheme_count(0), 2);
    assert_eq!(buffer.char_count(1), 0);
}
