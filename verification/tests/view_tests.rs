use editor_core::buffer::IoError;
use editor_core::command::{EditCommand, MoveCommand};
use editor_core::documentstatus::DocumentStatus;
use editor_core::position::{Location, Position};
use editor_core::size::Size;
use editor_core::uicomponent::UiComponent;
use editor_core::view::View;

fn view_of(content: &str, height: usize, width: usize) -> View {
    let mut view = View::new("ed", "1.0");
    view.resize(Size { height, width });
    assert_eq!(view.load("test.txt", Ok(content.to_string())), Ok(()));
    view
}

fn at(row: usize, grapheme_index: usize) -> Location {
    Location { grapheme_index, row }
}

fn moves(view: &mut View, commands: &[MoveCommand]) {
    for command in commands {
        view.handle_move_command(*command);
    }
}

fn assert_caret_in_window(view: &View, size: Size) {
    let caret = view.caret_position();
    assert!(caret.row < size.height);
    assert!(caret.col < size.width);
}

#[test]
fn view_starts_at_the_origin() {
    let view = View::default();
    assert_eq!(view.text_location(), at(0, 0));
    assert_eq!(view.scroll_offset(), Position { row: 0, col: 0 });
    assert_eq!(view.caret_position(), Position { row: 0, col: 0 });
    assert!(!view.needs_redraw());
    assert!(!view.is_file_loaded());
}

#[test]
fn scenario_newline_then_insert() {
    let mut view = view_of("ab\ncd", 10, 20);
    moves(&mut view, &[MoveCommand::End]);
    assert_eq!(view.text_location(), at(0, 2));
    view.handle_edit_command(EditCommand::InsertNewline);
    assert_eq!(view.file_text(), "ab\n\ncd\n");
    assert_eq!(view.text_location(), at(1, 0));
    view.handle_edit_command(EditCommand::Insert('x'));
    assert_eq!(view.file_text(), "ab\nx\ncd\n");
    assert_eq!(view.text_location(), at(1, 1));
}

#[test]
fn sticky_column_survives_a_short_row() {
    let mut view = view_of("01234567890123456789\nabc\n", 10, 40);
    for _ in 0..10 {
        view.handle_move_command(MoveCommand::Right);
    }
    assert_eq!(view.text_location(), at(0, 10));
    view.handle_move_command(MoveCommand::Down);
    assert_eq!(view.text_location(), at(1, 3));
    view.handle_move_command(MoveCommand::Up);
    assert_eq!(view.text_location(), at(0, 10));
}

#[test]
fn sticky_column_is_reset_by_horizontal_moves() {
    let mut view = view_of("01234567890123456789\nabc\n", 10, 40);
    moves(&mut view, &[MoveCommand::End, MoveCommand::Down, MoveCommand::Left, MoveCommand::Up]);
    assert_eq!(view.text_location(), at(0, 2));
}

#[test]
fn newline_then_backspace_restores_the_row() {
    for k in 0..=5 {
        let mut view = view_of("hello", 10, 20);
        for _ in 0..k {
            view.handle_move_command(MoveCommand::Right);
        }
        view.handle_edit_command(EditCommand::InsertNewline);
        assert_eq!(view.text_location(), at(1, 0));
        assert_eq!(view.get_status().total_lines, 2);
        view.handle_edit_command(EditCommand::DeleteBackward);
        assert_eq!(view.file_text(), "hello\n");
        assert_eq!(view.text_location(), at(0, k));
    }
}

#[test]
fn caret_stays_inside_the_window() {
    let size = Size { height: 3, width: 5 };
    let mut view = view_of("0123456789\nab\n\n\u{597d}\u{597d}\u{597d}\u{597d}\nxyz\nlast line here", 3, 5);
    let commands = [
        MoveCommand::End,
        MoveCommand::Down,
        MoveCommand::Down,
        MoveCommand::Down,
        MoveCommand::End,
        MoveCommand::PageDown,
        MoveCommand::PageDown,
        MoveCommand::End,
        MoveCommand::Right,
        MoveCommand::Left,
        MoveCommand::Home,
        MoveCommand::PageUp,
        MoveCommand::Up,
        MoveCommand::Up,
        MoveCommand::Up,
        MoveCommand::Left,
    ];
    for command in commands {
        view.handle_move_command(command);
        assert_caret_in_window(&view, size);
    }
    for c in "some more text".chars() {
        view.handle_edit_command(EditCommand::Insert(c));
        assert_caret_in_window(&view, size);
    }
    for command in [
        EditCommand::InsertNewline,
        EditCommand::DeleteBackward,
        EditCommand::DeleteBackward,
        EditCommand::DeleteForward,
        EditCommand::InsertNewline,
    ] {
        view.handle_edit_command(command);
        assert_caret_in_window(&view, size);
    }
    let small = Size { height: 1, width: 1 };
    view.resize(small);
    assert_caret_in_window(&view, small);
    view.handle_move_command(MoveCommand::End);
    assert_caret_in_window(&view, small);
}

#[test]
fn scrolling_moves_the_window_as_little_as_needed() {
    let mut view = view_of("0123456789\n1\n2\n3\n4\n5", 3, 4);
    assert_eq!(view.scroll_offset(), Position { row: 0, col: 0 });
    moves(&mut view, &[MoveCommand::Down, MoveCommand::Down]);
    assert_eq!(view.scroll_offset(), Position { row: 0, col: 0 });
    moves(&mut view, &[MoveCommand::Down]);
    assert_eq!(view.scroll_offset(), Position { row: 1, col: 0 });
    assert_eq!(view.caret_position(), Position { row: 2, col: 0 });
    moves(&mut view, &[MoveCommand::Up, MoveCommand::Up, MoveCommand::Up]);
    assert_eq!(view.scroll_offset(), Position { row: 0, col: 0 });
    moves(&mut view, &[MoveCommand::End]);
    assert_eq!(view.text_location(), at(0, 10));
    assert_eq!(view.scroll_offset(), Position { row: 0, col: 7 });
    assert_eq!(view.caret_position(), Position { row: 0, col: 3 });
    moves(&mut view, &[MoveCommand::Home]);
    assert_eq!(view.scroll_offset(), Position { row: 0, col: 0 });
}

#[test]
fn scrolling_marks_the_screen_when_the_window_moves() {
    let mut view = view_of("a\nb\nc\nd", 2, 10);
    view.set_needs_redraw(false);
    moves(&mut view, &[MoveCommand::Down]);
    assert!(!view.needs_redraw());
    moves(&mut view, &[MoveCommand::Down]);
    assert!(view.needs_redraw());
}

#[test]
fn caret_column_counts_display_columns() {
    let mut view = view_of("a\u{597d}b", 5, 20);
    moves(&mut view, &[MoveCommand::Right, MoveCommand::Right]);
    assert_eq!(view.text_location(), at(0, 2));
    assert_eq!(view.caret_position(), Position { row: 0, col: 3 });
}

#[test]
fn moves_stop_at_the_ends_of_the_document() {
    let mut view = view_of("ab\ncd", 10, 20);
    moves(&mut view, &[MoveCommand::Left, MoveCommand::Up]);
    assert_eq!(view.text_location(), at(0, 0));
    moves(&mut view, &[MoveCommand::Down, MoveCommand::Down, MoveCommand::Down]);
    assert_eq!(view.text_location(), at(2, 0));
    moves(&mut view, &[MoveCommand::Right]);
    assert_eq!(view.text_location(), at(2, 0));
    moves(&mut view, &[MoveCommand::Left]);
    assert_eq!(view.text_location(), at(1, 2));
    moves(&mut view, &[MoveCommand::Right]);
    assert_eq!(view.text_location(), at(2, 0));
}

#[test]
fn left_and_right_wrap_between_rows() {
    let mut view = view_of("ab\ncd", 10, 20);
    moves(&mut view, &[MoveCommand::Right, MoveCommand::Right, MoveCommand::Right]);
    assert_eq!(view.text_location(), at(1, 0));
    moves(&mut view, &[MoveCommand::Left]);
    assert_eq!(view.text_location(), at(0, 2));
}

#[test]
fn page_moves_go_one_less_than_the_height() {
    let mut view = view_of("0\n1\n2\n3\n4\n5\n6\n7\n8\n9", 4, 20);
    moves(&mut view, &[MoveCommand::PageDown]);
    assert_eq!(view.text_location(), at(3, 0));
    moves(&mut view, &[MoveCommand::PageDown, MoveCommand::PageDown, MoveCommand::PageDown]);
    assert_eq!(view.text_location(), at(10, 0));
    moves(&mut view, &[MoveCommand::PageUp]);
    assert_eq!(view.text_location(), at(7, 0));
    moves(&mut view, &[MoveCommand::PageUp, MoveCommand::PageUp, MoveCommand::PageUp]);
    assert_eq!(view.text_location(), at(0, 0));
}

#[test]
fn home_and_end_go_to_the_ends_of_the_row() {
    let mut view = view_of("abc\nde", 10, 20);
    moves(&mut view, &[MoveCommand::End]);
    assert_eq!(view.text_location(), at(0, 3));
    moves(&mut view, &[MoveCommand::Down]);
    assert_eq!(view.text_location(), at(1, 2));
    moves(&mut view, &[MoveCommand::Home, MoveCommand::Up]);
    assert_eq!(view.text_location(), at(0, 0));
}

#[test]
fn insert_char_moves_the_cursor_behind_it() {
    let mut view = view_of("ab", 10, 20);
    moves(&mut view, &[MoveCommand::Right]);
    view.handle_edit_command(EditCommand::Insert('x'));
    assert_eq!(view.file_text(), "axb\n");
    assert_eq!(view.text_location(), at(0, 2));
    assert!(view.get_status().is_modified);
    assert!(view.needs_redraw());
}

#[test]
fn insert_char_into_an_empty_document_makes_a_row() {
    let mut view = View::default();
    view.resize(Size { height: 5, width: 5 });
    view.handle_edit_command(EditCommand::Insert('a'));
    view.handle_edit_command(EditCommand::Insert('b'));
    assert_eq!(view.file_text(), "ab\n");
    assert_eq!(view.text_location(), at(0, 2));
    assert_eq!(view.get_status().total_lines, 1);
}

#[test]
fn insert_char_that_joins_a_cluster_leaves_the_cursor() {
    let mut view = view_of("e", 10, 20);
    moves(&mut view, &[MoveCommand::End]);
    view.handle_edit_command(EditCommand::Insert('\u{301}'));
    assert_eq!(view.file_text(), "e\u{301}\n");
    assert_eq!(view.text_location(), at(0, 1));
}

#[test]
fn backspace_deletes_the_grapheme_before_the_cursor() {
    let mut view = view_of("abc", 10, 20);
    moves(&mut view, &[MoveCommand::Right, MoveCommand::Right]);
    view.handle_edit_command(EditCommand::DeleteBackward);
    assert_eq!(view.file_text(), "ac\n");
    assert_eq!(view.text_location(), at(0, 1));
}

#[test]
fn backspace_at_the_start_of_a_row_joins_it_to_the_row_above() {
    let mut view = view_of("ab\ncd", 10, 20);
    moves(&mut view, &[MoveCommand::Down]);
    view.handle_edit_command(EditCommand::DeleteBackward);
    assert_eq!(view.file_text(), "abcd\n");
    assert_eq!(view.text_location(), at(0, 2));
}

#[test]
fn backspace_at_the_start_of_the_document_does_nothing() {
    let mut view = view_of("ab", 10, 20);
    view.handle_edit_command(EditCommand::DeleteBackward);
    assert_eq!(view.file_text(), "ab\n");
    assert_eq!(view.text_location(), at(0, 0));
    assert!(!view.get_status().is_modified);
}

#[test]
fn backspace_below_the_last_row_only_moves() {
    let mut view = view_of("ab\ncd", 10, 20);
    moves(&mut view, &[MoveCommand::Down, MoveCommand::Down]);
    assert_eq!(view.text_location(), at(2, 0));
    view.handle_edit_command(EditCommand::DeleteBackward);
    assert_eq!(view.file_text(), "ab\ncd\n");
    assert_eq!(view.text_location(), at(1, 2));
    assert!(!view.get_status().is_modified);
}

#[test]
fn delete_forward_deletes_the_grapheme_at_the_cursor() {
    let mut view = view_of("abc", 10, 20);
    moves(&mut view, &[MoveCommand::Right]);
    view.handle_edit_command(EditCommand::DeleteForward);
    assert_eq!(view.file_text(), "ac\n");
    assert_eq!(view.text_location(), at(0, 1));
}

#[test]
fn delete_forward_at_the_end_of_a_row_joins_the_next_row() {
    let mut view = view_of("ab\ncd", 10, 20);
    moves(&mut view, &[MoveCommand::End]);
    view.handle_edit_command(EditCommand::DeleteForward);
    assert_eq!(view.file_text(), "abcd\n");
    assert_eq!(view.text_location(), at(0, 2));
}

#[test]
fn delete_forward_at_the_end_of_the_last_row_does_nothing() {
    let mut view = view_of("ab\ncd", 10, 20);
    moves(&mut view, &[MoveCommand::Down, MoveCommand::End]);
    view.handle_edit_command(EditCommand::DeleteForward);
    assert_eq!(view.file_text(), "ab\ncd\n");
    assert!(!view.get_status().is_modified);
    moves(&mut view, &[MoveCommand::Down]);
    view.handle_edit_command(EditCommand::DeleteForward);
    assert_eq!(view.file_text(), "ab\ncd\n");
    assert_eq!(view.text_location(), at(2, 0));
}

#[test]
fn newline_in_the_middle_of_a_row_splits_it() {
    let mut view = view_of("abcd\nef", 10, 20);
    moves(&mut view, &[MoveCommand::Right]);
    view.handle_edit_command(EditCommand::InsertNewline);
    assert_eq!(view.file_text(), "a\nbcd\nef\n");
    assert_eq!(view.text_location(), at(1, 0));
}

#[test]
fn newline_below_the_last_row_adds_an_empty_row() {
    let mut view = view_of("ab", 10, 20);
    moves(&mut view, &[MoveCommand::Down]);
    view.handle_edit_command(EditCommand::InsertNewline);
    assert_eq!(view.file_text(), "ab\n\n");
    assert_eq!(view.text_location(), at(2, 0));
}

#[test]
fn load_failure_leaves_the_view() {
    let mut view = view_of("ab\ncd", 10, 20);
    moves(&mut view, &[MoveCommand::Down, MoveCommand::Right]);
    assert_eq!(view.load("other.txt", Err(IoError::NotFound)), Err(IoError::NotFound));
    assert_eq!(view.file_text(), "ab\ncd\n");
    assert_eq!(view.text_location(), at(1, 1));
    assert_eq!(view.get_path(), Some("test.txt"));
}

#[test]
fn load_puts_the_cursor_back_onto_the_document() {
    let mut view = view_of("ab\ncd\nefgh", 10, 20);
    moves(&mut view, &[MoveCommand::Down, MoveCommand::Down, MoveCommand::End]);
    assert_eq!(view.text_location(), at(2, 4));
    assert_eq!(view.load("short.txt", Ok("x".to_string())), Ok(()));
    assert_eq!(view.text_location(), at(1, 0));
    assert!(view.needs_redraw());
}

#[test]
fn save_and_save_as_report_and_clear_dirty() {
    let mut view = View::default();
    view.resize(Size { height: 5, width: 5 });
    view.handle_edit_command(EditCommand::Insert('a'));
    assert!(!view.is_file_loaded());
    assert_eq!(view.save(Ok(())), Ok(()));
    assert!(view.get_status().is_modified);
    assert_eq!(view.save_as("a.txt", Err(IoError::Other)), Err(IoError::Other));
    assert!(!view.is_file_loaded());
    assert_eq!(view.save_as("a.txt", Ok(())), Ok(()));
    assert!(view.is_file_loaded());
    assert!(!view.get_status().is_modified);
    view.handle_edit_command(EditCommand::Insert('b'));
    assert_eq!(view.save(Err(IoError::PermissionDenied)), Err(IoError::PermissionDenied));
    assert!(view.get_status().is_modified);
    assert_eq!(view.save(Ok(())), Ok(()));
    assert!(!view.get_status().is_modified);
}

#[test]
fn status_tells_lines_position_and_name() {
    let mut view = view_of("ab\ncd\nef", 10, 20);
    moves(&mut view, &[MoveCommand::Down]);
    let status = view.get_status();
    assert_eq!(status.total_lines, 3);
    assert_eq!(status.curr_line_ind, 1);
    assert!(!status.is_modified);
    assert_eq!(status.file_name, "test.txt");
    assert_eq!(View::default().get_status().file_name, "[No Name]");
}

#[test]
fn document_status_strings() {
    let status = DocumentStatus {
        total_lines: 120,
        curr_line_ind: 41,
        is_modified: true,
        file_name: "a.txt".to_string(),
    };
    assert_eq!(status.get_modified_string(), "(modified)");
    assert_eq!(status.get_line_count_string(), "120 lines");
    assert_eq!(status.get_position_indicator_string(), "42/120");
    let clean = DocumentStatus::default();
    assert_eq!(clean.get_modified_string(), "");
    assert_eq!(clean.get_line_count_string(), "0 lines");
    assert_eq!(clean.get_position_indicator_string(), "1/0");
    assert_eq!(clean, DocumentStatus::default());
    assert_ne!(clean, status);
    assert_ne!(status, DocumentStatus { file_name: "b.txt".to_string(), ..DocumentStatus::default() });
}

#[test]
fn welcome_message_is_centred_or_hidden() {
    assert_eq!(View::generate_welcome_message(0, "ed", "1.0"), "");
    assert_eq!(View::generate_welcome_message(5, "ed", "1.0"), "~");
    let message = "ed editor -- version 1.0";
    assert_eq!(View::generate_welcome_message(message.len(), "ed", "1.0"), "~");
    assert_eq!(
        View::generate_welcome_message(message.len() + 1, "ed", "1.0"),
        format!("~{message}")
    );
    assert_eq!(
        View::generate_welcome_message(40, "ed", "1.0"),
        format!("~{:^39}", message)
    );
}

#[test]
fn draw_gives_the_rows_of_the_window() {
    let mut view = view_of("0123456789\nab\u{597d}cd\nxyz", 4, 4);
    assert_eq!(view.draw(0), vec!["0123", "ab\u{597d}", "xyz", "~"]);
    moves(&mut view, &[MoveCommand::Down, MoveCommand::End]);
    assert_eq!(view.scroll_offset(), Position { row: 0, col: 3 });
    assert_eq!(view.draw(0), vec!["3456", "\u{22ef}cd", "", "~"]);
}

#[test]
fn draw_greets_in_an_empty_document() {
    let mut view = View::new("ed", "1.0");
    view.resize(Size { height: 6, width: 40 });
    let rows = view.draw(0);
    assert_eq!(rows.len(), 6);
    for (index, row) in rows.iter().enumerate() {
        if index == 2 {
            assert_eq!(*row, View::generate_welcome_message(40, "ed", "1.0"));
        } else {
            assert_eq!(row, "~");
        }
    }
}

#[test]
fn draw_greets_in_the_row_a_third_down_the_screen() {
    let mut view = View::new("ed", "1.0");
    view.resize(Size { height: 9, width: 40 });
    let rows = view.draw(2);
    assert_eq!(rows.len(), 9);
    assert_eq!(rows[1], View::generate_welcome_message(40, "ed", "1.0"));
    assert_eq!(rows[3], "~");
    // a document, even of one empty row, is not greeted
    view.handle_edit_command(EditCommand::InsertNewline);
    assert!(view.draw(2).iter().skip(1).all(|row| row == "~"));
}

#[test]
fn render_hands_out_rows_only_when_out_of_date() {
    let mut view = view_of("ab", 2, 5);
    assert_eq!(view.render(0), Some(vec!["ab".to_string(), "~".to_string()]));
    view.painted(Err(IoError::Other));
    assert!(view.needs_redraw());
    view.painted(Ok(()));
    assert!(!view.needs_redraw());
    assert_eq!(view.render(0), None);
}

#[test]
fn has_room_for_ordinary_edits() {
    let mut view = view_of("ab\ncd", 5, 5);
    for command in [
        EditCommand::Insert('x'),
        EditCommand::InsertNewline,
        EditCommand::DeleteBackward,
        EditCommand::DeleteForward,
    ] {
        assert!(view.has_room(command));
        view.handle_move_command(MoveCommand::Down);
        assert!(view.has_room(command));
        view.handle_move_command(MoveCommand::End);
        assert!(view.has_room(command));
    }
}

#[test]
fn down_then_up_from_below_the_last_row_goes_up() {
    let mut view = view_of("ab\ncd", 10, 20);
    moves(&mut view, &[MoveCommand::Down, MoveCommand::Down]);
    assert_eq!(view.text_location(), at(2, 0));
    moves(&mut view, &[MoveCommand::Down, MoveCommand::Up]);
    assert_eq!(view.text_location(), at(1, 0));
}

#[test]
fn caret_of_a_window_without_extent_is_at_the_origin() {
    let mut view = view_of("ab\ncd", 0, 0);
    moves(&mut view, &[MoveCommand::Down, MoveCommand::End]);
    assert_eq!(view.text_location(), at(1, 2));
    assert_eq!(view.caret_position(), Position { row: 0, col: 0 });
    assert_eq!(view.draw(0), Vec::<String>::new());
}

#[test]
fn newline_then_backspace_below_the_last_row_leaves_an_empty_row() {
    let mut view = view_of("ab", 10, 20);
    moves(&mut view, &[MoveCommand::Down]);
    view.handle_edit_command(EditCommand::InsertNewline);
    view.handle_edit_command(EditCommand::DeleteBackward);
    assert_eq!(view.file_text(), "ab\n\n");
    assert_eq!(view.text_location(), at(1, 0));
}
