use termedit::buffer::TextBuffer;

fn lines_of(b: &TextBuffer) -> Vec<String> {
    let mut out = Vec::new();
    for i in 0..b.get_line_count() {
        out.push(b.get_line(i).unwrap().clone());
    }
    out
}

fn buffer_with(text: &str) -> TextBuffer {
    let mut b = TextBuffer::new();
    b.insert_str(text);
    b
}

#[test]
fn new_buffer_has_one_empty_line() {
    let b = TextBuffer::new();
    assert_eq!(b.get_line_count(), 1);
    assert_eq!(b.get_line(0).unwrap(), "");
    assert_eq!(b.get_line(1), None);
    assert_eq!((b.get_cursor_line(), b.get_cursor_col()), (0, 0));
    assert_eq!(b.get_clipboard(), None);
    assert_eq!(b.get_tab_width(), 4);
}

#[test]
fn typing_then_enter_then_typing() {
    let mut b = TextBuffer::new();
    b.insert_str("abc");
    b.insert_newline();
    b.insert_str("d");
    assert_eq!(lines_of(&b), vec!["abc", "d"]);
    assert_eq!((b.get_cursor_line(), b.get_cursor_col()), (1, 1));
    assert_eq!(b.get_buffer_content(), "abc\nd\n");
}

#[test]
fn backspace_at_line_start_merges_lines() {
    let mut b = buffer_with("ab\ncd");
    b.move_cursor(1, 0);
    b.delete_char_before_cursor();
    assert_eq!(lines_of(&b), vec!["abcd"]);
    assert_eq!((b.get_cursor_line(), b.get_cursor_col()), (0, 2));
}

#[test]
fn backspace_at_document_start_does_nothing() {
    let mut b = buffer_with("ab");
    b.move_cursor(0, 0);
    b.delete_char_before_cursor();
    assert_eq!(lines_of(&b), vec!["ab"]);
    assert_eq!((b.get_cursor_line(), b.get_cursor_col()), (0, 0));
}

#[test]
fn backspace_removes_previous_char() {
    let mut b = buffer_with("abc");
    b.move_cursor(0, 2);
    b.delete_char_before_cursor();
    assert_eq!(lines_of(&b), vec!["ac"]);
    assert_eq!(b.get_cursor_col(), 1);
}

#[test]
fn cut_lines_then_paste() {
    let mut b = buffer_with("x\ny\nz");
    b.cut_lines(0, 1);
    assert_eq!(lines_of(&b), vec!["z"]);
    assert_eq!(
        b.get_clipboard().unwrap(),
        &vec!["x".to_string(), "y".to_string()]
    );
    assert_eq!((b.get_cursor_line(), b.get_cursor_col()), (0, 1));
    b.move_cursor(0, 0);
    b.paste();
    // The pasted block ends where the old text resumes: no line break is added.
    assert_eq!(lines_of(&b), vec!["x", "yz"]);
    assert_eq!((b.get_cursor_line(), b.get_cursor_col()), (1, 1));
}

#[test]
fn cut_lines_rejects_bad_ranges() {
    let mut b = buffer_with("x\ny");
    b.cut_lines(1, 0);
    b.cut_lines(0, 2);
    assert_eq!(lines_of(&b), vec!["x", "y"]);
    assert_eq!(b.get_clipboard(), None);
}

#[test]
fn cut_all_lines_leaves_one_empty_line() {
    let mut b = buffer_with("x\ny");
    b.cut_lines(0, 1);
    assert_eq!(lines_of(&b), vec![""]);
    assert_eq!((b.get_cursor_line(), b.get_cursor_col()), (0, 0));
}

#[test]
fn cut_lines_before_cursor_shifts_it_up() {
    let mut b = buffer_with("a\nb\nc\ndd");
    b.cut_lines(0, 1);
    assert_eq!(lines_of(&b), vec!["c", "dd"]);
    assert_eq!((b.get_cursor_line(), b.get_cursor_col()), (1, 2));
}

#[test]
fn cut_current_line_on_last_line() {
    let mut b = buffer_with("abc\nde");
    b.cut_current_line();
    assert_eq!(lines_of(&b), vec!["abc"]);
    assert_eq!((b.get_cursor_line(), b.get_cursor_col()), (0, 2));
    assert_eq!(b.get_clipboard().unwrap(), &vec!["de".to_string()]);
}

#[test]
fn cut_only_line() {
    let mut b = buffer_with("abc");
    b.cut_current_line();
    assert_eq!(lines_of(&b), vec![""]);
    assert_eq!((b.get_cursor_line(), b.get_cursor_col()), (0, 0));
}

#[test]
fn copy_and_paste_single_line() {
    let mut b = buffer_with("hello");
    b.copy_current_line();
    b.move_cursor(0, 2);
    b.paste();
    assert_eq!(lines_of(&b), vec!["hehellollo"]);
    assert_eq!(b.get_cursor_col(), 7);
    b.paste();
    assert_eq!(lines_of(&b), vec!["hehellohellollo"]);
}

#[test]
fn paste_without_clipboard_does_nothing() {
    let mut b = buffer_with("ab");
    b.paste();
    assert_eq!(lines_of(&b), vec!["ab"]);
    assert_eq!(b.get_cursor_col(), 2);
}

#[test]
fn paste_three_lines_in_middle() {
    let mut b = buffer_with("1\n2\n3\nAB");
    b.cut_lines(0, 2);
    b.move_cursor(0, 1);
    b.paste();
    assert_eq!(lines_of(&b), vec!["A1", "2", "3B"]);
    assert_eq!((b.get_cursor_line(), b.get_cursor_col()), (2, 1));
}

#[test]
fn cursor_left_and_right_wrap_lines() {
    let mut b = buffer_with("ab\nc");
    b.move_cursor(1, 0);
    b.move_cursor_left();
    assert_eq!((b.get_cursor_line(), b.get_cursor_col()), (0, 2));
    b.move_cursor_right();
    assert_eq!((b.get_cursor_line(), b.get_cursor_col()), (1, 0));
}

#[test]
fn cursor_stops_at_document_ends() {
    let mut b = buffer_with("ab\nc");
    b.move_cursor(0, 0);
    b.move_cursor_left();
    assert_eq!((b.get_cursor_line(), b.get_cursor_col()), (0, 0));
    b.move_cursor(1, 1);
    b.move_cursor_right();
    assert_eq!((b.get_cursor_line(), b.get_cursor_col()), (1, 1));
    assert_eq!(lines_of(&b), vec!["ab", "c"]);
}

#[test]
fn vertical_moves_clamp_column() {
    let mut b = buffer_with("abcdef\nab\nabcd");
    b.move_cursor(0, 5);
    b.move_cursor_down();
    assert_eq!((b.get_cursor_line(), b.get_cursor_col()), (1, 2));
    b.move_cursor_down();
    assert_eq!((b.get_cursor_line(), b.get_cursor_col()), (2, 2));
    b.move_cursor_down();
    assert_eq!((b.get_cursor_line(), b.get_cursor_col()), (2, 2));
    b.move_cursor_up();
    b.move_cursor_up();
    b.move_cursor_up();
    assert_eq!((b.get_cursor_line(), b.get_cursor_col()), (0, 2));
}

#[test]
fn move_cursor_clamps_and_ignores_bad_line() {
    let mut b = buffer_with("abc\nde");
    b.move_cursor(0, 10);
    assert_eq!((b.get_cursor_line(), b.get_cursor_col()), (0, 3));
    b.move_cursor(5, 0);
    assert_eq!((b.get_cursor_line(), b.get_cursor_col()), (0, 3));
}

#[test]
fn home_and_end() {
    let mut b = buffer_with("hello");
    b.move_cursor_to_beginning_of_line();
    assert_eq!(b.get_cursor_col(), 0);
    b.move_cursor_to_end_of_line();
    assert_eq!(b.get_cursor_col(), 5);
}

#[test]
fn multibyte_insert_and_backspace() {
    let mut b = buffer_with("añb");
    b.move_cursor(0, 2);
    b.insert_char('é');
    assert_eq!(lines_of(&b), vec!["añéb"]);
    assert_eq!(b.get_cursor_col(), 3);
    b.insert_char('日');
    assert_eq!(lines_of(&b), vec!["añé日b"]);
    assert_eq!(b.get_cursor_col(), 4);
    b.delete_char_before_cursor();
    b.delete_char_before_cursor();
    assert_eq!(lines_of(&b), vec!["añb"]);
    assert_eq!(b.get_cursor_col(), 2);
}

#[test]
fn insert_then_backspace_restores_state() {
    let mut b = buffer_with("ab\ncd");
    b.move_cursor(1, 1);
    let before = lines_of(&b);
    b.insert_char('x');
    b.delete_char_before_cursor();
    assert_eq!(lines_of(&b), before);
    assert_eq!((b.get_cursor_line(), b.get_cursor_col()), (1, 1));
}

#[test]
fn newline_then_backspace_restores_line() {
    let mut b = buffer_with("hello");
    b.move_cursor(0, 2);
    b.insert_char('\n');
    assert_eq!(lines_of(&b), vec!["he", "llo"]);
    assert_eq!((b.get_cursor_line(), b.get_cursor_col()), (1, 0));
    b.delete_char_before_cursor();
    assert_eq!(lines_of(&b), vec!["hello"]);
    assert_eq!((b.get_cursor_line(), b.get_cursor_col()), (0, 2));
}

#[test]
fn delete_at_cursor_removes_char_or_joins() {
    let mut b = buffer_with("ab\ncd");
    b.move_cursor(0, 0);
    b.delete_char_at_cursor();
    assert_eq!(lines_of(&b), vec!["b", "cd"]);
    assert_eq!(b.get_cursor_col(), 0);
    b.move_cursor(0, 1);
    b.delete_char_at_cursor();
    assert_eq!(lines_of(&b), vec!["bcd"]);
    assert_eq!((b.get_cursor_line(), b.get_cursor_col()), (0, 1));
    b.move_cursor(0, 3);
    b.delete_char_at_cursor();
    assert_eq!(lines_of(&b), vec!["bcd"]);
}

#[test]
fn select_word_left_and_right() {
    let mut b = buffer_with("foo bar baz");
    b.move_cursor(0, 7);
    b.select_word_left();
    assert_eq!(b.get_cursor_col(), 4);
    assert_eq!(b.get_clipboard().unwrap(), &vec!["bar".to_string()]);
    b.select_word_right();
    assert_eq!(b.get_cursor_col(), 7);
    assert_eq!(b.get_clipboard().unwrap(), &vec!["bar".to_string()]);
    b.move_cursor(0, 0);
    b.select_word_right();
    assert_eq!(b.get_cursor_col(), 3);
    assert_eq!(b.get_clipboard().unwrap(), &vec!["foo".to_string()]);
}

#[test]
fn select_word_at_line_boundary_keeps_clipboard() {
    let mut b = buffer_with("foo");
    b.select_word_right();
    assert_eq!(b.get_clipboard(), None);
    b.move_cursor(0, 0);
    b.select_word_left();
    assert_eq!(b.get_clipboard(), None);
    assert_eq!(b.get_cursor_col(), 0);
}

#[test]
fn select_word_stops_at_tab() {
    let mut b = buffer_with("a\tbc");
    b.select_word_left();
    assert_eq!(b.get_cursor_col(), 2);
    assert_eq!(b.get_clipboard().unwrap(), &vec!["bc".to_string()]);
}

#[test]
fn select_chars() {
    let mut b = buffer_with("añ");
    b.select_char_left();
    assert_eq!(b.get_cursor_col(), 1);
    assert_eq!(b.get_clipboard().unwrap(), &vec!["ñ".to_string()]);
    b.move_cursor(0, 0);
    b.select_char_right();
    assert_eq!(b.get_cursor_col(), 1);
    assert_eq!(b.get_clipboard().unwrap(), &vec!["a".to_string()]);
}

#[test]
fn select_lines() {
    let mut b = buffer_with("abc\nd\nefg");
    b.move_cursor(0, 2);
    b.select_line_down();
    assert_eq!((b.get_cursor_line(), b.get_cursor_col()), (1, 1));
    b.select_line_to_end();
    assert_eq!(b.get_cursor_line(), 2);
    b.select_line_up();
    assert_eq!(b.get_cursor_line(), 1);
    b.select_line_to_start();
    assert_eq!(b.get_cursor_line(), 0);
    assert_eq!(b.get_clipboard(), None);
}

#[test]
fn indent_and_unindent_current_line() {
    let mut b = buffer_with("ab");
    b.move_cursor(0, 1);
    b.indent_current_line();
    assert_eq!(lines_of(&b), vec!["    ab"]);
    assert_eq!(b.get_cursor_col(), 5);
    b.unindent_current_line();
    assert_eq!(lines_of(&b), vec!["ab"]);
    assert_eq!(b.get_cursor_col(), 1);
}

#[test]
fn unindent_stops_at_non_space_and_clamps_cursor() {
    let mut b = buffer_with("  x");
    b.move_cursor(0, 1);
    b.unindent_current_line();
    assert_eq!(lines_of(&b), vec!["x"]);
    assert_eq!(b.get_cursor_col(), 0);
    b.unindent_current_line();
    assert_eq!(lines_of(&b), vec!["x"]);
}

#[test]
fn indent_lines_in_range() {
    let mut b = buffer_with("a\nb\nc");
    b.set_tab_width(2);
    b.move_cursor(1, 1);
    b.indent_lines(1, 7);
    assert_eq!(lines_of(&b), vec!["a", "  b", "  c"]);
    assert_eq!(b.get_cursor_col(), 3);
    b.indent_lines(0, 0);
    assert_eq!(lines_of(&b), vec!["  a", "  b", "  c"]);
    assert_eq!(b.get_cursor_col(), 3);
}

#[test]
fn zero_tab_width_is_ignored() {
    let mut b = TextBuffer::new();
    b.set_tab_width(0);
    assert_eq!(b.get_tab_width(), 4);
    b.set_tab_width(8);
    assert_eq!(b.get_tab_width(), 8);
}

#[test]
fn unimplemented_operations_change_nothing() {
    let mut b = buffer_with("ab\ncd");
    b.undo();
    b.redo();
    b.select_all();
    b.cut_selected_text();
    b.copy_selected_text();
    assert_eq!(lines_of(&b), vec!["ab", "cd"]);
    assert_eq!((b.get_cursor_line(), b.get_cursor_col()), (1, 2));
    assert_eq!(b.get_clipboard(), None);
}

#[test]
fn cursor_line_marked_shows_bar() {
    let b = buffer_with("ab\ncd");
    assert_eq!(b.cursor_line_marked(), "cd|");
}
