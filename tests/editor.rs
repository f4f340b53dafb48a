use termedit::editor::{Action, Editor, Key, ModifierState, WritingMode};

const NONE: ModifierState = ModifierState { shift: false, ctrl: false, alt: false, meta: false };
const SHIFT: ModifierState = ModifierState { shift: true, ctrl: false, alt: false, meta: false };
const CTRL: ModifierState = ModifierState { shift: false, ctrl: true, alt: false, meta: false };
const CTRL_SHIFT: ModifierState = ModifierState { shift: true, ctrl: true, alt: false, meta: false };

fn type_text(e: &mut Editor, text: &str) {
    for c in text.chars() {
        let key = if c == '\n' { Key::Enter } else { Key::Char(c) };
        assert_eq!(e.handle_key(key, NONE), Action::Redraw);
    }
}

#[test]
fn page_down_on_short_document_keeps_window_at_top() {
    let mut e = Editor::new(10);
    type_text(&mut e, "1\n2\n3\n4\n5");
    e.handle_key(Key::PageUp, NONE);
    assert_eq!(e.buffer().get_cursor_line(), 0);
    e.handle_key(Key::PageDown, NONE);
    assert_eq!(e.viewport().get_viewport_start(), 0);
    assert_eq!(e.buffer().get_cursor_line(), 4);
}

#[test]
fn page_down_on_long_document() {
    let mut e = Editor::new(3);
    type_text(&mut e, "a\nb\nc\nd\ne\nf\ng\nh");
    assert_eq!(e.viewport().get_viewport_start(), 5);
    e.handle_key(Key::PageUp, NONE);
    assert_eq!(e.buffer().get_cursor_line(), 4);
    assert_eq!(e.viewport().get_viewport_start(), 2);
    e.handle_key(Key::PageUp, NONE);
    assert_eq!(e.buffer().get_cursor_line(), 1);
    assert_eq!(e.viewport().get_viewport_start(), 0);
    e.handle_key(Key::PageDown, NONE);
    assert_eq!(e.buffer().get_cursor_line(), 4);
    assert_eq!(e.viewport().get_viewport_start(), 3);
}

#[test]
fn typing_keeps_cursor_in_window() {
    let mut e = Editor::new(2);
    type_text(&mut e, "a\nb\nc\nd");
    assert_eq!(e.buffer().get_cursor_line(), 3);
    assert_eq!(e.viewport().get_viewport_start(), 2);
    e.handle_key(Key::Up, NONE);
    e.handle_key(Key::Up, NONE);
    assert_eq!(e.buffer().get_cursor_line(), 1);
    assert_eq!(e.viewport().get_viewport_start(), 1);
    e.handle_key(Key::Down, NONE);
    e.handle_key(Key::Down, NONE);
    assert_eq!(e.viewport().get_viewport_start(), 2);
}

#[test]
fn six_escapes_exit() {
    let mut e = Editor::new(5);
    for _ in 0..5 {
        assert_eq!(e.handle_key(Key::Esc, NONE), Action::Redraw);
    }
    assert_eq!(e.handle_key(Key::Esc, NONE), Action::Exit);
}

#[test]
fn other_key_resets_escape_count() {
    let mut e = Editor::new(5);
    for _ in 0..5 {
        e.handle_key(Key::Esc, NONE);
    }
    e.handle_key(Key::Home, NONE);
    assert_eq!(e.handle_key(Key::Esc, NONE), Action::Redraw);
}

#[test]
fn null_key_is_idle() {
    let mut e = Editor::new(5);
    assert_eq!(e.handle_key(Key::Null, NONE), Action::Idle);
    assert_eq!(e.buffer().get_buffer_content(), "\n");
}

#[test]
fn insert_key_toggles_mode() {
    let mut e = Editor::new(5);
    assert_eq!(e.writing_mode(), WritingMode::Insert);
    e.handle_key(Key::Insert, NONE);
    assert_eq!(e.writing_mode(), WritingMode::Overwrite);
    e.handle_key(Key::Insert, NONE);
    assert_eq!(e.writing_mode(), WritingMode::Insert);
}

#[test]
fn shift_arrows_select_and_ctrl_v_pastes() {
    let mut e = Editor::new(5);
    type_text(&mut e, "one two");
    e.handle_key(Key::Left, CTRL_SHIFT);
    assert_eq!(e.buffer().get_clipboard().unwrap(), &vec!["two".to_string()]);
    e.handle_key(Key::End, NONE);
    e.handle_key(Key::Char('v'), CTRL);
    assert_eq!(e.buffer().get_buffer_content(), "one twotwo\n");
    e.handle_key(Key::Left, SHIFT);
    assert_eq!(e.buffer().get_clipboard().unwrap(), &vec!["o".to_string()]);
    e.handle_key(Key::Home, NONE);
    e.handle_key(Key::Right, CTRL_SHIFT);
    assert_eq!(e.buffer().get_clipboard().unwrap(), &vec!["one".to_string()]);
}

#[test]
fn keys_edit_buffer() {
    let mut e = Editor::new(5);
    type_text(&mut e, "ab");
    e.handle_key(Key::Tab, NONE);
    e.handle_key(Key::Backspace, NONE);
    e.handle_key(Key::Left, NONE);
    e.handle_key(Key::Delete, NONE);
    e.handle_key(Key::Char('q'), CTRL);
    e.handle_key(Key::Char('z'), CTRL);
    assert_eq!(e.buffer().get_buffer_content(), "aq\n");
    e.handle_key(Key::BackTab, NONE);
    e.handle_key(Key::Other, NONE);
    assert_eq!(e.buffer().get_cursor_col(), 2);
}
