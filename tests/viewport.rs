use termedit::viewport::Viewport;

#[test]
fn ensure_cursor_visible_moves_window() {
    let mut v = Viewport::new(10);
    v.ensure_cursor_visible(15);
    assert_eq!(v.get_viewport_start(), 6);
    v.ensure_cursor_visible(8);
    assert_eq!(v.get_viewport_start(), 6);
    v.ensure_cursor_visible(2);
    assert_eq!(v.get_viewport_start(), 2);
}

#[test]
fn scroll_up_stops_at_top() {
    let mut v = Viewport::new(3);
    v.scroll_up();
    assert_eq!(v.get_viewport_start(), 0);
    v.set_viewport_start(2);
    v.scroll_up();
    assert_eq!(v.get_viewport_start(), 1);
}

#[test]
fn scroll_down_stops_at_last_line() {
    let mut v = Viewport::new(3);
    v.scroll_down(5);
    assert_eq!(v.get_viewport_start(), 1);
    v.scroll_down(5);
    assert_eq!(v.get_viewport_start(), 2);
    v.scroll_down(5);
    assert_eq!(v.get_viewport_start(), 2);
}

#[test]
fn page_moves_clamp() {
    let mut v = Viewport::new(10);
    v.page_down(5);
    assert_eq!(v.get_viewport_start(), 0);
    v.page_down(25);
    assert_eq!(v.get_viewport_start(), 10);
    v.page_down(25);
    assert_eq!(v.get_viewport_start(), 15);
    v.page_up();
    assert_eq!(v.get_viewport_start(), 5);
    v.page_up();
    assert_eq!(v.get_viewport_start(), 0);
}

#[test]
fn visible_range_clips_to_document() {
    let mut v = Viewport::new(10);
    assert_eq!(v.visible_range(4), (0, 4));
    assert_eq!(v.visible_range(30), (0, 10));
    v.set_viewport_start(25);
    assert_eq!(v.visible_range(30), (25, 30));
    assert_eq!(v.get_viewport_height(), 10);
}

#[test]
fn cursor_screen_position_only_inside_window() {
    let mut v = Viewport::new(5);
    v.set_viewport_start(3);
    assert_eq!(v.cursor_screen_position(4, 7), Some((1, 7)));
    assert_eq!(v.cursor_screen_position(2, 0), None);
    assert_eq!(v.cursor_screen_position(8, 0), None);
}
