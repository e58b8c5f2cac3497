use reliquary_archiver::logview::{show_more_label, LogPointerEvent, LogViewState, TRUNCATE_THRESHOLD};

fn press(line: usize, ctrl: bool, shift: bool) -> LogPointerEvent {
    LogPointerEvent::Press { line, ctrl, shift }
}

#[test]
fn plain_click_selects_one_line_and_drag_extends_it() {
    let mut v = LogViewState::new();
    assert!(!v.is_selected(0));
    v.on_pointer(press(5, false, false));
    assert_eq!(v.range, Some((5, 6)));
    assert!(v.dragging);
    v.on_pointer(LogPointerEvent::Move { line: 2, inside: true });
    assert_eq!(v.range, Some((2, 6)));
    v.on_pointer(LogPointerEvent::Move { line: 8, inside: true });
    assert_eq!(v.range, Some((5, 9)));
    // Outside the line the drag does not change the selection.
    v.on_pointer(LogPointerEvent::Move { line: 1, inside: false });
    assert_eq!(v.range, Some((5, 9)));
    v.on_pointer(LogPointerEvent::Release);
    assert!(!v.dragging);
    assert_eq!(v.drag_start, None);
    // After the release moving selects nothing new.
    v.on_pointer(LogPointerEvent::Move { line: 0, inside: true });
    assert_eq!(v.range, Some((5, 9)));
    assert!(v.is_selected(5) && v.is_selected(8) && !v.is_selected(9) && !v.is_selected(4));
}

#[test]
fn ctrl_and_shift_clicks() {
    let mut v = LogViewState::new();
    v.on_pointer(press(3, true, false));
    assert_eq!(v.range, Some((3, 4)));
    assert!(!v.dragging);
    v.on_pointer(press(7, true, false));
    assert_eq!(v.range, Some((3, 8)));
    // Ctrl on a selected line clears the selection.
    v.on_pointer(press(5, true, false));
    assert_eq!(v.range, None);
    v.on_pointer(press(4, false, true));
    assert_eq!(v.range, Some((4, 5)));
    v.on_pointer(press(1, false, true));
    assert_eq!(v.range, Some((1, 5)));
    v.on_pointer(press(2, false, true));
    assert_eq!(v.range, Some((1, 5)));
}

#[test]
fn copy_takes_the_selected_lines() {
    let lines: Vec<String> = ["a", "bb", "ccc", "d"].iter().map(|s| s.to_string()).collect();
    let mut v = LogViewState::new();
    assert_eq!(v.on_copy_key(true, true, &lines), None);
    v.on_pointer(press(1, false, false));
    v.on_pointer(LogPointerEvent::Move { line: 2, inside: true });
    assert_eq!(v.on_copy_key(false, true, &lines), None);
    assert_eq!(v.on_copy_key(true, false, &lines), None);
    assert_eq!(v.range, Some((1, 3)));
    assert_eq!(v.on_copy_key(true, true, &lines), Some("bb\nccc".to_string()));
    assert_eq!(v.range, None);
    v.on_pointer(press(3, false, false));
    assert_eq!(v.on_copy_key(true, true, &lines), Some("d".to_string()));
}

#[test]
fn long_lines_are_cut_until_expanded() {
    let mut v = LogViewState::new();
    assert_eq!(TRUNCATE_THRESHOLD, 3000);
    assert!(!v.is_truncated(4, 3000));
    assert!(v.is_truncated(4, 3001));
    v.show_more(4);
    assert!(!v.is_truncated(4, 3001));
    assert!(v.is_truncated(5, 3001));
    assert_eq!(show_more_label(5000), "Show more (4.88 KB)");
    assert_eq!(show_more_label(3001), "Show more (2.93 KB)");
}
