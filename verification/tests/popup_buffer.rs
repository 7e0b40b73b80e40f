use git_tui::popup::Popup;

#[test]
fn new_popup_is_empty_and_inactive() {
    let p = Popup::new();
    assert_eq!(p.input, "");
    assert_eq!(p.character_index, 0);
    assert!(!p.active);
}

#[test]
fn enter_char_inserts_at_cursor_and_advances() {
    let mut p = Popup::new();
    p.enter_char('a');
    p.enter_char('b');
    assert_eq!(p.input, "ab");
    assert_eq!(p.character_index, 2);
    p.move_cursor_left();
    p.enter_char('x');
    assert_eq!(p.input, "axb");
    assert_eq!(p.character_index, 2);
}

#[test]
fn delete_char_removes_left_of_cursor() {
    let mut p = Popup::new();
    p.enter_char('a');
    p.enter_char('b');
    p.enter_char('c');
    p.move_cursor_left();
    p.delete_char();
    assert_eq!(p.input, "ac");
    assert_eq!(p.character_index, 1);
}

#[test]
fn delete_char_at_leftmost_is_noop() {
    let mut p = Popup::new();
    p.enter_char('a');
    p.move_cursor_left();
    p.delete_char();
    assert_eq!(p.input, "a");
    assert_eq!(p.character_index, 0);
}

#[test]
fn insert_then_delete_restores_content_and_cursor() {
    let mut p = Popup::new();
    p.enter_char('h');
    p.enter_char('i');
    p.move_cursor_left();
    let before_input = p.input.clone();
    let before_cursor = p.character_index;
    p.enter_char('x');
    p.delete_char();
    assert_eq!(p.input, before_input);
    assert_eq!(p.character_index, before_cursor);
}

#[test]
fn multibyte_characters_stay_whole() {
    let mut p = Popup::new();
    p.enter_char('日');
    p.enter_char('本');
    p.move_cursor_left();
    p.enter_char('x');
    assert_eq!(p.input, "日x本");
    assert_eq!(p.character_index, 2);
    p.delete_char();
    assert_eq!(p.input, "日本");
    assert_eq!(p.character_index, 1);
}

#[test]
fn cursor_stays_inside_content_after_every_operation() {
    let mut p = Popup::new();
    let count = |s: &String| s.chars().count();
    p.move_cursor_left();
    assert!(p.character_index <= count(&p.input));
    p.move_cursor_right();
    assert!(p.character_index <= count(&p.input));
    p.enter_char('é');
    assert!(p.character_index <= count(&p.input));
    p.enter_char('z');
    p.move_cursor_right();
    p.move_cursor_right();
    assert!(p.character_index <= count(&p.input));
    p.delete_char();
    assert!(p.character_index <= count(&p.input));
}

#[test]
fn byte_index_counts_utf8_bytes_before_cursor() {
    let mut p = Popup::new();
    p.enter_char('é');
    p.enter_char('a');
    assert_eq!(p.byte_index(), 3);
    p.move_cursor_left();
    assert_eq!(p.byte_index(), 2);
    p.move_cursor_left();
    assert_eq!(p.byte_index(), 0);
}

#[test]
fn clamp_cursor_caps_at_character_count() {
    let mut p = Popup::new();
    p.enter_char('a');
    p.enter_char('b');
    assert_eq!(p.clamp_cursor(0), 0);
    assert_eq!(p.clamp_cursor(1), 1);
    assert_eq!(p.clamp_cursor(99), 2);
}

#[test]
fn submit_returns_content_and_resets() {
    let mut p = Popup::new();
    p.active = true;
    p.enter_char('o');
    p.enter_char('k');
    let content = p.submit();
    assert_eq!(content, "ok");
    assert_eq!(p.input, "");
    assert_eq!(p.character_index, 0);
    assert!(!p.active);
}

#[test]
fn cancel_discards_content() {
    let mut p = Popup::new();
    p.active = true;
    p.enter_char('x');
    p.cancel();
    assert_eq!(p.input, "");
    assert_eq!(p.character_index, 0);
    assert!(!p.active);
}
