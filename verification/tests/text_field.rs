use frogpad::widgets::TextEntry;

#[test]
fn insert_in_the_middle() {
    let mut field = TextEntry::new();
    field.insert('a');
    field.insert('b');
    field.move_cursor_left();
    field.insert('c');
    assert_eq!(field.get_str(), "acb");
    assert_eq!(field.get_cursor_pos(), 2);
}

#[test]
fn new_field_is_empty() {
    let field = TextEntry::new();
    assert_eq!(field.get_str(), "");
    assert_eq!(field.get_cursor_pos(), 0);
    let field = TextEntry::default();
    assert_eq!(field.get_str(), "");
    assert_eq!(field.get_cursor_pos(), 0);
}

#[test]
fn with_text_puts_cursor_at_end() {
    let field = TextEntry::with_text(String::from("hello"));
    assert_eq!(field.get_str(), "hello");
    assert_eq!(field.get_cursor_pos(), 5);
}

#[test]
fn cursor_counts_characters_not_bytes() {
    let mut field = TextEntry::with_text(String::from("héllo"));
    assert_eq!(field.get_cursor_pos(), 5);
    field.move_cursor_home();
    field.move_cursor_right();
    field.move_cursor_right();
    field.insert('ß');
    assert_eq!(field.get_str(), "héßllo");
    assert_eq!(field.get_cursor_pos(), 3);
    field.remove();
    field.remove();
    assert_eq!(field.get_str(), "hllo");
    assert_eq!(field.get_cursor_pos(), 1);
}

#[test]
fn insert_stops_at_max_len() {
    let mut field = TextEntry::new().with_max(2);
    field.insert('a');
    field.insert('b');
    field.insert('c');
    assert_eq!(field.get_str(), "ab");
    assert_eq!(field.get_cursor_pos(), 2);
    field.move_cursor_home();
    field.insert('x');
    assert_eq!(field.get_str(), "ab");
    assert_eq!(field.get_cursor_pos(), 0);
}

#[test]
fn remove_is_backspace() {
    let mut field = TextEntry::with_text(String::from("abc"));
    field.remove();
    assert_eq!(field.get_str(), "ab");
    assert_eq!(field.get_cursor_pos(), 2);
    field.move_cursor_left();
    field.remove();
    assert_eq!(field.get_str(), "b");
    assert_eq!(field.get_cursor_pos(), 0);
    field.remove();
    assert_eq!(field.get_str(), "b");
    assert_eq!(field.get_cursor_pos(), 0);
}

#[test]
fn remove_on_empty_field_does_nothing() {
    let mut field = TextEntry::new();
    field.remove();
    assert_eq!(field.get_str(), "");
    assert_eq!(field.get_cursor_pos(), 0);
}

#[test]
fn cursor_moves_saturate() {
    let mut field = TextEntry::with_text(String::from("ab"));
    field.move_cursor_right();
    assert_eq!(field.get_cursor_pos(), 2);
    field.move_cursor_left();
    field.move_cursor_left();
    field.move_cursor_left();
    assert_eq!(field.get_cursor_pos(), 0);
    field.move_cursor_end();
    assert_eq!(field.get_cursor_pos(), 2);
    field.move_cursor_home();
    assert_eq!(field.get_cursor_pos(), 0);
}

#[test]
fn take_drains_the_field() {
    let mut field = TextEntry::with_text(String::from("abc"));
    assert_eq!(field.take(), "abc");
    assert_eq!(field.get_str(), "");
    assert_eq!(field.get_cursor_pos(), 0);
}

#[test]
fn set_text_and_clear() {
    let mut field = TextEntry::new();
    field.set_text(String::from("xyz"));
    assert_eq!(field.get_str(), "xyz");
    assert_eq!(field.get_cursor_pos(), 3);
    field.clear();
    assert_eq!(field.get_str(), "");
    assert_eq!(field.get_cursor_pos(), 0);
}
