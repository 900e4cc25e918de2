use lfm::ui::input_box::{apply, EditOp, Model};

fn typed(text: &str) -> Model {
    let mut m = Model::new();
    m.open();
    for c in text.chars() {
        m.insert(c);
    }
    m
}

#[test]
fn a_new_field_is_empty_and_inactive() {
    let m = Model::new();
    assert_eq!(m.text, "");
    assert!(!m.active);
    assert_eq!(m.cursor(), 0);
}

#[test]
fn typing_appends_and_advances_the_cursor() {
    let m = typed("abc");
    assert_eq!(m.text, "abc");
    assert!(m.active);
    assert_eq!(m.pos, 3);
    assert_eq!(m.cursor(), 3);
}

#[test]
fn typing_in_the_middle_inserts_at_the_cursor() {
    let mut m = typed("ac");
    m.move_left();
    m.insert('b');
    assert_eq!(m.text, "abc");
    assert_eq!(m.pos, 2);
}

#[test]
fn the_cursor_is_a_byte_offset_over_multibyte_text() {
    let mut m = typed("äöü");
    assert_eq!(m.cursor(), 6);
    m.move_left();
    assert_eq!(m.cursor(), 4);
    m.cursor_home();
    assert_eq!(m.cursor(), 0);
    m.move_right();
    assert_eq!(m.cursor(), 2);
    m.cursor_end();
    assert_eq!(m.cursor(), 6);
}

#[test]
fn typing_moves_the_byte_cursor_by_the_character_length() {
    let mut m = typed("a");
    let before = m.cursor();
    m.insert('€');
    assert_eq!(m.cursor(), before + '€'.len_utf8());
}

#[test]
fn backspace_deletes_before_the_cursor() {
    let mut m = typed("abc");
    m.move_left();
    m.backspace();
    assert_eq!(m.text, "ac");
    assert_eq!(m.pos, 1);
}

#[test]
fn backspace_at_the_start_does_nothing() {
    let mut m = typed("abc");
    m.cursor_home();
    m.backspace();
    assert_eq!(m.text, "abc");
    assert_eq!(m.pos, 0);
}

#[test]
fn backspace_undoes_a_keystroke() {
    let mut m = typed("héllo");
    m.move_left();
    m.move_left();
    let (text, pos) = (m.text.clone(), m.pos);
    m.insert('ß');
    m.backspace();
    assert_eq!(m.text, text);
    assert_eq!(m.pos, pos);
}

#[test]
fn left_and_right_undo_each_other_inside_the_text() {
    let mut m = typed("xyz");
    m.move_left();
    let pos = m.pos;
    m.move_right();
    m.move_left();
    assert_eq!(m.pos, pos);
    m.move_left();
    m.move_right();
    assert_eq!(m.pos, pos);
}

#[test]
fn the_cursor_stops_at_both_ends() {
    let mut m = typed("ab");
    m.move_right();
    assert_eq!(m.pos, 2);
    m.cursor_home();
    m.move_left();
    assert_eq!(m.pos, 0);
}

#[test]
fn closing_and_opening_empty_the_field() {
    let mut m = typed("abc");
    m.close();
    assert_eq!(m.text, "");
    assert!(!m.active);
    assert_eq!(m.pos, 0);
    let mut m = typed("abc");
    m.open();
    assert_eq!(m.text, "");
    assert!(m.active);
}

#[test]
fn set_text_puts_the_cursor_at_the_end() {
    let mut m = Model::new();
    m.set_text("naïve".to_string());
    assert_eq!(m.text, "naïve");
    assert_eq!(m.pos, 5);
    assert!(!m.active);
}

#[test]
fn cursor_spans_split_around_the_cursor() {
    let mut m = typed("abc");
    assert_eq!(m.cursor_spans(), ("abc".to_string(), "_".to_string(), String::new()));
    m.move_left();
    m.move_left();
    assert_eq!(m.cursor_spans(), ("a".to_string(), "b".to_string(), "c".to_string()));
}

#[test]
fn apply_routes_each_keystroke() {
    let mut m = Model::new();
    apply(&mut m, EditOp::Char('x'));
    apply(&mut m, EditOp::Char('y'));
    apply(&mut m, EditOp::CursorLeft);
    apply(&mut m, EditOp::Char('z'));
    assert_eq!(m.text, "xzy");
    apply(&mut m, EditOp::CursorRight);
    apply(&mut m, EditOp::Backspace);
    assert_eq!(m.text, "xz");
    assert_eq!(m.pos, 2);
}
