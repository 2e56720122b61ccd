use midetor::buffer::TextBuffer;
use midetor::text::char_to_byte;

fn line(s: &str) -> Vec<char> {
    s.chars().collect()
}

fn buf(lines: &[&str]) -> TextBuffer {
    TextBuffer::from_lines(lines.iter().map(|s| line(s)).collect())
}

fn content(b: &TextBuffer) -> Vec<String> {
    b.lines.iter().map(|l| l.iter().collect()).collect()
}

#[test]
fn insert_then_equal_undos_restores_content() {
    let mut b = buf(&["ab"]);
    b.insert_char('x');
    b.insert_char('y');
    b.insert_char('z');
    assert_eq!(content(&b), vec!["xyzab".to_string()]);
    assert!(b.undo());
    assert!(b.undo());
    assert!(b.undo());
    assert_eq!(content(&b), vec!["ab".to_string()]);
    assert_eq!(b.cursor(), (0, 0));
    assert!(!b.undo());
}

#[test]
fn redo_mirrors_undo_and_is_cleared_by_new_edit() {
    let mut b = buf(&["a"]);
    b.insert_char('b');
    assert!(b.undo());
    assert_eq!(content(&b), vec!["a".to_string()]);
    assert!(b.redo());
    assert_eq!(content(&b), vec!["ba".to_string()]);
    assert!(b.undo());
    b.insert_char('c');
    assert!(!b.redo());
    assert_eq!(content(&b), vec!["ca".to_string()]);
}

#[test]
fn empty_input_yields_one_empty_line() {
    let b = TextBuffer::from_lines(Vec::new());
    assert_eq!(content(&b), vec![String::new()]);
    assert_eq!(b.line_count(), 1);
}

#[test]
fn insert_newline_splits_line_at_cursor() {
    let mut b = buf(&["hello"]);
    b.row = 0;
    b.col = 2;
    b.insert_newline();
    assert_eq!(content(&b), vec!["he".to_string(), "llo".to_string()]);
    assert_eq!(b.cursor(), (1, 0));
}

#[test]
fn backspace_at_line_head_joins_previous_line() {
    let mut b = buf(&["ab", "cd"]);
    b.row = 1;
    b.col = 0;
    b.delete_char_before();
    assert_eq!(content(&b), vec!["abcd".to_string()]);
    assert_eq!(b.cursor(), (0, 2));
}

#[test]
fn backspace_at_document_start_is_a_no_op() {
    let mut b = buf(&["ab"]);
    b.delete_char_before();
    assert_eq!(content(&b), vec!["ab".to_string()]);
    assert!(!b.undo());
}

#[test]
fn delete_next_char_removes_under_cursor_and_joins_at_line_end() {
    let mut b = buf(&["abc", "de"]);
    b.col = 1;
    b.delete_next_char();
    assert_eq!(content(&b), vec!["ac".to_string(), "de".to_string()]);
    b.col = 2;
    b.delete_next_char();
    assert_eq!(content(&b), vec!["acde".to_string()]);
}

#[test]
fn delete_to_end_clears_rest_of_line() {
    let mut b = buf(&["abcdef"]);
    b.col = 2;
    b.delete_to_end();
    assert_eq!(content(&b), vec!["ab".to_string()]);
    assert_eq!(b.cursor(), (0, 2));
}

#[test]
fn paste_inserts_lines_below_current_row() {
    let mut b = buf(&["one", "two"]);
    let rows = vec![line("x"), line("yy")];
    b.insert_lines_after(&rows);
    assert_eq!(
        content(&b),
        vec!["one".to_string(), "x".to_string(), "yy".to_string(), "two".to_string()]
    );
    assert_eq!(b.cursor(), (2, 2));
    assert!(b.undo());
    assert_eq!(content(&b), vec!["one".to_string(), "two".to_string()]);
}

#[test]
fn replace_in_line_swaps_range_and_places_cursor() {
    let mut b = buf(&["ab#ta rest"]);
    b.col = 5;
    b.replace_in_line(2, 5, &line("#tag1"));
    assert_eq!(content(&b), vec!["ab#tag1 rest".to_string()]);
    assert_eq!(b.cursor(), (0, 7));
}

#[test]
fn motions_wrap_and_clamp() {
    let mut b = buf(&["ab", "c"]);
    b.move_end();
    assert_eq!(b.cursor(), (0, 2));
    b.move_right();
    assert_eq!(b.cursor(), (1, 0));
    b.move_left();
    assert_eq!(b.cursor(), (0, 2));
    b.move_down();
    assert_eq!(b.cursor(), (1, 1));
    b.move_up();
    assert_eq!(b.cursor(), (0, 1));
}

#[test]
fn word_forward_skips_word_and_spaces() {
    let mut b = buf(&["foo  bar baz"]);
    b.word_forward();
    assert_eq!(b.cursor(), (0, 5));
    b.word_forward();
    assert_eq!(b.cursor(), (0, 9));
    b.word_back();
    assert_eq!(b.cursor(), (0, 5));
}

#[test]
fn char_to_byte_counts_utf8_lengths() {
    let l = line("a\u{e9}\u{6f22}x");
    assert_eq!(char_to_byte(&l, 0), 0);
    assert_eq!(char_to_byte(&l, 1), 1);
    assert_eq!(char_to_byte(&l, 2), 3);
    assert_eq!(char_to_byte(&l, 3), 6);
    assert_eq!(char_to_byte(&l, 4), 7);
}

#[test]
fn char_to_byte_beyond_line_end_gives_full_byte_length() {
    let l = line("a\u{e9}\u{6f22}");
    assert_eq!(char_to_byte(&l, 3), 6);
    assert_eq!(char_to_byte(&l, 4), 6);
    assert_eq!(char_to_byte(&l, 1000), 6);
    let empty = line("");
    assert_eq!(char_to_byte(&empty, 5), 0);
}
