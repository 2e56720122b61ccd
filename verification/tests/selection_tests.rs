use midetor::buffer::TextBuffer;
use midetor::selection::{normalize_rect, order_positions};

fn line(s: &str) -> Vec<char> {
    s.chars().collect()
}

fn buf(lines: &[&str]) -> TextBuffer {
    TextBuffer::from_lines(lines.iter().map(|s| line(s)).collect())
}

fn content(b: &TextBuffer) -> Vec<String> {
    b.lines.iter().map(|l| l.iter().collect()).collect()
}

fn strings(rows: &Vec<Vec<char>>) -> Vec<String> {
    rows.iter().map(|l| l.iter().collect()).collect()
}

#[test]
fn rect_normalization_takes_min_and_max_per_axis() {
    assert_eq!(normalize_rect((2, 5), (0, 1)), (0, 2, 1, 5));
    assert_eq!(normalize_rect((0, 1), (2, 5)), (0, 2, 1, 5));
    assert_eq!(normalize_rect((3, 3), (3, 3)), (3, 3, 3, 3));
}

#[test]
fn position_ordering_is_document_order() {
    assert_eq!(order_positions((2, 5), (0, 1)), ((0, 1), (2, 5)));
    assert_eq!(order_positions((0, 5), (0, 1)), ((0, 1), (0, 5)));
    assert_eq!(order_positions((1, 1), (1, 1)), ((1, 1), (1, 1)));
}

#[test]
fn block_yank_clamps_to_short_rows_without_error() {
    let b = buf(&["alphabet", "be", "gamma"]);
    let yanked = b.block_yank(0, 2, 1, 3);
    let got = strings(&yanked);
    assert_eq!(got, vec!["lph".to_string(), "e".to_string(), "amm".to_string()]);
    for s in &got {
        assert!(s.chars().count() <= 3);
    }
}

#[test]
fn block_yank_of_row_shorter_than_rectangle_is_empty() {
    let b = buf(&["abcdef", "x", ""]);
    let yanked = b.block_yank(0, 2, 2, 4);
    assert_eq!(strings(&yanked), vec!["cde".to_string(), "".to_string(), "".to_string()]);
}

#[test]
fn block_delete_removes_rectangle_from_each_row() {
    let mut b = buf(&["abcdef", "ab", "abcd"]);
    b.block_delete(0, 2, 1, 2);
    assert_eq!(
        content(&b),
        vec!["adef".to_string(), "a".to_string(), "ad".to_string()]
    );
    assert_eq!(b.cursor(), (0, 1));
    assert!(b.undo());
    assert_eq!(
        content(&b),
        vec!["abcdef".to_string(), "ab".to_string(), "abcd".to_string()]
    );
}

#[test]
fn charwise_delete_across_rows_collapses_span() {
    let mut b = buf(&["abcdef", "middle", "xyzzyq"]);
    b.charwise_delete(0, 1, 2, 5);
    assert_eq!(content(&b), vec!["aq".to_string()]);
    assert_eq!(b.cursor(), (0, 1));
}

#[test]
fn charwise_delete_single_row_removes_range() {
    let mut b = buf(&["abcdef"]);
    b.charwise_delete(0, 1, 0, 4);
    assert_eq!(content(&b), vec!["aef".to_string()]);
}

#[test]
fn charwise_yank_takes_prefix_whole_rows_and_suffix() {
    let b = buf(&["abcd", "mid", "wxyz"]);
    let yanked = b.charwise_yank(0, 2, 2, 3);
    assert_eq!(
        strings(&yanked),
        vec!["cd".to_string(), "mid".to_string(), "wxy".to_string()]
    );
}

#[test]
fn block_insert_pads_short_rows_to_the_insert_column() {
    let mut b = buf(&["abcdef", "abc", "a"]);
    b.block_insert_char(0, 2, 3, 'Z');
    assert_eq!(
        content(&b),
        vec!["abcZdef".to_string(), "abcZ".to_string(), "a  Z".to_string()]
    );
    for l in &b.lines {
        assert_eq!(l.get(3), Some(&'Z'));
    }
    assert_eq!(b.cursor(), (0, 4));
}

#[test]
fn block_erase_skips_rows_that_end_before_the_column() {
    let mut b = buf(&["abcd", "ab", "abcde"]);
    b.block_erase_char(0, 2, 2);
    assert_eq!(
        content(&b),
        vec!["abd".to_string(), "ab".to_string(), "abde".to_string()]
    );
}
