use midetor::history::NavHistory;
use midetor::session::{Effect, KeyCode, KeyInput, Session, Status};

fn line(s: &str) -> Vec<char> {
    s.chars().collect()
}

fn lines(xs: &[&str]) -> Vec<Vec<char>> {
    xs.iter().map(|s| line(s)).collect()
}

#[test]
fn back_and_forward_traverse_without_wrapping() {
    let mut h = NavHistory::new();
    h.push_visit("a".to_string(), 1);
    h.push_visit("b".to_string(), 2);
    assert_eq!(h.back(), Some(("a".to_string(), 1)));
    assert_eq!(h.back(), None);
    assert_eq!(h.forward(), Some(("b".to_string(), 2)));
    assert_eq!(h.forward(), None);
}

#[test]
fn push_discards_forward_entries() {
    let mut h = NavHistory::new();
    h.push_visit("a".to_string(), 1);
    h.push_visit("b".to_string(), 2);
    h.push_visit("c".to_string(), 3);
    assert_eq!(h.back(), Some(("b".to_string(), 2)));
    h.push_visit("d".to_string(), 4);
    assert_eq!(h.len(), 3);
    assert_eq!(h.forward(), None);
    assert_eq!(h.back(), Some(("b".to_string(), 2)));
}

#[test]
fn session_navigation_follows_browser_history_semantics() {
    let mut s = Session::new("a.md".to_string(), 1, lines(&["A"]));
    s.document_opened("b.md".to_string(), 2, lines(&["B"]), true);
    s.document_opened("c.md".to_string(), 3, lines(&["C"]), true);

    let fx = s.handle_input(KeyInput { code: KeyCode::Char('o'), ctrl: true });
    assert_eq!(fx.len(), 1);
    match &fx[0] {
        Effect::OpenKnown(path, id) => {
            assert_eq!(path, "b.md");
            assert_eq!(*id, 2);
            s.document_opened(path.clone(), *id, lines(&["B"]), false);
        }
        _ => panic!("expected a history reopen"),
    }

    let fx = s.handle_input(KeyInput { code: KeyCode::Char('o'), ctrl: true });
    assert_eq!(fx.len(), 1);
    match &fx[0] {
        Effect::OpenKnown(path, id) => {
            assert_eq!(path, "a.md");
            assert_eq!(*id, 1);
            s.document_opened(path.clone(), *id, lines(&["A"]), false);
        }
        _ => panic!("expected a history reopen"),
    }

    s.document_opened("d.md".to_string(), 4, lines(&["D"]), true);
    assert_eq!(s.history.len(), 2);
    let fx = s.handle_input(KeyInput { code: KeyCode::Char('i'), ctrl: true });
    assert!(fx.is_empty());
    assert_eq!(s.status, Status::NoNextFile);
}

#[test]
fn back_on_fresh_session_reports_no_previous_file() {
    let mut s = Session::new("a.md".to_string(), 1, lines(&["A"]));
    let fx = s.handle_input(KeyInput { code: KeyCode::Char('o'), ctrl: true });
    assert!(fx.is_empty());
    assert_eq!(s.status, Status::NoPreviousFile);
}

#[test]
fn document_opened_clears_undo_history() {
    let mut s = Session::new("a.md".to_string(), 1, lines(&["A"]));
    s.handle_input(KeyInput { code: KeyCode::Char('i'), ctrl: false });
    s.handle_input(KeyInput { code: KeyCode::Char('x'), ctrl: false });
    s.handle_input(KeyInput { code: KeyCode::Esc, ctrl: false });
    s.document_opened("b.md".to_string(), 2, lines(&["B"]), true);
    assert!(!s.buffer.undo());
}
