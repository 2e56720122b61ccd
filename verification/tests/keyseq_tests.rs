use midetor::keyseq::{resolve_normal, resolve_tree, EditorCommand, SeqOutcome, TreeCommand};
use midetor::session::{KeyCode, KeyInput, Mode, Session, Status};

fn line(s: &str) -> Vec<char> {
    s.chars().collect()
}

fn session(lines: &[&str]) -> Session {
    Session::new("a.md".to_string(), 1, lines.iter().map(|s| line(s)).collect())
}

fn press(s: &mut Session, c: char) -> Vec<midetor::session::Effect> {
    s.handle_input(KeyInput { code: KeyCode::Char(c), ctrl: false })
}

fn content(s: &Session) -> Vec<String> {
    s.buffer.lines.iter().map(|l| l.iter().collect()).collect()
}

#[test]
fn resolver_fires_on_exact_match_only() {
    assert_eq!(resolve_normal(&line("g"), 'g'), SeqOutcome::Fired(EditorCommand::JumpTop));
    assert_eq!(resolve_normal(&line("y"), 'y'), SeqOutcome::Fired(EditorCommand::YankLine));
    assert_eq!(resolve_normal(&line("d"), 'd'), SeqOutcome::Fired(EditorCommand::DeleteLine));
    assert_eq!(resolve_normal(&line("\\"), 'f'), SeqOutcome::Fired(EditorCommand::SearchFiles));
    assert_eq!(resolve_normal(&line("\\"), 't'), SeqOutcome::Fired(EditorCommand::OpenFileTree));
    assert_eq!(resolve_normal(&line("\\o"), 'b'), SeqOutcome::Fired(EditorCommand::SearchBacklinks));
    assert_eq!(resolve_normal(&line("\\o"), 't'), SeqOutcome::Fired(EditorCommand::SearchTags));
    assert_eq!(resolve_normal(&line("\\oo"), 't'), SeqOutcome::Fired(EditorCommand::OpenToday));
    assert_eq!(resolve_normal(&line("\\oo"), 'y'), SeqOutcome::Fired(EditorCommand::OpenYesterday));
    assert_eq!(resolve_normal(&line("\\oo"), 'T'), SeqOutcome::Fired(EditorCommand::OpenTomorrow));
}

#[test]
fn resolver_keeps_buffering_on_strict_prefixes() {
    assert_eq!(resolve_normal(&line("\\"), 'o'), SeqOutcome::Buffering);
    assert_eq!(resolve_normal(&line("\\o"), 'o'), SeqOutcome::Buffering);
}

#[test]
fn resolver_resets_on_unknown_sequences() {
    assert_eq!(resolve_normal(&line("g"), 'x'), SeqOutcome::Reset);
    assert_eq!(resolve_normal(&line("\\o"), 'z'), SeqOutcome::Reset);
    assert_eq!(resolve_normal(&line("\\oo"), 'q'), SeqOutcome::Reset);
    assert_eq!(resolve_normal(&line("qq"), 'x'), SeqOutcome::Reset);
}

#[test]
fn tree_resolver_matches_its_table() {
    assert_eq!(resolve_tree(&line("o"), 'c'), SeqOutcome::Fired(TreeCommand::SortByModified));
    assert_eq!(resolve_tree(&line("o"), 'n'), SeqOutcome::Fired(TreeCommand::SortByName));
    assert_eq!(resolve_tree(&line("o"), 'z'), SeqOutcome::Reset);
}

#[test]
fn gg_jumps_to_document_start() {
    let mut s = session(&["first", "second"]);
    s.buffer.row = 1;
    s.buffer.col = 2;
    press(&mut s, 'g');
    assert_eq!(s.key_sequence.len(), 1);
    press(&mut s, 'g');
    assert_eq!(s.buffer.cursor(), (0, 0));
    assert_eq!(s.status, Status::MovedToTop);
    assert!(s.key_sequence.is_empty());
}

#[test]
fn unknown_sequence_resets_prefix_without_touching_buffer() {
    let mut s = session(&["first", "second"]);
    let before = content(&s);
    press(&mut s, 'g');
    let fx = press(&mut s, 'x');
    assert!(fx.is_empty());
    assert_eq!(s.status, Status::InvalidSequence);
    assert!(s.key_sequence.is_empty());
    assert_eq!(content(&s), before);
    assert_eq!(s.mode, Mode::Normal);
}

#[test]
fn yy_yanks_the_current_line_and_p_pastes_it_below() {
    let mut s = session(&["alpha", "beta"]);
    press(&mut s, 'y');
    press(&mut s, 'y');
    let yanked: Vec<String> = s.yanked.iter().map(|l| l.iter().collect()).collect();
    assert_eq!(yanked, vec!["alpha".to_string()]);
    press(&mut s, 'p');
    assert_eq!(
        content(&s),
        vec!["alpha".to_string(), "alpha".to_string(), "beta".to_string()]
    );
}

#[test]
fn dd_clears_the_current_line() {
    let mut s = session(&["alpha", "beta"]);
    press(&mut s, 'd');
    press(&mut s, 'd');
    assert_eq!(content(&s), vec!["".to_string(), "beta".to_string()]);
    assert_eq!(s.status, Status::DeletedLine);
}

#[test]
fn undo_key_reverses_an_insert_mode_edit() {
    let mut s = session(&["ab"]);
    press(&mut s, 'i');
    assert_eq!(s.mode, Mode::Insert);
    press(&mut s, 'z');
    s.handle_input(KeyInput { code: KeyCode::Esc, ctrl: false });
    assert_eq!(content(&s), vec!["zab".to_string()]);
    press(&mut s, 'u');
    assert_eq!(content(&s), vec!["ab".to_string()]);
    assert_eq!(s.status, Status::Undone);
    let fx = s.handle_input(KeyInput { code: KeyCode::Char('r'), ctrl: true });
    assert!(fx.is_empty());
    assert_eq!(content(&s), vec!["zab".to_string()]);
}
