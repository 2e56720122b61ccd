use midetor::session::{
    CompletionType, Effect, KeyCode, KeyInput, Mode, SearchResult, SearchType, Session, Status,
    TagFileEntry, ViewKind,
};
use midetor::text::chars_to_string;

fn line(s: &str) -> Vec<char> {
    s.chars().collect()
}

fn lines(xs: &[&str]) -> Vec<Vec<char>> {
    xs.iter().map(|s| line(s)).collect()
}

fn session(xs: &[&str]) -> Session {
    Session::new("a.md".to_string(), 1, lines(xs))
}

fn press(s: &mut Session, c: char) -> Vec<Effect> {
    s.handle_input(KeyInput { code: KeyCode::Char(c), ctrl: false })
}

fn key(s: &mut Session, code: KeyCode) -> Vec<Effect> {
    s.handle_input(KeyInput { code, ctrl: false })
}

fn content(s: &Session) -> Vec<String> {
    s.buffer.lines.iter().map(|l| l.iter().collect()).collect()
}

#[test]
fn hash_trigger_opens_tag_completion_and_queries_at_two_characters() {
    let mut s = session(&[""]);
    press(&mut s, 'i');
    let fx = press(&mut s, '#');
    assert!(fx.is_empty());
    assert_eq!(s.mode, Mode::Complete);
    assert_eq!(s.completion.kind, CompletionType::Tag);

    let fx = press(&mut s, 't');
    assert!(fx.is_empty());
    assert_eq!(s.mode, Mode::Complete);

    let fx = press(&mut s, 'a');
    assert_eq!(fx.len(), 1);
    match &fx[0] {
        Effect::QueryCompletion(kind, q) => {
            assert_eq!(*kind, CompletionType::Tag);
            assert_eq!(chars_to_string(q), "ta");
            assert_eq!(q.len(), 2);
        }
        _ => panic!("expected a completion query"),
    }
}

#[test]
fn deleting_below_minimum_length_suppresses_query_without_closing() {
    let mut s = session(&[""]);
    press(&mut s, 'i');
    press(&mut s, '#');
    press(&mut s, 't');
    press(&mut s, 'a');
    let fx = key(&mut s, KeyCode::Backspace);
    assert!(fx.is_empty());
    assert_eq!(s.mode, Mode::Complete);
    assert!(s.completion.suggestions.is_empty());
    assert_eq!(chars_to_string(&s.completion.query), "t");
}

#[test]
fn deleting_past_the_trigger_cancels_completion() {
    let mut s = session(&[""]);
    press(&mut s, 'i');
    press(&mut s, '#');
    press(&mut s, 't');
    key(&mut s, KeyCode::Backspace);
    assert_eq!(s.mode, Mode::Complete);
    key(&mut s, KeyCode::Backspace);
    assert_eq!(s.mode, Mode::Insert);
    assert!(!s.completion.active);
}

#[test]
fn double_bracket_trigger_opens_file_completion() {
    let mut s = session(&[""]);
    press(&mut s, 'i');
    press(&mut s, '[');
    assert_eq!(s.mode, Mode::Insert);
    press(&mut s, '[');
    assert_eq!(s.mode, Mode::Complete);
    assert_eq!(s.completion.kind, CompletionType::File);
}

#[test]
fn committing_a_suggestion_rewrites_the_trigger_span() {
    let mut s = session(&[""]);
    press(&mut s, 'i');
    press(&mut s, '#');
    press(&mut s, 't');
    press(&mut s, 'a');
    s.deliver_suggestions(vec![line("task")]);
    key(&mut s, KeyCode::Enter);
    assert_eq!(s.mode, Mode::Insert);
    assert_eq!(content(&s), vec!["#task".to_string()]);
    assert_eq!(s.buffer.cursor(), (0, 5));
}

#[test]
fn committing_a_file_suggestion_wraps_it_in_brackets() {
    let mut s = session(&[""]);
    press(&mut s, 'i');
    press(&mut s, '[');
    press(&mut s, '[');
    press(&mut s, 'f');
    press(&mut s, 'o');
    s.deliver_suggestions(vec![line("foo"), line("foobar")]);
    key(&mut s, KeyCode::Down);
    key(&mut s, KeyCode::Enter);
    assert_eq!(content(&s), vec!["[[foobar]]".to_string()]);
}

#[test]
fn write_command_requests_a_save() {
    let mut s = session(&["x"]);
    press(&mut s, ':');
    assert_eq!(s.mode, Mode::Command);
    press(&mut s, 'w');
    let fx = key(&mut s, KeyCode::Enter);
    assert_eq!(fx.len(), 1);
    assert!(matches!(fx[0], Effect::SaveDocument));
    assert_eq!(s.mode, Mode::Normal);
}

#[test]
fn quit_command_sets_the_quit_flag() {
    let mut s = session(&["x"]);
    press(&mut s, ':');
    press(&mut s, 'q');
    let fx = key(&mut s, KeyCode::Enter);
    assert!(fx.is_empty());
    assert!(s.should_quit);
}

#[test]
fn unknown_command_is_reported() {
    let mut s = session(&["x"]);
    press(&mut s, ':');
    press(&mut s, 'z');
    key(&mut s, KeyCode::Enter);
    assert_eq!(s.status, Status::UnknownCommand);
    assert!(!s.should_quit);
}

#[test]
fn visual_block_insert_pads_shorter_rows() {
    let mut s = session(&["abcdef", "abc", "a"]);
    s.buffer.col = 3;
    s.handle_input(KeyInput { code: KeyCode::Char('v'), ctrl: true });
    assert_eq!(s.mode, Mode::VisualBlock);
    key(&mut s, KeyCode::Down);
    key(&mut s, KeyCode::Down);
    press(&mut s, 'A');
    assert_eq!(s.mode, Mode::BlockInsert);
    press(&mut s, 'Z');
    assert_eq!(
        content(&s),
        vec!["abcdZef".to_string(), "abc Z".to_string(), "a   Z".to_string()]
    );
    key(&mut s, KeyCode::Backspace);
    assert_eq!(
        content(&s),
        vec!["abcdef".to_string(), "abc ".to_string(), "a   ".to_string()]
    );
    key(&mut s, KeyCode::Backspace);
    assert_eq!(
        content(&s),
        vec!["abcdef".to_string(), "abc ".to_string(), "a   ".to_string()]
    );
    key(&mut s, KeyCode::Esc);
    assert_eq!(s.mode, Mode::Normal);
    assert!(s.visual_anchor.is_none());
}

#[test]
fn charwise_visual_delete_collapses_rows() {
    let mut s = session(&["abcdef", "middle", "xyzzyq"]);
    s.buffer.row = 2;
    s.buffer.col = 5;
    press(&mut s, 'v');
    assert_eq!(s.visual_anchor, Some((2, 5)));
    s.buffer.row = 0;
    s.buffer.col = 1;
    press(&mut s, 'd');
    assert_eq!(content(&s), vec!["aq".to_string()]);
    assert_eq!(s.mode, Mode::Normal);
    assert!(s.visual_anchor.is_none());
}

#[test]
fn visual_block_yank_fills_the_register() {
    let mut s = session(&["alphabet", "be", "gamma"]);
    s.buffer.col = 1;
    s.handle_input(KeyInput { code: KeyCode::Char('v'), ctrl: true });
    key(&mut s, KeyCode::Down);
    key(&mut s, KeyCode::Down);
    key(&mut s, KeyCode::Right);
    key(&mut s, KeyCode::Right);
    press(&mut s, 'y');
    let yanked: Vec<String> = s.yanked.iter().map(|l| l.iter().collect()).collect();
    assert_eq!(yanked, vec!["lph".to_string(), "e".to_string(), "amm".to_string()]);
    assert_eq!(s.mode, Mode::Normal);
}

#[test]
fn enter_on_wikilink_line_requests_opening_it() {
    let mut s = session(&["see [[notes/foo]]"]);
    let fx = key(&mut s, KeyCode::Enter);
    assert_eq!(fx.len(), 1);
    match &fx[0] {
        Effect::OpenWikilink(name, link) => {
            assert_eq!(chars_to_string(name), "foo.md");
            assert_eq!(chars_to_string(link), "notes/foo");
        }
        _ => panic!("expected a wikilink open"),
    }
}

#[test]
fn enter_strips_an_incomplete_wikilink_before_navigating() {
    let mut s = session(&["pre [[half"]);
    s.set_backlinks(&vec![midetor::wikilink::BacklinkRow {
        label: line("half"),
        file_id: 9,
        path: line("half.md"),
    }]);
    let fx = key(&mut s, KeyCode::Enter);
    assert_eq!(content(&s), vec!["pre ".to_string()]);
    assert_eq!(fx.len(), 1);
    match &fx[0] {
        Effect::OpenWikilink(name, link) => {
            assert_eq!(chars_to_string(name), "half.md");
            assert_eq!(chars_to_string(link), "half");
        }
        _ => panic!("expected a wikilink open"),
    }
}

#[test]
fn enter_on_tag_line_shows_tag_info() {
    let mut s = session(&["has #todo inside"]);
    s.set_tags(vec![line("#todo")]);
    let fx = key(&mut s, KeyCode::Enter);
    assert_eq!(s.view, ViewKind::Info);
    assert_eq!(fx.len(), 1);
    assert!(matches!(fx[0], Effect::ShowTagInfo(_)));
    let fx = key(&mut s, KeyCode::Enter);
    assert!(fx.is_empty());
    assert_eq!(s.view, ViewKind::Editor);
}

#[test]
fn search_query_keystrokes_requery_the_provider() {
    let mut s = session(&["x"]);
    press(&mut s, '\\');
    let fx = press(&mut s, 'f');
    assert_eq!(s.mode, Mode::Search);
    assert_eq!(s.search.kind, SearchType::Files);
    assert_eq!(fx.len(), 1);
    let fx = press(&mut s, 'a');
    assert_eq!(fx.len(), 1);
    match &fx[0] {
        Effect::QuerySearch(kind, q) => {
            assert_eq!(*kind, SearchType::Files);
            assert_eq!(chars_to_string(q), "a");
        }
        _ => panic!("expected a search query"),
    }
}

#[test]
fn selecting_a_file_search_result_opens_it_by_id() {
    let mut s = session(&["x"]);
    press(&mut s, '\\');
    press(&mut s, 'f');
    s.deliver_search_results(vec![
        SearchResult { label: line("one.md"), file_id: Some(7) },
        SearchResult { label: line("two.md"), file_id: Some(8) },
    ]);
    key(&mut s, KeyCode::Down);
    let fx = key(&mut s, KeyCode::Enter);
    assert_eq!(fx.len(), 1);
    assert!(matches!(fx[0], Effect::OpenById(8)));
    assert_eq!(s.mode, Mode::Normal);
}

#[test]
fn tag_search_result_hands_over_to_the_tag_file_list() {
    let mut s = session(&["x"]);
    press(&mut s, '\\');
    press(&mut s, 'o');
    press(&mut s, 't');
    assert_eq!(s.search.kind, SearchType::Tags);
    s.deliver_search_results(vec![SearchResult { label: line("todo"), file_id: None }]);
    let fx = key(&mut s, KeyCode::Enter);
    assert_eq!(fx.len(), 1);
    assert!(matches!(fx[0], Effect::QueryTagFiles(_)));
    s.deliver_tag_files(vec![
        TagFileEntry { name: line("a.md"), file_id: 1 },
        TagFileEntry { name: line("b.md"), file_id: 2 },
    ]);
    assert_eq!(s.mode, Mode::TagFiles);
    key(&mut s, KeyCode::Down);
    let fx = key(&mut s, KeyCode::Enter);
    assert_eq!(fx.len(), 1);
    assert!(matches!(fx[0], Effect::OpenById(2)));
    assert_eq!(s.mode, Mode::Normal);
}

#[test]
fn empty_tag_file_list_reports_and_returns_to_normal() {
    let mut s = session(&["x"]);
    press(&mut s, '\\');
    press(&mut s, 'o');
    press(&mut s, 't');
    s.deliver_search_results(vec![SearchResult { label: line("todo"), file_id: None }]);
    key(&mut s, KeyCode::Enter);
    s.deliver_tag_files(Vec::new());
    assert_eq!(s.mode, Mode::Normal);
    assert_eq!(s.status, Status::NoTagFiles);
}

#[test]
fn daily_note_command_requests_a_dated_note() {
    let mut s = session(&["x"]);
    press(&mut s, '\\');
    press(&mut s, 'o');
    press(&mut s, 'o');
    let fx = press(&mut s, 't');
    assert_eq!(fx.len(), 1);
    match &fx[0] {
        Effect::OpenWikilink(name, link) => {
            let l = chars_to_string(link);
            assert!(l.starts_with("Every day info/"));
            assert!(l.ends_with(".md"));
            assert_eq!(l.len(), "Every day info/".len() + "0000-00-00.md".len());
            assert!(chars_to_string(name).ends_with(".md"));
        }
        _ => panic!("expected a dated-note open"),
    }
}

#[test]
fn escape_from_insert_returns_to_normal() {
    let mut s = session(&["x"]);
    press(&mut s, 'a');
    assert_eq!(s.mode, Mode::Insert);
    key(&mut s, KeyCode::Esc);
    assert_eq!(s.mode, Mode::Normal);
}

#[test]
fn visual_block_insert_before_uses_the_left_edge() {
    let mut s = session(&["abcdef", "abc", "a"]);
    s.buffer.col = 1;
    s.handle_input(KeyInput { code: KeyCode::Char('v'), ctrl: true });
    key(&mut s, KeyCode::Down);
    key(&mut s, KeyCode::Down);
    key(&mut s, KeyCode::Right);
    press(&mut s, 'I');
    assert_eq!(s.mode, Mode::BlockInsert);
    press(&mut s, '>');
    assert_eq!(
        content(&s),
        vec!["a>bcdef".to_string(), "a>bc".to_string(), "a>".to_string()]
    );
    assert_eq!(s.buffer.cursor(), (0, 2));
}

#[test]
fn delete_line_is_undoable() {
    let mut s = session(&["alpha", "beta"]);
    press(&mut s, 'd');
    press(&mut s, 'd');
    assert_eq!(content(&s), vec!["".to_string(), "beta".to_string()]);
    press(&mut s, 'u');
    assert_eq!(content(&s), vec!["alpha".to_string(), "beta".to_string()]);
}

#[test]
fn enter_with_nothing_to_follow_reports_it() {
    let mut s = session(&["plain text line"]);
    let fx = key(&mut s, KeyCode::Enter);
    assert!(fx.is_empty());
    assert_eq!(s.status, Status::NothingToFollow);
    assert_eq!(s.mode, Mode::Normal);
    assert_eq!(content(&s), vec!["plain text line".to_string()]);
}
