use midetor::session::{Effect, KeyCode, KeyInput, Mode, Session};
use midetor::tree::{filter_entries, flatten_tree, sort_entries, DirEntry, SortBy, TreeItem, TreeNode};

fn line(s: &str) -> Vec<char> {
    s.chars().collect()
}

fn string(v: &Vec<char>) -> String {
    v.iter().collect()
}

fn entry(path: &str, is_dir: bool, modified: i64) -> DirEntry {
    DirEntry { path: line(path), is_dir, modified }
}

fn paths(items: &Vec<TreeItem>) -> Vec<String> {
    items.iter().map(|i| string(&i.path)).collect()
}

#[test]
fn sort_by_name_puts_directories_first_then_names_ascending() {
    let entries = vec![
        entry("zeta.md", false, 5),
        entry("docs", true, 1),
        entry("alpha.md", false, 9),
        entry("attic", true, 3),
    ];
    let sorted = sort_entries(&entries, SortBy::Name, true);
    let got: Vec<String> = sorted.iter().map(|e| string(&e.path)).collect();
    assert_eq!(got, vec!["attic", "docs", "alpha.md", "zeta.md"]);
}

#[test]
fn sort_by_name_descending_reverses_within_groups() {
    let entries = vec![
        entry("a.md", false, 0),
        entry("b.md", false, 0),
        entry("d", true, 0),
        entry("c", true, 0),
    ];
    let sorted = sort_entries(&entries, SortBy::Name, false);
    let got: Vec<String> = sorted.iter().map(|e| string(&e.path)).collect();
    assert_eq!(got, vec!["d", "c", "b.md", "a.md"]);
}

#[test]
fn sort_by_modified_orders_by_timestamp() {
    let entries = vec![
        entry("old.md", false, 10),
        entry("new.md", false, 30),
        entry("mid.md", false, 20),
    ];
    let sorted = sort_entries(&entries, SortBy::Modified, true);
    let got: Vec<String> = sorted.iter().map(|e| string(&e.path)).collect();
    assert_eq!(got, vec!["old.md", "mid.md", "new.md"]);
    let sorted = sort_entries(&entries, SortBy::Modified, false);
    let got: Vec<String> = sorted.iter().map(|e| string(&e.path)).collect();
    assert_eq!(got, vec!["new.md", "mid.md", "old.md"]);
}

#[test]
fn flatten_shows_children_of_expanded_directories_only() {
    let tree = vec![
        TreeNode::Dir {
            path: line("docs"),
            expanded: true,
            children: vec![TreeNode::File(line("docs/a.md"))],
        },
        TreeNode::Dir { path: line("attic"), expanded: false, children: vec![TreeNode::File(line("attic/b.md"))] },
        TreeNode::File(line("top.md")),
    ];
    let items = flatten_tree(&tree);
    assert_eq!(paths(&items), vec!["docs", "docs/a.md", "attic", "top.md"]);
    assert_eq!(items[1].depth, 1);
    assert!(items[0].is_dir && items[0].expanded);
    assert!(!items[2].expanded);
}

#[test]
fn tree_mode_loads_sorts_and_navigates() {
    let mut s = Session::new("a.md".to_string(), 1, vec![line("x")]);
    s.handle_input(KeyInput { code: KeyCode::Char('\\'), ctrl: false });
    let fx = s.handle_input(KeyInput { code: KeyCode::Char('t'), ctrl: false });
    assert_eq!(s.mode, Mode::FileTree);
    assert_eq!(fx.len(), 1);
    assert!(matches!(fx[0], Effect::LoadTree));
    s.set_tree_root(&vec![
        entry("b.md", false, 0),
        entry("a.md", false, 0),
        entry("dir", true, 0),
    ]);
    assert_eq!(paths(&s.visible_items), vec!["dir", "a.md", "b.md"]);
    assert_eq!(s.tree_selected, Some(0));
    s.handle_input(KeyInput { code: KeyCode::Down, ctrl: false });
    assert_eq!(s.tree_selected, Some(1));
    let fx = s.handle_input(KeyInput { code: KeyCode::Enter, ctrl: false });
    assert_eq!(fx.len(), 1);
    match &fx[0] {
        Effect::OpenWikilink(name, link) => {
            assert_eq!(string(name), "a.md");
            assert_eq!(string(link), "a.md");
        }
        _ => panic!("expected a file open"),
    }
}

#[test]
fn expanding_a_directory_loads_and_shows_its_children() {
    let mut s = Session::new("a.md".to_string(), 1, vec![line("x")]);
    s.handle_input(KeyInput { code: KeyCode::Char('\\'), ctrl: false });
    s.handle_input(KeyInput { code: KeyCode::Char('t'), ctrl: false });
    s.set_tree_root(&vec![entry("dir", true, 0), entry("a.md", false, 0)]);
    let fx = s.handle_input(KeyInput { code: KeyCode::Right, ctrl: false });
    assert_eq!(fx.len(), 1);
    match &fx[0] {
        Effect::LoadDir(p) => assert_eq!(string(p), "dir"),
        _ => panic!("expected a directory load"),
    }
    s.set_dir_children(&line("dir"), &vec![entry("dir/inner.md", false, 0)]);
    assert_eq!(paths(&s.visible_items), vec!["dir", "dir/inner.md", "a.md"]);
    s.handle_input(KeyInput { code: KeyCode::Left, ctrl: false });
    assert_eq!(paths(&s.visible_items), vec!["dir", "a.md"]);
}

#[test]
fn deleting_a_tree_file_requests_removal_and_drops_the_row() {
    let mut s = Session::new("a.md".to_string(), 1, vec![line("x")]);
    s.handle_input(KeyInput { code: KeyCode::Char('\\'), ctrl: false });
    s.handle_input(KeyInput { code: KeyCode::Char('t'), ctrl: false });
    s.set_tree_root(&vec![entry("a.md", false, 0), entry("b.md", false, 0)]);
    let fx = s.handle_input(KeyInput { code: KeyCode::Char('d'), ctrl: false });
    assert_eq!(fx.len(), 1);
    match &fx[0] {
        Effect::DeleteFile(p) => assert_eq!(string(p), "a.md"),
        _ => panic!("expected a delete request"),
    }
    assert_eq!(paths(&s.visible_items), vec!["b.md"]);
}

#[test]
fn tree_sort_sequence_toggles_and_reloads() {
    let mut s = Session::new("a.md".to_string(), 1, vec![line("x")]);
    s.handle_input(KeyInput { code: KeyCode::Char('\\'), ctrl: false });
    s.handle_input(KeyInput { code: KeyCode::Char('t'), ctrl: false });
    s.handle_input(KeyInput { code: KeyCode::Char('o'), ctrl: false });
    let fx = s.handle_input(KeyInput { code: KeyCode::Char('c'), ctrl: false });
    assert_eq!(s.sort_by, SortBy::Modified);
    assert!(s.sort_asc);
    assert!(matches!(fx[0], Effect::LoadTree));
    s.handle_input(KeyInput { code: KeyCode::Char('o'), ctrl: false });
    s.handle_input(KeyInput { code: KeyCode::Char('c'), ctrl: false });
    assert_eq!(s.sort_by, SortBy::Modified);
    assert!(!s.sort_asc);
}

#[test]
fn rename_prompt_from_the_tree_requests_the_rename() {
    let mut s = Session::new("a.md".to_string(), 1, vec![line("x")]);
    s.handle_input(KeyInput { code: KeyCode::Char('\\'), ctrl: false });
    s.handle_input(KeyInput { code: KeyCode::Char('t'), ctrl: false });
    s.set_tree_root(&vec![entry("notes/a.md", false, 0)]);
    s.handle_input(KeyInput { code: KeyCode::Char('r'), ctrl: false });
    assert_eq!(s.mode, Mode::Command);
    s.handle_input(KeyInput { code: KeyCode::Char('z'), ctrl: false });
    s.handle_input(KeyInput { code: KeyCode::Char('.'), ctrl: false });
    s.handle_input(KeyInput { code: KeyCode::Char('m'), ctrl: false });
    s.handle_input(KeyInput { code: KeyCode::Char('d'), ctrl: false });
    let fx = s.handle_input(KeyInput { code: KeyCode::Enter, ctrl: false });
    assert_eq!(fx.len(), 1);
    match &fx[0] {
        Effect::RenameFile(old_path, new_name) => {
            assert_eq!(string(old_path), "notes/a.md");
            assert_eq!(string(new_name), "z.md");
        }
        _ => panic!("expected a rename request"),
    }
    assert_eq!(s.mode, Mode::FileTree);
}

#[test]
fn expanding_a_later_sibling_directory_keeps_its_children() {
    let mut s = Session::new("a.md".to_string(), 1, vec![line("x")]);
    s.handle_input(KeyInput { code: KeyCode::Char('\\'), ctrl: false });
    s.handle_input(KeyInput { code: KeyCode::Char('t'), ctrl: false });
    s.set_tree_root(&vec![entry("alpha", true, 0), entry("beta", true, 0)]);
    s.handle_input(KeyInput { code: KeyCode::Down, ctrl: false });
    let fx = s.handle_input(KeyInput { code: KeyCode::Right, ctrl: false });
    match &fx[0] {
        Effect::LoadDir(p) => assert_eq!(string(p), "beta"),
        _ => panic!("expected a directory load"),
    }
    s.set_dir_children(&line("beta"), &vec![entry("beta/inner.md", false, 0)]);
    assert_eq!(paths(&s.visible_items), vec!["alpha", "beta", "beta/inner.md"]);
}

#[test]
fn listing_filter_drops_hidden_and_foreign_files() {
    let raw = vec![
        entry(".hidden", false, 0),
        entry("dir", true, 0),
        entry("note.md", false, 0),
        entry("image.png", false, 0),
        entry("sub/.config", true, 0),
        entry("sub/inner.md", false, 0),
    ];
    let kept = filter_entries(&raw);
    let got: Vec<String> = kept.iter().map(|e| string(&e.path)).collect();
    assert_eq!(got, vec!["dir", "note.md", "sub/inner.md"]);
}
