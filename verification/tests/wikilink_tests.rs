use midetor::wikilink::{
    daily_note_name, dedup_backlinks, extract_wikilink, local_date_today, next_day, prev_day,
    wikilink_file_name, BacklinkRow,
};

fn line(s: &str) -> Vec<char> {
    s.chars().collect()
}

fn string(v: &Vec<char>) -> String {
    v.iter().collect()
}

#[test]
fn extracts_first_complete_wikilink() {
    assert_eq!(
        extract_wikilink(&line("see [[notes/foo]] ok")).map(|v| string(&v)),
        Some("notes/foo".to_string())
    );
    assert_eq!(
        extract_wikilink(&line("[[a]] and [[b]]")).map(|v| string(&v)),
        Some("a".to_string())
    );
    assert_eq!(extract_wikilink(&line("no link here")), None);
    assert_eq!(extract_wikilink(&line("open [[only")), None);
    assert_eq!(extract_wikilink(&line("[[]] empty")).map(|v| string(&v)), Some(String::new()));
}

#[test]
fn wikilink_file_name_takes_basename_and_appends_md() {
    assert_eq!(string(&wikilink_file_name(&line("notes/foo"))), "foo.md");
    assert_eq!(string(&wikilink_file_name(&line("foo"))), "foo.md");
    assert_eq!(string(&wikilink_file_name(&line("a/b/c.md"))), "c.md");
    assert_eq!(string(&wikilink_file_name(&line("foo.md"))), "foo.md");
}

#[test]
fn wikilink_file_name_ignores_trailing_separators() {
    assert_eq!(string(&wikilink_file_name(&line("a/"))), "a.md");
    assert_eq!(string(&wikilink_file_name(&line("dir/sub//"))), "sub.md");
}

#[test]
fn wikilink_file_name_falls_back_on_dot_segments() {
    assert_eq!(string(&wikilink_file_name(&line("a/.."))), "a/...md");
    assert_eq!(string(&wikilink_file_name(&line(".."))), "...md");
}

#[test]
fn duplicate_backlinks_keep_the_shortest_basename() {
    let rows = vec![
        BacklinkRow { label: line("projects"), file_id: 1, path: line("deep/projects-overview.md") },
        BacklinkRow { label: line("other"), file_id: 2, path: line("other.md") },
        BacklinkRow { label: line("projects"), file_id: 3, path: line("p.md") },
    ];
    let out = dedup_backlinks(&rows);
    assert_eq!(out.len(), 2);
    assert_eq!(string(&out[0].label), "projects");
    assert_eq!(out[0].file_id, 3);
    assert_eq!(string(&out[1].label), "other");
    assert_eq!(out[1].file_id, 2);
}

#[test]
fn basename_tie_break_compares_byte_lengths() {
    let rows = vec![
        BacklinkRow { label: line("x"), file_id: 1, path: line("abc.md") },
        BacklinkRow { label: line("x"), file_id: 2, path: line("\u{e9}\u{e9}.md") },
    ];
    let out = dedup_backlinks(&rows);
    assert_eq!(out.len(), 1);
    assert_eq!(out[0].file_id, 1);
}

#[test]
fn duplicate_backlink_with_longer_basename_does_not_replace() {
    let rows = vec![
        BacklinkRow { label: line("x"), file_id: 1, path: line("a/short.md") },
        BacklinkRow { label: line("x"), file_id: 2, path: line("a/muchlongername.md") },
    ];
    let out = dedup_backlinks(&rows);
    assert_eq!(out.len(), 1);
    assert_eq!(out[0].file_id, 1);
}

#[test]
fn next_day_handles_month_year_and_leap_boundaries() {
    assert_eq!(next_day(2024, 2, 28), (2024, 2, 29));
    assert_eq!(next_day(2023, 2, 28), (2023, 3, 1));
    assert_eq!(next_day(2023, 12, 31), (2024, 1, 1));
    assert_eq!(next_day(1900, 2, 28), (1900, 3, 1));
    assert_eq!(next_day(2000, 2, 28), (2000, 2, 29));
}

#[test]
fn prev_day_handles_month_year_and_leap_boundaries() {
    assert_eq!(prev_day(2024, 3, 1), (2024, 2, 29));
    assert_eq!(prev_day(2023, 3, 1), (2023, 2, 28));
    assert_eq!(prev_day(2024, 1, 1), (2023, 12, 31));
    assert_eq!(prev_day(2024, 2, 10), (2024, 2, 9));
}

#[test]
fn daily_note_name_is_zero_padded() {
    assert_eq!(string(&daily_note_name(2024, 3, 7)), "Every day info/2024-03-07.md");
    assert_eq!(string(&daily_note_name(987, 12, 31)), "Every day info/0987-12-31.md");
}

#[test]
fn clock_date_is_a_valid_calendar_date() {
    let (y, m, d) = local_date_today();
    assert!((1..=12).contains(&m));
    assert!(d >= 1);
    let dim = match m {
        1 | 3 | 5 | 7 | 8 | 10 | 12 => 31,
        4 | 6 | 9 | 11 => 30,
        _ => {
            if y % 4 == 0 && (y % 100 != 0 || y % 400 == 0) {
                29
            } else {
                28
            }
        }
    };
    assert!(d <= dim);
}
