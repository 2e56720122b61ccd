//! Wikilink handling and dated notes: extracting a `[[target]]`
//! reference from a line, turning a wikilink into the file name it
//! resolves to, collapsing duplicate backlinks with the
//! shortest-basename tie-break, and computing the names of the daily
//! notes from the calendar date.

use vstd::prelude::*;
use crate::buffer::clone_chars;
use crate::text::{slice_clamped, spec_find, spec_rfind};

verus! {

/// The target of the first complete wikilink of `line`: the characters
/// between the first `[[` and the first `]]` at or after it, if both
/// are present.
pub open spec fn spec_wikilink_of(line: Seq<char>) -> Option<Seq<char>> {
    let s = spec_find(line, seq!['[', '['], 0);
    if s < 0 {
        None
    } else {
        let e = spec_find(line, seq![']', ']'], s);
        if e < 0 {
            None
        } else {
            Some(line.subrange(s + 2, e))
        }
    }
}

/// Extracts the first complete wikilink target of `line`.
pub fn extract_wikilink(line: &Vec<char>) -> (r: Option<Vec<char>>)
    ensures
        match r {
            Some(w) => spec_wikilink_of(line@) matches Some(s) && w@ == s,
            None => spec_wikilink_of(line@) is None,
        },
{
    let mut open_pair: Vec<char> = Vec::new();
    open_pair.push('[');
    open_pair.push('[');
    let mut close_pair: Vec<char> = Vec::new();
    close_pair.push(']');
    close_pair.push(']');
    proof {
        assert(open_pair@ =~= seq!['[', '[']);
        assert(close_pair@ =~= seq![']', ']']);
    }
    match crate::text::find_sub_from(line, &open_pair, 0) {
        Some(s) => {
            match crate::text::find_sub_from(line, &close_pair, s) {
                Some(e) => {
                    let w = slice_clamped(line, s + 2, e);
                    proof {
                        if s + 2 <= e {
                            assert(w@ =~= line@.subrange(s + 2, e as int));
                        } else {
                            assert(e == s || e == s + 1);
                            assert(crate::text::occurs_at(line@, seq!['[', '['], s as int));
                            assert(crate::text::occurs_at(line@, seq![']', ']'], e as int));
                            assert(line@[s + 1] == '[');
                            assert(false);
                        }
                    }
                    Some(w)
                },
                None => None,
            }
        },
        None => None,
    }
}

/// The part of `p` after its last `/` — the whole of `p` when it has
/// none.
pub open spec fn spec_basename(p: Seq<char>) -> Seq<char> {
    p.subrange(spec_rfind(p, seq!['/'], p.len() as int) + 1, p.len() as int)
}

/// Whether `s` ends in `.md`.
pub open spec fn ends_in_md(s: Seq<char>) -> bool {
    s.len() >= 3 && s.subrange(s.len() - 3, s.len() as int) == seq!['.', 'm', 'd']
}

/// `s` with `.md` appended unless it already ends in it.
pub open spec fn with_md(s: Seq<char>) -> Seq<char> {
    if ends_in_md(s) {
        s
    } else {
        s + seq!['.', 'm', 'd']
    }
}

/// `w` without its trailing `/` separators.
pub open spec fn trim_trailing_slashes(w: Seq<char>) -> Seq<char>
    decreases w.len(),
{
    if w.len() > 0 && w.last() == '/' {
        trim_trailing_slashes(w.drop_last())
    } else {
        w
    }
}

/// The file name a wikilink resolves to: trailing `/` separators are
/// ignored, and the link's last path segment gets `.md` appended when
/// missing.  A link with no segment left after trimming, or whose last
/// segment is `.` or `..`, names no file of its own and falls back to
/// the link text itself.
pub open spec fn spec_wikilink_file_name(w: Seq<char>) -> Seq<char> {
    let t = trim_trailing_slashes(w);
    let b = spec_basename(t);
    if t.len() == 0 || b == seq!['.'] || b == seq!['.', '.'] {
        with_md(w)
    } else {
        with_md(b)
    }
}

/// Appends `.md` to `v` unless it already ends in it.
fn push_md_suffix(v: Vec<char>) -> (r: Vec<char>)
    ensures
        r@ == with_md(v@),
{
    let n = v.len();
    if n >= 3 && v[n - 3] == '.' && v[n - 2] == 'm' && v[n - 1] == 'd' {
        proof {
            assert(v@.subrange(v@.len() - 3, v@.len() as int) =~= seq!['.', 'm', 'd']);
        }
        v
    } else {
        let mut v = v;
        let ghost v0 = v@;
        proof {
            if v@.len() >= 3 {
                assert(v@.subrange(v@.len() - 3, v@.len() as int) != seq!['.', 'm', 'd']) by {
                    assert(v@.subrange(v@.len() - 3, v@.len() as int)[0] == v@[v@.len() - 3]);
                    assert(v@.subrange(v@.len() - 3, v@.len() as int)[1] == v@[v@.len() - 2]);
                    assert(v@.subrange(v@.len() - 3, v@.len() as int)[2] == v@[v@.len() - 1]);
                }
            }
        }
        v.push('.');
        v.push('m');
        v.push('d');
        proof {
            assert(v@ =~= v0 + seq!['.', 'm', 'd']);
        }
        v
    }
}

/// Computes the file name a wikilink resolves to.
pub fn wikilink_file_name(w: &Vec<char>) -> (r: Vec<char>)
    ensures
        r@ == spec_wikilink_file_name(w@),
{
    let mut trimmed = clone_chars(w);
    while trimmed.len() > 0 && trimmed[trimmed.len() - 1] == '/'
        invariant
            trim_trailing_slashes(w@) == trim_trailing_slashes(trimmed@),
        decreases trimmed@.len(),
    {
        trimmed.pop();
    }
    proof {
        assert(trimmed@ == trim_trailing_slashes(w@));
    }
    let mut slash: Vec<char> = Vec::new();
    slash.push('/');
    proof {
        assert(slash@ =~= seq!['/']);
    }
    let base = match crate::text::rfind_sub_before(&trimmed, &slash, trimmed.len()) {
        Some(i) => slice_clamped(&trimmed, i + 1, trimmed.len()),
        None => clone_chars(&trimmed),
    };
    proof {
        assert(base@ =~= spec_basename(trimmed@));
    }
    let n = base.len();
    let dotted = (n == 1 && base[0] == '.') || (n == 2 && base[0] == '.' && base[1] == '.');
    proof {
        if n == 1 && base@[0] == '.' {
            assert(base@ =~= seq!['.']);
        }
        if n == 2 && base@[0] == '.' && base@[1] == '.' {
            assert(base@ =~= seq!['.', '.']);
        }
        if !dotted {
            assert(base@ != seq!['.'] && base@ != seq!['.', '.']) by {
                if base@ == seq!['.'] {
                    assert(base@.len() == 1 && base@[0] == '.');
                }
                if base@ == seq!['.', '.'] {
                    assert(base@.len() == 2 && base@[0] == '.' && base@[1] == '.');
                }
            }
        }
    }
    if trimmed.len() == 0 || dotted {
        push_md_suffix(clone_chars(w))
    } else {
        push_md_suffix(base)
    }
}

/// Whether a line holds an incomplete wikilink: an opening `[[` with
/// no closing `]]` anywhere on the line.
pub open spec fn spec_strip_needed(line: Seq<char>) -> bool {
    crate::text::contains_seq(line, seq!['[', '[']) && !crate::text::contains_seq(
        line,
        seq![']', ']'],
    )
}

/// The line after incomplete-wikilink cleanup: everything from the
/// last unmatched `[[` to the end of the line is removed; a line with
/// no incomplete link is left alone.
pub open spec fn spec_stripped_line(line: Seq<char>) -> Seq<char> {
    if spec_strip_needed(line) {
        line.take(spec_rfind(line, seq!['[', '['], line.len() as int))
    } else {
        line
    }
}

/// One backlink row as the index reports it: the link text, the id of
/// the document it leads to, and that document's path.
pub struct BacklinkRow {
    pub label: Vec<char>,
    pub file_id: i64,
    pub path: Vec<char>,
}

/// A backlink row at the specification level.
pub struct RowModel {
    pub label: Seq<char>,
    pub file_id: int,
    pub path: Seq<char>,
}

impl BacklinkRow {
    pub open spec fn model(&self) -> RowModel {
        RowModel { label: self.label@, file_id: self.file_id as int, path: self.path@ }
    }
}

/// The rows as models.
pub open spec fn models_of(rows: Seq<BacklinkRow>) -> Seq<RowModel> {
    Seq::new(rows.len(), |i: int| rows[i].model())
}

/// UTF-8 byte length of the basename of `p` — the measure of the
/// shortest-basename tie-break.
pub open spec fn basename_len(p: Seq<char>) -> int {
    crate::text::byte_len(spec_basename(p)) as int
}

/// Duplicate collapse, one row at a time from the left: a row whose
/// label is new is kept; a row whose label was already seen replaces
/// the earlier winner exactly when its document's basename is strictly
/// shorter.
pub open spec fn spec_dedup(rows: Seq<RowModel>) -> Seq<RowModel>
    decreases rows.len(),
{
    if rows.len() == 0 {
        Seq::empty()
    } else {
        let prev = spec_dedup(rows.drop_last());
        let r = rows.last();
        if exists|j: int| 0 <= j < prev.len() && (#[trigger] prev[j]).label == r.label {
            let j = choose|j: int| 0 <= j < prev.len() && (#[trigger] prev[j]).label == r.label;
            if basename_len(r.path) < basename_len(prev[j].path) {
                prev.update(j, r)
            } else {
                prev
            }
        } else {
            prev.push(r)
        }
    }
}

/// UTF-8 byte length of the basename of `p`, computed.  A `u128`
/// holds the sum for any machine-sized path.
fn basename_len_of(p: &Vec<char>) -> (n: u128)
    ensures
        n == basename_len(p@),
{
    let mut slash: Vec<char> = Vec::new();
    slash.push('/');
    proof {
        assert(slash@ =~= seq!['/']);
    }
    let start = match crate::text::rfind_sub_before(p, &slash, p.len()) {
        Some(i) => i + 1,
        None => 0,
    };
    let ghost b = spec_basename(p@);
    proof {
        assert(b =~= p@.subrange(start as int, p@.len() as int));
    }
    let mut k: usize = start;
    let mut sum: u128 = 0;
    while k < p.len()
        invariant
            start <= k <= p@.len(),
            p@.len() == p.len(),
            b == p@.subrange(start as int, p@.len() as int),
            sum == crate::text::byte_offset_of(b, k - start),
            sum <= 4 * (k - start),
        decreases p@.len() - k,
    {
        proof {
            crate::text::lemma_byte_offset_step(b, k - start);
            assert(b[k - start] == p@[k as int]);
        }
        sum = sum + crate::text::utf8_len_of(p[k]) as u128;
        k = k + 1;
    }
    sum
}

/// Collapses duplicate backlink labels, keeping for each label the row
/// whose document has the shortest basename (the earlier row winning
/// ties), in first-seen order.
pub fn dedup_backlinks(rows: &Vec<BacklinkRow>) -> (r: Vec<BacklinkRow>)
    ensures
        models_of(r@) == spec_dedup(models_of(rows@)),
        forall|j1: int, j2: int|
            0 <= j1 < j2 < r@.len() ==> (#[trigger] r@[j1]).label@ != (#[trigger] r@[j2]).label@,
{
    let mut out: Vec<BacklinkRow> = Vec::new();
    let mut i: usize = 0;
    while i < rows.len()
        invariant
            0 <= i <= rows@.len(),
            models_of(out@) =~= spec_dedup(models_of(rows@).take(i as int)),
            forall|j1: int, j2: int|
                0 <= j1 < j2 < out@.len() ==> (#[trigger] out@[j1]).label@ != (
                #[trigger] out@[j2]).label@,
        decreases rows@.len() - i,
    {
        let row = &rows[i];
        let mut found_at: Option<usize> = None;
        let mut j: usize = 0;
        while found_at.is_none() && j < out.len()
            invariant
                0 <= j <= out@.len(),
                i < rows@.len(),
                *row == rows@[i as int],
                match found_at {
                    Some(k) => k < out@.len() && out@[k as int].label@ == rows@[i as int].label@,
                    None => forall|k: int|
                        0 <= k < j ==> (#[trigger] out@[k]).label@ != rows@[i as int].label@,
                },
            decreases out@.len() - j + (if found_at is None {
                1int
            } else {
                0int
            }),
        {
            if crate::text::eq_chars(&out[j].label, &row.label) {
                found_at = Some(j);
            } else {
                j = j + 1;
            }
        }
        proof {
            assert(models_of(rows@).take(i + 1).drop_last() =~= models_of(rows@).take(i as int));
            assert(models_of(rows@).take(i + 1).last() == rows@[i as int].model());
        }
        match found_at {
            Some(j) => {
                proof {
                    let prev = spec_dedup(models_of(rows@).take(i as int));
                    assert(prev[j as int] == out@[j as int].model());
                    let jj = choose|k: int|
                        0 <= k < prev.len() && (#[trigger] prev[k]).label
                            == rows@[i as int].model().label;
                    assert(prev[j as int].label == rows@[i as int].model().label);
                    assert(prev[jj] == out@[jj].model());
                    assert(jj == j);
                }
                let new_len = basename_len_of(&row.path);
                let cur_len = basename_len_of(&out[j].path);
                if new_len < cur_len {
                    let replacement = BacklinkRow {
                        label: clone_chars(&row.label),
                        file_id: row.file_id,
                        path: clone_chars(&row.path),
                    };
                    proof {
                        assert(replacement.model() == rows@[i as int].model());
                    }
                    out.remove(j);
                    out.insert(j, replacement);
                    proof {
                        assert(models_of(out@) =~= spec_dedup(models_of(rows@).take(i + 1)));
                    }
                }
            },
            None => {
                proof {
                    let prev = spec_dedup(models_of(rows@).take(i as int));
                    assert forall|k: int|
                        0 <= k < prev.len() implies (#[trigger] prev[k]).label != rows@[i
                        as int].model().label by {
                        assert(prev[k] == out@[k].model());
                    }
                }
                let addition = BacklinkRow {
                    label: clone_chars(&row.label),
                    file_id: row.file_id,
                    path: clone_chars(&row.path),
                };
                proof {
                    assert(addition.model() == rows@[i as int].model());
                }
                out.push(addition);
                proof {
                    assert(models_of(out@) =~= spec_dedup(models_of(rows@).take(i + 1)));
                }
            },
        }
        i = i + 1;
    }
    proof {
        assert(models_of(rows@).take(rows@.len() as int) =~= models_of(rows@));
    }
    out
}

/// Whether `y` is a leap year of the Gregorian calendar.
pub open spec fn is_leap_year(y: int) -> bool {
    y % 4 == 0 && (y % 100 != 0 || y % 400 == 0)
}

/// Days in month `m` of year `y`.
pub open spec fn days_in_month(y: int, m: int) -> int {
    if m == 1 || m == 3 || m == 5 || m == 7 || m == 8 || m == 10 || m == 12 {
        31
    } else if m == 4 || m == 6 || m == 9 || m == 11 {
        30
    } else if is_leap_year(y) {
        29
    } else {
        28
    }
}

/// A valid calendar date.
pub open spec fn valid_date(y: int, m: int, d: int) -> bool {
    1 <= m <= 12 && 1 <= d <= days_in_month(y, m)
}

/// The day after `(y, m, d)`.
pub open spec fn spec_next_day(y: int, m: int, d: int) -> (int, int, int) {
    if d < days_in_month(y, m) {
        (y, m, d + 1)
    } else if m < 12 {
        (y, m + 1, 1)
    } else {
        (y + 1, 1, 1)
    }
}

/// The day before `(y, m, d)`.
pub open spec fn spec_prev_day(y: int, m: int, d: int) -> (int, int, int) {
    if d > 1 {
        (y, m, d - 1)
    } else if m > 1 {
        (y, m - 1, days_in_month(y, m - 1))
    } else {
        (y - 1, 12, 31)
    }
}

/// Days in month `m` of year `y`, computed (for the years of the
/// common era, which are the only ones the note names can carry).
pub fn days_in_month_of(y: i32, m: u8) -> (n: u8)
    requires
        0 <= y,
        1 <= m <= 12,
    ensures
        n == days_in_month(y as int, m as int),
{
    if m == 1 || m == 3 || m == 5 || m == 7 || m == 8 || m == 10 || m == 12 {
        31
    } else if m == 4 || m == 6 || m == 9 || m == 11 {
        30
    } else if y % 4 == 0 && (y % 100 != 0 || y % 400 == 0) {
        29
    } else {
        28
    }
}

/// The day after the given date.
pub fn next_day(y: i32, m: u8, d: u8) -> (r: (i32, u8, u8))
    requires
        0 <= y,
        valid_date(y as int, m as int, d as int),
        y < i32::MAX,
    ensures
        (r.0 as int, r.1 as int, r.2 as int) == spec_next_day(y as int, m as int, d as int),
        valid_date(r.0 as int, r.1 as int, r.2 as int),
{
    let dim = days_in_month_of(y, m);
    if d < dim {
        (y, m, d + 1)
    } else if m < 12 {
        (y, m + 1, 1)
    } else {
        (y + 1, 1, 1)
    }
}

/// The day before the given date.
pub fn prev_day(y: i32, m: u8, d: u8) -> (r: (i32, u8, u8))
    requires
        0 < y,
        valid_date(y as int, m as int, d as int),
    ensures
        (r.0 as int, r.1 as int, r.2 as int) == spec_prev_day(y as int, m as int, d as int),
        valid_date(r.0 as int, r.1 as int, r.2 as int),
{
    if d > 1 {
        (y, m, d - 1)
    } else if m > 1 {
        let pm = m - 1;
        (y, pm, days_in_month_of(y, pm))
    } else {
        (y - 1, 12, 31)
    }
}

/// The decimal digit `d` as a character.
pub open spec fn digit_char(d: int) -> char {
    if d == 0 {
        '0'
    } else if d == 1 {
        '1'
    } else if d == 2 {
        '2'
    } else if d == 3 {
        '3'
    } else if d == 4 {
        '4'
    } else if d == 5 {
        '5'
    } else if d == 6 {
        '6'
    } else if d == 7 {
        '7'
    } else if d == 8 {
        '8'
    } else {
        '9'
    }
}

/// The decimal digit `d` as a character, computed.
fn digit_char_of(d: u32) -> (c: char)
    requires
        d <= 9,
    ensures
        c == digit_char(d as int),
{
    if d == 0 {
        '0'
    } else if d == 1 {
        '1'
    } else if d == 2 {
        '2'
    } else if d == 3 {
        '3'
    } else if d == 4 {
        '4'
    } else if d == 5 {
        '5'
    } else if d == 6 {
        '6'
    } else if d == 7 {
        '7'
    } else if d == 8 {
        '8'
    } else {
        '9'
    }
}

/// The name of the dated note for `(y, m, d)`: the daily-notes folder
/// followed by the zero-padded date and the `.md` suffix.
pub open spec fn spec_daily_note_name(y: int, m: int, d: int) -> Seq<char> {
    seq!['E', 'v', 'e', 'r', 'y', ' ', 'd', 'a', 'y', ' ', 'i', 'n', 'f', 'o', '/'] + seq![
        digit_char(y / 1000),
        digit_char((y / 100) % 10),
        digit_char((y / 10) % 10),
        digit_char(y % 10),
        '-',
        digit_char(m / 10),
        digit_char(m % 10),
        '-',
        digit_char(d / 10),
        digit_char(d % 10),
    ] + seq!['.', 'm', 'd']
}

/// Builds the dated note name for a date whose year has at most four
/// digits.
pub fn daily_note_name(y: i32, m: u8, d: u8) -> (r: Vec<char>)
    requires
        0 <= y <= 9999,
        1 <= m <= 12,
        1 <= d <= 31,
    ensures
        r@ == spec_daily_note_name(y as int, m as int, d as int),
{
    let mut out: Vec<char> = Vec::new();
    out.push('E');
    out.push('v');
    out.push('e');
    out.push('r');
    out.push('y');
    out.push(' ');
    out.push('d');
    out.push('a');
    out.push('y');
    out.push(' ');
    out.push('i');
    out.push('n');
    out.push('f');
    out.push('o');
    out.push('/');
    let yu = y as u32;
    out.push(digit_char_of(yu / 1000));
    out.push(digit_char_of((yu / 100) % 10));
    out.push(digit_char_of((yu / 10) % 10));
    out.push(digit_char_of(yu % 10));
    out.push('-');
    let mu = m as u32;
    out.push(digit_char_of(mu / 10));
    out.push(digit_char_of(mu % 10));
    out.push('-');
    let du = d as u32;
    out.push(digit_char_of(du / 10));
    out.push(digit_char_of(du % 10));
    out.push('.');
    out.push('m');
    out.push('d');
    proof {
        assert(out@ =~= spec_daily_note_name(y as int, m as int, d as int));
    }
    out
}

/// Relies on `chrono::Local::now` and the `Datelike` accessors
/// (`year`, `month`, `day`): the local calendar date, a valid date
/// with the month in 1..=12 and the year inside chrono's representable
/// range.
#[verifier::external_body]
pub fn local_date_today() -> (r: (i32, u8, u8))
    ensures
        -262143 <= r.0 <= 262142,
        valid_date(r.0 as int, r.1 as int, r.2 as int),
{
    let now = chrono::Local::now().date_naive();
    let m = chrono::Datelike::month(&now) as u8;
    let d = chrono::Datelike::day(&now) as u8;
    (chrono::Datelike::year(&now), m, d)
}

} // verus!
