//! The line buffer: an ordered sequence of text lines, a cursor given
//! as `(row, col)` with `col` a character offset, and an undo/redo
//! history of whole-content snapshots.
//!
//! Every content-mutating operation pushes a snapshot of the previous
//! state onto the undo stack and clears the redo stack; pure cursor
//! motions never touch the history.  `undo` restores the most recent
//! snapshot and moves the replaced state to the redo stack; `redo` is
//! the mirror operation.

use vstd::prelude::*;

verus! {

/// One entry of the undo or redo history: the full line contents and
/// the cursor at the time the snapshot was taken.
pub struct Snapshot {
    pub lines: Vec<Vec<char>>,
    pub row: usize,
    pub col: usize,
}

/// The document buffer.
pub struct TextBuffer {
    pub lines: Vec<Vec<char>>,
    pub row: usize,
    pub col: usize,
    pub undo_stack: Vec<Snapshot>,
    pub redo_stack: Vec<Snapshot>,
}

/// The mathematical content of a sequence of lines.
pub open spec fn text_of(lines: Seq<Vec<char>>) -> Seq<Seq<char>> {
    Seq::new(lines.len(), |i: int| lines[i]@)
}

/// Snapshot state at the specification level.
pub struct SnapModel {
    pub text: Seq<Seq<char>>,
    pub row: int,
    pub col: int,
}

/// Buffer state at the specification level.
pub struct BufModel {
    pub text: Seq<Seq<char>>,
    pub row: int,
    pub col: int,
    pub undo: Seq<SnapModel>,
    pub redo: Seq<SnapModel>,
}

/// A well-formed snapshot model: at least one line and a cursor inside
/// the content.
pub open spec fn snap_wf(s: SnapModel) -> bool {
    &&& s.text.len() >= 1
    &&& 0 <= s.row < s.text.len()
    &&& 0 <= s.col <= s.text[s.row].len()
}

/// A well-formed snapshot value.
pub open spec fn snapshot_wf(s: Snapshot) -> bool {
    &&& s.lines.len() >= 1
    &&& s.row < s.lines.len()
    &&& s.col <= s.lines@[s.row as int]@.len()
}

impl Snapshot {
    pub open spec fn model(&self) -> SnapModel {
        SnapModel { text: text_of(self.lines@), row: self.row as int, col: self.col as int }
    }
}

/// The snapshot taken of a buffer state.
pub open spec fn snap_of(m: BufModel) -> SnapModel {
    SnapModel { text: m.text, row: m.row, col: m.col }
}

impl BufModel {
    /// The buffer invariant at the specification level.
    pub open spec fn wf(self) -> bool {
        &&& snap_wf(snap_of(self))
        &&& forall|i: int| 0 <= i < self.undo.len() ==> snap_wf(#[trigger] self.undo[i])
        &&& forall|i: int| 0 <= i < self.redo.len() ==> snap_wf(#[trigger] self.redo[i])
    }
}

/// Inserting one character at the cursor, at the specification level.
pub open spec fn spec_insert_char(m: BufModel, c: char) -> BufModel {
    BufModel {
        text: m.text.update(m.row, m.text[m.row].insert(m.col, c)),
        row: m.row,
        col: m.col + 1,
        undo: m.undo.push(snap_of(m)),
        redo: Seq::empty(),
    }
}

/// Undoing once, at the specification level: a no-op on an empty undo
/// stack, otherwise the most recent snapshot is restored and the
/// replaced state becomes redoable.
pub open spec fn spec_undo(m: BufModel) -> BufModel {
    if m.undo.len() == 0 {
        m
    } else {
        let s = m.undo.last();
        BufModel {
            text: s.text,
            row: s.row,
            col: s.col,
            undo: m.undo.drop_last(),
            redo: m.redo.push(snap_of(m)),
        }
    }
}

/// Redoing once, at the specification level.
pub open spec fn spec_redo(m: BufModel) -> BufModel {
    if m.redo.len() == 0 {
        m
    } else {
        let s = m.redo.last();
        BufModel {
            text: s.text,
            row: s.row,
            col: s.col,
            undo: m.undo.push(snap_of(m)),
            redo: m.redo.drop_last(),
        }
    }
}

/// Splitting the line at the cursor, at the specification level.
pub open spec fn spec_newline(m: BufModel) -> BufModel {
    BufModel {
        text: m.text.take(m.row) + seq![m.text[m.row].take(m.col), m.text[m.row].skip(m.col)]
            + m.text.skip(m.row + 1),
        row: m.row + 1,
        col: 0,
        undo: m.undo.push(snap_of(m)),
        redo: Seq::empty(),
    }
}

/// Deleting the character before the cursor, at the specification
/// level: at a line head the line joins the previous one, and at the
/// very start of the document nothing happens.
pub open spec fn spec_backspace(m: BufModel) -> BufModel {
    if m.col > 0 {
        BufModel {
            text: m.text.update(m.row, m.text[m.row].remove(m.col - 1)),
            row: m.row,
            col: m.col - 1,
            undo: m.undo.push(snap_of(m)),
            redo: Seq::empty(),
        }
    } else if m.row > 0 {
        BufModel {
            text: m.text.update(m.row - 1, m.text[m.row - 1] + m.text[m.row]).remove(m.row),
            row: m.row - 1,
            col: m.text[m.row - 1].len() as int,
            undo: m.undo.push(snap_of(m)),
            redo: Seq::empty(),
        }
    } else {
        m
    }
}

/// Deleting the character under the cursor, at the specification
/// level: at a line end the next line joins this one, and at the very
/// end of the document nothing happens.
pub open spec fn spec_delete_next(m: BufModel) -> BufModel {
    if m.col < m.text[m.row].len() {
        BufModel {
            text: m.text.update(m.row, m.text[m.row].remove(m.col)),
            row: m.row,
            col: m.col,
            undo: m.undo.push(snap_of(m)),
            redo: Seq::empty(),
        }
    } else if m.row + 1 < m.text.len() {
        BufModel {
            text: m.text.update(m.row, m.text[m.row] + m.text[m.row + 1]).remove(m.row + 1),
            row: m.row,
            col: m.col,
            undo: m.undo.push(snap_of(m)),
            redo: Seq::empty(),
        }
    } else {
        m
    }
}

/// Deleting from the cursor to the end of the line, at the
/// specification level: at a line end the next line joins this one,
/// and at the very end of the document nothing happens.
pub open spec fn spec_delete_to_end(m: BufModel) -> BufModel {
    if m.col < m.text[m.row].len() {
        BufModel {
            text: m.text.update(m.row, m.text[m.row].take(m.col)),
            row: m.row,
            col: m.col,
            undo: m.undo.push(snap_of(m)),
            redo: Seq::empty(),
        }
    } else if m.row + 1 < m.text.len() {
        BufModel {
            text: m.text.update(m.row, m.text[m.row] + m.text[m.row + 1]).remove(m.row + 1),
            row: m.row,
            col: m.col,
            undo: m.undo.push(snap_of(m)),
            redo: Seq::empty(),
        }
    } else {
        m
    }
}

/// Pasting lines below the current row, at the specification level.
pub open spec fn spec_paste_after(m: BufModel, rows: Seq<Seq<char>>) -> BufModel {
    let eff = if rows.len() == 0 {
        seq![Seq::<char>::empty()]
    } else {
        rows
    };
    BufModel {
        text: m.text.take(m.row + 1) + eff + m.text.skip(m.row + 1),
        row: m.row + eff.len(),
        col: eff.last().len() as int,
        undo: m.undo.push(snap_of(m)),
        redo: Seq::empty(),
    }
}

/// Replacing the character range `[start, end)` of the cursor's line
/// with `repl`, at the specification level; the cursor lands after the
/// replacement.
pub open spec fn spec_replace_in_line(m: BufModel, start: int, end: int, repl: Seq<char>) -> BufModel {
    BufModel {
        text: m.text.update(m.row, m.text[m.row].take(start) + repl + m.text[m.row].skip(end)),
        row: m.row,
        col: start + repl.len(),
        undo: m.undo.push(snap_of(m)),
        redo: Seq::empty(),
    }
}

/// A sequence of single-character insertions, applied left to right.
pub open spec fn apply_inserts(m: BufModel, cs: Seq<char>) -> BufModel
    decreases cs.len(),
{
    if cs.len() == 0 {
        m
    } else {
        apply_inserts(spec_insert_char(m, cs[0]), cs.drop_first())
    }
}

/// `n` undos in a row.
pub open spec fn apply_undos(m: BufModel, n: nat) -> BufModel
    decreases n,
{
    if n == 0 {
        m
    } else {
        apply_undos(spec_undo(m), (n - 1) as nat)
    }
}

/// Peeling an undo off the other end of the iteration.
proof fn lemma_undos_unpeel(m: BufModel, n: nat)
    ensures
        apply_undos(m, n + 1) == spec_undo(apply_undos(m, n)),
    decreases n,
{
    if n == 0 {
        assert(apply_undos(m, 1) == apply_undos(spec_undo(m), 0));
        assert(apply_undos(m, 0) == m);
    } else {
        lemma_undos_unpeel(spec_undo(m), (n - 1) as nat);
        assert(apply_undos(m, n + 1) == apply_undos(spec_undo(m), n));
        assert(apply_undos(m, n) == apply_undos(spec_undo(m), (n - 1) as nat));
    }
}

/// Undo/redo round trip: after any sequence of character insertions
/// followed by an equal number of undos, the buffer content, the
/// cursor, and the undo stack are exactly what they were before the
/// insertions.
pub proof fn lemma_undos_reverse_inserts(m: BufModel, cs: Seq<char>)
    ensures
        apply_undos(apply_inserts(m, cs), cs.len()).text == m.text,
        apply_undos(apply_inserts(m, cs), cs.len()).row == m.row,
        apply_undos(apply_inserts(m, cs), cs.len()).col == m.col,
        apply_undos(apply_inserts(m, cs), cs.len()).undo == m.undo,
    decreases cs.len(),
{
    if cs.len() > 0 {
        let m1 = spec_insert_char(m, cs[0]);
        let rest = cs.drop_first();
        lemma_undos_reverse_inserts(m1, rest);
        let z = apply_undos(apply_inserts(m1, rest), rest.len());
        lemma_undos_unpeel(apply_inserts(m1, rest), rest.len());
        assert(apply_inserts(m, cs) == apply_inserts(m1, rest));
        assert(apply_undos(apply_inserts(m, cs), cs.len()) == spec_undo(z));
        assert(z.undo == m1.undo);
        assert(m1.undo.last() == snap_of(m));
        assert(m1.undo.drop_last() =~= m.undo);
    }
}

/// An owned copy of one line.
pub fn clone_chars(v: &Vec<char>) -> (r: Vec<char>)
    ensures
        r@ == v@,
{
    let mut out: Vec<char> = Vec::new();
    let mut i: usize = 0;
    while i < v.len()
        invariant
            0 <= i <= v@.len(),
            out@ == v@.subrange(0, i as int),
        decreases v@.len() - i,
    {
        out.push(v[i]);
        proof {
            assert(out@ =~= v@.subrange(0, i + 1));
        }
        i = i + 1;
    }
    proof {
        assert(out@ =~= v@);
    }
    out
}

/// An owned copy of a whole line sequence.
pub fn clone_lines(v: &Vec<Vec<char>>) -> (r: Vec<Vec<char>>)
    ensures
        text_of(r@) == text_of(v@),
        r@.len() == v@.len(),
{
    let mut out: Vec<Vec<char>> = Vec::new();
    let mut i: usize = 0;
    while i < v.len()
        invariant
            0 <= i <= v@.len(),
            out@.len() == i,
            forall|k: int| 0 <= k < i ==> #[trigger] out@[k]@ == v@[k]@,
        decreases v@.len() - i,
    {
        out.push(clone_chars(&v[i]));
        i = i + 1;
    }
    proof {
        assert(text_of(out@) =~~= text_of(v@));
    }
    out
}

impl TextBuffer {
    /// The text content.
    pub open spec fn text(&self) -> Seq<Seq<char>> {
        text_of(self.lines@)
    }

    /// The buffer at the specification level.
    pub open spec fn model(&self) -> BufModel {
        BufModel {
            text: self.text(),
            row: self.row as int,
            col: self.col as int,
            undo: Seq::new(self.undo_stack@.len(), |i: int| self.undo_stack@[i].model()),
            redo: Seq::new(self.redo_stack@.len(), |i: int| self.redo_stack@[i].model()),
        }
    }

    /// The buffer invariant: at least one line, the cursor inside the
    /// content, and every history entry well formed in the same way.
    pub open spec fn wf(&self) -> bool {
        &&& self.lines.len() >= 1
        &&& self.row < self.lines.len()
        &&& self.col <= self.lines@[self.row as int]@.len()
        &&& forall|i: int|
            0 <= i < self.undo_stack.len() ==> snapshot_wf(#[trigger] self.undo_stack[i])
        &&& forall|i: int|
            0 <= i < self.redo_stack.len() ==> snapshot_wf(#[trigger] self.redo_stack[i])
    }

    /// A buffer holding `lines` (one empty line when `lines` is empty),
    /// with the cursor at the start and no history.
    pub fn from_lines(lines: Vec<Vec<char>>) -> (r: TextBuffer)
        ensures
            r.wf(),
            lines@.len() == 0 ==> r.text() =~= seq![Seq::<char>::empty()],
            lines@.len() > 0 ==> r.text() == text_of(lines@),
            r.row == 0 && r.col == 0,
            r.model().undo.len() == 0,
            r.model().redo.len() == 0,
    {
        let mut lines = lines;
        if lines.len() == 0 {
            lines.push(Vec::new());
        }
        let r = TextBuffer {
            lines,
            row: 0,
            col: 0,
            undo_stack: Vec::new(),
            redo_stack: Vec::new(),
        };
        proof {
            assert(r.model().undo =~= Seq::<SnapModel>::empty());
            assert(r.model().redo =~= Seq::<SnapModel>::empty());
        }
        r
    }

    /// Number of lines.
    pub fn line_count(&self) -> (n: usize)
        ensures
            n == self.text().len(),
    {
        self.lines.len()
    }

    /// The line at `r`.
    pub fn line_at(&self, r: usize) -> (l: &Vec<char>)
        requires
            r < self.text().len(),
        ensures
            l@ == self.text()[r as int],
    {
        &self.lines[r]
    }

    /// Character length of the line at `r`.
    pub fn line_len(&self, r: usize) -> (n: usize)
        requires
            r < self.text().len(),
        ensures
            n == self.text()[r as int].len(),
    {
        self.lines[r].len()
    }

    /// The cursor position.
    pub fn cursor(&self) -> (p: (usize, usize))
        ensures
            p.0 == self.row,
            p.1 == self.col,
    {
        (self.row, self.col)
    }

    /// Replaces the line at `r`, keeping everything else.
    pub(crate) fn set_line(&mut self, r: usize, line: Vec<char>)
        requires
            r < old(self).text().len(),
        ensures
            final(self).text() =~= old(self).text().update(r as int, line@),
            final(self).row == old(self).row,
            final(self).col == old(self).col,
            final(self).undo_stack == old(self).undo_stack,
            final(self).redo_stack == old(self).redo_stack,
            final(self).lines@.len() == old(self).lines@.len(),
            final(self).lines@[r as int] == line,
    {
        self.lines.remove(r);
        self.lines.insert(r, line);
        proof {
            assert(self.lines@ =~= old(self).lines@.update(r as int, line));
        }
    }

    /// Pushes a snapshot of the current state and clears the redo
    /// stack; the content and cursor stay as they are.
    pub(crate) fn push_snapshot(&mut self)
        requires
            old(self).wf(),
        ensures
            final(self).wf(),
            final(self).text() == old(self).text(),
            final(self).row == old(self).row,
            final(self).col == old(self).col,
            final(self).model().undo =~= old(self).model().undo.push(snap_of(old(self).model())),
            final(self).model().redo =~= Seq::<SnapModel>::empty(),
            final(self).lines == old(self).lines,
    {
        let snap = Snapshot { lines: clone_lines(&self.lines), row: self.row, col: self.col };
        proof {
            assert(snap.model() =~~= snap_of(self.model()));
            assert(text_of(snap.lines@)[self.row as int] == text_of(self.lines@)[self.row as int]);
            assert(snapshot_wf(snap));
        }
        self.undo_stack.push(snap);
        self.redo_stack = Vec::new();
        proof {
            assert(final(self).text() =~~= old(self).text());
            assert(final(self).model().undo =~= old(self).model().undo.push(
                snap_of(old(self).model()),
            ));
            assert(final(self).model().redo =~= Seq::<SnapModel>::empty());
        }
    }

    /// Inserts `c` at the cursor and advances the cursor one column;
    /// the previous state becomes undoable.
    pub fn insert_char(&mut self, c: char)
        requires
            old(self).wf(),
        ensures
            final(self).wf(),
            final(self).model() =~~= spec_insert_char(old(self).model(), c),
    {
        self.push_snapshot();
        let mut line = self.lines.remove(self.row);
        line.insert(self.col, c);
        let _n: usize = line.len();
        self.lines.insert(self.row, line);
        proof {
            assert(self.lines@ =~= old(self).lines@.update(
                old(self).row as int,
                self.lines@[old(self).row as int],
            ));
        }
        self.col = self.col + 1;
        proof {
            assert(final(self).text() =~~= spec_insert_char(old(self).model(), c).text);
            assert(final(self).model() =~~= spec_insert_char(old(self).model(), c));
        }
    }

    /// Undoes the most recent mutation; reports whether there was one.
    pub fn undo(&mut self) -> (r: bool)
        requires
            old(self).wf(),
        ensures
            final(self).wf(),
            r == (old(self).model().undo.len() > 0),
            final(self).model() =~~= spec_undo(old(self).model()),
    {
        match self.undo_stack.pop() {
            Some(snap) => {
                let cur = Snapshot { lines: clone_lines(&self.lines), row: self.row, col: self.col };
                proof {
                    assert(cur.model() =~~= snap_of(self.model()));
                    assert(old(self).model().undo.last() == snap.model());
                    assert(text_of(cur.lines@)[self.row as int] == text_of(
                        self.lines@,
                    )[self.row as int]);
                    assert(snapshot_wf(cur));
                    assert(snapshot_wf(snap));
                }
                self.redo_stack.push(cur);
                self.lines = snap.lines;
                self.row = snap.row;
                self.col = snap.col;
                proof {
                    assert(final(self).model().undo =~= old(self).model().undo.drop_last());
                    assert(final(self).model().redo =~= old(self).model().redo.push(
                        snap_of(old(self).model()),
                    ));
                    assert(final(self).model() =~~= spec_undo(old(self).model()));
                }
                true
            },
            None => {
                proof {
                    assert(old(self).model().undo =~= Seq::<SnapModel>::empty());
                    assert(final(self).model() =~~= spec_undo(old(self).model()));
                }
                false
            },
        }
    }

    /// Redoes the most recently undone mutation; reports whether there
    /// was one.
    pub fn redo(&mut self) -> (r: bool)
        requires
            old(self).wf(),
        ensures
            final(self).wf(),
            r == (old(self).model().redo.len() > 0),
            final(self).model() =~~= spec_redo(old(self).model()),
    {
        match self.redo_stack.pop() {
            Some(snap) => {
                let cur = Snapshot { lines: clone_lines(&self.lines), row: self.row, col: self.col };
                proof {
                    assert(cur.model() =~~= snap_of(self.model()));
                    assert(old(self).model().redo.last() == snap.model());
                    assert(text_of(cur.lines@)[self.row as int] == text_of(
                        self.lines@,
                    )[self.row as int]);
                    assert(snapshot_wf(cur));
                    assert(snapshot_wf(snap));
                }
                self.undo_stack.push(cur);
                self.lines = snap.lines;
                self.row = snap.row;
                self.col = snap.col;
                proof {
                    assert(final(self).model().redo =~= old(self).model().redo.drop_last());
                    assert(final(self).model().undo =~= old(self).model().undo.push(
                        snap_of(old(self).model()),
                    ));
                    assert(final(self).model() =~~= spec_redo(old(self).model()));
                }
                true
            },
            None => {
                proof {
                    assert(old(self).model().redo =~= Seq::<SnapModel>::empty());
                    assert(final(self).model() =~~= spec_redo(old(self).model()));
                }
                false
            },
        }
    }
}

/// The least `k` with `from <= k < s.len()` whose character's
/// spaceness equals `want`, or `s.len()` when there is none.
pub open spec fn spec_scan(s: Seq<char>, from: int, want: bool) -> int
    decreases
            if from < s.len() {
                s.len() - from
            } else {
                0
            },
{
    if !(0 <= from < s.len()) {
        s.len() as int
    } else if (s[from] == ' ') == want {
        from
    } else {
        spec_scan(s, from + 1, want)
    }
}

/// The greatest `k <= upto` such that every character of `s` in
/// `[k, upto)` has spaceness `want` — the backward scan of the
/// word-back motion.
pub open spec fn spec_scan_back(s: Seq<char>, upto: int, want: bool) -> int
    decreases
            if upto > 0 {
                upto
            } else {
                0
            },
{
    if upto <= 0 {
        0
    } else if 0 < upto <= s.len() && (s[upto - 1] == ' ') == want {
        spec_scan_back(s, upto - 1, want)
    } else {
        upto
    }
}

impl TextBuffer {
    /// Exec scan matching `spec_scan`.
    fn scan(line: &Vec<char>, from: usize, want: bool) -> (r: usize)
        requires
            from <= line@.len(),
        ensures
            r == spec_scan(line@, from as int, want),
            from <= r <= line@.len(),
    {
        let mut i: usize = from;
        while i < line.len()
            invariant
                from <= i <= line@.len(),
                spec_scan(line@, from as int, want) == spec_scan(line@, i as int, want),
            decreases line@.len() - i,
        {
            if (line[i] == ' ') == want {
                return i;
            }
            i = i + 1;
        }
        i
    }

    /// Exec backward scan matching `spec_scan_back`.
    fn scan_back(line: &Vec<char>, upto: usize, want: bool) -> (r: usize)
        requires
            upto <= line@.len(),
        ensures
            r == spec_scan_back(line@, upto as int, want),
            r <= upto,
    {
        let mut i: usize = upto;
        while i > 0 && (line[i - 1] == ' ') == want
            invariant
                i <= upto <= line@.len(),
                spec_scan_back(line@, upto as int, want) == spec_scan_back(line@, i as int, want),
            decreases i,
        {
            i = i - 1;
        }
        i
    }

    /// One column left; at a line head, to the end of the previous line.
    pub fn move_left(&mut self)
        requires
            old(self).wf(),
        ensures
            final(self).wf(),
            final(self).lines == old(self).lines,
            final(self).undo_stack == old(self).undo_stack,
            final(self).redo_stack == old(self).redo_stack,
            old(self).col > 0 ==> final(self).row == old(self).row && final(self).col == old(self).col - 1,
            old(self).col == 0 && old(self).row > 0 ==> final(self).row == old(self).row - 1
                && final(self).col == old(self).text()[old(self).row - 1].len(),
            old(self).col == 0 && old(self).row == 0 ==> final(self).row == old(self).row && final(self).col == 0,
    {
        if self.col > 0 {
            self.col = self.col - 1;
        } else if self.row > 0 {
            self.row = self.row - 1;
            self.col = self.lines[self.row].len();
        }
    }

    /// One column right; at a line end, to the head of the next line.
    pub fn move_right(&mut self)
        requires
            old(self).wf(),
        ensures
            final(self).wf(),
            final(self).lines == old(self).lines,
            final(self).undo_stack == old(self).undo_stack,
            final(self).redo_stack == old(self).redo_stack,
            old(self).col < old(self).text()[old(self).row as int].len() ==> final(self).row == old(self).row && final(self).col == old(self).col + 1,
            old(self).col == old(self).text()[old(self).row as int].len() && old(self).row + 1
                < old(self).text().len() ==> final(self).row == old(self).row + 1 && final(self).col == 0,
            old(self).col == old(self).text()[old(self).row as int].len() && old(self).row + 1
                == old(self).text().len() ==> final(self).row == old(self).row && final(self).col
                == old(self).col,
    {
        let len = self.lines[self.row].len();
        if self.col < len {
            self.col = self.col + 1;
        } else if self.row + 1 < self.lines.len() {
            self.row = self.row + 1;
            self.col = 0;
        }
    }

    /// One row up, the column clamped to the new line's length.
    pub fn move_up(&mut self)
        requires
            old(self).wf(),
        ensures
            final(self).wf(),
            final(self).lines == old(self).lines,
            final(self).undo_stack == old(self).undo_stack,
            final(self).redo_stack == old(self).redo_stack,
            old(self).row > 0 ==> final(self).row == old(self).row - 1 && final(self).col
                == vstd::math::min(old(self).col as int, old(self).text()[old(self).row - 1].len() as int),
            old(self).row == 0 ==> final(self).row == old(self).row && final(self).col == old(self).col,
    {
        if self.row > 0 {
            self.row = self.row - 1;
            let len = self.lines[self.row].len();
            if self.col > len {
                self.col = len;
            }
        }
    }

    /// One row down, the column clamped to the new line's length.
    pub fn move_down(&mut self)
        requires
            old(self).wf(),
        ensures
            final(self).wf(),
            final(self).lines == old(self).lines,
            final(self).undo_stack == old(self).undo_stack,
            final(self).redo_stack == old(self).redo_stack,
            old(self).row + 1 < old(self).text().len() ==> final(self).row == old(self).row + 1
                && final(self).col == vstd::math::min(
                old(self).col as int,
                old(self).text()[old(self).row + 1].len() as int,
            ),
            old(self).row + 1 == old(self).text().len() ==> final(self).row == old(self).row
                && final(self).col == old(self).col,
    {
        if self.row + 1 < self.lines.len() {
            self.row = self.row + 1;
            let len = self.lines[self.row].len();
            if self.col > len {
                self.col = len;
            }
        }
    }

    /// To the head of the current line.
    pub fn move_head(&mut self)
        requires
            old(self).wf(),
        ensures
            final(self).wf(),
            final(self).lines == old(self).lines,
            final(self).undo_stack == old(self).undo_stack,
            final(self).redo_stack == old(self).redo_stack,
            final(self).row == old(self).row,
            final(self).col == 0,
    {
        self.col = 0;
    }

    /// To the end of the current line.
    pub fn move_end(&mut self)
        requires
            old(self).wf(),
        ensures
            final(self).wf(),
            final(self).lines == old(self).lines,
            final(self).undo_stack == old(self).undo_stack,
            final(self).redo_stack == old(self).redo_stack,
            final(self).row == old(self).row,
            final(self).col == old(self).text()[old(self).row as int].len(),
    {
        self.col = self.lines[self.row].len();
    }

    /// To the first line, the column clamped to its length.
    pub fn move_top(&mut self)
        requires
            old(self).wf(),
        ensures
            final(self).wf(),
            final(self).lines == old(self).lines,
            final(self).undo_stack == old(self).undo_stack,
            final(self).redo_stack == old(self).redo_stack,
            final(self).row == 0,
            final(self).col == vstd::math::min(old(self).col as int, old(self).text()[0].len() as int),
    {
        self.row = 0;
        let len = self.lines[0].len();
        if self.col > len {
            self.col = len;
        }
    }

    /// To the last line, the column clamped to its length.
    pub fn move_bottom(&mut self)
        requires
            old(self).wf(),
        ensures
            final(self).wf(),
            final(self).lines == old(self).lines,
            final(self).undo_stack == old(self).undo_stack,
            final(self).redo_stack == old(self).redo_stack,
            final(self).row == old(self).text().len() - 1,
            final(self).col == vstd::math::min(
                old(self).col as int,
                old(self).text().last().len() as int,
            ),
    {
        self.row = self.lines.len() - 1;
        let len = self.lines[self.row].len();
        if self.col > len {
            self.col = len;
        }
    }

    /// To the start of the next word: past the current run of non-space
    /// characters and the spaces after it, or to the head of the next
    /// line when the rest of the line holds no further word.
    pub fn word_forward(&mut self)
        requires
            old(self).wf(),
        ensures
            final(self).wf(),
            final(self).lines == old(self).lines,
            final(self).undo_stack == old(self).undo_stack,
            final(self).redo_stack == old(self).redo_stack,
            ({
                let line = old(self).text()[old(self).row as int];
                let j = spec_scan(line, spec_scan(line, old(self).col as int, true), false);
                if old(self).col < line.len() && j < line.len() {
                    final(self).row == old(self).row && final(self).col == j
                } else if old(self).row + 1 < old(self).text().len() {
                    final(self).row == old(self).row + 1 && final(self).col == 0
                } else {
                    final(self).row == old(self).row && final(self).col == old(self).text()[old(self).row as int].len()
                }
            }),
    {
        let len = self.lines[self.row].len();
        if self.col < len {
            let i = Self::scan(&self.lines[self.row], self.col, true);
            let j = Self::scan(&self.lines[self.row], i, false);
            if j < len {
                self.col = j;
                return ;
            }
        }
        if self.row + 1 < self.lines.len() {
            self.row = self.row + 1;
            self.col = 0;
        } else {
            self.col = len;
        }
    }

    /// To the start of the previous word: back over the spaces before
    /// the cursor and then over the word before them, or to the end of
    /// the previous line from a line head.
    pub fn word_back(&mut self)
        requires
            old(self).wf(),
        ensures
            final(self).wf(),
            final(self).lines == old(self).lines,
            final(self).undo_stack == old(self).undo_stack,
            final(self).redo_stack == old(self).redo_stack,
            ({
                let line = old(self).text()[old(self).row as int];
                if old(self).col > 0 {
                    final(self).row == old(self).row && final(self).col == spec_scan_back(
                        line,
                        spec_scan_back(line, old(self).col as int, true),
                        false,
                    )
                } else if old(self).row > 0 {
                    final(self).row == old(self).row - 1 && final(self).col == old(self).text()[old(self).row - 1].len()
                } else {
                    final(self).row == old(self).row && final(self).col == old(self).col
                }
            }),
    {
        if self.col > 0 {
            let i = Self::scan_back(&self.lines[self.row], self.col, true);
            let j = Self::scan_back(&self.lines[self.row], i, false);
            self.col = j;
        } else if self.row > 0 {
            self.row = self.row - 1;
            self.col = self.lines[self.row].len();
        }
    }

    /// Splits the current line at the cursor; the cursor moves to the
    /// head of the new line.  The previous state becomes undoable.
    pub fn insert_newline(&mut self)
        requires
            old(self).wf(),
        ensures
            final(self).wf(),
            final(self).text() =~~= old(self).text().take(old(self).row as int) + seq![
                old(self).text()[old(self).row as int].take(old(self).col as int),
                old(self).text()[old(self).row as int].skip(old(self).col as int),
            ] + old(self).text().skip(old(self).row + 1),
            final(self).row == old(self).row + 1,
            final(self).col == 0,
            final(self).model().undo =~= old(self).model().undo.push(snap_of(old(self).model())),
            final(self).model().redo =~= Seq::<SnapModel>::empty(),
            final(self).model() =~~= spec_newline(old(self).model()),
    {
        self.push_snapshot();
        let prefix = crate::text::slice_clamped(&self.lines[self.row], 0, self.col);
        let len = self.lines[self.row].len();
        let suffix = crate::text::slice_clamped(&self.lines[self.row], self.col, len);
        proof {
            assert(prefix@ =~= old(self).text()[old(self).row as int].take(old(self).col as int));
            assert(suffix@ =~= old(self).text()[old(self).row as int].skip(old(self).col as int));
        }
        self.set_line(self.row, prefix);
        let ghost mid = self.lines@;
        self.lines.insert(self.row + 1, suffix);
        self.row = self.row + 1;
        self.col = 0;
        proof {
            let t0 = old(self).text();
            let r0 = old(self).row as int;
            let c0 = old(self).col as int;
            let rhs = t0.take(r0) + seq![t0[r0].take(c0), t0[r0].skip(c0)] + t0.skip(r0 + 1);
            assert(self.lines@ == mid.insert(r0 + 1, suffix));
            assert(text_of(mid) =~= t0.update(r0, prefix@));
            assert forall|k: int| 0 <= k < self.lines@.len() implies #[trigger] text_of(
                self.lines@,
            )[k] == rhs[k] by {
                if k <= r0 {
                    assert(self.lines@[k] == mid[k]);
                    assert(text_of(self.lines@)[k] == text_of(mid)[k]);
                } else if k == r0 + 1 {
                    assert(self.lines@[k] == suffix);
                } else {
                    assert(self.lines@[k] == mid[k - 1]);
                    assert(text_of(self.lines@)[k] == text_of(mid)[k - 1]);
                }
            }
            assert(final(self).text() =~~= rhs);
        }
    }

    /// Joins the line after `r` onto the end of the line at `r`.
    fn join_line_below(&mut self, r: usize)
        requires
            old(self).wf(),
            r + 1 < old(self).text().len(),
            old(self).row < old(self).text().len() - 1 || old(self).col <= old(self).text()[old(self).row as int].len(),
        ensures
            final(self).text() =~~= old(self).text().update(
                r as int,
                old(self).text()[r as int] + old(self).text()[r + 1],
            ).remove(r + 1),
            final(self).row == old(self).row,
            final(self).col == old(self).col,
            final(self).undo_stack == old(self).undo_stack,
            final(self).redo_stack == old(self).redo_stack,
            final(self).lines.len() == old(self).lines.len() - 1,
            final(self).lines@[r as int]@ == old(self).lines@[r as int]@ + old(self).lines@[r
                + 1]@,
    {
        let next = self.lines.remove(r + 1);
        let merged = crate::text::splice_lines(&self.lines[r], self.lines[r].len(), &next, 0);
        proof {
            assert(merged@ =~= old(self).text()[r as int] + old(self).text()[r + 1]);
        }
        let r2 = r;
        self.lines.remove(r2);
        self.lines.insert(r2, merged);
        proof {
            assert(self.lines@[r as int] == merged);
            assert(final(self).text() =~~= old(self).text().update(
                r as int,
                old(self).text()[r as int] + old(self).text()[r + 1],
            ).remove(r + 1));
        }
    }

    /// Deletes the character before the cursor; at a line head, joins
    /// the current line onto the previous one.  A no-op at the very
    /// start of the document, and only then is no snapshot pushed.
    pub fn delete_char_before(&mut self)
        requires
            old(self).wf(),
        ensures
            final(self).wf(),
            old(self).col > 0 ==> final(self).text() =~~= old(self).text().update(
                old(self).row as int,
                old(self).text()[old(self).row as int].remove(old(self).col - 1),
            ) && final(self).row == old(self).row && final(self).col == old(self).col - 1 && final(self).model().undo =~= old(self).model().undo.push(snap_of(old(self).model())),
            old(self).col == 0 && old(self).row > 0 ==> final(self).text() =~~= old(self).text().update(
                old(self).row - 1,
                old(self).text()[old(self).row - 1] + old(self).text()[old(self).row as int],
            ).remove(old(self).row as int) && final(self).row == old(self).row - 1 && final(self).col == old(self).text()[old(self).row - 1].len() && final(self).model().undo =~= old(self).model().undo.push(snap_of(old(self).model())),
            old(self).col == 0 && old(self).row == 0 ==> *final(self) == *old(self),
            final(self).model() =~~= spec_backspace(old(self).model()),
    {
        if self.col > 0 {
            self.push_snapshot();
            let mut line = self.lines.remove(self.row);
            line.remove(self.col - 1);
            let ghost lv = line@;
            let r = self.row;
            self.lines.insert(r, line);
            self.col = self.col - 1;
            proof {
                assert(self.lines@[r as int]@ == lv);
                assert(final(self).text() =~~= old(self).text().update(
                    old(self).row as int,
                    old(self).text()[old(self).row as int].remove(old(self).col - 1),
                ));
            }
        } else if self.row > 0 {
            self.push_snapshot();
            let prev_len = self.lines[self.row - 1].len();
            let r = self.row - 1;
            self.join_line_below(r);
            self.row = r;
            self.col = prev_len;
        }
    }

    /// Deletes the character under the cursor; at a line end, joins the
    /// next line onto the current one.  A no-op at the very end of the
    /// document, and only then is no snapshot pushed.
    pub fn delete_next_char(&mut self)
        requires
            old(self).wf(),
        ensures
            final(self).wf(),
            old(self).col < old(self).text()[old(self).row as int].len() ==> final(self).text()
                =~~= old(self).text().update(
                old(self).row as int,
                old(self).text()[old(self).row as int].remove(old(self).col as int),
            ) && final(self).row == old(self).row && final(self).col == old(self).col && final(self).model().undo =~= old(self).model().undo.push(snap_of(old(self).model())),
            old(self).col == old(self).text()[old(self).row as int].len() && old(self).row + 1
                < old(self).text().len() ==> final(self).text() =~~= old(self).text().update(
                old(self).row as int,
                old(self).text()[old(self).row as int] + old(self).text()[old(self).row + 1],
            ).remove(old(self).row + 1) && final(self).row == old(self).row && final(self).col
                == old(self).col && final(self).model().undo =~= old(self).model().undo.push(
                snap_of(old(self).model()),
            ),
            old(self).col == old(self).text()[old(self).row as int].len() && old(self).row + 1
                == old(self).text().len() ==> *final(self) == *old(self),
            final(self).model() =~~= spec_delete_next(old(self).model()),
    {
        let len = self.lines[self.row].len();
        if self.col < len {
            self.push_snapshot();
            let mut line = self.lines.remove(self.row);
            line.remove(self.col);
            let ghost lv = line@;
            let r = self.row;
            self.lines.insert(r, line);
            proof {
                assert(self.lines@[r as int]@ == lv);
                assert(final(self).text() =~~= old(self).text().update(
                    old(self).row as int,
                    old(self).text()[old(self).row as int].remove(old(self).col as int),
                ));
            }
        } else if self.row + 1 < self.lines.len() {
            self.push_snapshot();
            let r = self.row;
            self.join_line_below(r);
        }
    }

    /// Deletes from the cursor to the end of the line; at a line end,
    /// joins the next line onto the current one.  A no-op at the very
    /// end of the document, and only then is no snapshot pushed.
    pub fn delete_to_end(&mut self)
        requires
            old(self).wf(),
        ensures
            final(self).wf(),
            old(self).col < old(self).text()[old(self).row as int].len() ==> final(self).text()
                =~~= old(self).text().update(
                old(self).row as int,
                old(self).text()[old(self).row as int].take(old(self).col as int),
            ) && final(self).row == old(self).row && final(self).col == old(self).col && final(self).model().undo =~= old(self).model().undo.push(snap_of(old(self).model())),
            old(self).col == old(self).text()[old(self).row as int].len() && old(self).row + 1
                < old(self).text().len() ==> final(self).text() =~~= old(self).text().update(
                old(self).row as int,
                old(self).text()[old(self).row as int] + old(self).text()[old(self).row + 1],
            ).remove(old(self).row + 1) && final(self).row == old(self).row && final(self).col
                == old(self).col && final(self).model().undo =~= old(self).model().undo.push(
                snap_of(old(self).model()),
            ),
            old(self).col == old(self).text()[old(self).row as int].len() && old(self).row + 1
                == old(self).text().len() ==> *final(self) == *old(self),
            final(self).model() =~~= spec_delete_to_end(old(self).model()),
    {
        let len = self.lines[self.row].len();
        if self.col < len {
            self.push_snapshot();
            let kept = crate::text::slice_clamped(&self.lines[self.row], 0, self.col);
            proof {
                assert(kept@ =~= old(self).text()[old(self).row as int].take(old(self).col as int));
            }
            let r = self.row;
            self.set_line(r, kept);
        } else if self.row + 1 < self.lines.len() {
            self.push_snapshot();
            let r = self.row;
            self.join_line_below(r);
        }
    }

    /// Replaces the character range `[start, end)` of the cursor's
    /// line with `repl`; the cursor lands just after the replacement.
    /// The previous state becomes undoable.
    pub fn replace_in_line(&mut self, start: usize, end: usize, repl: &Vec<char>)
        requires
            old(self).wf(),
            start <= end <= old(self).text()[old(self).row as int].len(),
        ensures
            final(self).wf(),
            final(self).model() =~~= spec_replace_in_line(
                old(self).model(),
                start as int,
                end as int,
                repl@,
            ),
    {
        self.push_snapshot();
        let mut line = crate::text::slice_clamped(&self.lines[self.row], 0, start);
        proof {
            assert(self.lines@[self.row as int]@ == self.text()[self.row as int]);
            assert(line@ =~= old(self).text()[old(self).row as int].take(start as int));
        }
        let mut i: usize = 0;
        while i < repl.len()
            invariant
                0 <= i <= repl@.len(),
                line@ == old(self).text()[old(self).row as int].take(start as int) + repl@.subrange(
                    0,
                    i as int,
                ),
            decreases repl@.len() - i,
        {
            line.push(repl[i]);
            proof {
                assert(line@ =~= old(self).text()[old(self).row as int].take(start as int)
                    + repl@.subrange(0, i + 1));
            }
            i = i + 1;
        }
        let cur_len = self.lines[self.row].len();
        let tail = crate::text::slice_clamped(&self.lines[self.row], end, cur_len);
        proof {
            assert(tail@ =~= old(self).text()[old(self).row as int].skip(end as int));
        }
        let mut j: usize = 0;
        while j < tail.len()
            invariant
                0 <= j <= tail@.len(),
                line@ == old(self).text()[old(self).row as int].take(start as int) + repl@
                    + tail@.subrange(0, j as int),
            decreases tail@.len() - j,
        {
            line.push(tail[j]);
            proof {
                assert(line@ =~= old(self).text()[old(self).row as int].take(start as int) + repl@
                    + tail@.subrange(0, j + 1));
            }
            j = j + 1;
        }
        proof {
            assert(line@ =~= old(self).text()[old(self).row as int].take(start as int) + repl@
                + old(self).text()[old(self).row as int].skip(end as int));
        }
        let new_len = line.len();
        let r = self.row;
        self.set_line(r, line);
        self.col = new_len - (cur_len - end);
        proof {
            assert(self.col == start + repl@.len());
            assert(self.lines@[r as int]@ == self.text()[r as int]);
            assert(final(self).model() =~~= spec_replace_in_line(
                old(self).model(),
                start as int,
                end as int,
                repl@,
            ));
        }
    }

    /// Inserts the given lines below the current row, as a paste does;
    /// with nothing to paste a single empty line is inserted.  The
    /// cursor ends at the end of the last inserted line.  The previous
    /// state becomes undoable.
    pub fn insert_lines_after(&mut self, rows: &Vec<Vec<char>>)
        requires
            old(self).wf(),
        ensures
            final(self).wf(),
            ({
                let eff = if rows@.len() == 0 {
                    seq![Seq::<char>::empty()]
                } else {
                    text_of(rows@)
                };
                &&& final(self).text() =~~= old(self).text().take(old(self).row + 1) + eff + old(self).text().skip(old(self).row + 1)
                &&& final(self).row == old(self).row + eff.len()
                &&& final(self).col == eff.last().len()
            }),
            final(self).model().undo =~= old(self).model().undo.push(snap_of(old(self).model())),
            final(self).model().redo =~= Seq::<SnapModel>::empty(),
            final(self).model() =~~= spec_paste_after(old(self).model(), text_of(rows@)),
    {
        self.push_snapshot();
        if rows.len() == 0 {
            let empty: Vec<char> = Vec::new();
            self.lines.insert(self.row + 1, empty);
            self.row = self.row + 1;
            self.col = 0;
            proof {
                assert(final(self).text() =~~= old(self).text().take(old(self).row + 1) + seq![
                    Seq::<char>::empty(),
                ] + old(self).text().skip(old(self).row + 1));
            }
            return ;
        }
        let mut i: usize = 0;
        while i < rows.len()
            invariant
                0 <= i <= rows@.len(),
                self.lines.len() == old(self).lines@.len() + i,
                old(self).row < old(self).lines@.len(),
                self.row == old(self).row,
                self.col == old(self).col,
                text_of(self.lines@) =~~= old(self).text().take(old(self).row + 1) + text_of(
                    rows@,
                ).take(i as int) + old(self).text().skip(old(self).row + 1),
                self.model().undo =~= old(self).model().undo.push(snap_of(old(self).model())),
                self.model().redo =~= Seq::<SnapModel>::empty(),
                self.redo_stack.len() == 0,
                forall|k: int|
                    0 <= k < self.undo_stack.len() ==> snapshot_wf(#[trigger] self.undo_stack[k]),
            decreases rows@.len() - i,
        {
            let ghost mid = self.lines@;
            let line = clone_chars(&rows[i]);
            self.lines.insert(self.row + 1 + i, line);
            i = i + 1;
            proof {
                let t0 = old(self).text();
                let r0 = old(self).row as int;
                let rhs = t0.take(r0 + 1) + text_of(rows@).take(i as int) + t0.skip(r0 + 1);
                assert(self.lines@ == mid.insert(r0 + i, line));
                assert forall|k: int| 0 <= k < self.lines@.len() implies #[trigger] text_of(
                    self.lines@,
                )[k] == rhs[k] by {
                    if k < r0 + i {
                        assert(self.lines@[k] == mid[k]);
                        assert(text_of(self.lines@)[k] == text_of(mid)[k]);
                    } else if k == r0 + i {
                        assert(self.lines@[k] == line);
                        assert(line@ == text_of(rows@).take(i as int)[i - 1]);
                    } else {
                        assert(self.lines@[k] == mid[k - 1]);
                        assert(text_of(self.lines@)[k] == text_of(mid)[k - 1]);
                    }
                }
                assert(text_of(self.lines@) =~~= rhs);
            }
        }
        self.row = self.row + rows.len();
        self.col = self.lines[self.row].len();
        proof {
            assert(text_of(rows@).take(rows@.len() as int) =~~= text_of(rows@));
            assert(final(self).text() =~~= old(self).text().take(old(self).row + 1) + text_of(
                rows@,
            ) + old(self).text().skip(old(self).row + 1));
            assert(self.lines@[self.row as int]@ == text_of(self.lines@)[self.row as int]);
            assert(text_of(self.lines@)[self.row as int] == text_of(rows@)[rows@.len() - 1]);
        }
    }
}

} // verus!
