//! The selection engine: given an anchor and the live cursor it
//! normalizes the selection, and implements yank, delete and
//! block-insert editing over the selected range.
//!
//! Block-wise operations are column-aligned over rows of unequal
//! length: short rows are clamped (yank, delete, erase) or padded with
//! spaces (insert), never rejected.

use vstd::prelude::*;
use crate::buffer::{text_of, snap_of, SnapModel, TextBuffer};
use crate::text::{clamped_slice, slice_clamped, spliced, splice_lines};

verus! {

/// Per-axis normalization of anchor and cursor: minimum and maximum
/// row, minimum and maximum column.  This is the rectangle of a
/// block-wise selection.
pub fn normalize_rect(a: (usize, usize), c: (usize, usize)) -> (r: (usize, usize, usize, usize))
    ensures
        r.0 == vstd::math::min(a.0 as int, c.0 as int),
        r.1 == vstd::math::max(a.0 as int, c.0 as int),
        r.2 == vstd::math::min(a.1 as int, c.1 as int),
        r.3 == vstd::math::max(a.1 as int, c.1 as int),
{
    let min_row = if a.0 < c.0 {
        a.0
    } else {
        c.0
    };
    let max_row = if a.0 < c.0 {
        c.0
    } else {
        a.0
    };
    let min_col = if a.1 < c.1 {
        a.1
    } else {
        c.1
    };
    let max_col = if a.1 < c.1 {
        c.1
    } else {
        a.1
    };
    (min_row, max_row, min_col, max_col)
}

/// Document-order normalization of anchor and cursor: the position
/// that comes first in reading order, then the one that comes second.
/// This is the range of a character-wise selection.
pub fn order_positions(a: (usize, usize), c: (usize, usize)) -> (r: (
    (usize, usize),
    (usize, usize),
))
    ensures
        (r.0.0 < r.1.0) || (r.0.0 == r.1.0 && r.0.1 <= r.1.1),
        (r.0 == a && r.1 == c) || (r.0 == c && r.1 == a),
        a.0 < c.0 ==> r.0 == a && r.1 == c,
        c.0 < a.0 ==> r.0 == c && r.1 == a,
        a.0 == c.0 && a.1 <= c.1 ==> r.0 == a && r.1 == c,
        a.0 == c.0 && c.1 < a.1 ==> r.0 == c && r.1 == a,
{
    if a.0 < c.0 || (a.0 == c.0 && a.1 <= c.1) {
        (a, c)
    } else {
        (c, a)
    }
}

/// The line that remains of `line` after padding it with spaces up to
/// `col` and inserting `c` there — one row of a block insert.
pub open spec fn padded_insert(line: Seq<char>, col: int, c: char) -> Seq<char> {
    let padded = if col > line.len() {
        line + Seq::new((col - line.len()) as nat, |i: int| ' ')
    } else {
        line
    };
    padded.insert(col, c)
}

/// The line that remains of `line` after a block erase at `col`: the
/// character at `col` is removed when the line reaches that far,
/// otherwise the line is untouched.
pub open spec fn erased_at(line: Seq<char>, col: int) -> Seq<char> {
    if col < line.len() {
        line.remove(col)
    } else {
        line
    }
}

impl TextBuffer {
    /// Block-wise yank: one string per row of `[min_row, max_row]`,
    /// each the character range `[min_col, max_col + 1)` of that row
    /// clamped to the row's length.  Rows shorter than the rectangle
    /// yield a truncated or empty string, never an error: each yanked
    /// string is at most `max_col - min_col + 1` characters, and a row
    /// that ends inside the rectangle yields exactly its characters
    /// from `min_col` on.
    pub fn block_yank(&self, min_row: usize, max_row: usize, min_col: usize, max_col: usize) -> (r:
        Vec<Vec<char>>)
        requires
            self.wf(),
            min_row <= max_row < self.text().len(),
            min_col <= max_col < usize::MAX,
        ensures
            r@.len() == max_row - min_row + 1,
            forall|i: int|
                0 <= i <= max_row - min_row ==> #[trigger] r@[i]@ == clamped_slice(
                    self.text()[min_row + i],
                    min_col as int,
                    max_col + 1,
                ),
            forall|i: int| 0 <= i <= max_row - min_row ==> #[trigger] r@[i]@.len() <= max_col + 1
                - min_col,
            forall|i: int|
                0 <= i <= max_row - min_row && self.text()[min_row + i].len() <= min_col
                    ==> #[trigger] r@[i]@.len() == 0,
            forall|i: int|
                0 <= i <= max_row - min_row && min_col <= self.text()[min_row + i].len() <= max_col
                    ==> #[trigger] r@[i]@.len() == self.text()[min_row + i].len() - min_col,
    {
        let mut out: Vec<Vec<char>> = Vec::new();
        let mut r: usize = min_row;
        while r <= max_row
            invariant
                min_row <= r <= max_row + 1,
                max_row < self.text().len(),
                min_col <= max_col < usize::MAX,
                self.wf(),
                out@.len() == r - min_row,
                forall|i: int|
                    0 <= i < r - min_row ==> #[trigger] out@[i]@ == clamped_slice(
                        self.text()[min_row + i],
                        min_col as int,
                        max_col + 1,
                    ),
            decreases max_row + 1 - r,
        {
            let piece = slice_clamped(&self.lines[r], min_col, max_col + 1);
            proof {
                assert(self.lines@[r as int]@ == self.text()[r as int]);
            }
            out.push(piece);
            r = r + 1;
        }
        proof {
            assert forall|i: int| 0 <= i <= max_row - min_row implies #[trigger] out@[i]@.len()
                <= max_col + 1 - min_col && (self.text()[min_row + i].len() <= min_col
                ==> out@[i]@.len() == 0) && (min_col <= self.text()[min_row + i].len() <= max_col
                ==> out@[i]@.len() == self.text()[min_row + i].len() - min_col) by {
                assert(out@[i]@ == clamped_slice(self.text()[min_row + i], min_col as int, max_col + 1));
            }
        }
        out
    }

    /// Block-wise delete: removes the character range
    /// `[min_col, max_col + 1)`, clamped, from every row of
    /// `[min_row, max_row]`; the cursor relocates to `(min_row,
    /// min_col)`, clamped to the surviving line.  The previous state
    /// becomes undoable.
    pub fn block_delete(&mut self, min_row: usize, max_row: usize, min_col: usize, max_col: usize)
        requires
            old(self).wf(),
            min_row <= max_row < old(self).text().len(),
            min_col <= max_col < usize::MAX,
        ensures
            final(self).wf(),
            final(self).text().len() == old(self).text().len(),
            forall|k: int|
                min_row <= k <= max_row ==> #[trigger] final(self).text()[k] == spliced(
                    old(self).text()[k],
                    min_col as int,
                    old(self).text()[k],
                    max_col + 1,
                ),
            forall|k: int|
                0 <= k < old(self).text().len() && !(min_row <= k <= max_row)
                    ==> #[trigger] final(self).text()[k] == old(self).text()[k],
            final(self).row == min_row,
            final(self).col == vstd::math::min(
                min_col as int,
                final(self).text()[min_row as int].len() as int,
            ),
            final(self).model().undo =~= old(self).model().undo.push(snap_of(old(self).model())),
            final(self).model().redo =~= Seq::<SnapModel>::empty(),
    {
        self.push_snapshot();
        let mut r: usize = min_row;
        while r <= max_row
            invariant
                min_row <= r <= max_row + 1,
                max_row < self.lines.len(),
                min_col <= max_col < usize::MAX,
                self.lines.len() == old(self).lines.len(),
                self.row == old(self).row,
                self.col == old(self).col,
                self.row < self.lines.len(),
                forall|i: int|
                    0 <= i < self.undo_stack.len() ==> crate::buffer::snapshot_wf(
                        #[trigger] self.undo_stack[i],
                    ),
                self.redo_stack.len() == 0,
                self.model().undo =~= old(self).model().undo.push(snap_of(old(self).model())),
                self.model().redo =~= Seq::<SnapModel>::empty(),
                forall|k: int|
                    min_row <= k < r ==> #[trigger] self.text()[k] == spliced(
                        old(self).text()[k],
                        min_col as int,
                        old(self).text()[k],
                        max_col + 1,
                    ),
                forall|k: int|
                    0 <= k < old(self).text().len() && !(min_row <= k < r) ==> #[trigger] self.text()[k]
                        == old(self).text()[k],
            decreases max_row + 1 - r,
        {
            let kept = splice_lines(&self.lines[r], min_col, &self.lines[r], max_col + 1);
            proof {
                assert(self.lines@[r as int]@ == self.text()[r as int]);
            }
            self.set_line(r, kept);
            r = r + 1;
        }
        self.row = min_row;
        let len = self.lines[min_row].len();
        self.col = if min_col < len {
            min_col
        } else {
            len
        };
        proof {
            assert(self.lines@[min_row as int]@ == self.text()[min_row as int]);
        }
    }

    /// One keystroke of a block insert: pads each row of
    /// `[min_row, max_row]` with spaces up to `col` where the row is
    /// shorter, then inserts `c` at `col` in every row, so all rows
    /// gain the character at the identical column.  The cursor moves to
    /// `(min_row, col + 1)`.  The previous state becomes undoable.
    pub fn block_insert_char(&mut self, min_row: usize, max_row: usize, col: usize, c: char)
        requires
            old(self).wf(),
            min_row <= max_row < old(self).text().len(),
            col < usize::MAX,
        ensures
            final(self).wf(),
            final(self).text().len() == old(self).text().len(),
            forall|k: int|
                min_row <= k <= max_row ==> #[trigger] final(self).text()[k] == padded_insert(
                    old(self).text()[k],
                    col as int,
                    c,
                ),
            forall|k: int|
                0 <= k < old(self).text().len() && !(min_row <= k <= max_row)
                    ==> #[trigger] final(self).text()[k] == old(self).text()[k],
            final(self).row == min_row,
            final(self).col == col + 1,
            final(self).model().undo =~= old(self).model().undo.push(snap_of(old(self).model())),
            final(self).model().redo =~= Seq::<SnapModel>::empty(),
    {
        self.push_snapshot();
        let mut r: usize = min_row;
        while r <= max_row
            invariant
                min_row <= r <= max_row + 1,
                max_row < self.lines.len(),
                col < usize::MAX,
                self.lines.len() == old(self).lines.len(),
                self.row == old(self).row,
                self.col == old(self).col,
                self.row < self.lines.len(),
                forall|i: int|
                    0 <= i < self.undo_stack.len() ==> crate::buffer::snapshot_wf(
                        #[trigger] self.undo_stack[i],
                    ),
                self.redo_stack.len() == 0,
                self.model().undo =~= old(self).model().undo.push(snap_of(old(self).model())),
                self.model().redo =~= Seq::<SnapModel>::empty(),
                forall|k: int|
                    min_row <= k < r ==> #[trigger] self.text()[k] == padded_insert(
                        old(self).text()[k],
                        col as int,
                        c,
                    ),
                forall|k: int|
                    0 <= k < old(self).text().len() && !(min_row <= k < r) ==> #[trigger] self.text()[k]
                        == old(self).text()[k],
            decreases max_row + 1 - r,
        {
            let mut line = crate::buffer::clone_chars(&self.lines[r]);
            proof {
                assert(self.lines@[r as int]@ == self.text()[r as int]);
            }
            while line.len() < col
                invariant
                    col < usize::MAX,
                    self.text()[r as int].len() <= line@.len(),
                    line@.len() <= col || line@.len() == self.text()[r as int].len(),
                    line@ =~= self.text()[r as int] + Seq::new(
                        (line@.len() - self.text()[r as int].len()) as nat,
                        |i: int| ' ',
                    ),
                decreases col - line@.len(),
            {
                line.push(' ');
                proof {
                    assert(line@ =~= self.text()[r as int] + Seq::new(
                        (line@.len() - self.text()[r as int].len()) as nat,
                        |i: int| ' ',
                    ));
                }
            }
            line.insert(col, c);
            proof {
                assert(line@ =~= padded_insert(old(self).text()[r as int], col as int, c));
            }
            self.set_line(r, line);
            r = r + 1;
        }
        self.row = min_row;
        self.col = col + 1;
        proof {
            assert(self.lines@[min_row as int]@ == self.text()[min_row as int]);
            assert(final(self).text()[min_row as int].len() >= col + 1);
        }
    }

    /// One backspace of a block insert: removes the character at `col`
    /// from every row of `[min_row, max_row]` that reaches that far;
    /// shorter rows are untouched.  The cursor moves to `(min_row,
    /// col)`, clamped to the surviving line.  The previous state
    /// becomes undoable.
    pub fn block_erase_char(&mut self, min_row: usize, max_row: usize, col: usize)
        requires
            old(self).wf(),
            min_row <= max_row < old(self).text().len(),
        ensures
            final(self).wf(),
            final(self).text().len() == old(self).text().len(),
            forall|k: int|
                min_row <= k <= max_row ==> #[trigger] final(self).text()[k] == erased_at(
                    old(self).text()[k],
                    col as int,
                ),
            forall|k: int|
                0 <= k < old(self).text().len() && !(min_row <= k <= max_row)
                    ==> #[trigger] final(self).text()[k] == old(self).text()[k],
            final(self).row == min_row,
            final(self).col == vstd::math::min(
                col as int,
                final(self).text()[min_row as int].len() as int,
            ),
            final(self).model().undo =~= old(self).model().undo.push(snap_of(old(self).model())),
            final(self).model().redo =~= Seq::<SnapModel>::empty(),
    {
        self.push_snapshot();
        let mut r: usize = min_row;
        while r <= max_row
            invariant
                min_row <= r <= max_row + 1,
                max_row < self.lines.len(),
                self.lines.len() == old(self).lines.len(),
                self.row == old(self).row,
                self.col == old(self).col,
                self.row < self.lines.len(),
                forall|i: int|
                    0 <= i < self.undo_stack.len() ==> crate::buffer::snapshot_wf(
                        #[trigger] self.undo_stack[i],
                    ),
                self.redo_stack.len() == 0,
                self.model().undo =~= old(self).model().undo.push(snap_of(old(self).model())),
                self.model().redo =~= Seq::<SnapModel>::empty(),
                forall|k: int|
                    min_row <= k < r ==> #[trigger] self.text()[k] == erased_at(
                        old(self).text()[k],
                        col as int,
                    ),
                forall|k: int|
                    0 <= k < old(self).text().len() && !(min_row <= k < r) ==> #[trigger] self.text()[k]
                        == old(self).text()[k],
            decreases max_row + 1 - r,
        {
            proof {
                assert(self.lines@[r as int]@ == self.text()[r as int]);
            }
            if col < self.lines[r].len() {
                let mut line = crate::buffer::clone_chars(&self.lines[r]);
                line.remove(col);
                proof {
                    assert(line@ =~= erased_at(old(self).text()[r as int], col as int));
                }
                self.set_line(r, line);
            } else {
                proof {
                    assert(self.text()[r as int] == erased_at(old(self).text()[r as int], col as int));
                }
            }
            r = r + 1;
        }
        self.row = min_row;
        let len = self.lines[min_row].len();
        self.col = if col < len {
            col
        } else {
            len
        };
        proof {
            assert(self.lines@[min_row as int]@ == self.text()[min_row as int]);
        }
    }

    /// Character-wise yank of the range from `(sr, sc)` to `(er, ec)`,
    /// both in document order: on a single row the characters
    /// `[sc, ec)`; over several rows the first row from `sc`, every
    /// interior row whole, and the last row up to `ec`.
    pub fn charwise_yank(&self, sr: usize, sc: usize, er: usize, ec: usize) -> (r: Vec<Vec<char>>)
        requires
            self.wf(),
            sr <= er < self.text().len(),
            sr == er ==> sc <= ec,
        ensures
            r@.len() == er - sr + 1,
            sr == er ==> r@[0]@ == clamped_slice(self.text()[sr as int], sc as int, ec as int),
            sr < er ==> r@[0]@ == clamped_slice(
                self.text()[sr as int],
                sc as int,
                self.text()[sr as int].len() as int,
            ),
            forall|i: int|
                0 < i < er - sr ==> #[trigger] r@[i]@ == self.text()[sr + i],
            sr < er ==> r@[er - sr]@ == clamped_slice(self.text()[er as int], 0, ec as int),
    {
        if sr == er {
            let mut out: Vec<Vec<char>> = Vec::new();
            out.push(slice_clamped(&self.lines[sr], sc, ec));
            proof {
                assert(self.lines@[sr as int]@ == self.text()[sr as int]);
            }
            return out;
        }
        let mut out: Vec<Vec<char>> = Vec::new();
        let first_len = self.lines[sr].len();
        out.push(slice_clamped(&self.lines[sr], sc, first_len));
        proof {
            assert(self.lines@[sr as int]@ == self.text()[sr as int]);
        }
        let mut i: usize = sr + 1;
        while i < er
            invariant
                sr < i <= er < self.text().len(),
                self.wf(),
                out@.len() == i - sr,
                out@[0]@ == clamped_slice(
                    self.text()[sr as int],
                    sc as int,
                    self.text()[sr as int].len() as int,
                ),
                forall|k: int| 0 < k < i - sr ==> #[trigger] out@[k]@ == self.text()[sr + k],
            decreases er - i,
        {
            out.push(crate::buffer::clone_chars(&self.lines[i]));
            proof {
                assert(self.lines@[i as int]@ == self.text()[i as int]);
            }
            i = i + 1;
        }
        out.push(slice_clamped(&self.lines[er], 0, ec));
        proof {
            assert(self.lines@[er as int]@ == self.text()[er as int]);
        }
        out
    }

    /// Character-wise delete of the range from `(sr, sc)` to
    /// `(er, ec)`, both in document order: on a single row the
    /// characters `[sc, ec)` are removed; over several rows the span
    /// collapses into one row holding the first row's prefix up to `sc`
    /// followed by the last row's suffix from `ec`.  The cursor
    /// relocates to `(sr, sc)`, clamped to the surviving line.  The
    /// previous state becomes undoable.
    pub fn charwise_delete(&mut self, sr: usize, sc: usize, er: usize, ec: usize)
        requires
            old(self).wf(),
            sr <= er < old(self).text().len(),
            sr == er ==> sc <= ec,
        ensures
            final(self).wf(),
            final(self).text().len() == old(self).text().len() - (er - sr),
            forall|k: int| 0 <= k < sr ==> #[trigger] final(self).text()[k] == old(self).text()[k],
            final(self).text()[sr as int] == spliced(
                old(self).text()[sr as int],
                sc as int,
                old(self).text()[er as int],
                ec as int,
            ),
            forall|k: int|
                sr < k < final(self).text().len() ==> #[trigger] final(self).text()[k] == old(
                    self,
                ).text()[k + (er - sr)],
            final(self).row == sr,
            final(self).col == vstd::math::min(
                sc as int,
                final(self).text()[sr as int].len() as int,
            ),
            final(self).model().undo =~= old(self).model().undo.push(snap_of(old(self).model())),
            final(self).model().redo =~= Seq::<SnapModel>::empty(),
    {
        self.push_snapshot();
        let merged = splice_lines(&self.lines[sr], sc, &self.lines[er], ec);
        proof {
            assert(self.lines@[sr as int]@ == self.text()[sr as int]);
            assert(self.lines@[er as int]@ == self.text()[er as int]);
        }
        self.set_line(sr, merged);
        let mut removed: usize = 0;
        while removed < er - sr
            invariant
                sr <= er < old(self).text().len(),
                0 <= removed <= er - sr,
                self.lines.len() == old(self).lines.len() - removed,
                self.row == old(self).row,
                self.col == old(self).col,
                forall|i: int|
                    0 <= i < self.undo_stack.len() ==> crate::buffer::snapshot_wf(
                        #[trigger] self.undo_stack[i],
                    ),
                self.redo_stack.len() == 0,
                self.model().undo =~= old(self).model().undo.push(snap_of(old(self).model())),
                self.model().redo =~= Seq::<SnapModel>::empty(),
                forall|k: int| 0 <= k < sr ==> #[trigger] self.text()[k] == old(self).text()[k],
                self.text()[sr as int] == spliced(
                    old(self).text()[sr as int],
                    sc as int,
                    old(self).text()[er as int],
                    ec as int,
                ),
                forall|k: int|
                    sr < k < self.text().len() ==> #[trigger] self.text()[k] == old(self).text()[k
                        + removed],
            decreases er - sr - removed,
        {
            let ghost pre = self.lines@;
            self.lines.remove(sr + 1);
            removed = removed + 1;
            proof {
                assert(self.lines@ == pre.remove(sr + 1));
                assert forall|k: int| 0 <= k < self.text().len() implies #[trigger] self.text()[k]
                    == (if k <= sr {
                    text_of(pre)[k]
                } else {
                    text_of(pre)[k + 1]
                }) by {
                    if k <= sr {
                        assert(self.lines@[k] == pre[k]);
                    } else {
                        assert(self.lines@[k] == pre[k + 1]);
                    }
                }
            }
        }
        self.row = sr;
        let len = self.lines[sr].len();
        self.col = if sc < len {
            sc
        } else {
            len
        };
        proof {
            assert(self.lines@[sr as int]@ == self.text()[sr as int]);
        }
    }
}

} // verus!
