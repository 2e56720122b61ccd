//! Completion-trigger logic: recognizing the `[[` and `#` triggers
//! immediately before the cursor, extracting the query typed after the
//! most recent trigger, and checking whether a trigger is still
//! present before the cursor.

use vstd::prelude::*;
use crate::text::{slice_clamped, spec_rfind};

verus! {

/// Whether the two characters before column `col` are `[[`.
pub open spec fn spec_file_trigger(line: Seq<char>, col: int) -> bool {
    2 <= col <= line.len() && line[col - 2] == '[' && line[col - 1] == '['
}

/// Whether the character before column `col` is `#`.
pub open spec fn spec_tag_trigger(line: Seq<char>, col: int) -> bool {
    1 <= col <= line.len() && line[col - 1] == '#'
}

/// Checks for the `[[` trigger immediately before the cursor.
pub fn file_trigger_at(line: &Vec<char>, col: usize) -> (r: bool)
    ensures
        r == spec_file_trigger(line@, col as int),
{
    col >= 2 && col <= line.len() && line[col - 2] == '[' && line[col - 1] == '['
}

/// Checks for the `#` trigger immediately before the cursor.
pub fn tag_trigger_at(line: &Vec<char>, col: usize) -> (r: bool)
    ensures
        r == spec_tag_trigger(line@, col as int),
{
    col >= 1 && col <= line.len() && line[col - 1] == '#'
}

/// The query typed after the most recent trigger before the cursor:
/// the characters between the end of the last `[[` (file completion)
/// or `#` (tag completion) in the line's prefix up to `col`, and the
/// cursor.  An absent trigger yields the empty query.
pub open spec fn spec_completion_query(line: Seq<char>, col: int, file_kind: bool) -> Seq<char> {
    let prefix = line.subrange(0, col);
    let t = if file_kind {
        spec_rfind(prefix, seq!['[', '['], col)
    } else {
        spec_rfind(prefix, seq!['#'], col)
    };
    if t < 0 {
        Seq::empty()
    } else {
        prefix.subrange(t + (if file_kind {
            2int
        } else {
            1int
        }), col)
    }
}

/// Extracts the completion query before the cursor.
pub fn completion_query(line: &Vec<char>, col: usize, file_kind: bool) -> (r: Vec<char>)
    requires
        col <= line@.len(),
    ensures
        r@ == spec_completion_query(line@, col as int, file_kind),
{
    let prefix = slice_clamped(line, 0, col);
    let mut needle: Vec<char> = Vec::new();
    if file_kind {
        needle.push('[');
        needle.push('[');
        proof {
            assert(needle@ =~= seq!['[', '[']);
        }
    } else {
        needle.push('#');
        proof {
            assert(needle@ =~= seq!['#']);
        }
    }
    proof {
        assert(prefix@ =~= line@.subrange(0, col as int));
    }
    match crate::text::rfind_sub_before(&prefix, &needle, col) {
        Some(t) => {
            let skip = if file_kind {
                2
            } else {
                1
            };
            proof {
                assert(crate::text::occurs_at(prefix@, needle@, t as int));
                assert(spec_rfind(prefix@, needle@, col as int) == t);
            }
            let q = slice_clamped(&prefix, t + skip, col);
            proof {
                assert(q@ =~= spec_completion_query(line@, col as int, file_kind));
            }
            q
        },
        None => {
            let q: Vec<char> = Vec::new();
            proof {
                assert(q@ =~= spec_completion_query(line@, col as int, file_kind));
            }
            q
        },
    }
}

/// Whether the trigger of the active completion still stands anywhere
/// in the line's prefix before the cursor; deleting past it cancels
/// the completion.
pub open spec fn spec_trigger_present(line: Seq<char>, col: int, file_kind: bool) -> bool {
    spec_rfind(
        line.subrange(0, col),
        if file_kind {
            seq!['[', '[']
        } else {
            seq!['#']
        },
        col,
    ) >= 0
}

/// Checks whether the active completion's trigger is still present
/// before the cursor.
pub fn trigger_present(line: &Vec<char>, col: usize, file_kind: bool) -> (r: bool)
    requires
        col <= line@.len(),
    ensures
        r == spec_trigger_present(line@, col as int, file_kind),
{
    let prefix = slice_clamped(line, 0, col);
    let mut needle: Vec<char> = Vec::new();
    if file_kind {
        needle.push('[');
        needle.push('[');
        proof {
            assert(needle@ =~= seq!['[', '[']);
        }
    } else {
        needle.push('#');
        proof {
            assert(needle@ =~= seq!['#']);
        }
    }
    proof {
        assert(prefix@ =~= line@.subrange(0, col as int));
    }
    crate::text::rfind_sub_before(&prefix, &needle, col).is_some()
}

} // verus!
