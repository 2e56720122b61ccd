//! Plain-text utilities shared by the whole engine.
//!
//! A line of text is held as a `Vec<char>` so that the cursor column,
//! which is a character offset, indexes it directly.  This module holds
//! the comparisons and searches on such lines, and the coordinate
//! translator that turns a character offset into the byte offset of the
//! same position in the UTF-8 encoding of the line.

use vstd::prelude::*;

verus! {

/// Number of bytes the UTF-8 encoding of one character takes.
pub open spec fn utf8_len(c: char) -> nat {
    if (c as nat) < 0x80 {
        1
    } else if (c as nat) < 0x800 {
        2
    } else if (c as nat) < 0x10000 {
        3
    } else {
        4
    }
}

/// Number of bytes the UTF-8 encoding of the first `n` characters of
/// `s` takes (all of `s` when `n >= s.len()`).
pub open spec fn byte_offset_of(s: Seq<char>, n: int) -> nat
    decreases s.len(),
{
    if s.len() == 0 || n <= 0 {
        0
    } else {
        utf8_len(s[0]) + byte_offset_of(s.drop_first(), n - 1)
    }
}

/// The byte offset never exceeds four bytes per character.
pub proof fn lemma_byte_offset_bound(s: Seq<char>, n: int)
    ensures
        byte_offset_of(s, n) <= 4 * s.len(),
    decreases s.len(),
{
    if s.len() != 0 && n > 0 {
        lemma_byte_offset_bound(s.drop_first(), n - 1);
    }
}

/// One step of the translation: consuming the character at `i` adds its
/// UTF-8 length.
pub proof fn lemma_byte_offset_step(s: Seq<char>, i: int)
    requires
        0 <= i < s.len(),
    ensures
        byte_offset_of(s, i + 1) == byte_offset_of(s, i) + utf8_len(s[i]),
    decreases s.len(),
{
    if i == 0 {
        assert(byte_offset_of(s, 1) == utf8_len(s[0]) + byte_offset_of(s.drop_first(), 0));
    } else {
        lemma_byte_offset_step(s.drop_first(), i - 1);
        assert(s.drop_first()[i - 1] == s[i]);
    }
}

/// Exec computation of the UTF-8 length of one character.
pub fn utf8_len_of(c: char) -> (n: usize)
    ensures
        n == utf8_len(c),
{
    let u = c as u32;
    if u < 0x80 {
        1
    } else if u < 0x800 {
        2
    } else if u < 0x10000 {
        3
    } else {
        4
    }
}

/// The UTF-8 byte length of a whole character sequence.
pub open spec fn byte_len(s: Seq<char>) -> nat {
    byte_offset_of(s, s.len() as int)
}

/// Coordinate translator: the byte offset of character position `col`
/// in `line`.  A column beyond the end of the line yields the full byte
/// length of the line rather than an error.
pub fn char_to_byte(line: &Vec<char>, col: usize) -> (b: usize)
    requires
        line@.len() <= usize::MAX / 4,
    ensures
        b == byte_offset_of(line@, col as int),
        col >= line@.len() ==> b == byte_offset_of(line@, line@.len() as int),
{
    proof {
        lemma_byte_offset_bound(line@, col as int);
    }
    let end = if col < line.len() {
        col
    } else {
        line.len()
    };
    let mut i: usize = 0;
    let mut b: usize = 0;
    while i < end
        invariant
            0 <= i <= end <= line@.len() <= usize::MAX / 4,
            b == byte_offset_of(line@, i as int),
            end == if col < line@.len() {
                col as int
            } else {
                line@.len() as int
            },
            b <= 4 * i,
        decreases end - i,
    {
        proof {
            lemma_byte_offset_step(line@, i as int);
        }
        b = b + utf8_len_of(line[i]);
        i = i + 1;
    }
    proof {
        if col > line@.len() {
            lemma_byte_offset_saturates(line@, line@.len() as int, col as int);
        }
    }
    b
}

/// Past the end of the sequence, the byte offset stays at the full length.
proof fn lemma_byte_offset_saturates(s: Seq<char>, n1: int, n2: int)
    requires
        s.len() <= n1 <= n2,
    ensures
        byte_offset_of(s, n1) == byte_offset_of(s, n2),
    decreases s.len(),
{
    if s.len() != 0 && n1 > 0 {
        lemma_byte_offset_saturates(s.drop_first(), n1 - 1, n2 - 1);
    }
}

/// Character-for-character equality of two lines.
pub fn eq_chars(a: &Vec<char>, b: &Vec<char>) -> (r: bool)
    ensures
        r == (a@ == b@),
{
    if a.len() != b.len() {
        assert(a@ != b@) by {
            assert(a@.len() != b@.len());
        }
        return false;
    }
    let mut i: usize = 0;
    while i < a.len()
        invariant
            0 <= i <= a@.len(),
            a@.len() == b@.len(),
            forall|k: int| 0 <= k < i ==> a@[k] == b@[k],
        decreases a@.len() - i,
    {
        if a[i] != b[i] {
            return false;
        }
        i = i + 1;
    }
    proof {
        assert(a@ =~= b@);
    }
    true
}

/// Whether `p` is a prefix of `s`.
pub open spec fn is_prefix(p: Seq<char>, s: Seq<char>) -> bool {
    p.len() <= s.len() && p == s.subrange(0, p.len() as int)
}

/// Exec check that `p@` is a prefix of `s@`.
pub fn starts_with(s: &Vec<char>, p: &Vec<char>) -> (r: bool)
    ensures
        r == is_prefix(p@, s@),
{
    if p.len() > s.len() {
        return false;
    }
    let mut i: usize = 0;
    while i < p.len()
        invariant
            0 <= i <= p@.len() <= s@.len(),
            forall|k: int| 0 <= k < i ==> p@[k] == s@[k],
        decreases p@.len() - i,
    {
        if p[i] != s[i] {
            assert(p@ != s@.subrange(0, p@.len() as int));
            return false;
        }
        i = i + 1;
    }
    proof {
        assert(p@ =~= s@.subrange(0, p@.len() as int));
    }
    true
}

/// Whether `needle` occurs in `hay` starting at position `i`.
pub open spec fn occurs_at(hay: Seq<char>, needle: Seq<char>, i: int) -> bool {
    0 <= i && i + needle.len() <= hay.len() && needle == hay.subrange(i, i + needle.len() as int)
}

/// Whether `needle` occurs anywhere in `hay`.
pub open spec fn contains_seq(hay: Seq<char>, needle: Seq<char>) -> bool {
    exists|i: int| occurs_at(hay, needle, i)
}

/// Exec check that `needle@` occurs at position `at` of `hay@`.
fn occurs_at_exec(hay: &Vec<char>, needle: &Vec<char>, at: usize) -> (r: bool)
    requires
        at + needle@.len() <= hay@.len(),
    ensures
        r == occurs_at(hay@, needle@, at as int),
{
    let mut i: usize = 0;
    while i < needle.len()
        invariant
            0 <= i <= needle@.len(),
            at + needle@.len() <= hay@.len(),
            hay@.len() == hay.len(),
            forall|k: int| 0 <= k < i ==> needle@[k] == hay@[at + k],
        decreases needle@.len() - i,
    {
        if needle[i] != hay[at + i] {
            assert(needle@ != hay@.subrange(at as int, at + needle@.len() as int)) by {
                assert(hay@.subrange(at as int, at + needle@.len() as int)[i as int] == hay@[at
                    + i]);
            }
            return false;
        }
        i = i + 1;
    }
    proof {
        assert(needle@ =~= hay@.subrange(at as int, at + needle@.len() as int));
    }
    true
}

/// First position at or after `from` where `needle` occurs in `hay`,
/// or `-1` when there is none.
pub open spec fn spec_find(hay: Seq<char>, needle: Seq<char>, from: int) -> int
    decreases
            if from <= hay.len() {
                hay.len() - from + 1
            } else {
                0
            },
{
    if from < 0 {
        spec_find(hay, needle, 0)
    } else if from + needle.len() > hay.len() {
        -1
    } else if occurs_at(hay, needle, from) {
        from
    } else {
        spec_find(hay, needle, from + 1)
    }
}

/// Last position strictly before `upto` where `needle` occurs in
/// `hay`, or `-1` when there is none.
pub open spec fn spec_rfind(hay: Seq<char>, needle: Seq<char>, upto: int) -> int
    decreases
            if upto > 0 {
                upto
            } else {
                0
            },
{
    if upto <= 0 {
        -1
    } else if occurs_at(hay, needle, upto - 1) {
        upto - 1
    } else {
        spec_rfind(hay, needle, upto - 1)
    }
}

/// First position at or after `from` where `needle@` occurs in `hay@`,
/// if there is one.
pub fn find_sub_from(hay: &Vec<char>, needle: &Vec<char>, from: usize) -> (r: Option<usize>)
    requires
        needle@.len() >= 1,
    ensures
        match r {
            Some(i) => from <= i && occurs_at(hay@, needle@, i as int) && forall|j: int|
                from <= j < i ==> !occurs_at(hay@, needle@, j),
            None => forall|j: int| from <= j ==> !occurs_at(hay@, needle@, j),
        },
        r matches Some(i) ==> i == spec_find(hay@, needle@, from as int),
        r is None ==> spec_find(hay@, needle@, from as int) == -1,
{
    if needle.len() > hay.len() {
        return None;
    }
    let last = hay.len() - needle.len();
    if from > last {
        return None;
    }
    let mut i: usize = from;
    while i <= last
        invariant
            from <= i <= last + 1,
            1 <= needle@.len() <= hay@.len(),
            hay@.len() == hay.len(),
            last == hay@.len() - needle@.len(),
            forall|j: int| from <= j < i ==> !occurs_at(hay@, needle@, j),
            spec_find(hay@, needle@, from as int) == spec_find(hay@, needle@, i as int),
        decreases last + 1 - i,
    {
        if occurs_at_exec(hay, needle, i) {
            return Some(i);
        }
        i = i + 1;
    }
    None
}

/// Last position at or before `upto` (exclusive bound on the start
/// position) where `needle@` occurs in `hay@`, if there is one.  This
/// searches the part of the line before the cursor.
pub fn rfind_sub_before(hay: &Vec<char>, needle: &Vec<char>, upto: usize) -> (r: Option<usize>)
    requires
        needle@.len() >= 1,
    ensures
        match r {
            Some(i) => i < upto && occurs_at(hay@, needle@, i as int) && forall|j: int|
                i < j < upto ==> !occurs_at(hay@, needle@, j),
            None => forall|j: int| 0 <= j < upto ==> !occurs_at(hay@, needle@, j),
        },
        r matches Some(i) ==> i == spec_rfind(hay@, needle@, upto as int),
        r is None ==> spec_rfind(hay@, needle@, upto as int) == -1,
{
    if needle.len() > hay.len() {
        proof {
            lemma_rfind_skip(hay@, needle@, 0, upto as int);
        }
        return None;
    }
    let last = hay.len() - needle.len();
    let mut i: usize = if upto > last + 1 {
        last + 1
    } else {
        upto
    };
    proof {
        assert(forall|j: int| i <= j < upto ==> !occurs_at(hay@, needle@, j));
        lemma_rfind_skip(hay@, needle@, i as int, upto as int);
    }
    while i > 0
        invariant
            i <= upto,
            1 <= needle@.len() <= hay@.len(),
            hay@.len() == hay.len(),
            i + needle@.len() <= hay@.len() + 1,
            forall|j: int| i <= j < upto ==> !occurs_at(hay@, needle@, j),
            spec_rfind(hay@, needle@, upto as int) == spec_rfind(hay@, needle@, i as int),
        decreases i,
    {
        i = i - 1;
        if occurs_at_exec(hay, needle, i) {
            return Some(i);
        }
        proof {
            assert(spec_rfind(hay@, needle@, i + 1) == spec_rfind(hay@, needle@, i as int));
        }
    }
    None
}

/// Positions in `[i, upto)` with no occurrence do not change the
/// backward search.
proof fn lemma_rfind_skip(hay: Seq<char>, needle: Seq<char>, i: int, upto: int)
    requires
        0 <= i <= upto,
        forall|j: int| i <= j < upto ==> !occurs_at(hay, needle, j),
    ensures
        spec_rfind(hay, needle, upto) == spec_rfind(hay, needle, i),
    decreases upto - i,
{
    if i < upto {
        lemma_rfind_skip(hay, needle, i, upto - 1);
    }
}

/// Exec check that `needle@` occurs somewhere in `hay@`.
pub fn contains_chars(hay: &Vec<char>, needle: &Vec<char>) -> (r: bool)
    ensures
        r == contains_seq(hay@, needle@),
{
    if needle.len() == 0 {
        proof {
            assert(occurs_at(hay@, needle@, 0)) by {
                assert(needle@ =~= hay@.subrange(0, 0));
            }
        }
        return true;
    }
    match find_sub_from(hay, needle, 0) {
        Some(_) => true,
        None => {
            proof {
                assert(forall|j: int| !occurs_at(hay@, needle@, j)) by {
                    assert(forall|j: int| j >= 0 ==> !occurs_at(hay@, needle@, j));
                }
            }
            false
        },
    }
}

/// First index at or after `from` whose character's spaceness equals
/// `want_space`, or the length of the line when there is none.
pub fn scan_for(line: &Vec<char>, from: usize, want_space: bool) -> (r: usize)
    requires
        from <= line@.len(),
    ensures
        from <= r <= line@.len(),
        r < line@.len() ==> (line@[r as int] == ' ') == want_space,
        forall|k: int| from <= k < r ==> (line@[k] == ' ') != want_space,
{
    let mut i: usize = from;
    while i < line.len()
        invariant
            from <= i <= line@.len(),
            forall|k: int| from <= k < i ==> (line@[k] == ' ') != want_space,
        decreases line@.len() - i,
    {
        if (line[i] == ' ') == want_space {
            return i;
        }
        i = i + 1;
    }
    i
}

/// The characters of `line` from `start` up to `end`, both clamped to
/// the line length.  Short lines therefore yield a short or empty
/// result, never an error.
pub open spec fn clamped_slice(line: Seq<char>, start: int, end: int) -> Seq<char> {
    let s = if start <= line.len() {
        start
    } else {
        line.len() as int
    };
    let e = if end <= line.len() {
        end
    } else {
        line.len() as int
    };
    if s <= e {
        line.subrange(s, e)
    } else {
        Seq::empty()
    }
}

/// Exec extraction of `clamped_slice(line@, start, end)`.
pub fn slice_clamped(line: &Vec<char>, start: usize, end: usize) -> (r: Vec<char>)
    ensures
        r@ == clamped_slice(line@, start as int, end as int),
{
    let s = if start < line.len() {
        start
    } else {
        line.len()
    };
    let e = if end < line.len() {
        end
    } else {
        line.len()
    };
    let mut out: Vec<char> = Vec::new();
    if s >= e {
        proof {
            assert(out@ =~= clamped_slice(line@, start as int, end as int));
        }
        return out;
    }
    let mut i: usize = s;
    while i < e
        invariant
            s <= i <= e <= line@.len(),
            out@ == line@.subrange(s as int, i as int),
        decreases e - i,
    {
        out.push(line[i]);
        proof {
            assert(out@ =~= line@.subrange(s as int, i + 1));
        }
        i = i + 1;
    }
    proof {
        assert(out@ =~= clamped_slice(line@, start as int, end as int));
    }
    out
}

/// Concatenation of `a[..cut_a]` and `b[cut_b..]`, the splice that a
/// multi-row delete leaves behind.  Both cuts are clamped.
pub open spec fn spliced(a: Seq<char>, cut_a: int, b: Seq<char>, cut_b: int) -> Seq<char> {
    clamped_slice(a, 0, cut_a) + clamped_slice(b, cut_b, b.len() as int)
}

/// Exec computation of `spliced`.
pub fn splice_lines(a: &Vec<char>, cut_a: usize, b: &Vec<char>, cut_b: usize) -> (r: Vec<char>)
    ensures
        r@ == spliced(a@, cut_a as int, b@, cut_b as int),
{
    let mut out = slice_clamped(a, 0, cut_a);
    let tail = slice_clamped(b, cut_b, b.len());
    let mut i: usize = 0;
    while i < tail.len()
        invariant
            0 <= i <= tail@.len(),
            out@ == clamped_slice(a@, 0, cut_a as int) + tail@.subrange(0, i as int),
        decreases tail@.len() - i,
    {
        out.push(tail[i]);
        proof {
            assert(out@ =~= clamped_slice(a@, 0, cut_a as int) + tail@.subrange(0, i + 1));
        }
        i = i + 1;
    }
    proof {
        assert(tail@.subrange(0, tail@.len() as int) =~= tail@);
    }
    out
}

/// Relies on `String::push`: appends exactly one character.
#[verifier::external_body]
fn push_char(s: &mut String, c: char)
    ensures
        final(s)@ == old(s)@.push(c),
{
    s.push(c);
}

/// A `String` holding exactly the characters of `v`.
pub fn chars_to_string(v: &Vec<char>) -> (r: String)
    ensures
        r@ == v@,
{
    let mut out = String::new();
    let mut i: usize = 0;
    while i < v.len()
        invariant
            0 <= i <= v@.len(),
            out@ == v@.subrange(0, i as int),
        decreases v@.len() - i,
    {
        push_char(&mut out, v[i]);
        proof {
            assert(out@ =~= v@.subrange(0, i + 1));
        }
        i = i + 1;
    }
    proof {
        assert(out@ =~= v@);
    }
    out
}

/// The characters of `s` as a vector.
pub fn str_to_chars(s: &str) -> (r: Vec<char>)
    ensures
        r@ == s@,
{
    let len = s.unicode_len();
    let mut out: Vec<char> = Vec::new();
    let mut i: usize = 0;
    while i < len
        invariant
            0 <= i <= s@.len(),
            len == s@.len(),
            out@ == s@.subrange(0, i as int),
        decreases len - i,
    {
        out.push(s.get_char(i));
        proof {
            assert(out@ =~= s@.subrange(0, i + 1));
        }
        i = i + 1;
    }
    proof {
        assert(out@ =~= s@);
    }
    out
}

} // verus!
