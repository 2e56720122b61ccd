//! The key-sequence resolver: disambiguates single keys from
//! multi-key commands by matching a buffered prefix plus the newest
//! character against a fixed command table.  The outcome is either a
//! command to execute, an instruction to keep buffering, or a reset of
//! the prefix for an invalid sequence.
//!
//! A command fires only on an exact match; the table is prefix-free,
//! so a match is never ambiguous.

use vstd::prelude::*;
use crate::buffer::clone_chars;

verus! {

/// The multi-key Normal-mode commands.
#[derive(Clone, Copy, PartialEq, Eq, Structural, Debug)]
pub enum EditorCommand {
    JumpTop,
    YankLine,
    DeleteLine,
    SearchBacklinks,
    SearchTags,
    SearchFiles,
    OpenToday,
    OpenYesterday,
    OpenTomorrow,
    OpenFileTree,
}

/// The multi-key file-tree commands.
#[derive(Clone, Copy, PartialEq, Eq, Structural, Debug)]
pub enum TreeCommand {
    SortByModified,
    SortByName,
}

/// What the resolver tells the caller to do with the extended prefix.
#[derive(Clone, Copy, PartialEq, Eq, Structural, Debug)]
pub enum SeqOutcome<C> {
    /// The prefix is exactly a command: execute it, clear the prefix.
    Fired(C),
    /// The prefix could still extend into a command: keep buffering.
    Buffering,
    /// No command has this prefix: discard it, report it invalid.
    Reset,
}

/// The command, if any, that the sequence `s` spells exactly.
pub open spec fn normal_command_of(s: Seq<char>) -> Option<EditorCommand> {
    if s == seq!['g', 'g'] {
        Some(EditorCommand::JumpTop)
    } else if s == seq!['y', 'y'] {
        Some(EditorCommand::YankLine)
    } else if s == seq!['d', 'd'] {
        Some(EditorCommand::DeleteLine)
    } else if s == seq!['\\', 'o', 'b'] {
        Some(EditorCommand::SearchBacklinks)
    } else if s == seq!['\\', 'o', 't'] {
        Some(EditorCommand::SearchTags)
    } else if s == seq!['\\', 'f'] {
        Some(EditorCommand::SearchFiles)
    } else if s == seq!['\\', 'o', 'o', 't'] {
        Some(EditorCommand::OpenToday)
    } else if s == seq!['\\', 'o', 'o', 'y'] {
        Some(EditorCommand::OpenYesterday)
    } else if s == seq!['\\', 'o', 'o', 'T'] {
        Some(EditorCommand::OpenTomorrow)
    } else if s == seq!['\\', 't'] {
        Some(EditorCommand::OpenFileTree)
    } else {
        None
    }
}

/// Whether `s` is a strict prefix of some Normal-mode command, so that
/// buffering may go on.
pub open spec fn normal_prefix_continues(s: Seq<char>) -> bool {
    ||| (s.len() < 2 && crate::text::is_prefix(s, seq!['g', 'g']))
    ||| (s.len() < 2 && crate::text::is_prefix(s, seq!['y', 'y']))
    ||| (s.len() < 2 && crate::text::is_prefix(s, seq!['d', 'd']))
    ||| (s.len() < 3 && crate::text::is_prefix(s, seq!['\\', 'o', 'b']))
    ||| (s.len() < 3 && crate::text::is_prefix(s, seq!['\\', 'o', 't']))
    ||| (s.len() < 2 && crate::text::is_prefix(s, seq!['\\', 'f']))
    ||| (s.len() < 4 && crate::text::is_prefix(s, seq!['\\', 'o', 'o', 't']))
    ||| (s.len() < 4 && crate::text::is_prefix(s, seq!['\\', 'o', 'o', 'y']))
    ||| (s.len() < 4 && crate::text::is_prefix(s, seq!['\\', 'o', 'o', 'T']))
    ||| (s.len() < 2 && crate::text::is_prefix(s, seq!['\\', 't']))
}

/// The resolver over the Normal-mode table, at the specification
/// level.
pub open spec fn spec_resolve_normal(s: Seq<char>) -> SeqOutcome<EditorCommand> {
    match normal_command_of(s) {
        Some(cmd) => SeqOutcome::Fired(cmd),
        None => if normal_prefix_continues(s) {
            SeqOutcome::Buffering
        } else {
            SeqOutcome::Reset
        },
    }
}

/// The command, if any, that the sequence `s` spells exactly in the
/// file tree.
pub open spec fn tree_command_of(s: Seq<char>) -> Option<TreeCommand> {
    if s == seq!['o', 'c'] {
        Some(TreeCommand::SortByModified)
    } else if s == seq!['o', 'n'] {
        Some(TreeCommand::SortByName)
    } else {
        None
    }
}

/// Whether `s` is a strict prefix of some file-tree command.
pub open spec fn tree_prefix_continues(s: Seq<char>) -> bool {
    ||| (s.len() < 2 && crate::text::is_prefix(s, seq!['o', 'c']))
    ||| (s.len() < 2 && crate::text::is_prefix(s, seq!['o', 'n']))
}

/// The resolver over the file-tree table, at the specification level.
pub open spec fn spec_resolve_tree(s: Seq<char>) -> SeqOutcome<TreeCommand> {
    match tree_command_of(s) {
        Some(cmd) => SeqOutcome::Fired(cmd),
        None => if tree_prefix_continues(s) {
            SeqOutcome::Buffering
        } else {
            SeqOutcome::Reset
        },
    }
}

/// Resolves `prefix` extended by `c` against the Normal-mode command
/// table.
pub fn resolve_normal(prefix: &Vec<char>, c: char) -> (r: SeqOutcome<EditorCommand>)
    ensures
        r == spec_resolve_normal(prefix@.push(c)),
{
    let mut ext = clone_chars(prefix);
    ext.push(c);
    proof {
        assert(ext@ == prefix@.push(c));
    }
    let n = ext.len();
    if n == 1 {
        let a = ext[0];
        if a == 'g' || a == 'y' || a == 'd' || a == '\\' {
            proof {
                assert(normal_prefix_continues(ext@)) by {
                    if a == 'g' {
                        assert(crate::text::is_prefix(ext@, seq!['g', 'g'])) by {
                            assert(ext@ =~= seq!['g', 'g'].subrange(0, 1));
                        }
                    } else if a == 'y' {
                        assert(crate::text::is_prefix(ext@, seq!['y', 'y'])) by {
                            assert(ext@ =~= seq!['y', 'y'].subrange(0, 1));
                        }
                    } else if a == 'd' {
                        assert(crate::text::is_prefix(ext@, seq!['d', 'd'])) by {
                            assert(ext@ =~= seq!['d', 'd'].subrange(0, 1));
                        }
                    } else {
                        assert(crate::text::is_prefix(ext@, seq!['\\', 'f'])) by {
                            assert(ext@ =~= seq!['\\', 'f'].subrange(0, 1));
                        }
                    }
                }
            }
            SeqOutcome::Buffering
        } else {
            SeqOutcome::Reset
        }
    } else if n == 2 {
        let a = ext[0];
        let b = ext[1];
        if a == 'g' && b == 'g' {
            proof {
                assert(ext@ =~= seq!['g', 'g']);
            }
            SeqOutcome::Fired(EditorCommand::JumpTop)
        } else if a == 'y' && b == 'y' {
            proof {
                assert(ext@ =~= seq!['y', 'y']);
            }
            SeqOutcome::Fired(EditorCommand::YankLine)
        } else if a == 'd' && b == 'd' {
            proof {
                assert(ext@ =~= seq!['d', 'd']);
            }
            SeqOutcome::Fired(EditorCommand::DeleteLine)
        } else if a == '\\' && b == 'f' {
            proof {
                assert(ext@ =~= seq!['\\', 'f']);
            }
            SeqOutcome::Fired(EditorCommand::SearchFiles)
        } else if a == '\\' && b == 't' {
            proof {
                assert(ext@ =~= seq!['\\', 't']);
            }
            SeqOutcome::Fired(EditorCommand::OpenFileTree)
        } else if a == '\\' && b == 'o' {
            proof {
                assert(crate::text::is_prefix(ext@, seq!['\\', 'o', 'b'])) by {
                    assert(ext@ =~= seq!['\\', 'o', 'b'].subrange(0, 2));
                }
            }
            SeqOutcome::Buffering
        } else {
            SeqOutcome::Reset
        }
    } else if n == 3 {
        let a = ext[0];
        let b = ext[1];
        let d = ext[2];
        if a == '\\' && b == 'o' && d == 'b' {
            proof {
                assert(ext@ =~= seq!['\\', 'o', 'b']);
            }
            SeqOutcome::Fired(EditorCommand::SearchBacklinks)
        } else if a == '\\' && b == 'o' && d == 't' {
            proof {
                assert(ext@ =~= seq!['\\', 'o', 't']);
            }
            SeqOutcome::Fired(EditorCommand::SearchTags)
        } else if a == '\\' && b == 'o' && d == 'o' {
            proof {
                assert(crate::text::is_prefix(ext@, seq!['\\', 'o', 'o', 't'])) by {
                    assert(ext@ =~= seq!['\\', 'o', 'o', 't'].subrange(0, 3));
                }
            }
            SeqOutcome::Buffering
        } else {
            SeqOutcome::Reset
        }
    } else if n == 4 {
        let a = ext[0];
        let b = ext[1];
        let d = ext[2];
        let e = ext[3];
        if a == '\\' && b == 'o' && d == 'o' && e == 't' {
            proof {
                assert(ext@ =~= seq!['\\', 'o', 'o', 't']);
            }
            SeqOutcome::Fired(EditorCommand::OpenToday)
        } else if a == '\\' && b == 'o' && d == 'o' && e == 'y' {
            proof {
                assert(ext@ =~= seq!['\\', 'o', 'o', 'y']);
            }
            SeqOutcome::Fired(EditorCommand::OpenYesterday)
        } else if a == '\\' && b == 'o' && d == 'o' && e == 'T' {
            proof {
                assert(ext@ =~= seq!['\\', 'o', 'o', 'T']);
            }
            SeqOutcome::Fired(EditorCommand::OpenTomorrow)
        } else {
            SeqOutcome::Reset
        }
    } else {
        SeqOutcome::Reset
    }
}

/// Resolves `prefix` extended by `c` against the file-tree command
/// table.
pub fn resolve_tree(prefix: &Vec<char>, c: char) -> (r: SeqOutcome<TreeCommand>)
    ensures
        r == spec_resolve_tree(prefix@.push(c)),
{
    let mut ext = clone_chars(prefix);
    ext.push(c);
    proof {
        assert(ext@ == prefix@.push(c));
    }
    let n = ext.len();
    if n == 1 {
        if ext[0] == 'o' {
            proof {
                assert(crate::text::is_prefix(ext@, seq!['o', 'c'])) by {
                    assert(ext@ =~= seq!['o', 'c'].subrange(0, 1));
                }
            }
            SeqOutcome::Buffering
        } else {
            SeqOutcome::Reset
        }
    } else if n == 2 {
        if ext[0] == 'o' && ext[1] == 'c' {
            proof {
                assert(ext@ =~= seq!['o', 'c']);
            }
            SeqOutcome::Fired(TreeCommand::SortByModified)
        } else if ext[0] == 'o' && ext[1] == 'n' {
            proof {
                assert(ext@ =~= seq!['o', 'n']);
            }
            SeqOutcome::Fired(TreeCommand::SortByName)
        } else {
            SeqOutcome::Reset
        }
    } else {
        SeqOutcome::Reset
    }
}

} // verus!
