//! Core of a modal (vim-style) text editing engine for a terminal
//! note-taking application: the line buffer with snapshot undo/redo,
//! coordinate translation between character and byte offsets, the
//! selection engine, the key-sequence resolver, the navigation history,
//! and the mode state machine that routes key events.

pub mod buffer;
pub mod complete;
pub mod history;
pub mod keyseq;
pub mod selection;
pub mod session;
pub mod text;
pub mod tree;
pub mod wikilink;

