//! The mode state machine: the editing session's state, and the
//! dispatcher that receives one key event at a time, routes it to the
//! handler of the current mode, and produces mode transitions, buffer
//! and selection mutations, and requests to the surrounding
//! application (saving, opening a document, running a query).
//!
//! The machine never performs I/O itself: every collaborator call is
//! returned as an [`Effect`], and the collaborator's answer comes back
//! through one of the `deliver_*` / `document_opened` methods.

use vstd::prelude::*;
use crate::buffer::{BufModel, TextBuffer, text_of};
use crate::history::NavHistory;
use crate::keyseq::{EditorCommand, SeqOutcome, TreeCommand};
use crate::tree::{SortBy, TreeItem, TreeNode};
use crate::wikilink::BacklinkRow;

verus! {

/// The editing mode; exactly one is active at any time.
#[derive(Clone, Copy, PartialEq, Eq, Structural, Debug)]
pub enum Mode {
    Normal,
    Insert,
    Command,
    Complete,
    Search,
    TagFiles,
    Visual,
    VisualBlock,
    BlockInsert,
    FileTree,
    FileTreeVisual,
}

/// Which pane the main area shows.
#[derive(Clone, Copy, PartialEq, Eq, Structural, Debug)]
pub enum ViewKind {
    Editor,
    Info,
}

/// What an active completion completes.
#[derive(Clone, Copy, PartialEq, Eq, Structural, Debug)]
pub enum CompletionType {
    Inactive,
    File,
    Tag,
}

/// What an active search searches.
#[derive(Clone, Copy, PartialEq, Eq, Structural, Debug)]
pub enum SearchType {
    Inactive,
    Backlinks,
    Tags,
    Files,
}

/// Where a block insert puts its column: before the selection or after
/// it.
#[derive(Clone, Copy, PartialEq, Eq, Structural, Debug)]
pub enum InsertPosition {
    Before,
    After,
}

/// What a tree paste does with the buffered paths.
#[derive(Clone, Copy, PartialEq, Eq, Structural, Debug)]
pub enum BufferMode {
    Copy,
    Cut,
}

/// A logical key.
#[derive(Clone, Copy, PartialEq, Eq, Structural, Debug)]
pub enum KeyCode {
    Char(char),
    Enter,
    Esc,
    Backspace,
    Left,
    Right,
    Up,
    Down,
    Home,
    End,
}

/// One key event: the key and whether Control was held.
#[derive(Clone, Copy, PartialEq, Eq, Structural, Debug)]
pub struct KeyInput {
    pub code: KeyCode,
    pub ctrl: bool,
}

/// The status reported to the user after the last event.
#[derive(Clone, Copy, PartialEq, Eq, Structural, Debug)]
pub enum Status {
    Normal,
    Insert,
    Visual,
    VisualBlock,
    BlockInsertBefore,
    BlockInsertAfter,
    Command,
    MovedToTop,
    YankedLine,
    DeletedLine,
    Deleted,
    Yanked,
    Undone,
    NothingToUndo,
    Redone,
    NothingToRedo,
    InvalidSequence,
    NoPreviousFile,
    NoNextFile,
    Saved,
    Searching,
    Completing,
    FileTree,
    TreeVisual,
    RenamePrompt,
    NewFilePrompt,
    UnknownCommand,
    UnsupportedKey,
    NoResultSelected,
    SelectTagFile,
    NoTagFiles,
    TagInfo,
    DateOutOfRange,
    FullTree,
    SplitTree,
    YankedPaths,
    CutPaths,
    Pasted,
    NoPathsInBuffer,
    CannotDeleteDirectory,
    RenameSingleOnly,
    SortedTree,
    NothingToFollow,
}

/// A request to the surrounding application.  The session never
/// performs these itself.
pub enum Effect {
    /// Write the buffer's content to the current document and index it.
    SaveDocument,
    /// Open the document a wikilink leads to, creating it when it does
    /// not exist yet; the first payload is the file name the link
    /// resolves to, the second the link text itself (the creation
    /// path).  Report back through `document_opened` with `record`
    /// set.
    OpenWikilink(Vec<char>, Vec<char>),
    /// Reopen a document known from the history; report back through
    /// `document_opened` with `record` clear.
    OpenKnown(String, i64),
    /// Open the document with this id; report back through
    /// `document_opened` with `record` set.
    OpenById(i64),
    /// Run the search query of the given kind and report back through
    /// `deliver_search_results`.
    QuerySearch(SearchType, Vec<char>),
    /// Run the completion query of the given kind and report back
    /// through `deliver_suggestions`.
    QueryCompletion(CompletionType, Vec<char>),
    /// Load the files bearing the tag and report back through
    /// `deliver_tag_files`.
    QueryTagFiles(Vec<char>),
    /// Show which files bear the tag in the info pane.
    ShowTagInfo(Vec<char>),
    /// Read the tree root and report back through `set_tree_root`.
    LoadTree,
    /// Read a directory and report back through `set_dir_children`.
    LoadDir(Vec<char>),
    /// Delete one file, then remove it from the index.
    DeleteFile(Vec<char>),
    /// Delete several files, then remove them from the index.
    DeleteFiles(Vec<Vec<char>>),
    /// Rename the file (old relative path, new name within its
    /// directory).
    RenameFile(Vec<char>, Vec<char>),
    /// Create a new note (target directory, name).
    CreateFile(Vec<char>, Vec<char>),
    /// Move the files into the target directory.
    MovePaths(Vec<Vec<char>>, Vec<char>),
    /// Copy the files into the target directory.
    CopyPaths(Vec<Vec<char>>, Vec<char>),
}

/// One search hit: what is shown, and the document it leads to (absent
/// for tag hits).
pub struct SearchResult {
    pub label: Vec<char>,
    pub file_id: Option<i64>,
}

/// One file bearing the selected tag.
pub struct TagFileEntry {
    pub name: Vec<char>,
    pub file_id: i64,
}

/// The completion sub-state; meaningful only in Complete mode.
pub struct CompletionState {
    pub active: bool,
    pub kind: CompletionType,
    pub query: Vec<char>,
    pub suggestions: Vec<Vec<char>>,
    pub selected: Option<usize>,
    pub trigger_start: (usize, usize),
}

/// The search sub-state; meaningful only in Search mode.
pub struct SearchState {
    pub active: bool,
    pub kind: SearchType,
    pub query: Vec<char>,
    pub results: Vec<SearchResult>,
    pub selected: Option<usize>,
}

/// The whole editing session.
pub struct Session {
    pub mode: Mode,
    pub view: ViewKind,
    pub status: Status,
    pub buffer: TextBuffer,
    pub cur_path: String,
    pub cur_id: i64,
    pub should_quit: bool,
    pub command: Vec<char>,
    pub prev_mode: Option<Mode>,
    pub key_sequence: Vec<char>,
    pub yanked: Vec<Vec<char>>,
    pub visual_anchor: Option<(usize, usize)>,
    pub insert_position: InsertPosition,
    pub block_insert_col: usize,
    pub block_origin_col: usize,
    pub history: NavHistory,
    pub completion: CompletionState,
    pub search: SearchState,
    pub tag_files: Vec<TagFileEntry>,
    pub tag_files_selected: Option<usize>,
    pub backlinks: Vec<BacklinkRow>,
    pub tags: Vec<Vec<char>>,
    pub file_tree: Vec<TreeNode>,
    pub visible_items: Vec<TreeItem>,
    pub tree_selected: Option<usize>,
    pub sort_by: SortBy,
    pub sort_asc: bool,
    pub yanked_paths: Vec<Vec<char>>,
    pub tree_visual_anchor: Option<usize>,
    pub tree_width_percent: u16,
    pub full_tree: bool,
    pub buffer_mode: Option<BufferMode>,
}

impl Session {
    /// The session invariant: the buffer and history are well formed,
    /// a selection anchor exists only in the selection modes and lies
    /// inside the buffer, every selected index lies inside its list,
    /// and the key-sequence prefix is non-empty only in the modes that
    /// buffer one.
    pub open spec fn wf(&self) -> bool {
        &&& self.buffer.wf()
        &&& self.history.wf()
        &&& (self.visual_anchor matches Some(a) ==> a.0 < self.buffer.text().len())
        &&& (!(self.mode == Mode::Visual || self.mode == Mode::VisualBlock || self.mode
            == Mode::BlockInsert) ==> self.visual_anchor is None)
        &&& (self.completion.selected matches Some(k) ==> k < self.completion.suggestions.len())
        &&& (self.search.selected matches Some(k) ==> k < self.search.results.len())
        &&& (self.tag_files_selected matches Some(k) ==> k < self.tag_files.len())
        &&& (self.tree_selected matches Some(k) ==> k < self.visible_items.len())
        &&& (self.tree_visual_anchor matches Some(k) ==> k < self.visible_items.len())
        &&& (!(self.mode == Mode::Normal || self.mode == Mode::FileTree)
            ==> self.key_sequence@.len() == 0)
    }

    /// A fresh session on an opened document.
    pub fn new(path: String, file_id: i64, lines: Vec<Vec<char>>) -> (r: Session)
        ensures
            r.wf(),
            r.mode == Mode::Normal,
            r.view == ViewKind::Editor,
            lines@.len() > 0 ==> r.buffer.text() == text_of(lines@),
            lines@.len() == 0 ==> r.buffer.text() =~= seq![Seq::<char>::empty()],
            r.buffer.row == 0 && r.buffer.col == 0,
            r.history.entries@.len() == 1,
            r.history.entries@[0].path == path,
            r.history.entries@[0].file_id == file_id,
            r.history.index == 0,
            !r.should_quit,
            r.key_sequence@.len() == 0,
            r.command@.len() == 0,
            r.yanked@.len() == 0,
            r.visual_anchor is None,
            !r.completion.active,
            r.completion.kind == CompletionType::Inactive,
            !r.search.active,
            r.search.kind == SearchType::Inactive,
            r.status == Status::Normal,
    {
        let buffer = TextBuffer::from_lines(lines);
        let mut history = NavHistory::new();
        let path2 = path.clone();
        history.push_visit(path, file_id);
        Session {
            mode: Mode::Normal,
            view: ViewKind::Editor,
            status: Status::Normal,
            buffer,
            cur_path: path2,
            cur_id: file_id,
            should_quit: false,
            command: Vec::new(),
            prev_mode: None,
            key_sequence: Vec::new(),
            yanked: Vec::new(),
            visual_anchor: None,
            insert_position: InsertPosition::Before,
            block_insert_col: 0,
            block_origin_col: 0,
            history,
            completion: CompletionState {
                active: false,
                kind: CompletionType::Inactive,
                query: Vec::new(),
                suggestions: Vec::new(),
                selected: None,
                trigger_start: (0, 0),
            },
            search: SearchState {
                active: false,
                kind: SearchType::Inactive,
                query: Vec::new(),
                results: Vec::new(),
                selected: None,
            },
            tag_files: Vec::new(),
            tag_files_selected: None,
            backlinks: Vec::new(),
            tags: Vec::new(),
            file_tree: Vec::new(),
            visible_items: Vec::new(),
            tree_selected: None,
            sort_by: SortBy::Name,
            sort_asc: true,
            yanked_paths: Vec::new(),
            tree_visual_anchor: None,
            tree_width_percent: 20,
            full_tree: false,
            buffer_mode: None,
        }
    }

    /// Installs a document the application has opened: the buffer is
    /// replaced wholesale with an empty history, every transient state
    /// is cleared, and the session returns to Normal mode in the
    /// editor view.  With `record` set the visit is recorded in the
    /// navigation history, discarding any forward entries; traversal
    /// reopens (back/forward) pass `record` clear.
    pub fn document_opened(&mut self, path: String, file_id: i64, lines: Vec<Vec<char>>, record: bool)
        requires
            old(self).wf(),
        ensures
            final(self).wf(),
            final(self).mode == Mode::Normal,
            final(self).view == ViewKind::Editor,
            lines@.len() > 0 ==> final(self).buffer.text() == text_of(lines@),
            lines@.len() == 0 ==> final(self).buffer.text() =~= seq![Seq::<char>::empty()],
            final(self).buffer.row == 0 && final(self).buffer.col == 0,
            final(self).buffer.model().undo.len() == 0,
            final(self).buffer.model().redo.len() == 0,
            final(self).cur_path@ == path@,
            final(self).cur_id == file_id,
            final(self).visual_anchor is None,
            !final(self).completion.active,
            !final(self).search.active,
            final(self).key_sequence@.len() == 0,
            record ==> (old(self).history.entries@.len() == 0 ==> final(self).history.entries@.len()
                == 1) && (old(self).history.entries@.len() > 0 ==> final(self).history.entries@.len() == old(self).history.index + 2) && final(self).history.entries@.last().path == path,
            !record ==> final(self).history == old(self).history,
    {
        let path2 = path.clone();
        self.buffer = TextBuffer::from_lines(lines);
        self.cur_path = path2;
        self.cur_id = file_id;
        self.mode = Mode::Normal;
        self.view = ViewKind::Editor;
        self.status = Status::Normal;
        self.visual_anchor = None;
        self.key_sequence = Vec::new();
        self.completion = CompletionState {
            active: false,
            kind: CompletionType::Inactive,
            query: Vec::new(),
            suggestions: Vec::new(),
            selected: None,
            trigger_start: (0, 0),
        };
        self.search = SearchState {
            active: false,
            kind: SearchType::Inactive,
            query: Vec::new(),
            results: Vec::new(),
            selected: None,
        };
        self.tag_files = Vec::new();
        self.tag_files_selected = None;
        if record {
            self.history.push_visit(path, file_id);
        }
    }

    /// Stores the backlink rows of the current document, collapsed to
    /// unique labels with the shortest-basename tie-break.
    pub fn set_backlinks(&mut self, rows: &Vec<BacklinkRow>)
        requires
            old(self).wf(),
        ensures
            final(self).wf(),
            crate::wikilink::models_of(final(self).backlinks@) == crate::wikilink::spec_dedup(
                crate::wikilink::models_of(rows@),
            ),
            final(self).mode == old(self).mode,
            final(self).buffer == old(self).buffer,
    {
        self.backlinks = crate::wikilink::dedup_backlinks(rows);
    }

    /// Stores the tags of the current document.
    pub fn set_tags(&mut self, tags: Vec<Vec<char>>)
        requires
            old(self).wf(),
        ensures
            final(self).wf(),
            final(self).tags == tags,
            final(self).mode == old(self).mode,
            final(self).buffer == old(self).buffer,
    {
        self.tags = tags;
    }

    /// Stores the suggestions a completion query returned; the first
    /// one is selected when there are any.
    pub fn deliver_suggestions(&mut self, suggestions: Vec<Vec<char>>)
        requires
            old(self).wf(),
        ensures
            final(self).wf(),
            final(self).completion.suggestions == suggestions,
            suggestions@.len() > 0 ==> final(self).completion.selected == Some(0usize),
            suggestions@.len() == 0 ==> final(self).completion.selected is None,
            final(self).mode == old(self).mode,
            final(self).buffer == old(self).buffer,
    {
        let has = suggestions.len() > 0;
        self.completion.suggestions = suggestions;
        self.completion.selected = if has {
            Some(0)
        } else {
            None
        };
    }

    /// Stores the results a search query returned; the first one is
    /// selected when there are any.
    pub fn deliver_search_results(&mut self, results: Vec<SearchResult>)
        requires
            old(self).wf(),
        ensures
            final(self).wf(),
            final(self).search.results == results,
            results@.len() > 0 ==> final(self).search.selected == Some(0usize),
            results@.len() == 0 ==> final(self).search.selected is None,
            final(self).mode == old(self).mode,
            final(self).buffer == old(self).buffer,
    {
        let has = results.len() > 0;
        self.search.results = results;
        self.search.selected = if has {
            Some(0)
        } else {
            None
        };
    }

    /// Stores the files bearing the selected tag: with at least one
    /// file the session moves to TagFiles mode with the first file
    /// selected; with none it reports so and returns to Normal mode.
    pub fn deliver_tag_files(&mut self, files: Vec<TagFileEntry>)
        requires
            old(self).wf(),
            old(self).mode == Mode::Search || old(self).mode == Mode::Normal,
        ensures
            final(self).wf(),
            files@.len() > 0 ==> final(self).mode == Mode::TagFiles && final(self).tag_files
                == files && final(self).tag_files_selected == Some(0usize),
            files@.len() == 0 ==> final(self).mode == Mode::Normal && final(self).status
                == Status::NoTagFiles,
            final(self).buffer == old(self).buffer,
    {
        if files.len() > 0 {
            self.tag_files = files;
            self.tag_files_selected = Some(0);
            self.mode = Mode::TagFiles;
            self.status = Status::SelectTagFile;
            self.search.active = false;
            self.search.kind = SearchType::Inactive;
            self.search.query = Vec::new();
            self.search.results = Vec::new();
            self.search.selected = None;
            self.key_sequence = Vec::new();
        } else {
            self.tag_files = Vec::new();
            self.tag_files_selected = None;
            self.mode = Mode::Normal;
            self.status = Status::NoTagFiles;
            self.search.active = false;
            self.search.kind = SearchType::Inactive;
            self.search.query = Vec::new();
            self.search.results = Vec::new();
            self.search.selected = None;
            self.key_sequence = Vec::new();
        }
    }

    /// Installs the tree root the application has read: the entries
    /// are sorted in the current order, become the new tree, and the
    /// visible rows are the flattening of that tree with the first row
    /// selected when there is one.
    pub fn set_tree_root(&mut self, entries: &Vec<crate::tree::DirEntry>)
        requires
            old(self).wf(),
        ensures
            final(self).wf(),
            final(self).mode == old(self).mode,
            final(self).buffer == old(self).buffer,
            crate::tree::item_models(final(self).visible_items@) =~= crate::tree::spec_visible(
                final(self).file_tree,
            ),
            final(self).visible_items@.len() > 0 ==> final(self).tree_selected == Some(0usize),
            final(self).visible_items@.len() == 0 ==> final(self).tree_selected is None,
            final(self).tree_visual_anchor is None,
    {
        let sorted = crate::tree::sort_entries(entries, self.sort_by, self.sort_asc);
        self.file_tree = crate::tree::entries_to_nodes(&sorted);
        self.visible_items = crate::tree::flatten_tree(&self.file_tree);
        let n = self.visible_items.len();
        self.tree_selected = if n > 0 {
            Some(0)
        } else {
            None
        };
        self.tree_visual_anchor = None;
    }

    /// Installs the children of a directory the application has read;
    /// the directory becomes expanded and the visible rows are the
    /// flattening of the updated tree.
    pub fn set_dir_children(&mut self, path: &Vec<char>, entries: &Vec<crate::tree::DirEntry>)
        requires
            old(self).wf(),
        ensures
            final(self).wf(),
            final(self).mode == old(self).mode,
            final(self).buffer == old(self).buffer,
            crate::tree::item_models(final(self).visible_items@) =~= crate::tree::spec_visible(
                final(self).file_tree,
            ),
    {
        let sorted = crate::tree::sort_entries(entries, self.sort_by, self.sort_asc);
        let children = crate::tree::entries_to_nodes(&sorted);
        self.file_tree = crate::tree::with_dir_state(&self.file_tree, path, true, Some(&children));
        self.refresh_visible();
    }

    /// Recomputes the visible rows from the tree and clamps the
    /// selections into them.
    fn refresh_visible(&mut self)
        requires
            old(self).wf(),
        ensures
            final(self).wf(),
            final(self).mode == old(self).mode,
            final(self).buffer == old(self).buffer,
            final(self).key_sequence == old(self).key_sequence,
            final(self).file_tree == old(self).file_tree,
            crate::tree::item_models(final(self).visible_items@) =~= crate::tree::spec_visible(
                final(self).file_tree,
            ),
    {
        self.visible_items = crate::tree::flatten_tree(&self.file_tree);
        let n = self.visible_items.len();
        match self.tree_selected {
            Some(k) => {
                if k >= n {
                    self.tree_selected = if n > 0 {
                        Some(n - 1)
                    } else {
                        None
                    };
                }
            },
            None => {
                if n > 0 {
                    self.tree_selected = Some(0);
                }
            },
        }
        match self.tree_visual_anchor {
            Some(k) => {
                if k >= n {
                    self.tree_visual_anchor = if n > 0 {
                        Some(n - 1)
                    } else {
                        None
                    };
                }
            },
            None => {},
        }
    }
}

/// The full text a committed suggestion leaves behind: the trigger,
/// the suggestion, and for a file completion the closing brackets.
pub open spec fn spec_completed_text(file_kind: bool, suggestion: Seq<char>) -> Seq<char> {
    if file_kind {
        seq!['[', '['] + suggestion + seq![']', ']']
    } else {
        seq!['#'] + suggestion
    }
}

/// Where a committed suggestion starts replacing: at the most recent
/// trigger before the cursor, or, with no trigger in the prefix, at
/// the cursor moved back over the query and the trigger's width
/// (clamped to the line head).
pub open spec fn spec_completion_start(line: Seq<char>, col: int, file_kind: bool, qlen: int) -> int {
    let t = crate::text::spec_rfind(
        line.subrange(0, col),
        if file_kind {
            seq!['[', '[']
        } else {
            seq!['#']
        },
        col,
    );
    let tl: int = if file_kind {
        2
    } else {
        1
    };
    if t >= 0 {
        t
    } else if col - tl - qlen >= 0 {
        col - tl - qlen
    } else {
        0
    }
}

/// The directory part of a relative path: everything before the last
/// `/`, or nothing when there is none.
pub open spec fn spec_parent_dir(p: Seq<char>) -> Seq<char> {
    let cut = crate::text::spec_rfind(p, seq!['/'], p.len() as int);
    if cut < 0 {
        Seq::empty()
    } else {
        p.subrange(0, cut)
    }
}

impl Session {
    /// Leaves completion and returns to Insert mode, clearing every
    /// piece of completion state.
    fn cancel_completion(&mut self)
        requires
            old(self).wf(),
            old(self).mode == Mode::Complete || old(self).mode == Mode::Insert,
        ensures
            final(self).wf(),
            final(self).mode == Mode::Insert,
            !final(self).completion.active,
            final(self).completion.kind == CompletionType::Inactive,
            final(self).completion.query@.len() == 0,
            final(self).completion.suggestions@.len() == 0,
            final(self).completion.selected is None,
            final(self).buffer == old(self).buffer,
    {
        self.completion = CompletionState {
            active: false,
            kind: CompletionType::Inactive,
            query: Vec::new(),
            suggestions: Vec::new(),
            selected: None,
            trigger_start: (0, 0),
        };
        self.mode = Mode::Insert;
        self.status = Status::Insert;
    }

    /// Starts a completion of the given kind at the cursor and enters
    /// Complete mode.
    fn start_completion(&mut self, kind: CompletionType)
        requires
            old(self).wf(),
            old(self).mode == Mode::Insert || old(self).mode == Mode::Complete,
        ensures
            final(self).wf(),
            final(self).mode == Mode::Complete,
            final(self).completion.active,
            final(self).completion.kind == kind,
            final(self).completion.trigger_start == (old(self).buffer.row, old(self).buffer.col),
            final(self).buffer == old(self).buffer,
    {
        let cursor = self.buffer.cursor();
        self.completion = CompletionState {
            active: true,
            kind,
            query: Vec::new(),
            suggestions: Vec::new(),
            selected: None,
            trigger_start: cursor,
        };
        self.mode = Mode::Complete;
        self.status = Status::Completing;
    }

    /// Recomputes the completion query from the cursor's line and asks
    /// the provider for suggestions once the query reaches two
    /// characters; a shorter query clears the suggestions without
    /// leaving Complete mode.
    fn update_completion(&mut self, fx: &mut Vec<Effect>)
        requires
            old(self).wf(),
            old(self).mode == Mode::Complete,
        ensures
            final(self).wf(),
            final(self).mode == Mode::Complete,
            final(self).buffer == old(self).buffer,
            ({
                let line = old(self).buffer.text()[old(self).buffer.row as int];
                let q = crate::complete::spec_completion_query(
                    line,
                    old(self).buffer.col as int,
                    old(self).completion.kind == CompletionType::File,
                );
                &&& final(self).completion.query@ == q
                &&& (q.len() >= 2 ==> final(fx)@.len() == old(fx)@.len() + 1 && (final(fx)@.last() matches Effect::QueryCompletion(k, qq) && k == old(self).completion.kind
                    && qq@ == q))
                &&& (q.len() < 2 ==> final(fx)@ == old(fx)@ && final(self).completion.suggestions@.len() == 0 && final(self).completion.selected is None)
                &&& final(self).completion.active == old(self).completion.active
                &&& final(self).completion.kind == old(self).completion.kind
            }),
    {
        let (row, col) = self.buffer.cursor();
        let file_kind = match self.completion.kind {
            CompletionType::File => true,
            _ => false,
        };
        let q = crate::complete::completion_query(self.buffer.line_at(row), col, file_kind);
        let q2 = crate::buffer::clone_chars(&q);
        let long_enough = q.len() >= 2;
        self.completion.query = q;
        if long_enough {
            fx.push(Effect::QueryCompletion(self.completion.kind, q2));
        } else {
            self.completion.suggestions = Vec::new();
            self.completion.selected = None;
        }
    }

    /// One key in Insert mode: Escape returns to Normal mode;
    /// printable characters are inserted at the cursor and, when they
    /// complete a `[[` or `#` trigger, open a completion; Enter splits
    /// the line; Backspace deletes backwards; the remaining keys are
    /// cursor motions.
    pub fn handle_insert(&mut self, key: KeyInput) -> (fx: Vec<Effect>)
        requires
            old(self).wf(),
            old(self).mode == Mode::Insert,
        ensures
            final(self).wf(),
            key.code == KeyCode::Esc ==> final(self).mode == Mode::Normal && final(self).buffer
                == old(self).buffer && fx@.len() == 0,
            key.code matches KeyCode::Char(c) ==> ({
                let b1 = crate::buffer::spec_insert_char(old(self).buffer.model(), c);
                let line = b1.text[b1.row];
                &&& final(self).buffer.model() =~~= b1
                &&& fx@.len() == 0
                &&& (crate::complete::spec_file_trigger(line, b1.col) ==> final(self).mode
                    == Mode::Complete && final(self).completion.kind == CompletionType::File)
                &&& (!crate::complete::spec_file_trigger(line, b1.col)
                    && crate::complete::spec_tag_trigger(line, b1.col) ==> final(self).mode
                    == Mode::Complete && final(self).completion.kind == CompletionType::Tag)
                &&& (!crate::complete::spec_file_trigger(line, b1.col)
                    && !crate::complete::spec_tag_trigger(line, b1.col) ==> final(self).mode
                    == Mode::Insert)
            }),
            key.code == KeyCode::Enter ==> final(self).buffer.model() =~~= crate::buffer::spec_newline(
                old(self).buffer.model(),
            ) && final(self).mode == Mode::Insert && fx@.len() == 0,
            key.code == KeyCode::Backspace ==> final(self).buffer.model()
                =~~= crate::buffer::spec_backspace(old(self).buffer.model()) && final(self).mode
                == Mode::Insert && fx@.len() == 0,
    {
        let fx: Vec<Effect> = Vec::new();
        match key.code {
            KeyCode::Esc => {
                self.mode = Mode::Normal;
                self.status = Status::Normal;
            },
            KeyCode::Char(c) => {
                self.buffer.insert_char(c);
                let (row, col) = self.buffer.cursor();
                let file_trigger = crate::complete::file_trigger_at(self.buffer.line_at(row), col);
                let tag_trigger = crate::complete::tag_trigger_at(self.buffer.line_at(row), col);
                if file_trigger {
                    self.start_completion(CompletionType::File);
                } else if tag_trigger {
                    self.start_completion(CompletionType::Tag);
                }
            },
            KeyCode::Enter => {
                self.buffer.insert_newline();
            },
            KeyCode::Backspace => {
                self.buffer.delete_char_before();
            },
            KeyCode::Left => {
                if key.ctrl {
                    self.buffer.word_back();
                } else {
                    self.buffer.move_left();
                }
            },
            KeyCode::Right => {
                if key.ctrl {
                    self.buffer.word_forward();
                } else {
                    self.buffer.move_right();
                }
            },
            KeyCode::Up => {
                self.buffer.move_up();
            },
            KeyCode::Down => {
                self.buffer.move_down();
            },
            KeyCode::Home => {
                self.buffer.move_head();
            },
            KeyCode::End => {
                self.buffer.move_end();
            },
        }
        fx
    }

    /// Commits the selected suggestion: the text from the trigger to
    /// the cursor is replaced with the completed form (`[[name]]` or
    /// `#name`), and the session returns to Insert mode.  Without a
    /// selected suggestion the completion is simply cancelled.
    fn select_completion(&mut self) -> (fx: Vec<Effect>)
        requires
            old(self).wf(),
            old(self).mode == Mode::Complete,
        ensures
            final(self).wf(),
            final(self).mode == Mode::Insert,
            !final(self).completion.active,
            fx@.len() == 0,
            old(self).completion.selected is None ==> final(self).buffer == old(self).buffer,
            old(self).completion.selected matches Some(sel) ==> ({
                let file_kind = old(self).completion.kind == CompletionType::File;
                let line = old(self).buffer.text()[old(self).buffer.row as int];
                &&& (sel < old(self).completion.suggestions@.len() ==> final(self).buffer.model()
                    =~~= crate::buffer::spec_replace_in_line(
                    old(self).buffer.model(),
                    spec_completion_start(
                        line,
                        old(self).buffer.col as int,
                        file_kind,
                        old(self).completion.query@.len() as int,
                    ),
                    old(self).buffer.col as int,
                    spec_completed_text(
                        file_kind,
                        old(self).completion.suggestions@[sel as int]@,
                    ),
                ))
                &&& (sel >= old(self).completion.suggestions@.len() ==> final(self).buffer == old(self).buffer)
            }),
    {
        let fx: Vec<Effect> = Vec::new();
        let file_kind = match self.completion.kind {
            CompletionType::File => true,
            _ => false,
        };
        match self.completion.selected {
            Some(sel) => {
                if sel < self.completion.suggestions.len() {
                    let (row, col) = self.buffer.cursor();
                    let mut needle: Vec<char> = Vec::new();
                    if file_kind {
                        needle.push('[');
                        needle.push('[');
                    } else {
                        needle.push('#');
                    }
                    let prefix = crate::text::slice_clamped(self.buffer.line_at(row), 0, col);
                    let ghost line = self.buffer.text()[self.buffer.row as int];
                    proof {
                        assert(prefix@ =~= line.subrange(0, col as int));
                        if file_kind {
                            assert(needle@ =~= seq!['[', '[']);
                        } else {
                            assert(needle@ =~= seq!['#']);
                        }
                    }
                    let start = match crate::text::rfind_sub_before(&prefix, &needle, col) {
                        Some(t) => t,
                        None => {
                            let qlen = self.completion.query.len();
                            let nlen = needle.len();
                            if col >= nlen && col - nlen >= qlen {
                                col - nlen - qlen
                            } else {
                                0
                            }
                        },
                    };
                    proof {
                        assert(start == spec_completion_start(
                            line,
                            col as int,
                            file_kind,
                            self.completion.query@.len() as int,
                        ));
                    }
                    let mut repl: Vec<char> = Vec::new();
                    if file_kind {
                        repl.push('[');
                        repl.push('[');
                    } else {
                        repl.push('#');
                    }
                    let ghost lead = repl@;
                    let suggestion = &self.completion.suggestions[sel];
                    let mut k: usize = 0;
                    while k < suggestion.len()
                        invariant
                            0 <= k <= suggestion@.len(),
                            repl@ == lead + suggestion@.subrange(0, k as int),
                        decreases suggestion@.len() - k,
                    {
                        repl.push(suggestion[k]);
                        proof {
                            assert(repl@ =~= lead + suggestion@.subrange(0, k + 1));
                        }
                        k = k + 1;
                    }
                    if file_kind {
                        repl.push(']');
                        repl.push(']');
                    }
                    proof {
                        assert(suggestion@.subrange(0, suggestion@.len() as int) =~= suggestion@);
                        assert(repl@ =~= spec_completed_text(file_kind, suggestion@));
                    }
                    let end = if col <= self.buffer.line_len(row) {
                        col
                    } else {
                        self.buffer.line_len(row)
                    };
                    let start2 = if start <= end {
                        start
                    } else {
                        end
                    };
                    proof {
                        assert(end == col);
                        assert(start2 == start);
                    }
                    self.buffer.replace_in_line(start2, end, &repl);
                }
            },
            None => {},
        }
        self.cancel_completion();
        fx
    }

    /// One key in Complete mode: Escape cancels back to Insert; Enter
    /// commits the selected suggestion; Up and Down move the
    /// selection; characters and Backspace keep editing the buffer and
    /// re-derive the query, cancelling the completion when its trigger
    /// is no longer present before the cursor.
    pub fn handle_complete(&mut self, key: KeyInput) -> (fx: Vec<Effect>)
        requires
            old(self).wf(),
            old(self).mode == Mode::Complete,
        ensures
            final(self).wf(),
            key.code == KeyCode::Esc ==> final(self).mode == Mode::Insert && !final(self).completion.active && final(self).buffer == old(self).buffer,
            key.code == KeyCode::Enter ==> final(self).mode == Mode::Insert && !final(self).completion.active && fx@.len() == 0 && (old(self).completion.selected is None
                ==> final(self).buffer == old(self).buffer) && (
            old(self).completion.selected matches Some(sel) ==> ({
                let file_kind = old(self).completion.kind == CompletionType::File;
                let line = old(self).buffer.text()[old(self).buffer.row as int];
                &&& (sel < old(self).completion.suggestions@.len() ==> final(self).buffer.model()
                    =~~= crate::buffer::spec_replace_in_line(
                    old(self).buffer.model(),
                    spec_completion_start(
                        line,
                        old(self).buffer.col as int,
                        file_kind,
                        old(self).completion.query@.len() as int,
                    ),
                    old(self).buffer.col as int,
                    spec_completed_text(
                        file_kind,
                        old(self).completion.suggestions@[sel as int]@,
                    ),
                ))
                &&& (sel >= old(self).completion.suggestions@.len() ==> final(self).buffer == old(self).buffer)
            })),
            key.code matches KeyCode::Char(c) ==> final(self).buffer.model()
                =~~= crate::buffer::spec_insert_char(old(self).buffer.model(), c) && final(self).mode == Mode::Complete,
            key.code == KeyCode::Backspace ==> ({
                let b1 = crate::buffer::spec_backspace(old(self).buffer.model());
                let present = crate::complete::spec_trigger_present(
                    b1.text[b1.row],
                    b1.col,
                    old(self).completion.kind == CompletionType::File,
                );
                &&& final(self).buffer.model() =~~= b1
                &&& (present ==> final(self).mode == Mode::Complete)
                &&& (!present ==> final(self).mode == Mode::Insert && !final(self).completion.active)
            }),
    {
        let mut fx: Vec<Effect> = Vec::new();
        match key.code {
            KeyCode::Esc => {
                self.cancel_completion();
            },
            KeyCode::Enter => {
                let fx2 = self.select_completion();
                return fx2;
            },
            KeyCode::Up => {
                match self.completion.selected {
                    Some(sel) => {
                        if sel > 0 {
                            self.completion.selected = Some(sel - 1);
                        }
                    },
                    None => {},
                }
            },
            KeyCode::Down => {
                match self.completion.selected {
                    Some(sel) => {
                        if sel + 1 < self.completion.suggestions.len() {
                            self.completion.selected = Some(sel + 1);
                        }
                    },
                    None => {},
                }
            },
            KeyCode::Char(c) => {
                self.buffer.insert_char(c);
                self.update_completion(&mut fx);
            },
            KeyCode::Backspace => {
                self.buffer.delete_char_before();
                let (row, col) = self.buffer.cursor();
                let file_kind = match self.completion.kind {
                    CompletionType::File => true,
                    _ => false,
                };
                let present = crate::complete::trigger_present(
                    self.buffer.line_at(row),
                    col,
                    file_kind,
                );
                if !present {
                    self.cancel_completion();
                } else {
                    self.update_completion(&mut fx);
                }
            },
            _ => {},
        }
        fx
    }

    /// One key in Command mode: Escape abandons the command and
    /// returns to the mode the prompt was opened from; Enter executes
    /// it (`w` saves, `q` quits, `wq` does both, `rename NAME` and
    /// `new NAME` act on the tree selection); characters and Backspace
    /// edit the command text.
    pub fn handle_command(&mut self, key: KeyInput) -> (fx: Vec<Effect>)
        requires
            old(self).wf(),
            old(self).mode == Mode::Command,
        ensures
            final(self).wf(),
            final(self).buffer == old(self).buffer,
            key.code == KeyCode::Esc ==> final(self).mode == (match old(self).prev_mode {
                Some(m) => m,
                None => Mode::Normal,
            }) && final(self).command@.len() == 0 && fx@.len() == 0,
            key.code matches KeyCode::Char(c) ==> final(self).command@ == old(self).command@.push(c) && final(self).mode == Mode::Command && fx@.len() == 0,
            key.code == KeyCode::Backspace ==> final(self).command@ == (if old(self).command@.len() > 0 {
                old(self).command@.drop_last()
            } else {
                old(self).command@
            }) && final(self).mode == Mode::Command && fx@.len() == 0,
            key.code == KeyCode::Enter ==> final(self).mode == (match old(self).prev_mode {
                Some(m) => m,
                None => Mode::Normal,
            }) && final(self).command@.len() == 0 && (old(self).command@ == seq!['w']
                ==> fx@ =~= seq![Effect::SaveDocument]) && (old(self).command@ == seq!['q']
                ==> final(self).should_quit) && (old(self).command@ == seq!['w', 'q'] ==> fx@
                =~= seq![Effect::SaveDocument] && final(self).should_quit),
    {
        let mut fx: Vec<Effect> = Vec::new();
        match key.code {
            KeyCode::Esc => {
                let back = match self.prev_mode {
                    Some(m) => m,
                    None => Mode::Normal,
                };
                self.mode = back;
                self.status = Status::Normal;
                self.command = Vec::new();
                self.prev_mode = None;
            },
            KeyCode::Enter => {
                self.run_command(&mut fx);
                let back = match self.prev_mode {
                    Some(m) => m,
                    None => Mode::Normal,
                };
                self.mode = back;
                self.command = Vec::new();
                self.prev_mode = None;
            },
            KeyCode::Char(c) => {
                self.command.push(c);
            },
            KeyCode::Backspace => {
                if self.command.len() > 0 {
                    self.command.pop();
                }
            },
            _ => {},
        }
        fx
    }

    /// Executes the typed command.
    fn run_command(&mut self, fx: &mut Vec<Effect>)
        requires
            old(self).wf(),
            old(self).mode == Mode::Command,
        ensures
            final(self).wf(),
            final(self).mode == old(self).mode,
            final(self).buffer == old(self).buffer,
            final(self).command == old(self).command,
            final(self).prev_mode == old(self).prev_mode,
            final(self).key_sequence == old(self).key_sequence,
            old(self).command@ == seq!['w'] ==> final(fx)@ == old(fx)@.push(Effect::SaveDocument)
                && !final(self).should_quit == !old(self).should_quit,
            old(self).command@ == seq!['q'] ==> final(self).should_quit && final(fx)@ == old(fx)@,
            old(self).command@ == seq!['w', 'q'] ==> final(fx)@ == old(fx)@.push(
                Effect::SaveDocument,
            ) && final(self).should_quit,
    {
        let n = self.command.len();
        if n == 1 && self.command[0] == 'w' {
            proof {
                assert(self.command@ =~= seq!['w']);
            }
            fx.push(Effect::SaveDocument);
            self.status = Status::Saved;
        } else if n == 1 && self.command[0] == 'q' {
            proof {
                assert(self.command@ =~= seq!['q']);
            }
            self.should_quit = true;
        } else if n == 2 && self.command[0] == 'w' && self.command[1] == 'q' {
            proof {
                assert(self.command@ =~= seq!['w', 'q']);
            }
            fx.push(Effect::SaveDocument);
            self.should_quit = true;
        } else {
            let mut rename_prefix: Vec<char> = Vec::new();
            rename_prefix.push('r');
            rename_prefix.push('e');
            rename_prefix.push('n');
            rename_prefix.push('a');
            rename_prefix.push('m');
            rename_prefix.push('e');
            rename_prefix.push(' ');
            let mut new_prefix: Vec<char> = Vec::new();
            new_prefix.push('n');
            new_prefix.push('e');
            new_prefix.push('w');
            new_prefix.push(' ');
            proof {
                assert(self.command@ != seq!['w'] && self.command@ != seq!['q'] && self.command@
                    != seq!['w', 'q']) by {
                    if self.command@ == seq!['w'] {
                        assert(self.command@[0] == 'w' && self.command@.len() == 1);
                    }
                    if self.command@ == seq!['q'] {
                        assert(self.command@[0] == 'q' && self.command@.len() == 1);
                    }
                    if self.command@ == seq!['w', 'q'] {
                        assert(self.command@[0] == 'w' && self.command@[1] == 'q'
                            && self.command@.len() == 2);
                    }
                }
            }
            if crate::text::starts_with(&self.command, &rename_prefix) {
                let arg = crate::text::slice_clamped(&self.command, rename_prefix.len(), n);
                self.rename_selected(arg, fx);
            } else if crate::text::starts_with(&self.command, &new_prefix) {
                let arg = crate::text::slice_clamped(&self.command, new_prefix.len(), n);
                self.create_in_selected_dir(arg, fx);
            } else {
                self.status = Status::UnknownCommand;
            }
        }
    }

    /// The directory part of a relative path: everything before the
    /// last `/`, or nothing when there is none.
    pub fn parent_dir(path: &Vec<char>) -> (r: Vec<char>)
        ensures
            r@ == spec_parent_dir(path@),
    {
        let mut slash: Vec<char> = Vec::new();
        slash.push('/');
        proof {
            assert(slash@ =~= seq!['/']);
        }
        match crate::text::rfind_sub_before(path, &slash, path.len()) {
            Some(i) => crate::text::slice_clamped(path, 0, i),
            None => Vec::new(),
        }
    }

    /// Requests the rename of the selected tree file to `new_name`;
    /// directories cannot be renamed.
    fn rename_selected(&mut self, new_name: Vec<char>, fx: &mut Vec<Effect>)
        requires
            old(self).wf(),
        ensures
            final(self).wf(),
            final(self).mode == old(self).mode,
            final(self).buffer == old(self).buffer,
            final(self).command == old(self).command,
            final(self).prev_mode == old(self).prev_mode,
            final(self).key_sequence == old(self).key_sequence,
            final(self).should_quit == old(self).should_quit,
    {
        match self.tree_selected {
            Some(sel) => {
                let item = &self.visible_items[sel];
                if item.is_dir {
                    self.status = Status::CannotDeleteDirectory;
                } else {
                    let old_path = crate::buffer::clone_chars(&item.path);
                    fx.push(Effect::RenameFile(old_path, new_name));
                }
            },
            None => {},
        }
    }

    /// Requests the creation of a new note named `name` next to the
    /// selected tree item (inside it when it is a directory).
    fn create_in_selected_dir(&mut self, name: Vec<char>, fx: &mut Vec<Effect>)
        requires
            old(self).wf(),
        ensures
            final(self).wf(),
            final(self).mode == old(self).mode,
            final(self).buffer == old(self).buffer,
            final(self).command == old(self).command,
            final(self).prev_mode == old(self).prev_mode,
            final(self).key_sequence == old(self).key_sequence,
            final(self).should_quit == old(self).should_quit,
    {
        match self.tree_selected {
            Some(sel) => {
                let item = &self.visible_items[sel];
                let target_dir = if item.is_dir {
                    crate::buffer::clone_chars(&item.path)
                } else {
                    Self::parent_dir(&item.path)
                };
                fx.push(Effect::CreateFile(target_dir, name));
            },
            None => {},
        }
    }
}

impl Session {
    /// Opens today's, yesterday's or tomorrow's dated note: the date
    /// comes from the machine's clock, so all that is promised is that
    /// any request carries the dated-note name of some valid calendar
    /// date; a date whose year does not fit four digits is reported
    /// instead.
    fn fire_daily(&mut self, cmd: EditorCommand, fx: &mut Vec<Effect>)
        requires
            old(self).wf(),
        ensures
            final(self).wf(),
            final(self).mode == old(self).mode,
            final(self).buffer == old(self).buffer,
            final(self).key_sequence == old(self).key_sequence,
            final(fx)@.len() <= old(fx)@.len() + 1,
            final(fx)@.len() == old(fx)@.len() + 1 ==> (exists|y: int, m: int, d: int|
                #![trigger crate::wikilink::spec_daily_note_name(y, m, d)]
                crate::wikilink::valid_date(y, m, d) && 0 <= y <= 9999 && (final(fx)@.last() matches Effect::OpenWikilink(n, l) && l@
                    == crate::wikilink::spec_daily_note_name(y, m, d) && n@
                    == crate::wikilink::spec_wikilink_file_name(l@))),
            final(fx)@.len() == old(fx)@.len() ==> final(fx)@ == old(fx)@,
    {
        let today = crate::wikilink::local_date_today();
        if today.0 < 1 || today.0 > 9998 {
            self.status = Status::DateOutOfRange;
            return ;
        }
        let (y, m, d) = match cmd {
            EditorCommand::OpenYesterday => crate::wikilink::prev_day(today.0, today.1, today.2),
            EditorCommand::OpenTomorrow => crate::wikilink::next_day(today.0, today.1, today.2),
            _ => today,
        };
        if 0 <= y && y <= 9999 {
            let link = crate::wikilink::daily_note_name(y, m, d);
            let name = crate::wikilink::wikilink_file_name(&link);
            fx.push(Effect::OpenWikilink(name, link));
            proof {
                assert(crate::wikilink::valid_date(y as int, m as int, d as int));
                assert(fx@.last() matches Effect::OpenWikilink(n, l) && l@
                    == crate::wikilink::spec_daily_note_name(y as int, m as int, d as int) && n@
                    == crate::wikilink::spec_wikilink_file_name(l@));
            }
        } else {
            self.status = Status::DateOutOfRange;
        }
    }

    /// Begins a search of the given kind: the search pane opens with
    /// an empty query, and the provider is asked for the initial
    /// results.  For a backlinks search the request carries the
    /// wikilink of the cursor's line when it holds one, else nothing,
    /// and the provider falls back to the current document's name.
    fn start_search(&mut self, kind: SearchType, fx: &mut Vec<Effect>)
        requires
            old(self).wf(),
            old(self).mode == Mode::Normal,
        ensures
            final(self).wf(),
            final(self).mode == Mode::Search,
            final(self).search.active,
            final(self).search.kind == kind,
            final(self).search.query@.len() == 0,
            final(self).key_sequence@.len() == 0,
            final(self).view == ViewKind::Editor,
            final(self).buffer == old(self).buffer,
            final(fx)@.len() == old(fx)@.len() + 1,
            final(fx)@.last() matches Effect::QuerySearch(k, q) && k == kind && q@ == (if kind
                == SearchType::Backlinks {
                match crate::wikilink::spec_wikilink_of(
                    old(self).buffer.text()[old(self).buffer.row as int],
                ) {
                    Some(t) => t,
                    None => Seq::<char>::empty(),
                }
            } else {
                Seq::<char>::empty()
            }),
    {
        self.search = SearchState {
            active: true,
            kind,
            query: Vec::new(),
            results: Vec::new(),
            selected: None,
        };
        self.mode = Mode::Search;
        self.view = ViewKind::Editor;
        self.status = Status::Searching;
        self.key_sequence = Vec::new();
        let context = if match kind {
            SearchType::Backlinks => true,
            _ => false,
        } {
            let (row, _col) = self.buffer.cursor();
            match crate::wikilink::extract_wikilink(self.buffer.line_at(row)) {
                Some(w) => w,
                None => Vec::new(),
            }
        } else {
            Vec::new()
        };
        fx.push(Effect::QuerySearch(kind, context));
    }

    /// Fires a resolved multi-key Normal-mode command.
    fn fire_normal_command(&mut self, cmd: EditorCommand, fx: &mut Vec<Effect>)
        requires
            old(self).wf(),
            old(self).mode == Mode::Normal,
            old(self).key_sequence@.len() == 0,
        ensures
            final(self).wf(),
            final(self).key_sequence@.len() == 0,
            cmd == EditorCommand::JumpTop ==> final(self).buffer.text() == old(self).buffer.text()
                && final(self).buffer.row == 0 && final(self).buffer.col == 0 && final(self).status == Status::MovedToTop && final(self).mode == Mode::Normal,
            cmd == EditorCommand::YankLine ==> final(self).buffer == old(self).buffer && final(self).yanked@.len() == 1 && final(self).yanked@[0]@ == old(self).buffer.text()[old(self).buffer.row as int] && final(self).mode == Mode::Normal,
            cmd == EditorCommand::DeleteLine ==> final(self).buffer.model()
                =~~= crate::buffer::spec_delete_to_end(
                BufModel {
                    col: 0,
                    ..old(self).buffer.model()
                },
            ) && final(self).mode == Mode::Normal,
            cmd == EditorCommand::SearchBacklinks ==> final(self).mode == Mode::Search && final(self).search.kind == SearchType::Backlinks,
            cmd == EditorCommand::SearchTags ==> final(self).mode == Mode::Search && final(self).search.kind == SearchType::Tags,
            cmd == EditorCommand::SearchFiles ==> final(self).mode == Mode::Search && final(self).search.kind == SearchType::Files,
            cmd == EditorCommand::OpenFileTree ==> final(self).mode == Mode::FileTree,
    {
        match cmd {
            EditorCommand::JumpTop => {
                self.buffer.move_top();
                self.buffer.move_head();
                self.status = Status::MovedToTop;
            },
            EditorCommand::YankLine => {
                let (row, _col) = self.buffer.cursor();
                let mut yanked: Vec<Vec<char>> = Vec::new();
                yanked.push(crate::buffer::clone_chars(self.buffer.line_at(row)));
                self.yanked = yanked;
                self.status = Status::YankedLine;
            },
            EditorCommand::DeleteLine => {
                self.buffer.move_head();
                self.buffer.delete_to_end();
                self.status = Status::DeletedLine;
            },
            EditorCommand::SearchBacklinks => {
                self.start_search(SearchType::Backlinks, fx);
            },
            EditorCommand::SearchTags => {
                self.start_search(SearchType::Tags, fx);
            },
            EditorCommand::SearchFiles => {
                self.start_search(SearchType::Files, fx);
            },
            EditorCommand::OpenToday | EditorCommand::OpenYesterday
                | EditorCommand::OpenTomorrow => {
                self.fire_daily(cmd, fx);
            },
            EditorCommand::OpenFileTree => {
                if self.file_tree.len() == 0 {
                    fx.push(Effect::LoadTree);
                } else {
                    self.refresh_visible();
                }
                self.mode = Mode::FileTree;
                self.status = Status::FileTree;
            },
        }
    }

    /// Follows what the cursor's line points at: the first stored
    /// backlink whose text occurs in the line, else the line's first
    /// complete wikilink, else the first stored tag occurring in the
    /// line (whose files are then shown in the info pane).  Before
    /// navigating, an incomplete `[[` autocompletion on the line is
    /// stripped from its last `[[` to the end of the line.
    fn follow_line(&mut self, fx: &mut Vec<Effect>)
        requires
            old(self).wf(),
            old(self).mode == Mode::Normal,
        ensures
            final(self).wf(),
            final(self).mode == Mode::Normal,
            final(self).key_sequence == old(self).key_sequence,
            final(fx)@.len() <= old(fx)@.len() + 1,
            old(self).view == ViewKind::Info ==> final(self).view == ViewKind::Editor && final(self).buffer == old(self).buffer && final(fx)@ == old(fx)@,
            old(self).view == ViewKind::Editor ==> ({
                let line = old(self).buffer.text()[old(self).buffer.row as int];
                let has_backlink = exists|i: int|
                    0 <= i < old(self).backlinks@.len() && crate::text::contains_seq(
                        line,
                        (#[trigger] old(self).backlinks@[i]).label@,
                    );
                let wl = crate::wikilink::spec_wikilink_of(line);
                let follows = has_backlink || wl is Some;
                &&& (follows ==> final(fx)@.len() == old(fx)@.len() + 1 && (final(fx)@.last() matches Effect::OpenWikilink(n, l) && n@
                    == crate::wikilink::spec_wikilink_file_name(l@) && (has_backlink ==> exists|
                    i: int,
                |
                    #![auto]
                    0 <= i < old(self).backlinks@.len() && crate::text::contains_seq(
                        line,
                        old(self).backlinks@[i].label@,
                    ) && l@ == old(self).backlinks@[i].label@) && (!has_backlink ==> (
                wl matches Some(t) && l@ == t))))
                &&& (follows && crate::wikilink::spec_strip_needed(line) ==> final(self).buffer.text() =~= old(self).buffer.text().update(
                    old(self).buffer.row as int,
                    crate::wikilink::spec_stripped_line(line),
                ))
                &&& (follows && !crate::wikilink::spec_strip_needed(line) ==> final(self).buffer
                    == old(self).buffer)
                &&& (!follows ==> final(self).buffer == old(self).buffer)
                &&& (!follows ==> ({
                    let has_tag = exists|j: int|
                        0 <= j < old(self).tags@.len() && crate::text::contains_seq(
                            line,
                            (#[trigger] old(self).tags@[j])@,
                        );
                    &&& (has_tag ==> final(self).view == ViewKind::Info && final(fx)@.len() == old(fx)@.len() + 1 && (final(fx)@.last() matches Effect::ShowTagInfo(t) && exists|
                        j: int,
                    |
                        #![auto]
                        0 <= j < old(self).tags@.len() && crate::text::contains_seq(
                            line,
                            old(self).tags@[j]@,
                        ) && t@ == old(self).tags@[j]@))
                    &&& (!has_tag ==> final(self).status == Status::NothingToFollow && final(fx)@ == old(fx)@ && final(self).view == old(self).view)
                }))
            }),
    {
        if match self.view {
            ViewKind::Editor => false,
            ViewKind::Info => true,
        } {
            self.view = ViewKind::Editor;
            self.status = Status::Normal;
            return ;
        }
        let (row, _col) = self.buffer.cursor();
        let line = crate::buffer::clone_chars(self.buffer.line_at(row));
        let mut target: Option<Vec<char>> = None;
        let ghost mut target_is_backlink = false;
        let mut i: usize = 0;
        while target.is_none() && i < self.backlinks.len()
            invariant
                0 <= i <= self.backlinks@.len(),
                line@ == self.buffer.text()[self.buffer.row as int],
                match target {
                    Some(t) => target_is_backlink && i < self.backlinks@.len()
                        && crate::text::contains_seq(line@, self.backlinks@[i as int].label@) && t@
                        == self.backlinks@[i as int].label@,
                    None => !target_is_backlink && forall|k: int|
                        0 <= k < i ==> !crate::text::contains_seq(
                            line@,
                            (#[trigger] self.backlinks@[k]).label@,
                        ),
                },
            decreases self.backlinks@.len() - i + (if target is None {
                1int
            } else {
                0int
            }),
        {
            if crate::text::contains_chars(&line, &self.backlinks[i].label) {
                target = Some(crate::buffer::clone_chars(&self.backlinks[i].label));
                proof {
                    target_is_backlink = true;
                }
            } else {
                i = i + 1;
            }
        }
        if target.is_none() {
            match crate::wikilink::extract_wikilink(&line) {
                Some(w) => {
                    target = Some(w);
                },
                None => {},
            }
        }
        let ghost has_backlink = exists|k: int|
            0 <= k < self.backlinks@.len() && crate::text::contains_seq(
                line@,
                (#[trigger] self.backlinks@[k]).label@,
            );
        proof {
            if target_is_backlink {
                assert(has_backlink);
            }
            if !target_is_backlink && has_backlink {
                let w = choose|k: int|
                    0 <= k < self.backlinks@.len() && crate::text::contains_seq(
                        line@,
                        (#[trigger] self.backlinks@[k]).label@,
                    );
                assert(false);
            }
        }
        match target {
            Some(link) => {
                self.strip_incomplete_link(&line);
                let name = crate::wikilink::wikilink_file_name(&link);
                fx.push(Effect::OpenWikilink(name, link));
            },
            None => {
                let mut j: usize = 0;
                let mut tag: Option<Vec<char>> = None;
                while tag.is_none() && j < self.tags.len()
                    invariant
                        0 <= j <= self.tags@.len(),
                        line@ == self.buffer.text()[self.buffer.row as int],
                        match tag {
                            Some(t) => j < self.tags@.len() && crate::text::contains_seq(
                                line@,
                                self.tags@[j as int]@,
                            ) && t@ == self.tags@[j as int]@,
                            None => forall|k: int|
                                0 <= k < j ==> !crate::text::contains_seq(
                                    line@,
                                    (#[trigger] self.tags@[k])@,
                                ),
                        },
                    decreases self.tags@.len() - j + (if tag is None {
                        1int
                    } else {
                        0int
                    }),
                {
                    if crate::text::contains_chars(&line, &self.tags[j]) {
                        tag = Some(crate::buffer::clone_chars(&self.tags[j]));
                    } else {
                        j = j + 1;
                    }
                }
                match tag {
                    Some(t) => {
                        self.view = ViewKind::Info;
                        self.status = Status::TagInfo;
                        fx.push(Effect::ShowTagInfo(t));
                    },
                    None => {
                        proof {
                            if exists|k: int|
                                0 <= k < self.tags@.len() && crate::text::contains_seq(
                                    line@,
                                    (#[trigger] self.tags@[k])@,
                                ) {
                                let w = choose|k: int|
                                    0 <= k < self.tags@.len() && crate::text::contains_seq(
                                        line@,
                                        (#[trigger] self.tags@[k])@,
                                    );
                                assert(false);
                            }
                        }
                        self.status = Status::NothingToFollow;
                    },
                }
            },
        }
    }

    /// Strips an incomplete wikilink: when the cursor's line holds a
    /// `[[` with no closing `]]`, everything from the last `[[` to the
    /// end of the line is removed and the cursor returns to the line
    /// head.
    fn strip_incomplete_link(&mut self, line: &Vec<char>)
        requires
            old(self).wf(),
            line@ == old(self).buffer.text()[old(self).buffer.row as int],
        ensures
            final(self).wf(),
            final(self).mode == old(self).mode,
            final(self).key_sequence == old(self).key_sequence,
            final(self).view == old(self).view,
            final(self).status == old(self).status,
            !crate::wikilink::spec_strip_needed(line@) ==> final(self).buffer == old(self).buffer,
            crate::wikilink::spec_strip_needed(line@) ==> final(self).buffer.text() =~= old(self).buffer.text().update(
                old(self).buffer.row as int,
                crate::wikilink::spec_stripped_line(line@),
            ) && final(self).buffer.row == old(self).buffer.row && final(self).buffer.col == 0,
    {
        let mut open_pair: Vec<char> = Vec::new();
        open_pair.push('[');
        open_pair.push('[');
        let mut close_pair: Vec<char> = Vec::new();
        close_pair.push(']');
        close_pair.push(']');
        proof {
            assert(open_pair@ =~= seq!['[', '[']);
            assert(close_pair@ =~= seq![']', ']']);
        }
        if crate::text::contains_chars(line, &open_pair) && !crate::text::contains_chars(
            line,
            &close_pair,
        ) {
            match crate::text::rfind_sub_before(line, &open_pair, line.len()) {
                Some(start) => {
                    let (row, _col) = self.buffer.cursor();
                    let len = self.buffer.line_len(row);
                    if start <= len {
                        let empty: Vec<char> = Vec::new();
                        self.buffer.replace_in_line(start, len, &empty);
                        self.buffer.move_head();
                        proof {
                            assert(crate::wikilink::spec_stripped_line(line@) =~= line@.take(
                                start as int,
                            ));
                            assert(final(self).buffer.text()[old(self).buffer.row as int]
                                =~= line@.take(start as int) + Seq::<char>::empty() + line@.skip(
                                len as int,
                            ));
                        }
                    }
                },
                None => {
                    proof {
                        let w = choose|k: int|
                            crate::text::occurs_at(line@, seq!['[', '['], k);
                        assert(0 <= w < line@.len());
                        assert(false);
                    }
                },
            }
        }
    }

    /// One key in Normal mode.  With a pending multi-key prefix, a
    /// printable key goes to the key-sequence resolver: an exact match
    /// fires its command, a strict prefix of a command keeps
    /// buffering, and anything else discards the prefix and reports an
    /// invalid sequence, leaving the buffer untouched.  Otherwise the
    /// single-key commands apply: mode entries (`i`, `a`, `o`, `v`,
    /// Ctrl-`v`, `:`), undo and redo, character deletion and paste,
    /// cursor motions, history traversal (Ctrl-`o`, Ctrl-`i`), and
    /// Enter to follow what the line points at; an unbound printable
    /// key starts a new prefix.
    pub fn handle_normal(&mut self, key: KeyInput) -> (fx: Vec<Effect>)
        requires
            old(self).wf(),
            old(self).mode == Mode::Normal,
        ensures
            final(self).wf(),
            key.code matches KeyCode::Char(c) ==> (old(self).key_sequence@.len() > 0 ==> {
                let out = crate::keyseq::spec_resolve_normal(old(self).key_sequence@.push(c));
                &&& (out == SeqOutcome::<EditorCommand>::Reset ==> final(self).key_sequence@.len()
                    == 0 && final(self).status == Status::InvalidSequence && final(self).buffer
                    == old(self).buffer && final(self).yanked == old(self).yanked && final(self).mode == Mode::Normal && fx@.len() == 0)
                &&& (out == SeqOutcome::<EditorCommand>::Buffering ==> final(self).key_sequence@
                    == old(self).key_sequence@.push(c) && final(self).buffer == old(self).buffer
                    && final(self).mode == Mode::Normal && fx@.len() == 0)
                &&& (out == SeqOutcome::Fired(EditorCommand::JumpTop) ==> final(self).buffer.text() == old(self).buffer.text() && final(self).buffer.row == 0 && final(self).buffer.col == 0 && final(self).status == Status::MovedToTop && final(self).key_sequence@.len() == 0)
                &&& (out == SeqOutcome::Fired(EditorCommand::YankLine) ==> final(self).buffer
                    == old(self).buffer && final(self).yanked@.len() == 1 && final(self).yanked@[0]@ == old(self).buffer.text()[old(self).buffer.row as int] && final(self).key_sequence@.len() == 0)
                &&& (out == SeqOutcome::Fired(EditorCommand::DeleteLine) ==> final(self).buffer.model() =~~= crate::buffer::spec_delete_to_end(
                    BufModel { col: 0, ..old(self).buffer.model() },
                ) && final(self).key_sequence@.len() == 0)
                &&& (out == SeqOutcome::Fired(EditorCommand::SearchBacklinks) ==> final(self).mode
                    == Mode::Search && final(self).search.kind == SearchType::Backlinks)
                &&& (out == SeqOutcome::Fired(EditorCommand::SearchTags) ==> final(self).mode
                    == Mode::Search && final(self).search.kind == SearchType::Tags)
                &&& (out == SeqOutcome::Fired(EditorCommand::SearchFiles) ==> final(self).mode
                    == Mode::Search && final(self).search.kind == SearchType::Files)
                &&& (out == SeqOutcome::Fired(EditorCommand::OpenFileTree) ==> final(self).mode
                    == Mode::FileTree)
            }),
            old(self).key_sequence@.len() == 0 ==> ({
                &&& (key == (KeyInput { code: KeyCode::Char('u'), ctrl: false }) || key == (
                KeyInput { code: KeyCode::Char('u'), ctrl: true }) ==> final(self).buffer.model()
                    =~~= crate::buffer::spec_undo(old(self).buffer.model()) && final(self).status
                    == (if old(self).buffer.model().undo.len() > 0 {
                    Status::Undone
                } else {
                    Status::NothingToUndo
                }))
                &&& (key == (KeyInput { code: KeyCode::Char('r'), ctrl: true }) ==> final(self).buffer.model() =~~= crate::buffer::spec_redo(old(self).buffer.model()) && final(self).status == (if old(self).buffer.model().redo.len() > 0 {
                    Status::Redone
                } else {
                    Status::NothingToRedo
                }))
                &&& (key == (KeyInput { code: KeyCode::Char('i'), ctrl: false }) ==> final(self).mode == Mode::Insert && final(self).buffer == old(self).buffer)
                &&& (key == (KeyInput { code: KeyCode::Char('a'), ctrl: false }) ==> final(self).mode == Mode::Insert && final(self).buffer.text() == old(self).buffer.text())
                &&& (key == (KeyInput { code: KeyCode::Char('o'), ctrl: false }) ==> final(self).mode == Mode::Insert)
                &&& (key == (KeyInput { code: KeyCode::Char('v'), ctrl: false }) ==> final(self).mode == Mode::Visual && final(self).visual_anchor == Some(
                    (old(self).buffer.row, old(self).buffer.col),
                ) && final(self).buffer == old(self).buffer)
                &&& (key == (KeyInput { code: KeyCode::Char('v'), ctrl: true }) ==> final(self).mode == Mode::VisualBlock && final(self).visual_anchor == Some(
                    (old(self).buffer.row, old(self).buffer.col),
                ) && final(self).buffer == old(self).buffer)
                &&& (key == (KeyInput { code: KeyCode::Char('x'), ctrl: false }) ==> final(self).buffer.model() =~~= crate::buffer::spec_delete_next(old(self).buffer.model()))
                &&& (key == (KeyInput { code: KeyCode::Char('p'), ctrl: false }) ==> final(self).buffer.model() =~~= crate::buffer::spec_paste_after(
                    old(self).buffer.model(),
                    text_of(old(self).yanked@),
                ))
                &&& (key == (KeyInput { code: KeyCode::Char(':'), ctrl: false }) ==> final(self).mode == Mode::Command && final(self).command@.len() == 0 && final(self).prev_mode
                    == Some(Mode::Normal))
                &&& (key == (KeyInput { code: KeyCode::Char('o'), ctrl: true }) ==> final(self).buffer == old(self).buffer && (old(self).history.index > 0 && old(self).history.entries@.len() > 0 ==> final(self).history.index == old(self).history.index - 1 && fx@.len() == 1 && (fx@[0] matches Effect::OpenKnown(p, id)
                    && p@ == old(self).history.entries@[old(self).history.index - 1].path@ && id
                    == old(self).history.entries@[old(self).history.index - 1].file_id)) && (!(
                old(self).history.index > 0 && old(self).history.entries@.len() > 0) ==> fx@.len()
                    == 0 && final(self).status == Status::NoPreviousFile))
                &&& (key == (KeyInput { code: KeyCode::Char('i'), ctrl: true }) ==> final(self).buffer == old(self).buffer && (old(self).history.entries@.len() > 0 && old(self).history.index + 1 < old(self).history.entries@.len() ==> final(self).history.index == old(self).history.index + 1 && fx@.len() == 1 && (
                fx@[0] matches Effect::OpenKnown(p, id) && p@ == old(self).history.entries@[old(self).history.index + 1].path@ && id == old(self).history.entries@[old(self).history.index + 1].file_id)) && (!(old(self).history.entries@.len() > 0 && old(self).history.index + 1 < old(self).history.entries@.len()) ==> fx@.len() == 0
                    && final(self).status == Status::NoNextFile))
            }),
            key.code == KeyCode::Enter ==> (old(self).view == ViewKind::Info ==> final(self).view
                == ViewKind::Editor && final(self).buffer == old(self).buffer && fx@.len() == 0),
            key.code == KeyCode::Enter ==> (old(self).view == ViewKind::Editor ==> ({
                let line = old(self).buffer.text()[old(self).buffer.row as int];
                let has_backlink = exists|i: int|
                    0 <= i < old(self).backlinks@.len() && crate::text::contains_seq(
                        line,
                        (#[trigger] old(self).backlinks@[i]).label@,
                    );
                let wl = crate::wikilink::spec_wikilink_of(line);
                let follows = has_backlink || wl is Some;
                &&& (follows ==> fx@.len() == 1 && (fx@.last() matches Effect::OpenWikilink(n, l)
                    && n@ == crate::wikilink::spec_wikilink_file_name(l@) && (has_backlink
                    ==> exists|i: int|
                    #![auto]
                    0 <= i < old(self).backlinks@.len() && crate::text::contains_seq(
                        line,
                        old(self).backlinks@[i].label@,
                    ) && l@ == old(self).backlinks@[i].label@) && (!has_backlink ==> (
                wl matches Some(t) && l@ == t))))
                &&& (follows && crate::wikilink::spec_strip_needed(line) ==> final(self).buffer.text() =~= old(self).buffer.text().update(
                    old(self).buffer.row as int,
                    crate::wikilink::spec_stripped_line(line),
                ))
                &&& (follows && !crate::wikilink::spec_strip_needed(line) ==> final(self).buffer
                    == old(self).buffer)
                &&& (!follows ==> final(self).buffer == old(self).buffer)
                &&& (!follows ==> ({
                    let has_tag = exists|j: int|
                        0 <= j < old(self).tags@.len() && crate::text::contains_seq(
                            line,
                            (#[trigger] old(self).tags@[j])@,
                        );
                    &&& (has_tag ==> final(self).view == ViewKind::Info && fx@.len() == 1 && (
                    fx@.last() matches Effect::ShowTagInfo(t) && exists|j: int|
                        #![auto]
                        0 <= j < old(self).tags@.len() && crate::text::contains_seq(
                            line,
                            old(self).tags@[j]@,
                        ) && t@ == old(self).tags@[j]@))
                    &&& (!has_tag ==> final(self).status == Status::NothingToFollow && fx@.len()
                        == 0 && final(self).view == old(self).view)
                }))
            })),
    {
        let mut fx: Vec<Effect> = Vec::new();
        if self.key_sequence.len() > 0 {
            match key.code {
                KeyCode::Char(c) => {
                    match crate::keyseq::resolve_normal(&self.key_sequence, c) {
                        SeqOutcome::Fired(cmd) => {
                            self.key_sequence = Vec::new();
                            self.fire_normal_command(cmd, &mut fx);
                        },
                        SeqOutcome::Buffering => {
                            self.key_sequence.push(c);
                        },
                        SeqOutcome::Reset => {
                            self.key_sequence = Vec::new();
                            self.status = Status::InvalidSequence;
                        },
                    }
                    return fx;
                },
                _ => {},
            }
        }
        match (key.code, key.ctrl) {
            (KeyCode::Char('o'), true) => {
                match self.history.back() {
                    Some((path, id)) => {
                        fx.push(Effect::OpenKnown(path, id));
                    },
                    None => {
                        self.status = Status::NoPreviousFile;
                    },
                }
            },
            (KeyCode::Char('i'), true) => {
                match self.history.forward() {
                    Some((path, id)) => {
                        fx.push(Effect::OpenKnown(path, id));
                    },
                    None => {
                        self.status = Status::NoNextFile;
                    },
                }
            },
            (KeyCode::Char('r'), true) => {
                if self.buffer.redo() {
                    self.status = Status::Redone;
                } else {
                    self.status = Status::NothingToRedo;
                }
            },
            (KeyCode::Char('u'), _) => {
                if self.buffer.undo() {
                    self.status = Status::Undone;
                } else {
                    self.status = Status::NothingToUndo;
                }
            },
            (KeyCode::Char('i'), _) => {
                self.mode = Mode::Insert;
                self.status = Status::Insert;
            },
            (KeyCode::Char('a'), _) => {
                self.buffer.move_right();
                self.mode = Mode::Insert;
                self.status = Status::Insert;
            },
            (KeyCode::Char('o'), _) => {
                self.buffer.move_end();
                self.buffer.insert_newline();
                self.mode = Mode::Insert;
                self.status = Status::Insert;
            },
            (KeyCode::Char('v'), true) => {
                self.visual_anchor = Some(self.buffer.cursor());
                self.mode = Mode::VisualBlock;
                self.status = Status::VisualBlock;
            },
            (KeyCode::Char('v'), _) => {
                self.visual_anchor = Some(self.buffer.cursor());
                self.mode = Mode::Visual;
                self.status = Status::Visual;
            },
            (KeyCode::Char('x'), _) => {
                self.buffer.delete_next_char();
            },
            (KeyCode::Char('p'), _) => {
                let rows = crate::buffer::clone_lines(&self.yanked);
                self.buffer.insert_lines_after(&rows);
            },
            (KeyCode::Char(':'), _) => {
                self.prev_mode = Some(Mode::Normal);
                self.mode = Mode::Command;
                self.command = Vec::new();
                self.status = Status::Command;
            },
            (KeyCode::Char('j'), _) => {
                self.buffer.move_down();
            },
            (KeyCode::Char('k'), _) => {
                self.buffer.move_up();
            },
            (KeyCode::Char('h'), _) => {
                self.buffer.move_left();
            },
            (KeyCode::Char('l'), _) => {
                self.buffer.move_right();
            },
            (KeyCode::Up, _) => {
                self.buffer.move_up();
            },
            (KeyCode::Down, _) => {
                self.buffer.move_down();
            },
            (KeyCode::Left, true) => {
                self.buffer.word_back();
            },
            (KeyCode::Right, true) => {
                self.buffer.word_forward();
            },
            (KeyCode::Left, false) => {
                self.buffer.move_left();
            },
            (KeyCode::Right, false) => {
                self.buffer.move_right();
            },
            (KeyCode::Home, true) => {
                self.buffer.move_top();
            },
            (KeyCode::Home, false) => {
                self.buffer.move_head();
            },
            (KeyCode::End, true) => {
                self.buffer.move_bottom();
            },
            (KeyCode::End, false) => {
                self.buffer.move_end();
            },
            (KeyCode::Char('G'), _) => {
                self.buffer.move_bottom();
            },
            (KeyCode::Char(c), _) => {
                self.key_sequence.push(c);
            },
            (KeyCode::Enter, _) => {
                self.follow_line(&mut fx);
            },
            _ => {
                self.status = Status::UnsupportedKey;
            },
        }
        fx
    }
}

impl Session {
    /// Leaves the search and returns to Normal mode, clearing every
    /// piece of search state.
    fn cancel_search(&mut self)
        requires
            old(self).wf(),
        ensures
            final(self).wf(),
            final(self).mode == Mode::Normal,
            !final(self).search.active,
            final(self).buffer == old(self).buffer,
            final(self).key_sequence@.len() == 0,
    {
        self.search = SearchState {
            active: false,
            kind: SearchType::Inactive,
            query: Vec::new(),
            results: Vec::new(),
            selected: None,
        };
        self.mode = Mode::Normal;
        self.status = Status::Normal;
        self.key_sequence = Vec::new();
        self.visual_anchor = None;
    }

    /// One key in Search mode: Escape cancels; Enter acts on the
    /// selected result (a file result is opened, a tag result loads
    /// its files); Up and Down move the selection; characters and
    /// Backspace edit the query and re-run it.
    pub fn handle_search(&mut self, key: KeyInput) -> (fx: Vec<Effect>)
        requires
            old(self).wf(),
            old(self).mode == Mode::Search,
        ensures
            final(self).wf(),
            key.code == KeyCode::Esc ==> final(self).mode == Mode::Normal && !final(self).search.active && final(self).buffer == old(self).buffer && fx@.len() == 0,
            key.code matches KeyCode::Char(c) ==> final(self).search.query@ == old(self).search.query@.push(c) && fx@.len() == 1 && (fx@[0] matches Effect::QuerySearch(k, q)
                && k == old(self).search.kind && q@ == final(self).search.query@) && final(self).mode == Mode::Search && final(self).buffer == old(self).buffer,
            key.code == KeyCode::Backspace ==> final(self).search.query@ == (if old(self).search.query@.len() > 0 {
                old(self).search.query@.drop_last()
            } else {
                old(self).search.query@
            }) && fx@.len() == 1 && (fx@[0] matches Effect::QuerySearch(k, q) && k == old(self).search.kind && q@ == final(self).search.query@) && final(self).mode == Mode::Search
                && final(self).buffer == old(self).buffer,
            key.code == KeyCode::Up ==> final(self).search.selected == (match old(self).search.selected {
                Some(k) => if k > 0 {
                    Some((k - 1) as usize)
                } else {
                    Some(k)
                },
                None => None,
            }) && final(self).buffer == old(self).buffer && fx@.len() == 0,
            key.code == KeyCode::Down ==> final(self).search.selected == (match old(self).search.selected {
                Some(k) => if k + 1 < old(self).search.results@.len() {
                    Some((k + 1) as usize)
                } else {
                    Some(k)
                },
                None => None,
            }) && final(self).buffer == old(self).buffer && fx@.len() == 0,
            key.code == KeyCode::Enter ==> fx@.len() <= 1 && final(self).buffer == old(self).buffer,
    {
        let mut fx: Vec<Effect> = Vec::new();
        match key.code {
            KeyCode::Esc => {
                self.cancel_search();
            },
            KeyCode::Enter => {
                self.select_search_result(&mut fx);
            },
            KeyCode::Up => {
                match self.search.selected {
                    Some(sel) => {
                        if sel > 0 {
                            self.search.selected = Some(sel - 1);
                        }
                    },
                    None => {},
                }
            },
            KeyCode::Down => {
                match self.search.selected {
                    Some(sel) => {
                        if sel + 1 < self.search.results.len() {
                            self.search.selected = Some(sel + 1);
                        }
                    },
                    None => {},
                }
            },
            KeyCode::Char(c) => {
                self.search.query.push(c);
                let q = crate::buffer::clone_chars(&self.search.query);
                fx.push(Effect::QuerySearch(self.search.kind, q));
            },
            KeyCode::Backspace => {
                if self.search.query.len() > 0 {
                    self.search.query.pop();
                }
                let q = crate::buffer::clone_chars(&self.search.query);
                fx.push(Effect::QuerySearch(self.search.kind, q));
            },
            _ => {},
        }
        fx
    }

    /// Acts on the selected search result: a backlink or file hit is
    /// opened by id; a tag hit asks for the files bearing the tag; with
    /// nothing selected the no-op is reported.  Except for the
    /// tag-files hand-off the search closes.
    fn select_search_result(&mut self, fx: &mut Vec<Effect>)
        requires
            old(self).wf(),
            old(self).mode == Mode::Search,
        ensures
            final(self).wf(),
            final(self).buffer == old(self).buffer,
            final(fx)@.len() <= old(fx)@.len() + 1,
            old(self).search.selected is None ==> final(self).status == Status::NoResultSelected
                && final(self).mode == Mode::Normal && final(fx)@ == old(fx)@,
            old(self).search.selected matches Some(sel) ==> (sel < old(self).search.results@.len()
                ==> ({
                let hit = old(self).search.results@[sel as int];
                &&& ((old(self).search.kind == SearchType::Backlinks || old(self).search.kind
                    == SearchType::Files) ==> (hit.file_id matches Some(id) ==> final(fx)@ == old(fx)@.push(Effect::OpenById(id)) && final(self).mode == Mode::Normal && !final(self).search.active))
                &&& (old(self).search.kind == SearchType::Tags ==> final(fx)@.len() == old(fx)@.len() + 1 && (final(fx)@.last() matches Effect::QueryTagFiles(t) && t@
                    == hit.label@) && final(self).mode == Mode::Search)
            })),
    {
        match self.search.selected {
            Some(sel) => {
                if sel < self.search.results.len() {
                    let kind = self.search.kind;
                    match kind {
                        SearchType::Backlinks | SearchType::Files => {
                            match self.search.results[sel].file_id {
                                Some(id) => {
                                    fx.push(Effect::OpenById(id));
                                },
                                None => {},
                            }
                            self.cancel_search();
                        },
                        SearchType::Tags => {
                            let tag = crate::buffer::clone_chars(&self.search.results[sel].label);
                            fx.push(Effect::QueryTagFiles(tag));
                        },
                        SearchType::Inactive => {
                            self.cancel_search();
                        },
                    }
                } else {
                    self.cancel_search();
                }
            },
            None => {
                self.cancel_search();
                self.status = Status::NoResultSelected;
            },
        }
    }

    /// Leaves the tag-file list and returns to Normal mode.
    fn cancel_tag_files(&mut self)
        requires
            old(self).wf(),
        ensures
            final(self).wf(),
            final(self).mode == Mode::Normal,
            final(self).buffer == old(self).buffer,
            final(self).key_sequence@.len() == 0,
    {
        self.tag_files = Vec::new();
        self.tag_files_selected = None;
        self.mode = Mode::Normal;
        self.status = Status::Normal;
        self.key_sequence = Vec::new();
        self.visual_anchor = None;
    }

    /// One key in TagFiles mode: Escape cancels, Enter opens the
    /// selected file, Up and Down move the selection.
    pub fn handle_tag_files(&mut self, key: KeyInput) -> (fx: Vec<Effect>)
        requires
            old(self).wf(),
            old(self).mode == Mode::TagFiles,
        ensures
            final(self).wf(),
            final(self).buffer == old(self).buffer,
            key.code == KeyCode::Esc ==> final(self).mode == Mode::Normal && fx@.len() == 0,
            key.code == KeyCode::Enter ==> final(self).mode == Mode::Normal && fx@.len() <= 1 && (
            old(self).tag_files_selected matches Some(k) ==> fx@.len() == 1 && (
            fx@[0] matches Effect::OpenById(id) && id == old(self).tag_files@[k as int].file_id)),
            key.code == KeyCode::Up ==> final(self).tag_files_selected == (match old(self).tag_files_selected {
                Some(k) => if k > 0 {
                    Some((k - 1) as usize)
                } else {
                    Some(k)
                },
                None => None,
            }) && fx@.len() == 0,
            key.code == KeyCode::Down ==> final(self).tag_files_selected == (match old(self).tag_files_selected {
                Some(k) => if k + 1 < old(self).tag_files@.len() {
                    Some((k + 1) as usize)
                } else {
                    Some(k)
                },
                None => None,
            }) && fx@.len() == 0,
    {
        let mut fx: Vec<Effect> = Vec::new();
        match key.code {
            KeyCode::Esc => {
                self.cancel_tag_files();
            },
            KeyCode::Enter => {
                match self.tag_files_selected {
                    Some(sel) => {
                        fx.push(Effect::OpenById(self.tag_files[sel].file_id));
                    },
                    None => {},
                }
                self.cancel_tag_files();
            },
            KeyCode::Up => {
                match self.tag_files_selected {
                    Some(sel) => {
                        if sel > 0 {
                            self.tag_files_selected = Some(sel - 1);
                        }
                    },
                    None => {},
                }
            },
            KeyCode::Down => {
                match self.tag_files_selected {
                    Some(sel) => {
                        if sel + 1 < self.tag_files.len() {
                            self.tag_files_selected = Some(sel + 1);
                        }
                    },
                    None => {},
                }
            },
            _ => {},
        }
        fx
    }

    /// One key in Visual or VisualBlock mode: Escape drops the
    /// selection; `y` yanks it, `x`/`d` deletes it (block-wise over
    /// the rectangle, character-wise over the document-ordered span);
    /// in VisualBlock `I` and `A` begin a block insert at the
    /// rectangle's left or right edge; arrows, Home and End move the
    /// live cursor.  Every other key is ignored.
    pub fn handle_visual(&mut self, key: KeyInput) -> (fx: Vec<Effect>)
        requires
            old(self).wf(),
            old(self).mode == Mode::Visual || old(self).mode == Mode::VisualBlock,
        ensures
            final(self).wf(),
            fx@.len() == 0,
            key.code == KeyCode::Esc ==> final(self).mode == Mode::Normal && final(self).visual_anchor is None && final(self).buffer == old(self).buffer,
            key.code == KeyCode::Char('y') && old(self).mode == Mode::VisualBlock ==> (old(self).visual_anchor matches Some(a) ==> ({
                let minr = vstd::math::min(a.0 as int, old(self).buffer.row as int);
                let maxr = vstd::math::max(a.0 as int, old(self).buffer.row as int);
                let minc = vstd::math::min(a.1 as int, old(self).buffer.col as int);
                let maxc = vstd::math::max(a.1 as int, old(self).buffer.col as int);
                maxc < usize::MAX ==> final(self).mode == Mode::Normal && final(self).visual_anchor is None && final(self).buffer == old(self).buffer && final(self).yanked@.len() == maxr - minr + 1 && (forall|i: int|
                    0 <= i <= maxr - minr ==> (#[trigger] final(self).yanked@[i])@
                        == crate::text::clamped_slice(
                        old(self).buffer.text()[minr + i],
                        minc,
                        maxc + 1,
                    ))
            })),
            (key.code == KeyCode::Char('d') || key.code == KeyCode::Char('x')) && old(self).mode == Mode::VisualBlock ==> (old(self).visual_anchor matches Some(a) ==> ({
                let minr = vstd::math::min(a.0 as int, old(self).buffer.row as int);
                let maxr = vstd::math::max(a.0 as int, old(self).buffer.row as int);
                let minc = vstd::math::min(a.1 as int, old(self).buffer.col as int);
                let maxc = vstd::math::max(a.1 as int, old(self).buffer.col as int);
                maxc < usize::MAX ==> final(self).mode == Mode::Normal && final(self).visual_anchor is None && final(self).buffer.text().len() == old(self).buffer.text().len() && (forall|k: int|
                    minr <= k <= maxr ==> #[trigger] final(self).buffer.text()[k]
                        == crate::text::spliced(
                        old(self).buffer.text()[k],
                        minc,
                        old(self).buffer.text()[k],
                        maxc + 1,
                    )) && (forall|k: int|
                    0 <= k < old(self).buffer.text().len() && !(minr <= k <= maxr)
                        ==> #[trigger] final(self).buffer.text()[k] == old(self).buffer.text()[k])
                    && final(self).buffer.row == minr && final(self).buffer.col == vstd::math::min(
                    minc,
                    final(self).buffer.text()[minr].len() as int,
                )
            })),
            (key.code == KeyCode::Char('d') || key.code == KeyCode::Char('x')) && old(self).mode == Mode::Visual ==> (old(self).visual_anchor matches Some(a) ==> ({
                let first_anchor = a.0 < old(self).buffer.row || (a.0 == old(self).buffer.row
                    && a.1 <= old(self).buffer.col);
                let sr = if first_anchor {
                    a.0 as int
                } else {
                    old(self).buffer.row as int
                };
                let sc = if first_anchor {
                    a.1 as int
                } else {
                    old(self).buffer.col as int
                };
                let er = if first_anchor {
                    old(self).buffer.row as int
                } else {
                    a.0 as int
                };
                let ec = if first_anchor {
                    old(self).buffer.col as int
                } else {
                    a.1 as int
                };
                &&& final(self).mode == Mode::Normal
                &&& final(self).visual_anchor is None
                &&& final(self).buffer.text().len() == old(self).buffer.text().len() - (er - sr)
                &&& final(self).buffer.text()[sr] == crate::text::spliced(
                    old(self).buffer.text()[sr],
                    sc,
                    old(self).buffer.text()[er],
                    ec,
                )
                &&& (forall|k: int|
                    0 <= k < sr ==> #[trigger] final(self).buffer.text()[k] == old(self).buffer.text()[k])
                &&& (forall|k: int|
                    sr < k < final(self).buffer.text().len() ==> #[trigger] final(self).buffer.text()[k] == old(self).buffer.text()[k + (er - sr)])
                &&& final(self).buffer.row == sr
                &&& final(self).buffer.col == vstd::math::min(
                    sc,
                    final(self).buffer.text()[sr].len() as int,
                )
            })),
            key.code == KeyCode::Char('y') && old(self).mode == Mode::Visual ==> (old(self).visual_anchor matches Some(a) ==> ({
                let first_anchor = a.0 < old(self).buffer.row || (a.0 == old(self).buffer.row
                    && a.1 <= old(self).buffer.col);
                let sr = if first_anchor {
                    a.0 as int
                } else {
                    old(self).buffer.row as int
                };
                let sc = if first_anchor {
                    a.1 as int
                } else {
                    old(self).buffer.col as int
                };
                let er = if first_anchor {
                    old(self).buffer.row as int
                } else {
                    a.0 as int
                };
                let ec = if first_anchor {
                    old(self).buffer.col as int
                } else {
                    a.1 as int
                };
                &&& final(self).mode == Mode::Normal
                &&& final(self).visual_anchor is None
                &&& final(self).buffer == old(self).buffer
                &&& final(self).yanked@.len() == er - sr + 1
                &&& (sr == er ==> final(self).yanked@[0]@ == crate::text::clamped_slice(
                    old(self).buffer.text()[sr],
                    sc,
                    ec,
                ))
                &&& (sr < er ==> final(self).yanked@[0]@ == crate::text::clamped_slice(
                    old(self).buffer.text()[sr],
                    sc,
                    old(self).buffer.text()[sr].len() as int,
                ) && final(self).yanked@[er - sr]@ == crate::text::clamped_slice(
                    old(self).buffer.text()[er],
                    0,
                    ec,
                ) && (forall|i: int|
                    0 < i < er - sr ==> (#[trigger] final(self).yanked@[i])@ == old(self).buffer.text()[sr + i]))
            })),
            key.code == KeyCode::Char('I') && old(self).mode == Mode::VisualBlock ==> (old(self).visual_anchor matches Some(a) ==> final(self).mode == Mode::BlockInsert && final(self).insert_position == InsertPosition::Before && final(self).block_insert_col
                == vstd::math::min(a.1 as int, old(self).buffer.col as int) && final(self).buffer.text() == old(self).buffer.text()),
    {
        let fx: Vec<Effect> = Vec::new();
        let is_block = match self.mode {
            Mode::VisualBlock => true,
            _ => false,
        };
        match key.code {
            KeyCode::Esc => {
                self.visual_anchor = None;
                self.mode = Mode::Normal;
                self.status = Status::Normal;
            },
            KeyCode::Char('y') => {
                match self.visual_anchor {
                    Some(anchor) => {
                        let cursor = self.buffer.cursor();
                        if is_block {
                            let (minr, maxr, minc, maxc) = crate::selection::normalize_rect(
                                anchor,
                                cursor,
                            );
                            if maxc < usize::MAX {
                                self.yanked = self.buffer.block_yank(minr, maxr, minc, maxc);
                                self.visual_anchor = None;
                                self.mode = Mode::Normal;
                                self.status = Status::Yanked;
                            }
                        } else {
                            let (start, end) = crate::selection::order_positions(anchor, cursor);
                            self.yanked = self.buffer.charwise_yank(start.0, start.1, end.0, end.1);
                            self.visual_anchor = None;
                            self.mode = Mode::Normal;
                            self.status = Status::Yanked;
                        }
                    },
                    None => {},
                }
            },
            KeyCode::Char('x') | KeyCode::Char('d') => {
                match self.visual_anchor {
                    Some(anchor) => {
                        let cursor = self.buffer.cursor();
                        if is_block {
                            let (minr, maxr, minc, maxc) = crate::selection::normalize_rect(
                                anchor,
                                cursor,
                            );
                            if maxc < usize::MAX {
                                self.buffer.block_delete(minr, maxr, minc, maxc);
                                self.visual_anchor = None;
                                self.mode = Mode::Normal;
                                self.status = Status::Deleted;
                            }
                        } else {
                            let (start, end) = crate::selection::order_positions(anchor, cursor);
                            self.buffer.charwise_delete(start.0, start.1, end.0, end.1);
                            self.visual_anchor = None;
                            self.mode = Mode::Normal;
                            self.status = Status::Deleted;
                        }
                    },
                    None => {},
                }
            },
            KeyCode::Char('I') => {
                if is_block {
                    match self.visual_anchor {
                        Some(anchor) => {
                            let cursor = self.buffer.cursor();
                            let (minr, _maxr, minc, _maxc) = crate::selection::normalize_rect(
                                anchor,
                                cursor,
                            );
                            self.insert_position = InsertPosition::Before;
                            self.block_insert_col = minc;
                            self.block_origin_col = minc;
                            self.visual_anchor = Some((_maxr, minc));
                            self.buffer.row = minr;
                            let len = self.buffer.line_len(minr);
                            self.buffer.col = if minc < len {
                                minc
                            } else {
                                len
                            };
                            self.mode = Mode::BlockInsert;
                            self.status = Status::BlockInsertBefore;
                        },
                        None => {},
                    }
                }
            },
            KeyCode::Char('A') => {
                if is_block {
                    match self.visual_anchor {
                        Some(anchor) => {
                            let cursor = self.buffer.cursor();
                            let (minr, _maxr, _minc, maxc) = crate::selection::normalize_rect(
                                anchor,
                                cursor,
                            );
                            if maxc < usize::MAX {
                                self.insert_position = InsertPosition::After;
                                self.block_insert_col = maxc + 1;
                                self.block_origin_col = maxc + 1;
                                self.visual_anchor = Some((_maxr, _minc));
                                self.buffer.row = minr;
                                let len = self.buffer.line_len(minr);
                                self.buffer.col = if maxc + 1 < len {
                                    maxc + 1
                                } else {
                                    len
                                };
                                self.mode = Mode::BlockInsert;
                                self.status = Status::BlockInsertAfter;
                            }
                        },
                        None => {},
                    }
                }
            },
            KeyCode::Up => {
                self.buffer.move_up();
            },
            KeyCode::Down => {
                self.buffer.move_down();
            },
            KeyCode::Left => {
                self.buffer.move_left();
            },
            KeyCode::Right => {
                self.buffer.move_right();
            },
            KeyCode::Home => {
                self.buffer.move_head();
            },
            KeyCode::End => {
                self.buffer.move_end();
            },
            _ => {},
        }
        fx
    }

    /// One key in BlockInsert mode: a typed character is inserted at
    /// the tracked column in every row of the rectangle, padding short
    /// rows with spaces first, and the column advances; Backspace
    /// removes the previous column from every row without retreating
    /// past the column the insert began at; Escape returns to Normal
    /// mode.
    pub fn handle_block_insert(&mut self, key: KeyInput) -> (fx: Vec<Effect>)
        requires
            old(self).wf(),
            old(self).mode == Mode::BlockInsert,
        ensures
            final(self).wf(),
            fx@.len() == 0,
            key.code == KeyCode::Esc ==> final(self).mode == Mode::Normal && final(self).visual_anchor is None && final(self).buffer == old(self).buffer,
            key.code matches KeyCode::Char(c) ==> (old(self).visual_anchor matches Some(a) ==> (
            old(self).block_insert_col < usize::MAX ==> {
                let minr = vstd::math::min(a.0 as int, old(self).buffer.row as int);
                let maxr = vstd::math::max(a.0 as int, old(self).buffer.row as int);
                &&& final(self).block_insert_col == old(self).block_insert_col + 1
                &&& final(self).buffer.text().len() == old(self).buffer.text().len()
                &&& (forall|k: int|
                    minr <= k <= maxr ==> #[trigger] final(self).buffer.text()[k]
                        == crate::selection::padded_insert(
                        old(self).buffer.text()[k],
                        old(self).block_insert_col as int,
                        c,
                    ))
                &&& (forall|k: int|
                    0 <= k < old(self).buffer.text().len() && !(minr <= k <= maxr)
                        ==> #[trigger] final(self).buffer.text()[k] == old(self).buffer.text()[k])
                &&& final(self).buffer.row == minr
                &&& final(self).buffer.col == old(self).block_insert_col + 1
                &&& final(self).mode == Mode::BlockInsert
            })),
            key.code == KeyCode::Backspace ==> (old(self).visual_anchor matches Some(a) ==> ({
                let minr = vstd::math::min(a.0 as int, old(self).buffer.row as int);
                let maxr = vstd::math::max(a.0 as int, old(self).buffer.row as int);
                &&& (old(self).block_insert_col >= old(self).block_origin_col ==> final(self).block_insert_col >= old(self).block_origin_col)
                &&& (old(self).block_insert_col <= old(self).block_origin_col ==> final(self).buffer == old(self).buffer && final(self).block_insert_col == old(self).block_insert_col)
                &&& (old(self).block_insert_col > old(self).block_origin_col ==> final(self).block_insert_col == old(self).block_insert_col - 1 && final(self).buffer.text().len() == old(self).buffer.text().len() && (forall|k: int|
                    minr <= k <= maxr ==> #[trigger] final(self).buffer.text()[k]
                        == crate::selection::erased_at(
                        old(self).buffer.text()[k],
                        old(self).block_insert_col - 1,
                    )) && (forall|k: int|
                    0 <= k < old(self).buffer.text().len() && !(minr <= k <= maxr)
                        ==> #[trigger] final(self).buffer.text()[k] == old(self).buffer.text()[k]))
                &&& final(self).mode == Mode::BlockInsert
            })),
    {
        let fx: Vec<Effect> = Vec::new();
        if key.code == KeyCode::Esc {
            self.visual_anchor = None;
            self.mode = Mode::Normal;
            self.status = Status::Normal;
            return fx;
        }
        let anchor = match self.visual_anchor {
            Some(a) => a,
            None => {
                return fx;
            },
        };
        let cursor = self.buffer.cursor();
        let (minr, maxr, minc, maxc) = crate::selection::normalize_rect(anchor, cursor);
        match key.code {
            KeyCode::Char(c) => {
                if self.block_insert_col < usize::MAX {
                    let col = self.block_insert_col;
                    self.buffer.block_insert_char(minr, maxr, col, c);
                    self.block_insert_col = col + 1;
                    proof {
                        assert(self.visual_anchor matches Some(a2) && a2.0
                            < self.buffer.text().len());
                    }
                }
            },
            KeyCode::Backspace => {
                let original_col = self.block_origin_col;
                if self.block_insert_col > original_col {
                    let col = self.block_insert_col - 1;
                    self.buffer.block_erase_char(minr, maxr, col);
                    self.block_insert_col = col;
                }
            },
            _ => {},
        }
        fx
    }
}

impl Session {
    /// The non-directory paths among the visible rows `min..=max`, in
    /// order.
    fn collect_tree_paths(&self, min: usize, max: usize) -> (r: Vec<Vec<char>>)
        requires
            self.wf(),
            min <= max < self.visible_items@.len(),
        ensures
            crate::tree::path_views(r@) =~= crate::tree::spec_range_paths(
                crate::tree::item_models(self.visible_items@),
                min as int,
                max as int,
            ),
    {
        let ghost models = crate::tree::item_models(self.visible_items@);
        let mut out: Vec<Vec<char>> = Vec::new();
        let mut i: usize = min;
        while i <= max
            invariant
                min <= i <= max + 1,
                max < self.visible_items.len(),
                models == crate::tree::item_models(self.visible_items@),
                crate::tree::path_views(out@) + crate::tree::spec_range_paths(
                    models,
                    i as int,
                    max as int,
                ) =~= crate::tree::spec_range_paths(models, min as int, max as int),
            decreases max + 1 - i,
        {
            let item = &self.visible_items[i];
            let ghost pre = out@;
            if !item.is_dir {
                out.push(crate::buffer::clone_chars(&item.path));
                proof {
                    assert(crate::tree::path_views(out@) =~= crate::tree::path_views(pre) + seq![
                        models[i as int].path,
                    ]);
                }
            }
            i = i + 1;
        }
        proof {
            assert(crate::tree::spec_range_paths(models, max + 1, max as int) =~= Seq::<
                Seq<char>,
            >::empty());
        }
        out
    }

    /// The selection range of the tree pane: the visual anchor and the
    /// selected row, ordered.
    fn tree_range(&self) -> (r: Option<(usize, usize)>)
        requires
            self.wf(),
        ensures
            r matches Some(p) ==> p.0 <= p.1 < self.visible_items@.len(),
            self.visible_items@.len() == 0 ==> r is None,
            ({
                let cur = match self.tree_selected {
                    Some(k) => k as int,
                    None => 0,
                };
                let anchor = match self.tree_visual_anchor {
                    Some(k) => k as int,
                    None => cur,
                };
                cur < self.visible_items@.len() ==> (r matches Some(p) && p.0 == vstd::math::min(
                    cur,
                    anchor,
                ) && p.1 == vstd::math::max(cur, anchor))
            }),
    {
        let cur = match self.tree_selected {
            Some(k) => k,
            None => 0,
        };
        if cur >= self.visible_items.len() {
            return None;
        }
        let anchor = match self.tree_visual_anchor {
            Some(k) => k,
            None => cur,
        };
        if anchor <= cur {
            Some((anchor, cur))
        } else {
            Some((cur, anchor))
        }
    }

    /// Yanks the selected paths and marks the buffer for copying.
    fn copy_selected_paths(&mut self)
        requires
            old(self).wf(),
        ensures
            final(self).wf(),
            final(self).buffer == old(self).buffer,
            final(self).mode == old(self).mode,
            final(self).key_sequence == old(self).key_sequence,
            final(self).buffer_mode == Some(BufferMode::Copy),
            final(self).tree_selected == old(self).tree_selected,
            final(self).tree_visual_anchor == old(self).tree_visual_anchor,
            ({
                let cur = match old(self).tree_selected {
                    Some(k) => k as int,
                    None => 0,
                };
                let anchor = match old(self).tree_visual_anchor {
                    Some(k) => k as int,
                    None => cur,
                };
                &&& (cur < old(self).visible_items@.len() ==> crate::tree::path_views(
                    final(self).yanked_paths@,
                ) =~= crate::tree::spec_range_paths(
                    crate::tree::item_models(old(self).visible_items@),
                    vstd::math::min(cur, anchor),
                    vstd::math::max(cur, anchor),
                ))
                &&& (cur >= old(self).visible_items@.len() ==> final(self).yanked_paths == old(self).yanked_paths)
            }),
    {
        match self.tree_range() {
            Some((min, max)) => {
                self.yanked_paths = self.collect_tree_paths(min, max);
            },
            None => {},
        }
        self.buffer_mode = Some(BufferMode::Copy);
        self.status = Status::YankedPaths;
    }

    /// Yanks the selected paths and marks the buffer for moving.
    fn cut_selected_paths(&mut self)
        requires
            old(self).wf(),
        ensures
            final(self).wf(),
            final(self).buffer == old(self).buffer,
            final(self).mode == old(self).mode,
            final(self).key_sequence == old(self).key_sequence,
            final(self).buffer_mode == Some(BufferMode::Cut),
            final(self).tree_selected == old(self).tree_selected,
            final(self).tree_visual_anchor == old(self).tree_visual_anchor,
            ({
                let cur = match old(self).tree_selected {
                    Some(k) => k as int,
                    None => 0,
                };
                let anchor = match old(self).tree_visual_anchor {
                    Some(k) => k as int,
                    None => cur,
                };
                &&& (cur < old(self).visible_items@.len() ==> crate::tree::path_views(
                    final(self).yanked_paths@,
                ) =~= crate::tree::spec_range_paths(
                    crate::tree::item_models(old(self).visible_items@),
                    vstd::math::min(cur, anchor),
                    vstd::math::max(cur, anchor),
                ))
                &&& (cur >= old(self).visible_items@.len() ==> final(self).yanked_paths == old(self).yanked_paths)
            }),
    {
        match self.tree_range() {
            Some((min, max)) => {
                self.yanked_paths = self.collect_tree_paths(min, max);
            },
            None => {},
        }
        self.buffer_mode = Some(BufferMode::Cut);
        self.status = Status::CutPaths;
    }

    /// Pastes the buffered paths next to the selected row: cut paths
    /// are moved once, copied paths are copied and stay in the buffer;
    /// the tree is then reloaded.
    fn paste_paths(&mut self, fx: &mut Vec<Effect>)
        requires
            old(self).wf(),
        ensures
            final(self).wf(),
            final(self).buffer == old(self).buffer,
            final(self).mode == old(self).mode,
            final(self).key_sequence == old(self).key_sequence,
            old(self).yanked_paths@.len() == 0 ==> final(self).status == Status::NoPathsInBuffer
                && final(fx)@ == old(fx)@,
            old(self).yanked_paths@.len() > 0 ==> (old(self).tree_selected matches Some(sel)
                ==> (sel < old(self).visible_items@.len() ==> ({
                let item = old(self).visible_items@[sel as int];
                let target = if item.is_dir {
                    item.path@
                } else {
                    spec_parent_dir(item.path@)
                };
                &&& (old(self).buffer_mode == Some(BufferMode::Cut) ==> final(fx)@.len() == old(fx)@.len() + 2 && (final(fx)@[old(fx)@.len() as int] matches Effect::MovePaths(
                    ps,
                    t,
                ) && crate::tree::path_views(ps@) =~= crate::tree::path_views(
                    old(self).yanked_paths@,
                ) && t@ == target) && final(fx)@.last() is LoadTree && final(self).yanked_paths@.len() == 0 && final(self).buffer_mode is None)
                &&& (old(self).buffer_mode == Some(BufferMode::Copy) ==> final(fx)@.len() == old(fx)@.len() + 2 && (final(fx)@[old(fx)@.len() as int] matches Effect::CopyPaths(
                    ps,
                    t,
                ) && crate::tree::path_views(ps@) =~= crate::tree::path_views(
                    old(self).yanked_paths@,
                ) && t@ == target) && final(fx)@.last() is LoadTree && final(self).yanked_paths
                    == old(self).yanked_paths && final(self).buffer_mode == old(self).buffer_mode)
                &&& (old(self).buffer_mode is None ==> final(self).status
                    == Status::NoPathsInBuffer && final(fx)@ == old(fx)@)
            }))),
    {
        if self.yanked_paths.len() == 0 {
            self.status = Status::NoPathsInBuffer;
            return ;
        }
        match self.tree_selected {
            Some(sel) => {
                if sel < self.visible_items.len() {
                    let item = &self.visible_items[sel];
                    let target_dir = if item.is_dir {
                        crate::buffer::clone_chars(&item.path)
                    } else {
                        Self::parent_dir(&item.path)
                    };
                    let mut paths: Vec<Vec<char>> = Vec::new();
                    let mut i: usize = 0;
                    while i < self.yanked_paths.len()
                        invariant
                            0 <= i <= self.yanked_paths@.len(),
                            paths@.len() == i,
                            forall|k: int|
                                0 <= k < i ==> (#[trigger] paths@[k])@
                                    == self.yanked_paths@[k]@,
                        decreases self.yanked_paths@.len() - i,
                    {
                        paths.push(crate::buffer::clone_chars(&self.yanked_paths[i]));
                        i = i + 1;
                    }
                    proof {
                        assert(crate::tree::path_views(paths@) =~= crate::tree::path_views(
                            self.yanked_paths@,
                        ));
                    }
                    match self.buffer_mode {
                        Some(BufferMode::Cut) => {
                            fx.push(Effect::MovePaths(paths, target_dir));
                            self.yanked_paths = Vec::new();
                            self.buffer_mode = None;
                            self.status = Status::Pasted;
                            fx.push(Effect::LoadTree);
                        },
                        Some(BufferMode::Copy) => {
                            fx.push(Effect::CopyPaths(paths, target_dir));
                            self.status = Status::Pasted;
                            fx.push(Effect::LoadTree);
                        },
                        None => {
                            self.status = Status::NoPathsInBuffer;
                        },
                    }
                }
            },
            None => {},
        }
    }

    /// Fires a resolved multi-key file-tree command: both commands
    /// change the sort order and ask for the tree to be reloaded.
    fn fire_tree_command(&mut self, cmd: TreeCommand, fx: &mut Vec<Effect>)
        requires
            old(self).wf(),
        ensures
            final(self).wf(),
            final(self).buffer == old(self).buffer,
            final(self).mode == old(self).mode,
            final(self).key_sequence == old(self).key_sequence,
            cmd == TreeCommand::SortByModified ==> final(self).sort_by == SortBy::Modified
                && final(self).sort_asc == (if old(self).sort_by == SortBy::Modified {
                !old(self).sort_asc
            } else {
                true
            }),
            cmd == TreeCommand::SortByName ==> final(self).sort_by == SortBy::Name && final(self).sort_asc == (if old(self).sort_by == SortBy::Name {
                !old(self).sort_asc
            } else {
                true
            }),
    {
        match cmd {
            TreeCommand::SortByModified => {
                if match self.sort_by {
                    SortBy::Modified => true,
                    _ => false,
                } {
                    self.sort_asc = !self.sort_asc;
                } else {
                    self.sort_by = SortBy::Modified;
                    self.sort_asc = true;
                }
            },
            TreeCommand::SortByName => {
                if match self.sort_by {
                    SortBy::Name => true,
                    _ => false,
                } {
                    self.sort_asc = !self.sort_asc;
                } else {
                    self.sort_by = SortBy::Name;
                    self.sort_asc = true;
                }
            },
        }
        self.status = Status::SortedTree;
        fx.push(Effect::LoadTree);
    }

    /// One key in FileTree mode.  A pending prefix goes to the tree
    /// command table (`oc`, `on` change the sorting).  Otherwise:
    /// Escape returns to the editor; Up/Down move the selection; Left
    /// collapses a directory or jumps to the parent row; Right expands
    /// a directory; Enter toggles a directory or opens a file; `v`
    /// starts a visual range; `d` deletes the selected file; `r` and
    /// `n` open prefilled command prompts; `y`, `x`, `p` copy, cut and
    /// paste; `<`, `>` and `f` adjust the pane; any other printable
    /// key starts a prefix.
    pub fn handle_file_tree(&mut self, key: KeyInput) -> (fx: Vec<Effect>)
        requires
            old(self).wf(),
            old(self).mode == Mode::FileTree,
        ensures
            final(self).wf(),
            key.code matches KeyCode::Char(c) ==> (old(self).key_sequence@.len() > 0 ==> ({
                let out = crate::keyseq::spec_resolve_tree(old(self).key_sequence@.push(c));
                &&& (out == SeqOutcome::<TreeCommand>::Reset ==> final(self).key_sequence@.len()
                    == 0 && final(self).status == Status::InvalidSequence && final(self).buffer
                    == old(self).buffer)
                &&& (out == SeqOutcome::<TreeCommand>::Buffering ==> final(self).key_sequence@
                    == old(self).key_sequence@.push(c))
                &&& (out == SeqOutcome::Fired(TreeCommand::SortByName) ==> final(self).sort_by
                    == SortBy::Name && final(self).key_sequence@.len() == 0)
                &&& (out == SeqOutcome::Fired(TreeCommand::SortByModified) ==> final(self).sort_by
                    == SortBy::Modified && final(self).key_sequence@.len() == 0)
            })),
            key.code == KeyCode::Esc ==> final(self).mode == Mode::Normal,
            key.code == KeyCode::Up ==> final(self).tree_selected == (match old(self).tree_selected {
                Some(k) => if k > 0 {
                    Some((k - 1) as usize)
                } else {
                    Some(k)
                },
                None => None,
            }) && fx@.len() == 0,
            key.code == KeyCode::Down ==> final(self).tree_selected == (match old(self).tree_selected {
                Some(k) => if k + 1 < old(self).visible_items@.len() {
                    Some((k + 1) as usize)
                } else {
                    Some(k)
                },
                None => None,
            }) && fx@.len() == 0,
            key.code == KeyCode::Right ==> (old(self).tree_selected matches Some(k) ==> ({
                let item = old(self).visible_items@[k as int];
                &&& (item.is_dir && !item.expanded ==> fx@.len() == 1 && (
                fx@[0] matches Effect::LoadDir(p) && p@ == item.path@))
                &&& (!(item.is_dir && !item.expanded) ==> fx@.len() == 0)
            })),
            key.code == KeyCode::Enter ==> (old(self).tree_selected matches Some(k) ==> ({
                let item = old(self).visible_items@[k as int];
                !item.is_dir ==> fx@.len() == 1 && (fx@[0] matches Effect::OpenWikilink(n, l) && l@
                    == item.path@ && n@ == crate::wikilink::spec_wikilink_file_name(l@))
            })),
            old(self).key_sequence@.len() == 0 ==> ({
                &&& (key == (KeyInput { code: KeyCode::Char('v'), ctrl: false }) ==> (old(self).tree_selected matches Some(k) ==> final(self).mode == Mode::FileTreeVisual
                    && final(self).tree_visual_anchor == Some(k) && fx@.len() == 0))
                &&& (key == (KeyInput { code: KeyCode::Char('d'), ctrl: false }) ==> (old(self).tree_selected matches Some(k) ==> ({
                    let item = old(self).visible_items@[k as int];
                    &&& (item.is_dir ==> final(self).status == Status::CannotDeleteDirectory
                        && fx@.len() == 0 && final(self).file_tree == old(self).file_tree)
                    &&& (!item.is_dir ==> fx@.len() == 1 && (
                    fx@[0] matches Effect::DeleteFile(p) && p@ == item.path@)
                        && crate::tree::item_models(final(self).visible_items@)
                        =~= crate::tree::spec_visible(final(self).file_tree))
                })))
                &&& (key == (KeyInput { code: KeyCode::Char('r'), ctrl: false }) ==> final(self).mode == Mode::Command && final(self).prev_mode == Some(Mode::FileTree) && final(self).command@ =~= seq!['r', 'e', 'n', 'a', 'm', 'e', ' '] && fx@.len() == 0)
                &&& (key == (KeyInput { code: KeyCode::Char('n'), ctrl: false }) ==> final(self).mode == Mode::Command && final(self).prev_mode == Some(Mode::FileTree) && final(self).command@ =~= seq!['n', 'e', 'w', ' '] && fx@.len() == 0)
                &&& (key == (KeyInput { code: KeyCode::Char('y'), ctrl: false }) ==> final(self).buffer_mode == Some(BufferMode::Copy) && fx@.len() == 0)
                &&& (key == (KeyInput { code: KeyCode::Char('x'), ctrl: false }) ==> final(self).buffer_mode == Some(BufferMode::Cut) && fx@.len() == 0)
                &&& (key == (KeyInput { code: KeyCode::Char('<'), ctrl: false }) ==> final(self).tree_width_percent == (if !old(self).full_tree && old(self).tree_width_percent
                    > 10 {
                    (old(self).tree_width_percent - 5) as u16
                } else {
                    old(self).tree_width_percent
                }) && fx@.len() == 0)
                &&& (key == (KeyInput { code: KeyCode::Char('>'), ctrl: false }) ==> final(self).tree_width_percent == (if !old(self).full_tree && old(self).tree_width_percent
                    < 50 {
                    (old(self).tree_width_percent + 5) as u16
                } else {
                    old(self).tree_width_percent
                }) && fx@.len() == 0)
                &&& (key == (KeyInput { code: KeyCode::Char('f'), ctrl: false }) ==> final(self).full_tree == !old(self).full_tree && fx@.len() == 0)
            }),
    {
        let mut fx: Vec<Effect> = Vec::new();
        if self.key_sequence.len() > 0 {
            match key.code {
                KeyCode::Char(c) => {
                    match crate::keyseq::resolve_tree(&self.key_sequence, c) {
                        SeqOutcome::Fired(cmd) => {
                            self.key_sequence = Vec::new();
                            self.fire_tree_command(cmd, &mut fx);
                        },
                        SeqOutcome::Buffering => {
                            self.key_sequence.push(c);
                        },
                        SeqOutcome::Reset => {
                            self.key_sequence = Vec::new();
                            self.status = Status::InvalidSequence;
                        },
                    }
                    return fx;
                },
                _ => {},
            }
        }
        match key.code {
            KeyCode::Esc => {
                self.key_sequence = Vec::new();
                self.mode = Mode::Normal;
                self.status = Status::Normal;
            },
            KeyCode::Up => {
                match self.tree_selected {
                    Some(sel) => {
                        if sel > 0 {
                            self.tree_selected = Some(sel - 1);
                        }
                    },
                    None => {},
                }
            },
            KeyCode::Down => {
                match self.tree_selected {
                    Some(sel) => {
                        if sel + 1 < self.visible_items.len() {
                            self.tree_selected = Some(sel + 1);
                        }
                    },
                    None => {},
                }
            },
            KeyCode::Left => {
                match self.tree_selected {
                    Some(sel) => {
                        let item = &self.visible_items[sel];
                        if item.is_dir {
                            let path = crate::buffer::clone_chars(&item.path);
                            self.file_tree = crate::tree::with_dir_state(
                                &self.file_tree,
                                &path,
                                false,
                                None,
                            );
                            self.refresh_visible();
                        } else {
                            let depth = item.depth;
                            let mut target: Option<usize> = None;
                            let mut i: usize = sel;
                            while target.is_none() && i > 0
                                invariant
                                    i <= sel < self.visible_items@.len(),
                                    target matches Some(t) ==> t < self.visible_items@.len(),
                                decreases i,
                            {
                                i = i - 1;
                                if self.visible_items[i].depth < depth {
                                    target = Some(i);
                                }
                            }
                            match target {
                                Some(t) => {
                                    self.tree_selected = Some(t);
                                },
                                None => {},
                            }
                        }
                    },
                    None => {},
                }
            },
            KeyCode::Right => {
                match self.tree_selected {
                    Some(sel) => {
                        let item = &self.visible_items[sel];
                        if item.is_dir && !item.expanded {
                            fx.push(Effect::LoadDir(crate::buffer::clone_chars(&item.path)));
                        }
                    },
                    None => {},
                }
            },
            KeyCode::Enter => {
                match self.tree_selected {
                    Some(sel) => {
                        let item = &self.visible_items[sel];
                        if item.is_dir {
                            if item.expanded {
                                let path = crate::buffer::clone_chars(&item.path);
                                self.file_tree = crate::tree::with_dir_state(
                                    &self.file_tree,
                                    &path,
                                    false,
                                    None,
                                );
                                self.refresh_visible();
                            } else {
                                fx.push(Effect::LoadDir(crate::buffer::clone_chars(&item.path)));
                            }
                        } else {
                            let link = crate::buffer::clone_chars(&item.path);
                            let name = crate::wikilink::wikilink_file_name(&link);
                            fx.push(Effect::OpenWikilink(name, link));
                        }
                    },
                    None => {},
                }
            },
            KeyCode::Char('v') => {
                match self.tree_selected {
                    Some(sel) => {
                        self.tree_visual_anchor = Some(sel);
                        self.mode = Mode::FileTreeVisual;
                        self.status = Status::TreeVisual;
                        self.key_sequence = Vec::new();
                    },
                    None => {},
                }
            },
            KeyCode::Char('d') => {
                match self.tree_selected {
                    Some(sel) => {
                        let item = &self.visible_items[sel];
                        if item.is_dir {
                            self.status = Status::CannotDeleteDirectory;
                        } else {
                            let path = crate::buffer::clone_chars(&item.path);
                            fx.push(Effect::DeleteFile(crate::buffer::clone_chars(&path)));
                            self.file_tree = crate::tree::without_node(&self.file_tree, &path);
                            self.refresh_visible();
                        }
                    },
                    None => {},
                }
            },
            KeyCode::Char('r') => {
                self.prev_mode = Some(Mode::FileTree);
                self.mode = Mode::Command;
                self.key_sequence = Vec::new();
                let mut cmd: Vec<char> = Vec::new();
                cmd.push('r');
                cmd.push('e');
                cmd.push('n');
                cmd.push('a');
                cmd.push('m');
                cmd.push('e');
                cmd.push(' ');
                self.command = cmd;
                self.status = Status::RenamePrompt;
            },
            KeyCode::Char('n') => {
                self.prev_mode = Some(Mode::FileTree);
                self.mode = Mode::Command;
                self.key_sequence = Vec::new();
                let mut cmd: Vec<char> = Vec::new();
                cmd.push('n');
                cmd.push('e');
                cmd.push('w');
                cmd.push(' ');
                self.command = cmd;
                self.status = Status::NewFilePrompt;
            },
            KeyCode::Char('y') => {
                self.copy_selected_paths();
            },
            KeyCode::Char('x') => {
                self.cut_selected_paths();
            },
            KeyCode::Char('p') => {
                self.paste_paths(&mut fx);
            },
            KeyCode::Char('<') => {
                if !self.full_tree && self.tree_width_percent > 10 {
                    self.tree_width_percent = self.tree_width_percent - 5;
                }
            },
            KeyCode::Char('>') => {
                if !self.full_tree && self.tree_width_percent < 50 {
                    self.tree_width_percent = self.tree_width_percent + 5;
                }
            },
            KeyCode::Char('f') => {
                self.full_tree = !self.full_tree;
                self.status = if self.full_tree {
                    Status::FullTree
                } else {
                    Status::SplitTree
                };
            },
            KeyCode::Char(c) => {
                self.key_sequence.push(c);
            },
            _ => {},
        }
        fx
    }

    /// One key in the tree's visual mode: Escape drops the range;
    /// Up/Down move the live end; `d` deletes the files of the range;
    /// `y` and `x` copy or cut them; `r` opens the rename prompt when
    /// the range is a single row.
    pub fn handle_file_tree_visual(&mut self, key: KeyInput) -> (fx: Vec<Effect>)
        requires
            old(self).wf(),
            old(self).mode == Mode::FileTreeVisual,
        ensures
            final(self).wf(),
            key.code == KeyCode::Esc ==> final(self).mode == Mode::FileTree && final(self).tree_visual_anchor is None && fx@.len() == 0,
            key.code == KeyCode::Up ==> final(self).tree_selected == (match old(self).tree_selected {
                Some(k) => if k > 0 {
                    Some((k - 1) as usize)
                } else {
                    Some(k)
                },
                None => None,
            }) && fx@.len() == 0,
            key.code == KeyCode::Down ==> final(self).tree_selected == (match old(self).tree_selected {
                Some(k) => if k + 1 < old(self).visible_items@.len() {
                    Some((k + 1) as usize)
                } else {
                    Some(k)
                },
                None => None,
            }) && fx@.len() == 0,
            key.code == KeyCode::Char('y') ==> final(self).buffer_mode == Some(BufferMode::Copy)
                && final(self).mode == Mode::FileTree && final(self).tree_visual_anchor is None
                && fx@.len() == 0,
            key.code == KeyCode::Char('x') ==> final(self).buffer_mode == Some(BufferMode::Cut)
                && final(self).mode == Mode::FileTree && final(self).tree_visual_anchor is None
                && fx@.len() == 0,
            key.code == KeyCode::Char('d') ==> final(self).mode == Mode::FileTree && final(self).tree_visual_anchor is None && ({
                let cur = match old(self).tree_selected {
                    Some(k) => k as int,
                    None => 0,
                };
                let anchor = match old(self).tree_visual_anchor {
                    Some(k) => k as int,
                    None => cur,
                };
                cur < old(self).visible_items@.len() ==> fx@.len() == 1 && (
                fx@[0] matches Effect::DeleteFiles(ps) && crate::tree::path_views(ps@)
                    =~= crate::tree::spec_range_paths(
                    crate::tree::item_models(old(self).visible_items@),
                    vstd::math::min(cur, anchor),
                    vstd::math::max(cur, anchor),
                )) && crate::tree::item_models(final(self).visible_items@)
                    =~= crate::tree::spec_visible(final(self).file_tree)
            }),
            key.code == KeyCode::Char('r') ==> ({
                let cur = match old(self).tree_selected {
                    Some(k) => k as int,
                    None => 0,
                };
                let anchor = match old(self).tree_visual_anchor {
                    Some(k) => k as int,
                    None => cur,
                };
                &&& (anchor == cur ==> final(self).mode == Mode::Command && final(self).prev_mode
                    == Some(Mode::FileTreeVisual) && final(self).command@ =~= seq![
                    'r',
                    'e',
                    'n',
                    'a',
                    'm',
                    'e',
                    ' ',
                ])
                &&& (anchor != cur ==> final(self).status == Status::RenameSingleOnly && final(self).mode == Mode::FileTreeVisual)
                &&& fx@.len() == 0
            }),
    {
        let mut fx: Vec<Effect> = Vec::new();
        match key.code {
            KeyCode::Esc => {
                self.tree_visual_anchor = None;
                self.mode = Mode::FileTree;
                self.status = Status::FileTree;
            },
            KeyCode::Up => {
                match self.tree_selected {
                    Some(sel) => {
                        if sel > 0 {
                            self.tree_selected = Some(sel - 1);
                        }
                    },
                    None => {},
                }
            },
            KeyCode::Down => {
                match self.tree_selected {
                    Some(sel) => {
                        if sel + 1 < self.visible_items.len() {
                            self.tree_selected = Some(sel + 1);
                        }
                    },
                    None => {},
                }
            },
            KeyCode::Char('d') => {
                match self.tree_range() {
                    Some((min, max)) => {
                        let paths = self.collect_tree_paths(min, max);
                        let mut to_delete: Vec<Vec<char>> = Vec::new();
                        let mut i: usize = 0;
                        while i < paths.len()
                            invariant
                                0 <= i <= paths@.len(),
                                self.wf(),
                                self.mode == old(self).mode,
                                self.key_sequence == old(self).key_sequence,
                                to_delete@.len() == i,
                                forall|k: int|
                                    0 <= k < i ==> (#[trigger] to_delete@[k])@ == paths@[k]@,
                            decreases paths@.len() - i,
                        {
                            let p = crate::buffer::clone_chars(&paths[i]);
                            self.file_tree = crate::tree::without_node(&self.file_tree, &p);
                            to_delete.push(p);
                            i = i + 1;
                        }
                        proof {
                            assert(crate::tree::path_views(to_delete@) =~= crate::tree::path_views(
                                paths@,
                            ));
                        }
                        fx.push(Effect::DeleteFiles(to_delete));
                        self.refresh_visible();
                    },
                    None => {},
                }
                self.tree_visual_anchor = None;
                self.mode = Mode::FileTree;
            },
            KeyCode::Char('y') => {
                self.copy_selected_paths();
                self.tree_visual_anchor = None;
                self.mode = Mode::FileTree;
            },
            KeyCode::Char('x') => {
                self.cut_selected_paths();
                self.tree_visual_anchor = None;
                self.mode = Mode::FileTree;
            },
            KeyCode::Char('r') => {
                let cur = match self.tree_selected {
                    Some(k) => k,
                    None => 0,
                };
                let anchor = match self.tree_visual_anchor {
                    Some(k) => k,
                    None => cur,
                };
                if anchor == cur {
                    self.prev_mode = Some(Mode::FileTreeVisual);
                    self.mode = Mode::Command;
                    let mut cmd: Vec<char> = Vec::new();
                    cmd.push('r');
                    cmd.push('e');
                    cmd.push('n');
                    cmd.push('a');
                    cmd.push('m');
                    cmd.push('e');
                    cmd.push(' ');
                    self.command = cmd;
                    self.status = Status::RenamePrompt;
                } else {
                    self.status = Status::RenameSingleOnly;
                }
            },
            _ => {},
        }
        fx
    }

    /// Routes one key event to the handler of the current mode and
    /// hands back the requests the surrounding application must
    /// perform.  Exactly one key event is processed, synchronously.
    /// The contract restates every per-mode handler's guarantees,
    /// guarded by the mode the event arrived in, so a caller that only
    /// sees this function still holds the whole behaviour of the
    /// machine.
    pub fn handle_input(&mut self, key: KeyInput) -> (fx: Vec<Effect>)
        requires
            old(self).wf(),
        ensures
            final(self).wf(),
            old(self).mode == Mode::Normal ==> (key.code matches KeyCode::Char(c) ==> (old(self).key_sequence@.len() > 0 ==> {
                let out = crate::keyseq::spec_resolve_normal(old(self).key_sequence@.push(c));
                &&& (out == SeqOutcome::<EditorCommand>::Reset ==> final(self).key_sequence@.len()
                    == 0 && final(self).status == Status::InvalidSequence && final(self).buffer
                    == old(self).buffer && final(self).yanked == old(self).yanked && final(self).mode == Mode::Normal && fx@.len() == 0)
                &&& (out == SeqOutcome::<EditorCommand>::Buffering ==> final(self).key_sequence@
                    == old(self).key_sequence@.push(c) && final(self).buffer == old(self).buffer
                    && final(self).mode == Mode::Normal && fx@.len() == 0)
                &&& (out == SeqOutcome::Fired(EditorCommand::JumpTop) ==> final(self).buffer.text() == old(self).buffer.text() && final(self).buffer.row == 0 && final(self).buffer.col == 0 && final(self).status == Status::MovedToTop && final(self).key_sequence@.len() == 0)
                &&& (out == SeqOutcome::Fired(EditorCommand::YankLine) ==> final(self).buffer
                    == old(self).buffer && final(self).yanked@.len() == 1 && final(self).yanked@[0]@ == old(self).buffer.text()[old(self).buffer.row as int] && final(self).key_sequence@.len() == 0)
                &&& (out == SeqOutcome::Fired(EditorCommand::DeleteLine) ==> final(self).buffer.model() =~~= crate::buffer::spec_delete_to_end(
                    BufModel { col: 0, ..old(self).buffer.model() },
                ) && final(self).key_sequence@.len() == 0)
                &&& (out == SeqOutcome::Fired(EditorCommand::SearchBacklinks) ==> final(self).mode
                    == Mode::Search && final(self).search.kind == SearchType::Backlinks)
                &&& (out == SeqOutcome::Fired(EditorCommand::SearchTags) ==> final(self).mode
                    == Mode::Search && final(self).search.kind == SearchType::Tags)
                &&& (out == SeqOutcome::Fired(EditorCommand::SearchFiles) ==> final(self).mode
                    == Mode::Search && final(self).search.kind == SearchType::Files)
                &&& (out == SeqOutcome::Fired(EditorCommand::OpenFileTree) ==> final(self).mode
                    == Mode::FileTree)
            })),
            old(self).mode == Mode::Normal ==> (old(self).key_sequence@.len() == 0 ==> ({
                &&& (key == (KeyInput { code: KeyCode::Char('u'), ctrl: false }) || key == (
                KeyInput { code: KeyCode::Char('u'), ctrl: true }) ==> final(self).buffer.model()
                    =~~= crate::buffer::spec_undo(old(self).buffer.model()) && final(self).status
                    == (if old(self).buffer.model().undo.len() > 0 {
                    Status::Undone
                } else {
                    Status::NothingToUndo
                }))
                &&& (key == (KeyInput { code: KeyCode::Char('r'), ctrl: true }) ==> final(self).buffer.model() =~~= crate::buffer::spec_redo(old(self).buffer.model()) && final(self).status == (if old(self).buffer.model().redo.len() > 0 {
                    Status::Redone
                } else {
                    Status::NothingToRedo
                }))
                &&& (key == (KeyInput { code: KeyCode::Char('i'), ctrl: false }) ==> final(self).mode == Mode::Insert && final(self).buffer == old(self).buffer)
                &&& (key == (KeyInput { code: KeyCode::Char('a'), ctrl: false }) ==> final(self).mode == Mode::Insert && final(self).buffer.text() == old(self).buffer.text())
                &&& (key == (KeyInput { code: KeyCode::Char('o'), ctrl: false }) ==> final(self).mode == Mode::Insert)
                &&& (key == (KeyInput { code: KeyCode::Char('v'), ctrl: false }) ==> final(self).mode == Mode::Visual && final(self).visual_anchor == Some(
                    (old(self).buffer.row, old(self).buffer.col),
                ) && final(self).buffer == old(self).buffer)
                &&& (key == (KeyInput { code: KeyCode::Char('v'), ctrl: true }) ==> final(self).mode == Mode::VisualBlock && final(self).visual_anchor == Some(
                    (old(self).buffer.row, old(self).buffer.col),
                ) && final(self).buffer == old(self).buffer)
                &&& (key == (KeyInput { code: KeyCode::Char('x'), ctrl: false }) ==> final(self).buffer.model() =~~= crate::buffer::spec_delete_next(old(self).buffer.model()))
                &&& (key == (KeyInput { code: KeyCode::Char('p'), ctrl: false }) ==> final(self).buffer.model() =~~= crate::buffer::spec_paste_after(
                    old(self).buffer.model(),
                    text_of(old(self).yanked@),
                ))
                &&& (key == (KeyInput { code: KeyCode::Char(':'), ctrl: false }) ==> final(self).mode == Mode::Command && final(self).command@.len() == 0 && final(self).prev_mode
                    == Some(Mode::Normal))
                &&& (key == (KeyInput { code: KeyCode::Char('o'), ctrl: true }) ==> final(self).buffer == old(self).buffer && (old(self).history.index > 0 && old(self).history.entries@.len() > 0 ==> final(self).history.index == old(self).history.index - 1 && fx@.len() == 1 && (fx@[0] matches Effect::OpenKnown(p, id)
                    && p@ == old(self).history.entries@[old(self).history.index - 1].path@ && id
                    == old(self).history.entries@[old(self).history.index - 1].file_id)) && (!(
                old(self).history.index > 0 && old(self).history.entries@.len() > 0) ==> fx@.len()
                    == 0 && final(self).status == Status::NoPreviousFile))
                &&& (key == (KeyInput { code: KeyCode::Char('i'), ctrl: true }) ==> final(self).buffer == old(self).buffer && (old(self).history.entries@.len() > 0 && old(self).history.index + 1 < old(self).history.entries@.len() ==> final(self).history.index == old(self).history.index + 1 && fx@.len() == 1 && (
                fx@[0] matches Effect::OpenKnown(p, id) && p@ == old(self).history.entries@[old(self).history.index + 1].path@ && id == old(self).history.entries@[old(self).history.index + 1].file_id)) && (!(old(self).history.entries@.len() > 0 && old(self).history.index + 1 < old(self).history.entries@.len()) ==> fx@.len() == 0
                    && final(self).status == Status::NoNextFile))
            })),
            old(self).mode == Mode::Normal ==> (key.code == KeyCode::Enter ==> (old(self).view == ViewKind::Info ==> final(self).view
                == ViewKind::Editor && final(self).buffer == old(self).buffer && fx@.len() == 0)),
            old(self).mode == Mode::Normal ==> (key.code == KeyCode::Enter ==> (old(self).view == ViewKind::Editor ==> ({
                let line = old(self).buffer.text()[old(self).buffer.row as int];
                let has_backlink = exists|i: int|
                    0 <= i < old(self).backlinks@.len() && crate::text::contains_seq(
                        line,
                        (#[trigger] old(self).backlinks@[i]).label@,
                    );
                let wl = crate::wikilink::spec_wikilink_of(line);
                let follows = has_backlink || wl is Some;
                &&& (follows ==> fx@.len() == 1 && (fx@.last() matches Effect::OpenWikilink(n, l)
                    && n@ == crate::wikilink::spec_wikilink_file_name(l@) && (has_backlink
                    ==> exists|i: int|
                    #![auto]
                    0 <= i < old(self).backlinks@.len() && crate::text::contains_seq(
                        line,
                        old(self).backlinks@[i].label@,
                    ) && l@ == old(self).backlinks@[i].label@) && (!has_backlink ==> (
                wl matches Some(t) && l@ == t))))
                &&& (follows && crate::wikilink::spec_strip_needed(line) ==> final(self).buffer.text() =~= old(self).buffer.text().update(
                    old(self).buffer.row as int,
                    crate::wikilink::spec_stripped_line(line),
                ))
                &&& (follows && !crate::wikilink::spec_strip_needed(line) ==> final(self).buffer
                    == old(self).buffer)
                &&& (!follows ==> final(self).buffer == old(self).buffer)
                &&& (!follows ==> ({
                    let has_tag = exists|j: int|
                        0 <= j < old(self).tags@.len() && crate::text::contains_seq(
                            line,
                            (#[trigger] old(self).tags@[j])@,
                        );
                    &&& (has_tag ==> final(self).view == ViewKind::Info && fx@.len() == 1 && (
                    fx@.last() matches Effect::ShowTagInfo(t) && exists|j: int|
                        #![auto]
                        0 <= j < old(self).tags@.len() && crate::text::contains_seq(
                            line,
                            old(self).tags@[j]@,
                        ) && t@ == old(self).tags@[j]@))
                    &&& (!has_tag ==> final(self).status == Status::NothingToFollow && fx@.len()
                        == 0 && final(self).view == old(self).view)
                }))
            }))),
            old(self).mode == Mode::Insert ==> (key.code == KeyCode::Esc ==> final(self).mode == Mode::Normal && final(self).buffer
                == old(self).buffer && fx@.len() == 0),
            old(self).mode == Mode::Insert ==> (key.code matches KeyCode::Char(c) ==> ({
                let b1 = crate::buffer::spec_insert_char(old(self).buffer.model(), c);
                let line = b1.text[b1.row];
                &&& final(self).buffer.model() =~~= b1
                &&& fx@.len() == 0
                &&& (crate::complete::spec_file_trigger(line, b1.col) ==> final(self).mode
                    == Mode::Complete && final(self).completion.kind == CompletionType::File)
                &&& (!crate::complete::spec_file_trigger(line, b1.col)
                    && crate::complete::spec_tag_trigger(line, b1.col) ==> final(self).mode
                    == Mode::Complete && final(self).completion.kind == CompletionType::Tag)
                &&& (!crate::complete::spec_file_trigger(line, b1.col)
                    && !crate::complete::spec_tag_trigger(line, b1.col) ==> final(self).mode
                    == Mode::Insert)
            })),
            old(self).mode == Mode::Insert ==> (key.code == KeyCode::Enter ==> final(self).buffer.model() =~~= crate::buffer::spec_newline(
                old(self).buffer.model(),
            ) && final(self).mode == Mode::Insert && fx@.len() == 0),
            old(self).mode == Mode::Insert ==> (key.code == KeyCode::Backspace ==> final(self).buffer.model()
                =~~= crate::buffer::spec_backspace(old(self).buffer.model()) && final(self).mode
                == Mode::Insert && fx@.len() == 0),
            old(self).mode == Mode::Command ==> (final(self).buffer == old(self).buffer),
            old(self).mode == Mode::Command ==> (key.code == KeyCode::Esc ==> final(self).mode == (match old(self).prev_mode {
                Some(m) => m,
                None => Mode::Normal,
            }) && final(self).command@.len() == 0 && fx@.len() == 0),
            old(self).mode == Mode::Command ==> (key.code matches KeyCode::Char(c) ==> final(self).command@ == old(self).command@.push(c) && final(self).mode == Mode::Command && fx@.len() == 0),
            old(self).mode == Mode::Command ==> (key.code == KeyCode::Backspace ==> final(self).command@ == (if old(self).command@.len() > 0 {
                old(self).command@.drop_last()
            } else {
                old(self).command@
            }) && final(self).mode == Mode::Command && fx@.len() == 0),
            old(self).mode == Mode::Command ==> (key.code == KeyCode::Enter ==> final(self).mode == (match old(self).prev_mode {
                Some(m) => m,
                None => Mode::Normal,
            }) && final(self).command@.len() == 0 && (old(self).command@ == seq!['w']
                ==> fx@ =~= seq![Effect::SaveDocument]) && (old(self).command@ == seq!['q']
                ==> final(self).should_quit) && (old(self).command@ == seq!['w', 'q'] ==> fx@
                =~= seq![Effect::SaveDocument] && final(self).should_quit)),
            old(self).mode == Mode::Complete ==> (key.code == KeyCode::Esc ==> final(self).mode == Mode::Insert && !final(self).completion.active && final(self).buffer == old(self).buffer),
            old(self).mode == Mode::Complete ==> (key.code == KeyCode::Enter ==> final(self).mode == Mode::Insert && !final(self).completion.active && fx@.len() == 0 && (old(self).completion.selected is None
                ==> final(self).buffer == old(self).buffer) && (
            old(self).completion.selected matches Some(sel) ==> ({
                let file_kind = old(self).completion.kind == CompletionType::File;
                let line = old(self).buffer.text()[old(self).buffer.row as int];
                &&& (sel < old(self).completion.suggestions@.len() ==> final(self).buffer.model()
                    =~~= crate::buffer::spec_replace_in_line(
                    old(self).buffer.model(),
                    spec_completion_start(
                        line,
                        old(self).buffer.col as int,
                        file_kind,
                        old(self).completion.query@.len() as int,
                    ),
                    old(self).buffer.col as int,
                    spec_completed_text(
                        file_kind,
                        old(self).completion.suggestions@[sel as int]@,
                    ),
                ))
                &&& (sel >= old(self).completion.suggestions@.len() ==> final(self).buffer == old(self).buffer)
            }))),
            old(self).mode == Mode::Complete ==> (key.code matches KeyCode::Char(c) ==> final(self).buffer.model()
                =~~= crate::buffer::spec_insert_char(old(self).buffer.model(), c) && final(self).mode == Mode::Complete),
            old(self).mode == Mode::Complete ==> (key.code == KeyCode::Backspace ==> ({
                let b1 = crate::buffer::spec_backspace(old(self).buffer.model());
                let present = crate::complete::spec_trigger_present(
                    b1.text[b1.row],
                    b1.col,
                    old(self).completion.kind == CompletionType::File,
                );
                &&& final(self).buffer.model() =~~= b1
                &&& (present ==> final(self).mode == Mode::Complete)
                &&& (!present ==> final(self).mode == Mode::Insert && !final(self).completion.active)
            })),
            old(self).mode == Mode::Search ==> (key.code == KeyCode::Esc ==> final(self).mode == Mode::Normal && !final(self).search.active && final(self).buffer == old(self).buffer && fx@.len() == 0),
            old(self).mode == Mode::Search ==> (key.code matches KeyCode::Char(c) ==> final(self).search.query@ == old(self).search.query@.push(c) && fx@.len() == 1 && (fx@[0] matches Effect::QuerySearch(k, q)
                && k == old(self).search.kind && q@ == final(self).search.query@) && final(self).mode == Mode::Search && final(self).buffer == old(self).buffer),
            old(self).mode == Mode::Search ==> (key.code == KeyCode::Backspace ==> final(self).search.query@ == (if old(self).search.query@.len() > 0 {
                old(self).search.query@.drop_last()
            } else {
                old(self).search.query@
            }) && fx@.len() == 1 && (fx@[0] matches Effect::QuerySearch(k, q) && k == old(self).search.kind && q@ == final(self).search.query@) && final(self).mode == Mode::Search
                && final(self).buffer == old(self).buffer),
            old(self).mode == Mode::Search ==> (key.code == KeyCode::Up ==> final(self).search.selected == (match old(self).search.selected {
                Some(k) => if k > 0 {
                    Some((k - 1) as usize)
                } else {
                    Some(k)
                },
                None => None,
            }) && final(self).buffer == old(self).buffer && fx@.len() == 0),
            old(self).mode == Mode::Search ==> (key.code == KeyCode::Down ==> final(self).search.selected == (match old(self).search.selected {
                Some(k) => if k + 1 < old(self).search.results@.len() {
                    Some((k + 1) as usize)
                } else {
                    Some(k)
                },
                None => None,
            }) && final(self).buffer == old(self).buffer && fx@.len() == 0),
            old(self).mode == Mode::Search ==> (key.code == KeyCode::Enter ==> fx@.len() <= 1 && final(self).buffer == old(self).buffer),
            old(self).mode == Mode::TagFiles ==> (final(self).buffer == old(self).buffer),
            old(self).mode == Mode::TagFiles ==> (key.code == KeyCode::Esc ==> final(self).mode == Mode::Normal && fx@.len() == 0),
            old(self).mode == Mode::TagFiles ==> (key.code == KeyCode::Enter ==> final(self).mode == Mode::Normal && fx@.len() <= 1 && (
            old(self).tag_files_selected matches Some(k) ==> fx@.len() == 1 && (
            fx@[0] matches Effect::OpenById(id) && id == old(self).tag_files@[k as int].file_id))),
            old(self).mode == Mode::TagFiles ==> (key.code == KeyCode::Up ==> final(self).tag_files_selected == (match old(self).tag_files_selected {
                Some(k) => if k > 0 {
                    Some((k - 1) as usize)
                } else {
                    Some(k)
                },
                None => None,
            }) && fx@.len() == 0),
            old(self).mode == Mode::TagFiles ==> (key.code == KeyCode::Down ==> final(self).tag_files_selected == (match old(self).tag_files_selected {
                Some(k) => if k + 1 < old(self).tag_files@.len() {
                    Some((k + 1) as usize)
                } else {
                    Some(k)
                },
                None => None,
            }) && fx@.len() == 0),
            (old(self).mode == Mode::Visual || old(self).mode == Mode::VisualBlock) ==> (fx@.len() == 0),
            (old(self).mode == Mode::Visual || old(self).mode == Mode::VisualBlock) ==> (key.code == KeyCode::Esc ==> final(self).mode == Mode::Normal && final(self).visual_anchor is None && final(self).buffer == old(self).buffer),
            (old(self).mode == Mode::Visual || old(self).mode == Mode::VisualBlock) ==> (key.code == KeyCode::Char('y') && old(self).mode == Mode::VisualBlock ==> (old(self).visual_anchor matches Some(a) ==> ({
                let minr = vstd::math::min(a.0 as int, old(self).buffer.row as int);
                let maxr = vstd::math::max(a.0 as int, old(self).buffer.row as int);
                let minc = vstd::math::min(a.1 as int, old(self).buffer.col as int);
                let maxc = vstd::math::max(a.1 as int, old(self).buffer.col as int);
                maxc < usize::MAX ==> final(self).mode == Mode::Normal && final(self).visual_anchor is None && final(self).buffer == old(self).buffer && final(self).yanked@.len() == maxr - minr + 1 && (forall|i: int|
                    0 <= i <= maxr - minr ==> (#[trigger] final(self).yanked@[i])@
                        == crate::text::clamped_slice(
                        old(self).buffer.text()[minr + i],
                        minc,
                        maxc + 1,
                    ))
            }))),
            (old(self).mode == Mode::Visual || old(self).mode == Mode::VisualBlock) ==> ((key.code == KeyCode::Char('d') || key.code == KeyCode::Char('x')) && old(self).mode == Mode::VisualBlock ==> (old(self).visual_anchor matches Some(a) ==> ({
                let minr = vstd::math::min(a.0 as int, old(self).buffer.row as int);
                let maxr = vstd::math::max(a.0 as int, old(self).buffer.row as int);
                let minc = vstd::math::min(a.1 as int, old(self).buffer.col as int);
                let maxc = vstd::math::max(a.1 as int, old(self).buffer.col as int);
                maxc < usize::MAX ==> final(self).mode == Mode::Normal && final(self).visual_anchor is None && final(self).buffer.text().len() == old(self).buffer.text().len() && (forall|k: int|
                    minr <= k <= maxr ==> #[trigger] final(self).buffer.text()[k]
                        == crate::text::spliced(
                        old(self).buffer.text()[k],
                        minc,
                        old(self).buffer.text()[k],
                        maxc + 1,
                    )) && (forall|k: int|
                    0 <= k < old(self).buffer.text().len() && !(minr <= k <= maxr)
                        ==> #[trigger] final(self).buffer.text()[k] == old(self).buffer.text()[k])
                    && final(self).buffer.row == minr && final(self).buffer.col == vstd::math::min(
                    minc,
                    final(self).buffer.text()[minr].len() as int,
                )
            }))),
            (old(self).mode == Mode::Visual || old(self).mode == Mode::VisualBlock) ==> ((key.code == KeyCode::Char('d') || key.code == KeyCode::Char('x')) && old(self).mode == Mode::Visual ==> (old(self).visual_anchor matches Some(a) ==> ({
                let first_anchor = a.0 < old(self).buffer.row || (a.0 == old(self).buffer.row
                    && a.1 <= old(self).buffer.col);
                let sr = if first_anchor {
                    a.0 as int
                } else {
                    old(self).buffer.row as int
                };
                let sc = if first_anchor {
                    a.1 as int
                } else {
                    old(self).buffer.col as int
                };
                let er = if first_anchor {
                    old(self).buffer.row as int
                } else {
                    a.0 as int
                };
                let ec = if first_anchor {
                    old(self).buffer.col as int
                } else {
                    a.1 as int
                };
                &&& final(self).mode == Mode::Normal
                &&& final(self).visual_anchor is None
                &&& final(self).buffer.text().len() == old(self).buffer.text().len() - (er - sr)
                &&& final(self).buffer.text()[sr] == crate::text::spliced(
                    old(self).buffer.text()[sr],
                    sc,
                    old(self).buffer.text()[er],
                    ec,
                )
                &&& (forall|k: int|
                    0 <= k < sr ==> #[trigger] final(self).buffer.text()[k] == old(self).buffer.text()[k])
                &&& (forall|k: int|
                    sr < k < final(self).buffer.text().len() ==> #[trigger] final(self).buffer.text()[k] == old(self).buffer.text()[k + (er - sr)])
                &&& final(self).buffer.row == sr
                &&& final(self).buffer.col == vstd::math::min(
                    sc,
                    final(self).buffer.text()[sr].len() as int,
                )
            }))),
            (old(self).mode == Mode::Visual || old(self).mode == Mode::VisualBlock) ==> (key.code == KeyCode::Char('y') && old(self).mode == Mode::Visual ==> (old(self).visual_anchor matches Some(a) ==> ({
                let first_anchor = a.0 < old(self).buffer.row || (a.0 == old(self).buffer.row
                    && a.1 <= old(self).buffer.col);
                let sr = if first_anchor {
                    a.0 as int
                } else {
                    old(self).buffer.row as int
                };
                let sc = if first_anchor {
                    a.1 as int
                } else {
                    old(self).buffer.col as int
                };
                let er = if first_anchor {
                    old(self).buffer.row as int
                } else {
                    a.0 as int
                };
                let ec = if first_anchor {
                    old(self).buffer.col as int
                } else {
                    a.1 as int
                };
                &&& final(self).mode == Mode::Normal
                &&& final(self).visual_anchor is None
                &&& final(self).buffer == old(self).buffer
                &&& final(self).yanked@.len() == er - sr + 1
                &&& (sr == er ==> final(self).yanked@[0]@ == crate::text::clamped_slice(
                    old(self).buffer.text()[sr],
                    sc,
                    ec,
                ))
                &&& (sr < er ==> final(self).yanked@[0]@ == crate::text::clamped_slice(
                    old(self).buffer.text()[sr],
                    sc,
                    old(self).buffer.text()[sr].len() as int,
                ) && final(self).yanked@[er - sr]@ == crate::text::clamped_slice(
                    old(self).buffer.text()[er],
                    0,
                    ec,
                ) && (forall|i: int|
                    0 < i < er - sr ==> (#[trigger] final(self).yanked@[i])@ == old(self).buffer.text()[sr + i]))
            }))),
            (old(self).mode == Mode::Visual || old(self).mode == Mode::VisualBlock) ==> (key.code == KeyCode::Char('I') && old(self).mode == Mode::VisualBlock ==> (old(self).visual_anchor matches Some(a) ==> final(self).mode == Mode::BlockInsert && final(self).insert_position == InsertPosition::Before && final(self).block_insert_col
                == vstd::math::min(a.1 as int, old(self).buffer.col as int) && final(self).buffer.text() == old(self).buffer.text())),
            old(self).mode == Mode::BlockInsert ==> (fx@.len() == 0),
            old(self).mode == Mode::BlockInsert ==> (key.code == KeyCode::Esc ==> final(self).mode == Mode::Normal && final(self).visual_anchor is None && final(self).buffer == old(self).buffer),
            old(self).mode == Mode::BlockInsert ==> (key.code matches KeyCode::Char(c) ==> (old(self).visual_anchor matches Some(a) ==> (
            old(self).block_insert_col < usize::MAX ==> {
                let minr = vstd::math::min(a.0 as int, old(self).buffer.row as int);
                let maxr = vstd::math::max(a.0 as int, old(self).buffer.row as int);
                &&& final(self).block_insert_col == old(self).block_insert_col + 1
                &&& final(self).buffer.text().len() == old(self).buffer.text().len()
                &&& (forall|k: int|
                    minr <= k <= maxr ==> #[trigger] final(self).buffer.text()[k]
                        == crate::selection::padded_insert(
                        old(self).buffer.text()[k],
                        old(self).block_insert_col as int,
                        c,
                    ))
                &&& (forall|k: int|
                    0 <= k < old(self).buffer.text().len() && !(minr <= k <= maxr)
                        ==> #[trigger] final(self).buffer.text()[k] == old(self).buffer.text()[k])
                &&& final(self).buffer.row == minr
                &&& final(self).buffer.col == old(self).block_insert_col + 1
                &&& final(self).mode == Mode::BlockInsert
            }))),
            old(self).mode == Mode::BlockInsert ==> (key.code == KeyCode::Backspace ==> (old(self).visual_anchor matches Some(a) ==> ({
                let minr = vstd::math::min(a.0 as int, old(self).buffer.row as int);
                let maxr = vstd::math::max(a.0 as int, old(self).buffer.row as int);
                &&& (old(self).block_insert_col >= old(self).block_origin_col ==> final(self).block_insert_col >= old(self).block_origin_col)
                &&& (old(self).block_insert_col <= old(self).block_origin_col ==> final(self).buffer == old(self).buffer && final(self).block_insert_col == old(self).block_insert_col)
                &&& (old(self).block_insert_col > old(self).block_origin_col ==> final(self).block_insert_col == old(self).block_insert_col - 1 && final(self).buffer.text().len() == old(self).buffer.text().len() && (forall|k: int|
                    minr <= k <= maxr ==> #[trigger] final(self).buffer.text()[k]
                        == crate::selection::erased_at(
                        old(self).buffer.text()[k],
                        old(self).block_insert_col - 1,
                    )) && (forall|k: int|
                    0 <= k < old(self).buffer.text().len() && !(minr <= k <= maxr)
                        ==> #[trigger] final(self).buffer.text()[k] == old(self).buffer.text()[k]))
                &&& final(self).mode == Mode::BlockInsert
            }))),
            old(self).mode == Mode::FileTree ==> (key.code matches KeyCode::Char(c) ==> (old(self).key_sequence@.len() > 0 ==> ({
                let out = crate::keyseq::spec_resolve_tree(old(self).key_sequence@.push(c));
                &&& (out == SeqOutcome::<TreeCommand>::Reset ==> final(self).key_sequence@.len()
                    == 0 && final(self).status == Status::InvalidSequence && final(self).buffer
                    == old(self).buffer)
                &&& (out == SeqOutcome::<TreeCommand>::Buffering ==> final(self).key_sequence@
                    == old(self).key_sequence@.push(c))
                &&& (out == SeqOutcome::Fired(TreeCommand::SortByName) ==> final(self).sort_by
                    == SortBy::Name && final(self).key_sequence@.len() == 0)
                &&& (out == SeqOutcome::Fired(TreeCommand::SortByModified) ==> final(self).sort_by
                    == SortBy::Modified && final(self).key_sequence@.len() == 0)
            }))),
            old(self).mode == Mode::FileTree ==> (key.code == KeyCode::Esc ==> final(self).mode == Mode::Normal),
            old(self).mode == Mode::FileTree ==> (key.code == KeyCode::Up ==> final(self).tree_selected == (match old(self).tree_selected {
                Some(k) => if k > 0 {
                    Some((k - 1) as usize)
                } else {
                    Some(k)
                },
                None => None,
            }) && fx@.len() == 0),
            old(self).mode == Mode::FileTree ==> (key.code == KeyCode::Down ==> final(self).tree_selected == (match old(self).tree_selected {
                Some(k) => if k + 1 < old(self).visible_items@.len() {
                    Some((k + 1) as usize)
                } else {
                    Some(k)
                },
                None => None,
            }) && fx@.len() == 0),
            old(self).mode == Mode::FileTree ==> (key.code == KeyCode::Right ==> (old(self).tree_selected matches Some(k) ==> ({
                let item = old(self).visible_items@[k as int];
                &&& (item.is_dir && !item.expanded ==> fx@.len() == 1 && (
                fx@[0] matches Effect::LoadDir(p) && p@ == item.path@))
                &&& (!(item.is_dir && !item.expanded) ==> fx@.len() == 0)
            }))),
            old(self).mode == Mode::FileTree ==> (key.code == KeyCode::Enter ==> (old(self).tree_selected matches Some(k) ==> ({
                let item = old(self).visible_items@[k as int];
                !item.is_dir ==> fx@.len() == 1 && (fx@[0] matches Effect::OpenWikilink(n, l) && l@
                    == item.path@ && n@ == crate::wikilink::spec_wikilink_file_name(l@))
            }))),
            old(self).mode == Mode::FileTree ==> (old(self).key_sequence@.len() == 0 ==> ({
                &&& (key == (KeyInput { code: KeyCode::Char('v'), ctrl: false }) ==> (old(self).tree_selected matches Some(k) ==> final(self).mode == Mode::FileTreeVisual
                    && final(self).tree_visual_anchor == Some(k) && fx@.len() == 0))
                &&& (key == (KeyInput { code: KeyCode::Char('d'), ctrl: false }) ==> (old(self).tree_selected matches Some(k) ==> ({
                    let item = old(self).visible_items@[k as int];
                    &&& (item.is_dir ==> final(self).status == Status::CannotDeleteDirectory
                        && fx@.len() == 0 && final(self).file_tree == old(self).file_tree)
                    &&& (!item.is_dir ==> fx@.len() == 1 && (
                    fx@[0] matches Effect::DeleteFile(p) && p@ == item.path@)
                        && crate::tree::item_models(final(self).visible_items@)
                        =~= crate::tree::spec_visible(final(self).file_tree))
                })))
                &&& (key == (KeyInput { code: KeyCode::Char('r'), ctrl: false }) ==> final(self).mode == Mode::Command && final(self).prev_mode == Some(Mode::FileTree) && final(self).command@ =~= seq!['r', 'e', 'n', 'a', 'm', 'e', ' '] && fx@.len() == 0)
                &&& (key == (KeyInput { code: KeyCode::Char('n'), ctrl: false }) ==> final(self).mode == Mode::Command && final(self).prev_mode == Some(Mode::FileTree) && final(self).command@ =~= seq!['n', 'e', 'w', ' '] && fx@.len() == 0)
                &&& (key == (KeyInput { code: KeyCode::Char('y'), ctrl: false }) ==> final(self).buffer_mode == Some(BufferMode::Copy) && fx@.len() == 0)
                &&& (key == (KeyInput { code: KeyCode::Char('x'), ctrl: false }) ==> final(self).buffer_mode == Some(BufferMode::Cut) && fx@.len() == 0)
                &&& (key == (KeyInput { code: KeyCode::Char('<'), ctrl: false }) ==> final(self).tree_width_percent == (if !old(self).full_tree && old(self).tree_width_percent
                    > 10 {
                    (old(self).tree_width_percent - 5) as u16
                } else {
                    old(self).tree_width_percent
                }) && fx@.len() == 0)
                &&& (key == (KeyInput { code: KeyCode::Char('>'), ctrl: false }) ==> final(self).tree_width_percent == (if !old(self).full_tree && old(self).tree_width_percent
                    < 50 {
                    (old(self).tree_width_percent + 5) as u16
                } else {
                    old(self).tree_width_percent
                }) && fx@.len() == 0)
                &&& (key == (KeyInput { code: KeyCode::Char('f'), ctrl: false }) ==> final(self).full_tree == !old(self).full_tree && fx@.len() == 0)
            })),
            old(self).mode == Mode::FileTreeVisual ==> (key.code == KeyCode::Esc ==> final(self).mode == Mode::FileTree && final(self).tree_visual_anchor is None && fx@.len() == 0),
            old(self).mode == Mode::FileTreeVisual ==> (key.code == KeyCode::Up ==> final(self).tree_selected == (match old(self).tree_selected {
                Some(k) => if k > 0 {
                    Some((k - 1) as usize)
                } else {
                    Some(k)
                },
                None => None,
            }) && fx@.len() == 0),
            old(self).mode == Mode::FileTreeVisual ==> (key.code == KeyCode::Down ==> final(self).tree_selected == (match old(self).tree_selected {
                Some(k) => if k + 1 < old(self).visible_items@.len() {
                    Some((k + 1) as usize)
                } else {
                    Some(k)
                },
                None => None,
            }) && fx@.len() == 0),
            old(self).mode == Mode::FileTreeVisual ==> (key.code == KeyCode::Char('y') ==> final(self).buffer_mode == Some(BufferMode::Copy)
                && final(self).mode == Mode::FileTree && final(self).tree_visual_anchor is None
                && fx@.len() == 0),
            old(self).mode == Mode::FileTreeVisual ==> (key.code == KeyCode::Char('x') ==> final(self).buffer_mode == Some(BufferMode::Cut)
                && final(self).mode == Mode::FileTree && final(self).tree_visual_anchor is None
                && fx@.len() == 0),
            old(self).mode == Mode::FileTreeVisual ==> (key.code == KeyCode::Char('d') ==> final(self).mode == Mode::FileTree && final(self).tree_visual_anchor is None && ({
                let cur = match old(self).tree_selected {
                    Some(k) => k as int,
                    None => 0,
                };
                let anchor = match old(self).tree_visual_anchor {
                    Some(k) => k as int,
                    None => cur,
                };
                cur < old(self).visible_items@.len() ==> fx@.len() == 1 && (
                fx@[0] matches Effect::DeleteFiles(ps) && crate::tree::path_views(ps@)
                    =~= crate::tree::spec_range_paths(
                    crate::tree::item_models(old(self).visible_items@),
                    vstd::math::min(cur, anchor),
                    vstd::math::max(cur, anchor),
                )) && crate::tree::item_models(final(self).visible_items@)
                    =~= crate::tree::spec_visible(final(self).file_tree)
            })),
            old(self).mode == Mode::FileTreeVisual ==> (key.code == KeyCode::Char('r') ==> ({
                let cur = match old(self).tree_selected {
                    Some(k) => k as int,
                    None => 0,
                };
                let anchor = match old(self).tree_visual_anchor {
                    Some(k) => k as int,
                    None => cur,
                };
                &&& (anchor == cur ==> final(self).mode == Mode::Command && final(self).prev_mode
                    == Some(Mode::FileTreeVisual) && final(self).command@ =~= seq![
                    'r',
                    'e',
                    'n',
                    'a',
                    'm',
                    'e',
                    ' ',
                ])
                &&& (anchor != cur ==> final(self).status == Status::RenameSingleOnly && final(self).mode == Mode::FileTreeVisual)
                &&& fx@.len() == 0
            })),
    {
        match self.mode {
            Mode::Normal => self.handle_normal(key),
            Mode::Insert => self.handle_insert(key),
            Mode::Command => self.handle_command(key),
            Mode::Complete => self.handle_complete(key),
            Mode::Search => self.handle_search(key),
            Mode::TagFiles => self.handle_tag_files(key),
            Mode::Visual | Mode::VisualBlock => self.handle_visual(key),
            Mode::BlockInsert => self.handle_block_insert(key),
            Mode::FileTree => self.handle_file_tree(key),
            Mode::FileTreeVisual => self.handle_file_tree_visual(key),
        }
    }
}

} // verus!
