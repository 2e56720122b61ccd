//! The navigation history: a linear, truncating stack of
//! (document-identity, document-id) entries with a current index,
//! traversed with back and forward like browser history.  Opening a
//! document by any means other than back or forward discards every
//! entry beyond the current one.

use vstd::prelude::*;

verus! {

/// One visited document.
pub struct NavEntry {
    pub path: String,
    pub file_id: i64,
}

/// The linear history and the position inside it.
pub struct NavHistory {
    pub entries: Vec<NavEntry>,
    pub index: usize,
}

impl NavHistory {
    /// The history invariant: the index lies inside the entries once
    /// there are any.
    pub open spec fn wf(&self) -> bool {
        if self.entries.len() == 0 {
            self.index == 0
        } else {
            self.index < self.entries.len()
        }
    }

    /// An empty history.
    pub fn new() -> (r: NavHistory)
        ensures
            r.wf(),
            r.entries@.len() == 0,
            r.index == 0,
    {
        NavHistory { entries: Vec::new(), index: 0 }
    }

    /// Number of entries.
    pub fn len(&self) -> (n: usize)
        ensures
            n == self.entries@.len(),
    {
        self.entries.len()
    }

    /// Records a document opened by any means other than back/forward
    /// traversal: the entries beyond the current index are discarded,
    /// the new entry is appended, and the index moves onto it.
    pub fn push_visit(&mut self, path: String, file_id: i64)
        requires
            old(self).wf(),
        ensures
            final(self).wf(),
            old(self).entries@.len() == 0 ==> final(self).entries@.len() == 1 && final(self).index
                == 0,
            old(self).entries@.len() > 0 ==> final(self).entries@.len() == old(self).index + 2
                && final(self).index == old(self).index + 1 && (forall|k: int|
                0 <= k <= old(self).index ==> final(self).entries@[k] == old(self).entries@[k]),
            final(self).entries@.last().path == path,
            final(self).entries@.last().file_id == file_id,
    {
        if self.entries.len() > 0 {
            self.entries.truncate(self.index + 1);
            self.entries.push(NavEntry { path, file_id });
            self.index = self.index + 1;
            proof {
                assert(final(self).entries@.last().path == path);
            }
        } else {
            self.entries.push(NavEntry { path, file_id });
            self.index = 0;
        }
    }

    /// Steps back one entry and hands out the document to reopen, or
    /// reports the no-op when the history is already at its oldest
    /// entry (or empty).
    pub fn back(&mut self) -> (r: Option<(String, i64)>)
        requires
            old(self).wf(),
        ensures
            final(self).wf(),
            final(self).entries == old(self).entries,
            old(self).index > 0 && old(self).entries@.len() > 0 ==> final(self).index == old(self).index - 1 && (r matches Some(p) && p.0@ == old(self).entries@[old(self).index
                - 1].path@ && p.1 == old(self).entries@[old(self).index - 1].file_id),
            !(old(self).index > 0 && old(self).entries@.len() > 0) ==> final(self).index == old(self).index && r is None,
    {
        if self.entries.len() > 0 && self.index > 0 {
            self.index = self.index - 1;
            let entry = &self.entries[self.index];
            Some((entry.path.clone(), entry.file_id))
        } else {
            None
        }
    }

    /// Steps forward one entry and hands out the document to reopen,
    /// or reports the no-op when the history is already at its newest
    /// entry (or empty).
    pub fn forward(&mut self) -> (r: Option<(String, i64)>)
        requires
            old(self).wf(),
        ensures
            final(self).wf(),
            final(self).entries == old(self).entries,
            old(self).entries@.len() > 0 && old(self).index + 1 < old(self).entries@.len()
                ==> final(self).index == old(self).index + 1 && (r matches Some(p) && p.0@ == old(self).entries@[old(self).index + 1].path@ && p.1 == old(self).entries@[old(self).index
                + 1].file_id),
            !(old(self).entries@.len() > 0 && old(self).index + 1 < old(self).entries@.len())
                ==> final(self).index == old(self).index && r is None,
    {
        if self.entries.len() > 0 && self.index + 1 < self.entries.len() {
            self.index = self.index + 1;
            let entry = &self.entries[self.index];
            Some((entry.path.clone(), entry.file_id))
        } else {
            None
        }
    }

    /// The entry the history currently stands on, if there is one.
    pub fn current(&self) -> (r: Option<(String, i64)>)
        requires
            self.wf(),
        ensures
            self.entries@.len() > 0 ==> (r matches Some(p) && p.0@
                == self.entries@[self.index as int].path@ && p.1
                == self.entries@[self.index as int].file_id),
            self.entries@.len() == 0 ==> r is None,
    {
        if self.entries.len() > 0 {
            let entry = &self.entries[self.index];
            Some((entry.path.clone(), entry.file_id))
        } else {
            None
        }
    }
}

} // verus!
