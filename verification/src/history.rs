//! Navigation history of one tab: an ordered list of visited paths with a
//! cursor, browser-style.

use vstd::prelude::*;

use crate::paths::eq_str;
use crate::text::string_views;

verus! {

/// Manages navigation history for markdown files.
#[derive(Debug, Clone, PartialEq)]
pub struct HistoryManager {
    history: Vec<String>,
    current_index: Option<usize>,
}

impl HistoryManager {
    /// What pushing `path` does: a duplicate of the current entry changes
    /// nothing; otherwise the forward history is dropped, the path is
    /// appended, and the cursor moves onto it.
    pub open spec fn push_effect(pre: HistoryManager, post: HistoryManager, path: Seq<char>) -> bool {
        match pre.cursor() {
            Some(i) => {
                if pre.entries()[i] == path {
                    post.entries() == pre.entries() && post.cursor() == pre.cursor()
                } else {
                    post.entries() == pre.entries().take(i + 1).push(path) && post.cursor()
                        == Some(i + 1)
                }
            },
            None => post.entries() == seq![path] && post.cursor() == Some(0int),
        }
    }

    /// The visited paths, oldest first.
    pub closed spec fn entries(self) -> Seq<Seq<char>> {
        string_views(self.history@)
    }

    /// The position of the current entry, if any.
    pub closed spec fn cursor(self) -> Option<int> {
        match self.current_index {
            Some(i) => Some(i as int),
            None => None,
        }
    }

    /// Well-formedness: the cursor is absent exactly while the history is
    /// empty, and otherwise points at an entry.
    pub open spec fn wf(self) -> bool {
        match self.cursor() {
            None => self.entries().len() == 0,
            Some(i) => 0 <= i < self.entries().len(),
        }
    }

    /// The current entry, in specification terms: the one under the cursor.
    pub open spec fn spec_current(self) -> Option<Seq<char>> {
        match self.cursor() {
            Some(i) => if 0 <= i < self.entries().len() {
                Some(self.entries()[i])
            } else {
                None
            },
            None => None,
        }
    }

    /// Creates a new empty history manager.
    pub fn new() -> (r: HistoryManager)
        ensures
            r.wf(),
            r.entries() == Seq::<Seq<char>>::empty(),
            r.cursor() is None,
    {
        let r = HistoryManager { history: Vec::new(), current_index: None };
        proof {
            assert(r.entries() =~= Seq::<Seq<char>>::empty());
        }
        r
    }

    /// Pushes a new path. A path equal to the current entry is ignored;
    /// otherwise every entry after the cursor (the forward history) is
    /// dropped, the path is appended, and the cursor moves onto it.
    pub fn push(&mut self, path: String)
        requires
            old(self).wf(),
        ensures
            final(self).wf(),
            HistoryManager::push_effect(*old(self), *final(self), path@),
    {
        let dup = match self.current_index {
            Some(idx) => eq_str(self.history[idx].as_str(), path.as_str()),
            None => false,
        };
        if dup {
            return ;
        }
        match self.current_index {
            Some(idx) => {
                let hlen = self.history.len();
                proof {
                    assert(idx < hlen);
                }
                let ghost before = self.history@;
                self.history.truncate(idx + 1);
                self.history.push(path);
                self.current_index = Some(idx + 1);
                proof {
                    assert(self.entries() =~= string_views(before).take(idx + 1).push(
                        self.history@.last()@,
                    ));
                }
            },
            None => {
                self.history.push(path);
                self.current_index = Some(0);
                proof {
                    assert(self.entries() =~= seq![self.history@.last()@]);
                }
            },
        }
    }

    /// True exactly when an entry stands before the cursor.
    pub fn can_go_back(&self) -> (r: bool)
        ensures
            r == match self.cursor() {
                Some(i) => i > 0,
                None => false,
            },
    {
        matches!(self.current_index, Some(idx) if idx > 0)
    }

    /// True exactly when an entry stands after the cursor.
    pub fn can_go_forward(&self) -> (r: bool)
        ensures
            r == match self.cursor() {
                Some(i) => i + 1 < self.entries().len(),
                None => false,
            },
    {
        match self.current_index {
            Some(idx) => idx < self.history.len().saturating_sub(1),
            None => false,
        }
    }

    /// Moves the cursor one entry back and returns that entry; with no
    /// earlier entry, changes nothing and returns `None`.
    pub fn go_back(&mut self) -> (r: Option<String>)
        requires
            old(self).wf(),
        ensures
            final(self).wf(),
            final(self).entries() == old(self).entries(),
            match r {
                Some(p) => {
                    &&& old(self).cursor() matches Some(i)
                    &&& i > 0
                    &&& final(self).cursor() == Some(i - 1)
                    &&& p@ == old(self).entries()[i - 1]
                },
                None => {
                    &&& final(self).cursor() == old(self).cursor()
                    &&& !(old(self).cursor() matches Some(i) && i > 0)
                },
            },
    {
        if let Some(idx) = self.current_index {
            if idx > 0 {
                self.current_index = Some(idx - 1);
                let p = self.history[idx - 1].clone();
                proof {
                    assert(p@ == self.entries()[idx - 1]);
                }
                return Some(p);
            }
        }
        None
    }

    /// Moves the cursor one entry forward and returns that entry; with no
    /// later entry, changes nothing and returns `None`.
    pub fn go_forward(&mut self) -> (r: Option<String>)
        requires
            old(self).wf(),
        ensures
            final(self).wf(),
            final(self).entries() == old(self).entries(),
            match r {
                Some(p) => {
                    &&& old(self).cursor() matches Some(i)
                    &&& i + 1 < old(self).entries().len()
                    &&& final(self).cursor() == Some(i + 1)
                    &&& p@ == old(self).entries()[i + 1]
                },
                None => {
                    &&& final(self).cursor() == old(self).cursor()
                    &&& !(old(self).cursor() matches Some(i) && i + 1 < old(self).entries().len())
                },
            },
    {
        if let Some(idx) = self.current_index {
            if idx < self.history.len() - 1 {
                self.current_index = Some(idx + 1);
                let p = self.history[idx + 1].clone();
                proof {
                    assert(p@ == self.entries()[idx + 1]);
                }
                return Some(p);
            }
        }
        None
    }

    /// The current entry, if any.
    pub fn current(&self) -> (r: Option<&String>)
        requires
            self.wf(),
        ensures
            match r {
                Some(p) => self.spec_current() == Some(p@),
                None => self.spec_current() is None,
            },
    {
        match self.current_index {
            Some(idx) => {
                if idx < self.history.len() {
                    Some(&self.history[idx])
                } else {
                    None
                }
            },
            None => None,
        }
    }

    /// The number of entries.
    pub fn len(&self) -> (r: usize)
        ensures
            r == self.entries().len(),
    {
        self.history.len()
    }

    /// True exactly when the history holds no entry.
    pub fn is_empty(&self) -> (r: bool)
        ensures
            r == (self.entries().len() == 0),
    {
        self.history.is_empty()
    }
}

impl Default for HistoryManager {
    fn default() -> (r: HistoryManager)
        ensures
            r.wf(),
            r.entries() == Seq::<Seq<char>>::empty(),
            r.cursor() is None,
    {
        HistoryManager::new()
    }
}

} // verus!
