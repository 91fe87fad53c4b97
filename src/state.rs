use vstd::prelude::*;

use crate::text::{trim, trimmed};

verus! {

/// One todo item.
#[derive(Clone, Debug, PartialEq, Eq)]
pub struct Entry {
    pub description: String,
    pub completed: bool,
    pub editing: bool,
}

/// Which entries the list shows.
#[derive(Clone, Copy, Debug, PartialEq, Eq, Structural)]
pub enum Filter {
    All,
    Active,
    Completed,
}

/// The whole of a todo list: its entries in display order, the filter that
/// selects what is shown, and the text staged in the two input fields.
///
/// Entries are addressed by position. Removing one moves every later entry
/// down by one, so an index is only good until the next removal.
pub struct State {
    pub entries: Vec<Entry>,
    pub filter: Filter,
    pub value: String,
    pub edit_value: String,
}

/// Whether `filter` lets `e` through.
pub open spec fn fits_spec(filter: Filter, e: Entry) -> bool {
    match filter {
        Filter::All => true,
        Filter::Active => !e.completed,
        Filter::Completed => e.completed,
    }
}

/// The entries of `s` that are not completed, in their order.
pub open spec fn remaining(s: Seq<Entry>) -> Seq<Entry>
    decreases s.len(),
{
    if s.len() == 0 {
        s
    } else if s.last().completed {
        remaining(s.drop_last())
    } else {
        remaining(s.drop_last()).push(s.last())
    }
}

/// The entries of `s` that are completed, in their order.
pub open spec fn done(s: Seq<Entry>) -> Seq<Entry>
    decreases s.len(),
{
    if s.len() == 0 {
        s
    } else if s.last().completed {
        done(s.drop_last()).push(s.last())
    } else {
        done(s.drop_last())
    }
}

/// Every entry of `s` is completed (so an empty `s` counts as all completed).
pub open spec fn all_completed(s: Seq<Entry>) -> bool {
    forall|i: int| 0 <= i < s.len() ==> #[trigger] s[i].completed
}

/// `e` with its `completed` flag set to `c`.
pub open spec fn with_completed(e: Entry, c: bool) -> Entry {
    Entry { description: e.description, completed: c, editing: e.editing }
}

/// `e` with its `editing` flag set to `b`.
pub open spec fn with_editing(e: Entry, b: bool) -> Entry {
    Entry { description: e.description, completed: e.completed, editing: b }
}

/// `s` with every entry's `completed` flag set to `c`.
pub open spec fn all_set_completed(s: Seq<Entry>, c: bool) -> Seq<Entry> {
    Seq::new(s.len(), |i: int| with_completed(s[i], c))
}

/// `s` with every entry's `editing` flag cleared.
pub open spec fn all_edits_cleared(s: Seq<Entry>) -> Seq<Entry> {
    Seq::new(s.len(), |i: int| with_editing(s[i], false))
}

/// `new` is what committing the edit `text` to the entry at `i` of `old` gives:
/// a blank text (once trimmed) deletes the entry; any other text replaces its
/// description, trimmed, and ends its edit mode.
pub open spec fn edit_committed(old: Seq<Entry>, new: Seq<Entry>, i: int, text: Seq<char>) -> bool {
    if trimmed(text).len() == 0 {
        new == old.remove(i)
    } else {
        &&& new.len() == old.len()
        &&& new[i].description@ == trimmed(text)
        &&& new[i].completed == old[i].completed
        &&& !new[i].editing
        &&& forall|j: int| 0 <= j < old.len() && j != i ==> new[j] == old[j]
    }
}

/// `new` is `old` with an entry made from the staged text `text` added at the
/// end, unless that text is blank once trimmed.
pub open spec fn entry_added(old: Seq<Entry>, new: Seq<Entry>, text: Seq<char>) -> bool {
    if trimmed(text).len() == 0 {
        new == old
    } else {
        &&& new.len() == old.len() + 1
        &&& new.take(old.len() as int) == old
        &&& new.last().description@ == trimmed(text)
        &&& !new.last().completed
        &&& !new.last().editing
    }
}

impl Filter {
    /// Whether this filter lets `entry` through.
    pub fn fits(&self, entry: &Entry) -> (r: bool)
        ensures
            r == fits_spec(*self, *entry),
    {
        match self {
            Filter::All => true,
            Filter::Active => !entry.completed,
            Filter::Completed => entry.completed,
        }
    }

    /// The link fragment that selects this filter.
    pub fn as_href(&self) -> (r: &'static str)
        ensures
            r@ == match *self {
                Filter::All => "#/"@,
                Filter::Active => "#/active"@,
                Filter::Completed => "#/completed"@,
            },
    {
        match self {
            Filter::All => "#/",
            Filter::Active => "#/active",
            Filter::Completed => "#/completed",
        }
    }
}

impl State {
    /// A fresh state over the entries restored from storage, or over none
    /// where nothing could be restored.
    pub fn new(restored: Option<Vec<Entry>>) -> (r: State)
        ensures
            r.entries@ == match restored {
                Some(v) => v@,
                None => Seq::<Entry>::empty(),
            },
            r.filter == Filter::All,
            r.value@ == Seq::<char>::empty(),
            r.edit_value@ == Seq::<char>::empty(),
    {
        let entries = match restored {
            Some(v) => v,
            None => Vec::new(),
        };
        State { entries, filter: Filter::All, value: String::new(), edit_value: String::new() }
    }

    /// Flips `completed` on the entry at `idx`.
    pub fn toggle(&mut self, idx: usize)
        requires
            idx < old(self).entries.len(),
        ensures
            final(self).entries@ == old(self).entries@.update(
                idx as int,
                with_completed(old(self).entries@[idx as int], !old(self).entries@[idx as int].completed),
            ),
            final(self).filter == old(self).filter,
            final(self).value == old(self).value,
            final(self).edit_value == old(self).edit_value,
    {
        let c = self.entries[idx].completed;
        self.entries[idx].completed = !c;
    }

    /// Sets `completed` to `status` on every entry.
    pub fn toggle_all(&mut self, status: bool)
        ensures
            final(self).entries@ == all_set_completed(old(self).entries@, status),
            final(self).filter == old(self).filter,
            final(self).value == old(self).value,
            final(self).edit_value == old(self).edit_value,
    {
        let n = self.entries.len();
        let mut i: usize = 0;
        while i < n
            invariant
                n == old(self).entries.len(),
                i <= n,
                self.entries.len() == n,
                forall|j: int| 0 <= j < i ==> #[trigger] self.entries@[j] == with_completed(old(self).entries@[j], status),
                forall|j: int| i <= j < n ==> #[trigger] self.entries@[j] == old(self).entries@[j],
                self.filter == old(self).filter,
                self.value == old(self).value,
                self.edit_value == old(self).edit_value,
            decreases n - i,
        {
            self.entries[i].completed = status;
            i = i + 1;
        }
        assert(self.entries@ =~= all_set_completed(old(self).entries@, status));
    }

    /// Whether every entry is completed; true of an empty list, where no
    /// entry is left to do.
    pub fn is_all_completed(&self) -> (r: bool)
        ensures
            r == all_completed(self.entries@),
    {
        let mut i: usize = 0;
        while i < self.entries.len()
            invariant
                i <= self.entries.len(),
                forall|j: int| 0 <= j < i ==> #[trigger] self.entries@[j].completed,
            decreases self.entries.len() - i,
        {
            if !self.entries[i].completed {
                return false;
            }
            i = i + 1;
        }
        true
    }

    /// Ends edit mode on every entry.
    pub fn clear_all_edit(&mut self)
        ensures
            final(self).entries@ == all_edits_cleared(old(self).entries@),
            final(self).filter == old(self).filter,
            final(self).value == old(self).value,
            final(self).edit_value == old(self).edit_value,
    {
        let n = self.entries.len();
        let mut i: usize = 0;
        while i < n
            invariant
                n == old(self).entries.len(),
                i <= n,
                self.entries.len() == n,
                forall|j: int| 0 <= j < i ==> #[trigger] self.entries@[j] == with_editing(old(self).entries@[j], false),
                forall|j: int| i <= j < n ==> #[trigger] self.entries@[j] == old(self).entries@[j],
                self.filter == old(self).filter,
                self.value == old(self).value,
                self.edit_value == old(self).edit_value,
            decreases n - i,
        {
            self.entries[i].editing = false;
            i = i + 1;
        }
        assert(self.entries@ =~= all_edits_cleared(old(self).entries@));
    }

    /// Flips `editing` on the entry at `idx`. It leaves the other entries as
    /// they are: to keep a single entry in edit mode, call `clear_all_edit`
    /// first.
    pub fn toggle_edit(&mut self, idx: usize)
        requires
            idx < old(self).entries.len(),
        ensures
            final(self).entries@ == old(self).entries@.update(
                idx as int,
                with_editing(old(self).entries@[idx as int], !old(self).entries@[idx as int].editing),
            ),
            final(self).filter == old(self).filter,
            final(self).value == old(self).value,
            final(self).edit_value == old(self).edit_value,
    {
        let e = self.entries[idx].editing;
        self.entries[idx].editing = !e;
    }

    /// Deletes the entry at `idx`; every later entry moves down by one.
    pub fn remove(&mut self, idx: usize)
        requires
            idx < old(self).entries.len(),
        ensures
            final(self).entries@ == old(self).entries@.remove(idx as int),
            final(self).entries.len() == old(self).entries.len() - 1,
            forall|j: int| 0 <= j < idx ==> #[trigger] final(self).entries@[j] == old(self).entries@[j],
            forall|j: int|
                idx < j < old(self).entries.len() ==> final(self).entries@[j - 1] == #[trigger] old(self).entries@[j],
            final(self).filter == old(self).filter,
            final(self).value == old(self).value,
            final(self).edit_value == old(self).edit_value,
    {
        self.entries.remove(idx);
    }

    /// Deletes every completed entry and keeps the others in their order.
    pub fn clear_completed(&mut self)
        ensures
            final(self).entries@ == remaining(old(self).entries@),
            final(self).filter == old(self).filter,
            final(self).value == old(self).value,
            final(self).edit_value == old(self).edit_value,
    {
        let ghost all = self.entries@;
        let ghost mut k: int = 0;
        let mut i: usize = 0;
        while i < self.entries.len()
            invariant
                0 <= k <= all.len(),
                i == remaining(all.take(k)).len(),
                self.entries@ == remaining(all.take(k)) + all.skip(k),
                self.filter == old(self).filter,
                self.value == old(self).value,
                self.edit_value == old(self).edit_value,
            decreases all.len() - k,
        {
            proof {
                assert(all.take(k + 1).drop_last() =~= all.take(k));
                assert(self.entries@[i as int] == all[k]);
            }
            if self.entries[i].completed {
                self.entries.remove(i);
                proof {
                    assert(self.entries@ =~= remaining(all.take(k + 1)) + all.skip(k + 1));
                }
            } else {
                i = i + 1;
                proof {
                    assert(self.entries@ =~= remaining(all.take(k + 1)) + all.skip(k + 1));
                }
            }
            proof {
                k = k + 1;
            }
        }
        proof {
            assert(all.skip(k).len() == 0);
            assert(all.take(k) =~= all);
        }
        assert(self.entries@ =~= remaining(all));
    }

    /// How many entries are still to do (not completed).
    pub fn total(&self) -> (r: usize)
        ensures
            r == remaining(self.entries@).len(),
    {
        let mut count: usize = 0;
        let mut i: usize = 0;
        while i < self.entries.len()
            invariant
                i <= self.entries.len(),
                count == remaining(self.entries@.take(i as int)).len(),
                count <= i,
            decreases self.entries.len() - i,
        {
            proof {
                assert(self.entries@.take(i + 1).drop_last() =~= self.entries@.take(i as int));
            }
            if !self.entries[i].completed {
                count = count + 1;
            }
            i = i + 1;
        }
        assert(self.entries@.take(i as int) =~= self.entries@);
        count
    }

    /// How many entries are completed.
    pub fn total_completed(&self) -> (r: usize)
        ensures
            r == done(self.entries@).len(),
    {
        let mut count: usize = 0;
        let mut i: usize = 0;
        while i < self.entries.len()
            invariant
                i <= self.entries.len(),
                count == done(self.entries@.take(i as int)).len(),
                count <= i,
            decreases self.entries.len() - i,
        {
            proof {
                assert(self.entries@.take(i + 1).drop_last() =~= self.entries@.take(i as int));
            }
            if self.entries[i].completed {
                count = count + 1;
            }
            i = i + 1;
        }
        assert(self.entries@.take(i as int) =~= self.entries@);
        count
    }

    /// Adds the staged text `value`, trimmed, as a new open entry at the end,
    /// unless it is blank; the staged text is cleared either way.
    pub fn add(&mut self)
        ensures
            entry_added(old(self).entries@, final(self).entries@, old(self).value@),
            final(self).value@ == Seq::<char>::empty(),
            final(self).filter == old(self).filter,
            final(self).edit_value == old(self).edit_value,
    {
        let description = trim(self.value.as_str());
        if !description.as_str().is_empty() {
            let entry = Entry { description, completed: false, editing: false };
            self.entries.push(entry);
            assert(self.entries@.take(old(self).entries.len() as int) =~= old(self).entries@);
        }
        self.value = String::new();
    }

    /// The positions in `entries` of the entries that the current filter
    /// shows, in increasing order.
    pub fn visible_indices(&self) -> (r: Vec<usize>)
        ensures
            forall|k: int| 0 <= k < r.len() ==> #[trigger] r@[k] < self.entries.len(),
            forall|k: int, l: int| 0 <= k < l < r.len() ==> r@[k] < r@[l],
            forall|j: int|
                0 <= j < self.entries.len() ==> (r@.contains(j as usize) <==> fits_spec(
                    self.filter,
                    #[trigger] self.entries@[j],
                )),
    {
        let mut r: Vec<usize> = Vec::new();
        let mut i: usize = 0;
        while i < self.entries.len()
            invariant
                i <= self.entries.len(),
                forall|k: int| 0 <= k < r.len() ==> #[trigger] r@[k] < i,
                forall|k: int, l: int| 0 <= k < l < r.len() ==> r@[k] < r@[l],
                forall|j: int|
                    0 <= j < i ==> (r@.contains(j as usize) <==> fits_spec(
                        self.filter,
                        #[trigger] self.entries@[j],
                    )),
            decreases self.entries.len() - i,
        {
            let ghost before = r@;
            if self.filter.fits(&self.entries[i]) {
                r.push(i);
                assert(r@[r.len() - 1] == i);
            }
            proof {
                assert forall|j: int| 0 <= j < i implies (#[trigger] r@.contains(j as usize) <==> before.contains(
                    j as usize,
                )) by {
                    if r@.contains(j as usize) {
                        let k = choose|k: int| 0 <= k < r.len() && r@[k] == j as usize;
                        assert(k < before.len());
                        assert(before[k] == j as usize);
                    }
                    if before.contains(j as usize) {
                        let k = choose|k: int| 0 <= k < before.len() && before[k] == j as usize;
                        assert(r@[k] == j as usize);
                    }
                }
            }
            i = i + 1;
        }
        r
    }

    /// Commits the edit `text` to the entry at `idx`: a text that is blank once
    /// trimmed deletes the entry; any other sets its description to the
    /// trimmed text and ends its edit mode.
    pub fn complete_edit(&mut self, idx: usize, text: String)
        requires
            idx < old(self).entries.len(),
        ensures
            edit_committed(old(self).entries@, final(self).entries@, idx as int, text@),
            final(self).filter == old(self).filter,
            final(self).value == old(self).value,
            final(self).edit_value == old(self).edit_value,
    {
        let t = trim(text.as_str());
        if t.as_str().is_empty() {
            self.remove(idx);
        } else {
            self.entries[idx].description = t;
            self.entries[idx].editing = false;
        }
    }
}

} // verus!
