use vstd::prelude::*;

use crate::state::{
    Filter, State, all_completed, all_edits_cleared, all_set_completed, edit_committed,
    entry_added, remaining, with_completed, with_editing,
};

verus! {

/// One user intent, as the view reports it.
pub enum Msg {
    /// Commit the staged new-entry text as an entry.
    Add,
    /// Commit the staged edit text to the entry at this position.
    Edit(usize),
    /// The new-entry input now holds this text.
    Update(String),
    /// The edit input now holds this text.
    UpdateEdit(String),
    /// Delete the entry at this position.
    Remove(usize),
    /// Show the entries that this filter lets through.
    SetFilter(Filter),
    /// Complete every entry, or reopen them all if all are completed.
    ToggleAll,
    /// Put the entry at this position, and it alone, in edit mode.
    ToggleEdit(usize),
    /// Flip the completion of the entry at this position.
    Toggle(usize),
    /// Delete every completed entry.
    ClearCompleted,
    /// Move keyboard focus to the edit input.
    Focus,
}

/// Whether the position that `msg` names, if any, is one of `len` entries.
pub open spec fn msg_in_range(msg: Msg, len: nat) -> bool {
    match msg {
        Msg::Edit(i) => i < len,
        Msg::Remove(i) => i < len,
        Msg::ToggleEdit(i) => i < len,
        Msg::Toggle(i) => i < len,
        _ => true,
    }
}

/// `new` is the state that handling `msg` in state `old` leads to.
pub open spec fn handled(old: State, new: State, msg: Msg) -> bool {
    let before = old.entries@;
    let after = new.entries@;
    match msg {
        Msg::Add => {
            &&& entry_added(before, after, old.value@)
            &&& new.value@ == Seq::<char>::empty()
            &&& new.edit_value == old.edit_value
            &&& new.filter == old.filter
        },
        Msg::Edit(i) => {
            &&& edit_committed(before, after, i as int, old.edit_value@)
            &&& new.edit_value@ == Seq::<char>::empty()
            &&& new.value == old.value
            &&& new.filter == old.filter
        },
        Msg::Update(v) => {
            &&& after == before
            &&& new.value == v
            &&& new.edit_value == old.edit_value
            &&& new.filter == old.filter
        },
        Msg::UpdateEdit(v) => {
            &&& after == before
            &&& new.value == old.value
            &&& new.edit_value == v
            &&& new.filter == old.filter
        },
        Msg::Remove(i) => {
            &&& after == before.remove(i as int)
            &&& new.value == old.value
            &&& new.edit_value == old.edit_value
            &&& new.filter == old.filter
        },
        Msg::SetFilter(f) => {
            &&& after == before
            &&& new.value == old.value
            &&& new.edit_value == old.edit_value
            &&& new.filter == f
        },
        Msg::ToggleAll => {
            &&& after == all_set_completed(before, !all_completed(before))
            &&& new.value == old.value
            &&& new.edit_value == old.edit_value
            &&& new.filter == old.filter
        },
        Msg::ToggleEdit(i) => {
            &&& after == all_edits_cleared(before).update(i as int, with_editing(before[i as int], true))
            &&& new.edit_value@ == before[i as int].description@
            &&& new.value == old.value
            &&& new.filter == old.filter
        },
        Msg::Toggle(i) => {
            &&& after == before.update(i as int, with_completed(before[i as int], !before[i as int].completed))
            &&& new.value == old.value
            &&& new.edit_value == old.edit_value
            &&& new.filter == old.filter
        },
        Msg::ClearCompleted => {
            &&& after == remaining(before)
            &&& new.value == old.value
            &&& new.edit_value == old.edit_value
            &&& new.filter == old.filter
        },
        Msg::Focus => {
            &&& after == before
            &&& new.value == old.value
            &&& new.edit_value == old.edit_value
            &&& new.filter == old.filter
        },
    }
}

impl State {
    /// Handles one user intent. Returns whether the edit input should now
    /// take keyboard focus, which only `Msg::Focus` asks for.
    pub fn update(&mut self, msg: Msg) -> (focus: bool)
        requires
            msg_in_range(msg, old(self).entries.len() as nat),
        ensures
            handled(*old(self), *final(self), msg),
            focus == (msg is Focus),
    {
        match msg {
            Msg::Add => {
                self.add();
            },
            Msg::Edit(idx) => {
                let text = self.edit_value.clone();
                self.complete_edit(idx, text);
                self.edit_value = String::new();
            },
            Msg::Update(val) => {
                self.value = val;
            },
            Msg::UpdateEdit(val) => {
                self.edit_value = val;
            },
            Msg::Remove(idx) => {
                self.remove(idx);
            },
            Msg::SetFilter(filter) => {
                self.filter = filter;
            },
            Msg::ToggleEdit(idx) => {
                self.edit_value = self.entries[idx].description.clone();
                self.clear_all_edit();
                self.toggle_edit(idx);
            },
            Msg::ToggleAll => {
                let status = !self.is_all_completed();
                self.toggle_all(status);
            },
            Msg::Toggle(idx) => {
                self.toggle(idx);
            },
            Msg::ClearCompleted => {
                self.clear_completed();
            },
            Msg::Focus => {
                return true;
            },
        }
        false
    }
}

} // verus!
