use vstd::prelude::*;

use crate::state::{
    Entry, all_completed, all_edits_cleared, all_set_completed, done, edit_committed, remaining,
    with_editing,
};
use crate::text::{is_white_space, trim_end, trim_start, trimmed};

verus! {

/// After every entry of a non-empty list is set to `status`, the list is all
/// completed exactly when `status` is true.
pub proof fn toggle_all_decides_all_completed(s: Seq<Entry>, status: bool)
    requires
        s.len() > 0,
    ensures
        all_completed(all_set_completed(s, status)) == status,
{
    let t = all_set_completed(s, status);
    assert(t[0].completed == status);
}

/// The open entries and the completed entries of a list together number as
/// many as the list.
pub proof fn open_and_completed_add_up(s: Seq<Entry>)
    ensures
        remaining(s).len() + done(s).len() == s.len(),
    decreases s.len(),
{
    if s.len() > 0 {
        open_and_completed_add_up(s.drop_last());
    }
}

/// Clearing the completed entries keeps no completed entry, and keeps every
/// open one.
pub proof fn cleared_list_holds_the_open_entries(s: Seq<Entry>)
    ensures
        forall|k: int| 0 <= k < remaining(s).len() ==> !(#[trigger] remaining(s)[k]).completed,
        forall|j: int| 0 <= j < s.len() && !s[j].completed ==> remaining(s).contains(#[trigger] s[j]),
    decreases s.len(),
{
    if s.len() > 0 {
        let r = s.drop_last();
        cleared_list_holds_the_open_entries(r);
        assert forall|j: int| 0 <= j < s.len() && !s[j].completed implies remaining(s).contains(
            #[trigger] s[j],
        ) by {
            if j < s.len() - 1 {
                assert(r[j] == s[j]);
                let k = choose|k: int| 0 <= k < remaining(r).len() && remaining(r)[k] == r[j];
                assert(remaining(s)[k] == s[j]);
            } else {
                assert(remaining(s)[remaining(s).len() - 1] == s[j]);
            }
        }
    }
}

proof fn blank_text_trims_start_to_nothing(text: Seq<char>)
    requires
        forall|k: int| 0 <= k < text.len() ==> is_white_space(#[trigger] text[k]),
    ensures
        trim_start(text).len() == 0,
    decreases text.len(),
{
    if text.len() > 0 {
        assert(is_white_space(text[0]));
        assert forall|k: int| 0 <= k < text.drop_first().len() implies is_white_space(
            #[trigger] text.drop_first()[k],
        ) by {
            assert(text.drop_first()[k] == text[k + 1]);
        }
        blank_text_trims_start_to_nothing(text.drop_first());
    }
}

/// Text made of white space alone, the empty text included, trims to nothing.
pub proof fn blank_text_trims_to_nothing(text: Seq<char>)
    requires
        forall|k: int| 0 <= k < text.len() ==> is_white_space(#[trigger] text[k]),
    ensures
        trimmed(text).len() == 0,
{
    blank_text_trims_start_to_nothing(text);
    assert(trim_end(trim_start(text)) == trim_start(text));
}

/// Committing a blank edit to an entry deletes that entry.
pub proof fn blank_edit_deletes(old: Seq<Entry>, new: Seq<Entry>, i: int, text: Seq<char>)
    requires
        0 <= i < old.len(),
        forall|k: int| 0 <= k < text.len() ==> is_white_space(#[trigger] text[k]),
        edit_committed(old, new, i, text),
    ensures
        new == old.remove(i),
{
    blank_text_trims_to_nothing(text);
}

/// Starting an edit on entry `i` (every edit ended, then entry `i` put in edit
/// mode) leaves entry `i` as the only one in edit mode.
pub proof fn starting_an_edit_is_exclusive(s: Seq<Entry>, i: int)
    requires
        0 <= i < s.len(),
    ensures
        forall|j: int|
            0 <= j < s.len() ==> (#[trigger] all_edits_cleared(s).update(i, with_editing(s[i], true))[j].editing
                <==> j == i),
{
}

} // verus!
