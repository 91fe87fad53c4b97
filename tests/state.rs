use todomvc::state::{Entry, Filter, State};
use todomvc::update::Msg;

fn entry(description: &str, completed: bool) -> Entry {
    Entry { description: description.to_string(), completed, editing: false }
}

fn state_with(entries: Vec<Entry>) -> State {
    State::new(Some(entries))
}

fn descriptions(state: &State) -> Vec<String> {
    state.entries.iter().map(|e| e.description.clone()).collect()
}

#[test]
fn new_without_restored_entries_is_empty() {
    let state = State::new(None);
    assert!(state.entries.is_empty());
    assert_eq!(state.filter, Filter::All);
    assert_eq!(state.value, "");
    assert_eq!(state.edit_value, "");
}

#[test]
fn new_keeps_restored_entries() {
    let state = state_with(vec![entry("a", true), entry("b", false)]);
    assert_eq!(state.entries, vec![entry("a", true), entry("b", false)]);
}

#[test]
fn buy_milk_scenario() {
    let mut state = State::new(None);
    state.value = "Buy milk".to_string();
    state.add();
    assert_eq!(
        state.entries,
        vec![Entry { description: "Buy milk".to_string(), completed: false, editing: false }]
    );
    state.toggle(0);
    assert!(state.entries[0].completed);
    assert_eq!(state.total(), 0);
    assert_eq!(state.total_completed(), 1);
    state.clear_completed();
    assert!(state.entries.is_empty());
}

#[test]
fn add_trims_staged_text_and_clears_it() {
    let mut state = State::new(None);
    state.value = "  Walk the dog \t".to_string();
    state.add();
    assert_eq!(descriptions(&state), vec!["Walk the dog".to_string()]);
    assert_eq!(state.value, "");
}

#[test]
fn add_ignores_blank_text() {
    let mut state = state_with(vec![entry("a", false)]);
    state.value = "   ".to_string();
    state.add();
    assert_eq!(descriptions(&state), vec!["a".to_string()]);
    assert_eq!(state.value, "");
}

#[test]
fn remove_shifts_later_entries_down() {
    let mut state = state_with(vec![entry("a", false), entry("b", true), entry("c", false), entry("d", true)]);
    state.remove(1);
    assert_eq!(state.entries.len(), 3);
    assert_eq!(descriptions(&state), vec!["a".to_string(), "c".to_string(), "d".to_string()]);
    assert!(state.entries[2].completed);
}

#[test]
fn toggle_all_true_makes_all_completed() {
    let mut state = state_with(vec![entry("a", false), entry("b", true)]);
    state.toggle_all(true);
    assert!(state.is_all_completed());
    assert!(state.entries.iter().all(|e| e.completed));
}

#[test]
fn toggle_all_false_leaves_none_completed() {
    let mut state = state_with(vec![entry("a", true), entry("b", true)]);
    assert!(state.is_all_completed());
    state.toggle_all(false);
    assert!(!state.is_all_completed());
    assert_eq!(state.total_completed(), 0);
}

#[test]
fn empty_list_counts_as_all_completed() {
    let state = State::new(None);
    assert!(state.is_all_completed());
}

#[test]
fn complete_edit_with_empty_text_removes_entry() {
    let mut state = state_with(vec![entry("a", false), entry("b", false), entry("c", false)]);
    state.complete_edit(1, String::new());
    assert_eq!(descriptions(&state), vec!["a".to_string(), "c".to_string()]);
}

#[test]
fn complete_edit_with_blank_text_removes_entry() {
    let mut state = state_with(vec![entry("a", false), entry("b", false)]);
    state.complete_edit(0, " \t ".to_string());
    assert_eq!(descriptions(&state), vec!["b".to_string()]);
}

#[test]
fn complete_edit_trims_and_ends_editing() {
    let mut state = state_with(vec![entry("a", true), entry("old", false)]);
    state.toggle_edit(1);
    assert!(state.entries[1].editing);
    state.complete_edit(1, "  New text  ".to_string());
    assert_eq!(state.entries[1].description, "New text");
    assert!(!state.entries[1].editing);
    assert!(!state.entries[1].completed);
    assert_eq!(state.entries[0], entry("a", true));
}

#[test]
fn clear_completed_keeps_open_entries_in_order() {
    let mut state = state_with(vec![entry("A", false), entry("B", true), entry("C", false), entry("D", true)]);
    state.clear_completed();
    assert_eq!(state.entries, vec![entry("A", false), entry("C", false)]);
}

#[test]
fn totals_add_up_to_length() {
    let state = state_with(vec![entry("a", false), entry("b", true), entry("c", true), entry("d", false), entry("e", false)]);
    assert_eq!(state.total(), 3);
    assert_eq!(state.total_completed(), 2);
    assert_eq!(state.total() + state.total_completed(), state.entries.len());
}

#[test]
fn toggle_flips_one_entry() {
    let mut state = state_with(vec![entry("a", false), entry("b", false)]);
    state.toggle(1);
    assert_eq!(state.entries, vec![entry("a", false), entry("b", true)]);
    state.toggle(1);
    assert_eq!(state.entries, vec![entry("a", false), entry("b", false)]);
}

#[test]
fn clear_all_edit_ends_every_edit() {
    let mut state = state_with(vec![entry("a", false), entry("b", false)]);
    state.toggle_edit(0);
    state.toggle_edit(1);
    state.clear_all_edit();
    assert!(state.entries.iter().all(|e| !e.editing));
}

#[test]
fn filter_fits() {
    let open = entry("a", false);
    let finished = entry("b", true);
    assert!(Filter::All.fits(&open));
    assert!(Filter::All.fits(&finished));
    assert!(Filter::Active.fits(&open));
    assert!(!Filter::Active.fits(&finished));
    assert!(!Filter::Completed.fits(&open));
    assert!(Filter::Completed.fits(&finished));
}

#[test]
fn filter_links() {
    assert_eq!(Filter::All.as_href(), "#/");
    assert_eq!(Filter::Active.as_href(), "#/active");
    assert_eq!(Filter::Completed.as_href(), "#/completed");
}

#[test]
fn visible_indices_follow_filter() {
    let mut state = state_with(vec![entry("a", false), entry("b", true), entry("c", false)]);
    assert_eq!(state.visible_indices(), vec![0, 1, 2]);
    state.filter = Filter::Active;
    assert_eq!(state.visible_indices(), vec![0, 2]);
    state.filter = Filter::Completed;
    assert_eq!(state.visible_indices(), vec![1]);
}

#[test]
fn update_toggle_edit_keeps_a_single_entry_in_edit_mode() {
    let mut state = state_with(vec![entry("a", false), entry("b", false)]);
    assert!(!state.update(Msg::ToggleEdit(0)));
    assert_eq!(state.edit_value, "a");
    assert!(!state.update(Msg::ToggleEdit(1)));
    assert_eq!(state.edit_value, "b");
    assert!(!state.entries[0].editing);
    assert!(state.entries[1].editing);
}

#[test]
fn update_edit_commits_staged_edit() {
    let mut state = state_with(vec![entry("a", false)]);
    state.update(Msg::ToggleEdit(0));
    state.update(Msg::UpdateEdit(" renamed ".to_string()));
    state.update(Msg::Edit(0));
    assert_eq!(state.entries, vec![entry("renamed", false)]);
    assert_eq!(state.edit_value, "");
}

#[test]
fn update_add_and_set_filter() {
    let mut state = State::new(None);
    state.update(Msg::Update("first".to_string()));
    assert_eq!(state.value, "first");
    state.update(Msg::Add);
    state.update(Msg::SetFilter(Filter::Completed));
    assert_eq!(state.filter, Filter::Completed);
    assert_eq!(descriptions(&state), vec!["first".to_string()]);
}

#[test]
fn update_toggle_all_flips_between_all_and_none() {
    let mut state = state_with(vec![entry("a", true), entry("b", false)]);
    state.update(Msg::ToggleAll);
    assert!(state.entries.iter().all(|e| e.completed));
    state.update(Msg::ToggleAll);
    assert!(state.entries.iter().all(|e| !e.completed));
}

#[test]
fn update_remove_toggle_and_clear() {
    let mut state = state_with(vec![entry("a", false), entry("b", false), entry("c", false)]);
    state.update(Msg::Toggle(2));
    state.update(Msg::Remove(0));
    assert_eq!(state.entries, vec![entry("b", false), entry("c", true)]);
    state.update(Msg::ClearCompleted);
    assert_eq!(state.entries, vec![entry("b", false)]);
}

#[test]
fn update_focus_asks_for_focus_only() {
    let mut state = state_with(vec![entry("a", false)]);
    assert!(state.update(Msg::Focus));
    assert_eq!(state.entries, vec![entry("a", false)]);
}
