use bats::bats_ui::selection::MenuSelection;
use bats::bats_ui::selector::Selector;

#[test]
fn selection_selects_right_item() {
    let s = MenuSelection { selected_idx: 5 };
    let items: Vec<i32> = (0..10).collect();
    assert_eq!(
        s.selection(&items).map(|i| i.to_string()),
        Some("5".to_string())
    );
    let items: Vec<i32> = (0..2).collect();
    assert_eq!(s.selection(&items).map(|i| i.to_string()), None);
}

#[test]
fn move_selection_advances_selection() {
    let mut state = MenuSelection { selected_idx: 1 };
    state.move_selection(2, 100);
    assert_eq!(state.selected_idx, 3);
}

#[test]
fn move_selection_wraps_around() {
    let mut state = MenuSelection { selected_idx: 1 };
    state.move_selection(3, 4);
    assert_eq!(state.selected_idx, 0);
}

#[test]
fn move_selection_addvances_selection_backward() {
    let mut state = MenuSelection { selected_idx: 2 };
    state.move_selection(-1, 100);
    assert_eq!(state.selected_idx, 1);
}

#[test]
fn move_selection_wraps_around_backwards() {
    let mut state = MenuSelection { selected_idx: 2 };
    state.move_selection(-3, 4);
    assert_eq!(state.selected_idx, 3);
}

#[test]
fn move_selection_wraps_many_times() {
    let mut state = MenuSelection { selected_idx: 0 };
    state.move_selection(-9, 4);
    assert_eq!(state.selected_idx, 3);
    state.move_selection(10, 4);
    assert_eq!(state.selected_idx, 1);
}

#[test]
fn selector_starts_at_first_item_and_wraps() {
    let mut s = Selector::new(vec!["a", "b", "c"]);
    assert_eq!(*s.selected(), "a");
    s.select_by(-1);
    assert_eq!(*s.selected(), "c");
    s.select_by(-7);
    assert_eq!(*s.selected(), "b");
    s.select_by(4);
    assert_eq!(*s.selected(), "c");
    assert_eq!(s.len(), 3);
    let marked: Vec<(bool, &str)> = s.iter().into_iter().map(|(b, i)| (b, *i)).collect();
    assert_eq!(marked, vec![(false, "a"), (false, "b"), (true, "c")]);
}

#[test]
fn move_selection_from_an_index_past_isize_max() {
    // The index is taken as a signed number: usize::MAX counts as -1.
    let mut selection = MenuSelection {
        selected_idx: usize::MAX,
    };
    selection.move_selection(1, 3);
    assert_eq!(selection.selected_idx, 0);
    selection.selected_idx = usize::MAX;
    selection.move_selection(-1, 3);
    assert_eq!(selection.selected_idx, 1);
}
