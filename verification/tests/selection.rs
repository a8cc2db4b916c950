use crudkit_leptos::selection::{position_of, CrudListViewContext, Selection};
use crudkit_leptos::view::NoDataAvailable;

#[test]
fn select_and_deselect() {
    let mut ctx = CrudListViewContext::new(Ok(vec![1, 2, 3]));
    ctx.select(2, true);
    ctx.select(2, true);
    assert_eq!(ctx.selected, vec![2]);
    ctx.select(3, true);
    ctx.select(2, false);
    assert_eq!(ctx.selected, vec![3]);
    ctx.select(9, false);
    assert_eq!(ctx.selected, vec![3]);
}

#[test]
fn toggle_entity_selection_twice_restores() {
    let mut ctx = CrudListViewContext::new(Ok(vec![1, 2, 3]));
    ctx.toggle_entity_selection(1);
    ctx.toggle_entity_selection(3);
    assert_eq!(ctx.selected, vec![1, 3]);
    ctx.toggle_entity_selection(2);
    ctx.toggle_entity_selection(2);
    assert_eq!(ctx.selected, vec![1, 3]);
    ctx.toggle_entity_selection(1);
    assert_eq!(ctx.selected, vec![3]);
}

#[test]
fn toggle_select_all_selects_then_clears() {
    let mut ctx = CrudListViewContext::new(Ok(vec![4, 5]));
    assert!(!ctx.all_selected());
    ctx.toggle_select_all();
    assert_eq!(ctx.selected, vec![4, 5]);
    assert!(ctx.all_selected());
    ctx.toggle_select_all();
    assert!(ctx.selected.is_empty());
    ctx.select(5, true);
    ctx.toggle_select_all();
    assert_eq!(ctx.selected, vec![4, 5]);
}

#[test]
fn toggle_select_all_without_data_changes_nothing() {
    let mut ctx = CrudListViewContext::new(Err(NoDataAvailable::NotYetLoaded));
    ctx.select(1, true);
    ctx.toggle_select_all();
    assert_eq!(ctx.selected, vec![1]);
    assert!(!ctx.has_data());
    assert!(!ctx.all_selected());
}

#[test]
fn empty_page_has_no_data_and_is_not_all_selected() {
    let mut ctx = CrudListViewContext::new(Ok(vec![]));
    assert!(!ctx.has_data());
    assert!(!ctx.all_selected());
    ctx.toggle_select_all();
    assert!(ctx.selected.is_empty());
}

#[test]
fn reload_clears_selection() {
    let mut ctx = CrudListViewContext::new(Ok(vec![1, 2]));
    ctx.toggle_select_all();
    ctx.reload(Ok(vec![7]));
    assert!(ctx.selected.is_empty());
    assert_eq!(ctx.data, Ok(vec![7]));
    ctx.select(7, true);
    ctx.clear_selection();
    assert!(ctx.selected.is_empty());
}

#[test]
fn position_finds_first_occurrence() {
    assert_eq!(position_of(&vec![3, 1, 3], 3), Some(0));
    assert_eq!(position_of(&vec![3, 1, 3], 1), Some(1));
    assert_eq!(position_of(&vec![], 1), None);
}

#[test]
fn selection_values_compare() {
    assert_eq!(Selection::Single(1u64), Selection::Single(1));
    assert_ne!(Selection::<u64>::Empty, Selection::Multiple(vec![]));
}

#[test]
fn toggling_a_selected_entity_twice_moves_it_last() {
    let mut ctx = CrudListViewContext::new(Ok(vec![1, 2, 3]));
    ctx.toggle_entity_selection(1);
    ctx.toggle_entity_selection(2);
    ctx.toggle_entity_selection(3);
    ctx.toggle_entity_selection(1);
    ctx.toggle_entity_selection(1);
    assert_eq!(ctx.selected, vec![2, 3, 1]);
}
