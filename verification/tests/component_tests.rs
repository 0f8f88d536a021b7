use nanashi::component::{advance_selection, can_advance, can_scroll, ListSelection};

#[test]
fn advance_on_empty_clears_selection() {
    let mut state = ListSelection::default();
    state.select(Some(0));
    advance_selection(&mut state, 0, 1);
    assert_eq!(state.selected(), None);
}

#[test]
fn advance_from_none_lands_on_first() {
    let mut state = ListSelection::default();
    advance_selection(&mut state, 3, 5);
    assert_eq!(state.selected(), Some(0));
}

#[test]
fn advance_up_past_top_wraps_in_range() {
    let mut state = ListSelection::default();
    state.select(Some(1));
    // 1 + (-5) = -4, which wraps to 0 within a length-4 list.
    advance_selection(&mut state, 4, -5);
    assert_eq!(state.selected(), Some(0));
}

#[test]
fn advance_down_past_bottom_wraps_in_range() {
    let mut state = ListSelection::default();
    state.select(Some(3));
    advance_selection(&mut state, 4, 6);
    assert_eq!(state.selected(), Some(1));
}

#[test]
fn rows_beyond_isize_read_as_negative() {
    let mut state = ListSelection::default();
    state.select(Some(usize::MAX));
    advance_selection(&mut state, 3, 0);
    assert_eq!(state.selected(), Some(2));

    let mut state = ListSelection::default();
    state.select(Some(usize::MAX));
    state.scroll(5, 0);
    assert_eq!(state.selected(), Some(0));
}

#[test]
fn overflowing_moves_are_refused() {
    assert!(!can_advance(Some(1), 3, isize::MAX));
    assert!(can_advance(Some(0), 3, isize::MAX));
    assert!(can_advance(None, 3, isize::MAX));
    assert!(!can_advance(Some(isize::MAX as usize + 1), usize::MAX, 0));
    assert!(!can_scroll(Some(5), 10, isize::MAX));
    assert!(!can_scroll(None, isize::MAX as usize + 1, 0));
    assert!(can_scroll(None, 0, isize::MAX));
}
