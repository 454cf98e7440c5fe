use audio_router::StatefulList;

#[test]
fn next_wraps_around() {
    let mut l = StatefulList::with_items(vec!["a", "b", "c"]);
    assert_eq!(l.selected, None);
    l.next();
    assert_eq!(l.selected, Some(0));
    l.next();
    l.next();
    assert_eq!(l.selected, Some(2));
    l.next();
    assert_eq!(l.selected, Some(0));
}

#[test]
fn previous_wraps_around() {
    let mut l = StatefulList::with_items(vec![1, 2, 3]);
    l.previous();
    assert_eq!(l.selected, Some(0));
    l.previous();
    assert_eq!(l.selected, Some(2));
    l.previous();
    assert_eq!(l.selected, Some(1));
    assert_eq!(l.selected_index(), Some(1));
}

#[test]
fn empty_list_selects_nothing() {
    let mut l: StatefulList<u8> = StatefulList::with_items(vec![]);
    l.next();
    assert_eq!(l.selected, None);
    l.previous();
    assert_eq!(l.selected, None);
    assert_eq!(l.selected_index(), None);
}

#[test]
fn stale_selection_is_not_an_index() {
    let mut l = StatefulList::with_items(vec![1, 2]);
    l.selected = Some(5);
    assert_eq!(l.selected_index(), None);
    l.next();
    assert_eq!(l.selected, Some(0));
}
