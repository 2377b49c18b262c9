use hn_tui::selector::{NavigableList, Selector};

#[test]
fn test_list_navigation() {
    let items = vec![1, 2, 3];
    let mut list = NavigableList::from(&items);
    assert_eq!(*list.get().unwrap(), 1);

    list.move_prev();
    assert_eq!(*list.get().unwrap(), 1);

    list.move_next();
    assert_eq!(*list.get().unwrap(), 2);

    list.move_next();
    assert_eq!(*list.get().unwrap(), 3);

    list.move_next();
    assert_eq!(*list.get().unwrap(), 3);

    list.move_prev();
    assert_eq!(*list.get().unwrap(), 2);
}

#[test]
fn test_navigable_list_position_and_iter() {
    let items = vec![7u32, 8, 9];
    let mut list = NavigableList::from(&items);
    assert_eq!(list.get_position(), 0);
    list.move_next();
    assert_eq!(list.get_position(), 1);
    assert_eq!(list.iter().to_vec(), vec![7, 8, 9]);
}

#[test]
fn test_navigable_list_empty_get_is_absent() {
    let items: Vec<u32> = Vec::new();
    let list = NavigableList::from(&items);
    assert!(list.get().is_none());
}

#[test]
fn test_selector_empty_current_is_absent() {
    let s: Selector<u32> = Selector::new(Vec::new());
    assert!(s.get().is_none());
    assert_eq!(s.len(), 0);
    assert_eq!(s.position(), 0);
}

#[test]
fn test_selector_empty_movement_is_noop() {
    let mut s: Selector<u32> = Selector::new(Vec::new());
    s.next();
    assert_eq!(s.position(), 0);
    s.previous();
    assert_eq!(s.position(), 0);
    assert!(s.get().is_none());
}

#[test]
fn test_selector_next_clamps_at_last_index() {
    let mut s = Selector::new(vec![10, 20, 30]);
    s.next();
    s.next();
    assert_eq!(s.position(), 2);
    s.next();
    assert_eq!(s.position(), 2);
    assert_eq!(*s.get().unwrap(), 30);
}

#[test]
fn test_selector_previous_clamps_at_zero() {
    let mut s = Selector::new(vec![10, 20, 30]);
    assert_eq!(s.position(), 0);
    s.previous();
    assert_eq!(s.position(), 0);
    assert_eq!(*s.get().unwrap(), 10);
}

#[test]
fn test_selector_get_follows_cursor() {
    let mut s = Selector::new(vec!["a", "b", "c"]);
    assert_eq!(*s.get().unwrap(), "a");
    s.next();
    assert_eq!(*s.get().unwrap(), "b");
    s.previous();
    assert_eq!(*s.get().unwrap(), "a");
    assert_eq!(s.items().len(), 3);
}
