use kioto::list::StatefulList;

fn list_of(len: usize) -> StatefulList<usize> {
    let mut list = StatefulList::default();
    for i in 0..len {
        list.items.push(i);
    }
    list
}

#[test]
fn default_list_is_empty_and_unselected() {
    let list: StatefulList<u8> = StatefulList::default();
    assert!(list.items.is_empty());
    assert_eq!(list.state.selected(), None);
    assert!(!list.is_highlighted);
}

#[test]
fn empty_list_keeps_its_selection() {
    let mut list: StatefulList<u8> = StatefulList::default();
    list.next();
    assert_eq!(list.state.selected(), None);
    list.previous();
    assert_eq!(list.state.selected(), None);
    list.select_last();
    assert_eq!(list.state.selected(), Some(0));
    list.next();
    list.previous();
    assert_eq!(list.state.selected(), Some(0));
}

#[test]
fn next_selects_the_first_item_first() {
    let mut list = list_of(3);
    list.next();
    assert_eq!(list.state.selected(), Some(0));
}

#[test]
fn previous_selects_the_first_item_first() {
    let mut list = list_of(3);
    list.previous();
    assert_eq!(list.state.selected(), Some(0));
}

#[test]
fn next_saturates_at_the_last_item() {
    let mut list = list_of(4);
    let mut seen = Vec::new();
    for _ in 0..7 {
        list.next();
        seen.push(list.state.selected());
    }
    assert_eq!(
        seen,
        vec![Some(0), Some(1), Some(2), Some(3), Some(3), Some(3), Some(3)]
    );
}

#[test]
fn previous_saturates_at_the_first_item() {
    let mut list = list_of(4);
    list.state.select(Some(2));
    let mut seen = Vec::new();
    for _ in 0..4 {
        list.previous();
        seen.push(list.state.selected());
    }
    assert_eq!(seen, vec![Some(1), Some(0), Some(0), Some(0)]);
}

#[test]
fn select_last_points_one_past_the_end() {
    let mut list = list_of(3);
    list.select_last();
    assert_eq!(list.state.selected(), Some(3));
    list.previous();
    assert_eq!(list.state.selected(), Some(2));
}

#[test]
fn next_clamps_a_selection_past_the_end() {
    for len in 1..5 {
        let mut list = list_of(len);
        list.select_last();
        assert_eq!(list.state.selected(), Some(len));
        list.next();
        assert_eq!(list.state.selected(), Some(len - 1));
        list.state.select(Some(len + 7));
        list.next();
        assert_eq!(list.state.selected(), Some(len - 1));
    }
}

#[test]
fn moving_leaves_items_and_highlight_alone() {
    let mut list = list_of(2);
    list.is_highlighted = true;
    list.next();
    list.previous();
    list.select_last();
    assert_eq!(list.items, vec![0, 1]);
    assert!(list.is_highlighted);
}
