use cloudtui::list::StatefulList;

fn abc() -> StatefulList<String> {
    StatefulList::with_items(vec!["A".to_string(), "B".to_string(), "C".to_string()])
}

#[test]
fn starts_unselected() {
    let list = abc();
    assert_eq!(list.len(), 3);
    assert_eq!(list.selected(), None);
    assert_eq!(list.items()[0], "A");
    assert_eq!(list.items()[1], "B");
    assert_eq!(list.items()[2], "C");
}

#[test]
fn next_then_previous_scenario() {
    let mut list = abc();
    list.next();
    assert_eq!(list.selected(), Some(0));
    assert_eq!(list.items()[list.selected().unwrap()], "A");
    list.next();
    assert_eq!(list.selected(), Some(1));
    assert_eq!(list.items()[list.selected().unwrap()], "B");
    list.previous();
    assert_eq!(list.selected(), Some(0));
    assert_eq!(list.items()[list.selected().unwrap()], "A");
}

#[test]
fn next_cycles_each_index_once() {
    let mut list = abc();
    list.next();
    let start = list.selected().unwrap();
    let mut seen = vec![start];
    for _ in 0..2 {
        list.next();
        let idx = list.selected().unwrap();
        assert!(!seen.contains(&idx));
        seen.push(idx);
    }
    list.next();
    assert_eq!(list.selected(), Some(start));
    assert_eq!(seen, vec![0, 1, 2]);
}

#[test]
fn previous_wraps_to_last() {
    let mut list = abc();
    list.next();
    assert_eq!(list.selected(), Some(0));
    list.previous();
    assert_eq!(list.selected(), Some(2));
}

#[test]
fn previous_on_unselected_selects_first() {
    let mut list = abc();
    list.previous();
    assert_eq!(list.selected(), Some(0));
}

#[test]
fn empty_list_guards_cursor_moves() {
    let mut list: StatefulList<String> = StatefulList::with_items(vec![]);
    list.next();
    assert_eq!(list.selected(), None);
    list.previous();
    assert_eq!(list.selected(), None);
    assert_eq!(list.len(), 0);
}

#[test]
fn unselect_is_idempotent() {
    let mut list = abc();
    list.next();
    assert_eq!(list.selected(), Some(0));
    list.unselect();
    let after_once: Vec<String> = list.items().clone();
    assert_eq!(list.selected(), None);
    list.unselect();
    assert_eq!(list.selected(), None);
    assert_eq!(list.items(), &after_once);
}

#[test]
fn replace_keeps_valid_cursor() {
    let mut list = abc();
    list.next();
    assert_eq!(list.selected(), Some(0));
    list.replace_items(vec!["stream-1".to_string(), "stream-2".to_string()]);
    let sel = list.selected();
    match sel {
        Some(i) => assert!(i < list.len()),
        None => {}
    }
    assert_eq!(sel, Some(0));
    assert_eq!(list.items()[0], "stream-1");
    assert_eq!(list.items()[1], "stream-2");
}

#[test]
fn replace_clears_out_of_bounds_cursor() {
    let mut list = abc();
    list.next();
    list.next();
    list.next();
    assert_eq!(list.selected(), Some(2));
    list.replace_items(vec!["only".to_string()]);
    assert_eq!(list.selected(), None);
    assert_eq!(list.len(), 1);
}

#[test]
fn replace_with_empty_clears_cursor() {
    let mut list = abc();
    list.next();
    list.replace_items(vec![]);
    assert_eq!(list.selected(), None);
    assert_eq!(list.len(), 0);
}
