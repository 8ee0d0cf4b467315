use torus_trooper::display_list::DisplayList;

#[test]
fn lists_are_compiled_under_consecutive_names() {
    let mut list = DisplayList::new(100, 3);
    assert!(list.can_compile());
    assert_eq!(list.new_list(), 100);
    list.end_list();
    assert_eq!(list.new_list(), 101);
    list.end_list();
    assert_eq!(list.new_list(), 102);
    list.end_list();
    assert!(!list.can_compile());
}

#[test]
fn call_names_the_list_at_an_offset() {
    let list = DisplayList::new(7, 4);
    assert_eq!(list.call(0), 7);
    assert_eq!(list.call(3), 10);
}

#[test]
fn empty_block_has_nothing_to_compile() {
    let list = DisplayList::new(5, 0);
    assert!(!list.can_compile());
}
