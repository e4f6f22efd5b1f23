use demo_core::text::is_blank;
use demo_core::todo::{Controller, ListItem, TodoList, MAX_ITEMS};

fn texts(list: &TodoList) -> Vec<String> {
    (0..list.len()).map(|i| list.item(i).get_text().clone()).collect()
}

fn ids(list: &TodoList) -> Vec<i32> {
    (0..list.len()).map(|i| list.item(i).get_id()).collect()
}

#[test]
fn new_row_is_open() {
    let item = ListItem::new(String::from("water the plants"), 4);
    assert_eq!(item.get_id(), 4);
    assert_eq!(item.get_text(), "water the plants");
    assert!(!item.is_done());
    assert!(!item.to_remove);
}

#[test]
fn set_id_changes_the_id_only() {
    let mut item = ListItem::new(String::from("a"), 0);
    item.press(true, false);
    item.set_id(7);
    assert_eq!(item.get_id(), 7);
    assert_eq!(item.get_text(), "a");
    assert!(item.is_done());
    assert!(!item.to_remove);
}

#[test]
fn main_button_flips_done() {
    let mut item = ListItem::new(String::from("a"), 0);
    item.press(true, false);
    assert!(item.is_done());
    item.press(true, false);
    assert!(!item.is_done());
    item.press(false, false);
    assert!(!item.is_done());
    assert!(!item.to_remove);
}

#[test]
fn delete_button_marks_for_good() {
    let mut item = ListItem::new(String::from("a"), 0);
    item.press(false, true);
    assert!(item.to_remove);
    item.press(true, false);
    assert!(item.to_remove);
    assert!(item.is_done());
}

#[test]
fn list_numbers_rows_as_they_come() {
    let mut list = TodoList::new(String::from("Chores"));
    assert_eq!(list.get_name(), "Chores");
    assert_eq!(list.len(), 0);
    list.add(String::from("one"));
    list.add(String::from("two"));
    list.add(String::from("three"));
    assert_eq!(texts(&list), vec!["one", "two", "three"]);
    assert_eq!(ids(&list), vec![0, 1, 2]);
}

#[test]
fn list_takes_twelve_rows_and_no_more() {
    assert_eq!(MAX_ITEMS, 12);
    let mut list = TodoList::new(String::from("Chores"));
    for i in 0..12 {
        list.add(format!("row {}", i));
        assert_eq!(list.len(), i + 1);
    }
    list.add(String::from("one too many"));
    assert_eq!(list.len(), 12);
    assert_eq!(list.item(11).get_text(), "row 11");
    list.press(3, false, true);
    list.update();
    assert_eq!(list.len(), 11);
    list.add(String::from("fits again"));
    assert_eq!(list.len(), 12);
    assert_eq!(list.item(11).get_text(), "fits again");
    assert_eq!(list.item(11).get_id(), 11);
}

#[test]
fn update_drops_marked_rows_and_renumbers() {
    let mut list = TodoList::new(String::from("Chores"));
    for name in ["a", "b", "c", "d", "e"] {
        list.add(String::from(name));
    }
    list.press(1, false, true);
    list.press(3, true, true);
    list.press(4, true, false);
    assert_eq!(list.len(), 5);
    assert!(list.item(1).to_remove);
    list.update();
    assert_eq!(texts(&list), vec!["a", "c", "e"]);
    assert_eq!(ids(&list), vec![0, 1, 2]);
    assert!(list.item(2).is_done());
    assert!(!list.item(0).is_done());
    list.update();
    assert_eq!(texts(&list), vec!["a", "c", "e"]);
    assert_eq!(ids(&list), vec![0, 1, 2]);
}

#[test]
fn update_can_empty_the_list() {
    let mut list = TodoList::new(String::from("Chores"));
    list.add(String::from("a"));
    list.add(String::from("b"));
    list.press(0, false, true);
    list.press(1, false, true);
    list.update();
    assert_eq!(list.len(), 0);
    list.update();
    assert_eq!(list.len(), 0);
}

#[test]
fn click_on_a_missing_row_does_nothing() {
    let mut list = TodoList::new(String::from("Chores"));
    list.add(String::from("a"));
    list.press(1, true, true);
    list.press(usize::MAX, true, true);
    assert_eq!(list.len(), 1);
    assert!(!list.item(0).is_done());
    assert!(!list.item(0).to_remove);
}

#[test]
fn blank_text_is_recognised() {
    assert!(is_blank(""));
    assert!(is_blank("   "));
    assert!(is_blank(" \t\n\u{a0}\u{3000}"));
    assert!(!is_blank(" a "));
    assert!(!is_blank("\u{200b}"));
    assert!(!is_blank("x"));
}

#[test]
fn dialogue_starts_closed() {
    let c = Controller::new();
    assert!(!c.is_adding());
    assert_eq!(c.draft(), "");
    assert_eq!(c.list().len(), 0);
    assert_eq!(c.list().get_name(), "Todo List:");
}

#[test]
fn dialogue_adds_what_was_typed() {
    let mut c = Controller::new();
    c.display_add_button(false);
    assert!(!c.is_adding());
    c.display_add_button(true);
    assert!(c.is_adding());
    c.display_add_option(String::from("buy m"), false);
    assert!(c.is_adding());
    assert_eq!(c.draft(), "buy m");
    assert_eq!(c.list().len(), 0);
    c.display_add_option(String::from("buy milk"), true);
    assert!(!c.is_adding());
    assert_eq!(c.draft(), "");
    assert_eq!(c.list().len(), 1);
    assert_eq!(c.list().item(0).get_text(), "buy milk");
    assert_eq!(c.list().item(0).get_id(), 0);
}

#[test]
fn dialogue_keeps_surrounding_spaces() {
    let mut c = Controller::new();
    c.display_add_button(true);
    c.display_add_option(String::from("  spaced  "), true);
    assert_eq!(c.list().item(0).get_text(), "  spaced  ");
}

#[test]
fn dialogue_refuses_blank_text() {
    let mut c = Controller::new();
    c.display_add_button(true);
    c.display_add_option(String::from("  \t "), true);
    assert!(!c.is_adding());
    assert_eq!(c.draft(), "");
    assert_eq!(c.list().len(), 0);
    c.display_add_button(true);
    c.display_add_option(String::new(), true);
    assert!(!c.is_adding());
    assert_eq!(c.list().len(), 0);
}

#[test]
fn controller_sweeps_its_list() {
    let mut c = Controller::new();
    c.add(String::from("a"));
    c.add(String::from("b"));
    c.add(String::from("c"));
    c.press(0, true, false);
    c.press(1, false, true);
    c.update();
    assert_eq!(texts(c.list()), vec!["a", "c"]);
    assert_eq!(ids(c.list()), vec![0, 1]);
    assert!(c.list().item(0).is_done());
    assert!(!c.is_adding());
}

#[test]
fn controller_add_respects_the_cap() {
    let mut c = Controller::new();
    for i in 0..20 {
        c.add(format!("row {}", i));
    }
    assert_eq!(c.list().len(), 12);
    assert_eq!(c.list().item(11).get_text(), "row 11");
}

#[test]
fn confirm_goes_by_the_flag_it_is_given() {
    let mut c = Controller::new();
    c.display_add_button(true);
    c.confirm(String::from("kept"), false);
    assert_eq!(c.list().len(), 1);
    assert!(!c.is_adding());
    c.display_add_button(true);
    c.display_add_option(String::from("half"), false);
    c.confirm(String::from("dropped"), true);
    assert_eq!(c.list().len(), 1);
    assert_eq!(c.draft(), "");
    assert!(!c.is_adding());
}
