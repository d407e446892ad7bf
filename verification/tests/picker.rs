use templater::util::{picked_name, App, Key, Outcome, StatefulList};

fn names(list: &[&str]) -> Vec<String> {
    list.iter().map(|s| s.to_string()).collect()
}

#[test]
fn new_list_has_no_selection() {
    let list = StatefulList::with_items(vec![1u32, 2, 3]);
    assert_eq!(list.selected(), None);
    assert_eq!(list.len(), 3);
    assert_eq!(*list.item(1), 2);
}

#[test]
fn next_walks_down_and_wraps() {
    let mut list = StatefulList::with_items(vec!['a', 'b', 'c']);
    list.next();
    assert_eq!(list.selected(), Some(0));
    list.next();
    assert_eq!(list.selected(), Some(1));
    list.next();
    assert_eq!(list.selected(), Some(2));
    list.next();
    assert_eq!(list.selected(), Some(0));
}

#[test]
fn previous_walks_up_and_wraps() {
    let mut list = StatefulList::with_items(vec!['a', 'b', 'c']);
    list.previous();
    assert_eq!(list.selected(), Some(0));
    list.previous();
    assert_eq!(list.selected(), Some(2));
    list.previous();
    assert_eq!(list.selected(), Some(1));
    list.previous();
    assert_eq!(list.selected(), Some(0));
}

#[test]
fn first_move_selects_the_first_place_of_an_empty_list() {
    let mut list: StatefulList<u8> = StatefulList::with_items(Vec::new());
    list.next();
    assert_eq!(list.selected(), Some(0));
    let mut list: StatefulList<u8> = StatefulList::with_items(Vec::new());
    list.previous();
    assert_eq!(list.selected(), Some(0));
}

#[test]
fn first_move_up_selects_the_first_item_not_the_last() {
    let mut list = StatefulList::with_items(vec![1u8, 2, 3]);
    list.previous();
    assert_eq!(list.selected(), Some(0));
}

#[test]
fn picker_opens_on_the_first_place() {
    let app = App::open(names(&["rust", "go"]));
    assert_eq!(app.items.selected(), Some(0));
    assert_eq!(app.items.len(), 2);
    let app = App::open(Vec::new());
    assert_eq!(app.items.selected(), Some(0));
    assert_eq!(app.items.len(), 0);
    let app = App::from(names(&["rust"]));
    assert_eq!(app.items.selected(), None);
}

#[test]
fn picker_over_an_empty_list_takes_no_move_and_no_enter() {
    let mut app = App::open(Vec::new());
    assert!(!app.accepts(Key::Down));
    assert!(!app.accepts(Key::Up));
    assert!(!app.accepts(Key::Char('j')));
    assert!(!app.accepts(Key::Char('k')));
    assert!(!app.accepts(Key::Enter));
    assert!(app.accepts(Key::Char('q')));
    assert!(app.accepts(Key::Other));
    assert!(matches!(app.on_key(Key::Char('q')), Outcome::Quit));
    let app = App::from(Vec::new());
    assert!(app.accepts(Key::Down));
    assert!(app.accepts(Key::Up));
    assert!(app.accepts(Key::Enter));
}

#[test]
fn picker_over_items_takes_every_key() {
    let app = App::open(names(&["rust", "go"]));
    for key in [Key::Down, Key::Up, Key::Enter, Key::Other, Key::Char('j'), Key::Char('k'), Key::Char('q')] {
        assert!(app.accepts(key));
    }
}

#[test]
fn single_item_stays_selected() {
    let mut list = StatefulList::with_items(vec![7u8]);
    list.next();
    assert_eq!(list.selected(), Some(0));
    list.next();
    assert_eq!(list.selected(), Some(0));
    list.previous();
    assert_eq!(list.selected(), Some(0));
}

#[test]
fn enter_picks_the_selected_name() {
    let mut app = App::from(names(&["rust", "go", "c"]));
    assert!(matches!(app.on_key(Key::Enter), Outcome::Pending));
    assert!(matches!(app.on_key(Key::Down), Outcome::Pending));
    assert!(matches!(app.on_key(Key::Char('j')), Outcome::Pending));
    match app.on_key(Key::Enter) {
        Outcome::Picked(name) => assert_eq!(name, "go"),
        other => panic!("unexpected: {:?}", other),
    }
    assert!(matches!(app.on_key(Key::Up), Outcome::Pending));
    assert!(matches!(app.on_key(Key::Char('k')), Outcome::Pending));
    match app.on_key(Key::Enter) {
        Outcome::Picked(name) => assert_eq!(name, "c"),
        other => panic!("unexpected: {:?}", other),
    }
}

#[test]
fn q_leaves_and_other_keys_do_nothing() {
    let mut app = App::from(names(&["rust", "go"]));
    app.on_key(Key::Down);
    assert!(matches!(app.on_key(Key::Other), Outcome::Pending));
    assert!(matches!(app.on_key(Key::Char('x')), Outcome::Pending));
    assert_eq!(app.items.selected(), Some(0));
    assert!(matches!(app.on_key(Key::Char('q')), Outcome::Quit));
    assert_eq!(app.items.selected(), Some(0));
}

#[test]
fn closed_picker_hands_back_a_name() {
    assert_eq!(picked_name(Outcome::Pending), None);
    assert_eq!(picked_name(Outcome::Quit), Some(None));
    assert_eq!(picked_name(Outcome::Picked("go".to_string())), Some(Some("go".to_string())));
}
