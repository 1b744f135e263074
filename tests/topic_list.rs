use p2p_chat::key::Key;
use p2p_chat::message::Topic;
use p2p_chat::topic_list::{ListAction, TopicList};

fn names(list: &TopicList) -> Vec<(String, String)> {
    list.items().iter().map(|r| (r.id.clone(), r.name.clone())).collect()
}

#[test]
fn new_list_shows_catalog_with_first_row_selected() {
    let list = TopicList::new();
    assert_eq!(list.selected(), 0);
    let expected = vec![
        ("5", "Rust async"),
        ("3", "How to cook better"),
        ("8", "Hiking organization"),
        ("2", "Secret meeting to rule to world"),
        ("1", "Talk about cats"),
    ];
    let expected: Vec<(String, String)> =
        expected.into_iter().map(|(a, b)| (a.to_string(), b.to_string())).collect();
    assert_eq!(names(&list), expected);
}

#[test]
fn default_list_equals_new_list() {
    let list = TopicList::default();
    assert_eq!(list.selected(), 0);
    assert_eq!(names(&list), names(&TopicList::new()));
}

#[test]
fn next_wraps_from_last_row_to_first() {
    let mut list = TopicList::new();
    for expected in [1, 2, 3, 4, 0, 1] {
        list.next();
        assert_eq!(list.selected(), expected);
    }
}

#[test]
fn previous_wraps_from_first_row_to_last() {
    let mut list = TopicList::new();
    for expected in [4, 3, 2, 1, 0, 4] {
        list.previous();
        assert_eq!(list.selected(), expected);
    }
}

#[test]
fn navigation_keys_stay_in_range_and_wrap_modulo_rows() {
    let keys = [
        Key::Up,
        Key::Char('k'),
        Key::Down,
        Key::Char('j'),
        Key::Char('j'),
        Key::Other,
        Key::Up,
        Key::Down,
        Key::Down,
        Key::Down,
        Key::Down,
        Key::Down,
        Key::Char('x'),
        Key::Char('k'),
    ];
    for start in 0..5usize {
        let mut list = TopicList::new();
        for _ in 0..start {
            list.next();
        }
        assert_eq!(list.selected(), start);
        let mut net: i64 = 0;
        for k in keys {
            let action = list.keybindings(k);
            assert_eq!(action, ListAction::Stay);
            match k {
                Key::Down | Key::Char('j') => net += 1,
                Key::Up | Key::Char('k') => net -= 1,
                _ => {}
            }
            assert!(list.selected() < 5);
            let expected = (start as i64 + net).rem_euclid(5) as usize;
            assert_eq!(list.selected(), expected);
        }
    }
}

#[test]
fn quit_keys_ask_to_quit_without_moving() {
    let mut list = TopicList::new();
    list.next();
    assert_eq!(list.keybindings(Key::Char('q')), ListAction::Quit);
    assert_eq!(list.keybindings(Key::Esc), ListAction::Quit);
    assert_eq!(list.selected(), 1);
}

#[test]
fn enter_joins_selected_rows_topic() {
    let mut list = TopicList::new();
    assert_eq!(
        list.keybindings(Key::Enter),
        ListAction::Join(Topic { name: "5".to_string() })
    );
    list.previous();
    assert_eq!(
        list.keybindings(Key::Enter),
        ListAction::Join(Topic { name: "1".to_string() })
    );
    assert_eq!(list.selected(), 4);
}

#[test]
fn other_keys_do_nothing_on_topic_list() {
    let mut list = TopicList::new();
    for k in [Key::Char('i'), Key::Backspace, Key::Other, Key::Char('a')] {
        assert_eq!(list.keybindings(k), ListAction::Stay);
        assert_eq!(list.selected(), 0);
    }
}
