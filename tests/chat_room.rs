use p2p_chat::chat_room::{ChatRoom, InputMode, RoomAction};
use p2p_chat::key::Key;
use p2p_chat::message::Topic;

fn insert_room(name: &str) -> ChatRoom {
    let mut room = ChatRoom::new(name.to_string());
    assert_eq!(room.keybindings(Key::Char('i')), RoomAction::Stay);
    assert_eq!(room.input_mode, InputMode::Insert);
    room
}

#[test]
fn new_room_is_empty_in_normal_mode() {
    let room = ChatRoom::new("8".to_string());
    assert_eq!(room.name, "8");
    assert!(room.items.is_empty());
    assert_eq!(room.input, "");
    assert_eq!(room.input_mode, InputMode::Normal);
}

#[test]
fn default_room_holds_its_greeting() {
    let room = ChatRoom::default();
    assert_eq!(room.name, "0");
    assert_eq!(room.items, vec!["Esta mensagem ja estava aqui antes".to_string()]);
    assert_eq!(room.input, "");
    assert_eq!(room.input_mode, InputMode::Normal);
}

#[test]
fn normal_mode_ignores_typing() {
    let mut room = ChatRoom::new("3".to_string());
    for k in [Key::Char('a'), Key::Backspace, Key::Enter, Key::Up, Key::Other] {
        assert_eq!(room.keybindings(k), RoomAction::Stay);
    }
    assert_eq!(room.input, "");
    assert!(room.items.is_empty());
    assert_eq!(room.input_mode, InputMode::Normal);
}

#[test]
fn normal_mode_leave_keys_ask_to_leave() {
    let mut room = ChatRoom::new("3".to_string());
    assert_eq!(room.keybindings(Key::Char('q')), RoomAction::Leave);
    assert_eq!(room.keybindings(Key::Esc), RoomAction::Leave);
    assert_eq!(room.input_mode, InputMode::Normal);
}

#[test]
fn insert_mode_types_every_character_including_commands() {
    let mut room = insert_room("3");
    for c in ['h', 'q', 'i', ' ', 'é'] {
        assert_eq!(room.keybindings(Key::Char(c)), RoomAction::Stay);
    }
    assert_eq!(room.input, "hqi é");
    assert_eq!(room.input_mode, InputMode::Insert);
}

#[test]
fn backspace_removes_last_character_and_is_a_no_op_when_empty() {
    let mut room = insert_room("3");
    room.keybindings(Key::Backspace);
    assert_eq!(room.input, "");
    room.keybindings(Key::Char('a'));
    room.keybindings(Key::Char('b'));
    room.keybindings(Key::Backspace);
    assert_eq!(room.input, "a");
}

#[test]
fn typing_then_as_many_backspaces_empties_the_draft() {
    for text in ["", "x", "hello world", "ünïcødé ✓"] {
        let mut room = insert_room("2");
        for c in text.chars() {
            room.keybindings(Key::Char(c));
        }
        assert_eq!(room.input, text);
        for _ in text.chars() {
            room.keybindings(Key::Backspace);
        }
        assert_eq!(room.input, "");
        assert_eq!(room.input_mode, InputMode::Insert);
        assert!(room.items.is_empty());
    }
}

#[test]
fn esc_in_insert_mode_keeps_the_draft() {
    let mut room = insert_room("3");
    room.keybindings(Key::Char('o'));
    room.keybindings(Key::Char('k'));
    assert_eq!(room.keybindings(Key::Esc), RoomAction::Stay);
    assert_eq!(room.input_mode, InputMode::Normal);
    assert_eq!(room.input, "ok");
}

#[test]
fn enter_asks_to_publish_the_draft_and_changes_nothing_yet() {
    let mut room = insert_room("8");
    room.keybindings(Key::Char('h'));
    room.keybindings(Key::Char('i'));
    let action = room.keybindings(Key::Enter);
    assert_eq!(
        action,
        RoomAction::Publish { topic: Topic { name: "8".to_string() }, text: "hi".to_string() }
    );
    assert_eq!(room.input, "hi");
    assert!(room.items.is_empty());
}

#[test]
fn record_sent_appends_draft_once_and_clears_it() {
    let mut room = insert_room("8");
    room.keybindings(Key::Char('y'));
    room.record_sent();
    assert_eq!(room.items, vec!["y".to_string()]);
    assert_eq!(room.input, "");
    assert_eq!(room.input_mode, InputMode::Insert);
    room.keybindings(Key::Char('z'));
    room.record_sent();
    assert_eq!(room.items, vec!["y".to_string(), "z".to_string()]);
}

#[test]
fn sending_an_empty_draft_still_clears() {
    let mut room = insert_room("8");
    let action = room.keybindings(Key::Enter);
    assert_eq!(
        action,
        RoomAction::Publish { topic: Topic { name: "8".to_string() }, text: String::new() }
    );
    room.record_sent();
    assert_eq!(room.input, "");
    assert_eq!(room.items, vec![String::new()]);
}
