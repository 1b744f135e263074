use vstd::prelude::*;

use crate::key::{is_leave, Key};
use crate::message::Topic;
use crate::text::{pop_char, push_char};

verus! {

/// Whether key presses in a room navigate or compose the draft.
#[derive(Clone, Copy, Debug, PartialEq, Eq, Structural)]
pub enum InputMode {
    Normal,
    Insert,
}

/// One open chat room: its topic, the transcript in arrival order, the
/// draft being composed and the input mode.
#[derive(Clone, Debug)]
pub struct ChatRoom {
    pub name: String,
    pub items: Vec<String>,
    pub input_mode: InputMode,
    pub input: String,
}

/// A chat room's state as plain values.
pub struct ChatRoomView {
    pub name: Seq<char>,
    pub items: Seq<Seq<char>>,
    pub input_mode: InputMode,
    pub input: Seq<char>,
}

/// What a key press in a room asks of the frontend.
#[derive(Clone, Debug, PartialEq, Eq)]
pub enum RoomAction {
    /// Nothing beyond the room's own state.
    Stay,
    /// Go back to a fresh topic list.
    Leave,
    /// Send `text` to the subscribers of `topic`.
    Publish { topic: Topic, text: String },
}

impl View for ChatRoom {
    type V = ChatRoomView;

    open spec fn view(&self) -> ChatRoomView {
        ChatRoomView {
            name: self.name@,
            items: self.items@.map_values(|m: String| m@),
            input_mode: self.input_mode,
            input: self.input@,
        }
    }
}

/// The room's state after one key press.
pub open spec fn room_step(v: ChatRoomView, k: Key) -> ChatRoomView {
    match v.input_mode {
        InputMode::Normal => {
            if k == Key::Char('i') {
                ChatRoomView { input_mode: InputMode::Insert, ..v }
            } else {
                v
            }
        },
        InputMode::Insert => {
            match k {
                Key::Char(c) => ChatRoomView { input: v.input.push(c), ..v },
                Key::Backspace => {
                    if v.input.len() == 0 {
                        v
                    } else {
                        ChatRoomView { input: v.input.drop_last(), ..v }
                    }
                },
                Key::Esc => ChatRoomView { input_mode: InputMode::Normal, ..v },
                _ => v,
            }
        },
    }
}

/// The room's state after a sequence of key presses.
pub open spec fn room_run(v: ChatRoomView, keys: Seq<Key>) -> ChatRoomView
    decreases keys.len(),
{
    if keys.len() == 0 {
        v
    } else {
        room_run(room_step(v, keys[0]), keys.drop_first())
    }
}

/// The room's state once its draft has been sent: the draft closes the
/// transcript and the draft is empty.
pub open spec fn room_sent(v: ChatRoomView) -> ChatRoomView {
    ChatRoomView { items: v.items.push(v.input), input: Seq::empty(), ..v }
}

/// What a key press in a room asks for: `a` is the action, `v` the state
/// before the press.
pub open spec fn room_action_is(v: ChatRoomView, k: Key, a: RoomAction) -> bool {
    if v.input_mode == InputMode::Normal && is_leave(k) {
        a == RoomAction::Leave
    } else if v.input_mode == InputMode::Insert && k == Key::Enter {
        a matches RoomAction::Publish { topic, text } && topic.name@ == v.name && text@ == v.input
    } else {
        a == RoomAction::Stay
    }
}

impl ChatRoom {
    /// A freshly opened room on topic `name`: empty transcript, empty draft,
    /// Normal mode.
    pub fn new(name: String) -> (r: ChatRoom)
        ensures
            r@.name == name@,
            r@.items.len() == 0,
            r@.input.len() == 0,
            r@.input_mode == InputMode::Normal,
    {
        ChatRoom { name, items: Vec::new(), input_mode: InputMode::Normal, input: String::new() }
    }

    /// Handles one key press. In Normal mode `i` enters Insert mode and `q`
    /// or Esc leaves the room. In Insert mode a character extends the draft,
    /// Backspace removes its last character, Esc returns to Normal mode
    /// keeping the draft, and Enter asks to publish the draft on the room's
    /// topic; the transcript changes only once that send is accepted (see
    /// `record_sent`).
    pub fn keybindings(&mut self, k: Key) -> (r: RoomAction)
        ensures
            final(self)@ == room_step(old(self)@, k),
            room_action_is(old(self)@, k, r),
    {
        match self.input_mode {
            InputMode::Normal => match k {
                Key::Char('i') => {
                    self.input_mode = InputMode::Insert;
                    RoomAction::Stay
                },
                Key::Char('q') | Key::Esc => RoomAction::Leave,
                _ => RoomAction::Stay,
            },
            InputMode::Insert => match k {
                Key::Enter => {
                    let topic = Topic { name: self.name.clone() };
                    RoomAction::Publish { topic, text: self.input.clone() }
                },
                Key::Char(c) => {
                    push_char(&mut self.input, c);
                    RoomAction::Stay
                },
                Key::Backspace => {
                    let _ = pop_char(&mut self.input);
                    RoomAction::Stay
                },
                Key::Esc => {
                    self.input_mode = InputMode::Normal;
                    RoomAction::Stay
                },
                _ => RoomAction::Stay,
            },
        }
    }

    /// Records that the draft was handed to the network: it is appended to
    /// the transcript once and the draft is cleared.
    pub fn record_sent(&mut self)
        ensures
            final(self)@ == room_sent(old(self)@),
    {
        let mut sent = String::new();
        std::mem::swap(&mut sent, &mut self.input);
        self.items.push(sent);
        proof {
            assert(self@.items =~= room_sent(old(self)@).items);
        }
    }
}

impl Default for ChatRoom {
    /// A room on topic `0` whose transcript holds one greeting line.
    fn default() -> (r: ChatRoom)
        ensures
            r@.name == "0"@,
            r@.items == seq!["Esta mensagem ja estava aqui antes"@],
            r@.input.len() == 0,
            r@.input_mode == InputMode::Normal,
    {
        let mut items: Vec<String> = Vec::new();
        items.push("Esta mensagem ja estava aqui antes".to_string());
        let r = ChatRoom {
            name: "0".to_string(),
            items,
            input_mode: InputMode::Normal,
            input: String::new(),
        };
        proof {
            assert(r@.items =~= seq!["Esta mensagem ja estava aqui antes"@]);
        }
        r
    }
}

/// The key press that types `c`.
pub open spec fn char_key(c: char) -> Key {
    Key::Char(c)
}

/// The key presses that type `s` one character at a time.
pub open spec fn typed(s: Seq<char>) -> Seq<Key> {
    Seq::new(s.len(), |i: int| char_key(s[i]))
}

/// `n` presses of Backspace.
pub open spec fn backspaces(n: nat) -> Seq<Key> {
    Seq::new(n, |i: int| Key::Backspace)
}

proof fn lemma_run_concat(v: ChatRoomView, a: Seq<Key>, b: Seq<Key>)
    ensures
        room_run(v, a + b) == room_run(room_run(v, a), b),
    decreases a.len(),
{
    if a.len() > 0 {
        assert((a + b).drop_first() =~= a.drop_first() + b);
        lemma_run_concat(room_step(v, a[0]), a.drop_first(), b);
    } else {
        assert(a + b =~= b);
    }
}

proof fn lemma_run_typed(v: ChatRoomView, s: Seq<char>)
    requires
        v.input_mode == InputMode::Insert,
    ensures
        room_run(v, typed(s)) == (ChatRoomView { input: v.input + s, ..v }),
    decreases s.len(),
{
    if s.len() == 0 {
        assert(v.input + s =~= v.input);
    } else {
        let w = ChatRoomView { input: v.input.push(s[0]), ..v };
        assert(typed(s).drop_first() =~= typed(s.drop_first()));
        lemma_run_typed(w, s.drop_first());
        assert(w.input + s.drop_first() =~= v.input + s);
    }
}

proof fn lemma_run_backspaces(v: ChatRoomView, n: nat)
    requires
        v.input_mode == InputMode::Insert,
        n <= v.input.len(),
    ensures
        room_run(v, backspaces(n)) == (ChatRoomView {
            input: v.input.subrange(0, v.input.len() - n),
            ..v
        }),
    decreases n,
{
    if n == 0 {
        assert(v.input.subrange(0, v.input.len() as int) =~= v.input);
    } else {
        let w = ChatRoomView { input: v.input.drop_last(), ..v };
        assert(backspaces(n).drop_first() =~= backspaces((n - 1) as nat));
        lemma_run_backspaces(w, (n - 1) as nat);
        assert(w.input.subrange(0, w.input.len() - (n - 1)) =~= v.input.subrange(
            0,
            v.input.len() - n,
        ));
    }
}

/// In Insert mode, typing any text one character at a time and then pressing
/// Backspace once per character typed leaves the room as it was: the draft
/// is back to what it held before, so a draft that started empty is empty
/// again, and the transcript, topic and mode are unchanged.
pub proof fn lemma_type_then_erase(v: ChatRoomView, s: Seq<char>)
    requires
        v.input_mode == InputMode::Insert,
    ensures
        room_run(v, typed(s) + backspaces(s.len())) == v,
        v.input.len() == 0 ==> room_run(v, typed(s) + backspaces(s.len())).input.len() == 0,
{
    lemma_run_concat(v, typed(s), backspaces(s.len()));
    lemma_run_typed(v, s);
    let w = ChatRoomView { input: v.input + s, ..v };
    lemma_run_backspaces(w, s.len());
    assert(w.input.subrange(0, w.input.len() - s.len()) =~= v.input);
}

/// Sending in Insert mode: Enter asks to publish exactly the draft on the
/// room's topic and changes nothing yet; once the send is accepted the
/// transcript gains that text exactly once, at its end, and the draft is
/// empty. An empty draft is sent and cleared the same way.
pub proof fn lemma_send_appends_once(v: ChatRoomView, a: RoomAction)
    requires
        v.input_mode == InputMode::Insert,
        room_action_is(v, Key::Enter, a),
    ensures
        room_step(v, Key::Enter) == v,
        a matches RoomAction::Publish { topic, text } && topic.name@ == v.name && text@ == v.input,
        room_sent(room_step(v, Key::Enter)).items == v.items.push(v.input),
        room_sent(room_step(v, Key::Enter)).items.len() == v.items.len() + 1,
        room_sent(room_step(v, Key::Enter)).input.len() == 0,
        room_sent(room_step(v, Key::Enter)).input_mode == InputMode::Insert,
        room_sent(room_step(v, Key::Enter)).name == v.name,
{
}

} // verus!
