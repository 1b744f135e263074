use vstd::prelude::*;

use crate::chat_room::{room_sent, room_step, ChatRoom, ChatRoomView, InputMode, RoomAction};
use crate::key::{is_leave, Key};
use crate::message::{AppMessage, NetworkMessage};
use crate::topic_list::{is_catalog, step_index, ListAction, TopicList, TopicListView};

verus! {

/// The frontend's current page: exactly one is live, and moving to another
/// page replaces it.
#[derive(Clone, Debug)]
pub enum Page {
    TopicList(TopicList),
    ChatRoom(ChatRoom),
}

/// A page as plain values.
pub enum PageView {
    TopicList(TopicListView),
    ChatRoom(ChatRoomView),
}

impl View for Page {
    type V = PageView;

    open spec fn view(&self) -> PageView {
        match self {
            Page::TopicList(list) => PageView::TopicList(list@),
            Page::ChatRoom(room) => PageView::ChatRoom(room@),
        }
    }
}

/// A topic list page has rows and a selection among them.
pub open spec fn page_wf(p: PageView) -> bool {
    match p {
        PageView::TopicList(l) => l.rooms.len() > 0 && l.selected < l.rooms.len(),
        PageView::ChatRoom(_) => true,
    }
}

/// The frontend's state: the live page and whether it is shutting down.
pub struct App {
    page: Page,
    should_close: bool,
}

/// The frontend's state as plain values.
pub struct AppView {
    pub page: PageView,
    pub should_close: bool,
}

impl View for App {
    type V = AppView;

    closed spec fn view(&self) -> AppView {
        AppView { page: self.page@, should_close: self.should_close }
    }
}

/// The state after a chat line `m` arrives from the network: appended to
/// the transcript when a room is open, and dropped on the topic list.
pub open spec fn receive(a: AppView, m: Seq<char>) -> AppView {
    match a.page {
        PageView::ChatRoom(v) => AppView {
            page: PageView::ChatRoom(ChatRoomView { items: v.items.push(m), ..v }),
            ..a
        },
        PageView::TopicList(_) => a,
    }
}

/// The state after the chat lines `ms` arrive back to back, in order.
pub open spec fn receive_all(a: AppView, ms: Seq<Seq<char>>) -> AppView
    decreases ms.len(),
{
    if ms.len() == 0 {
        a
    } else {
        receive_all(receive(a, ms[0]), ms.drop_first())
    }
}

/// The state once the open room's draft was accepted for sending.
pub open spec fn sent(a: AppView) -> AppView {
    match a.page {
        PageView::ChatRoom(v) => AppView { page: PageView::ChatRoom(room_sent(v)), ..a },
        PageView::TopicList(_) => a,
    }
}

/// A key press `k` takes the frontend from `a` to `b` and asks the network
/// daemon for `r`.
pub open spec fn key_outcome(a: AppView, k: Key, b: AppView, r: Option<NetworkMessage>) -> bool {
    match a.page {
        PageView::TopicList(l) => {
            if is_leave(k) {
                b == AppView { should_close: true, ..a } && r == Some(NetworkMessage::Quit)
            } else if k == Key::Enter {
                &&& b.should_close == a.should_close
                &&& b.page matches PageView::ChatRoom(v)
                &&& v.name == l.rooms[l.selected as int].id@
                &&& v.items.len() == 0
                &&& v.input.len() == 0
                &&& v.input_mode == InputMode::Normal
                &&& r matches Some(NetworkMessage::Subscribe { topic })
                &&& topic.name@ == l.rooms[l.selected as int].id@
            } else {
                &&& b == AppView {
                    page: PageView::TopicList(
                        TopicListView { selected: step_index(l.selected, l.rooms.len(), k), ..l },
                    ),
                    ..a
                }
                &&& r is None
            }
        },
        PageView::ChatRoom(v) => {
            if v.input_mode == InputMode::Normal && is_leave(k) {
                &&& b.should_close == a.should_close
                &&& b.page matches PageView::TopicList(l)
                &&& is_catalog(l.rooms)
                &&& l.selected == 0
                &&& r is None
            } else if v.input_mode == InputMode::Insert && k == Key::Enter {
                &&& b == a
                &&& r matches Some(NetworkMessage::Publish { topic, text })
                &&& topic.name@ == v.name
                &&& text@ == v.input
            } else {
                b == AppView { page: PageView::ChatRoom(room_step(v, k)), ..a } && r is None
            }
        },
    }
}

impl App {
    pub open spec fn wf(&self) -> bool {
        page_wf(self@.page)
    }

    /// A frontend on a fresh topic list, not shutting down.
    pub fn new() -> (r: App)
        ensures
            r.wf(),
            r@.page matches PageView::TopicList(l) && is_catalog(l.rooms) && l.selected == 0,
            !r@.should_close,
    {
        App { page: Page::TopicList(TopicList::new()), should_close: false }
    }

    /// The live page.
    pub fn page(&self) -> (r: &Page)
        ensures
            r@ == self@.page,
    {
        &self.page
    }

    /// Whether the frontend is shutting down.
    pub fn should_close(&self) -> (r: bool)
        ensures
            r == self@.should_close,
    {
        self.should_close
    }

    /// Handles one key press on the live page, following the page's own
    /// key bindings. Quitting from the topic list marks the frontend as
    /// closing and asks the daemon to quit; Enter on the topic list opens a
    /// fresh room on the selected topic and asks to subscribe to it; leaving
    /// a room opens a fresh topic list; Enter while composing asks to publish
    /// the draft.
    pub fn handle_key(&mut self, k: Key) -> (r: Option<NetworkMessage>)
        requires
            old(self).wf(),
        ensures
            final(self).wf(),
            key_outcome(old(self)@, k, final(self)@, r),
    {
        match &mut self.page {
            Page::TopicList(list) => match list.keybindings(k) {
                ListAction::Stay => None,
                ListAction::Quit => {
                    self.should_close = true;
                    Some(NetworkMessage::Quit)
                },
                ListAction::Join(topic) => {
                    self.page = Page::ChatRoom(ChatRoom::new(topic.name.clone()));
                    Some(NetworkMessage::Subscribe { topic })
                },
            },
            Page::ChatRoom(room) => match room.keybindings(k) {
                RoomAction::Stay => None,
                RoomAction::Leave => {
                    self.page = Page::TopicList(TopicList::new());
                    None
                },
                RoomAction::Publish { topic, text } => Some(NetworkMessage::Publish { topic, text }),
            },
        }
    }

    /// Records that the publish asked for by the open room was accepted:
    /// the draft joins the transcript and is cleared.
    pub fn publish_accepted(&mut self)
        requires
            old(self).wf(),
        ensures
            final(self).wf(),
            final(self)@ == sent(old(self)@),
    {
        match &mut self.page {
            Page::ChatRoom(room) => room.record_sent(),
            Page::TopicList(_) => {},
        }
    }

    /// Handles one message from the network daemon. A chat line is appended
    /// to the open room's transcript, or dropped while the topic list is
    /// shown. `Quit` marks the frontend as closing and tells the daemon to
    /// quit too.
    pub fn handle_message(&mut self, msg: AppMessage) -> (r: Option<NetworkMessage>)
        requires
            old(self).wf(),
        ensures
            final(self).wf(),
            msg matches AppMessage::MessageReceived { message } ==> final(self)@ == receive(
                old(self)@,
                message@,
            ) && r is None,
            msg is Quit ==> final(self)@ == (AppView { should_close: true, ..old(self)@ }) && r
                == Some(NetworkMessage::Quit),
    {
        match msg {
            AppMessage::Quit => {
                self.should_close = true;
                Some(NetworkMessage::Quit)
            },
            AppMessage::MessageReceived { message } => {
                let ghost line = message@;
                match &mut self.page {
                    Page::ChatRoom(room) => {
                        let ghost before = room@.items;
                        room.items.push(message);
                        proof {
                            assert(room@.items =~= before.push(line));
                        }
                    },
                    Page::TopicList(_) => {},
                }
                None
            },
        }
    }
}

/// Entering a room always starts it empty, whatever room was open before:
/// leaving any room in Normal mode, whatever its transcript and draft held,
/// and then pressing Enter opens a room with an empty transcript, an empty
/// draft and Normal mode.
pub proof fn lemma_entering_starts_empty(
    a: AppView,
    leave: Key,
    b: AppView,
    r1: Option<NetworkMessage>,
    c: AppView,
    r2: Option<NetworkMessage>,
)
    requires
        a.page matches PageView::ChatRoom(v) && v.input_mode == InputMode::Normal,
        is_leave(leave),
        key_outcome(a, leave, b, r1),
        key_outcome(b, Key::Enter, c, r2),
    ensures
        b.page is TopicList,
        c.page matches PageView::ChatRoom(w) && w.items.len() == 0 && w.input.len() == 0
            && w.input_mode == InputMode::Normal,
        r2 matches Some(NetworkMessage::Subscribe { .. }),
{
}

/// While a room is open, chat lines that arrive back to back are each
/// appended once, in arrival order: `K` lines grow the transcript by exactly
/// `K`, and nothing else changes.
pub proof fn lemma_lines_append_in_order(a: AppView, ms: Seq<Seq<char>>)
    requires
        a.page is ChatRoom,
    ensures
        a.page matches PageView::ChatRoom(v) ==> receive_all(a, ms) == (AppView {
            page: PageView::ChatRoom(ChatRoomView { items: v.items + ms, ..v }),
            ..a
        }),
        a.page matches PageView::ChatRoom(v) ==> (receive_all(a, ms).page matches PageView::ChatRoom(
            w,
        ) && w.items.len() == v.items.len() + ms.len()),
    decreases ms.len(),
{
    if let PageView::ChatRoom(v) = a.page {
        if ms.len() == 0 {
            assert(v.items + ms =~= v.items);
        } else {
            let b = receive(a, ms[0]);
            lemma_lines_append_in_order(b, ms.drop_first());
            assert(v.items.push(ms[0]) + ms.drop_first() =~= v.items + ms);
        }
    }
}

/// While the topic list is shown, chat lines that arrive are dropped: the
/// state stays exactly as it was, however many arrive.
pub proof fn lemma_lines_dropped_on_topic_list(a: AppView, ms: Seq<Seq<char>>)
    requires
        a.page is TopicList,
    ensures
        receive_all(a, ms) == a,
    decreases ms.len(),
{
    if ms.len() > 0 {
        lemma_lines_dropped_on_topic_list(receive(a, ms[0]), ms.drop_first());
    }
}

/// Sending from the frontend: with a room open in Insert mode, Enter asks
/// the daemon to publish exactly the draft on the room's topic and changes
/// nothing yet; once that send is accepted the transcript gains the draft
/// exactly once, at its end, and the draft is empty, also when it was empty.
pub proof fn lemma_send_from_frontend(a: AppView, b: AppView, r: Option<NetworkMessage>)
    requires
        a.page matches PageView::ChatRoom(v) && v.input_mode == InputMode::Insert,
        key_outcome(a, Key::Enter, b, r),
    ensures
        b == a,
        a.page matches PageView::ChatRoom(v) ==> (r matches Some(
            NetworkMessage::Publish { topic, text },
        ) && topic.name@ == v.name && text@ == v.input),
        a.page matches PageView::ChatRoom(v) ==> (sent(b).page matches PageView::ChatRoom(w)
            && w.items == v.items.push(v.input) && w.items.len() == v.items.len() + 1
            && w.input.len() == 0 && w.name == v.name),
        sent(b).should_close == a.should_close,
{
}

} // verus!
