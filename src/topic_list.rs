use vstd::arithmetic::div_mod::{
    lemma_mod_add_multiples_vanish, lemma_mod_sub_multiples_vanish, lemma_small_mod,
};
use vstd::prelude::*;

use crate::key::{is_down, is_leave, is_up, Key};
use crate::message::Topic;

verus! {

/// One row of the room catalog: the topic identifier and its display name.
#[derive(Clone, Debug, PartialEq, Eq)]
pub struct TopicRow {
    pub id: String,
    pub name: String,
}

/// The landing page: a fixed catalog of rooms and a wrapping selection.
#[derive(Clone, Debug)]
pub struct TopicList {
    items: Vec<TopicRow>,
    selected: usize,
}

/// What the topic list's state looks like: the rows and the selected index.
pub struct TopicListView {
    pub rooms: Seq<TopicRow>,
    pub selected: nat,
}

/// What a key press on the topic list asks of the frontend.
#[derive(Clone, Debug, PartialEq, Eq)]
pub enum ListAction {
    /// Nothing beyond the list's own state.
    Stay,
    /// Shut the program down.
    Quit,
    /// Subscribe to this topic and open its room.
    Join(Topic),
}

/// The index after one step down a list of `n` rows, wrapping to the top.
pub open spec fn next_index(i: nat, n: nat) -> nat {
    if i + 1 == n {
        0
    } else {
        i + 1
    }
}

/// The index after one step up a list of `n` rows, wrapping to the bottom.
pub open spec fn prev_index(i: nat, n: nat) -> nat {
    if i == 0 {
        (n - 1) as nat
    } else {
        (i - 1) as nat
    }
}

/// The selection after one key press on a list of `n` rows.
pub open spec fn step_index(i: nat, n: nat, k: Key) -> nat {
    if is_down(k) {
        next_index(i, n)
    } else if is_up(k) {
        prev_index(i, n)
    } else {
        i
    }
}

/// The selection after a sequence of key presses on a list of `n` rows.
pub open spec fn navigate(i: nat, n: nat, keys: Seq<Key>) -> nat
    decreases keys.len(),
{
    if keys.len() == 0 {
        i
    } else {
        navigate(step_index(i, n, keys[0]), n, keys.drop_first())
    }
}

/// The number of presses in `keys` that move a selection down.
pub open spec fn downs(keys: Seq<Key>) -> int
    decreases keys.len(),
{
    if keys.len() == 0 {
        0
    } else {
        (if is_down(keys[0]) { 1int } else { 0int }) + downs(keys.drop_first())
    }
}

/// The number of presses in `keys` that move a selection up.
pub open spec fn ups(keys: Seq<Key>) -> int
    decreases keys.len(),
{
    if keys.len() == 0 {
        0
    } else {
        (if is_up(keys[0]) { 1int } else { 0int }) + ups(keys.drop_first())
    }
}

/// The room catalog that a fresh topic list shows.
pub open spec fn is_catalog(rows: Seq<TopicRow>) -> bool {
    &&& rows.len() == 5
    &&& rows[0].id@ == "5"@ && rows[0].name@ == "Rust async"@
    &&& rows[1].id@ == "3"@ && rows[1].name@ == "How to cook better"@
    &&& rows[2].id@ == "8"@ && rows[2].name@ == "Hiking organization"@
    &&& rows[3].id@ == "2"@ && rows[3].name@ == "Secret meeting to rule to world"@
    &&& rows[4].id@ == "1"@ && rows[4].name@ == "Talk about cats"@
}

impl View for TopicList {
    type V = TopicListView;

    closed spec fn view(&self) -> TopicListView {
        TopicListView { rooms: self.items@, selected: self.selected as nat }
    }
}

fn row(id: &str, name: &str) -> (r: TopicRow)
    ensures
        r.id@ == id@,
        r.name@ == name@,
{
    TopicRow { id: id.to_string(), name: name.to_string() }
}

impl TopicList {
    /// The list has rows and the selection is one of them.
    pub open spec fn wf(&self) -> bool {
        self@.rooms.len() > 0 && self@.selected < self@.rooms.len()
    }

    /// A fresh landing page: the room catalog with its first row selected.
    pub fn new() -> (r: TopicList)
        ensures
            r.wf(),
            is_catalog(r@.rooms),
            r@.selected == 0,
    {
        let mut items: Vec<TopicRow> = Vec::new();
        items.push(row("5", "Rust async"));
        items.push(row("3", "How to cook better"));
        items.push(row("8", "Hiking organization"));
        items.push(row("2", "Secret meeting to rule to world"));
        items.push(row("1", "Talk about cats"));
        TopicList { items, selected: 0 }
    }

    /// The catalog's rows, in display order.
    pub fn items(&self) -> (r: &Vec<TopicRow>)
        ensures
            r@ == self@.rooms,
    {
        &self.items
    }

    /// The index of the selected row.
    pub fn selected(&self) -> (r: usize)
        ensures
            r == self@.selected,
    {
        self.selected
    }

    /// Moves the selection one row down, from the last row to the first.
    pub fn next(&mut self)
        requires
            old(self).wf(),
        ensures
            final(self).wf(),
            final(self)@.rooms == old(self)@.rooms,
            final(self)@.selected == next_index(old(self)@.selected, old(self)@.rooms.len()),
    {
        if self.selected == self.items.len() - 1 {
            self.selected = 0;
        } else {
            self.selected = self.selected + 1;
        }
    }

    /// Moves the selection one row up, from the first row to the last.
    pub fn previous(&mut self)
        requires
            old(self).wf(),
        ensures
            final(self).wf(),
            final(self)@.rooms == old(self)@.rooms,
            final(self)@.selected == prev_index(old(self)@.selected, old(self)@.rooms.len()),
    {
        if self.selected == 0 {
            self.selected = self.items.len() - 1;
        } else {
            self.selected = self.selected - 1;
        }
    }

    /// Handles one key press: `q` or Esc quits, Down/`j` and Up/`k` move the
    /// selection, Enter joins the selected row's topic; other keys do nothing.
    pub fn keybindings(&mut self, k: Key) -> (r: ListAction)
        requires
            old(self).wf(),
        ensures
            final(self).wf(),
            final(self)@.rooms == old(self)@.rooms,
            final(self)@.selected == step_index(old(self)@.selected, old(self)@.rooms.len(), k),
            is_leave(k) ==> r == ListAction::Quit,
            k == Key::Enter ==> (r matches ListAction::Join(t)
                && t.name@ == old(self)@.rooms[old(self)@.selected as int].id@),
            !is_leave(k) && k != Key::Enter ==> r == ListAction::Stay,
    {
        match k {
            Key::Char('q') | Key::Esc => ListAction::Quit,
            Key::Down | Key::Char('j') => {
                self.next();
                ListAction::Stay
            },
            Key::Up | Key::Char('k') => {
                self.previous();
                ListAction::Stay
            },
            Key::Enter => {
                let name = self.items[self.selected].id.clone();
                ListAction::Join(Topic { name })
            },
            _ => ListAction::Stay,
        }
    }
}

impl Default for TopicList {
    /// The same fresh landing page as `TopicList::new`.
    fn default() -> (r: TopicList)
        ensures
            r.wf(),
            is_catalog(r@.rooms),
            r@.selected == 0,
    {
        TopicList::new()
    }
}

/// From any valid selection on a list of `n` rows, any sequence of key
/// presses keeps the selection on a row, and leaves it where the net number
/// of steps down, counted modulo `n`, puts it: down from the last row is the
/// first row, up from the first row is the last.
pub proof fn lemma_navigation_wraps(i: nat, n: nat, keys: Seq<Key>)
    requires
        0 < n,
        i < n,
    ensures
        navigate(i, n, keys) < n,
        navigate(i, n, keys) == (i + downs(keys) - ups(keys)) % (n as int),
    decreases keys.len(),
{
    if keys.len() == 0 {
        lemma_small_mod(i, n);
    } else {
        let k = keys[0];
        let rest = keys.drop_first();
        let j = step_index(i, n, k);
        lemma_navigation_wraps(j, n, rest);
        let b: int = i + downs(keys) - ups(keys);
        if is_down(k) && i + 1 == n {
            lemma_mod_sub_multiples_vanish(b, n as int);
        } else if is_up(k) && i == 0 {
            lemma_mod_add_multiples_vanish(b, n as int);
        }
    }
}

} // verus!
