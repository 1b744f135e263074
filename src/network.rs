use libp2p::{Multiaddr, PeerId};
use vstd::prelude::*;
use vstd::string::{StrSliceExecFns, StringExecFns};

use crate::message::{AppMessage, NetworkMessage, Topic};
use crate::overlay::{lossy_text, peer_in_address, utf8_lossy};

verus! {

/// An event that the peer overlay reports to the network daemon.
#[derive(Debug)]
pub enum OverlayEvent {
    /// The overlay started listening on this address.
    ListenAddr(Multiaddr),
    /// A gossip message arrived from `source`.
    Message { source: PeerId, data: Vec<u8> },
    /// These peers were found on the local network.
    Discovered(Vec<(PeerId, Multiaddr)>),
    /// These peers were not seen on the local network for a while.
    Expired(Vec<(PeerId, Multiaddr)>),
    /// Anything else the overlay reports; it is dropped.
    Other,
}

/// One thing the network daemon does in answer to a command or an event.
#[derive(Debug, PartialEq, Eq)]
pub enum NetworkAction {
    /// Ask the overlay to deliver `text` to the subscribers of `topic`.
    Publish { topic: Topic, text: String },
    /// Ask the overlay to subscribe this node to `topic`.
    Subscribe { topic: Topic },
    /// Ask the overlay to connect to `address`; `peer` is the peer that the
    /// address names, to be admitted once the dial is under way.
    Dial { address: Multiaddr, peer: Option<PeerId> },
    /// Forward this node's publications to `peer` explicitly.
    AddExplicitPeer(PeerId),
    /// Stop forwarding to `peer` explicitly.
    RemoveExplicitPeer(PeerId),
    /// Queue this command for the daemon itself.
    FollowUp(NetworkMessage),
    /// Send this message to the frontend.
    Notify(AppMessage),
    /// Release the overlay and leave the loop.
    Stop,
}

/// The network daemon's own state: the peer to dial once the overlay is
/// listening, and whether the loop goes on.
pub struct Network {
    boot_peer: Option<Multiaddr>,
    running: bool,
}

/// The network daemon's state as plain values.
pub struct NetworkView {
    pub boot_peer: Option<Multiaddr>,
    pub running: bool,
}

impl View for Network {
    type V = NetworkView;

    closed spec fn view(&self) -> NetworkView {
        NetworkView { boot_peer: self.boot_peer, running: self.running }
    }
}

/// The last seven characters of a peer's textual form, or all of it when
/// it is shorter.
pub open spec fn short_id(id: Seq<char>) -> Seq<char> {
    if id.len() <= 7 {
        id
    } else {
        id.subrange(id.len() - 7, id.len() as int)
    }
}

/// The transcript line for `body` sent by the peer whose textual form is `id`.
pub open spec fn display_line(id: Seq<char>, body: Seq<char>) -> Seq<char> {
    short_id(id) + seq![':', ' '] + body
}

/// The transcript line for `body` from the peer whose textual form is
/// `peer`: the peer's short form, a colon and a space, then the body.
pub fn message_line(peer: &str, body: &str) -> (r: String)
    ensures
        r@ == display_line(peer@, body@),
{
    let n = peer.unicode_len();
    let start: usize = if n <= 7 {
        0
    } else {
        n - 7
    };
    let mut line = peer.substring_char(start, n).to_string();
    proof {
        reveal_strlit(": ");
    }
    line.append(": ");
    line.append(body);
    proof {
        assert(peer@.subrange(0, n as int) =~= peer@);
    }
    line
}

/// What the daemon does once a dial was attempted: the peer that the
/// address named is admitted as an explicit gossip peer when the dial was
/// accepted, and nothing is done otherwise.
pub fn after_dial(peer: Option<PeerId>, dialed: bool) -> (r: Option<NetworkAction>)
    ensures
        dialed && peer is Some ==> r == Some(NetworkAction::AddExplicitPeer(peer->0)),
        !(dialed && peer is Some) ==> r is None,
{
    match peer {
        Some(p) => {
            if dialed {
                Some(NetworkAction::AddExplicitPeer(p))
            } else {
                None
            }
        },
        None => None,
    }
}

/// One explicit-peer action for each listed peer, in list order: additions
/// when `adding` holds, removals otherwise.
fn explicit_peers(list: &Vec<(PeerId, Multiaddr)>, adding: bool) -> (r: Vec<NetworkAction>)
    ensures
        r@.len() == list@.len(),
        forall|j: int|
            0 <= j < list@.len() ==> #[trigger] r@[j] == (if adding {
                NetworkAction::AddExplicitPeer(list@[j].0)
            } else {
                NetworkAction::RemoveExplicitPeer(list@[j].0)
            }),
{
    let mut r: Vec<NetworkAction> = Vec::new();
    let mut i: usize = 0;
    while i < list.len()
        invariant
            i <= list@.len(),
            r@.len() == i,
            forall|j: int|
                0 <= j < i ==> #[trigger] r@[j] == (if adding {
                    NetworkAction::AddExplicitPeer(list@[j].0)
                } else {
                    NetworkAction::RemoveExplicitPeer(list@[j].0)
                }),
        decreases list@.len() - i,
    {
        let peer = list[i].0;
        if adding {
            r.push(NetworkAction::AddExplicitPeer(peer));
        } else {
            r.push(NetworkAction::RemoveExplicitPeer(peer));
        }
        i = i + 1;
    }
    r
}

impl Network {
    /// A running daemon that dials `boot_peer`, if given, once the overlay
    /// first listens.
    pub fn new(boot_peer: Option<Multiaddr>) -> (r: Network)
        ensures
            r@.boot_peer == boot_peer,
            r@.running,
    {
        Network { boot_peer, running: true }
    }

    /// Whether the daemon's loop goes on.
    pub fn is_running(&self) -> (r: bool)
        ensures
            r == self@.running,
    {
        self.running
    }

    /// Handles one command from the frontend: publish, subscribe and dial
    /// are passed to the overlay as they are, and `Quit` stops the loop.
    pub fn handle_command(&mut self, msg: NetworkMessage) -> (r: NetworkAction)
        ensures
            final(self)@.boot_peer == old(self)@.boot_peer,
            final(self)@.running == (old(self)@.running && !(msg is Quit)),
            msg is Quit ==> r == NetworkAction::Stop,
            msg matches NetworkMessage::Publish { topic, text } ==> r == (NetworkAction::Publish {
                topic,
                text,
            }),
            msg matches NetworkMessage::Subscribe { topic } ==> r == (NetworkAction::Subscribe {
                topic,
            }),
            msg matches NetworkMessage::Dial(a) ==> (r matches NetworkAction::Dial { address, .. }
                && address == a),
    {
        match msg {
            NetworkMessage::Publish { topic, text } => NetworkAction::Publish { topic, text },
            NetworkMessage::Subscribe { topic } => NetworkAction::Subscribe { topic },
            NetworkMessage::Dial(address) => {
                let peer = peer_in_address(&address);
                NetworkAction::Dial { address, peer }
            },
            NetworkMessage::Quit => {
                self.running = false;
                NetworkAction::Stop
            },
        }
    }

    /// Handles one overlay event. The first listening address brings a
    /// follow-up dial of the boot peer, if one is pending; a gossip message
    /// becomes one transcript line for the frontend; discovered peers are
    /// admitted and expired ones removed, in list order; anything else is
    /// dropped.
    pub fn handle_event(&mut self, ev: OverlayEvent) -> (r: Vec<NetworkAction>)
        ensures
            final(self)@.running == old(self)@.running,
            ev is ListenAddr && old(self)@.boot_peer is Some ==> r@ == seq![
                NetworkAction::FollowUp(NetworkMessage::Dial(old(self)@.boot_peer->0)),
            ],
            ev is ListenAddr ==> final(self)@.boot_peer is None,
            ev is ListenAddr && old(self)@.boot_peer is None ==> r@.len() == 0,
            !(ev is ListenAddr) ==> final(self)@.boot_peer == old(self)@.boot_peer,
            ev matches OverlayEvent::Message { data, .. } ==> r@.len() == 1 && (
            r@[0] matches NetworkAction::Notify(AppMessage::MessageReceived { message })
                && exists|id: Seq<char>| message@ == display_line(id, utf8_lossy(data@))),
            ev matches OverlayEvent::Discovered(list) ==> r@.len() == list@.len() && forall|j: int|
                0 <= j < list@.len() ==> #[trigger] r@[j] == NetworkAction::AddExplicitPeer(
                    list@[j].0,
                ),
            ev matches OverlayEvent::Expired(list) ==> r@.len() == list@.len() && forall|j: int|
                0 <= j < list@.len() ==> #[trigger] r@[j] == NetworkAction::RemoveExplicitPeer(
                    list@[j].0,
                ),
            ev is Other ==> r@.len() == 0,
    {
        match ev {
            OverlayEvent::ListenAddr(_) => match self.boot_peer.take() {
                Some(peer) => vec![NetworkAction::FollowUp(NetworkMessage::Dial(peer))],
                None => Vec::new(),
            },
            OverlayEvent::Message { source, data } => {
                let id = source.to_base58();
                let body = lossy_text(&data);
                let message = message_line(id.as_str(), body.as_str());
                vec![NetworkAction::Notify(AppMessage::MessageReceived { message })]
            },
            OverlayEvent::Discovered(list) => explicit_peers(&list, true),
            OverlayEvent::Expired(list) => explicit_peers(&list, false),
            OverlayEvent::Other => Vec::new(),
        }
    }
}

} // verus!
