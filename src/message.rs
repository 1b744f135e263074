use libp2p::Multiaddr;
use vstd::prelude::*;

verus! {

/// A publish/subscribe topic: one chat room, named by a stable identifier.
#[derive(Clone, Debug, PartialEq, Eq)]
pub struct Topic {
    pub name: String,
}

/// A command from the frontend to the network daemon.
#[derive(Debug, PartialEq, Eq)]
pub enum NetworkMessage {
    /// Deliver `text` to the current subscribers of `topic`.
    Publish { topic: Topic, text: String },
    /// Become a subscriber of `topic`.
    Subscribe { topic: Topic },
    /// Connect to the peer at this address.
    Dial(Multiaddr),
    /// Release the overlay and end the daemon's loop.
    Quit,
}

/// A message from the network daemon to the frontend.
#[derive(Clone, Debug, PartialEq, Eq)]
pub enum AppMessage {
    /// A chat line that arrived from the overlay, sender prefix applied.
    MessageReceived { message: String },
    /// Shut the frontend down.
    Quit,
}

} // verus!
