use libp2p::multiaddr::Protocol;
use libp2p::{Multiaddr, PeerId};
use vstd::prelude::*;

verus! {

#[verifier::external_type_specification]
#[verifier::external_body]
pub struct ExMultiaddr(Multiaddr);

#[verifier::external_type_specification]
#[verifier::external_body]
pub struct ExPeerId(PeerId);

/// Relies on libp2p's `PeerId::to_base58` for the peer's textual form, the
/// same text that its `Display` prints; nothing about that text is assumed.
pub assume_specification[ PeerId::to_base58 ](peer: PeerId) -> String;

/// What `String::from_utf8_lossy` makes of a byte sequence.
pub uninterp spec fn utf8_lossy(bytes: Seq<u8>) -> Seq<char>;

/// Relies on `String::from_utf8_lossy`: the text of the bytes, each invalid
/// UTF-8 sequence replaced by U+FFFD; it depends on the bytes alone, and no
/// bytes give no text.
#[verifier::external_body]
pub(crate) fn lossy_text(bytes: &Vec<u8>) -> (r: String)
    ensures
        r@ == utf8_lossy(bytes@),
        bytes@.len() == 0 ==> r@.len() == 0,
{
    String::from_utf8_lossy(bytes).into_owned()
}

/// Relies on libp2p's `Multiaddr::iter`: the peer that the address's last
/// component names, when that component is `/p2p/<peer id>`.
#[verifier::external_body]
pub(crate) fn peer_in_address(address: &Multiaddr) -> (r: Option<PeerId>) {
    match address.iter().last() {
        Some(Protocol::P2p(peer)) => Some(peer),
        _ => None,
    }
}

} // verus!
