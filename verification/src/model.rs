//! Messages exchanged between peers through the signalling server.
use vstd::prelude::*;

verus! {

/// Identifier of a peer of the signalling network: the 128 bits of its UUID.
pub type PeerId = u128;

/// Where a signalling message goes.
///
/// A peer addresses its messages with `Broadcast` or `To`; the server stamps
/// every message it relays with the sender, wrapping the peer's routing in `From`.
#[derive(Debug)]
pub enum Routing {
    Broadcast,
    To(PeerId),
    From(Box<Routing>, PeerId),
}

/// The content of a signalling message. `Sdp` is a session description,
/// `Cand` an ICE candidate.
#[derive(Debug)]
pub enum SignallingMessage<Sdp, Cand> {
    NewPeer,
    PeerLeft,
    Offer { sdp: Sdp },
    Answer { sdp: Sdp },
    ICECandidate { candidate: Cand },
}

/// A signalling message together with its routing.
#[derive(Debug)]
pub struct RoutedSignallingMessage<Sdp, Cand> {
    pub routing: Routing,
    pub message: SignallingMessage<Sdp, Cand>,
}

/// The routing a peer writes: to everybody, or to one peer.
pub open spec fn is_peer_routing(r: Routing) -> bool {
    r is Broadcast || r is To
}

/// The routing the server delivers: a peer routing stamped with its sender.
pub open spec fn is_relayed_routing(r: Routing) -> bool {
    &&& r is From
    &&& is_peer_routing(*r->From_0)
}

/// Stamps `routing` with its sender `from`.
pub fn add_from(routing: Routing, from: PeerId) -> (r: Routing)
    ensures
        r == Routing::From(Box::new(routing), from),
{
    Routing::From(Box::new(routing), from)
}

} // verus!
