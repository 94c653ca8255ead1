//! The signalling server's registry of connected peers and its routing rule.
use std::collections::HashMap;
use vstd::prelude::*;

use crate::model::{add_from, is_peer_routing, is_relayed_routing, PeerId, RoutedSignallingMessage, Routing, SignallingMessage};
use crate::peer_set::{listed, peer_ids};

verus! {

broadcast use vstd::std_specs::hash::group_hash_axioms;

/// The peers a relayed message is delivered to, among the connected `peers`:
/// a broadcast goes to every connected peer but its sender, a direct message
/// to its target when that peer is connected.
pub open spec fn recipients(peers: Set<PeerId>, routing: Routing) -> Set<PeerId> {
    match routing {
        Routing::From(inner, from) => match *inner {
            Routing::Broadcast => peers.remove(from),
            Routing::To(target) => if peers.contains(target) {
                set![target]
            } else {
                Set::empty()
            },
            Routing::From(_, _) => Set::empty(),
        },
        _ => Set::empty(),
    }
}

/// Law: a broadcast reaches every connected peer except its sender.
pub proof fn law_broadcast_reaches_all_but_sender(peers: Set<PeerId>, from: PeerId, x: PeerId)
    ensures
        recipients(peers, Routing::From(Box::new(Routing::Broadcast), from)).contains(x) <==> (
        peers.contains(x) && x != from),
{
}

/// Law: a direct message reaches its target alone, and only when the target
/// is connected.
pub proof fn law_direct_message_reaches_only_target(
    peers: Set<PeerId>,
    from: PeerId,
    target: PeerId,
    x: PeerId,
)
    ensures
        recipients(peers, Routing::From(Box::new(Routing::To(target)), from)).contains(x) <==> (x
            == target && peers.contains(target)),
{
}

/// Law: the announcement of a newly connected peer reaches exactly the peers
/// that were connected before it.
pub proof fn law_new_peer_announced_to_previous_peers<S>(peers: Map<PeerId, S>, id: PeerId, tx: S)
    requires
        !peers.dom().contains(id),
    ensures
        recipients(
            peers.insert(id, tx).dom(),
            Routing::From(Box::new(Routing::Broadcast), id),
        ) == peers.dom(),
{
    assert(peers.insert(id, tx).dom().remove(id) =~= peers.dom());
}

/// Law: the departure of a peer is announced to exactly the peers that
/// remain, and a peer that joins and then leaves leaves the registry as it
/// found it.
pub proof fn law_peer_leaving_restores_registry<S>(peers: Map<PeerId, S>, id: PeerId, tx: S)
    requires
        !peers.dom().contains(id),
    ensures
        peers.insert(id, tx).remove(id) == peers,
        recipients(
            peers.insert(id, tx).remove(id).dom(),
            Routing::From(Box::new(Routing::Broadcast), id),
        ) == peers.dom(),
{
    assert(peers.insert(id, tx).remove(id) =~= peers);
    assert(peers.dom().remove(id) =~= peers.dom());
}

/// A message to send, and the peers to send it to, each once.
pub struct Delivery<Sdp, Cand> {
    pub message: RoutedSignallingMessage<Sdp, Cand>,
    pub recipients: Vec<PeerId>,
}

/// `d` carries `message` to exactly the recipients of its routing among `peers`.
pub open spec fn delivers<Sdp, Cand>(
    d: Delivery<Sdp, Cand>,
    message: RoutedSignallingMessage<Sdp, Cand>,
    peers: Set<PeerId>,
) -> bool {
    &&& d.message == message
    &&& d.recipients@.no_duplicates()
    &&& forall|x: PeerId| d.recipients@.contains(x) <==> recipients(peers, message.routing).contains(x)
}

/// The registry of connected peers, each with the channel `S` that reaches it.
pub struct PeerManager<S> {
    peers: HashMap<PeerId, S>,
}

impl<S> View for PeerManager<S> {
    type V = Map<PeerId, S>;

    closed spec fn view(&self) -> Map<PeerId, S> {
        self.peers@
    }
}

impl<S> Default for PeerManager<S> {
    fn default() -> (m: Self)
        ensures
            m@ == Map::<PeerId, S>::empty(),
    {
        PeerManager { peers: HashMap::new() }
    }
}

impl<S> PeerManager<S> {
    /// A registry with no peer.
    pub fn new() -> (m: Self)
        ensures
            m@ == Map::<PeerId, S>::empty(),
    {
        PeerManager { peers: HashMap::new() }
    }

    /// The number of connected peers.
    pub fn len(&self) -> (n: usize)
        ensures
            n == self@.dom().len(),
    {
        self.peers.len()
    }

    /// Whether no peer is connected.
    pub fn is_empty(&self) -> (b: bool)
        ensures
            b == (self@.dom().len() == 0),
    {
        self.peers.len() == 0
    }

    /// Whether `id` is connected.
    pub fn contains_peer(&self, id: PeerId) -> (b: bool)
        ensures
            b == self@.dom().contains(id),
    {
        self.peers.contains_key(&id)
    }

    /// The channel that reaches `id`, when it is connected.
    pub fn sender(&self, id: PeerId) -> (s: Option<&S>)
        ensures
            match s {
                Some(s) => self@.dom().contains(id) && *s == self@[id],
                None => !self@.dom().contains(id),
            },
    {
        self.peers.get(&id)
    }

    /// Routes a relayed message: the peers it is delivered to.
    pub fn send_message<Sdp, Cand>(&self, message: RoutedSignallingMessage<Sdp, Cand>) -> (d:
        Delivery<Sdp, Cand>)
        requires
            is_relayed_routing(message.routing),
        ensures
            delivers(d, message, self@.dom()),
    {
        let targets = match &message.routing {
            Routing::From(inner, from) => match &**inner {
                Routing::Broadcast => peer_ids(&self.peers, Some(*from)),
                Routing::To(target) => {
                    let mut v: Vec<PeerId> = Vec::new();
                    if self.peers.contains_key(target) {
                        v.push(*target);
                    }
                    proof {
                        assert forall|x: PeerId|
                            v@.contains(x) <==> recipients(
                                self@.dom(),
                                message.routing,
                            ).contains(x) by {
                            if v@.contains(x) {
                                assert(v@[0] == x);
                            }
                            if recipients(self@.dom(), message.routing).contains(x) {
                                assert(v@[0] == x);
                            }
                        }
                    }
                    v
                },
                Routing::From(_, _) => Vec::new(),
            },
            _ => Vec::new(),
        };
        proof {
            if (*message.routing->From_0) is Broadcast {
                assert forall|x: PeerId|
                    targets@.contains(x) <==> recipients(self@.dom(), message.routing).contains(
                        x,
                    ) by {
                    assert(listed(self@.dom(), Some(message.routing->From_1), x) <==> recipients(
                        self@.dom(),
                        message.routing,
                    ).contains(x));
                }
            }
        }
        Delivery { message, recipients: targets }
    }

    /// Relays a message that peer `from` sent: stamps it with its sender and
    /// routes it.
    pub fn broadcast_message<Sdp, Cand>(
        &self,
        from: PeerId,
        message: RoutedSignallingMessage<Sdp, Cand>,
    ) -> (d: Delivery<Sdp, Cand>)
        requires
            is_peer_routing(message.routing),
        ensures
            delivers(
                d,
                RoutedSignallingMessage {
                    routing: Routing::From(Box::new(message.routing), from),
                    message: message.message,
                },
                self@.dom(),
            ),
    {
        let RoutedSignallingMessage { routing, message } = message;
        self.send_message(RoutedSignallingMessage { routing: add_from(routing, from), message })
    }

    /// Registers peer `id`, reached through `tx`, and announces it to the
    /// other peers.
    pub fn add_peer<Sdp, Cand>(&mut self, id: PeerId, tx: S) -> (d: Delivery<Sdp, Cand>)
        ensures
            final(self)@ == old(self)@.insert(id, tx),
            delivers(
                d,
                RoutedSignallingMessage {
                    routing: Routing::From(Box::new(Routing::Broadcast), id),
                    message: SignallingMessage::NewPeer,
                },
                final(self)@.dom(),
            ),
    {
        self.peers.insert(id, tx);
        self.send_message(
            RoutedSignallingMessage {
                routing: add_from(Routing::Broadcast, id),
                message: SignallingMessage::NewPeer,
            },
        )
    }

    /// Unregisters peer `id` and tells the other peers that it left.
    pub fn remove_peer<Sdp, Cand>(&mut self, id: PeerId) -> (d: Delivery<Sdp, Cand>)
        ensures
            final(self)@ == old(self)@.remove(id),
            delivers(
                d,
                RoutedSignallingMessage {
                    routing: Routing::From(Box::new(Routing::Broadcast), id),
                    message: SignallingMessage::PeerLeft,
                },
                final(self)@.dom(),
            ),
    {
        self.peers.remove(&id);
        self.send_message(
            RoutedSignallingMessage {
                routing: add_from(Routing::Broadcast, id),
                message: SignallingMessage::PeerLeft,
            },
        )
    }
}

} // verus!
