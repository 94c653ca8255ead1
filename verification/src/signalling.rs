//! The client's side of signalling: which peers it knows, whether it is
//! waiting for answers to its offers, and what each incoming message asks of
//! it. The connections themselves (`C`) and the channel that carries events
//! to the user interface (`E`) are held here but handled by the caller.
use std::collections::HashMap;
use vstd::prelude::*;

use crate::model::{is_peer_routing, PeerId, RoutedSignallingMessage, Routing, SignallingMessage};
use crate::peer_set::peer_ids;

verus! {

broadcast use vstd::std_specs::hash::group_hash_axioms;

/// Whether the client is waiting for answers to the offers it sent, and for
/// how many.
#[derive(Debug, Clone, Copy, PartialEq, Eq, Structural)]
pub enum State {
    Idle,
    GatheringAnswers(usize),
}

/// What a message asks of the client, once the client's own state has been
/// updated.
#[derive(Debug)]
pub enum Reaction<Sdp, Cand> {
    /// Open a connection to `peer`, register it, then send `reply` if any.
    ConnectPeer { peer: PeerId, reply: Option<RoutedSignallingMessage<Sdp, Cand>> },
    /// `peer` left; its connection has been dropped from the registry.
    PeerRemoved { peer: PeerId },
    /// Apply `offer` from `peer`, and send back an answer.
    AnswerOffer { peer: PeerId, offer: Sdp },
    /// Apply `answer` from `peer`; when `gathered`, first tell the user
    /// interface that every expected answer has arrived.
    ApplyAnswer { peer: PeerId, answer: Sdp, gathered: bool },
    /// Add `candidate` to the connection with `peer`.
    AddIceCandidate { peer: PeerId, candidate: Cand },
    /// The message comes from a peer with no connection: nothing to apply;
    /// when `gathered`, tell the user interface that every expected answer
    /// has arrived.
    UnknownPeer { peer: PeerId, gathered: bool },
    /// The event that every expected answer arrived could not be delivered:
    /// the answer is dropped.
    Abandoned,
}

/// The sender of a relayed message.
pub open spec fn sender(r: Routing) -> PeerId {
    r->From_1
}

/// A message the client can handle: relayed by the server; a new-peer
/// announcement broadcast or addressed to the client.
pub open spec fn handled_message<Sdp, Cand>(msg: RoutedSignallingMessage<Sdp, Cand>) -> bool {
    &&& msg.routing is From
    &&& (msg.message is NewPeer ==> is_peer_routing(*msg.routing->From_0))
}

/// The effect of one more answer while `state`, with or without a
/// subscriber for events: the new state, and whether the event that every
/// expected answer arrived is sent.
pub open spec fn answer_step(state: State, subscribed: bool) -> (State, bool) {
    match state {
        State::Idle => (State::Idle, false),
        State::GatheringAnswers(n) => if n == 1 {
            if subscribed {
                (State::Idle, true)
            } else {
                (State::GatheringAnswers(1), false)
            }
        } else {
            (State::GatheringAnswers((n - 1) as usize), false)
        },
    }
}

/// The state after an answer, on the transport, once the event that every
/// expected answer arrived was (`delivered`) or was not delivered; `false`
/// when the answer is dropped.
pub open spec fn transport_answer_step(state: State, delivered: bool) -> (State, bool) {
    match state {
        State::Idle => (State::Idle, true),
        State::GatheringAnswers(n) => if n == 1 {
            if delivered {
                (State::Idle, true)
            } else {
                (State::GatheringAnswers(1), false)
            }
        } else {
            (State::GatheringAnswers((n - 1) as usize), true)
        },
    }
}

/// The state after `k` answers, from `state`.
pub open spec fn state_after_answers(state: State, subscribed: bool, k: nat) -> State
    decreases k,
{
    if k == 0 {
        state
    } else {
        answer_step(state_after_answers(state, subscribed, (k - 1) as nat), subscribed).0
    }
}

/// Law: once offers went to `n` peers, with a subscriber for events, each of
/// the first `n` answers counts down, and the gathering event is sent with
/// the `n`-th answer and with no other; afterwards the client is idle and
/// further answers announce nothing.
pub proof fn law_gathering_announced_once_at_last_answer(n: usize, k: nat)
    requires
        n >= 1,
    ensures
        k < n ==> state_after_answers(State::GatheringAnswers(n), true, k)
            == State::GatheringAnswers((n - k) as usize),
        k < n ==> (answer_step(state_after_answers(State::GatheringAnswers(n), true, k), true).1
            <==> k == n - 1),
        k >= n ==> state_after_answers(State::GatheringAnswers(n), true, k) == State::Idle,
        k >= n ==> !answer_step(state_after_answers(State::GatheringAnswers(n), true, k), true).1,
    decreases k,
{
    if k > 0 {
        law_gathering_announced_once_at_last_answer(n, (k - 1) as nat);
    }
}

/// Law: with no subscriber for events, the gathering event is never sent and
/// the client keeps waiting for the last answer.
pub proof fn law_no_subscriber_no_announcement(n: usize, k: nat)
    requires
        n >= 1,
    ensures
        state_after_answers(State::GatheringAnswers(n), false, k) == State::GatheringAnswers(
            if k < n { (n - k) as usize } else { 1 },
        ),
        !answer_step(state_after_answers(State::GatheringAnswers(n), false, k), false).1,
    decreases k,
{
    if k > 0 {
        law_no_subscriber_no_announcement(n, (k - 1) as nat);
    }
}

/// Law: on the transport, an answer that completes the gathering is dropped,
/// and the client keeps waiting for it, exactly when the gathering event
/// could not be delivered; every other answer goes through.
pub proof fn law_transport_answer_dropped_only_when_undelivered(state: State, delivered: bool)
    requires
        state != State::GatheringAnswers(0),
    ensures
        !transport_answer_step(state, delivered).1 <==> (state == State::GatheringAnswers(1)
            && !delivered),
        !transport_answer_step(state, delivered).1 ==> transport_answer_step(state, delivered).0
            == state,
{
}

/// The peer connections after `msg`: a peer that left is dropped; nothing
/// else changes them (a new peer is registered once its connection exists).
pub open spec fn peers_after<C, Sdp, Cand>(
    peers: Map<PeerId, C>,
    msg: RoutedSignallingMessage<Sdp, Cand>,
) -> Map<PeerId, C> {
    if msg.message is PeerLeft {
        peers.remove(sender(msg.routing))
    } else {
        peers
    }
}

/// The offer/answer state after `msg`, with or without a subscriber: only
/// an answer changes it.
pub open spec fn state_after<Sdp, Cand>(
    state: State,
    subscribed: bool,
    msg: RoutedSignallingMessage<Sdp, Cand>,
) -> State {
    if msg.message is Answer {
        answer_step(state, subscribed).0
    } else {
        state
    }
}

/// The offer/answer state after `msg` on the transport, once the gathering
/// event was, or was not, `delivered`: only an answer changes it.
pub open spec fn transport_state_after<Sdp, Cand>(
    state: State,
    delivered: bool,
    msg: RoutedSignallingMessage<Sdp, Cand>,
) -> State {
    if msg.message is Answer {
        transport_answer_step(state, delivered).0
    } else {
        state
    }
}

/// Law: a message from `f` leaves the set of peers with a connection as it
/// was, except that a departure removes `f`, and a new-peer announcement asks
/// for a connection to `f`, whose registration adds `f`. An offer or a
/// candidate from a peer with no connection asks for nothing to be applied
/// or sent. Only an answer changes the offer/answer state.
pub proof fn law_message_effects_on_peers<C, Sdp, Cand>(
    peers: Map<PeerId, C>,
    state: State,
    subscribed: bool,
    msg: RoutedSignallingMessage<Sdp, Cand>,
    conn: C,
)
    requires
        handled_message(msg),
    ensures
        ({
            let f = sender(msg.routing);
            &&& (msg.message is Offer || msg.message is Answer || msg.message is ICECandidate)
                ==> peers_after(peers, msg).dom() == peers.dom()
            &&& msg.message is PeerLeft ==> peers_after(peers, msg).dom() == peers.dom().remove(f)
            &&& msg.message is NewPeer ==> {
                &&& common_reaction(peers.dom(), msg) matches Reaction::ConnectPeer { peer, .. }
                    && peer == f
                &&& peers_after(peers, msg).insert(f, conn).dom() == peers.dom().insert(f)
            }
            &&& ((msg.message is Offer || msg.message is ICECandidate) && !peers.dom().contains(f))
                ==> common_reaction(peers.dom(), msg) == Reaction::UnknownPeer::<Sdp, Cand> {
                peer: f,
                gathered: false,
            }
            &&& !(msg.message is Answer) ==> state_after(state, subscribed, msg) == state
            &&& !(msg.message is Answer) ==> transport_state_after(state, subscribed, msg) == state
        }),
{
    assert(peers.insert(sender(msg.routing), conn).dom() =~= peers.dom().insert(sender(msg.routing)));
}

/// Law: on the transport, with the gathering event delivered, an answer
/// leaves an idle client idle and counts a gathering down by one; the event
/// is due, and is sent once, exactly when one answer remains, and the
/// client is then idle.
pub proof fn law_transport_answers_count_down(state: State)
    requires
        state != State::GatheringAnswers(0),
    ensures
        transport_answer_step(state, true).1,
        transport_answer_step(state, true).0 == match state {
            State::Idle => State::Idle,
            State::GatheringAnswers(k) => if k == 1 {
                State::Idle
            } else {
                State::GatheringAnswers((k - 1) as usize)
            },
        },
        transport_answer_step(state, true).0 == answer_step(state, true).0,
        answer_step(state, true).1 <==> state == State::GatheringAnswers(1),
{
}

/// What `msg` asks of a client whose peers are `peers`, when everything but
/// an answer is concerned.
pub open spec fn common_reaction<Sdp, Cand>(
    peers: Set<PeerId>,
    msg: RoutedSignallingMessage<Sdp, Cand>,
) -> Reaction<Sdp, Cand> {
    let from = sender(msg.routing);
    match msg.message {
        SignallingMessage::NewPeer => Reaction::ConnectPeer {
            peer: from,
            reply: if (*msg.routing->From_0) is Broadcast {
                Some(
                    RoutedSignallingMessage {
                        routing: Routing::To(from),
                        message: SignallingMessage::NewPeer,
                    },
                )
            } else {
                None
            },
        },
        SignallingMessage::PeerLeft => Reaction::PeerRemoved { peer: from },
        SignallingMessage::Offer { sdp } => if peers.contains(from) {
            Reaction::AnswerOffer { peer: from, offer: sdp }
        } else {
            Reaction::UnknownPeer { peer: from, gathered: false }
        },
        SignallingMessage::Answer { sdp } => if peers.contains(from) {
            Reaction::ApplyAnswer { peer: from, answer: sdp, gathered: false }
        } else {
            Reaction::UnknownPeer { peer: from, gathered: false }
        },
        SignallingMessage::ICECandidate { candidate } => if peers.contains(from) {
            Reaction::AddIceCandidate { peer: from, candidate }
        } else {
            Reaction::UnknownPeer { peer: from, gathered: false }
        },
    }
}

/// The reaction to an answer from `from` once the gathering event is, or is
/// not, `gathered`.
pub open spec fn answer_reaction<Sdp, Cand>(
    peers: Set<PeerId>,
    from: PeerId,
    answer: Sdp,
    gathered: bool,
) -> Reaction<Sdp, Cand> {
    if peers.contains(from) {
        Reaction::ApplyAnswer { peer: from, answer, gathered }
    } else {
        Reaction::UnknownPeer { peer: from, gathered }
    }
}

/// Law: peers are introduced both ways exactly once: a broadcast new-peer
/// announcement is answered with a direct one to its sender, and that direct
/// announcement, once relayed, is answered with nothing.
pub proof fn law_new_peer_answered_once<Sdp, Cand>(
    peers_b: Set<PeerId>,
    peers_a: Set<PeerId>,
    a: PeerId,
    b: PeerId,
)
    ensures
        ({
            let announce = RoutedSignallingMessage::<Sdp, Cand> {
                routing: Routing::From(Box::new(Routing::Broadcast), a),
                message: SignallingMessage::NewPeer,
            };
            let reply = RoutedSignallingMessage::<Sdp, Cand> {
                routing: Routing::To(a),
                message: SignallingMessage::NewPeer,
            };
            let relayed = RoutedSignallingMessage::<Sdp, Cand> {
                routing: Routing::From(Box::new(reply.routing), b),
                message: reply.message,
            };
            &&& common_reaction(peers_b, announce) == Reaction::ConnectPeer::<Sdp, Cand> {
                peer: a,
                reply: Some(reply),
            }
            &&& common_reaction(peers_a, relayed) == Reaction::ConnectPeer::<Sdp, Cand> {
                peer: b,
                reply: None,
            }
        }),
{
}

/// Law: once a peer has left, what it still sends (offers, answers,
/// candidates) is not applied to any connection.
pub proof fn law_departed_peer_is_ignored<Sdp, Cand>(
    peers: Set<PeerId>,
    msg: RoutedSignallingMessage<Sdp, Cand>,
    gathered: bool,
)
    requires
        handled_message(msg),
        msg.message is Offer || msg.message is Answer || msg.message is ICECandidate,
    ensures
        common_reaction(peers.remove(sender(msg.routing)), msg) is UnknownPeer,
        msg.message is Answer ==> answer_reaction::<Sdp, Cand>(
            peers.remove(sender(msg.routing)),
            sender(msg.routing),
            msg.message->Answer_sdp,
            gathered,
        ) is UnknownPeer,
{
}

/// Law: every message the server relays is one the client can handle, and
/// the client sees it as coming from the peer that sent it.
pub proof fn law_relayed_messages_are_handled<Sdp, Cand>(
    from: PeerId,
    msg: RoutedSignallingMessage<Sdp, Cand>,
)
    requires
        is_peer_routing(msg.routing),
    ensures
        ({
            let relayed = RoutedSignallingMessage {
                routing: Routing::From(Box::new(msg.routing), from),
                message: msg.message,
            };
            &&& handled_message(relayed)
            &&& sender(relayed.routing) == from
        }),
{
}

/// `message` sent by `f` with routing `inner`, as the server relays it.
pub open spec fn relayed<Sdp, Cand>(
    inner: Routing,
    f: PeerId,
    message: SignallingMessage<Sdp, Cand>,
) -> RoutedSignallingMessage<Sdp, Cand> {
    RoutedSignallingMessage { routing: Routing::From(Box::new(inner), f), message }
}

/// Law: an offer or a candidate from `f`, whatever its routing, is applied
/// to the connection with `f` itself, unchanged, when `f` is connected (an
/// offer being answered to `f`), and to nothing otherwise.
pub proof fn law_offer_and_candidate_go_to_their_sender<Sdp, Cand>(
    peers: Set<PeerId>,
    inner: Routing,
    f: PeerId,
    sdp: Sdp,
    candidate: Cand,
)
    ensures
        sender(Routing::From(Box::new(inner), f)) == f,
        (peers.contains(f) ==> common_reaction(peers, relayed::<Sdp, Cand>(inner, f, SignallingMessage::Offer { sdp }))
            == Reaction::AnswerOffer::<Sdp, Cand> { peer: f, offer: sdp }),
        (!peers.contains(f) ==> common_reaction(peers, relayed::<Sdp, Cand>(inner, f, SignallingMessage::Offer { sdp }))
            == Reaction::UnknownPeer::<Sdp, Cand> { peer: f, gathered: false }),
        (peers.contains(f) ==> common_reaction(peers, relayed::<Sdp, Cand>(inner, f, SignallingMessage::ICECandidate { candidate }))
            == Reaction::AddIceCandidate::<Sdp, Cand> { peer: f, candidate }),
        (!peers.contains(f) ==> common_reaction(peers, relayed::<Sdp, Cand>(inner, f, SignallingMessage::ICECandidate { candidate }))
            == Reaction::UnknownPeer::<Sdp, Cand> { peer: f, gathered: false }),
{
}

/// Law: an answer from `f` is applied to the connection with `f`, unchanged
/// and with the given announcement, when `f` is connected, and to nothing
/// otherwise.
pub proof fn law_answer_goes_to_its_sender<Sdp, Cand>(
    peers: Set<PeerId>,
    f: PeerId,
    sdp: Sdp,
    gathered: bool,
)
    ensures
        (peers.contains(f) ==> answer_reaction::<Sdp, Cand>(peers, f, sdp, gathered)
            == Reaction::ApplyAnswer::<Sdp, Cand> { peer: f, answer: sdp, gathered }),
        (!peers.contains(f) ==> answer_reaction::<Sdp, Cand>(peers, f, sdp, gathered)
            == Reaction::UnknownPeer::<Sdp, Cand> { peer: f, gathered }),
{
}

/// Law: a departure of `f` removes `f`; an announcement of `f` asks to
/// connect to `f`, and replies to `f` exactly when it was broadcast.
pub proof fn law_arrivals_and_departures_concern_their_sender<Sdp, Cand>(
    peers: Set<PeerId>,
    inner: Routing,
    f: PeerId,
)
    ensures
        (common_reaction(peers, relayed::<Sdp, Cand>(inner, f, SignallingMessage::PeerLeft))
            == Reaction::PeerRemoved::<Sdp, Cand> { peer: f }),
        (inner is Broadcast ==> common_reaction(peers, relayed::<Sdp, Cand>(inner, f, SignallingMessage::NewPeer))
            == Reaction::ConnectPeer::<Sdp, Cand> {
            peer: f,
            reply: Some(relayed_reply::<Sdp, Cand>(f)),
        }),
        (!(inner is Broadcast) ==> common_reaction(peers, relayed::<Sdp, Cand>(inner, f, SignallingMessage::NewPeer))
            == Reaction::ConnectPeer::<Sdp, Cand> { peer: f, reply: None }),
{
}

/// The reply to a broadcast announcement of `f`: a new-peer message to `f`.
pub open spec fn relayed_reply<Sdp, Cand>(f: PeerId) -> RoutedSignallingMessage<Sdp, Cand> {
    RoutedSignallingMessage { routing: Routing::To(f), message: SignallingMessage::NewPeer }
}

/// Law: each answer counts the gathering down by exactly one. On the
/// network: an idle client stays idle and announces nothing; with `n > 1`
/// answers awaited, `n - 1` remain and nothing is announced; with one
/// awaited, a subscriber gets the announcement and the client is idle, and
/// without a subscriber it keeps waiting. On the transport, whether or not an
/// event was delivered, an answer while `n > 1` are awaited leaves `n - 1`
/// and goes through; the last one goes through and leaves the client idle
/// exactly when the event was delivered.
pub proof fn law_answers_count_down_by_one(n: usize, subscribed: bool, delivered: bool)
    ensures
        answer_step(State::Idle, subscribed) == (State::Idle, false),
        n > 1 ==> answer_step(State::GatheringAnswers(n), subscribed) == (
            State::GatheringAnswers((n - 1) as usize),
            false,
        ),
        answer_step(State::GatheringAnswers(1), true) == (State::Idle, true),
        answer_step(State::GatheringAnswers(1), false) == (State::GatheringAnswers(1), false),
        transport_answer_step(State::Idle, delivered) == (State::Idle, true),
        n > 1 ==> transport_answer_step(State::GatheringAnswers(n), delivered) == (
            State::GatheringAnswers((n - 1) as usize),
            true,
        ),
        transport_answer_step(State::GatheringAnswers(1), true) == (State::Idle, true),
        transport_answer_step(State::GatheringAnswers(1), false) == (
            State::GatheringAnswers(1),
            false,
        ),
{
}

/// The client's registry of peer connections and its offer/answer state.
pub struct PeersState<C, E> {
    state: State,
    events_tx: Option<E>,
    peers: HashMap<PeerId, C>,
}

impl<C, E> PeersState<C, E> {
    /// The offer/answer state.
    pub closed spec fn state(&self) -> State {
        self.state
    }

    /// The channel to the user interface, once one subscribed.
    pub closed spec fn events(&self) -> Option<E> {
        self.events_tx
    }

    /// The connections, by peer.
    pub closed spec fn peers(&self) -> Map<PeerId, C> {
        self.peers@
    }

    /// Idle, with no subscriber and no peer.
    pub fn new() -> (s: Self)
        ensures
            s.state() == State::Idle,
            s.events() is None,
            s.peers() == Map::<PeerId, C>::empty(),
    {
        PeersState { state: State::Idle, events_tx: None, peers: HashMap::new() }
    }

    /// The offer/answer state.
    pub fn current_state(&self) -> (s: State)
        ensures
            s == self.state(),
    {
        self.state
    }

    /// Makes `tx` the channel that events are sent on.
    pub fn subscribe(&mut self, tx: E)
        ensures
            final(self).events() == Some(tx),
            final(self).state() == old(self).state(),
            final(self).peers() == old(self).peers(),
    {
        self.events_tx = Some(tx);
    }

    /// The channel that events are sent on, if any.
    pub fn events_tx(&self) -> (e: Option<&E>)
        ensures
            match e {
                Some(e) => self.events() == Some(*e),
                None => self.events() is None,
            },
    {
        match &self.events_tx {
            Some(e) => Some(e),
            None => None,
        }
    }

    /// Registers the connection `conn` with `peer`.
    pub fn insert_peer(&mut self, peer: PeerId, conn: C)
        ensures
            final(self).peers() == old(self).peers().insert(peer, conn),
            final(self).state() == old(self).state(),
            final(self).events() == old(self).events(),
    {
        self.peers.insert(peer, conn);
    }

    /// The connection with `peer`, if any.
    pub fn peer(&self, peer: PeerId) -> (c: Option<&C>)
        ensures
            match c {
                Some(c) => self.peers().dom().contains(peer) && *c == self.peers()[peer],
                None => !self.peers().dom().contains(peer),
            },
    {
        self.peers.get(&peer)
    }

    /// The peers with a connection, each once.
    pub fn peer_ids(&self) -> (ids: Vec<PeerId>)
        ensures
            ids@.no_duplicates(),
            forall|x: PeerId| ids@.contains(x) <==> self.peers().dom().contains(x),
    {
        peer_ids(&self.peers, None)
    }

    /// Starts waiting for one answer from every peer, and returns the peers
    /// to send an offer to, each once.
    pub fn begin_gathering(&mut self) -> (ids: Vec<PeerId>)
        ensures
            final(self).state() == State::GatheringAnswers(old(self).peers().dom().len() as usize),
            final(self).peers() == old(self).peers(),
            final(self).events() == old(self).events(),
            ids@.no_duplicates(),
            forall|x: PeerId| ids@.contains(x) <==> old(self).peers().dom().contains(x),
    {
        self.state = State::GatheringAnswers(self.peers.len());
        peer_ids(&self.peers, None)
    }

    /// Whether the next answer completes the gathering.
    pub fn gathered_event_due(&self) -> (b: bool)
        ensures
            b == (self.state() == State::GatheringAnswers(1)),
    {
        match self.state {
            State::GatheringAnswers(n) => n == 1,
            State::Idle => false,
        }
    }

    /// Handles everything but an answer.
    fn handle_common<Sdp, Cand>(&mut self, msg: RoutedSignallingMessage<Sdp, Cand>) -> (r: Reaction<
        Sdp,
        Cand,
    >)
        requires
            handled_message(msg),
        ensures
            r == common_reaction(old(self).peers().dom(), msg),
            final(self).state() == old(self).state(),
            final(self).events() == old(self).events(),
            final(self).peers() == peers_after(old(self).peers(), msg),
    {
        let RoutedSignallingMessage { routing, message } = msg;
        let (reply_to_broadcast, from) = match routing {
            Routing::From(inner, from) => (
                match *inner {
                    Routing::Broadcast => true,
                    _ => false,
                },
                from,
            ),
            _ => (false, 0),
        };
        let known = self.peers.contains_key(&from);
        match message {
            SignallingMessage::NewPeer => {
                let reply = if reply_to_broadcast {
                    Some(
                        RoutedSignallingMessage {
                            routing: Routing::To(from),
                            message: SignallingMessage::NewPeer,
                        },
                    )
                } else {
                    None
                };
                Reaction::ConnectPeer { peer: from, reply }
            },
            SignallingMessage::PeerLeft => {
                self.peers.remove(&from);
                Reaction::PeerRemoved { peer: from }
            },
            SignallingMessage::Offer { sdp } => {
                if known {
                    Reaction::AnswerOffer { peer: from, offer: sdp }
                } else {
                    Reaction::UnknownPeer { peer: from, gathered: false }
                }
            },
            SignallingMessage::Answer { sdp } => {
                if known {
                    Reaction::ApplyAnswer { peer: from, answer: sdp, gathered: false }
                } else {
                    Reaction::UnknownPeer { peer: from, gathered: false }
                }
            },
            SignallingMessage::ICECandidate { candidate } => {
                if known {
                    Reaction::AddIceCandidate { peer: from, candidate }
                } else {
                    Reaction::UnknownPeer { peer: from, gathered: false }
                }
            },
        }
    }

    /// Handles a message relayed by the signalling server: updates the
    /// registry (a peer that left is dropped) and the answer count (an answer
    /// counts down; the last one, with a subscriber, ends the gathering and
    /// is to be announced), and says what remains to do.
    pub fn handle_signalling_message<Sdp, Cand>(
        &mut self,
        msg: RoutedSignallingMessage<Sdp, Cand>,
    ) -> (r: Reaction<Sdp, Cand>)
        requires
            handled_message(msg),
            msg.message is Answer ==> old(self).state() != State::GatheringAnswers(0),
        ensures
            final(self).events() == old(self).events(),
            final(self).state() == state_after(old(self).state(), old(self).events() is Some, msg),
            final(self).peers() == peers_after(old(self).peers(), msg),
            msg.message is Answer ==> {
                let (s, g) = answer_step(old(self).state(), old(self).events() is Some);
                &&& final(self).state() == s
                &&& r == answer_reaction::<Sdp, Cand>(
                    old(self).peers().dom(),
                    sender(msg.routing),
                    msg.message->Answer_sdp,
                    g,
                )
            },
            !(msg.message is Answer) ==> {
                &&& final(self).state() == old(self).state()
                &&& r == common_reaction(old(self).peers().dom(), msg)
            },
    {
        if let SignallingMessage::Answer { .. } = &msg.message {
            let gathered = match self.state {
                State::Idle => false,
                State::GatheringAnswers(n) => {
                    if n == 1 {
                        if self.events_tx.is_some() {
                            self.state = State::Idle;
                            true
                        } else {
                            false
                        }
                    } else {
                        self.state = State::GatheringAnswers(n - 1);
                        false
                    }
                },
            };
            let r = self.handle_common(msg);
            match r {
                Reaction::ApplyAnswer { peer, answer, .. } => Reaction::ApplyAnswer {
                    peer,
                    answer,
                    gathered,
                },
                Reaction::UnknownPeer { peer, .. } => Reaction::UnknownPeer { peer, gathered },
                other => other,
            }
        } else {
            self.handle_common(msg)
        }
    }

    /// Handles a message relayed by the signalling server on the data
    /// transport. For an answer that completes the gathering, `delivered`
    /// tells whether the gathering event reached its subscribers; if it did
    /// not, the answer is dropped and nothing changes.
    pub fn handle_transport_message<Sdp, Cand>(
        &mut self,
        msg: RoutedSignallingMessage<Sdp, Cand>,
        delivered: bool,
    ) -> (r: Reaction<Sdp, Cand>)
        requires
            handled_message(msg),
            msg.message is Answer ==> old(self).state() != State::GatheringAnswers(0),
        ensures
            final(self).events() == old(self).events(),
            final(self).state() == transport_state_after(old(self).state(), delivered, msg),
            final(self).peers() == peers_after(old(self).peers(), msg),
            msg.message is Answer ==> {
                let (s, proceed) = transport_answer_step(old(self).state(), delivered);
                &&& final(self).state() == s
                &&& r == if proceed {
                    answer_reaction::<Sdp, Cand>(
                        old(self).peers().dom(),
                        sender(msg.routing),
                        msg.message->Answer_sdp,
                        false,
                    )
                } else {
                    Reaction::Abandoned
                }
            },
            !(msg.message is Answer) ==> {
                &&& final(self).state() == old(self).state()
                &&& r == common_reaction(old(self).peers().dom(), msg)
            },
    {
        if let SignallingMessage::Answer { .. } = &msg.message {
            match self.state {
                State::Idle => {},
                State::GatheringAnswers(n) => {
                    if n == 1 {
                        if !delivered {
                            return Reaction::Abandoned;
                        }
                        self.state = State::Idle;
                    } else {
                        self.state = State::GatheringAnswers(n - 1);
                    }
                },
            }
        }
        self.handle_common(msg)
    }
}

} // verus!
