use std::sync::{Arc, Mutex};

use screencast::model::{RoutedSignallingMessage, Routing, SignallingMessage};
use screencast::peers::{Delivery, PeerManager};
use uuid::Uuid;

type Msg = RoutedSignallingMessage<String, String>;

fn new_id() -> u128 {
    Uuid::new_v4().as_u128()
}

fn sorted(mut v: Vec<u128>) -> Vec<u128> {
    v.sort();
    v
}

fn is_broadcast_from(routing: &Routing, id: u128) -> bool {
    matches!(routing, Routing::From(inner, from) if matches!(**inner, Routing::Broadcast) && *from == id)
}

#[test]
fn test_new_peer_manager() {
    let manager: PeerManager<u8> = PeerManager::new();
    assert!(manager.is_empty());
}

#[test]
fn test_default_peer_manager() {
    let manager: PeerManager<u8> = PeerManager::default();
    assert!(manager.is_empty());
}

#[test]
fn test_add_peer() {
    let mut manager: PeerManager<&str> = PeerManager::new();
    let peer_id1 = new_id();
    let peer_id2 = new_id();

    let first: Delivery<String, String> = manager.add_peer(peer_id1, "tx1");
    // Nobody else is connected: the first peer receives nothing.
    assert!(first.recipients.is_empty());

    let second: Delivery<String, String> = manager.add_peer(peer_id2, "tx2");

    assert_eq!(manager.len(), 2);
    assert!(manager.contains_peer(peer_id1));
    assert!(manager.contains_peer(peer_id2));

    // The first peer is told about the second one; the second one hears nothing.
    assert_eq!(second.recipients, vec![peer_id1]);
    match second.message.message {
        SignallingMessage::NewPeer => {}
        _ => panic!("Expected NewPeer message"),
    }
    match &second.message.routing {
        Routing::From(inner_routing, from_id) => {
            assert_eq!(*from_id, peer_id2);
            match **inner_routing {
                Routing::Broadcast => {}
                _ => panic!("Expected inner Broadcast routing"),
            }
        }
        _ => panic!("Expected From routing with Broadcast"),
    }
    assert!(!second.recipients.contains(&peer_id2));
}

#[test]
fn test_remove_peer() {
    let mut manager: PeerManager<&str> = PeerManager::new();
    let peer_id1 = new_id();
    let peer_id2 = new_id();

    let _: Delivery<String, String> = manager.add_peer(peer_id1, "tx1");
    let _: Delivery<String, String> = manager.add_peer(peer_id2, "tx2");

    let left: Delivery<String, String> = manager.remove_peer(peer_id1);

    assert_eq!(manager.len(), 1);
    assert!(!manager.contains_peer(peer_id1));
    assert!(manager.contains_peer(peer_id2));

    assert_eq!(left.recipients, vec![peer_id2]);
    match left.message.message {
        SignallingMessage::PeerLeft => {}
        _ => panic!("Expected PeerLeft message"),
    }
    assert!(is_broadcast_from(&left.message.routing, peer_id1));
}

#[test]
fn test_remove_nonexistent_peer() {
    let mut manager: PeerManager<&str> = PeerManager::new();
    let peer_id = new_id();

    let left: Delivery<String, String> = manager.remove_peer(peer_id);

    assert!(manager.is_empty());
    assert!(left.recipients.is_empty());
}

#[test]
fn test_send_message_broadcast_excluding() {
    let mut manager: PeerManager<&str> = PeerManager::new();
    let peer_id1 = new_id();
    let peer_id2 = new_id();
    let peer_id3 = new_id();

    let _: Delivery<String, String> = manager.add_peer(peer_id1, "tx1");
    let _: Delivery<String, String> = manager.add_peer(peer_id2, "tx2");
    let _: Delivery<String, String> = manager.add_peer(peer_id3, "tx3");

    let test_message: Msg = RoutedSignallingMessage {
        routing: Routing::From(Box::new(Routing::Broadcast), peer_id2),
        message: SignallingMessage::NewPeer,
    };

    let delivery = manager.send_message(test_message);

    assert_eq!(sorted(delivery.recipients.clone()), sorted(vec![peer_id1, peer_id3]));
    assert!(is_broadcast_from(&delivery.message.routing, peer_id2));
    assert!(!delivery.recipients.contains(&peer_id2));
}

#[test]
fn test_send_message_to_specific_peer() {
    let mut manager: PeerManager<&str> = PeerManager::new();
    let peer_id1 = new_id();
    let peer_id2 = new_id();

    let _: Delivery<String, String> = manager.add_peer(peer_id1, "tx1");
    let _: Delivery<String, String> = manager.add_peer(peer_id2, "tx2");

    let test_message: Msg = RoutedSignallingMessage {
        routing: Routing::From(Box::new(Routing::To(peer_id1)), peer_id2),
        message: SignallingMessage::NewPeer,
    };

    let delivery = manager.send_message(test_message);

    assert_eq!(delivery.recipients, vec![peer_id1]);
    assert!(
        matches!(&delivery.message.routing, Routing::From(inner, from_id) if matches!(**inner, Routing::To(to_id) if to_id == peer_id1) && *from_id == peer_id2)
    );
    assert!(!delivery.recipients.contains(&peer_id2));
}

#[test]
fn test_send_message_to_nonexistent_peer() {
    let manager: PeerManager<&str> = PeerManager::new();
    let nonexistent_id = new_id();

    let test_message: Msg = RoutedSignallingMessage {
        routing: Routing::From(Box::new(Routing::To(nonexistent_id)), new_id()),
        message: SignallingMessage::NewPeer,
    };

    let delivery = manager.send_message(test_message);
    assert!(delivery.recipients.is_empty());
}

#[test]
fn test_multiple_peers_lifecycle() {
    let mut manager: PeerManager<usize> = PeerManager::new();
    let mut peer_ids = Vec::new();

    for i in 0..5 {
        let peer_id = new_id();
        peer_ids.push(peer_id);
        let _: Delivery<String, String> = manager.add_peer(peer_id, i);
    }

    assert_eq!(manager.len(), 5);
    for peer_id in &peer_ids {
        assert!(manager.contains_peer(*peer_id));
    }

    for peer_id in peer_ids.iter().take(3) {
        let _: Delivery<String, String> = manager.remove_peer(*peer_id);
    }

    assert_eq!(manager.len(), 2);
    for peer_id in peer_ids.iter().take(3) {
        assert!(!manager.contains_peer(*peer_id));
    }
    for peer_id in peer_ids.iter().skip(3) {
        assert!(manager.contains_peer(*peer_id));
    }
}

#[test]
fn test_clone_peer_manager() {
    let manager1 = Arc::new(Mutex::new(PeerManager::<&str>::new()));
    let manager2 = Arc::clone(&manager1);

    let peer_id = new_id();

    let _: Delivery<String, String> = manager1.lock().unwrap().add_peer(peer_id, "tx");

    let peers1 = manager1.lock().unwrap().len();
    assert_eq!(peers1, 1);
    assert!(manager1.lock().unwrap().contains_peer(peer_id));
    let peers2 = manager2.lock().unwrap().len();
    assert_eq!(peers2, 1);
    assert!(manager2.lock().unwrap().contains_peer(peer_id));
}

#[test]
fn broadcast_message_stamps_sender_and_skips_it() {
    let mut manager: PeerManager<u8> = PeerManager::new();
    let a = 1u128;
    let b = 2u128;
    let c = 3u128;
    let _: Delivery<String, String> = manager.add_peer(a, 0);
    let _: Delivery<String, String> = manager.add_peer(b, 0);
    let _: Delivery<String, String> = manager.add_peer(c, 0);

    let from_client: Msg = RoutedSignallingMessage {
        routing: Routing::Broadcast,
        message: SignallingMessage::Offer { sdp: "v=0".to_string() },
    };
    let d = manager.broadcast_message(b, from_client);
    assert_eq!(sorted(d.recipients.clone()), vec![a, c]);
    assert!(is_broadcast_from(&d.message.routing, b));
    match d.message.message {
        SignallingMessage::Offer { sdp } => assert_eq!(sdp, "v=0"),
        _ => panic!("Expected the offer to be relayed unchanged"),
    }

    let direct: Msg = RoutedSignallingMessage {
        routing: Routing::To(c),
        message: SignallingMessage::ICECandidate { candidate: "cand".to_string() },
    };
    let d = manager.broadcast_message(a, direct);
    assert_eq!(d.recipients, vec![c]);
    assert!(matches!(&d.message.routing, Routing::From(inner, from) if matches!(**inner, Routing::To(t) if t == c) && *from == a));
}

#[test]
fn sender_gives_the_channel_of_a_connected_peer() {
    let mut manager: PeerManager<&str> = PeerManager::new();
    let _: Delivery<String, String> = manager.add_peer(7, "seven");
    assert_eq!(manager.sender(7), Some(&"seven"));
    assert_eq!(manager.sender(8), None);
    // Registering the same peer again replaces its channel.
    let again: Delivery<String, String> = manager.add_peer(7, "again");
    assert!(again.recipients.is_empty());
    assert_eq!(manager.sender(7), Some(&"again"));
    assert_eq!(manager.len(), 1);
}
