use screencast::capture::Frame;
use screencast::codecs::{
    decoder_step, scaler_needs_rebuild, CodecErrors, DecoderAction, DecoderEvent, EncoderPacing,
    ReceiveOutcome, RtpNalBuffer, ScalerGeometry, SendOutcome,
};
use screencast::errors::{signalling_send_result, NetworkErrors, SendAttempt, TransportErrors};
use screencast::gui::{frame_is_displayable, EventEffect, GUIState, StreamCommand, WebrtcEvents};
use screencast::peers::{Delivery, PeerManager};
use screencast::model::{add_from, RoutedSignallingMessage, Routing, SignallingMessage};
use screencast::reconnect::{keep_reading, next_retry_delay, WsFrame, INITIAL_RETRY_DELAY_MS};
use screencast::signalling::{PeersState, Reaction, State};

type Msg = RoutedSignallingMessage<String, String>;

fn relayed(inner: Routing, from: u128, message: SignallingMessage<String, String>) -> Msg {
    RoutedSignallingMessage { routing: add_from(inner, from), message }
}

fn answer(from: u128) -> Msg {
    relayed(Routing::To(0), from, SignallingMessage::Answer { sdp: format!("answer {from}") })
}

#[test]
fn broadcast_new_peer_is_answered_directly() {
    let mut st: PeersState<&str, ()> = PeersState::new();
    match st.handle_signalling_message(relayed(Routing::Broadcast, 5, SignallingMessage::NewPeer)) {
        Reaction::ConnectPeer { peer, reply: Some(reply) } => {
            assert_eq!(peer, 5);
            assert!(matches!(reply.routing, Routing::To(5)));
            assert!(matches!(reply.message, SignallingMessage::NewPeer));
        }
        other => panic!("unexpected {other:?}"),
    }
    match st.handle_signalling_message(relayed(Routing::To(1), 6, SignallingMessage::NewPeer)) {
        Reaction::ConnectPeer { peer: 6, reply: None } => {}
        other => panic!("unexpected {other:?}"),
    }
    // Registering happens once the connection exists.
    assert!(st.peer(5).is_none());
    st.insert_peer(5, "conn5");
    assert_eq!(st.peer(5), Some(&"conn5"));
}

#[test]
fn offers_and_candidates_need_a_connection() {
    let mut st: PeersState<&str, ()> = PeersState::new();
    st.insert_peer(3, "conn3");
    match st.handle_signalling_message(relayed(Routing::To(0), 3, SignallingMessage::Offer { sdp: "o".into() })) {
        Reaction::AnswerOffer { peer: 3, offer } => assert_eq!(offer, "o"),
        other => panic!("unexpected {other:?}"),
    }
    match st.handle_signalling_message(relayed(Routing::To(0), 4, SignallingMessage::Offer { sdp: "o".into() })) {
        Reaction::UnknownPeer { peer: 4, gathered: false } => {}
        other => panic!("unexpected {other:?}"),
    }
    match st.handle_signalling_message(relayed(Routing::To(0), 3, SignallingMessage::ICECandidate { candidate: "c".into() })) {
        Reaction::AddIceCandidate { peer: 3, candidate } => assert_eq!(candidate, "c"),
        other => panic!("unexpected {other:?}"),
    }
    match st.handle_signalling_message(relayed(Routing::Broadcast, 3, SignallingMessage::PeerLeft)) {
        Reaction::PeerRemoved { peer: 3 } => {}
        other => panic!("unexpected {other:?}"),
    }
    assert!(st.peer(3).is_none());
    match st.handle_signalling_message(relayed(Routing::To(0), 3, SignallingMessage::ICECandidate { candidate: "c".into() })) {
        Reaction::UnknownPeer { peer: 3, gathered: false } => {}
        other => panic!("unexpected {other:?}"),
    }
}

#[test]
fn gathering_announced_at_last_answer() {
    let mut st: PeersState<&str, &str> = PeersState::new();
    st.insert_peer(1, "a");
    st.insert_peer(2, "b");
    st.subscribe("gui");
    let mut offered = st.begin_gathering();
    offered.sort();
    assert_eq!(offered, vec![1, 2]);
    assert_eq!(st.current_state(), State::GatheringAnswers(2));

    match st.handle_signalling_message(answer(1)) {
        Reaction::ApplyAnswer { peer: 1, gathered: false, .. } => {}
        other => panic!("unexpected {other:?}"),
    }
    assert_eq!(st.current_state(), State::GatheringAnswers(1));
    match st.handle_signalling_message(answer(2)) {
        Reaction::ApplyAnswer { peer: 2, gathered: true, answer } => assert_eq!(answer, "answer 2"),
        other => panic!("unexpected {other:?}"),
    }
    assert_eq!(st.current_state(), State::Idle);
    match st.handle_signalling_message(answer(2)) {
        Reaction::ApplyAnswer { gathered: false, .. } => {}
        other => panic!("unexpected {other:?}"),
    }
    assert_eq!(st.current_state(), State::Idle);
}

#[test]
fn gathering_without_subscriber_is_not_announced() {
    let mut st: PeersState<&str, &str> = PeersState::new();
    st.insert_peer(1, "a");
    st.begin_gathering();
    match st.handle_signalling_message(answer(9)) {
        Reaction::UnknownPeer { peer: 9, gathered: false } => {}
        other => panic!("unexpected {other:?}"),
    }
    assert_eq!(st.current_state(), State::GatheringAnswers(1));
    assert!(st.events_tx().is_none());
}

#[test]
fn transport_drops_answer_when_event_undelivered() {
    let mut st: PeersState<&str, ()> = PeersState::new();
    st.insert_peer(1, "a");
    st.begin_gathering();
    assert!(st.gathered_event_due());
    match st.handle_transport_message(answer(1), false) {
        Reaction::Abandoned => {}
        other => panic!("unexpected {other:?}"),
    }
    assert_eq!(st.current_state(), State::GatheringAnswers(1));
    match st.handle_transport_message(answer(1), true) {
        Reaction::ApplyAnswer { peer: 1, gathered: false, .. } => {}
        other => panic!("unexpected {other:?}"),
    }
    assert_eq!(st.current_state(), State::Idle);
    assert!(!st.gathered_event_due());
}

#[test]
fn retry_delay_doubles_up_to_two_seconds() {
    let mut d = INITIAL_RETRY_DELAY_MS;
    let mut seen = vec![d];
    for _ in 0..6 {
        d = next_retry_delay(d);
        seen.push(d);
    }
    assert_eq!(seen, vec![100, 200, 400, 800, 1600, 2000, 2000]);
    assert_eq!(next_retry_delay(999), 1998);
    assert_eq!(next_retry_delay(u64::MAX), 2000);
}

#[test]
fn close_or_error_ends_the_connection() {
    assert!(keep_reading(WsFrame::Text));
    assert!(keep_reading(WsFrame::Other));
    assert!(!keep_reading(WsFrame::Close));
    assert!(!keep_reading(WsFrame::Error));
}

#[test]
fn gui_follows_network_events() {
    let mut state: GUIState<u8> = GUIState::Idle;
    assert_eq!(state.toggle_command(), Some(StreamCommand::Start));
    assert!(matches!(state.handle_event::<u8>(WebrtcEvents::GatheredAnswers), EventEffect::StartSending));
    assert!(matches!(state, GUIState::Streaming));
    assert_eq!(state.toggle_command(), Some(StreamCommand::Stop));
    assert!(matches!(state.handle_event(WebrtcEvents::TrackArrived(42u32)), EventEffect::StartDecoding(42)));
    state.watch(7);
    assert!(matches!(state, GUIState::Watching(7)));
    assert_eq!(state.toggle_command(), None);
    assert!(matches!(state.handle_event::<u8>(WebrtcEvents::TrackRemoved), EventEffect::CancelSending));
    assert!(matches!(state, GUIState::Idle));
}

#[test]
fn event_names() {
    assert_eq!(WebrtcEvents::<u8>::GatheredAnswers.name(), "GatheredAnswers");
    assert_eq!(WebrtcEvents::TrackArrived(1u8).name(), "TrackArrived");
    assert_eq!(WebrtcEvents::<u8>::TrackRemoved.name(), "TrackRemoved");
}

#[test]
fn empty_frames_are_not_shown() {
    assert!(!frame_is_displayable(&Frame { width: 0, height: 720, data: vec![] }));
    assert!(!frame_is_displayable(&Frame { width: 1080, height: 0, data: vec![] }));
    assert!(frame_is_displayable(&Frame { width: 1, height: 1, data: vec![0; 4] }));
}

#[test]
fn scaler_rebuilt_only_when_dimensions_change() {
    let g = ScalerGeometry { in_width: 640, in_height: 480, out_width: 1080, out_height: 720 };
    assert!(scaler_needs_rebuild(None, g));
    assert!(!scaler_needs_rebuild(Some(g), g));
    let other = ScalerGeometry { in_width: 800, ..g };
    assert!(scaler_needs_rebuild(Some(other), g));
}

#[test]
fn encoder_pacing_stamps_frames_in_order() {
    let mut p = EncoderPacing::new();
    assert!(p.needs_scaler(1280, 720));
    p.scaler_built(1280, 720);
    assert!(!p.needs_scaler(1280, 720));
    assert!(p.needs_scaler(1920, 1080));
    assert_eq!(p.next_pts(), 0);
    assert_eq!(p.next_pts(), 1);
    p.scaler_failed();
    assert!(p.needs_scaler(1280, 720));
    assert_eq!(p.next_pts(), 2);
}

#[test]
fn decoder_loop_steps() {
    assert_eq!(decoder_step(DecoderEvent::Stopped), DecoderAction::Stop);
    assert_eq!(decoder_step(DecoderEvent::ChannelClosed), DecoderAction::Stop);
    assert_eq!(decoder_step(DecoderEvent::Received(0)), DecoderAction::WaitForData);
    assert_eq!(decoder_step(DecoderEvent::Received(12)), DecoderAction::SubmitPacket);
    assert_eq!(decoder_step(DecoderEvent::Sent(SendOutcome::Accepted)), DecoderAction::ReceiveFrame);
    assert_eq!(decoder_step(DecoderEvent::Sent(SendOutcome::Again)), DecoderAction::Stop);
    assert_eq!(decoder_step(DecoderEvent::Sent(SendOutcome::Failed)), DecoderAction::WaitForData);
    assert_eq!(decoder_step(DecoderEvent::Got(ReceiveOutcome::Frame)), DecoderAction::ProcessFrame);
    assert_eq!(decoder_step(DecoderEvent::Got(ReceiveOutcome::Again)), DecoderAction::WaitForData);
    assert_eq!(decoder_step(DecoderEvent::Got(ReceiveOutcome::Failed)), DecoderAction::WaitForData);
}

#[test]
fn rtp_payloads_gathered_until_decoded() {
    let mut b = RtpNalBuffer::new();
    assert_eq!(b.decode_rtp_packet(&[]), None);
    assert_eq!(b.decode_rtp_packet(&[1, 2]), Some(vec![1, 2]));
    assert_eq!(b.decode_rtp_packet(&[3]), Some(vec![1, 2, 3]));
    b.frame_decoded();
    assert_eq!(b.decode_rtp_packet(&[4]), Some(vec![4]));
}

#[test]
fn error_messages_and_send_results() {
    assert_eq!(CodecErrors::CannotDecode.message(), "Cannot decode frame");
    assert_eq!(NetworkErrors::ConnectionIsNotOpened.message(), "Connection is not openned");
    assert_eq!(NetworkErrors::SerdeError("x".into()).message(), "Failed to (de)serialize message");
    assert_eq!(TransportErrors::SendDataFailed.message(), "Failed to send data message");
    assert!(matches!(signalling_send_result(SendAttempt::NotConnected), Err(NetworkErrors::ConnectionIsNotOpened)));
    assert!(matches!(signalling_send_result(SendAttempt::SendFailed), Err(NetworkErrors::SendControlFailed)));
    assert!(matches!(signalling_send_result(SendAttempt::SerializeFailed("bad".into())), Err(NetworkErrors::SerdeError(w)) if w == "bad"));
    assert!(signalling_send_result(SendAttempt::Sent).is_ok());
}

#[test]
fn relayed_message_reaches_client_from_its_sender() {
    let mut server: PeerManager<()> = PeerManager::new();
    let _: Delivery<String, String> = server.add_peer(1, ());
    let _: Delivery<String, String> = server.add_peer(2, ());
    let offer: Msg = RoutedSignallingMessage {
        routing: Routing::To(2),
        message: SignallingMessage::Offer { sdp: "offer".into() },
    };
    let delivery = server.broadcast_message(1, offer);
    assert_eq!(delivery.recipients, vec![2]);

    let mut client: PeersState<&str, ()> = PeersState::new();
    client.insert_peer(1, "conn1");
    match client.handle_signalling_message(delivery.message) {
        Reaction::AnswerOffer { peer: 1, offer } => assert_eq!(offer, "offer"),
        other => panic!("unexpected {other:?}"),
    }
}

#[test]
fn transport_answers_count_down_to_idle() {
    let mut st: PeersState<&str, ()> = PeersState::new();
    st.insert_peer(1, "a");
    st.insert_peer(2, "b");
    st.insert_peer(3, "c");
    st.begin_gathering();
    assert_eq!(st.current_state(), State::GatheringAnswers(3));
    assert!(!st.gathered_event_due());
    st.handle_transport_message(answer(1), true);
    assert_eq!(st.current_state(), State::GatheringAnswers(2));
    st.handle_transport_message(answer(2), true);
    assert_eq!(st.current_state(), State::GatheringAnswers(1));
    assert!(st.gathered_event_due());
    match st.handle_transport_message(answer(3), true) {
        Reaction::ApplyAnswer { peer: 3, .. } => {}
        other => panic!("unexpected {other:?}"),
    }
    assert_eq!(st.current_state(), State::Idle);
    assert!(!st.gathered_event_due());
    st.handle_transport_message(answer(3), true);
    assert_eq!(st.current_state(), State::Idle);
    let mut ids = st.peer_ids();
    ids.sort();
    assert_eq!(ids, vec![1, 2, 3]);
}
