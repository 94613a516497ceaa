use iroh_ffi::{
    prepare_subscribe, BridgeAction, BridgePoll, CallbackError, EventBridge, GossipEvent,
    GossipMessageCallback, IrohError, Message, MessageType, SendScope, Sender,
};

// The ed25519 base point, a valid endpoint identifier in hex form.
const VALID_PEER: &str = "5866666666666666666666666666666666666666666666666666666666666666";

#[test]
fn test_message_accessors() {
    let up = Message::NeighborUp("a".to_string());
    assert!(matches!(up.kind(), MessageType::NeighborUp));
    assert_eq!(up.as_neighbor_up(), "a");

    let down = Message::NeighborDown("b".to_string());
    assert!(matches!(down.kind(), MessageType::NeighborDown));
    assert_eq!(down.as_neighbor_down(), "b");

    let received = Message::Received {
        content: b"hi".to_vec(),
        delivered_from: "c".to_string(),
    };
    assert!(matches!(received.kind(), MessageType::Received));
    let content = received.as_received();
    assert_eq!(content.content, b"hi".to_vec());
    assert_eq!(content.delivered_from, "c");

    assert!(matches!(Message::Lagged.kind(), MessageType::Lagged));

    let err = Message::Error("boom".to_string());
    assert!(matches!(err.kind(), MessageType::Error));
    assert_eq!(err.as_error(), "boom");
}

#[test]
fn test_subscribe_rejects_short_topic() {
    for len in [0usize, 31, 33] {
        let topic = vec![1u8; len];
        let got = prepare_subscribe(topic, &vec![]);
        assert_eq!(got, Err(IrohError::InvalidTopic));
    }
}

#[test]
fn test_subscribe_accepts_valid_topic_and_bootstrap() {
    let topic = vec![1u8; 32];
    let bootstrap = vec![VALID_PEER.to_string()];
    let req = prepare_subscribe(topic.clone(), &bootstrap).unwrap();
    assert_eq!(req.topic, topic);
    assert_eq!(req.bootstrap.len(), 1);
    // The parsed bytes are the real key bytes, not the input string.
    let expected: iroh::PublicKey = VALID_PEER.parse().unwrap();
    assert_eq!(req.bootstrap[0], expected.as_bytes().to_vec());
}

#[test]
fn test_subscribe_rejects_bad_bootstrap() {
    let topic = vec![1u8; 32];
    for bad in ["", "zz", "not a key", "58666666"] {
        let got = prepare_subscribe(topic.clone(), &vec![bad.to_string()]);
        assert_eq!(got, Err(IrohError::InvalidPeerId));
    }
    // The topic check comes first.
    let got = prepare_subscribe(vec![], &vec!["zz".to_string()]);
    assert_eq!(got, Err(IrohError::InvalidTopic));
}

fn event(n: u8) -> BridgePoll {
    BridgePoll::Event(GossipEvent::Received {
        content: vec![n],
        delivered_from: "peer".to_string(),
    })
}

fn delivered(action: BridgeAction) -> Message {
    match action {
        BridgeAction::Deliver(m) => m,
        BridgeAction::Stop => panic!("expected a delivery"),
    }
}

#[test]
fn test_bridge_delivers_in_order() {
    let mut bridge = EventBridge::start();
    let mut seen: Vec<Message> = Vec::new();
    for n in [1u8, 2, 3] {
        let action = bridge.step(event(n));
        let m = delivered(action);
        seen.push(m.clone());
        bridge.note_delivery(&Ok(()));
    }
    assert_eq!(seen.len(), 3);
    for (i, n) in [1u8, 2, 3].iter().enumerate() {
        let content = seen[i].as_received();
        assert_eq!(content.content, vec![*n]);
        assert_eq!(content.delivered_from, "peer");
    }
    assert!(bridge.running);
}

#[test]
fn test_bridge_survives_callback_failure() {
    let mut bridge = EventBridge::start();

    let first = delivered(bridge.step(event(1)));
    bridge.note_delivery(&Ok(()));
    assert_eq!(first.as_received().content, vec![1]);

    // The callback fails on the second delivery...
    let second = delivered(bridge.step(event(2)));
    bridge.note_delivery(&Err(CallbackError { message: "cb refused".to_string() }));
    assert_eq!(second.as_received().content, vec![2]);
    assert!(bridge.running);

    // ...and the third event is still delivered.
    let third = delivered(bridge.step(event(3)));
    assert_eq!(third.as_received().content, vec![3]);
}

#[test]
fn test_bridge_stops_on_cancellation() {
    let mut bridge = EventBridge::start();
    let first = delivered(bridge.step(event(1)));
    bridge.note_delivery(&Ok(()));
    assert_eq!(first.as_received().content, vec![1]);

    // Cancellation wins the race; buffered events are never delivered.
    let action = bridge.step(BridgePoll::Cancelled);
    assert!(matches!(action, BridgeAction::Stop));
    assert!(!bridge.running);
}

#[test]
fn test_bridge_stops_on_stream_end() {
    let mut bridge = EventBridge::start();
    let action = bridge.step(BridgePoll::StreamEnd);
    assert!(matches!(action, BridgeAction::Stop));
    assert!(!bridge.running);
}

#[test]
fn test_bridge_delivers_stream_error_as_message() {
    let mut bridge = EventBridge::start();
    let m = delivered(bridge.step(BridgePoll::StreamError("conn reset".to_string())));
    assert_eq!(m.as_error(), "conn reset");
    assert!(bridge.running);
}

#[test]
fn test_sender_fails_after_cancel() {
    let mut sender = Sender::new();
    assert!(!sender.is_cancelled());

    let cmd = sender.broadcast(b"hello".to_vec()).unwrap();
    assert!(matches!(cmd.scope, SendScope::Swarm));
    assert_eq!(cmd.payload, b"hello".to_vec());

    let cmd = sender.broadcast_neighbors(b"hi".to_vec()).unwrap();
    assert!(matches!(cmd.scope, SendScope::Neighbors));
    assert_eq!(cmd.payload, b"hi".to_vec());

    sender.cancel().unwrap();
    assert!(sender.is_cancelled());
    assert_eq!(sender.broadcast(b"hello".to_vec()), Err(IrohError::AlreadyCancelled));
    assert_eq!(
        sender.broadcast_neighbors(b"hello".to_vec()),
        Err(IrohError::AlreadyCancelled)
    );
    // A second cancel fails instead of silently doing nothing.
    assert_eq!(sender.cancel(), Err(IrohError::AlreadyCancelled));
}

struct Recorder {
    name: &'static str,
    seen: Vec<Message>,
}

impl GossipMessageCallback for Recorder {
    fn on_message(&mut self, msg: &Message) -> Result<(), CallbackError> {
        println!("{} << {:?}", self.name, msg);
        self.seen.push(msg.clone());
        Ok(())
    }
}

struct FailingRecorder {
    seen: Vec<Message>,
}

impl GossipMessageCallback for FailingRecorder {
    fn on_message(&mut self, msg: &Message) -> Result<(), CallbackError> {
        self.seen.push(msg.clone());
        Err(CallbackError { message: "cb always refuses".to_string() })
    }
}

#[test]
fn test_bridge_pump_stops_at_cancellation() {
    let mut bridge = EventBridge::start();
    let mut cb = Recorder { name: "pump", seen: Vec::new() };
    let polls = vec![event(1), event(2), BridgePoll::Cancelled, event(3)];
    let delivered = bridge.pump(polls, &mut cb);
    assert_eq!(delivered.len(), 2);
    assert_eq!(cb.seen.len(), 2);
    assert!(!bridge.running);
    assert_eq!(delivered[0].as_received().content, vec![1]);
    assert_eq!(delivered[1].as_received().content, vec![2]);
}

#[test]
fn test_bridge_pump_ignores_callback_verdicts() {
    let mut bridge = EventBridge::start();
    let mut cb = FailingRecorder { seen: Vec::new() };
    let delivered = bridge.pump(vec![event(1), event(2), event(3)], &mut cb);
    assert_eq!(delivered.len(), 3);
    assert_eq!(cb.seen.len(), 3);
    assert!(bridge.running);
    assert_eq!(delivered[2].as_received().content, vec![3]);
}

#[test]
fn test_gossip_two_peer_exchange_model() {
    // Two peers on one topic: a subscribes with no bootstrap, b with a
    // as bootstrap; once a sees b as a neighbor it broadcasts, and b
    // observes exactly one delivery of that payload from a.
    let peer_a = VALID_PEER.to_string();
    let topic = vec![7u8; 32];

    let req_a = prepare_subscribe(topic.clone(), &vec![]).unwrap();
    assert!(req_a.bootstrap.is_empty());
    let req_b = prepare_subscribe(topic.clone(), &vec![peer_a.clone()]).unwrap();
    assert_eq!(req_b.bootstrap.len(), 1);

    let sender_a = Sender::new();
    let mut bridge_a = EventBridge::start();
    let mut bridge_b = EventBridge::start();
    let mut cb_a = Recorder { name: "a", seen: Vec::new() };
    let mut cb_b = Recorder { name: "b", seen: Vec::new() };

    // a observes b joining.
    let action = bridge_a.step(BridgePoll::Event(GossipEvent::NeighborUp("b".to_string())));
    let m = delivered(action);
    bridge_a.note_delivery(&cb_a.on_message(&m));
    assert!(matches!(cb_a.seen[0].kind(), MessageType::NeighborUp));

    // a broadcasts; the command carries the payload to the swarm.
    let cmd = sender_a.broadcast(b"hello".to_vec()).unwrap();
    assert!(matches!(cmd.scope, SendScope::Swarm));

    // b's stream yields the delivery, and the callback sees it once.
    let action = bridge_b.step(BridgePoll::Event(GossipEvent::Received {
        content: cmd.payload.clone(),
        delivered_from: peer_a.clone(),
    }));
    let m = delivered(action);
    bridge_b.note_delivery(&cb_b.on_message(&m));

    assert_eq!(cb_b.seen.len(), 1);
    let got = cb_b.seen[0].as_received();
    assert_eq!(got.content, b"hello".to_vec());
    assert_eq!(got.delivered_from, peer_a);
}
