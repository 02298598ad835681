use network_service::events::{
    agent_name, translate_engine_event, EngineEvent, Event, EventStep, PeerId,
};

fn peer(bytes: &[u8]) -> PeerId {
    PeerId { bytes: bytes.to_vec() }
}

#[test]
fn transport_level_connection_is_not_public() {
    let step = translate_engine_event(EngineEvent::Connected { peer_id: peer(b"p") });
    assert!(matches!(step, EventStep::KeepPolling));
}

#[test]
fn chain_connected_becomes_public_connected() {
    let step = translate_engine_event(EngineEvent::ChainConnected {
        chain_index: 3,
        peer_id: peer(b"p"),
        best_number: 1234,
    });
    match step {
        EventStep::Deliver(Event::Connected { chain_index, peer_id, best_block_number }) => {
            assert_eq!(chain_index, 3);
            assert_eq!(peer_id.bytes, b"p");
            assert_eq!(best_block_number, 1234);
        }
        _ => panic!("expected a public connected event"),
    }
}

#[test]
fn chain_disconnected_becomes_public_disconnected() {
    let step = translate_engine_event(EngineEvent::ChainDisconnected {
        chain_index: 1,
        peer_id: peer(b"q"),
    });
    match step {
        EventStep::Deliver(Event::Disconnected { chain_index, peer_id }) => {
            assert_eq!(chain_index, 1);
            assert_eq!(peer_id.bytes, b"q");
        }
        _ => panic!("expected a public disconnected event"),
    }
}

#[test]
fn disconnect_without_chains_is_not_public() {
    let step = translate_engine_event(EngineEvent::Disconnected {
        peer_id: peer(b"q"),
        chain_indices: vec![],
    });
    assert!(matches!(step, EventStep::KeepPolling));
}

#[test]
fn disconnect_with_a_chain_names_the_first() {
    let step = translate_engine_event(EngineEvent::Disconnected {
        peer_id: peer(b"q"),
        chain_indices: vec![2],
    });
    match step {
        EventStep::Deliver(Event::Disconnected { chain_index, peer_id }) => {
            assert_eq!(chain_index, 2);
            assert_eq!(peer_id.bytes, b"q");
        }
        _ => panic!("expected a public disconnected event"),
    }
}

#[test]
fn block_announce_is_delivered_with_its_payload() {
    let step = translate_engine_event(EngineEvent::BlockAnnounce {
        chain_index: 0,
        peer_id: peer(b"r"),
        announce: vec![1, 2, 3],
    });
    match step {
        EventStep::Deliver(Event::BlockAnnounce { chain_index, peer_id, announce }) => {
            assert_eq!(chain_index, 0);
            assert_eq!(peer_id.bytes, b"r");
            assert_eq!(announce, vec![1, 2, 3]);
        }
        _ => panic!("expected a public block-announce event"),
    }
}

#[test]
fn identify_request_is_answered_inline() {
    let step = translate_engine_event(EngineEvent::IdentifyRequestIn { peer_id: peer(b"s") });
    match step {
        EventStep::RespondIdentify { peer_id } => assert_eq!(peer_id.bytes, b"s"),
        _ => panic!("an identify request is answered, not delivered"),
    }
    assert_eq!(agent_name(), "smoldot");
}
