use network_service::addr::{AddrComponent, SocketAddress};
use network_service::events::PeerId;
use network_service::service::{
    plan_service, BootstrapNode, ChainConfig, Config, InitError, ACCEPT_RETRY_COOLDOWN_SECS,
    DIAL_POLL_INTERVAL_SECS, EVENT_BUFFER_CAPACITY, INBOUND_SLOTS_PER_CHAIN,
    OUTBOUND_SLOTS_PER_CHAIN,
};

fn listen(port: u16) -> Vec<AddrComponent> {
    vec![AddrComponent::Ip4([0, 0, 0, 0]), AddrComponent::Tcp(port)]
}

fn chain(protocol_id: &str, peers: &[&[u8]]) -> ChainConfig {
    ChainConfig {
        bootstrap_nodes: peers
            .iter()
            .map(|p| BootstrapNode {
                peer_id: PeerId { bytes: p.to_vec() },
                addr: listen(30333),
            })
            .collect(),
        genesis_block_hash: [7; 32],
        best_block: (90, [9; 32]),
        protocol_id: protocol_id.to_string(),
        has_grandpa_protocol: true,
    }
}

#[test]
fn one_listen_address_one_chain_constructs() {
    let config = Config {
        listen_addresses: vec![listen(30333)],
        chains: vec![chain("dot", &[])],
        noise_key: [1; 32],
    };
    let plan = plan_service(config).expect("a well-formed configuration must construct");
    assert_eq!(plan.listen_sockets.len(), 1);
    match plan.listen_sockets[0] {
        SocketAddress::V4 { ip, port } => {
            assert_eq!(ip, [0, 0, 0, 0]);
            assert_eq!(port, 30333);
        }
        _ => panic!("expected a v4 socket"),
    }
    // No bootstrap nodes: the known-peer table starts empty, and no
    // connection is established at construction time.
    assert!(plan.known_nodes.is_empty());
    assert_eq!(plan.chains.len(), 1);
    assert_eq!(plan.chains[0].in_slots, 25);
    assert_eq!(plan.chains[0].out_slots, 25);
    assert_eq!(plan.event_buffer_capacity, 64);
    assert_eq!(plan.noise_key, [1; 32]);
}

#[test]
fn missing_transport_port_is_a_bad_listen_multiaddr() {
    let config = Config {
        listen_addresses: vec![vec![AddrComponent::Ip4([0, 0, 0, 0])]],
        chains: vec![chain("dot", &[])],
        noise_key: [1; 32],
    };
    match plan_service(config) {
        Err(InitError::BadListenMultiaddr(addr)) => {
            assert_eq!(addr.len(), 1);
            assert!(matches!(addr[0], AddrComponent::Ip4([0, 0, 0, 0])));
        }
        _ => panic!("a one-component listen address must abort construction"),
    }
}

#[test]
fn first_bad_listen_address_is_reported_and_aborts() {
    let config = Config {
        listen_addresses: vec![listen(1), vec![AddrComponent::Tcp(2)], vec![]],
        chains: vec![],
        noise_key: [0; 32],
    };
    match plan_service(config) {
        Err(InitError::BadListenMultiaddr(addr)) => {
            assert_eq!(addr.len(), 1);
            assert!(matches!(addr[0], AddrComponent::Tcp(2)));
        }
        _ => panic!("construction must fail on the first bad address"),
    }
}

#[test]
fn bootstrap_nodes_flatten_into_one_table() {
    let config = Config {
        listen_addresses: vec![],
        chains: vec![
            chain("dot", &[b"peer-a", b"peer-b"]),
            chain("ksm", &[b"peer-c"]),
            chain("rok", &[]),
        ],
        noise_key: [0; 32],
    };
    let plan = plan_service(config).expect("must construct");
    assert_eq!(plan.known_nodes.len(), 3);
    assert_eq!(plan.known_nodes[0].peer_id.bytes, b"peer-a");
    assert_eq!(plan.known_nodes[1].peer_id.bytes, b"peer-b");
    assert_eq!(plan.known_nodes[2].peer_id.bytes, b"peer-c");
    assert_eq!(plan.chains.len(), 3);
    assert_eq!(plan.chains[0].bootstrap_nodes, vec![0, 1]);
    assert_eq!(plan.chains[1].bootstrap_nodes, vec![2]);
    assert_eq!(plan.chains[2].bootstrap_nodes, Vec::<usize>::new());
    assert_eq!(plan.chains[0].protocol_id, "dot");
    assert_eq!(plan.chains[1].protocol_id, "ksm");
    assert_eq!(plan.chains[0].genesis_hash, [7; 32]);
    assert_eq!(plan.chains[0].best_number, 90);
    assert_eq!(plan.chains[0].best_hash, [9; 32]);
    assert!(plan.chains[0].has_grandpa_protocol);
}

#[test]
fn fixed_operating_parameters() {
    assert_eq!(INBOUND_SLOTS_PER_CHAIN, 25);
    assert_eq!(OUTBOUND_SLOTS_PER_CHAIN, 25);
    assert_eq!(EVENT_BUFFER_CAPACITY, 64);
    assert_eq!(ACCEPT_RETRY_COOLDOWN_SECS, 2);
    assert_eq!(DIAL_POLL_INTERVAL_SECS, 1);
}
