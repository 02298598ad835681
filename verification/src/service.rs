//! Construction of the network service.
//!
//! Building the service means turning its configuration into everything
//! the asynchronous shell then brings to life: the sockets to bind one
//! listener to each, the engine-wide known-peer table flattened out of the
//! per-chain bootstrap lists, and one engine chain configuration per
//! chain, carrying the fixed slot limits. A single malformed listen
//! address aborts the whole construction — no partial service.

use vstd::prelude::*;

use crate::addr::{
    AddrComponent, SocketAddress, listen_socket_addr, listen_socket_of, valid_listen_addr,
};
use crate::events::PeerId;

verus! {

/// Inbound connection slots reserved per chain.
pub const INBOUND_SLOTS_PER_CHAIN: u32 = 25;

/// Outbound connection slots reserved per chain.
pub const OUTBOUND_SLOTS_PER_CHAIN: u32 = 25;

/// Capacity of the engine's internal event buffer.
pub const EVENT_BUFFER_CAPACITY: usize = 64;

/// Seconds a listener waits after a failed accept before retrying, so a
/// persistent failure (say, file-descriptor exhaustion) does not busy-loop.
pub const ACCEPT_RETRY_COOLDOWN_SECS: u64 = 2;

/// Seconds the dial loop waits between two polls for an outbound slot.
pub const DIAL_POLL_INTERVAL_SECS: u64 = 1;

/// A known node of one chain's peer-to-peer network: its peer identity and
/// the address it can be reached at.
pub struct BootstrapNode {
    pub peer_id: PeerId,
    pub addr: Vec<AddrComponent>,
}

/// Configuration for one chain.
pub struct ChainConfig {
    /// Nodes known to belong to the chain's network.
    pub bootstrap_nodes: Vec<BootstrapNode>,
    /// Hash of the genesis block, exchanged to check that chains match.
    pub genesis_block_hash: [u8; 32],
    /// Number and hash of the current best block.
    pub best_block: (u64, [u8; 32]),
    /// Identifier of the chain, to keep networking messages of different
    /// chains apart.
    pub protocol_id: String,
    /// Whether the chain uses the gossip-extension protocol.
    pub has_grandpa_protocol: bool,
}

/// Configuration of the whole service.
pub struct Config {
    /// Addresses to listen on for incoming connections.
    pub listen_addresses: Vec<Vec<AddrComponent>>,
    /// Chains to join.
    pub chains: Vec<ChainConfig>,
    /// Static key of the encryption layer.
    pub noise_key: [u8; 32],
}

/// Error when initializing the network service.
#[derive(Debug)]
pub enum InitError {
    /// I/O error when binding the listener for this address.
    ListenerIo(Vec<AddrComponent>),
    /// A listening address passed through the configuration is not valid.
    BadListenMultiaddr(Vec<AddrComponent>),
}

/// One chain as the engine is configured with it.
pub struct EngineChainConfig {
    /// Indices into the engine-wide known-peer table of this chain's
    /// bootstrap nodes.
    pub bootstrap_nodes: Vec<usize>,
    pub in_slots: u32,
    pub out_slots: u32,
    pub protocol_id: String,
    pub best_hash: [u8; 32],
    pub best_number: u64,
    pub genesis_hash: [u8; 32],
    pub has_grandpa_protocol: bool,
}

/// Everything the shell needs to bring the service up: bind one listener
/// per socket, hand the engine its chains, known-peer table, event-buffer
/// capacity, key and seed, then spawn the background tasks.
pub struct ServicePlan {
    /// One bindable socket per configured listen address, in order.
    pub listen_sockets: Vec<SocketAddress>,
    /// The engine-wide known-peer table: every chain's bootstrap nodes,
    /// flattened in chain order.
    pub known_nodes: Vec<BootstrapNode>,
    /// One engine configuration per chain, in order.
    pub chains: Vec<EngineChainConfig>,
    pub event_buffer_capacity: usize,
    pub noise_key: [u8; 32],
    pub randomness_seed: [u8; 32],
}

/// The known-peer table that the first `i` chains flatten to: their
/// bootstrap-node lists, concatenated in chain order.
pub open spec fn flat_bootstrap(chains: Seq<ChainConfig>, i: int) -> Seq<BootstrapNode>
    decreases i,
{
    if i <= 0 {
        Seq::empty()
    } else {
        flat_bootstrap(chains, i - 1) + chains[i - 1].bootstrap_nodes@
    }
}

/// Every listen address of the list is well formed.
pub open spec fn all_listen_addrs_valid(listens: Seq<Vec<AddrComponent>>) -> bool {
    forall|i: int| 0 <= i < listens.len() ==> valid_listen_addr(#[trigger] listens[i]@)
}

/// `i` is the first index whose listen address is malformed.
pub open spec fn first_invalid_listen(listens: Seq<Vec<AddrComponent>>, i: int) -> bool {
    &&& 0 <= i < listens.len()
    &&& !valid_listen_addr(listens[i]@)
    &&& forall|j: int| 0 <= j < i ==> valid_listen_addr(#[trigger] listens[j]@)
}

/// The engine chain configuration carries the chain's own parameters, the
/// fixed slot limits, and, as its bootstrap nodes, the run of known-node
/// indices starting at `offset`.
pub open spec fn chain_entry_matches(
    entry: EngineChainConfig,
    chain: ChainConfig,
    offset: int,
) -> bool {
    &&& entry.in_slots == INBOUND_SLOTS_PER_CHAIN
    &&& entry.out_slots == OUTBOUND_SLOTS_PER_CHAIN
    &&& entry.protocol_id == chain.protocol_id
    &&& entry.genesis_hash == chain.genesis_block_hash
    &&& entry.best_number == chain.best_block.0
    &&& entry.best_hash == chain.best_block.1
    &&& entry.has_grandpa_protocol == chain.has_grandpa_protocol
    &&& entry.bootstrap_nodes@.len() == chain.bootstrap_nodes@.len()
    &&& forall|j: int|
        0 <= j < chain.bootstrap_nodes@.len() ==> #[trigger] entry.bootstrap_nodes@[j] == offset
            + j
}

/// Relies on `rand::random`: draws the engine's randomness seed. The
/// result is random, so nothing is promised of it.
#[verifier::external_body]
fn random_seed() -> [u8; 32] {
    rand::random()
}

/// Build the plan of the service from its configuration.
///
/// Fails with `BadListenMultiaddr`, carrying the first offending address,
/// as soon as one listen address is malformed; succeeds on every
/// configuration whose listen addresses are all well formed. On success
/// the plan maps each listen address to its socket, flattens all chains'
/// bootstrap nodes into one known-peer table — each chain's engine
/// configuration pointing at its own contiguous run of indices — and fixes
/// the slot limits and the event-buffer capacity.
#[verifier::loop_isolation(false)]
pub fn plan_service(config: Config) -> (r: Result<ServicePlan, InitError>)
    ensures
        r is Ok <==> all_listen_addrs_valid(config.listen_addresses@),
        r matches Err(e) ==> ({
            &&& e matches InitError::BadListenMultiaddr(a)
            &&& exists|i: int|
                #[trigger] first_invalid_listen(config.listen_addresses@, i) && a
                    == config.listen_addresses@[i]
        }),
        r matches Ok(plan) ==> ({
            &&& plan.listen_sockets@.len() == config.listen_addresses@.len()
            &&& forall|i: int|
                0 <= i < config.listen_addresses@.len() ==> #[trigger] plan.listen_sockets@[i]
                    == listen_socket_of(config.listen_addresses@[i]@)
            &&& plan.known_nodes@ == flat_bootstrap(
                config.chains@,
                config.chains@.len() as int,
            )
            &&& plan.chains@.len() == config.chains@.len()
            &&& forall|i: int|
                0 <= i < config.chains@.len() ==> chain_entry_matches(
                    #[trigger] plan.chains@[i],
                    config.chains@[i],
                    flat_bootstrap(config.chains@, i).len() as int,
                )
            &&& plan.event_buffer_capacity == EVENT_BUFFER_CAPACITY
            &&& plan.noise_key == config.noise_key
        }),
{
    let mut config = config;
    let ghost listens = config.listen_addresses@;
    let ghost chains0 = config.chains@;
    let ghost nk0 = config.noise_key;

    let mut listen_sockets: Vec<SocketAddress> = Vec::new();
    let mut i: usize = 0;
    while i < config.listen_addresses.len()
        invariant
            i <= listens.len(),
            config.listen_addresses@ == listens,
            config.chains@ == chains0,
            config.noise_key == nk0,
            listen_sockets@.len() == i,
            forall|k: int| 0 <= k < i ==> valid_listen_addr(#[trigger] listens[k]@),
            forall|k: int|
                0 <= k < i ==> #[trigger] listen_sockets@[k] == listen_socket_of(listens[k]@),
        decreases listens.len() - i,
    {
        match listen_socket_addr(&config.listen_addresses[i]) {
            Some(s) => {
                listen_sockets.push(s);
            },
            None => {
                proof {
                    assert(first_invalid_listen(listens, i as int));
                    assert(!all_listen_addrs_valid(listens)) by {
                        assert(0 <= (i as int) && (i as int) < listens.len());
                        assert(!valid_listen_addr(listens[i as int]@));
                    }
                }
                let a = config.listen_addresses.remove(i);
                assert(a == listens[i as int]);
                return Err(InitError::BadListenMultiaddr(a));
            },
        }
        i = i + 1;
    }

    let mut known_nodes: Vec<BootstrapNode> = Vec::new();
    let mut chains: Vec<EngineChainConfig> = Vec::new();
    while config.chains.len() > 0
        invariant
            config.noise_key == nk0,
            chains@.len() + config.chains@.len() == chains0.len(),
            config.chains@ == chains0.subrange(chains@.len() as int, chains0.len() as int),
            known_nodes@ == flat_bootstrap(chains0, chains@.len() as int),
            forall|k: int|
                0 <= k < chains@.len() ==> chain_entry_matches(
                    #[trigger] chains@[k],
                    chains0[k],
                    flat_bootstrap(chains0, k).len() as int,
                ),
        decreases config.chains.len(),
    {
        let ghost ci = chains@.len() as int;
        let chain = config.chains.remove(0);
        proof {
            assert(chain == chains0[ci]);
            assert(config.chains@ =~= chains0.subrange(ci + 1, chains0.len() as int));
        }
        let ChainConfig {
            bootstrap_nodes: mut boots_in,
            genesis_block_hash,
            best_block,
            protocol_id,
            has_grandpa_protocol,
        } = chain;
        let ghost bn0 = boots_in@;
        let ghost off = known_nodes@.len() as int;
        let mut bootstrap_nodes: Vec<usize> = Vec::new();
        while boots_in.len() > 0
            invariant
                bootstrap_nodes@.len() + boots_in@.len() == bn0.len(),
                boots_in@ == bn0.subrange(bootstrap_nodes@.len() as int, bn0.len() as int),
                off == flat_bootstrap(chains0, ci).len(),
                known_nodes@ == flat_bootstrap(chains0, ci) + bn0.subrange(
                    0,
                    bootstrap_nodes@.len() as int,
                ),
                forall|j: int|
                    0 <= j < bootstrap_nodes@.len() ==> #[trigger] bootstrap_nodes@[j] == off + j,
            decreases boots_in.len(),
        {
            let ghost done = bootstrap_nodes@.len() as int;
            let node = boots_in.remove(0);
            proof {
                assert(node == bn0[done]);
                assert(boots_in@ =~= bn0.subrange(done + 1, bn0.len() as int));
                assert(known_nodes@.push(node) =~= flat_bootstrap(chains0, ci) + bn0.subrange(
                    0,
                    done + 1,
                ));
            }
            bootstrap_nodes.push(known_nodes.len());
            known_nodes.push(node);
        }
        proof {
            assert(bn0.subrange(0, bn0.len() as int) =~= bn0);
            assert(flat_bootstrap(chains0, ci + 1) == flat_bootstrap(chains0, ci)
                + chains0[ci].bootstrap_nodes@);
        }
        chains.push(
            EngineChainConfig {
                bootstrap_nodes,
                in_slots: INBOUND_SLOTS_PER_CHAIN,
                out_slots: OUTBOUND_SLOTS_PER_CHAIN,
                protocol_id,
                best_hash: best_block.1,
                best_number: best_block.0,
                genesis_hash: genesis_block_hash,
                has_grandpa_protocol,
            },
        );
    }

    Ok(
        ServicePlan {
            listen_sockets,
            known_nodes,
            chains,
            event_buffer_capacity: EVENT_BUFFER_CAPACITY,
            noise_key: config.noise_key,
            randomness_seed: random_seed(),
        },
    )
}

} // verus!
