//! Translation of the engine's internal event vocabulary into the public
//! one.
//!
//! The event-pull API loops: it asks the engine for its next internal
//! event, feeds it to [`translate_engine_event`], and either returns the
//! public event, answers an identity request inline, or polls again.

use vstd::prelude::*;

verus! {

/// Identity of a remote peer, as the opaque bytes of its identifier.
pub struct PeerId {
    pub bytes: Vec<u8>,
}

/// An event as the engine reports it, reduced to what this layer reads.
pub enum EngineEvent {
    /// A transport-level connection was established. Not visible publicly.
    Connected { peer_id: PeerId },
    /// A peer disconnected from the chains listed. The engine is assumed
    /// never to name more than one chain at once; if it ever did, only the
    /// first would be reported.
    Disconnected { peer_id: PeerId, chain_indices: Vec<usize> },
    /// A peer announced a new block; the announce payload is kept opaque.
    BlockAnnounce { chain_index: usize, peer_id: PeerId, announce: Vec<u8> },
    /// A peer joined a chain.
    ChainConnected { chain_index: usize, peer_id: PeerId, best_number: u64 },
    /// A peer left a chain.
    ChainDisconnected { chain_index: usize, peer_id: PeerId },
    /// A peer asked who we are; answered inline with the agent name.
    IdentifyRequestIn { peer_id: PeerId },
}

/// Public notification returned by the event-pull API.
pub enum Event {
    Connected { chain_index: usize, peer_id: PeerId, best_block_number: u64 },
    Disconnected { chain_index: usize, peer_id: PeerId },
    BlockAnnounce { chain_index: usize, peer_id: PeerId, announce: Vec<u8> },
}

/// What the event-pull loop does with one engine event.
pub enum EventStep {
    /// Return this public event to the caller.
    Deliver(Event),
    /// Answer the identity request of this peer with the agent name, then
    /// poll the engine again.
    RespondIdentify { peer_id: PeerId },
    /// The event has no public equivalent: poll the engine again.
    KeepPolling,
}

/// The step that one engine event translates to.
pub open spec fn event_step_of(ev: EngineEvent) -> EventStep {
    match ev {
        EngineEvent::Connected { .. } => EventStep::KeepPolling,
        EngineEvent::Disconnected { peer_id, chain_indices } => {
            if chain_indices@.len() == 0 {
                EventStep::KeepPolling
            } else {
                EventStep::Deliver(Event::Disconnected {
                    chain_index: chain_indices@[0],
                    peer_id,
                })
            }
        },
        EngineEvent::BlockAnnounce { chain_index, peer_id, announce } => EventStep::Deliver(
            Event::BlockAnnounce { chain_index, peer_id, announce },
        ),
        EngineEvent::ChainConnected { chain_index, peer_id, best_number } => EventStep::Deliver(
            Event::Connected { chain_index, peer_id, best_block_number: best_number },
        ),
        EngineEvent::ChainDisconnected { chain_index, peer_id } => EventStep::Deliver(
            Event::Disconnected { chain_index, peer_id },
        ),
        EngineEvent::IdentifyRequestIn { peer_id } => EventStep::RespondIdentify { peer_id },
    }
}

/// Translate one engine event: deliver the public events, answer identity
/// requests, loop past everything else.
pub fn translate_engine_event(ev: EngineEvent) -> (r: EventStep)
    ensures
        r == event_step_of(ev),
{
    match ev {
        EngineEvent::Connected { peer_id: _ } => EventStep::KeepPolling,
        EngineEvent::Disconnected { peer_id, chain_indices } => {
            if chain_indices.len() == 0 {
                EventStep::KeepPolling
            } else {
                let chain_index = chain_indices[0];
                EventStep::Deliver(Event::Disconnected { chain_index, peer_id })
            }
        },
        EngineEvent::BlockAnnounce { chain_index, peer_id, announce } => EventStep::Deliver(
            Event::BlockAnnounce { chain_index, peer_id, announce },
        ),
        EngineEvent::ChainConnected { chain_index, peer_id, best_number } => EventStep::Deliver(
            Event::Connected { chain_index, peer_id, best_block_number: best_number },
        ),
        EngineEvent::ChainDisconnected { chain_index, peer_id } => EventStep::Deliver(
            Event::Disconnected { chain_index, peer_id },
        ),
        EngineEvent::IdentifyRequestIn { peer_id } => EventStep::RespondIdentify { peer_id },
    }
}

/// The agent name sent in answer to an identity request.
pub fn agent_name() -> (s: &'static str)
    ensures
        s@ == "smoldot"@,
{
    "smoldot"
}

} // verus!
