//! From what the chains report to messages for the queue.

use crate::event::{ChainEvent, ChainEventView, Event, EventView, IbcEvent};
use crate::ids::{ChainId, Height, HostChain, LightClientKind, Preset};
use crate::relayer_msg::{RelayerMsg, RelayerMsgView};
use vstd::prelude::*;

verus! {

/// The light client that observes for the engine on a chain of kind `host`.
///
/// A chain with a beacon layer hosts the Cometbls client of its preset. A
/// Cosmos chain can host an Ethereum client of either preset; the engine
/// observes for the minimal one.
pub open spec fn spec_observer(host: HostChain) -> LightClientKind {
    match host {
        HostChain::Evm(Preset::Mainnet) => LightClientKind::CometblsMainnet,
        HostChain::Evm(Preset::Minimal) => LightClientKind::CometblsMinimal,
        HostChain::Union => LightClientKind::EthereumMinimal,
    }
}

/// The light client that observes for the engine on a chain of kind `host`.
#[verifier::when_used_as_spec(spec_observer)]
pub fn observer(host: HostChain) -> (light_client: LightClientKind)
    ensures
        light_client == spec_observer(host),
        light_client.host() == host,
{
    match host {
        HostChain::Evm(Preset::Mainnet) => LightClientKind::CometblsMainnet,
        HostChain::Evm(Preset::Minimal) => LightClientKind::CometblsMinimal,
        HostChain::Union => LightClientKind::EthereumMinimal,
    }
}

/// The message that brings an observed event into the queue.
pub open spec fn spec_ingest(host: HostChain, chain_id: crate::ids::ChainIdView, observed: ChainEventView) -> RelayerMsgView {
    RelayerMsgView::event(spec_observer(host), chain_id, EventView::Ibc(observed))
}

/// The message that brings into the queue the event `event`, observed in block
/// `block_hash` at `height` on the chain `chain_id` of kind `host`.
pub fn ingest(
    host: HostChain,
    chain_id: ChainId,
    block_hash: [u8; 32],
    height: Height,
    event: IbcEvent,
) -> (msg: RelayerMsg)
    ensures
        msg@ == spec_ingest(
            host,
            chain_id@,
            ChainEventView { block_hash: block_hash@, height, event: event@ },
        ),
{
    RelayerMsg::event(observer(host), chain_id, Event::Ibc(ChainEvent { block_hash, height, event }))
}

} // verus!
