//! Requests for state that lives on a chain.
//!
//! A fetch is answered by a chain adapter; the answer comes back into the engine
//! as a [`crate::data::Data`] payload tagged with the same chain.

use crate::ids::{ChainId, ChainIdView, Height, Path, PathView, QueryHeight};
use vstd::prelude::*;

verus! {

/// Ask for the value stored under `path` at height `at`, with its Merkle proof.
#[derive(Debug, PartialEq, Eq)]
pub struct FetchStateProof {
    pub at: Height,
    pub path: Path,
}

/// The value of a [`FetchStateProof`] as contracts see it.
pub struct FetchStateProofView {
    pub at: Height,
    pub path: PathView,
}

impl View for FetchStateProof {
    type V = FetchStateProofView;

    open spec fn view(&self) -> FetchStateProofView {
        FetchStateProofView {
            at: self.at,
            path: self.path@,
        }
    }
}

impl Clone for FetchStateProof {
    fn clone(&self) -> (copy: FetchStateProof)
        ensures
            copy@ == self@,
    {
        FetchStateProof {
            at: self.at,
            path: self.path.clone(),
        }
    }
}

/// Ask for the acknowledgement that was written for a received packet in a given block.
#[derive(Debug, PartialEq, Eq)]
pub struct FetchPacketAcknowledgement {
    pub block_hash: [u8; 32],
    pub destination_port_id: String,
    pub destination_channel_id: String,
    pub sequence: u64,
}

/// The value of a [`FetchPacketAcknowledgement`] as contracts see it.
pub struct FetchPacketAcknowledgementView {
    pub block_hash: Seq<u8>,
    pub destination_port_id: Seq<char>,
    pub destination_channel_id: Seq<char>,
    pub sequence: u64,
}

impl View for FetchPacketAcknowledgement {
    type V = FetchPacketAcknowledgementView;

    open spec fn view(&self) -> FetchPacketAcknowledgementView {
        FetchPacketAcknowledgementView {
            block_hash: self.block_hash@,
            destination_port_id: self.destination_port_id@,
            destination_channel_id: self.destination_channel_id@,
            sequence: self.sequence,
        }
    }
}

impl Clone for FetchPacketAcknowledgement {
    fn clone(&self) -> (copy: FetchPacketAcknowledgement)
        ensures
            copy@ == self@,
    {
        FetchPacketAcknowledgement {
            block_hash: self.block_hash,
            destination_port_id: self.destination_port_id.clone(),
            destination_channel_id: self.destination_channel_id.clone(),
            sequence: self.sequence,
        }
    }
}

/// Ask for the headers that advance the counterparty's client of this chain.
///
/// `client_id` is this chain's client of the counterparty; `counterparty_client_id`
/// is the client to be updated, on `counterparty_chain_id`, from `update_from` to
/// at least `update_to`.
#[derive(Debug, PartialEq, Eq)]
pub struct FetchUpdateHeaders {
    pub client_id: String,
    pub counterparty_client_id: String,
    pub counterparty_chain_id: ChainId,
    pub update_from: Height,
    pub update_to: Height,
}

/// The value of a [`FetchUpdateHeaders`] as contracts see it.
pub struct FetchUpdateHeadersView {
    pub client_id: Seq<char>,
    pub counterparty_client_id: Seq<char>,
    pub counterparty_chain_id: ChainIdView,
    pub update_from: Height,
    pub update_to: Height,
}

impl View for FetchUpdateHeaders {
    type V = FetchUpdateHeadersView;

    open spec fn view(&self) -> FetchUpdateHeadersView {
        FetchUpdateHeadersView {
            client_id: self.client_id@,
            counterparty_client_id: self.counterparty_client_id@,
            counterparty_chain_id: self.counterparty_chain_id@,
            update_from: self.update_from,
            update_to: self.update_to,
        }
    }
}

impl Clone for FetchUpdateHeaders {
    fn clone(&self) -> (copy: FetchUpdateHeaders)
        ensures
            copy@ == self@,
    {
        FetchUpdateHeaders {
            client_id: self.client_id.clone(),
            counterparty_client_id: self.counterparty_client_id.clone(),
            counterparty_chain_id: self.counterparty_chain_id.clone(),
            update_from: self.update_from,
            update_to: self.update_to,
        }
    }
}

/// Ask the beacon node for the single light client update of a sync committee period.
#[derive(Debug, PartialEq, Eq)]
pub struct FetchLightClientUpdate {
    pub period: u64,
}

/// The value of a [`FetchLightClientUpdate`] as contracts see it.
pub struct FetchLightClientUpdateView {
    pub period: u64,
}

impl View for FetchLightClientUpdate {
    type V = FetchLightClientUpdateView;

    open spec fn view(&self) -> FetchLightClientUpdateView {
        FetchLightClientUpdateView {
            period: self.period,
        }
    }
}

impl Clone for FetchLightClientUpdate {
    fn clone(&self) -> (copy: FetchLightClientUpdate)
        ensures
            copy@ == self@,
    {
        FetchLightClientUpdate {
            period: self.period,
        }
    }
}

/// Ask the beacon node for the light client updates of the periods after `trusted_period` up to `target_period`.
#[derive(Debug, PartialEq, Eq)]
pub struct FetchLightClientUpdates {
    pub trusted_period: u64,
    pub target_period: u64,
}

/// The value of a [`FetchLightClientUpdates`] as contracts see it.
pub struct FetchLightClientUpdatesView {
    pub trusted_period: u64,
    pub target_period: u64,
}

impl View for FetchLightClientUpdates {
    type V = FetchLightClientUpdatesView;

    open spec fn view(&self) -> FetchLightClientUpdatesView {
        FetchLightClientUpdatesView {
            trusted_period: self.trusted_period,
            target_period: self.target_period,
        }
    }
}

impl Clone for FetchLightClientUpdates {
    fn clone(&self) -> (copy: FetchLightClientUpdates)
        ensures
            copy@ == self@,
    {
        FetchLightClientUpdates {
            trusted_period: self.trusted_period,
            target_period: self.target_period,
        }
    }
}

/// Ask the beacon node for the light client bootstrap of the period that holds `slot`.
#[derive(Debug, PartialEq, Eq)]
pub struct FetchBootstrap {
    pub slot: u64,
}

/// The value of a [`FetchBootstrap`] as contracts see it.
pub struct FetchBootstrapView {
    pub slot: u64,
}

impl View for FetchBootstrap {
    type V = FetchBootstrapView;

    open spec fn view(&self) -> FetchBootstrapView {
        FetchBootstrapView {
            slot: self.slot,
        }
    }
}

impl Clone for FetchBootstrap {
    fn clone(&self) -> (copy: FetchBootstrap)
        ensures
            copy@ == self@,
    {
        FetchBootstrap {
            slot: self.slot,
        }
    }
}

/// Ask the execution node for the account proof of the IBC handler at the block of beacon slot `slot`.
#[derive(Debug, PartialEq, Eq)]
pub struct FetchAccountUpdate {
    pub slot: u64,
}

/// The value of a [`FetchAccountUpdate`] as contracts see it.
pub struct FetchAccountUpdateView {
    pub slot: u64,
}

impl View for FetchAccountUpdate {
    type V = FetchAccountUpdateView;

    open spec fn view(&self) -> FetchAccountUpdateView {
        FetchAccountUpdateView {
            slot: self.slot,
        }
    }
}

impl Clone for FetchAccountUpdate {
    fn clone(&self) -> (copy: FetchAccountUpdate)
        ensures
            copy@ == self@,
    {
        FetchAccountUpdate {
            slot: self.slot,
        }
    }
}

/// Ask the beacon node for its genesis data.
#[derive(Debug, PartialEq, Eq)]
pub struct FetchBeaconGenesis {}

/// The value of a [`FetchBeaconGenesis`] as contracts see it.
pub struct FetchBeaconGenesisView {}

impl View for FetchBeaconGenesis {
    type V = FetchBeaconGenesisView;

    open spec fn view(&self) -> FetchBeaconGenesisView {
        FetchBeaconGenesisView {}
    }
}

impl Clone for FetchBeaconGenesis {
    fn clone(&self) -> (copy: FetchBeaconGenesis)
        ensures
            copy@ == self@,
    {
        FetchBeaconGenesis {}
    }
}

/// Ask the execution node for the storage proof of the commitment stored under `path`.
#[derive(Debug, PartialEq, Eq)]
pub struct GetProof {
    pub path: Path,
    pub height: Height,
}

/// The value of a [`GetProof`] as contracts see it.
pub struct GetProofView {
    pub path: PathView,
    pub height: Height,
}

impl View for GetProof {
    type V = GetProofView;

    open spec fn view(&self) -> GetProofView {
        GetProofView {
            path: self.path@,
            height: self.height,
        }
    }
}

impl Clone for GetProof {
    fn clone(&self) -> (copy: GetProof)
        ensures
            copy@ == self@,
    {
        GetProof {
            path: self.path.clone(),
            height: self.height,
        }
    }
}

/// Ask the IBC handler contract for the value stored under `path`.
#[derive(Debug, PartialEq, Eq)]
pub struct FetchIbcState {
    pub path: Path,
    pub height: Height,
}

/// The value of a [`FetchIbcState`] as contracts see it.
pub struct FetchIbcStateView {
    pub path: PathView,
    pub height: Height,
}

impl View for FetchIbcState {
    type V = FetchIbcStateView;

    open spec fn view(&self) -> FetchIbcStateView {
        FetchIbcStateView {
            path: self.path@,
            height: self.height,
        }
    }
}

impl Clone for FetchIbcState {
    fn clone(&self) -> (copy: FetchIbcState)
        ensures
            copy@ == self@,
    {
        FetchIbcState {
            path: self.path.clone(),
            height: self.height,
        }
    }
}

/// The fetches that only a chain with a beacon and an execution layer can answer.
#[derive(Debug, PartialEq, Eq)]
pub enum EvmFetchMsg {
    FetchFinalityUpdate,
    FetchLightClientUpdates(FetchLightClientUpdates),
    FetchLightClientUpdate(FetchLightClientUpdate),
    FetchBootstrap(FetchBootstrap),
    FetchAccountUpdate(FetchAccountUpdate),
    FetchBeaconGenesis(FetchBeaconGenesis),
    FetchGetProof(GetProof),
    FetchIbcState(FetchIbcState),
}

/// The value of a [`EvmFetchMsg`] as contracts see it.
pub enum EvmFetchMsgView {
    FetchFinalityUpdate,
    FetchLightClientUpdates(FetchLightClientUpdatesView),
    FetchLightClientUpdate(FetchLightClientUpdateView),
    FetchBootstrap(FetchBootstrapView),
    FetchAccountUpdate(FetchAccountUpdateView),
    FetchBeaconGenesis(FetchBeaconGenesisView),
    FetchGetProof(GetProofView),
    FetchIbcState(FetchIbcStateView),
}

impl View for EvmFetchMsg {
    type V = EvmFetchMsgView;

    open spec fn view(&self) -> EvmFetchMsgView {
        match *self {
            EvmFetchMsg::FetchFinalityUpdate => EvmFetchMsgView::FetchFinalityUpdate,
            EvmFetchMsg::FetchLightClientUpdates(x) => EvmFetchMsgView::FetchLightClientUpdates(x@),
            EvmFetchMsg::FetchLightClientUpdate(x) => EvmFetchMsgView::FetchLightClientUpdate(x@),
            EvmFetchMsg::FetchBootstrap(x) => EvmFetchMsgView::FetchBootstrap(x@),
            EvmFetchMsg::FetchAccountUpdate(x) => EvmFetchMsgView::FetchAccountUpdate(x@),
            EvmFetchMsg::FetchBeaconGenesis(x) => EvmFetchMsgView::FetchBeaconGenesis(x@),
            EvmFetchMsg::FetchGetProof(x) => EvmFetchMsgView::FetchGetProof(x@),
            EvmFetchMsg::FetchIbcState(x) => EvmFetchMsgView::FetchIbcState(x@),
        }
    }
}

impl Clone for EvmFetchMsg {
    fn clone(&self) -> (copy: EvmFetchMsg)
        ensures
            copy@ == self@,
    {
        match self {
            EvmFetchMsg::FetchFinalityUpdate => EvmFetchMsg::FetchFinalityUpdate,
            EvmFetchMsg::FetchLightClientUpdates(x) => EvmFetchMsg::FetchLightClientUpdates(x.clone()),
            EvmFetchMsg::FetchLightClientUpdate(x) => EvmFetchMsg::FetchLightClientUpdate(x.clone()),
            EvmFetchMsg::FetchBootstrap(x) => EvmFetchMsg::FetchBootstrap(x.clone()),
            EvmFetchMsg::FetchAccountUpdate(x) => EvmFetchMsg::FetchAccountUpdate(x.clone()),
            EvmFetchMsg::FetchBeaconGenesis(x) => EvmFetchMsg::FetchBeaconGenesis(x.clone()),
            EvmFetchMsg::FetchGetProof(x) => EvmFetchMsg::FetchGetProof(x.clone()),
            EvmFetchMsg::FetchIbcState(x) => EvmFetchMsg::FetchIbcState(x.clone()),
        }
    }
}

/// A request for chain state.
#[derive(Debug, PartialEq, Eq)]
#[allow(inconsistent_fields)]
pub enum Fetch {
    /// The state of this chain's client `client_id` of the counterparty.
    TrustedClientState {
        at: QueryHeight,
        client_id: String,
    },
    StateProof(FetchStateProof),
    /// The client state a counterparty would install to track this chain.
    SelfClientState {
        at: QueryHeight,
    },
    /// The consensus state a counterparty would install to track this chain.
    SelfConsensusState {
        at: QueryHeight,
    },
    ChannelEnd {
        at: Height,
        port_id: String,
        channel_id: String,
    },
    ConnectionEnd {
        at: Height,
        connection_id: String,
    },
    PacketAcknowledgement(FetchPacketAcknowledgement),
    UpdateHeaders(FetchUpdateHeaders),
    LightClientSpecific(EvmFetchMsg),
}

/// The value of a [`Fetch`] as contracts see it.
#[allow(inconsistent_fields)]
pub enum FetchView {
    TrustedClientState {
        at: QueryHeight,
        client_id: Seq<char>,
    },
    StateProof(FetchStateProofView),
    SelfClientState {
        at: QueryHeight,
    },
    SelfConsensusState {
        at: QueryHeight,
    },
    ChannelEnd {
        at: Height,
        port_id: Seq<char>,
        channel_id: Seq<char>,
    },
    ConnectionEnd {
        at: Height,
        connection_id: Seq<char>,
    },
    PacketAcknowledgement(FetchPacketAcknowledgementView),
    UpdateHeaders(FetchUpdateHeadersView),
    LightClientSpecific(EvmFetchMsgView),
}

impl View for Fetch {
    type V = FetchView;

    open spec fn view(&self) -> FetchView {
        match *self {
            Fetch::TrustedClientState { at, client_id } => FetchView::TrustedClientState {
                at,
                client_id: client_id@,
            },
            Fetch::StateProof(x) => FetchView::StateProof(x@),
            Fetch::SelfClientState { at } => FetchView::SelfClientState {
                at,
            },
            Fetch::SelfConsensusState { at } => FetchView::SelfConsensusState {
                at,
            },
            Fetch::ChannelEnd { at, port_id, channel_id } => FetchView::ChannelEnd {
                at,
                port_id: port_id@,
                channel_id: channel_id@,
            },
            Fetch::ConnectionEnd { at, connection_id } => FetchView::ConnectionEnd {
                at,
                connection_id: connection_id@,
            },
            Fetch::PacketAcknowledgement(x) => FetchView::PacketAcknowledgement(x@),
            Fetch::UpdateHeaders(x) => FetchView::UpdateHeaders(x@),
            Fetch::LightClientSpecific(x) => FetchView::LightClientSpecific(x@),
        }
    }
}

impl Clone for Fetch {
    fn clone(&self) -> (copy: Fetch)
        ensures
            copy@ == self@,
    {
        match self {
            Fetch::TrustedClientState { at, client_id } => Fetch::TrustedClientState {
                at: *at,
                client_id: client_id.clone(),
            },
            Fetch::StateProof(x) => Fetch::StateProof(x.clone()),
            Fetch::SelfClientState { at } => Fetch::SelfClientState {
                at: *at,
            },
            Fetch::SelfConsensusState { at } => Fetch::SelfConsensusState {
                at: *at,
            },
            Fetch::ChannelEnd { at, port_id, channel_id } => Fetch::ChannelEnd {
                at: *at,
                port_id: port_id.clone(),
                channel_id: channel_id.clone(),
            },
            Fetch::ConnectionEnd { at, connection_id } => Fetch::ConnectionEnd {
                at: *at,
                connection_id: connection_id.clone(),
            },
            Fetch::PacketAcknowledgement(x) => Fetch::PacketAcknowledgement(x.clone()),
            Fetch::UpdateHeaders(x) => Fetch::UpdateHeaders(x.clone()),
            Fetch::LightClientSpecific(x) => Fetch::LightClientSpecific(x.clone()),
        }
    }
}

} // verus!
