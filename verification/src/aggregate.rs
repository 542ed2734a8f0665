//! Join points: what to build once a set of fetches has been answered.
//!
//! Each join point names, through [`crate::schema::schema`], the payloads it
//! needs; [`crate::aggregation::do_create`] hands them over when they are all there.

use crate::data::{BeaconFinalityUpdate, BeaconFinalityUpdateView, BeaconLightClientUpdate, BeaconLightClientUpdateView};
use crate::event::{ChannelHandshake, ChannelHandshakeView, ConnectionHandshake, ConnectionHandshakeView, PacketEventData, PacketEventDataView};
use crate::fetch::{FetchStateProof, FetchStateProofView, FetchUpdateHeaders, FetchUpdateHeadersView};
use crate::ids::{ChainId, ChainIdView, Height};
use crate::msg::{ClientConfig, ClientConfigView};
use vstd::prelude::*;

verus! {

/// A connection handshake step observed at `event_height`, waiting for the proofs of the next step.
#[derive(Debug, PartialEq, Eq)]
pub struct AggregateConnectionOpen {
    pub event_height: Height,
    pub event: ConnectionHandshake,
}

/// The value of a [`AggregateConnectionOpen`] as contracts see it.
pub struct AggregateConnectionOpenView {
    pub event_height: Height,
    pub event: ConnectionHandshakeView,
}

impl View for AggregateConnectionOpen {
    type V = AggregateConnectionOpenView;

    open spec fn view(&self) -> AggregateConnectionOpenView {
        AggregateConnectionOpenView {
            event_height: self.event_height,
            event: self.event@,
        }
    }
}

impl Clone for AggregateConnectionOpen {
    fn clone(&self) -> (copy: AggregateConnectionOpen)
        ensures
            copy@ == self@,
    {
        AggregateConnectionOpen {
            event_height: self.event_height,
            event: self.event.clone(),
        }
    }
}

/// A channel handshake step observed at `event_height`, waiting for the proofs of the next step.
#[derive(Debug, PartialEq, Eq)]
pub struct AggregateChannelOpen {
    pub event_height: Height,
    pub event: ChannelHandshake,
}

/// The value of a [`AggregateChannelOpen`] as contracts see it.
pub struct AggregateChannelOpenView {
    pub event_height: Height,
    pub event: ChannelHandshakeView,
}

impl View for AggregateChannelOpen {
    type V = AggregateChannelOpenView;

    open spec fn view(&self) -> AggregateChannelOpenView {
        AggregateChannelOpenView {
            event_height: self.event_height,
            event: self.event@,
        }
    }
}

impl Clone for AggregateChannelOpen {
    fn clone(&self) -> (copy: AggregateChannelOpen)
        ensures
            copy@ == self@,
    {
        AggregateChannelOpen {
            event_height: self.event_height,
            event: self.event.clone(),
        }
    }
}

/// A sent packet observed at `event_height`, waiting for the proof of its commitment.
#[derive(Debug, PartialEq, Eq)]
pub struct AggregateRecvPacket {
    pub event_height: Height,
    pub event: PacketEventData,
}

/// The value of a [`AggregateRecvPacket`] as contracts see it.
pub struct AggregateRecvPacketView {
    pub event_height: Height,
    pub event: PacketEventDataView,
}

impl View for AggregateRecvPacket {
    type V = AggregateRecvPacketView;

    open spec fn view(&self) -> AggregateRecvPacketView {
        AggregateRecvPacketView {
            event_height: self.event_height,
            event: self.event@,
        }
    }
}

impl Clone for AggregateRecvPacket {
    fn clone(&self) -> (copy: AggregateRecvPacket)
        ensures
            copy@ == self@,
    {
        AggregateRecvPacket {
            event_height: self.event_height,
            event: self.event.clone(),
        }
    }
}

/// A received packet observed at `event_height`, waiting for its acknowledgement and the proof of it.
#[derive(Debug, PartialEq, Eq)]
pub struct AggregateAckPacket {
    pub event_height: Height,
    pub event: PacketEventData,
    pub block_hash: [u8; 32],
    pub counterparty_client_id: String,
}

/// The value of a [`AggregateAckPacket`] as contracts see it.
pub struct AggregateAckPacketView {
    pub event_height: Height,
    pub event: PacketEventDataView,
    pub block_hash: Seq<u8>,
    pub counterparty_client_id: Seq<char>,
}

impl View for AggregateAckPacket {
    type V = AggregateAckPacketView;

    open spec fn view(&self) -> AggregateAckPacketView {
        AggregateAckPacketView {
            event_height: self.event_height,
            event: self.event@,
            block_hash: self.block_hash@,
            counterparty_client_id: self.counterparty_client_id@,
        }
    }
}

impl Clone for AggregateAckPacket {
    fn clone(&self) -> (copy: AggregateAckPacket)
        ensures
            copy@ == self@,
    {
        AggregateAckPacket {
            event_height: self.event_height,
            event: self.event.clone(),
            block_hash: self.block_hash,
            counterparty_client_id: self.counterparty_client_id.clone(),
        }
    }
}

/// An IBC message to prepare once the counterparty's client has been advanced.
///
/// The variant names the message that will be submitted to the counterparty.
#[derive(Debug, PartialEq, Eq)]
pub enum AggregateMsgAfterUpdate {
    ConnectionOpenTry(AggregateConnectionOpen),
    ConnectionOpenAck(AggregateConnectionOpen),
    ConnectionOpenConfirm(AggregateConnectionOpen),
    ChannelOpenTry(AggregateChannelOpen),
    ChannelOpenAck(AggregateChannelOpen),
    ChannelOpenConfirm(AggregateChannelOpen),
    RecvPacket(AggregateRecvPacket),
    AckPacket(AggregateAckPacket),
}

/// The value of a [`AggregateMsgAfterUpdate`] as contracts see it.
pub enum AggregateMsgAfterUpdateView {
    ConnectionOpenTry(AggregateConnectionOpenView),
    ConnectionOpenAck(AggregateConnectionOpenView),
    ConnectionOpenConfirm(AggregateConnectionOpenView),
    ChannelOpenTry(AggregateChannelOpenView),
    ChannelOpenAck(AggregateChannelOpenView),
    ChannelOpenConfirm(AggregateChannelOpenView),
    RecvPacket(AggregateRecvPacketView),
    AckPacket(AggregateAckPacketView),
}

impl View for AggregateMsgAfterUpdate {
    type V = AggregateMsgAfterUpdateView;

    open spec fn view(&self) -> AggregateMsgAfterUpdateView {
        match *self {
            AggregateMsgAfterUpdate::ConnectionOpenTry(x) => AggregateMsgAfterUpdateView::ConnectionOpenTry(x@),
            AggregateMsgAfterUpdate::ConnectionOpenAck(x) => AggregateMsgAfterUpdateView::ConnectionOpenAck(x@),
            AggregateMsgAfterUpdate::ConnectionOpenConfirm(x) => AggregateMsgAfterUpdateView::ConnectionOpenConfirm(x@),
            AggregateMsgAfterUpdate::ChannelOpenTry(x) => AggregateMsgAfterUpdateView::ChannelOpenTry(x@),
            AggregateMsgAfterUpdate::ChannelOpenAck(x) => AggregateMsgAfterUpdateView::ChannelOpenAck(x@),
            AggregateMsgAfterUpdate::ChannelOpenConfirm(x) => AggregateMsgAfterUpdateView::ChannelOpenConfirm(x@),
            AggregateMsgAfterUpdate::RecvPacket(x) => AggregateMsgAfterUpdateView::RecvPacket(x@),
            AggregateMsgAfterUpdate::AckPacket(x) => AggregateMsgAfterUpdateView::AckPacket(x@),
        }
    }
}

impl Clone for AggregateMsgAfterUpdate {
    fn clone(&self) -> (copy: AggregateMsgAfterUpdate)
        ensures
            copy@ == self@,
    {
        match self {
            AggregateMsgAfterUpdate::ConnectionOpenTry(x) => AggregateMsgAfterUpdate::ConnectionOpenTry(x.clone()),
            AggregateMsgAfterUpdate::ConnectionOpenAck(x) => AggregateMsgAfterUpdate::ConnectionOpenAck(x.clone()),
            AggregateMsgAfterUpdate::ConnectionOpenConfirm(x) => AggregateMsgAfterUpdate::ConnectionOpenConfirm(x.clone()),
            AggregateMsgAfterUpdate::ChannelOpenTry(x) => AggregateMsgAfterUpdate::ChannelOpenTry(x.clone()),
            AggregateMsgAfterUpdate::ChannelOpenAck(x) => AggregateMsgAfterUpdate::ChannelOpenAck(x.clone()),
            AggregateMsgAfterUpdate::ChannelOpenConfirm(x) => AggregateMsgAfterUpdate::ChannelOpenConfirm(x.clone()),
            AggregateMsgAfterUpdate::RecvPacket(x) => AggregateMsgAfterUpdate::RecvPacket(x.clone()),
            AggregateMsgAfterUpdate::AckPacket(x) => AggregateMsgAfterUpdate::AckPacket(x.clone()),
        }
    }
}

/// The channel handshake steps that call for a next step on the counterparty.
#[derive(Debug, PartialEq, Eq)]
pub enum ChannelHandshakeEvent {
    Init(ChannelHandshake),
    Try(ChannelHandshake),
    Ack(ChannelHandshake),
}

/// The value of a [`ChannelHandshakeEvent`] as contracts see it.
pub enum ChannelHandshakeEventView {
    Init(ChannelHandshakeView),
    Try(ChannelHandshakeView),
    Ack(ChannelHandshakeView),
}

impl View for ChannelHandshakeEvent {
    type V = ChannelHandshakeEventView;

    open spec fn view(&self) -> ChannelHandshakeEventView {
        match *self {
            ChannelHandshakeEvent::Init(x) => ChannelHandshakeEventView::Init(x@),
            ChannelHandshakeEvent::Try(x) => ChannelHandshakeEventView::Try(x@),
            ChannelHandshakeEvent::Ack(x) => ChannelHandshakeEventView::Ack(x@),
        }
    }
}

impl Clone for ChannelHandshakeEvent {
    fn clone(&self) -> (copy: ChannelHandshakeEvent)
        ensures
            copy@ == self@,
    {
        match self {
            ChannelHandshakeEvent::Init(x) => ChannelHandshakeEvent::Init(x.clone()),
            ChannelHandshakeEvent::Try(x) => ChannelHandshakeEvent::Try(x.clone()),
            ChannelHandshakeEvent::Ack(x) => ChannelHandshakeEvent::Ack(x.clone()),
        }
    }
}

/// The packet events that call for a message to the counterparty.
#[derive(Debug, PartialEq, Eq)]
pub enum PacketEvent {
    Send(PacketEventData),
    Recv(PacketEventData),
}

/// The value of a [`PacketEvent`] as contracts see it.
pub enum PacketEventView {
    Send(PacketEventDataView),
    Recv(PacketEventDataView),
}

impl View for PacketEvent {
    type V = PacketEventView;

    open spec fn view(&self) -> PacketEventView {
        match *self {
            PacketEvent::Send(x) => PacketEventView::Send(x@),
            PacketEvent::Recv(x) => PacketEventView::Recv(x@),
        }
    }
}

impl Clone for PacketEvent {
    fn clone(&self) -> (copy: PacketEvent)
        ensures
            copy@ == self@,
    {
        match self {
            PacketEvent::Send(x) => PacketEvent::Send(x.clone()),
            PacketEvent::Recv(x) => PacketEvent::Recv(x.clone()),
        }
    }
}

/// One header to build for the counterparty's client.
///
/// `is_next` says whether the header is verified against the next sync committee
/// of the trusted period, as sync committee updates are, or against the current
/// one, as the final finality update is.
#[derive(Debug, PartialEq, Eq)]
pub struct CreateUpdateData {
    pub req: FetchUpdateHeaders,
    pub currently_trusted_slot: u64,
    pub light_client_update: BeaconLightClientUpdate,
    pub is_next: bool,
}

/// The value of a [`CreateUpdateData`] as contracts see it.
pub struct CreateUpdateDataView {
    pub req: FetchUpdateHeadersView,
    pub currently_trusted_slot: u64,
    pub light_client_update: BeaconLightClientUpdateView,
    pub is_next: bool,
}

impl View for CreateUpdateData {
    type V = CreateUpdateDataView;

    open spec fn view(&self) -> CreateUpdateDataView {
        CreateUpdateDataView {
            req: self.req@,
            currently_trusted_slot: self.currently_trusted_slot,
            light_client_update: self.light_client_update@,
            is_next: self.is_next,
        }
    }
}

impl Clone for CreateUpdateData {
    fn clone(&self) -> (copy: CreateUpdateData)
        ensures
            copy@ == self@,
    {
        CreateUpdateData {
            req: self.req.clone(),
            currently_trusted_slot: self.currently_trusted_slot,
            light_client_update: self.light_client_update.clone(),
            is_next: self.is_next,
        }
    }
}

/// The first step of answering `req`: learn how far the beacon chain has finalized.
#[derive(Debug, PartialEq, Eq)]
pub struct MakeCreateUpdatesData {
    pub req: FetchUpdateHeaders,
}

/// The value of a [`MakeCreateUpdatesData`] as contracts see it.
pub struct MakeCreateUpdatesDataView {
    pub req: FetchUpdateHeadersView,
}

impl View for MakeCreateUpdatesData {
    type V = MakeCreateUpdatesDataView;

    open spec fn view(&self) -> MakeCreateUpdatesDataView {
        MakeCreateUpdatesDataView {
            req: self.req@,
        }
    }
}

impl Clone for MakeCreateUpdatesData {
    fn clone(&self) -> (copy: MakeCreateUpdatesData)
        ensures
            copy@ == self@,
    {
        MakeCreateUpdatesData {
            req: self.req.clone(),
        }
    }
}

/// The second step of answering `req`: plan one header per sync committee period crossed, then the finality update.
#[derive(Debug, PartialEq, Eq)]
pub struct MakeCreateUpdatesFromLightClientUpdatesData {
    pub req: FetchUpdateHeaders,
    pub trusted_height: Height,
    pub finality_update: BeaconFinalityUpdate,
}

/// The value of a [`MakeCreateUpdatesFromLightClientUpdatesData`] as contracts see it.
pub struct MakeCreateUpdatesFromLightClientUpdatesDataView {
    pub req: FetchUpdateHeadersView,
    pub trusted_height: Height,
    pub finality_update: BeaconFinalityUpdateView,
}

impl View for MakeCreateUpdatesFromLightClientUpdatesData {
    type V = MakeCreateUpdatesFromLightClientUpdatesDataView;

    open spec fn view(&self) -> MakeCreateUpdatesFromLightClientUpdatesDataView {
        MakeCreateUpdatesFromLightClientUpdatesDataView {
            req: self.req@,
            trusted_height: self.trusted_height,
            finality_update: self.finality_update@,
        }
    }
}

impl Clone for MakeCreateUpdatesFromLightClientUpdatesData {
    fn clone(&self) -> (copy: MakeCreateUpdatesFromLightClientUpdatesData)
        ensures
            copy@ == self@,
    {
        MakeCreateUpdatesFromLightClientUpdatesData {
            req: self.req.clone(),
            trusted_height: self.trusted_height,
            finality_update: self.finality_update.clone(),
        }
    }
}

/// The join points of building headers from beacon chain data.
#[derive(Debug, PartialEq, Eq)]
pub enum EvmAggregateMsg {
    CreateUpdate(CreateUpdateData),
    MakeCreateUpdates(MakeCreateUpdatesData),
    MakeCreateUpdatesFromLightClientUpdates(MakeCreateUpdatesFromLightClientUpdatesData),
}

/// The value of a [`EvmAggregateMsg`] as contracts see it.
pub enum EvmAggregateMsgView {
    CreateUpdate(CreateUpdateDataView),
    MakeCreateUpdates(MakeCreateUpdatesDataView),
    MakeCreateUpdatesFromLightClientUpdates(MakeCreateUpdatesFromLightClientUpdatesDataView),
}

impl View for EvmAggregateMsg {
    type V = EvmAggregateMsgView;

    open spec fn view(&self) -> EvmAggregateMsgView {
        match *self {
            EvmAggregateMsg::CreateUpdate(x) => EvmAggregateMsgView::CreateUpdate(x@),
            EvmAggregateMsg::MakeCreateUpdates(x) => EvmAggregateMsgView::MakeCreateUpdates(x@),
            EvmAggregateMsg::MakeCreateUpdatesFromLightClientUpdates(x) => EvmAggregateMsgView::MakeCreateUpdatesFromLightClientUpdates(x@),
        }
    }
}

impl Clone for EvmAggregateMsg {
    fn clone(&self) -> (copy: EvmAggregateMsg)
        ensures
            copy@ == self@,
    {
        match self {
            EvmAggregateMsg::CreateUpdate(x) => EvmAggregateMsg::CreateUpdate(x.clone()),
            EvmAggregateMsg::MakeCreateUpdates(x) => EvmAggregateMsg::MakeCreateUpdates(x.clone()),
            EvmAggregateMsg::MakeCreateUpdatesFromLightClientUpdates(x) => EvmAggregateMsg::MakeCreateUpdatesFromLightClientUpdates(x.clone()),
        }
    }
}

/// What to build from the collected payloads.
#[derive(Debug, PartialEq, Eq)]
pub enum Aggregate {
    ConnectionOpenTry(AggregateConnectionOpen),
    ConnectionOpenAck(AggregateConnectionOpen),
    ConnectionOpenConfirm(AggregateConnectionOpen),
    ChannelOpenTry(AggregateChannelOpen),
    ChannelOpenAck(AggregateChannelOpen),
    ChannelOpenConfirm(AggregateChannelOpen),
    RecvPacket(AggregateRecvPacket),
    AckPacket(AggregateAckPacket),
    /// Update a client of which only the two client identifiers are known.
    UpdateClientFromClientId {
        client_id: String,
        counterparty_client_id: String,
    },
    /// Update the counterparty's client to `update_to`.
    UpdateClient {
        update_to: Height,
        client_id: String,
        counterparty_client_id: String,
    },
    /// As [`Aggregate::UpdateClient`], once the counterparty's chain is known.
    UpdateClientWithCounterpartyChainIdData {
        update_to: Height,
        client_id: String,
        counterparty_client_id: String,
        counterparty_chain_id: ChainId,
    },
    /// Create a client of the counterparty on this chain.
    CreateClient {
        config: ClientConfig,
    },
    /// Prove, at height `at`, the consensus state of `client_id` for the height it trusts.
    ConsensusStateProofAtLatestHeight {
        client_id: String,
        at: Height,
    },
    AggregateMsgAfterUpdate(AggregateMsgAfterUpdate),
    LightClientSpecific(EvmAggregateMsg),
    /// Fetch, at height `at`, the connection a channel runs over.
    ConnectionFetchFromChannelEnd {
        at: Height,
    },
    /// Update the counterparty's client, then take the next channel handshake step.
    ChannelHandshakeUpdateClient {
        update_to: Height,
        event_height: Height,
        channel_handshake_event: ChannelHandshakeEvent,
    },
    /// Wait until the counterparty's client trusts `update_to`, then relay the packet.
    PacketUpdateClient {
        update_to: Height,
        event_height: Height,
        block_hash: [u8; 32],
        packet_event: PacketEvent,
    },
    /// Wait on the counterparty until its client of this chain trusts `wait_for`.
    WaitForTrustedHeight {
        wait_for: Height,
        client_id: String,
        counterparty_client_id: String,
    },
    /// Ask the counterparty for a state proof.
    FetchCounterpartyStateproof {
        counterparty_client_id: String,
        fetch: FetchStateProof,
    },
}

/// The value of a [`Aggregate`] as contracts see it.
pub enum AggregateView {
    ConnectionOpenTry(AggregateConnectionOpenView),
    ConnectionOpenAck(AggregateConnectionOpenView),
    ConnectionOpenConfirm(AggregateConnectionOpenView),
    ChannelOpenTry(AggregateChannelOpenView),
    ChannelOpenAck(AggregateChannelOpenView),
    ChannelOpenConfirm(AggregateChannelOpenView),
    RecvPacket(AggregateRecvPacketView),
    AckPacket(AggregateAckPacketView),
    UpdateClientFromClientId {
        client_id: Seq<char>,
        counterparty_client_id: Seq<char>,
    },
    UpdateClient {
        update_to: Height,
        client_id: Seq<char>,
        counterparty_client_id: Seq<char>,
    },
    UpdateClientWithCounterpartyChainIdData {
        update_to: Height,
        client_id: Seq<char>,
        counterparty_client_id: Seq<char>,
        counterparty_chain_id: ChainIdView,
    },
    CreateClient {
        config: ClientConfigView,
    },
    ConsensusStateProofAtLatestHeight {
        client_id: Seq<char>,
        at: Height,
    },
    AggregateMsgAfterUpdate(AggregateMsgAfterUpdateView),
    LightClientSpecific(EvmAggregateMsgView),
    ConnectionFetchFromChannelEnd {
        at: Height,
    },
    ChannelHandshakeUpdateClient {
        update_to: Height,
        event_height: Height,
        channel_handshake_event: ChannelHandshakeEventView,
    },
    PacketUpdateClient {
        update_to: Height,
        event_height: Height,
        block_hash: Seq<u8>,
        packet_event: PacketEventView,
    },
    WaitForTrustedHeight {
        wait_for: Height,
        client_id: Seq<char>,
        counterparty_client_id: Seq<char>,
    },
    FetchCounterpartyStateproof {
        counterparty_client_id: Seq<char>,
        fetch: FetchStateProofView,
    },
}

impl View for Aggregate {
    type V = AggregateView;

    open spec fn view(&self) -> AggregateView {
        match *self {
            Aggregate::ConnectionOpenTry(x) => AggregateView::ConnectionOpenTry(x@),
            Aggregate::ConnectionOpenAck(x) => AggregateView::ConnectionOpenAck(x@),
            Aggregate::ConnectionOpenConfirm(x) => AggregateView::ConnectionOpenConfirm(x@),
            Aggregate::ChannelOpenTry(x) => AggregateView::ChannelOpenTry(x@),
            Aggregate::ChannelOpenAck(x) => AggregateView::ChannelOpenAck(x@),
            Aggregate::ChannelOpenConfirm(x) => AggregateView::ChannelOpenConfirm(x@),
            Aggregate::RecvPacket(x) => AggregateView::RecvPacket(x@),
            Aggregate::AckPacket(x) => AggregateView::AckPacket(x@),
            Aggregate::UpdateClientFromClientId { client_id, counterparty_client_id } => AggregateView::UpdateClientFromClientId {
                client_id: client_id@,
                counterparty_client_id: counterparty_client_id@,
            },
            Aggregate::UpdateClient { update_to, client_id, counterparty_client_id } => AggregateView::UpdateClient {
                update_to,
                client_id: client_id@,
                counterparty_client_id: counterparty_client_id@,
            },
            Aggregate::UpdateClientWithCounterpartyChainIdData { update_to, client_id, counterparty_client_id, counterparty_chain_id } => AggregateView::UpdateClientWithCounterpartyChainIdData {
                update_to,
                client_id: client_id@,
                counterparty_client_id: counterparty_client_id@,
                counterparty_chain_id: counterparty_chain_id@,
            },
            Aggregate::CreateClient { config } => AggregateView::CreateClient {
                config: config@,
            },
            Aggregate::ConsensusStateProofAtLatestHeight { client_id, at } => AggregateView::ConsensusStateProofAtLatestHeight {
                client_id: client_id@,
                at,
            },
            Aggregate::AggregateMsgAfterUpdate(x) => AggregateView::AggregateMsgAfterUpdate(x@),
            Aggregate::LightClientSpecific(x) => AggregateView::LightClientSpecific(x@),
            Aggregate::ConnectionFetchFromChannelEnd { at } => AggregateView::ConnectionFetchFromChannelEnd {
                at,
            },
            Aggregate::ChannelHandshakeUpdateClient { update_to, event_height, channel_handshake_event } => AggregateView::ChannelHandshakeUpdateClient {
                update_to,
                event_height,
                channel_handshake_event: channel_handshake_event@,
            },
            Aggregate::PacketUpdateClient { update_to, event_height, block_hash, packet_event } => AggregateView::PacketUpdateClient {
                update_to,
                event_height,
                block_hash: block_hash@,
                packet_event: packet_event@,
            },
            Aggregate::WaitForTrustedHeight { wait_for, client_id, counterparty_client_id } => AggregateView::WaitForTrustedHeight {
                wait_for,
                client_id: client_id@,
                counterparty_client_id: counterparty_client_id@,
            },
            Aggregate::FetchCounterpartyStateproof { counterparty_client_id, fetch } => AggregateView::FetchCounterpartyStateproof {
                counterparty_client_id: counterparty_client_id@,
                fetch: fetch@,
            },
        }
    }
}

impl Clone for Aggregate {
    fn clone(&self) -> (copy: Aggregate)
        ensures
            copy@ == self@,
    {
        match self {
            Aggregate::ConnectionOpenTry(x) => Aggregate::ConnectionOpenTry(x.clone()),
            Aggregate::ConnectionOpenAck(x) => Aggregate::ConnectionOpenAck(x.clone()),
            Aggregate::ConnectionOpenConfirm(x) => Aggregate::ConnectionOpenConfirm(x.clone()),
            Aggregate::ChannelOpenTry(x) => Aggregate::ChannelOpenTry(x.clone()),
            Aggregate::ChannelOpenAck(x) => Aggregate::ChannelOpenAck(x.clone()),
            Aggregate::ChannelOpenConfirm(x) => Aggregate::ChannelOpenConfirm(x.clone()),
            Aggregate::RecvPacket(x) => Aggregate::RecvPacket(x.clone()),
            Aggregate::AckPacket(x) => Aggregate::AckPacket(x.clone()),
            Aggregate::UpdateClientFromClientId { client_id, counterparty_client_id } => Aggregate::UpdateClientFromClientId {
                client_id: client_id.clone(),
                counterparty_client_id: counterparty_client_id.clone(),
            },
            Aggregate::UpdateClient { update_to, client_id, counterparty_client_id } => Aggregate::UpdateClient {
                update_to: *update_to,
                client_id: client_id.clone(),
                counterparty_client_id: counterparty_client_id.clone(),
            },
            Aggregate::UpdateClientWithCounterpartyChainIdData { update_to, client_id, counterparty_client_id, counterparty_chain_id } => Aggregate::UpdateClientWithCounterpartyChainIdData {
                update_to: *update_to,
                client_id: client_id.clone(),
                counterparty_client_id: counterparty_client_id.clone(),
                counterparty_chain_id: counterparty_chain_id.clone(),
            },
            Aggregate::CreateClient { config } => Aggregate::CreateClient {
                config: config.clone(),
            },
            Aggregate::ConsensusStateProofAtLatestHeight { client_id, at } => Aggregate::ConsensusStateProofAtLatestHeight {
                client_id: client_id.clone(),
                at: *at,
            },
            Aggregate::AggregateMsgAfterUpdate(x) => Aggregate::AggregateMsgAfterUpdate(x.clone()),
            Aggregate::LightClientSpecific(x) => Aggregate::LightClientSpecific(x.clone()),
            Aggregate::ConnectionFetchFromChannelEnd { at } => Aggregate::ConnectionFetchFromChannelEnd {
                at: *at,
            },
            Aggregate::ChannelHandshakeUpdateClient { update_to, event_height, channel_handshake_event } => Aggregate::ChannelHandshakeUpdateClient {
                update_to: *update_to,
                event_height: *event_height,
                channel_handshake_event: channel_handshake_event.clone(),
            },
            Aggregate::PacketUpdateClient { update_to, event_height, block_hash, packet_event } => Aggregate::PacketUpdateClient {
                update_to: *update_to,
                event_height: *event_height,
                block_hash: *block_hash,
                packet_event: packet_event.clone(),
            },
            Aggregate::WaitForTrustedHeight { wait_for, client_id, counterparty_client_id } => Aggregate::WaitForTrustedHeight {
                wait_for: *wait_for,
                client_id: client_id.clone(),
                counterparty_client_id: counterparty_client_id.clone(),
            },
            Aggregate::FetchCounterpartyStateproof { counterparty_client_id, fetch } => Aggregate::FetchCounterpartyStateproof {
                counterparty_client_id: counterparty_client_id.clone(),
                fetch: fetch.clone(),
            },
        }
    }
}

} // verus!
