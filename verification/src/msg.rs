//! The IBC messages the engine submits to chains.

use crate::data::{BeaconLightClientUpdate, BeaconLightClientUpdateView, Channel, ChannelView, ConnectionCounterparty, ConnectionCounterpartyView, Version, VersionView};
use crate::ids::Height;
use vstd::prelude::*;

verus! {

/// How a light client is registered on a chain whose clients are contracts.
#[derive(Debug, PartialEq, Eq)]
pub struct EvmConfig {
    pub client_type: String,
    pub client_address: [u8; 20],
}

/// The value of a [`EvmConfig`] as contracts see it.
pub struct EvmConfigView {
    pub client_type: Seq<char>,
    pub client_address: Seq<u8>,
}

impl View for EvmConfig {
    type V = EvmConfigView;

    open spec fn view(&self) -> EvmConfigView {
        EvmConfigView {
            client_type: self.client_type@,
            client_address: self.client_address@,
        }
    }
}

impl Clone for EvmConfig {
    fn clone(&self) -> (copy: EvmConfig)
        ensures
            copy@ == self@,
    {
        EvmConfig {
            client_type: self.client_type.clone(),
            client_address: self.client_address,
        }
    }
}

/// What creating a client needs besides the two states, by the kind of chain that will host it.
#[derive(Debug, PartialEq, Eq)]
pub enum ClientConfig {
    Evm(EvmConfig),
    Wasm {
        code_id: [u8; 32],
    },
}

/// The value of a [`ClientConfig`] as contracts see it.
pub enum ClientConfigView {
    Evm(EvmConfigView),
    Wasm {
        code_id: Seq<u8>,
    },
}

impl View for ClientConfig {
    type V = ClientConfigView;

    open spec fn view(&self) -> ClientConfigView {
        match *self {
            ClientConfig::Evm(x) => ClientConfigView::Evm(x@),
            ClientConfig::Wasm { code_id } => ClientConfigView::Wasm {
                code_id: code_id@,
            },
        }
    }
}

impl Clone for ClientConfig {
    fn clone(&self) -> (copy: ClientConfig)
        ensures
            copy@ == self@,
    {
        match self {
            ClientConfig::Evm(x) => ClientConfig::Evm(x.clone()),
            ClientConfig::Wasm { code_id } => ClientConfig::Wasm {
                code_id: *code_id,
            },
        }
    }
}

/// Create a client from the state and consensus state the tracked chain offers of itself.
#[derive(Debug, PartialEq, Eq)]
pub struct MsgCreateClient {
    pub config: ClientConfig,
    pub client_state: Vec<u8>,
    pub consensus_state: Vec<u8>,
}

/// The value of a [`MsgCreateClient`] as contracts see it.
pub struct MsgCreateClientView {
    pub config: ClientConfigView,
    pub client_state: Seq<u8>,
    pub consensus_state: Seq<u8>,
}

impl View for MsgCreateClient {
    type V = MsgCreateClientView;

    open spec fn view(&self) -> MsgCreateClientView {
        MsgCreateClientView {
            config: self.config@,
            client_state: self.client_state@,
            consensus_state: self.consensus_state@,
        }
    }
}

impl Clone for MsgCreateClient {
    fn clone(&self) -> (copy: MsgCreateClient)
        ensures
            copy@ == self@,
    {
        MsgCreateClient {
            config: self.config.clone(),
            client_state: self.client_state.clone(),
            consensus_state: self.consensus_state.clone(),
        }
    }
}

/// The sync committee a header is to be verified against.
#[derive(Debug, PartialEq, Eq)]
pub enum ActiveSyncCommittee {
    Current(Vec<u8>),
    Next(Vec<u8>),
}

/// The value of a [`ActiveSyncCommittee`] as contracts see it.
pub enum ActiveSyncCommitteeView {
    Current(Seq<u8>),
    Next(Seq<u8>),
}

impl View for ActiveSyncCommittee {
    type V = ActiveSyncCommitteeView;

    open spec fn view(&self) -> ActiveSyncCommitteeView {
        match *self {
            ActiveSyncCommittee::Current(x) => ActiveSyncCommitteeView::Current(x@),
            ActiveSyncCommittee::Next(x) => ActiveSyncCommitteeView::Next(x@),
        }
    }
}

impl Clone for ActiveSyncCommittee {
    fn clone(&self) -> (copy: ActiveSyncCommittee)
        ensures
            copy@ == self@,
    {
        match self {
            ActiveSyncCommittee::Current(x) => ActiveSyncCommittee::Current(x.clone()),
            ActiveSyncCommittee::Next(x) => ActiveSyncCommittee::Next(x.clone()),
        }
    }
}

/// A header for a client that tracks a beacon chain.
#[derive(Debug, PartialEq, Eq)]
pub struct EthereumHeader {
    pub consensus_update: BeaconLightClientUpdate,
    pub trusted_height: Height,
    pub sync_committee: ActiveSyncCommittee,
    pub contract_address: [u8; 20],
    pub storage_root: [u8; 32],
    pub account_proof: Vec<Vec<u8>>,
}

/// The value of a [`EthereumHeader`] as contracts see it.
pub struct EthereumHeaderView {
    pub consensus_update: BeaconLightClientUpdateView,
    pub trusted_height: Height,
    pub sync_committee: ActiveSyncCommitteeView,
    pub contract_address: Seq<u8>,
    pub storage_root: Seq<u8>,
    pub account_proof: Seq<Seq<u8>>,
}

impl View for EthereumHeader {
    type V = EthereumHeaderView;

    open spec fn view(&self) -> EthereumHeaderView {
        EthereumHeaderView {
            consensus_update: self.consensus_update@,
            trusted_height: self.trusted_height,
            sync_committee: self.sync_committee@,
            contract_address: self.contract_address@,
            storage_root: self.storage_root@,
            account_proof: self.account_proof@.map_values(|b: Vec<u8>| b@),
        }
    }
}

impl Clone for EthereumHeader {
    fn clone(&self) -> (copy: EthereumHeader)
        ensures
            copy@ == self@,
    {
        let copy = EthereumHeader {
            consensus_update: self.consensus_update.clone(),
            trusted_height: self.trusted_height,
            sync_committee: self.sync_committee.clone(),
            contract_address: self.contract_address,
            storage_root: self.storage_root,
            account_proof: self.account_proof.clone(),
        };
        assert(copy@.account_proof =~= self@.account_proof);
        copy
    }
}

/// What a client is updated with.
#[derive(Debug, PartialEq, Eq)]
pub enum ClientMessage {
    Ethereum(EthereumHeader),
    Encoded(Vec<u8>),
}

/// The value of a [`ClientMessage`] as contracts see it.
pub enum ClientMessageView {
    Ethereum(EthereumHeaderView),
    Encoded(Seq<u8>),
}

impl View for ClientMessage {
    type V = ClientMessageView;

    open spec fn view(&self) -> ClientMessageView {
        match *self {
            ClientMessage::Ethereum(x) => ClientMessageView::Ethereum(x@),
            ClientMessage::Encoded(x) => ClientMessageView::Encoded(x@),
        }
    }
}

impl Clone for ClientMessage {
    fn clone(&self) -> (copy: ClientMessage)
        ensures
            copy@ == self@,
    {
        match self {
            ClientMessage::Ethereum(x) => ClientMessage::Ethereum(x.clone()),
            ClientMessage::Encoded(x) => ClientMessage::Encoded(x.clone()),
        }
    }
}

/// Advance client `client_id` from `update_from` with `client_message`.
#[derive(Debug, PartialEq, Eq)]
pub struct MsgUpdateClient {
    pub client_id: String,
    pub client_message: ClientMessage,
    pub update_from: Height,
}

/// The value of a [`MsgUpdateClient`] as contracts see it.
pub struct MsgUpdateClientView {
    pub client_id: Seq<char>,
    pub client_message: ClientMessageView,
    pub update_from: Height,
}

impl View for MsgUpdateClient {
    type V = MsgUpdateClientView;

    open spec fn view(&self) -> MsgUpdateClientView {
        MsgUpdateClientView {
            client_id: self.client_id@,
            client_message: self.client_message@,
            update_from: self.update_from,
        }
    }
}

impl Clone for MsgUpdateClient {
    fn clone(&self) -> (copy: MsgUpdateClient)
        ensures
            copy@ == self@,
    {
        MsgUpdateClient {
            client_id: self.client_id.clone(),
            client_message: self.client_message.clone(),
            update_from: self.update_from,
        }
    }
}

/// Start a connection handshake.
#[derive(Debug, PartialEq, Eq)]
pub struct MsgConnectionOpenInit {
    pub client_id: String,
    pub counterparty: ConnectionCounterparty,
    pub version: Version,
    pub delay_period: u64,
}

/// The value of a [`MsgConnectionOpenInit`] as contracts see it.
pub struct MsgConnectionOpenInitView {
    pub client_id: Seq<char>,
    pub counterparty: ConnectionCounterpartyView,
    pub version: VersionView,
    pub delay_period: u64,
}

impl View for MsgConnectionOpenInit {
    type V = MsgConnectionOpenInitView;

    open spec fn view(&self) -> MsgConnectionOpenInitView {
        MsgConnectionOpenInitView {
            client_id: self.client_id@,
            counterparty: self.counterparty@,
            version: self.version@,
            delay_period: self.delay_period,
        }
    }
}

impl Clone for MsgConnectionOpenInit {
    fn clone(&self) -> (copy: MsgConnectionOpenInit)
        ensures
            copy@ == self@,
    {
        MsgConnectionOpenInit {
            client_id: self.client_id.clone(),
            counterparty: self.counterparty.clone(),
            version: self.version.clone(),
            delay_period: self.delay_period,
        }
    }
}

/// Answer a connection handshake that the counterparty started.
#[derive(Debug, PartialEq, Eq)]
pub struct MsgConnectionOpenTry {
    pub client_id: String,
    pub client_state: Vec<u8>,
    pub counterparty: ConnectionCounterparty,
    pub delay_period: u64,
    pub counterparty_versions: Vec<Version>,
    pub proof_height: Height,
    pub proof_init: Vec<u8>,
    pub proof_client: Vec<u8>,
    pub proof_consensus: Vec<u8>,
    pub consensus_height: Height,
}

/// The value of a [`MsgConnectionOpenTry`] as contracts see it.
pub struct MsgConnectionOpenTryView {
    pub client_id: Seq<char>,
    pub client_state: Seq<u8>,
    pub counterparty: ConnectionCounterpartyView,
    pub delay_period: u64,
    pub counterparty_versions: Seq<VersionView>,
    pub proof_height: Height,
    pub proof_init: Seq<u8>,
    pub proof_client: Seq<u8>,
    pub proof_consensus: Seq<u8>,
    pub consensus_height: Height,
}

impl View for MsgConnectionOpenTry {
    type V = MsgConnectionOpenTryView;

    open spec fn view(&self) -> MsgConnectionOpenTryView {
        MsgConnectionOpenTryView {
            client_id: self.client_id@,
            client_state: self.client_state@,
            counterparty: self.counterparty@,
            delay_period: self.delay_period,
            counterparty_versions: self.counterparty_versions@.map_values(|e: Version| e@),
            proof_height: self.proof_height,
            proof_init: self.proof_init@,
            proof_client: self.proof_client@,
            proof_consensus: self.proof_consensus@,
            consensus_height: self.consensus_height,
        }
    }
}

impl Clone for MsgConnectionOpenTry {
    fn clone(&self) -> (copy: MsgConnectionOpenTry)
        ensures
            copy@ == self@,
    {
        let copy = MsgConnectionOpenTry {
            client_id: self.client_id.clone(),
            client_state: self.client_state.clone(),
            counterparty: self.counterparty.clone(),
            delay_period: self.delay_period,
            counterparty_versions: self.counterparty_versions.clone(),
            proof_height: self.proof_height,
            proof_init: self.proof_init.clone(),
            proof_client: self.proof_client.clone(),
            proof_consensus: self.proof_consensus.clone(),
            consensus_height: self.consensus_height,
        };
        assert(copy@.counterparty_versions =~= self@.counterparty_versions);
        copy
    }
}

/// Acknowledge the counterparty's answer to a connection handshake.
#[derive(Debug, PartialEq, Eq)]
pub struct MsgConnectionOpenAck {
    pub connection_id: String,
    pub counterparty_connection_id: String,
    pub version: Version,
    pub client_state: Vec<u8>,
    pub proof_height: Height,
    pub proof_try: Vec<u8>,
    pub proof_client: Vec<u8>,
    pub proof_consensus: Vec<u8>,
    pub consensus_height: Height,
}

/// The value of a [`MsgConnectionOpenAck`] as contracts see it.
pub struct MsgConnectionOpenAckView {
    pub connection_id: Seq<char>,
    pub counterparty_connection_id: Seq<char>,
    pub version: VersionView,
    pub client_state: Seq<u8>,
    pub proof_height: Height,
    pub proof_try: Seq<u8>,
    pub proof_client: Seq<u8>,
    pub proof_consensus: Seq<u8>,
    pub consensus_height: Height,
}

impl View for MsgConnectionOpenAck {
    type V = MsgConnectionOpenAckView;

    open spec fn view(&self) -> MsgConnectionOpenAckView {
        MsgConnectionOpenAckView {
            connection_id: self.connection_id@,
            counterparty_connection_id: self.counterparty_connection_id@,
            version: self.version@,
            client_state: self.client_state@,
            proof_height: self.proof_height,
            proof_try: self.proof_try@,
            proof_client: self.proof_client@,
            proof_consensus: self.proof_consensus@,
            consensus_height: self.consensus_height,
        }
    }
}

impl Clone for MsgConnectionOpenAck {
    fn clone(&self) -> (copy: MsgConnectionOpenAck)
        ensures
            copy@ == self@,
    {
        MsgConnectionOpenAck {
            connection_id: self.connection_id.clone(),
            counterparty_connection_id: self.counterparty_connection_id.clone(),
            version: self.version.clone(),
            client_state: self.client_state.clone(),
            proof_height: self.proof_height,
            proof_try: self.proof_try.clone(),
            proof_client: self.proof_client.clone(),
            proof_consensus: self.proof_consensus.clone(),
            consensus_height: self.consensus_height,
        }
    }
}

/// Confirm an acknowledged connection.
#[derive(Debug, PartialEq, Eq)]
pub struct MsgConnectionOpenConfirm {
    pub connection_id: String,
    pub proof_ack: Vec<u8>,
    pub proof_height: Height,
}

/// The value of a [`MsgConnectionOpenConfirm`] as contracts see it.
pub struct MsgConnectionOpenConfirmView {
    pub connection_id: Seq<char>,
    pub proof_ack: Seq<u8>,
    pub proof_height: Height,
}

impl View for MsgConnectionOpenConfirm {
    type V = MsgConnectionOpenConfirmView;

    open spec fn view(&self) -> MsgConnectionOpenConfirmView {
        MsgConnectionOpenConfirmView {
            connection_id: self.connection_id@,
            proof_ack: self.proof_ack@,
            proof_height: self.proof_height,
        }
    }
}

impl Clone for MsgConnectionOpenConfirm {
    fn clone(&self) -> (copy: MsgConnectionOpenConfirm)
        ensures
            copy@ == self@,
    {
        MsgConnectionOpenConfirm {
            connection_id: self.connection_id.clone(),
            proof_ack: self.proof_ack.clone(),
            proof_height: self.proof_height,
        }
    }
}

/// Start a channel handshake.
#[derive(Debug, PartialEq, Eq)]
pub struct MsgChannelOpenInit {
    pub port_id: String,
    pub channel: Channel,
}

/// The value of a [`MsgChannelOpenInit`] as contracts see it.
pub struct MsgChannelOpenInitView {
    pub port_id: Seq<char>,
    pub channel: ChannelView,
}

impl View for MsgChannelOpenInit {
    type V = MsgChannelOpenInitView;

    open spec fn view(&self) -> MsgChannelOpenInitView {
        MsgChannelOpenInitView {
            port_id: self.port_id@,
            channel: self.channel@,
        }
    }
}

impl Clone for MsgChannelOpenInit {
    fn clone(&self) -> (copy: MsgChannelOpenInit)
        ensures
            copy@ == self@,
    {
        MsgChannelOpenInit {
            port_id: self.port_id.clone(),
            channel: self.channel.clone(),
        }
    }
}

/// Answer a channel handshake that the counterparty started.
#[derive(Debug, PartialEq, Eq)]
pub struct MsgChannelOpenTry {
    pub port_id: String,
    pub channel: Channel,
    pub counterparty_version: String,
    pub proof_init: Vec<u8>,
    pub proof_height: Height,
}

/// The value of a [`MsgChannelOpenTry`] as contracts see it.
pub struct MsgChannelOpenTryView {
    pub port_id: Seq<char>,
    pub channel: ChannelView,
    pub counterparty_version: Seq<char>,
    pub proof_init: Seq<u8>,
    pub proof_height: Height,
}

impl View for MsgChannelOpenTry {
    type V = MsgChannelOpenTryView;

    open spec fn view(&self) -> MsgChannelOpenTryView {
        MsgChannelOpenTryView {
            port_id: self.port_id@,
            channel: self.channel@,
            counterparty_version: self.counterparty_version@,
            proof_init: self.proof_init@,
            proof_height: self.proof_height,
        }
    }
}

impl Clone for MsgChannelOpenTry {
    fn clone(&self) -> (copy: MsgChannelOpenTry)
        ensures
            copy@ == self@,
    {
        MsgChannelOpenTry {
            port_id: self.port_id.clone(),
            channel: self.channel.clone(),
            counterparty_version: self.counterparty_version.clone(),
            proof_init: self.proof_init.clone(),
            proof_height: self.proof_height,
        }
    }
}

/// Acknowledge the counterparty's answer to a channel handshake.
#[derive(Debug, PartialEq, Eq)]
pub struct MsgChannelOpenAck {
    pub port_id: String,
    pub channel_id: String,
    pub counterparty_channel_id: String,
    pub counterparty_version: String,
    pub proof_try: Vec<u8>,
    pub proof_height: Height,
}

/// The value of a [`MsgChannelOpenAck`] as contracts see it.
pub struct MsgChannelOpenAckView {
    pub port_id: Seq<char>,
    pub channel_id: Seq<char>,
    pub counterparty_channel_id: Seq<char>,
    pub counterparty_version: Seq<char>,
    pub proof_try: Seq<u8>,
    pub proof_height: Height,
}

impl View for MsgChannelOpenAck {
    type V = MsgChannelOpenAckView;

    open spec fn view(&self) -> MsgChannelOpenAckView {
        MsgChannelOpenAckView {
            port_id: self.port_id@,
            channel_id: self.channel_id@,
            counterparty_channel_id: self.counterparty_channel_id@,
            counterparty_version: self.counterparty_version@,
            proof_try: self.proof_try@,
            proof_height: self.proof_height,
        }
    }
}

impl Clone for MsgChannelOpenAck {
    fn clone(&self) -> (copy: MsgChannelOpenAck)
        ensures
            copy@ == self@,
    {
        MsgChannelOpenAck {
            port_id: self.port_id.clone(),
            channel_id: self.channel_id.clone(),
            counterparty_channel_id: self.counterparty_channel_id.clone(),
            counterparty_version: self.counterparty_version.clone(),
            proof_try: self.proof_try.clone(),
            proof_height: self.proof_height,
        }
    }
}

/// Confirm an acknowledged channel.
#[derive(Debug, PartialEq, Eq)]
pub struct MsgChannelOpenConfirm {
    pub port_id: String,
    pub channel_id: String,
    pub proof_ack: Vec<u8>,
    pub proof_height: Height,
}

/// The value of a [`MsgChannelOpenConfirm`] as contracts see it.
pub struct MsgChannelOpenConfirmView {
    pub port_id: Seq<char>,
    pub channel_id: Seq<char>,
    pub proof_ack: Seq<u8>,
    pub proof_height: Height,
}

impl View for MsgChannelOpenConfirm {
    type V = MsgChannelOpenConfirmView;

    open spec fn view(&self) -> MsgChannelOpenConfirmView {
        MsgChannelOpenConfirmView {
            port_id: self.port_id@,
            channel_id: self.channel_id@,
            proof_ack: self.proof_ack@,
            proof_height: self.proof_height,
        }
    }
}

impl Clone for MsgChannelOpenConfirm {
    fn clone(&self) -> (copy: MsgChannelOpenConfirm)
        ensures
            copy@ == self@,
    {
        MsgChannelOpenConfirm {
            port_id: self.port_id.clone(),
            channel_id: self.channel_id.clone(),
            proof_ack: self.proof_ack.clone(),
            proof_height: self.proof_height,
        }
    }
}

/// A packet in flight between two channel ends.
#[derive(Debug, PartialEq, Eq)]
pub struct Packet {
    pub sequence: u64,
    pub source_port: String,
    pub source_channel: String,
    pub destination_port: String,
    pub destination_channel: String,
    pub data: Vec<u8>,
    pub timeout_height: Height,
    pub timeout_timestamp: u64,
}

/// The value of a [`Packet`] as contracts see it.
pub struct PacketView {
    pub sequence: u64,
    pub source_port: Seq<char>,
    pub source_channel: Seq<char>,
    pub destination_port: Seq<char>,
    pub destination_channel: Seq<char>,
    pub data: Seq<u8>,
    pub timeout_height: Height,
    pub timeout_timestamp: u64,
}

impl View for Packet {
    type V = PacketView;

    open spec fn view(&self) -> PacketView {
        PacketView {
            sequence: self.sequence,
            source_port: self.source_port@,
            source_channel: self.source_channel@,
            destination_port: self.destination_port@,
            destination_channel: self.destination_channel@,
            data: self.data@,
            timeout_height: self.timeout_height,
            timeout_timestamp: self.timeout_timestamp,
        }
    }
}

impl Clone for Packet {
    fn clone(&self) -> (copy: Packet)
        ensures
            copy@ == self@,
    {
        Packet {
            sequence: self.sequence,
            source_port: self.source_port.clone(),
            source_channel: self.source_channel.clone(),
            destination_port: self.destination_port.clone(),
            destination_channel: self.destination_channel.clone(),
            data: self.data.clone(),
            timeout_height: self.timeout_height,
            timeout_timestamp: self.timeout_timestamp,
        }
    }
}

/// Deliver a packet, with the proof that the sender committed to it.
#[derive(Debug, PartialEq, Eq)]
pub struct MsgRecvPacket {
    pub packet: Packet,
    pub proof_commitment: Vec<u8>,
    pub proof_height: Height,
}

/// The value of a [`MsgRecvPacket`] as contracts see it.
pub struct MsgRecvPacketView {
    pub packet: PacketView,
    pub proof_commitment: Seq<u8>,
    pub proof_height: Height,
}

impl View for MsgRecvPacket {
    type V = MsgRecvPacketView;

    open spec fn view(&self) -> MsgRecvPacketView {
        MsgRecvPacketView {
            packet: self.packet@,
            proof_commitment: self.proof_commitment@,
            proof_height: self.proof_height,
        }
    }
}

impl Clone for MsgRecvPacket {
    fn clone(&self) -> (copy: MsgRecvPacket)
        ensures
            copy@ == self@,
    {
        MsgRecvPacket {
            packet: self.packet.clone(),
            proof_commitment: self.proof_commitment.clone(),
            proof_height: self.proof_height,
        }
    }
}

/// Deliver a packet's acknowledgement, with the proof that the receiver wrote it.
#[derive(Debug, PartialEq, Eq)]
pub struct MsgAcknowledgement {
    pub packet: Packet,
    pub acknowledgement: Vec<u8>,
    pub proof_acked: Vec<u8>,
    pub proof_height: Height,
}

/// The value of a [`MsgAcknowledgement`] as contracts see it.
pub struct MsgAcknowledgementView {
    pub packet: PacketView,
    pub acknowledgement: Seq<u8>,
    pub proof_acked: Seq<u8>,
    pub proof_height: Height,
}

impl View for MsgAcknowledgement {
    type V = MsgAcknowledgementView;

    open spec fn view(&self) -> MsgAcknowledgementView {
        MsgAcknowledgementView {
            packet: self.packet@,
            acknowledgement: self.acknowledgement@,
            proof_acked: self.proof_acked@,
            proof_height: self.proof_height,
        }
    }
}

impl Clone for MsgAcknowledgement {
    fn clone(&self) -> (copy: MsgAcknowledgement)
        ensures
            copy@ == self@,
    {
        MsgAcknowledgement {
            packet: self.packet.clone(),
            acknowledgement: self.acknowledgement.clone(),
            proof_acked: self.proof_acked.clone(),
            proof_height: self.proof_height,
        }
    }
}

/// One IBC message, to be submitted in a transaction of its own.
#[derive(Debug, PartialEq, Eq)]
pub enum Msg {
    ConnectionOpenInit(MsgConnectionOpenInit),
    ConnectionOpenTry(MsgConnectionOpenTry),
    ConnectionOpenAck(MsgConnectionOpenAck),
    ConnectionOpenConfirm(MsgConnectionOpenConfirm),
    ChannelOpenInit(MsgChannelOpenInit),
    ChannelOpenTry(MsgChannelOpenTry),
    ChannelOpenAck(MsgChannelOpenAck),
    ChannelOpenConfirm(MsgChannelOpenConfirm),
    RecvPacket(MsgRecvPacket),
    AckPacket(MsgAcknowledgement),
    CreateClient(MsgCreateClient),
    UpdateClient(MsgUpdateClient),
}

/// The value of a [`Msg`] as contracts see it.
pub enum MsgView {
    ConnectionOpenInit(MsgConnectionOpenInitView),
    ConnectionOpenTry(MsgConnectionOpenTryView),
    ConnectionOpenAck(MsgConnectionOpenAckView),
    ConnectionOpenConfirm(MsgConnectionOpenConfirmView),
    ChannelOpenInit(MsgChannelOpenInitView),
    ChannelOpenTry(MsgChannelOpenTryView),
    ChannelOpenAck(MsgChannelOpenAckView),
    ChannelOpenConfirm(MsgChannelOpenConfirmView),
    RecvPacket(MsgRecvPacketView),
    AckPacket(MsgAcknowledgementView),
    CreateClient(MsgCreateClientView),
    UpdateClient(MsgUpdateClientView),
}

impl View for Msg {
    type V = MsgView;

    open spec fn view(&self) -> MsgView {
        match *self {
            Msg::ConnectionOpenInit(x) => MsgView::ConnectionOpenInit(x@),
            Msg::ConnectionOpenTry(x) => MsgView::ConnectionOpenTry(x@),
            Msg::ConnectionOpenAck(x) => MsgView::ConnectionOpenAck(x@),
            Msg::ConnectionOpenConfirm(x) => MsgView::ConnectionOpenConfirm(x@),
            Msg::ChannelOpenInit(x) => MsgView::ChannelOpenInit(x@),
            Msg::ChannelOpenTry(x) => MsgView::ChannelOpenTry(x@),
            Msg::ChannelOpenAck(x) => MsgView::ChannelOpenAck(x@),
            Msg::ChannelOpenConfirm(x) => MsgView::ChannelOpenConfirm(x@),
            Msg::RecvPacket(x) => MsgView::RecvPacket(x@),
            Msg::AckPacket(x) => MsgView::AckPacket(x@),
            Msg::CreateClient(x) => MsgView::CreateClient(x@),
            Msg::UpdateClient(x) => MsgView::UpdateClient(x@),
        }
    }
}

impl Clone for Msg {
    fn clone(&self) -> (copy: Msg)
        ensures
            copy@ == self@,
    {
        match self {
            Msg::ConnectionOpenInit(x) => Msg::ConnectionOpenInit(x.clone()),
            Msg::ConnectionOpenTry(x) => Msg::ConnectionOpenTry(x.clone()),
            Msg::ConnectionOpenAck(x) => Msg::ConnectionOpenAck(x.clone()),
            Msg::ConnectionOpenConfirm(x) => Msg::ConnectionOpenConfirm(x.clone()),
            Msg::ChannelOpenInit(x) => Msg::ChannelOpenInit(x.clone()),
            Msg::ChannelOpenTry(x) => Msg::ChannelOpenTry(x.clone()),
            Msg::ChannelOpenAck(x) => Msg::ChannelOpenAck(x.clone()),
            Msg::ChannelOpenConfirm(x) => Msg::ChannelOpenConfirm(x.clone()),
            Msg::RecvPacket(x) => Msg::RecvPacket(x.clone()),
            Msg::AckPacket(x) => Msg::AckPacket(x.clone()),
            Msg::CreateClient(x) => Msg::CreateClient(x.clone()),
            Msg::UpdateClient(x) => Msg::UpdateClient(x.clone()),
        }
    }
}

} // verus!
