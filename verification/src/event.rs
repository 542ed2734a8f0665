//! What a chain reports and what an operator asks for.
//!
//! Every IBC event is observed on one chain at one block. The engine turns an
//! observed event into a plan of follow-up messages; the payloads kept here are
//! the identifiers and heights that those plans are built from.

use crate::ids::{Height, Order};
use vstd::prelude::*;

verus! {

/// A light client was created.
#[derive(Debug, PartialEq, Eq)]
pub struct CreateClient {
    pub client_id: String,
    pub client_type: String,
    pub consensus_height: Height,
}

/// The value of a [`CreateClient`] as contracts see it.
pub struct CreateClientView {
    pub client_id: Seq<char>,
    pub client_type: Seq<char>,
    pub consensus_height: Height,
}

impl View for CreateClient {
    type V = CreateClientView;

    open spec fn view(&self) -> CreateClientView {
        CreateClientView {
            client_id: self.client_id@,
            client_type: self.client_type@,
            consensus_height: self.consensus_height,
        }
    }
}

impl Clone for CreateClient {
    fn clone(&self) -> (copy: CreateClient)
        ensures
            copy@ == self@,
    {
        CreateClient {
            client_id: self.client_id.clone(),
            client_type: self.client_type.clone(),
            consensus_height: self.consensus_height,
        }
    }
}

/// A light client was advanced to new consensus heights.
#[derive(Debug, PartialEq, Eq)]
pub struct UpdateClient {
    pub client_id: String,
    pub client_type: String,
    pub consensus_heights: Vec<Height>,
    pub header: String,
}

/// The value of a [`UpdateClient`] as contracts see it.
pub struct UpdateClientView {
    pub client_id: Seq<char>,
    pub client_type: Seq<char>,
    pub consensus_heights: Seq<Height>,
    pub header: Seq<char>,
}

impl View for UpdateClient {
    type V = UpdateClientView;

    open spec fn view(&self) -> UpdateClientView {
        UpdateClientView {
            client_id: self.client_id@,
            client_type: self.client_type@,
            consensus_heights: self.consensus_heights@,
            header: self.header@,
        }
    }
}

impl Clone for UpdateClient {
    fn clone(&self) -> (copy: UpdateClient)
        ensures
            copy@ == self@,
    {
        let copy = UpdateClient {
            client_id: self.client_id.clone(),
            client_type: self.client_type.clone(),
            consensus_heights: self.consensus_heights.clone(),
            header: self.header.clone(),
        };
        assert(copy@.consensus_heights =~= self@.consensus_heights);
        copy
    }
}

/// One step of a connection handshake, as seen on the chain that took it.
///
/// The same four identifiers are reported for the init, try, ack and confirm
/// steps; the event variant says which step it was.
#[derive(Debug, PartialEq, Eq)]
pub struct ConnectionHandshake {
    pub connection_id: String,
    pub client_id: String,
    pub counterparty_client_id: String,
    /// Empty until the counterparty has chosen its identifier.
    pub counterparty_connection_id: String,
}

/// The value of a [`ConnectionHandshake`] as contracts see it.
pub struct ConnectionHandshakeView {
    pub connection_id: Seq<char>,
    pub client_id: Seq<char>,
    pub counterparty_client_id: Seq<char>,
    pub counterparty_connection_id: Seq<char>,
}

impl View for ConnectionHandshake {
    type V = ConnectionHandshakeView;

    open spec fn view(&self) -> ConnectionHandshakeView {
        ConnectionHandshakeView {
            connection_id: self.connection_id@,
            client_id: self.client_id@,
            counterparty_client_id: self.counterparty_client_id@,
            counterparty_connection_id: self.counterparty_connection_id@,
        }
    }
}

impl Clone for ConnectionHandshake {
    fn clone(&self) -> (copy: ConnectionHandshake)
        ensures
            copy@ == self@,
    {
        ConnectionHandshake {
            connection_id: self.connection_id.clone(),
            client_id: self.client_id.clone(),
            counterparty_client_id: self.counterparty_client_id.clone(),
            counterparty_connection_id: self.counterparty_connection_id.clone(),
        }
    }
}

/// One step of a channel handshake, as seen on the chain that took it.
#[derive(Debug, PartialEq, Eq)]
pub struct ChannelHandshake {
    pub port_id: String,
    pub channel_id: String,
    pub counterparty_port_id: String,
    pub counterparty_channel_id: String,
    pub connection_id: String,
    pub version: String,
}

/// The value of a [`ChannelHandshake`] as contracts see it.
pub struct ChannelHandshakeView {
    pub port_id: Seq<char>,
    pub channel_id: Seq<char>,
    pub counterparty_port_id: Seq<char>,
    pub counterparty_channel_id: Seq<char>,
    pub connection_id: Seq<char>,
    pub version: Seq<char>,
}

impl View for ChannelHandshake {
    type V = ChannelHandshakeView;

    open spec fn view(&self) -> ChannelHandshakeView {
        ChannelHandshakeView {
            port_id: self.port_id@,
            channel_id: self.channel_id@,
            counterparty_port_id: self.counterparty_port_id@,
            counterparty_channel_id: self.counterparty_channel_id@,
            connection_id: self.connection_id@,
            version: self.version@,
        }
    }
}

impl Clone for ChannelHandshake {
    fn clone(&self) -> (copy: ChannelHandshake)
        ensures
            copy@ == self@,
    {
        ChannelHandshake {
            port_id: self.port_id.clone(),
            channel_id: self.channel_id.clone(),
            counterparty_port_id: self.counterparty_port_id.clone(),
            counterparty_channel_id: self.counterparty_channel_id.clone(),
            connection_id: self.connection_id.clone(),
            version: self.version.clone(),
        }
    }
}

/// A packet as reported by a send, receive, acknowledge or timeout event.
#[derive(Debug, PartialEq, Eq)]
pub struct PacketEventData {
    pub packet_data_hex: Vec<u8>,
    pub packet_timeout_height: Height,
    pub packet_timeout_timestamp: u64,
    pub packet_sequence: u64,
    pub packet_src_port: String,
    pub packet_src_channel: String,
    pub packet_dst_port: String,
    pub packet_dst_channel: String,
    pub packet_channel_ordering: Order,
    pub connection_id: String,
}

/// The value of a [`PacketEventData`] as contracts see it.
pub struct PacketEventDataView {
    pub packet_data_hex: Seq<u8>,
    pub packet_timeout_height: Height,
    pub packet_timeout_timestamp: u64,
    pub packet_sequence: u64,
    pub packet_src_port: Seq<char>,
    pub packet_src_channel: Seq<char>,
    pub packet_dst_port: Seq<char>,
    pub packet_dst_channel: Seq<char>,
    pub packet_channel_ordering: Order,
    pub connection_id: Seq<char>,
}

impl View for PacketEventData {
    type V = PacketEventDataView;

    open spec fn view(&self) -> PacketEventDataView {
        PacketEventDataView {
            packet_data_hex: self.packet_data_hex@,
            packet_timeout_height: self.packet_timeout_height,
            packet_timeout_timestamp: self.packet_timeout_timestamp,
            packet_sequence: self.packet_sequence,
            packet_src_port: self.packet_src_port@,
            packet_src_channel: self.packet_src_channel@,
            packet_dst_port: self.packet_dst_port@,
            packet_dst_channel: self.packet_dst_channel@,
            packet_channel_ordering: self.packet_channel_ordering,
            connection_id: self.connection_id@,
        }
    }
}

impl Clone for PacketEventData {
    fn clone(&self) -> (copy: PacketEventData)
        ensures
            copy@ == self@,
    {
        PacketEventData {
            packet_data_hex: self.packet_data_hex.clone(),
            packet_timeout_height: self.packet_timeout_height,
            packet_timeout_timestamp: self.packet_timeout_timestamp,
            packet_sequence: self.packet_sequence,
            packet_src_port: self.packet_src_port.clone(),
            packet_src_channel: self.packet_src_channel.clone(),
            packet_dst_port: self.packet_dst_port.clone(),
            packet_dst_channel: self.packet_dst_channel.clone(),
            packet_channel_ordering: self.packet_channel_ordering,
            connection_id: self.connection_id.clone(),
        }
    }
}

/// The closed set of IBC events the engine reacts to.
#[derive(Debug, PartialEq, Eq)]
pub enum IbcEvent {
    CreateClient(CreateClient),
    UpdateClient(UpdateClient),
    ConnectionOpenInit(ConnectionHandshake),
    ConnectionOpenTry(ConnectionHandshake),
    ConnectionOpenAck(ConnectionHandshake),
    ConnectionOpenConfirm(ConnectionHandshake),
    ChannelOpenInit(ChannelHandshake),
    ChannelOpenTry(ChannelHandshake),
    ChannelOpenAck(ChannelHandshake),
    ChannelOpenConfirm(ChannelHandshake),
    SendPacket(PacketEventData),
    RecvPacket(PacketEventData),
    AcknowledgePacket(PacketEventData),
    TimeoutPacket(PacketEventData),
    WriteAcknowledgement {
        packet: PacketEventData,
        packet_ack_hex: Vec<u8>,
    },
}

/// The value of a [`IbcEvent`] as contracts see it.
pub enum IbcEventView {
    CreateClient(CreateClientView),
    UpdateClient(UpdateClientView),
    ConnectionOpenInit(ConnectionHandshakeView),
    ConnectionOpenTry(ConnectionHandshakeView),
    ConnectionOpenAck(ConnectionHandshakeView),
    ConnectionOpenConfirm(ConnectionHandshakeView),
    ChannelOpenInit(ChannelHandshakeView),
    ChannelOpenTry(ChannelHandshakeView),
    ChannelOpenAck(ChannelHandshakeView),
    ChannelOpenConfirm(ChannelHandshakeView),
    SendPacket(PacketEventDataView),
    RecvPacket(PacketEventDataView),
    AcknowledgePacket(PacketEventDataView),
    TimeoutPacket(PacketEventDataView),
    WriteAcknowledgement {
        packet: PacketEventDataView,
        packet_ack_hex: Seq<u8>,
    },
}

impl View for IbcEvent {
    type V = IbcEventView;

    open spec fn view(&self) -> IbcEventView {
        match *self {
            IbcEvent::CreateClient(x) => IbcEventView::CreateClient(x@),
            IbcEvent::UpdateClient(x) => IbcEventView::UpdateClient(x@),
            IbcEvent::ConnectionOpenInit(x) => IbcEventView::ConnectionOpenInit(x@),
            IbcEvent::ConnectionOpenTry(x) => IbcEventView::ConnectionOpenTry(x@),
            IbcEvent::ConnectionOpenAck(x) => IbcEventView::ConnectionOpenAck(x@),
            IbcEvent::ConnectionOpenConfirm(x) => IbcEventView::ConnectionOpenConfirm(x@),
            IbcEvent::ChannelOpenInit(x) => IbcEventView::ChannelOpenInit(x@),
            IbcEvent::ChannelOpenTry(x) => IbcEventView::ChannelOpenTry(x@),
            IbcEvent::ChannelOpenAck(x) => IbcEventView::ChannelOpenAck(x@),
            IbcEvent::ChannelOpenConfirm(x) => IbcEventView::ChannelOpenConfirm(x@),
            IbcEvent::SendPacket(x) => IbcEventView::SendPacket(x@),
            IbcEvent::RecvPacket(x) => IbcEventView::RecvPacket(x@),
            IbcEvent::AcknowledgePacket(x) => IbcEventView::AcknowledgePacket(x@),
            IbcEvent::TimeoutPacket(x) => IbcEventView::TimeoutPacket(x@),
            IbcEvent::WriteAcknowledgement { packet, packet_ack_hex } => IbcEventView::WriteAcknowledgement {
                packet: packet@,
                packet_ack_hex: packet_ack_hex@,
            },
        }
    }
}

impl Clone for IbcEvent {
    fn clone(&self) -> (copy: IbcEvent)
        ensures
            copy@ == self@,
    {
        match self {
            IbcEvent::CreateClient(x) => IbcEvent::CreateClient(x.clone()),
            IbcEvent::UpdateClient(x) => IbcEvent::UpdateClient(x.clone()),
            IbcEvent::ConnectionOpenInit(x) => IbcEvent::ConnectionOpenInit(x.clone()),
            IbcEvent::ConnectionOpenTry(x) => IbcEvent::ConnectionOpenTry(x.clone()),
            IbcEvent::ConnectionOpenAck(x) => IbcEvent::ConnectionOpenAck(x.clone()),
            IbcEvent::ConnectionOpenConfirm(x) => IbcEvent::ConnectionOpenConfirm(x.clone()),
            IbcEvent::ChannelOpenInit(x) => IbcEvent::ChannelOpenInit(x.clone()),
            IbcEvent::ChannelOpenTry(x) => IbcEvent::ChannelOpenTry(x.clone()),
            IbcEvent::ChannelOpenAck(x) => IbcEvent::ChannelOpenAck(x.clone()),
            IbcEvent::ChannelOpenConfirm(x) => IbcEvent::ChannelOpenConfirm(x.clone()),
            IbcEvent::SendPacket(x) => IbcEvent::SendPacket(x.clone()),
            IbcEvent::RecvPacket(x) => IbcEvent::RecvPacket(x.clone()),
            IbcEvent::AcknowledgePacket(x) => IbcEvent::AcknowledgePacket(x.clone()),
            IbcEvent::TimeoutPacket(x) => IbcEvent::TimeoutPacket(x.clone()),
            IbcEvent::WriteAcknowledgement { packet, packet_ack_hex } => IbcEvent::WriteAcknowledgement {
                packet: packet.clone(),
                packet_ack_hex: packet_ack_hex.clone(),
            },
        }
    }
}

/// An IBC event together with the block it was observed in.
#[derive(Debug, PartialEq, Eq)]
pub struct ChainEvent {
    pub block_hash: [u8; 32],
    pub height: Height,
    pub event: IbcEvent,
}

/// The value of a [`ChainEvent`] as contracts see it.
pub struct ChainEventView {
    pub block_hash: Seq<u8>,
    pub height: Height,
    pub event: IbcEventView,
}

impl View for ChainEvent {
    type V = ChainEventView;

    open spec fn view(&self) -> ChainEventView {
        ChainEventView {
            block_hash: self.block_hash@,
            height: self.height,
            event: self.event@,
        }
    }
}

impl Clone for ChainEvent {
    fn clone(&self) -> (copy: ChainEvent)
        ensures
            copy@ == self@,
    {
        ChainEvent {
            block_hash: self.block_hash,
            height: self.height,
            event: self.event.clone(),
        }
    }
}

/// A maintenance request from the operator.
#[derive(Debug, PartialEq, Eq)]
pub enum Command {
    /// Bring `client_id` up to date with the latest height of the chain it tracks.
    UpdateClient {
        client_id: String,
        counterparty_client_id: String,
    },
}

/// The value of a [`Command`] as contracts see it.
pub enum CommandView {
    UpdateClient {
        client_id: Seq<char>,
        counterparty_client_id: Seq<char>,
    },
}

impl View for Command {
    type V = CommandView;

    open spec fn view(&self) -> CommandView {
        match *self {
            Command::UpdateClient { client_id, counterparty_client_id } => CommandView::UpdateClient {
                client_id: client_id@,
                counterparty_client_id: counterparty_client_id@,
            },
        }
    }
}

impl Clone for Command {
    fn clone(&self) -> (copy: Command)
        ensures
            copy@ == self@,
    {
        match self {
            Command::UpdateClient { client_id, counterparty_client_id } => Command::UpdateClient {
                client_id: client_id.clone(),
                counterparty_client_id: counterparty_client_id.clone(),
            },
        }
    }
}

/// Something the engine has to react to.
#[derive(Debug, PartialEq, Eq)]
pub enum Event {
    Ibc(ChainEvent),
    Command(Command),
}

/// The value of a [`Event`] as contracts see it.
pub enum EventView {
    Ibc(ChainEventView),
    Command(CommandView),
}

impl View for Event {
    type V = EventView;

    open spec fn view(&self) -> EventView {
        match *self {
            Event::Ibc(x) => EventView::Ibc(x@),
            Event::Command(x) => EventView::Command(x@),
        }
    }
}

impl Clone for Event {
    fn clone(&self) -> (copy: Event)
        ensures
            copy@ == self@,
    {
        match self {
            Event::Ibc(x) => Event::Ibc(x.clone()),
            Event::Command(x) => Event::Command(x.clone()),
        }
    }
}

} // verus!
