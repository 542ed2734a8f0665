//! The values that the token transfer module works on.

use vstd::prelude::*;

verus! {

/// What the transfer protocol refuses.
#[derive(Debug, PartialEq, Eq)]
pub enum ProtocolError {
    /// No channel of this name is known to the contract.
    NoSuchChannel { channel_id: String },
    /// A message that only the contract may send to itself came from elsewhere.
    Unauthorized,
}

/// The value of a [`ProtocolError`] as contracts see it.
pub enum ProtocolErrorView {
    NoSuchChannel { channel_id: Seq<char> },
    Unauthorized,
}

impl View for ProtocolError {
    type V = ProtocolErrorView;

    open spec fn view(&self) -> ProtocolErrorView {
        match *self {
            ProtocolError::NoSuchChannel { channel_id } => ProtocolErrorView::NoSuchChannel {
                channel_id: channel_id@,
            },
            ProtocolError::Unauthorized => ProtocolErrorView::Unauthorized,
        }
    }
}

impl Clone for ProtocolError {
    fn clone(&self) -> (copy: ProtocolError)
        ensures
            copy@ == self@,
    {
        match self {
            ProtocolError::NoSuchChannel { channel_id } => ProtocolError::NoSuchChannel {
                channel_id: channel_id.clone(),
            },
            ProtocolError::Unauthorized => ProtocolError::Unauthorized,
        }
    }
}

impl ProtocolErrorView {
    /// The error, in words.
    pub open spec fn message(self) -> Seq<char> {
        match self {
            ProtocolErrorView::NoSuchChannel { channel_id } => "Channel doesn't exist: "@ + channel_id,
            ProtocolErrorView::Unauthorized => "Protocol must be caller"@,
        }
    }
}

impl ProtocolError {
    /// The error, in words.
    pub fn message(&self) -> (text: String)
        ensures
            text@ == self@.message(),
    {
        match self {
            ProtocolError::NoSuchChannel { channel_id } => String::from_str(
                "Channel doesn't exist: ",
            ).concat(channel_id.as_str()),
            ProtocolError::Unauthorized => String::from_str("Protocol must be caller"),
        }
    }
}

/// The two variants of the transfer protocol.
#[derive(Clone, Copy, Debug, PartialEq, Eq, Structural)]
pub enum Protocol {
    /// The variant that the ICS20 transfer module speaks. Its packets carry a
    /// memo.
    Ics20,
    /// The multi-token variant. Its packets carry no memo.
    Ucs01,
}

/// An amount of one denomination.
#[derive(Debug, PartialEq, Eq)]
pub struct TransferToken {
    pub denom: String,
    pub amount: u128,
}

/// The value of a [`TransferToken`] as contracts see it.
pub struct TransferTokenView {
    pub denom: Seq<char>,
    pub amount: u128,
}

impl View for TransferToken {
    type V = TransferTokenView;

    open spec fn view(&self) -> TransferTokenView {
        TransferTokenView {
            denom: self.denom@,
            amount: self.amount,
        }
    }
}

impl Clone for TransferToken {
    fn clone(&self) -> (copy: TransferToken)
        ensures
            copy@ == self@,
    {
        TransferToken {
            denom: self.denom.clone(),
            amount: self.amount,
        }
    }
}

/// One end of a channel: a port and a channel on it.
#[derive(Debug, PartialEq, Eq)]
pub struct IbcEndpoint {
    pub port_id: String,
    pub channel_id: String,
}

/// The value of a [`IbcEndpoint`] as contracts see it.
pub struct IbcEndpointView {
    pub port_id: Seq<char>,
    pub channel_id: Seq<char>,
}

impl View for IbcEndpoint {
    type V = IbcEndpointView;

    open spec fn view(&self) -> IbcEndpointView {
        IbcEndpointView {
            port_id: self.port_id@,
            channel_id: self.channel_id@,
        }
    }
}

impl Clone for IbcEndpoint {
    fn clone(&self) -> (copy: IbcEndpoint)
        ensures
            copy@ == self@,
    {
        IbcEndpoint {
            port_id: self.port_id.clone(),
            channel_id: self.channel_id.clone(),
        }
    }
}

/// What a transfer packet carries. The memo is empty in the variant that has none.
#[derive(Debug, PartialEq, Eq)]
pub struct TransferPacket {
    pub sender: String,
    pub receiver: String,
    pub tokens: Vec<TransferToken>,
    pub memo: String,
}

/// The value of a [`TransferPacket`] as contracts see it.
pub struct TransferPacketView {
    pub sender: Seq<char>,
    pub receiver: Seq<char>,
    pub tokens: Seq<TransferTokenView>,
    pub memo: Seq<char>,
}

impl View for TransferPacket {
    type V = TransferPacketView;

    open spec fn view(&self) -> TransferPacketView {
        TransferPacketView {
            sender: self.sender@,
            receiver: self.receiver@,
            tokens: self.tokens@.map_values(|e: TransferToken| e@),
            memo: self.memo@,
        }
    }
}

impl Clone for TransferPacket {
    fn clone(&self) -> (copy: TransferPacket)
        ensures
            copy@ == self@,
    {
        let copy = TransferPacket {
            sender: self.sender.clone(),
            receiver: self.receiver.clone(),
            tokens: self.tokens.clone(),
            memo: self.memo.clone(),
        };
        assert(copy@.tokens =~= self@.tokens);
        copy
    }
}

/// A transfer as the sender asked for it.
#[derive(Debug, PartialEq, Eq)]
pub struct TransferInput {
    /// The time of the block, in nanoseconds since the Unix epoch.
    pub current_time: u64,
    /// After how many seconds the packet times out.
    pub timeout_delta: u64,
    pub sender: String,
    pub receiver: String,
    pub tokens: Vec<TransferToken>,
}

/// The value of a [`TransferInput`] as contracts see it.
pub struct TransferInputView {
    pub current_time: u64,
    pub timeout_delta: u64,
    pub sender: Seq<char>,
    pub receiver: Seq<char>,
    pub tokens: Seq<TransferTokenView>,
}

impl View for TransferInput {
    type V = TransferInputView;

    open spec fn view(&self) -> TransferInputView {
        TransferInputView {
            current_time: self.current_time,
            timeout_delta: self.timeout_delta,
            sender: self.sender@,
            receiver: self.receiver@,
            tokens: self.tokens@.map_values(|e: TransferToken| e@),
        }
    }
}

impl Clone for TransferInput {
    fn clone(&self) -> (copy: TransferInput)
        ensures
            copy@ == self@,
    {
        let copy = TransferInput {
            current_time: self.current_time,
            timeout_delta: self.timeout_delta,
            sender: self.sender.clone(),
            receiver: self.receiver.clone(),
            tokens: self.tokens.clone(),
        };
        assert(copy@.tokens =~= self@.tokens);
        copy
    }
}

/// A key and a value that an event reports.
#[derive(Debug, PartialEq, Eq)]
pub struct Attribute {
    pub key: String,
    pub value: String,
}

/// The value of a [`Attribute`] as contracts see it.
pub struct AttributeView {
    pub key: Seq<char>,
    pub value: Seq<char>,
}

impl View for Attribute {
    type V = AttributeView;

    open spec fn view(&self) -> AttributeView {
        AttributeView {
            key: self.key@,
            value: self.value@,
        }
    }
}

impl Clone for Attribute {
    fn clone(&self) -> (copy: Attribute)
        ensures
            copy@ == self@,
    {
        Attribute {
            key: self.key.clone(),
            value: self.value.clone(),
        }
    }
}

/// An event that the contract emits.
#[derive(Debug, PartialEq, Eq)]
pub struct ContractEvent {
    pub ty: String,
    pub attributes: Vec<Attribute>,
}

/// The value of a [`ContractEvent`] as contracts see it.
pub struct ContractEventView {
    pub ty: Seq<char>,
    pub attributes: Seq<AttributeView>,
}

impl View for ContractEvent {
    type V = ContractEventView;

    open spec fn view(&self) -> ContractEventView {
        ContractEventView {
            ty: self.ty@,
            attributes: self.attributes@.map_values(|e: Attribute| e@),
        }
    }
}

impl Clone for ContractEvent {
    fn clone(&self) -> (copy: ContractEvent)
        ensures
            copy@ == self@,
    {
        let copy = ContractEvent {
            ty: self.ty.clone(),
            attributes: self.attributes.clone(),
        };
        assert(copy@.attributes =~= self@.attributes);
        copy
    }
}

/// What the contract has recorded of one of its channels.
#[derive(Debug, PartialEq, Eq)]
pub struct ChannelInfo {
    pub endpoint: IbcEndpoint,
    pub counterparty_endpoint: IbcEndpoint,
    pub connection_id: String,
    pub protocol_version: String,
}

/// The value of a [`ChannelInfo`] as contracts see it.
pub struct ChannelInfoView {
    pub endpoint: IbcEndpointView,
    pub counterparty_endpoint: IbcEndpointView,
    pub connection_id: Seq<char>,
    pub protocol_version: Seq<char>,
}

impl View for ChannelInfo {
    type V = ChannelInfoView;

    open spec fn view(&self) -> ChannelInfoView {
        ChannelInfoView {
            endpoint: self.endpoint@,
            counterparty_endpoint: self.counterparty_endpoint@,
            connection_id: self.connection_id@,
            protocol_version: self.protocol_version@,
        }
    }
}

impl Clone for ChannelInfo {
    fn clone(&self) -> (copy: ChannelInfo)
        ensures
            copy@ == self@,
    {
        ChannelInfo {
            endpoint: self.endpoint.clone(),
            counterparty_endpoint: self.counterparty_endpoint.clone(),
            connection_id: self.connection_id.clone(),
            protocol_version: self.protocol_version.clone(),
        }
    }
}

/// A request to transfer the funds sent along with it.
#[derive(Debug, PartialEq, Eq)]
pub struct TransferMsg {
    pub channel: String,
    pub receiver: String,
    pub memo: String,
}

/// The value of a [`TransferMsg`] as contracts see it.
pub struct TransferMsgView {
    pub channel: Seq<char>,
    pub receiver: Seq<char>,
    pub memo: Seq<char>,
}

impl View for TransferMsg {
    type V = TransferMsgView;

    open spec fn view(&self) -> TransferMsgView {
        TransferMsgView {
            channel: self.channel@,
            receiver: self.receiver@,
            memo: self.memo@,
        }
    }
}

impl Clone for TransferMsg {
    fn clone(&self) -> (copy: TransferMsg)
        ensures
            copy@ == self@,
    {
        TransferMsg {
            channel: self.channel.clone(),
            receiver: self.receiver.clone(),
            memo: self.memo.clone(),
        }
    }
}

/// A transfer that the contract has agreed to, up to moving the tokens and encoding the packet.
#[derive(Debug, PartialEq, Eq)]
pub struct TransferPlan {
    pub protocol: Protocol,
    /// The channel that the packet leaves over.
    pub channel_id: String,
    pub packet: TransferPacket,
    /// When the packet times out, in nanoseconds since the Unix epoch.
    pub timeout_timestamp: u64,
}

/// The value of a [`TransferPlan`] as contracts see it.
pub struct TransferPlanView {
    pub protocol: Protocol,
    pub channel_id: Seq<char>,
    pub packet: TransferPacketView,
    pub timeout_timestamp: u64,
}

impl View for TransferPlan {
    type V = TransferPlanView;

    open spec fn view(&self) -> TransferPlanView {
        TransferPlanView {
            protocol: self.protocol,
            channel_id: self.channel_id@,
            packet: self.packet@,
            timeout_timestamp: self.timeout_timestamp,
        }
    }
}

impl Clone for TransferPlan {
    fn clone(&self) -> (copy: TransferPlan)
        ensures
            copy@ == self@,
    {
        TransferPlan {
            protocol: self.protocol,
            channel_id: self.channel_id.clone(),
            packet: self.packet.clone(),
            timeout_timestamp: self.timeout_timestamp,
        }
    }
}

/// Why the contract refuses a request.
#[derive(Debug, PartialEq, Eq)]
pub enum ContractError {
    /// No tokens were sent along with a transfer.
    NoFunds,
    /// The funds sent along name a denomination twice.
    InvalidFunds,
    /// The channel speaks a version that is none of the protocol's.
    UnknownProtocol {
        channel_id: String,
        protocol_version: String,
    },
    /// The time at which the packet would time out does not fit a timestamp.
    TimeoutOverflow,
    Protocol(ProtocolError),
}

/// The value of a [`ContractError`] as contracts see it.
pub enum ContractErrorView {
    NoFunds,
    InvalidFunds,
    UnknownProtocol {
        channel_id: Seq<char>,
        protocol_version: Seq<char>,
    },
    TimeoutOverflow,
    Protocol(ProtocolErrorView),
}

impl View for ContractError {
    type V = ContractErrorView;

    open spec fn view(&self) -> ContractErrorView {
        match *self {
            ContractError::NoFunds => ContractErrorView::NoFunds,
            ContractError::InvalidFunds => ContractErrorView::InvalidFunds,
            ContractError::UnknownProtocol { channel_id, protocol_version } => ContractErrorView::UnknownProtocol {
                channel_id: channel_id@,
                protocol_version: protocol_version@,
            },
            ContractError::TimeoutOverflow => ContractErrorView::TimeoutOverflow,
            ContractError::Protocol(x) => ContractErrorView::Protocol(x@),
        }
    }
}

impl Clone for ContractError {
    fn clone(&self) -> (copy: ContractError)
        ensures
            copy@ == self@,
    {
        match self {
            ContractError::NoFunds => ContractError::NoFunds,
            ContractError::InvalidFunds => ContractError::InvalidFunds,
            ContractError::UnknownProtocol { channel_id, protocol_version } => ContractError::UnknownProtocol {
                channel_id: channel_id.clone(),
                protocol_version: protocol_version.clone(),
            },
            ContractError::TimeoutOverflow => ContractError::TimeoutOverflow,
            ContractError::Protocol(x) => ContractError::Protocol(x.clone()),
        }
    }
}

} // verus!
