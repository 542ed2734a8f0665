//! What the two variants of the transfer protocol have in common: the
//! responses to a send, an acknowledgement, a timeout and a receipt.
//!
//! Moving the tokens themselves, and encoding packets, is the business of each
//! variant. What a variant made of that is handed in here, and the response is
//! built around it. Events report one attribute per denomination, `denom:x`
//! with the amount as its value, rather than a single denomination and amount.

use crate::ids::Order;
use crate::text::{decimal, spec_decimal, starts_with};
use crate::transfer::denom::token_views;
use crate::transfer::types::{
    Attribute, AttributeView, ContractEvent, ContractEventView, Protocol, ProtocolError,
    ProtocolErrorView, TransferPacket, TransferPacketView, TransferToken, TransferTokenView,
};
use vstd::prelude::*;

verus! {

/// The name of the module, as events report it.
pub const MODULE_NAME: &'static str = "transfer";

/// The type of the event that reports a packet's receipt or acknowledgement.
pub const PACKET_EVENT: &'static str = "fungible_token_packet";

/// The type of the event that reports a transfer.
pub const TRANSFER_EVENT: &'static str = "ibc_transfer";

/// The type of the event that reports a timeout.
pub const TIMEOUT_EVENT: &'static str = "timeout";

impl Protocol {
    /// The channel version under which this variant runs.
    pub open spec fn spec_version(self) -> Seq<char> {
        match self {
            Protocol::Ics20 => "ics20-1"@,
            Protocol::Ucs01 => "ucs01-0"@,
        }
    }

    /// The channel version under which this variant runs.
    pub fn version(self) -> (version: &'static str)
        ensures
            version@ == self.spec_version(),
    {
        match self {
            Protocol::Ics20 => "ics20-1",
            Protocol::Ucs01 => "ucs01-0",
        }
    }

    /// The variant that runs under the channel version `version`, if there is
    /// one.
    pub open spec fn spec_from_version(version: Seq<char>) -> Option<Protocol> {
        if version == Protocol::Ics20.spec_version() {
            Some(Protocol::Ics20)
        } else if version == Protocol::Ucs01.spec_version() {
            Some(Protocol::Ucs01)
        } else {
            None
        }
    }

    /// The variant that runs under the channel version `version`, if there is
    /// one.
    pub fn from_version(version: &str) -> (protocol: Option<Protocol>)
        ensures
            protocol == Protocol::spec_from_version(version@),
    {
        if same_text(version, Protocol::Ics20.version()) {
            Some(Protocol::Ics20)
        } else if same_text(version, Protocol::Ucs01.version()) {
            Some(Protocol::Ucs01)
        } else {
            None
        }
    }

    /// The order in which channels of this variant deliver packets.
    pub fn ordering(self) -> (order: Order)
        ensures
            order == Order::Unordered,
    {
        Order::Unordered
    }

    /// The identifier by which the reply to this variant's second receive
    /// phase is told apart.
    pub open spec fn spec_receive_reply_id(self) -> u64 {
        match self {
            Protocol::Ics20 => 0,
            Protocol::Ucs01 => 1,
        }
    }

    /// The identifier by which the reply to this variant's second receive
    /// phase is told apart.
    pub fn receive_reply_id(self) -> (id: u64)
        ensures
            id == self.spec_receive_reply_id(),
    {
        match self {
            Protocol::Ics20 => 0,
            Protocol::Ucs01 => 1,
        }
    }

    /// The memo that a packet of this variant carries when the sender asked
    /// for `memo`: the memo asked for, or none where the variant has none.
    pub open spec fn spec_memo(self, memo: Seq<char>) -> Seq<char> {
        match self {
            Protocol::Ics20 => memo,
            Protocol::Ucs01 => Seq::empty(),
        }
    }

    /// The memo that a packet of this variant carries when the sender asked
    /// for `memo`.
    pub fn memo(self, memo: String) -> (carried: String)
        ensures
            carried@ == self.spec_memo(memo@),
    {
        match self {
            Protocol::Ics20 => memo,
            Protocol::Ucs01 => String::new(),
        }
    }
}

/// Whether two texts are the same.
pub fn same_text(a: &str, b: &str) -> (same: bool)
    ensures
        same == (a@ == b@),
{
    let same = a.unicode_len() == b.unicode_len() && starts_with(a, b);
    proof {
        if same {
            assert(a@.subrange(0, b@.len() as int) =~= a@);
        }
        if a@ == b@ {
            assert(a@.subrange(0, b@.len() as int) =~= a@);
        }
    }
    same
}

/// The acknowledgement of the multi-token variant: one byte, one for success
/// and zero for failure.
pub open spec fn spec_ucs01_ack(success: bool) -> Seq<u8> {
    if success {
        seq![1u8]
    } else {
        seq![0u8]
    }
}

/// The acknowledgement of the multi-token variant.
pub fn ucs01_ack(success: bool) -> (ack: Vec<u8>)
    ensures
        ack@ == spec_ucs01_ack(success),
{
    let ack: Vec<u8> = if success {
        vec![1u8]
    } else {
        vec![0u8]
    };
    assert(ack@ =~= spec_ucs01_ack(success));
    ack
}

/// What an acknowledgement of the multi-token variant says: success, failure,
/// or nothing if it is no such acknowledgement.
pub open spec fn spec_parse_ucs01_ack(ack: Seq<u8>) -> Option<bool> {
    if ack == seq![1u8] {
        Some(true)
    } else if ack == seq![0u8] {
        Some(false)
    } else {
        None
    }
}

/// What an acknowledgement of the multi-token variant says.
pub fn parse_ucs01_ack(ack: &[u8]) -> (outcome: Option<bool>)
    ensures
        outcome == spec_parse_ucs01_ack(ack@),
{
    if ack.len() != 1 {
        None
    } else if ack[0] == 1 {
        assert(ack@ =~= seq![1u8]);
        Some(true)
    } else if ack[0] == 0 {
        assert(ack@ =~= seq![0u8]);
        Some(false)
    } else {
        assert(ack@[0] != 1u8 && ack@[0] != 0u8);
        None
    }
}

/// The bytes `bytes` in base64, with padding.
pub uninterp spec fn base64_text(bytes: Seq<u8>) -> Seq<char>;

/// `cosmwasm_std::Binary::to_base64`: the bytes in base64, with padding. The
/// text depends on the bytes alone.
#[verifier::external_body]
fn base64(bytes: &[u8]) -> (text: String)
    ensures
        text@ == base64_text(bytes@),
{
    cosmwasm_std::Binary::from(bytes).to_base64()
}

/// The attribute `key = value`.
pub open spec fn attr(key: Seq<char>, value: Seq<char>) -> AttributeView {
    AttributeView { key, value }
}

/// One attribute for each token: `denom:` and the denomination as the key, the
/// amount in decimal digits as the value.
pub open spec fn token_attributes(tokens: Seq<TransferTokenView>) -> Seq<AttributeView> {
    tokens.map_values(
        |token: TransferTokenView| attr("denom:"@ + token.denom, spec_decimal(token.amount as nat)),
    )
}

/// The values of a sequence of attributes.
pub open spec fn attribute_views(attributes: Seq<Attribute>) -> Seq<AttributeView> {
    attributes.map_values(|e: Attribute| e@)
}

/// The values of a sequence of events.
pub open spec fn event_views(events: Seq<ContractEvent>) -> Seq<ContractEventView> {
    events.map_values(|e: ContractEvent| e@)
}

/// An event of type `ty` that reports `first`, then one attribute for each
/// token.
pub open spec fn token_event(
    ty: Seq<char>,
    first: Seq<AttributeView>,
    tokens: Seq<TransferTokenView>,
) -> ContractEventView {
    ContractEventView { ty, attributes: first + token_attributes(tokens) }
}

fn mk_attr(key: &str, value: &str) -> (attribute: Attribute)
    ensures
        attribute@ == attr(key@, value@),
{
    Attribute { key: String::from_str(key), value: String::from_str(value) }
}

fn mk_token_event(ty: &str, first: Vec<Attribute>, tokens: &Vec<TransferToken>) -> (event:
    ContractEvent)
    ensures
        event@ == token_event(ty@, attribute_views(first@), token_views(tokens@)),
{
    let mut attributes = first;
    let mut i: usize = 0;
    assert(attribute_views(attributes@) =~= attribute_views(first@) + token_attributes(
        token_views(tokens@).take(0),
    ));
    while i < tokens.len()
        invariant
            i <= tokens.len(),
            attribute_views(attributes@) == attribute_views(first@) + token_attributes(
                token_views(tokens@).take(i as int),
            ),
        decreases tokens.len() - i,
    {
        let ghost before = attributes@;
        let token = &tokens[i];
        let key = String::from_str("denom:").concat(token.denom.as_str());
        let attribute = Attribute { key, value: decimal(token.amount) };
        attributes.push(attribute);
        assert(attribute_views(attributes@) =~= attribute_views(first@) + token_attributes(
            token_views(tokens@).take(i + 1),
        )) by {
            assert(attribute_views(attributes@) =~= attribute_views(before).push(attribute@));
            assert(token_views(tokens@).take(i + 1) =~= token_views(tokens@).take(i as int).push(
                token@,
            ));
        }
        i += 1;
    }
    assert(token_views(tokens@).take(tokens.len() as int) =~= token_views(tokens@));
    ContractEvent { ty: String::from_str(ty), attributes }
}

/// A message that a response asks the chain to carry out.
#[derive(Clone, Debug, PartialEq, Eq)]
pub enum OutMsg<M> {
    /// A message of the variant's own making, such as a mint or a burn.
    Custom(M),
    /// The packet `data`, to leave over `channel_id` and to time out at
    /// `timeout_timestamp`, in nanoseconds since the Unix epoch.
    SendPacket { channel_id: String, data: Vec<u8>, timeout_timestamp: u64 },
}

/// The value of an [`OutMsg`] as contracts see it.
pub enum OutMsgView<M> {
    Custom(M),
    SendPacket { channel_id: Seq<char>, data: Seq<u8>, timeout_timestamp: u64 },
}

impl<M> View for OutMsg<M> {
    type V = OutMsgView<M>;

    open spec fn view(&self) -> OutMsgView<M> {
        match *self {
            OutMsg::Custom(msg) => OutMsgView::Custom(msg),
            OutMsg::SendPacket { channel_id, data, timeout_timestamp } => OutMsgView::SendPacket {
                channel_id: channel_id@,
                data: data@,
                timeout_timestamp,
            },
        }
    }
}

/// The values of a sequence of messages.
pub open spec fn out_views<M>(msgs: Seq<OutMsg<M>>) -> Seq<OutMsgView<M>> {
    msgs.map_values(|e: OutMsg<M>| e@)
}

/// The messages `msgs`, each as a message of the variant's own making.
pub open spec fn customs<M>(msgs: Seq<M>) -> Seq<OutMsgView<M>> {
    msgs.map_values(|msg: M| OutMsgView::Custom(msg))
}

/// The response to a request to send.
#[derive(Clone, Debug, PartialEq, Eq)]
pub struct Response<M> {
    pub messages: Vec<OutMsg<M>>,
    pub events: Vec<ContractEvent>,
}

/// The value of a [`Response`] as contracts see it.
pub struct ResponseView<M> {
    pub messages: Seq<OutMsgView<M>>,
    pub events: Seq<ContractEventView>,
}

impl<M> View for Response<M> {
    type V = ResponseView<M>;

    open spec fn view(&self) -> ResponseView<M> {
        ResponseView { messages: out_views(self.messages@), events: event_views(self.events@) }
    }
}

/// The response to an acknowledgement or a timeout.
#[derive(Clone, Debug, PartialEq, Eq)]
pub struct BasicResponse<M> {
    pub messages: Vec<M>,
    pub events: Vec<ContractEvent>,
}

/// The value of a [`BasicResponse`] as contracts see it.
pub struct BasicResponseView<M> {
    pub messages: Seq<M>,
    pub events: Seq<ContractEventView>,
}

impl<M> View for BasicResponse<M> {
    type V = BasicResponseView<M>;

    open spec fn view(&self) -> BasicResponseView<M> {
        BasicResponseView { messages: self.messages@, events: event_views(self.events@) }
    }
}

/// The response to a received packet.
#[derive(Clone, Debug, PartialEq, Eq)]
pub struct ReceiveResponse<M> {
    /// The acknowledgement to write, unless the reply handler overwrites it.
    pub acknowledgement: Vec<u8>,
    pub events: Vec<ContractEvent>,
    /// The message that carries out the transfer, and the identifier under
    /// which its failure is reported back.
    pub reply_on_error: Option<(M, u64)>,
}

/// The value of a [`ReceiveResponse`] as contracts see it.
pub struct ReceiveResponseView<M> {
    pub acknowledgement: Seq<u8>,
    pub events: Seq<ContractEventView>,
    pub reply_on_error: Option<(M, u64)>,
}

impl<M> View for ReceiveResponse<M> {
    type V = ReceiveResponseView<M>;

    open spec fn view(&self) -> ReceiveResponseView<M> {
        ReceiveResponseView {
            acknowledgement: self.acknowledgement@,
            events: event_views(self.events@),
            reply_on_error: self.reply_on_error,
        }
    }
}

/// The response to a send: the variant's own messages, then the packet; and
/// two events, one that reports the transfer with its sender, receiver and memo
/// and each token, and one that names the module.
pub open spec fn spec_send_response<M>(
    channel_id: Seq<char>,
    packet: TransferPacketView,
    data: Seq<u8>,
    timeout_timestamp: u64,
    send_msgs: Seq<M>,
) -> ResponseView<M> {
    ResponseView {
        messages: customs(send_msgs).push(
            OutMsgView::SendPacket { channel_id, data, timeout_timestamp },
        ),
        events: seq![
            token_event(
                TRANSFER_EVENT@,
                seq![
                    attr("sender"@, packet.sender),
                    attr("receiver"@, packet.receiver),
                    attr("memo"@, packet.memo),
                ],
                packet.tokens,
            ),
            ContractEventView { ty: "message"@, attributes: seq![attr("module"@, MODULE_NAME@)] },
        ],
    }
}

/// The response to a send.
///
/// `data` is `packet` as the variant encodes it and `send_msgs` are the
/// messages by which the variant takes the tokens from the sender.
pub fn send_response<M>(
    channel_id: String,
    packet: &TransferPacket,
    data: Vec<u8>,
    timeout_timestamp: u64,
    send_msgs: Vec<M>,
) -> (response: Response<M>)
    ensures
        response@ == spec_send_response(channel_id@, packet@, data@, timeout_timestamp, send_msgs@),
{
    let ghost all = send_msgs@;
    let mut messages: Vec<OutMsg<M>> = Vec::new();
    assert(out_views(messages@) =~= customs(all.take(0)));
    for msg in it: send_msgs
        invariant
            it.seq() == all,
            out_views(messages@) == customs(all.take(it.index() as int)),
    {
        let ghost before = messages@;
        let out = OutMsg::Custom(msg);
        messages.push(out);
        assert(out_views(messages@) =~= customs(all.take(it.index() + 1))) by {
            assert(out_views(messages@) =~= out_views(before).push(out@));
            assert(all.take(it.index() + 1) =~= all.take(it.index() as int).push(msg));
        }
    }
    assert(all.take(all.len() as int) =~= all);
    let ghost before_send = messages@;
    let send = OutMsg::SendPacket { channel_id, data, timeout_timestamp };
    messages.push(send);
    assert(out_views(messages@) =~= out_views(before_send).push(send@));
    let first = vec![
        mk_attr("sender", packet.sender.as_str()),
        mk_attr("receiver", packet.receiver.as_str()),
        mk_attr("memo", packet.memo.as_str()),
    ];
    assert(attribute_views(first@) =~= seq![
        attr("sender"@, packet@.sender),
        attr("receiver"@, packet@.receiver),
        attr("memo"@, packet@.memo),
    ]);
    let transfer = mk_token_event(TRANSFER_EVENT, first, &packet.tokens);
    let module_attrs = vec![mk_attr("module", MODULE_NAME)];
    assert(attribute_views(module_attrs@) =~= seq![attr("module"@, MODULE_NAME@)]);
    let module = ContractEvent { ty: String::from_str("message"), attributes: module_attrs };
    let events = vec![transfer, module];
    assert(event_views(events@) =~= seq![transfer@, module@]);
    Response { messages, events }
}

/// What an acknowledgement says, whatever the variant: the result of a
/// success, or the error of a failure.
pub type GenericAck = Result<Vec<u8>, String>;

/// The attribute that reports what an acknowledgement says: the result in
/// base64 under `success`, or the error under `error`.
pub open spec fn ack_attribute(ack: Result<Seq<u8>, Seq<char>>) -> AttributeView {
    match ack {
        Ok(value) => attr("success"@, base64_text(value)),
        Err(error) => attr("error"@, error),
    }
}

/// The value of a [`GenericAck`].
pub open spec fn ack_view(ack: GenericAck) -> Result<Seq<u8>, Seq<char>> {
    match ack {
        Ok(value) => Ok(value@),
        Err(error) => Err(error@),
    }
}

/// Whether the tokens of an acknowledged packet go back to the sender: they do
/// if the acknowledgement reports a failure.
pub fn refunds(ack: &GenericAck) -> (refund: bool)
    ensures
        refund == ack is Err,
{
    match ack {
        Ok(_) => false,
        Err(_) => true,
    }
}

/// The response to an acknowledgement: the variant's own messages, and two
/// events, one that reports the packet with the acknowledgement in base64 and
/// each token, and one that reports what the acknowledgement says.
pub open spec fn spec_ack_response<M>(
    packet: TransferPacketView,
    raw_ack: Seq<u8>,
    ack: Result<Seq<u8>, Seq<char>>,
    ack_msgs: Seq<M>,
) -> BasicResponseView<M> {
    BasicResponseView {
        messages: ack_msgs,
        events: seq![
            token_event(
                PACKET_EVENT@,
                seq![
                    attr("module"@, MODULE_NAME@),
                    attr("sender"@, packet.sender),
                    attr("receiver"@, packet.receiver),
                    attr("memo"@, packet.memo),
                    attr("acknowledgement"@, base64_text(raw_ack)),
                ],
                packet.tokens,
            ),
            ContractEventView { ty: PACKET_EVENT@, attributes: seq![ack_attribute(ack)] },
        ],
    }
}

/// The response to an acknowledgement.
///
/// `raw_ack` is the acknowledgement as it arrived, `ack` what it says, and
/// `ack_msgs` the messages by which the variant settles the transfer: none on
/// success, the refund on failure.
pub fn ack_response<M>(
    packet: &TransferPacket,
    raw_ack: &Vec<u8>,
    ack: GenericAck,
    ack_msgs: Vec<M>,
) -> (response: BasicResponse<M>)
    ensures
        response@ == spec_ack_response(packet@, raw_ack@, ack_view(ack), ack_msgs@),
{
    let first = vec![
        mk_attr("module", MODULE_NAME),
        mk_attr("sender", packet.sender.as_str()),
        mk_attr("receiver", packet.receiver.as_str()),
        mk_attr("memo", packet.memo.as_str()),
        mk_attr("acknowledgement", base64(raw_ack.as_slice()).as_str()),
    ];
    assert(attribute_views(first@) =~= seq![
        attr("module"@, MODULE_NAME@),
        attr("sender"@, packet@.sender),
        attr("receiver"@, packet@.receiver),
        attr("memo"@, packet@.memo),
        attr("acknowledgement"@, base64_text(raw_ack@)),
    ]);
    let reported = mk_token_event(PACKET_EVENT, first, &packet.tokens);
    let said = match ack {
        Ok(value) => mk_attr("success", base64(value.as_slice()).as_str()),
        Err(error) => mk_attr("error", error.as_str()),
    };
    let said_attrs = vec![said];
    assert(attribute_views(said_attrs@) =~= seq![said@]);
    let outcome = ContractEvent { ty: String::from_str(PACKET_EVENT), attributes: said_attrs };
    let events = vec![reported, outcome];
    assert(event_views(events@) =~= seq![reported@, outcome@]);
    BasicResponse { messages: ack_msgs, events }
}

/// The response to a timeout: the refund, and an event that reports who is
/// refunded, the memo and each token.
pub open spec fn spec_timeout_response<M>(packet: TransferPacketView, refund_msgs: Seq<M>) -> BasicResponseView<
    M,
> {
    BasicResponseView {
        messages: refund_msgs,
        events: seq![
            token_event(
                TIMEOUT_EVENT@,
                seq![
                    attr("module"@, MODULE_NAME@),
                    attr("refund_receiver"@, packet.sender),
                    attr("memo"@, packet.memo),
                ],
                packet.tokens,
            ),
        ],
    }
}

/// The response to a timeout. `refund_msgs` are the messages by which the
/// variant gives the tokens back to the sender.
pub fn timeout_response<M>(packet: &TransferPacket, refund_msgs: Vec<M>) -> (response: BasicResponse<
    M,
>)
    ensures
        response@ == spec_timeout_response(packet@, refund_msgs@),
{
    let first = vec![
        mk_attr("module", MODULE_NAME),
        mk_attr("refund_receiver", packet.sender.as_str()),
        mk_attr("memo", packet.memo.as_str()),
    ];
    assert(attribute_views(first@) =~= seq![
        attr("module"@, MODULE_NAME@),
        attr("refund_receiver"@, packet@.sender),
        attr("memo"@, packet@.memo),
    ]);
    let reported = mk_token_event(TIMEOUT_EVENT, first, &packet.tokens);
    let events = vec![reported];
    assert(event_views(events@) =~= seq![reported@]);
    BasicResponse { messages: refund_msgs, events }
}

/// The response to a packet that can be received: the acknowledgement of
/// success, to stand unless carrying out the transfer fails; the message that
/// carries it out, whose failure is reported back under `reply_id`; and an
/// event that reports the packet as received.
pub open spec fn spec_receive_response<M>(
    packet: TransferPacketView,
    ack_success: Seq<u8>,
    execute_msg: M,
    reply_id: u64,
) -> ReceiveResponseView<M> {
    ReceiveResponseView {
        acknowledgement: ack_success,
        events: seq![
            token_event(
                PACKET_EVENT@,
                seq![
                    attr("module"@, MODULE_NAME@),
                    attr("sender"@, packet.sender),
                    attr("receiver"@, packet.receiver),
                    attr("memo"@, packet.memo),
                    attr("success"@, "true"@),
                ],
                packet.tokens,
            ),
        ],
        reply_on_error: Some((execute_msg, reply_id)),
    }
}

/// The response to a packet that can be received.
pub fn receive_response<M>(
    packet: &TransferPacket,
    ack_success: Vec<u8>,
    execute_msg: M,
    reply_id: u64,
) -> (response: ReceiveResponse<M>)
    ensures
        response@ == spec_receive_response(packet@, ack_success@, execute_msg, reply_id),
{
    let first = vec![
        mk_attr("module", MODULE_NAME),
        mk_attr("sender", packet.sender.as_str()),
        mk_attr("receiver", packet.receiver.as_str()),
        mk_attr("memo", packet.memo.as_str()),
        mk_attr("success", "true"),
    ];
    assert(attribute_views(first@) =~= seq![
        attr("module"@, MODULE_NAME@),
        attr("sender"@, packet@.sender),
        attr("receiver"@, packet@.receiver),
        attr("memo"@, packet@.memo),
        attr("success"@, "true"@),
    ]);
    let reported = mk_token_event(PACKET_EVENT, first, &packet.tokens);
    let events = vec![reported];
    assert(event_views(events@) =~= seq![reported@]);
    ReceiveResponse {
        acknowledgement: ack_success,
        events,
        reply_on_error: Some((execute_msg, reply_id)),
    }
}

/// The response to a packet that cannot be received, or whose transfer
/// failed: the acknowledgement of failure and an event that reports the error.
pub open spec fn spec_receive_error<M>(error: Seq<char>, ack_failure: Seq<u8>) -> ReceiveResponseView<
    M,
> {
    ReceiveResponseView {
        acknowledgement: ack_failure,
        events: seq![
            ContractEventView {
                ty: PACKET_EVENT@,
                attributes: seq![
                    attr("module"@, MODULE_NAME@),
                    attr("success"@, "false"@),
                    attr("error"@, error),
                ],
            },
        ],
        reply_on_error: None,
    }
}

/// The response to a packet that cannot be received, or whose transfer
/// failed. `ack_failure` is the variant's acknowledgement of `error`.
pub fn receive_error<M>(error: &str, ack_failure: Vec<u8>) -> (response: ReceiveResponse<M>)
    ensures
        response@ == spec_receive_error::<M>(error@, ack_failure@),
{
    let attributes = vec![
        mk_attr("module", MODULE_NAME),
        mk_attr("success", "false"),
        mk_attr("error", error),
    ];
    assert(attribute_views(attributes@) =~= seq![
        attr("module"@, MODULE_NAME@),
        attr("success"@, "false"@),
        attr("error"@, error@),
    ]);
    let reported = ContractEvent { ty: String::from_str(PACKET_EVENT), attributes };
    let events = vec![reported];
    assert(event_views(events@) =~= seq![reported@]);
    ReceiveResponse { acknowledgement: ack_failure, events, reply_on_error: None }
}

/// Whether the second receive phase may run: only the contract itself may
/// start it.
pub open spec fn spec_receive_phase1_allowed(caller: Seq<char>, self_addr: Seq<char>) -> Result<
    (),
    ProtocolErrorView,
> {
    if caller == self_addr {
        Ok(())
    } else {
        Err(ProtocolErrorView::Unauthorized)
    }
}

/// Whether the second receive phase may run, asked for by `caller` of the
/// contract at `self_addr`.
pub fn receive_phase1_allowed(caller: &str, self_addr: &str) -> (allowed: Result<(), ProtocolError>)
    ensures
        match allowed {
            Ok(()) => spec_receive_phase1_allowed(caller@, self_addr@) is Ok,
            Err(e) => spec_receive_phase1_allowed(caller@, self_addr@) == Err::<
                (),
                ProtocolErrorView,
            >(e@),
        },
{
    if same_text(caller, self_addr) {
        Ok(())
    } else {
        Err(ProtocolError::Unauthorized)
    }
}

} // verus!
