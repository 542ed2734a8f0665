//! What the contract decides when it is asked to transfer, and when it is
//! asked to carry out a received transfer.

use crate::transfer::denom::{normalize_all, spec_normalize_all, token_views};
use crate::transfer::funds::{coins_of, distinct_denoms, is_ordering_of, nonzero};
use crate::transfer::protocol::receive_phase1_allowed;
use crate::transfer::types::{
    ChannelInfo, ChannelInfoView, ContractError, ContractErrorView, IbcEndpoint, IbcEndpointView,
    Protocol, ProtocolError, ProtocolErrorView, TransferInput, TransferInputView, TransferMsg,
    TransferMsgView, TransferPacket, TransferPacketView, TransferPlan, TransferPlanView,
    TransferToken, TransferTokenView,
};
use vstd::prelude::*;

verus! {

/// The number of nanoseconds in a second.
pub const NANOS_PER_SECOND: u64 = 1_000_000_000;

/// The time `seconds` seconds after `now`, in nanoseconds since the Unix
/// epoch.
pub open spec fn spec_timeout_at(now: u64, seconds: u64) -> int {
    now + seconds * NANOS_PER_SECOND
}

/// The value of what the contract decides.
pub open spec fn decision_view<T: View>(decision: Result<T, ContractError>) -> Result<
    T::V,
    ContractErrorView,
> {
    match decision {
        Ok(value) => Ok(value@),
        Err(e) => Err(e@),
    }
}

/// The protocol variant of the channel `channel_id`, of which the contract has
/// recorded `channel`.
pub open spec fn spec_protocol_of(channel_id: Seq<char>, channel: Option<ChannelInfoView>) -> Result<
    Protocol,
    ContractErrorView,
> {
    match channel {
        None => Err(ContractErrorView::Protocol(ProtocolErrorView::NoSuchChannel { channel_id })),
        Some(info) => match Protocol::spec_from_version(info.protocol_version) {
            Some(protocol) => Ok(protocol),
            None => Err(
                ContractErrorView::UnknownProtocol {
                    channel_id,
                    protocol_version: info.protocol_version,
                },
            ),
        },
    }
}

fn known_channel(channel_id: String, channel: Option<ChannelInfo>) -> (decision: Result<
    (Protocol, ChannelInfo),
    ContractError,
>)
    ensures
        match decision {
            Ok(found) => channel == Some(found.1) && spec_protocol_of(channel_id@, Some(found.1@))
                == Ok::<Protocol, ContractErrorView>(found.0),
            Err(e) => spec_protocol_of(
                channel_id@,
                match channel {
                    Some(info) => Some(info@),
                    None => None,
                },
            ) == Err::<Protocol, ContractErrorView>(e@),
        },
{
    match channel {
        None => Err(ContractError::Protocol(ProtocolError::NoSuchChannel { channel_id })),
        Some(info) => match Protocol::from_version(info.protocol_version.as_str()) {
            Some(protocol) => Ok((protocol, info)),
            None => Err(
                ContractError::UnknownProtocol {
                    channel_id,
                    protocol_version: info.protocol_version,
                },
            ),
        },
    }
}

/// The packet for the transfer `input` over the channel end `endpoint`, by the
/// protocol variant `protocol`.
///
/// The packet carries the tokens as they are written for the other side of the
/// channel, carries `memo` if the variant has a memo, and times out
/// `timeout_delta` seconds after the current time.
pub open spec fn spec_plan_send(
    protocol: Protocol,
    endpoint: IbcEndpointView,
    input: TransferInputView,
    memo: Seq<char>,
) -> Result<TransferPlanView, ContractErrorView> {
    if spec_timeout_at(input.current_time, input.timeout_delta) > u64::MAX {
        Err(ContractErrorView::TimeoutOverflow)
    } else {
        Ok(
            TransferPlanView {
                protocol,
                channel_id: endpoint.channel_id,
                packet: TransferPacketView {
                    sender: input.sender,
                    receiver: input.receiver,
                    tokens: spec_normalize_all(input.tokens, endpoint),
                    memo: protocol.spec_memo(memo),
                },
                timeout_timestamp: spec_timeout_at(input.current_time, input.timeout_delta) as u64,
            },
        )
    }
}

/// The packet for the transfer `input` over the channel end `endpoint`, by the
/// protocol variant `protocol`.
pub fn plan_send(protocol: Protocol, endpoint: IbcEndpoint, input: TransferInput, memo: String) -> (decision:
    Result<TransferPlan, ContractError>)
    ensures
        decision_view(decision) == spec_plan_send(protocol, endpoint@, input@, memo@),
{
    let timeout_timestamp = match input.timeout_delta.checked_mul(NANOS_PER_SECOND) {
        Some(nanos) => match input.current_time.checked_add(nanos) {
            Some(at) => at,
            None => {
                return Err(ContractError::TimeoutOverflow);
            },
        },
        None => {
            return Err(ContractError::TimeoutOverflow);
        },
    };
    let tokens = normalize_all(input.tokens, &endpoint);
    Ok(
        TransferPlan {
            protocol,
            channel_id: endpoint.channel_id,
            packet: TransferPacket {
                sender: input.sender,
                receiver: input.receiver,
                tokens,
                memo: protocol.memo(memo),
            },
            timeout_timestamp,
        },
    )
}

/// What the contract decides on a request to transfer `tokens`, the funds in
/// order.
///
/// At least one token must be transferred, the channel must be known, and its
/// version must be that of a protocol variant. The packet is then planned as
/// [`spec_plan_send`] says, to time out `default_timeout` seconds after `now`.
pub open spec fn spec_plan_transfer(
    now: u64,
    sender: Seq<char>,
    tokens: Seq<TransferTokenView>,
    msg: TransferMsgView,
    channel: Option<ChannelInfoView>,
    default_timeout: u64,
) -> Result<TransferPlanView, ContractErrorView> {
    if tokens.len() == 0 {
        Err(ContractErrorView::NoFunds)
    } else {
        match spec_protocol_of(msg.channel, channel) {
            Err(e) => Err(e),
            Ok(protocol) => spec_plan_send(
                protocol,
                channel->Some_0.endpoint,
                TransferInputView {
                    current_time: now,
                    timeout_delta: default_timeout,
                    sender,
                    receiver: msg.receiver,
                    tokens,
                },
                msg.memo,
            ),
        }
    }
}

/// What the contract decides on a request to transfer `tokens`, the funds in
/// order, sent by `sender` at time `now`.
pub fn plan_transfer(
    now: u64,
    sender: String,
    tokens: Vec<TransferToken>,
    msg: TransferMsg,
    channel: Option<ChannelInfo>,
    default_timeout: u64,
) -> (decision: Result<TransferPlan, ContractError>)
    ensures
        decision_view(decision) == spec_plan_transfer(
            now,
            sender@,
            token_views(tokens@),
            msg@,
            match channel {
                Some(info) => Some(info@),
                None => None,
            },
            default_timeout,
        ),
{
    if tokens.len() == 0 {
        return Err(ContractError::NoFunds);
    }
    let (protocol, info) = match known_channel(msg.channel, channel) {
        Ok(found) => found,
        Err(e) => {
            return Err(e);
        },
    };
    let input = TransferInput {
        current_time: now,
        timeout_delta: default_timeout,
        sender,
        receiver: msg.receiver,
        tokens,
    };
    plan_send(protocol, info.endpoint, input, msg.memo)
}

/// What the contract decides on a request to transfer the funds `funds`.
///
/// The funds are put in order first: tokens of amount zero are left out, the
/// others are sorted by denomination, and a denomination named twice is
/// refused. What follows is decided as [`spec_plan_transfer`] says.
pub fn execute_transfer(
    now: u64,
    sender: String,
    funds: Vec<TransferToken>,
    msg: TransferMsg,
    channel: Option<ChannelInfo>,
    default_timeout: u64,
) -> (decision: Result<TransferPlan, ContractError>)
    ensures
        !distinct_denoms(nonzero(token_views(funds@))) ==> decision_view(decision) == Err::<
            TransferPlanView,
            ContractErrorView,
        >(ContractErrorView::InvalidFunds),
        distinct_denoms(nonzero(token_views(funds@))) ==> exists|tokens: Seq<TransferTokenView>|
            #[trigger] is_ordering_of(tokens, token_views(funds@)) && decision_view(decision)
                == spec_plan_transfer(
                now,
                sender@,
                tokens,
                msg@,
                match channel {
                    Some(info) => Some(info@),
                    None => None,
                },
                default_timeout,
            ),
{
    match coins_of(funds) {
        None => Err(ContractError::InvalidFunds),
        Some(tokens) => {
            assert(is_ordering_of(token_views(tokens@), token_views(funds@)));
            plan_transfer(now, sender, tokens, msg, channel, default_timeout)
        },
    }
}

/// Whether the contract carries out a received transfer on the channel
/// `channel_id`, and by which protocol variant.
///
/// The channel must be known and its version that of a variant, and the
/// request must come from the contract itself.
pub open spec fn spec_execute_receive_phase1(
    channel_id: Seq<char>,
    channel: Option<ChannelInfoView>,
    caller: Seq<char>,
    self_addr: Seq<char>,
) -> Result<Protocol, ContractErrorView> {
    match spec_protocol_of(channel_id, channel) {
        Err(e) => Err(e),
        Ok(protocol) => if caller == self_addr {
            Ok(protocol)
        } else {
            Err(ContractErrorView::Protocol(ProtocolErrorView::Unauthorized))
        },
    }
}

/// Whether the contract at `self_addr` carries out a received transfer on the
/// channel `channel_id` when `caller` asks for it, and by which protocol
/// variant.
pub fn execute_receive_phase1(
    channel_id: String,
    channel: Option<ChannelInfo>,
    caller: &str,
    self_addr: &str,
) -> (decision: Result<Protocol, ContractError>)
    ensures
        match decision {
            Ok(protocol) => spec_execute_receive_phase1(
                channel_id@,
                match channel {
                    Some(info) => Some(info@),
                    None => None,
                },
                caller@,
                self_addr@,
            ) == Ok::<Protocol, ContractErrorView>(protocol),
            Err(e) => spec_execute_receive_phase1(
                channel_id@,
                match channel {
                    Some(info) => Some(info@),
                    None => None,
                },
                caller@,
                self_addr@,
            ) == Err::<Protocol, ContractErrorView>(e@),
        },
{
    let protocol = match known_channel(channel_id, channel) {
        Ok(found) => found.0,
        Err(e) => {
            return Err(e);
        },
    };
    match receive_phase1_allowed(caller, self_addr) {
        Ok(()) => Ok(protocol),
        Err(e) => Err(ContractError::Protocol(e)),
    }
}

} // verus!
