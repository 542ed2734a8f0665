//! From an observed event to the plan that answers it.
//!
//! Proofs of what happened in block `h` can only be checked against block
//! `h + 1`. So every plan first waits for the next block, and every proof it
//! asks for later is taken at a height after the event's own.

use crate::aggregate::{
    Aggregate, AggregateConnectionOpen, AggregateConnectionOpenView, AggregateMsgAfterUpdate,
    AggregateMsgAfterUpdateView, AggregateView, ChannelHandshakeEvent,
    ChannelHandshakeEventView, PacketEvent, PacketEventView,
};
use crate::event::{
    ChainEvent, Command, CommandView, Event, EventView, IbcEvent, IbcEventView, PacketEventData,
    PacketEventDataView,
};
use crate::fetch::{Fetch, FetchView};
use crate::ids::{ChainId, ChainIdView, Height, LightClientKind, QueryHeight};
use crate::relayer_msg::{
    msgs1, msgs2, no_msgs, views, AggregateReceiver, AggregateReceiverView, RelayerMsg,
    RelayerMsgView,
};
use crate::wait::{Wait, WaitView};
use vstd::prelude::*;

verus! {

/// The plan that brings the counterparty's client of this chain to the block
/// after `event_height`.
///
/// First the state of `client_id` is read: it names the counterparty's chain.
/// What follows is up to [`Aggregate::UpdateClient`].
pub open spec fn spec_mk_aggregate_update(
    light_client: LightClientKind,
    chain_id: ChainIdView,
    client_id: Seq<char>,
    counterparty_client_id: Seq<char>,
    event_height: Height,
) -> RelayerMsgView {
    RelayerMsgView::aggregate(
        seq![
            RelayerMsgView::fetch(
                light_client,
                chain_id,
                FetchView::TrustedClientState { at: QueryHeight::Latest, client_id },
            ),
        ],
        AggregateReceiverView::new(
            light_client,
            chain_id,
            AggregateView::UpdateClient {
                update_to: event_height.increment(),
                client_id,
                counterparty_client_id,
            },
        ),
    )
}

/// Wait until the chain has produced the block after `height`.
pub open spec fn wait_for_next_block(
    light_client: LightClientKind,
    chain_id: ChainIdView,
    height: Height,
) -> RelayerMsgView {
    RelayerMsgView::wait(light_client, chain_id, WaitView::Block(height.increment()))
}

/// The answer to a connection handshake step observed at `height`: wait for
/// the next block, update the counterparty's client, then prepare `next`.
pub open spec fn connection_plan(
    light_client: LightClientKind,
    chain_id: ChainIdView,
    height: Height,
    client_id: Seq<char>,
    counterparty_client_id: Seq<char>,
    next: AggregateMsgAfterUpdateView,
) -> RelayerMsgView {
    RelayerMsgView::Sequence(
        seq![
            wait_for_next_block(light_client, chain_id, height),
            RelayerMsgView::aggregate(
                seq![
                    spec_mk_aggregate_update(
                        light_client,
                        chain_id,
                        client_id,
                        counterparty_client_id,
                        height,
                    ),
                ],
                AggregateReceiverView::new(
                    light_client,
                    chain_id,
                    AggregateView::AggregateMsgAfterUpdate(next),
                ),
            ),
        ],
    )
}

/// The answer to a channel handshake step observed at `height`: wait for the
/// next block, look up the connection the channel runs over, then go on with
/// [`Aggregate::ChannelHandshakeUpdateClient`].
pub open spec fn channel_plan(
    light_client: LightClientKind,
    chain_id: ChainIdView,
    height: Height,
    port_id: Seq<char>,
    channel_id: Seq<char>,
    step: ChannelHandshakeEventView,
) -> RelayerMsgView {
    RelayerMsgView::Sequence(
        seq![
            wait_for_next_block(light_client, chain_id, height),
            RelayerMsgView::aggregate(
                seq![
                    RelayerMsgView::aggregate(
                        seq![
                            RelayerMsgView::fetch(
                                light_client,
                                chain_id,
                                FetchView::ChannelEnd { at: height.increment(), port_id, channel_id },
                            ),
                        ],
                        AggregateReceiverView::new(
                            light_client,
                            chain_id,
                            AggregateView::ConnectionFetchFromChannelEnd { at: height.increment() },
                        ),
                    ),
                ],
                AggregateReceiverView::new(
                    light_client,
                    chain_id,
                    AggregateView::ChannelHandshakeUpdateClient {
                        update_to: height.increment(),
                        event_height: height,
                        channel_handshake_event: step,
                    },
                ),
            ),
        ],
    )
}

/// The answer to a packet sent in block `block_hash` at `height`: wait for the
/// next block, look up the packet's connection, then go on with
/// [`Aggregate::PacketUpdateClient`].
pub open spec fn send_packet_plan(
    light_client: LightClientKind,
    chain_id: ChainIdView,
    block_hash: Seq<u8>,
    height: Height,
    packet: PacketEventDataView,
) -> RelayerMsgView {
    RelayerMsgView::Sequence(
        seq![
            wait_for_next_block(light_client, chain_id, height),
            RelayerMsgView::aggregate(
                seq![
                    RelayerMsgView::fetch(
                        light_client,
                        chain_id,
                        FetchView::ConnectionEnd { at: height, connection_id: packet.connection_id },
                    ),
                ],
                AggregateReceiverView::new(
                    light_client,
                    chain_id,
                    AggregateView::PacketUpdateClient {
                        update_to: height.increment(),
                        event_height: height,
                        block_hash,
                        packet_event: PacketEventView::Send(packet),
                    },
                ),
            ),
        ],
    )
}

/// The answer to an operator's request to update `client_id`.
pub open spec fn update_client_command_plan(
    light_client: LightClientKind,
    chain_id: ChainIdView,
    client_id: Seq<char>,
    counterparty_client_id: Seq<char>,
) -> RelayerMsgView {
    RelayerMsgView::aggregate(
        seq![
            RelayerMsgView::fetch(
                light_client,
                chain_id,
                FetchView::TrustedClientState { at: QueryHeight::Latest, client_id },
            ),
        ],
        AggregateReceiverView::new(
            light_client,
            chain_id,
            AggregateView::UpdateClientFromClientId { client_id, counterparty_client_id },
        ),
    )
}

/// The successors of an event observed by `light_client` on `chain_id`.
///
/// The first three steps of either handshake and a sent packet each call for
/// one plan. Everything else calls for nothing: the last handshake steps and
/// client events only report what was achieved, and a received, acknowledged
/// or timed out packet is left to the chain that sent it.
pub open spec fn spec_handle_event(
    light_client: LightClientKind,
    chain_id: ChainIdView,
    event: EventView,
) -> Seq<RelayerMsgView> {
    match event {
        EventView::Ibc(observed) => {
            let height = observed.height;
            match observed.event {
                IbcEventView::ConnectionOpenInit(init) => seq![
                    connection_plan(
                        light_client,
                        chain_id,
                        height,
                        init.client_id,
                        init.counterparty_client_id,
                        AggregateMsgAfterUpdateView::ConnectionOpenTry(
                            AggregateConnectionOpenView { event_height: height, event: init },
                        ),
                    ),
                ],
                IbcEventView::ConnectionOpenTry(try_) => seq![
                    connection_plan(
                        light_client,
                        chain_id,
                        height,
                        try_.client_id,
                        try_.counterparty_client_id,
                        AggregateMsgAfterUpdateView::ConnectionOpenAck(
                            AggregateConnectionOpenView { event_height: height, event: try_ },
                        ),
                    ),
                ],
                IbcEventView::ConnectionOpenAck(ack) => seq![
                    connection_plan(
                        light_client,
                        chain_id,
                        height,
                        ack.client_id,
                        ack.counterparty_client_id,
                        AggregateMsgAfterUpdateView::ConnectionOpenConfirm(
                            AggregateConnectionOpenView { event_height: height, event: ack },
                        ),
                    ),
                ],
                IbcEventView::ChannelOpenInit(init) => seq![
                    channel_plan(
                        light_client,
                        chain_id,
                        height,
                        init.port_id,
                        init.channel_id,
                        ChannelHandshakeEventView::Init(init),
                    ),
                ],
                IbcEventView::ChannelOpenTry(try_) => seq![
                    channel_plan(
                        light_client,
                        chain_id,
                        height,
                        try_.port_id,
                        try_.channel_id,
                        ChannelHandshakeEventView::Try(try_),
                    ),
                ],
                IbcEventView::ChannelOpenAck(ack) => seq![
                    channel_plan(
                        light_client,
                        chain_id,
                        height,
                        ack.port_id,
                        ack.channel_id,
                        ChannelHandshakeEventView::Ack(ack),
                    ),
                ],
                IbcEventView::SendPacket(packet) => seq![
                    send_packet_plan(light_client, chain_id, observed.block_hash, height, packet),
                ],
                _ => Seq::empty(),
            }
        },
        EventView::Command(CommandView::UpdateClient { client_id, counterparty_client_id }) => seq![
            update_client_command_plan(light_client, chain_id, client_id, counterparty_client_id),
        ],
    }
}

/// Whether `event` calls for a plan, and with it for the height after its own.
pub open spec fn needs_next_height(event: EventView) -> bool {
    match event {
        EventView::Ibc(observed) => match observed.event {
            IbcEventView::ConnectionOpenInit(_)
            | IbcEventView::ConnectionOpenTry(_)
            | IbcEventView::ConnectionOpenAck(_)
            | IbcEventView::ChannelOpenInit(_)
            | IbcEventView::ChannelOpenTry(_)
            | IbcEventView::ChannelOpenAck(_)
            | IbcEventView::SendPacket(_) => true,
            _ => false,
        },
        EventView::Command(_) => false,
    }
}

/// Whether the height after the event's own can be written down.
pub open spec fn event_height_in_range(event: EventView) -> bool {
    match event {
        EventView::Ibc(observed) => needs_next_height(event) ==> observed.height.revision_height
            < u64::MAX,
        EventView::Command(_) => true,
    }
}

/// The plan that brings the counterparty's client of this chain to the block
/// after `event_height`.
///
/// Three facts are needed in turn, each known only once the one before has
/// been fetched: the state of `client_id` on `chain_id`, which names the
/// counterparty's chain; the state of `counterparty_client_id` there, which
/// says from where to update; and the headers in between. The plan returned
/// asks for the first and leaves the rest to [`Aggregate::UpdateClient`].
pub fn mk_aggregate_update(
    light_client: LightClientKind,
    chain_id: ChainId,
    client_id: String,
    counterparty_client_id: String,
    event_height: Height,
) -> (plan: RelayerMsg)
    requires
        event_height.revision_height < u64::MAX,
    ensures
        plan@ == spec_mk_aggregate_update(
            light_client,
            chain_id@,
            client_id@,
            counterparty_client_id@,
            event_height,
        ),
{
    let fetch = RelayerMsg::fetch(
        light_client,
        chain_id.clone(),
        Fetch::TrustedClientState { at: QueryHeight::Latest, client_id: client_id.clone() },
    );
    RelayerMsg::aggregate(
        msgs1(fetch),
        AggregateReceiver::new(
            light_client,
            chain_id,
            Aggregate::UpdateClient {
                update_to: event_height.increment(),
                client_id,
                counterparty_client_id,
            },
        ),
    )
}

fn mk_wait_for_next_block(light_client: LightClientKind, chain_id: ChainId, height: Height) -> (msg:
    RelayerMsg)
    requires
        height.revision_height < u64::MAX,
    ensures
        msg@ == wait_for_next_block(light_client, chain_id@, height),
{
    RelayerMsg::wait(light_client, chain_id, Wait::Block(height.increment()))
}

fn mk_connection_plan(
    light_client: LightClientKind,
    chain_id: ChainId,
    height: Height,
    client_id: String,
    counterparty_client_id: String,
    next: AggregateMsgAfterUpdate,
) -> (plan: RelayerMsg)
    requires
        height.revision_height < u64::MAX,
    ensures
        plan@ == connection_plan(
            light_client,
            chain_id@,
            height,
            client_id@,
            counterparty_client_id@,
            next@,
        ),
{
    let wait = mk_wait_for_next_block(light_client, chain_id.clone(), height);
    let update = mk_aggregate_update(
        light_client,
        chain_id.clone(),
        client_id,
        counterparty_client_id,
        height,
    );
    let aggregate = RelayerMsg::aggregate(
        msgs1(update),
        AggregateReceiver::new(light_client, chain_id, Aggregate::AggregateMsgAfterUpdate(next)),
    );
    RelayerMsg::seq(msgs2(wait, aggregate))
}

fn mk_channel_plan(
    light_client: LightClientKind,
    chain_id: ChainId,
    height: Height,
    port_id: String,
    channel_id: String,
    step: ChannelHandshakeEvent,
) -> (plan: RelayerMsg)
    requires
        height.revision_height < u64::MAX,
    ensures
        plan@ == channel_plan(light_client, chain_id@, height, port_id@, channel_id@, step@),
{
    let wait = mk_wait_for_next_block(light_client, chain_id.clone(), height);
    let fetch = RelayerMsg::fetch(
        light_client,
        chain_id.clone(),
        Fetch::ChannelEnd { at: height.increment(), port_id, channel_id },
    );
    let connection = RelayerMsg::aggregate(
        msgs1(fetch),
        AggregateReceiver::new(
            light_client,
            chain_id.clone(),
            Aggregate::ConnectionFetchFromChannelEnd { at: height.increment() },
        ),
    );
    let aggregate = RelayerMsg::aggregate(
        msgs1(connection),
        AggregateReceiver::new(
            light_client,
            chain_id,
            Aggregate::ChannelHandshakeUpdateClient {
                update_to: height.increment(),
                event_height: height,
                channel_handshake_event: step,
            },
        ),
    );
    RelayerMsg::seq(msgs2(wait, aggregate))
}

fn mk_send_packet_plan(
    light_client: LightClientKind,
    chain_id: ChainId,
    block_hash: [u8; 32],
    height: Height,
    packet: PacketEventData,
) -> (plan: RelayerMsg)
    requires
        height.revision_height < u64::MAX,
    ensures
        plan@ == send_packet_plan(light_client, chain_id@, block_hash@, height, packet@),
{
    let wait = mk_wait_for_next_block(light_client, chain_id.clone(), height);
    let fetch = RelayerMsg::fetch(
        light_client,
        chain_id.clone(),
        Fetch::ConnectionEnd { at: height, connection_id: packet.connection_id.clone() },
    );
    let aggregate = RelayerMsg::aggregate(
        msgs1(fetch),
        AggregateReceiver::new(
            light_client,
            chain_id,
            Aggregate::PacketUpdateClient {
                update_to: height.increment(),
                event_height: height,
                block_hash,
                packet_event: PacketEvent::Send(packet),
            },
        ),
    );
    RelayerMsg::seq(msgs2(wait, aggregate))
}

/// The successors of an event observed by `light_client` on `chain_id`.
pub fn handle_event(light_client: LightClientKind, chain_id: ChainId, event: Event) -> (successors:
    Vec<RelayerMsg>)
    requires
        event_height_in_range(event@),
    ensures
        views(successors@) == spec_handle_event(light_client, chain_id@, event@),
        successors@.len() == spec_handle_event(light_client, chain_id@, event@).len(),
{
    match event {
        Event::Ibc(ChainEvent { block_hash, height, event }) => match event {
            IbcEvent::ConnectionOpenInit(init) => {
                let client_id = init.client_id.clone();
                let counterparty_client_id = init.counterparty_client_id.clone();
                let next = AggregateMsgAfterUpdate::ConnectionOpenTry(
                    AggregateConnectionOpen { event_height: height, event: init },
                );
                msgs1(
                    mk_connection_plan(
                        light_client,
                        chain_id,
                        height,
                        client_id,
                        counterparty_client_id,
                        next,
                    ),
                )
            },
            IbcEvent::ConnectionOpenTry(try_) => {
                let client_id = try_.client_id.clone();
                let counterparty_client_id = try_.counterparty_client_id.clone();
                let next = AggregateMsgAfterUpdate::ConnectionOpenAck(
                    AggregateConnectionOpen { event_height: height, event: try_ },
                );
                msgs1(
                    mk_connection_plan(
                        light_client,
                        chain_id,
                        height,
                        client_id,
                        counterparty_client_id,
                        next,
                    ),
                )
            },
            IbcEvent::ConnectionOpenAck(ack) => {
                let client_id = ack.client_id.clone();
                let counterparty_client_id = ack.counterparty_client_id.clone();
                let next = AggregateMsgAfterUpdate::ConnectionOpenConfirm(
                    AggregateConnectionOpen { event_height: height, event: ack },
                );
                msgs1(
                    mk_connection_plan(
                        light_client,
                        chain_id,
                        height,
                        client_id,
                        counterparty_client_id,
                        next,
                    ),
                )
            },
            IbcEvent::ChannelOpenInit(init) => {
                let port_id = init.port_id.clone();
                let channel_id = init.channel_id.clone();
                let step = ChannelHandshakeEvent::Init(init);
                msgs1(mk_channel_plan(light_client, chain_id, height, port_id, channel_id, step))
            },
            IbcEvent::ChannelOpenTry(try_) => {
                let port_id = try_.port_id.clone();
                let channel_id = try_.channel_id.clone();
                let step = ChannelHandshakeEvent::Try(try_);
                msgs1(mk_channel_plan(light_client, chain_id, height, port_id, channel_id, step))
            },
            IbcEvent::ChannelOpenAck(ack) => {
                let port_id = ack.port_id.clone();
                let channel_id = ack.channel_id.clone();
                let step = ChannelHandshakeEvent::Ack(ack);
                msgs1(mk_channel_plan(light_client, chain_id, height, port_id, channel_id, step))
            },
            IbcEvent::SendPacket(packet) => msgs1(
                mk_send_packet_plan(light_client, chain_id, block_hash, height, packet),
            ),
            IbcEvent::CreateClient(_)
            | IbcEvent::UpdateClient(_)
            | IbcEvent::ConnectionOpenConfirm(_)
            | IbcEvent::ChannelOpenConfirm(_)
            | IbcEvent::RecvPacket(_)
            | IbcEvent::AcknowledgePacket(_)
            | IbcEvent::TimeoutPacket(_)
            | IbcEvent::WriteAcknowledgement { .. } => no_msgs(),
        },
        Event::Command(Command::UpdateClient { client_id, counterparty_client_id }) => {
            let fetch = RelayerMsg::fetch(
                light_client,
                chain_id.clone(),
                Fetch::TrustedClientState { at: QueryHeight::Latest, client_id: client_id.clone() },
            );
            msgs1(
                RelayerMsg::aggregate(
                    msgs1(fetch),
                    AggregateReceiver::new(
                        light_client,
                        chain_id,
                        Aggregate::UpdateClientFromClientId { client_id, counterparty_client_id },
                    ),
                ),
            )
        },
    }
}

} // verus!
