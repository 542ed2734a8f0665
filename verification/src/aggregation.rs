//! What each join point builds from the payloads it has collected.
//!
//! A join point either continues a plan, by asking for what has become
//! possible to ask for, or ends one, by building the one IBC message the plan
//! was made for. That message is always addressed to the counterparty: to the
//! chain that the trusted client state names, and to the light client there
//! that tracks this chain.

use crate::aggregate::{
    Aggregate, AggregateAckPacket, AggregateAckPacketView, AggregateChannelOpen,
    AggregateChannelOpenView, AggregateConnectionOpen, AggregateConnectionOpenView,
    AggregateMsgAfterUpdate, AggregateMsgAfterUpdateView, AggregateRecvPacket,
    AggregateRecvPacketView, AggregateView, ChannelHandshakeEvent, ChannelHandshakeEventView,
    PacketEvent, PacketEventView,
};
use crate::choreography::{mk_aggregate_update, spec_mk_aggregate_update};
use crate::data::{
    AcknowledgementProof, AcknowledgementProofView, Channel, ChannelCounterparty,
    ChannelCounterpartyView, ChannelEndProof, ChannelEndProofView, ChannelView,
    ClientConsensusStateProof, ClientConsensusStateProofView, ClientStateProof,
    ClientStateProofView, CommitmentProof, CommitmentProofView, ConnectionCounterparty,
    ConnectionCounterpartyView, ConnectionEnd, ConnectionEndView, ConnectionProof,
    ConnectionProofView, Data, DataView, PacketAcknowledgement, PacketAcknowledgementView,
    TrustedClientState, TrustedClientStateView,
};
use crate::event::{PacketEventData, PacketEventDataView};
use crate::evm::{evm_aggregate, spec_evm_aggregate};
use crate::fetch::{
    Fetch, FetchPacketAcknowledgement, FetchPacketAcknowledgementView, FetchStateProof,
    FetchStateProofView, FetchUpdateHeaders, FetchUpdateHeadersView, FetchView,
};
use crate::identified::{tag, Identified, IdentifiedView};
use crate::ids::{
    ChainId, ChainIdView, ChannelState, Height, LightClientKind, Path, PathView, QueryHeight,
};
use crate::msg::{
    ClientConfig, ClientConfigView, Msg, MsgAcknowledgement, MsgAcknowledgementView,
    MsgChannelOpenAck, MsgChannelOpenAckView, MsgChannelOpenConfirm, MsgChannelOpenConfirmView,
    MsgChannelOpenTry, MsgChannelOpenTryView, MsgConnectionOpenAck, MsgConnectionOpenAckView,
    MsgConnectionOpenConfirm, MsgConnectionOpenConfirmView, MsgConnectionOpenTry,
    MsgConnectionOpenTryView, MsgCreateClient, MsgCreateClientView, MsgRecvPacket,
    MsgRecvPacketView, MsgView, Packet, PacketView,
};
use crate::relayer_msg::{
    data_views, msgs1, msgs2, msgs3, views, AggregateData, AggregateDataView, AggregateReceiver,
    AggregateReceiverView, RelayerMsg, RelayerMsgView,
};
use crate::schema::{
    AggregateError, kind_of, kinds_needed, lemma_pick_meets, pick, schema, spec_pick,
    spec_schema,
};
use crate::wait::{Wait, WaitView};
use vstd::prelude::*;

verus! {

/// The delay that the engine asks for on the connections it opens.
pub const DELAY_PERIOD: u64 = 0;

/// The bytes of `ibc`, the prefix under which every chain stores its IBC
/// state.
pub open spec fn ibc_prefix() -> Seq<u8> {
    seq![0x69u8, 0x62u8, 0x63u8]
}

/// The value of what a join point hands back.
pub open spec fn outcome_view(outcome: Result<RelayerMsg, AggregateError>) -> Result<
    RelayerMsgView,
    AggregateError,
> {
    match outcome {
        Ok(msg) => Ok(msg@),
        Err(e) => Err(e),
    }
}

/// The value of what [`do_create`] hands back.
pub open spec fn outcomes_view(outcome: Result<Vec<RelayerMsg>, AggregateError>) -> Result<
    Seq<RelayerMsgView>,
    AggregateError,
> {
    match outcome {
        Ok(msgs) => Ok(views(msgs@)),
        Err(e) => Err(e),
    }
}

// ------------------------------------------------------------- client updates

/// Update a client of which only the two client identifiers are known.
///
/// The client state read names the counterparty's chain and the height it is
/// trusted at. The counterparty's client is then read at that height, and
/// updated to the height the first state was read at.
pub open spec fn spec_update_client_from_client_id(
    light_client: LightClientKind,
    chain_id: ChainIdView,
    client_id: Seq<char>,
    counterparty_client_id: Seq<char>,
    state: IdentifiedView<TrustedClientStateView>,
) -> Result<RelayerMsgView, AggregateError> {
    if state.chain_id != chain_id {
        Err(AggregateError::ChainIdMismatch)
    } else {
        let counterparty_chain_id = state.data.trusted_client_state.chain_id;
        Ok(
            RelayerMsgView::aggregate(
                seq![
                    RelayerMsgView::fetch(
                        light_client.counterparty(),
                        counterparty_chain_id,
                        FetchView::TrustedClientState {
                            at: QueryHeight::Specific(state.data.trusted_client_state.height),
                            client_id: counterparty_client_id,
                        },
                    ),
                ],
                AggregateReceiverView::new(
                    light_client,
                    chain_id,
                    AggregateView::UpdateClientWithCounterpartyChainIdData {
                        update_to: state.data.fetched_at,
                        client_id,
                        counterparty_client_id,
                        counterparty_chain_id,
                    },
                ),
            ),
        )
    }
}

/// The second step of a client update: this chain's client of the
/// counterparty has been read, so the counterparty's chain is known. Its
/// client of this chain is read next, at its latest height.
pub open spec fn spec_update_client(
    light_client: LightClientKind,
    chain_id: ChainIdView,
    update_to: Height,
    client_id: Seq<char>,
    counterparty_client_id: Seq<char>,
    state: IdentifiedView<TrustedClientStateView>,
) -> Result<RelayerMsgView, AggregateError> {
    if state.chain_id != chain_id {
        Err(AggregateError::ChainIdMismatch)
    } else if state.data.client_id != client_id {
        Err(AggregateError::ClientIdMismatch)
    } else {
        let counterparty_chain_id = state.data.trusted_client_state.chain_id;
        Ok(
            RelayerMsgView::aggregate(
                seq![
                    RelayerMsgView::fetch(
                        light_client.counterparty(),
                        counterparty_chain_id,
                        FetchView::TrustedClientState {
                            at: QueryHeight::Latest,
                            client_id: counterparty_client_id,
                        },
                    ),
                ],
                AggregateReceiverView::new(
                    light_client,
                    chain_id,
                    AggregateView::UpdateClientWithCounterpartyChainIdData {
                        update_to,
                        client_id,
                        counterparty_client_id,
                        counterparty_chain_id,
                    },
                ),
            ),
        )
    }
}

/// The last step of a client update: the counterparty's client of this chain
/// has been read, so it is known from where to update. The headers from there
/// to `update_to` are asked for on this chain.
///
/// `state` comes from the counterparty: it was fetched from
/// `counterparty_chain_id`, is the state of `counterparty_client_id`, and
/// tracks this chain.
pub open spec fn spec_update_client_with_counterparty_chain_id(
    light_client: LightClientKind,
    chain_id: ChainIdView,
    update_to: Height,
    client_id: Seq<char>,
    counterparty_client_id: Seq<char>,
    counterparty_chain_id: ChainIdView,
    state: IdentifiedView<TrustedClientStateView>,
) -> Result<RelayerMsgView, AggregateError> {
    if state.data.trusted_client_state.chain_id != chain_id {
        Err(AggregateError::ChainIdMismatch)
    } else if state.data.client_id != counterparty_client_id {
        Err(AggregateError::ClientIdMismatch)
    } else if state.chain_id != counterparty_chain_id {
        Err(AggregateError::ChainIdMismatch)
    } else {
        Ok(
            RelayerMsgView::fetch(
                light_client,
                chain_id,
                FetchView::UpdateHeaders(
                    FetchUpdateHeadersView {
                        client_id,
                        counterparty_client_id,
                        counterparty_chain_id,
                        update_from: state.data.trusted_client_state.height,
                        update_to,
                    },
                ),
            ),
        )
    }
}

/// Wait on the counterparty until its client of this chain trusts `wait_for`.
///
/// Seen from the counterparty the two client identifiers change places.
pub open spec fn spec_wait_for_trusted_height(
    light_client: LightClientKind,
    chain_id: ChainIdView,
    wait_for: Height,
    client_id: Seq<char>,
    counterparty_client_id: Seq<char>,
    state: IdentifiedView<TrustedClientStateView>,
) -> Result<RelayerMsgView, AggregateError> {
    if state.chain_id != chain_id {
        Err(AggregateError::ChainIdMismatch)
    } else {
        Ok(
            RelayerMsgView::wait(
                light_client.counterparty(),
                state.data.trusted_client_state.chain_id,
                WaitView::TrustedHeight {
                    client_id: counterparty_client_id,
                    height: wait_for,
                    counterparty_client_id: client_id,
                    counterparty_chain_id: chain_id,
                },
            ),
        )
    }
}

/// Prove, at height `at`, the consensus state that `client_id` holds for the
/// height it trusts.
pub open spec fn spec_consensus_state_proof_at_latest_height(
    light_client: LightClientKind,
    chain_id: ChainIdView,
    client_id: Seq<char>,
    at: Height,
    state: IdentifiedView<TrustedClientStateView>,
) -> Result<RelayerMsgView, AggregateError> {
    if state.chain_id != chain_id {
        Err(AggregateError::ChainIdMismatch)
    } else if state.data.client_id != client_id {
        Err(AggregateError::ClientIdMismatch)
    } else {
        Ok(
            RelayerMsgView::fetch(
                light_client,
                chain_id,
                FetchView::StateProof(
                    FetchStateProofView {
                        at,
                        path: PathView::ClientConsensusState {
                            client_id,
                            height: state.data.trusted_client_state.height,
                        },
                    },
                ),
            ),
        )
    }
}

/// Ask the counterparty for the state proof `fetch`.
pub open spec fn spec_fetch_counterparty_state_proof(
    light_client: LightClientKind,
    chain_id: ChainIdView,
    fetch: FetchStateProofView,
    state: IdentifiedView<TrustedClientStateView>,
) -> Result<RelayerMsgView, AggregateError> {
    if state.chain_id != chain_id {
        Err(AggregateError::ChainIdMismatch)
    } else {
        Ok(
            RelayerMsgView::fetch(
                light_client.counterparty(),
                state.data.trusted_client_state.chain_id,
                FetchView::StateProof(fetch),
            ),
        )
    }
}

/// Create a client of the counterparty on this chain, from the client state
/// and the consensus state that the counterparty offers of itself. The two
/// have to come from one chain.
pub open spec fn spec_create_client(
    light_client: LightClientKind,
    chain_id: ChainIdView,
    config: ClientConfigView,
    client_state: IdentifiedView<Seq<u8>>,
    consensus_state: IdentifiedView<Seq<u8>>,
) -> Result<RelayerMsgView, AggregateError> {
    if client_state.chain_id != consensus_state.chain_id {
        Err(AggregateError::ChainIdMismatch)
    } else {
        Ok(
            RelayerMsgView::msg(
                light_client,
                chain_id,
                MsgView::CreateClient(
                    MsgCreateClientView {
                        config,
                        client_state: client_state.data,
                        consensus_state: consensus_state.data,
                    },
                ),
            ),
        )
    }
}

// ----------------------------------------------------------- plan continuations

/// Fetch, at height `at`, the connection that the channel runs over: its first
/// hop.
pub open spec fn spec_connection_fetch_from_channel_end(
    light_client: LightClientKind,
    chain_id: ChainIdView,
    at: Height,
    channel: IdentifiedView<ChannelView>,
) -> Result<RelayerMsgView, AggregateError> {
    if channel.chain_id != chain_id {
        Err(AggregateError::ChainIdMismatch)
    } else if channel.data.connection_hops.len() == 0 {
        Err(AggregateError::NoConnectionHops)
    } else {
        Ok(
            RelayerMsgView::fetch(
                light_client,
                chain_id,
                FetchView::ConnectionEnd { at, connection_id: channel.data.connection_hops[0] },
            ),
        )
    }
}

/// The message that answers a channel handshake step.
pub open spec fn next_channel_step(
    event_height: Height,
    step: ChannelHandshakeEventView,
) -> AggregateMsgAfterUpdateView {
    match step {
        ChannelHandshakeEventView::Init(event) => AggregateMsgAfterUpdateView::ChannelOpenTry(
            AggregateChannelOpenView { event_height, event },
        ),
        ChannelHandshakeEventView::Try(event) => AggregateMsgAfterUpdateView::ChannelOpenAck(
            AggregateChannelOpenView { event_height, event },
        ),
        ChannelHandshakeEventView::Ack(event) => AggregateMsgAfterUpdateView::ChannelOpenConfirm(
            AggregateChannelOpenView { event_height, event },
        ),
    }
}

/// The connection of the channel is known, and with it the two clients.
/// Update the counterparty's client to the block after `update_to`, then
/// prepare the next step of the handshake.
pub open spec fn spec_channel_handshake_update_client(
    light_client: LightClientKind,
    chain_id: ChainIdView,
    update_to: Height,
    event_height: Height,
    step: ChannelHandshakeEventView,
    connection: IdentifiedView<ConnectionEndView>,
) -> Result<RelayerMsgView, AggregateError> {
    if connection.chain_id != chain_id {
        Err(AggregateError::ChainIdMismatch)
    } else if update_to.revision_height == u64::MAX {
        Err(AggregateError::HeightOverflow)
    } else {
        Ok(
            RelayerMsgView::aggregate(
                seq![
                    spec_mk_aggregate_update(
                        light_client,
                        chain_id,
                        connection.data.client_id,
                        connection.data.counterparty.client_id,
                        update_to,
                    ),
                ],
                AggregateReceiverView::new(
                    light_client,
                    chain_id,
                    AggregateView::AggregateMsgAfterUpdate(next_channel_step(event_height, step)),
                ),
            ),
        )
    }
}

/// The message that answers a packet event.
pub open spec fn next_packet_step(
    event_height: Height,
    block_hash: Seq<u8>,
    packet_event: PacketEventView,
    counterparty_client_id: Seq<char>,
) -> AggregateMsgAfterUpdateView {
    match packet_event {
        PacketEventView::Send(event) => AggregateMsgAfterUpdateView::RecvPacket(
            AggregateRecvPacketView { event_height, event },
        ),
        PacketEventView::Recv(event) => AggregateMsgAfterUpdateView::AckPacket(
            AggregateAckPacketView { event_height, event, block_hash, counterparty_client_id },
        ),
    }
}

/// The connection of the packet is known, and with it the two clients. Wait
/// until the counterparty's client trusts `update_to`, then prepare the
/// message that relays the packet.
pub open spec fn spec_packet_update_client(
    light_client: LightClientKind,
    chain_id: ChainIdView,
    update_to: Height,
    event_height: Height,
    block_hash: Seq<u8>,
    packet_event: PacketEventView,
    connection: IdentifiedView<ConnectionEndView>,
) -> Result<RelayerMsgView, AggregateError> {
    if connection.chain_id != chain_id {
        Err(AggregateError::ChainIdMismatch)
    } else {
        Ok(
            RelayerMsgView::aggregate(
                seq![
                    RelayerMsgView::aggregate(
                        seq![
                            RelayerMsgView::fetch(
                                light_client,
                                chain_id,
                                FetchView::TrustedClientState {
                                    at: QueryHeight::Latest,
                                    client_id: connection.data.client_id,
                                },
                            ),
                        ],
                        AggregateReceiverView::new(
                            light_client,
                            chain_id,
                            AggregateView::WaitForTrustedHeight {
                                wait_for: update_to,
                                client_id: connection.data.client_id,
                                counterparty_client_id: connection.data.counterparty.client_id,
                            },
                        ),
                    ),
                ],
                AggregateReceiverView::new(
                    light_client,
                    chain_id,
                    AggregateView::AggregateMsgAfterUpdate(
                        next_packet_step(
                            event_height,
                            block_hash,
                            packet_event,
                            connection.data.counterparty.client_id,
                        ),
                    ),
                ),
            ),
        )
    }
}

/// A state proof to be taken on `chain_id` at height `at`.
pub open spec fn proof_fetch(
    light_client: LightClientKind,
    chain_id: ChainIdView,
    at: Height,
    path: PathView,
) -> RelayerMsgView {
    RelayerMsgView::fetch(light_client, chain_id, FetchView::StateProof(FetchStateProofView { at, path }))
}

/// The height of the event that `next` answers, where the event's height is
/// held against the height the client state was read at: for the handshake
/// steps, not for packets.
pub open spec fn checked_event_height(next: AggregateMsgAfterUpdateView) -> Option<Height> {
    match next {
        AggregateMsgAfterUpdateView::ConnectionOpenTry(r)
        | AggregateMsgAfterUpdateView::ConnectionOpenAck(r)
        | AggregateMsgAfterUpdateView::ConnectionOpenConfirm(r) => Some(r.event_height),
        AggregateMsgAfterUpdateView::ChannelOpenTry(r)
        | AggregateMsgAfterUpdateView::ChannelOpenAck(r)
        | AggregateMsgAfterUpdateView::ChannelOpenConfirm(r) => Some(r.event_height),
        AggregateMsgAfterUpdateView::RecvPacket(_) | AggregateMsgAfterUpdateView::AckPacket(_) => None,
    }
}

/// The fetches whose answers, together with the client state, make up the
/// message `next`. Every proof is taken at height `at`.
pub open spec fn proofs_needed(
    light_client: LightClientKind,
    chain_id: ChainIdView,
    at: Height,
    trusted_height: Height,
    next: AggregateMsgAfterUpdateView,
) -> Seq<RelayerMsgView> {
    match next {
        AggregateMsgAfterUpdateView::ConnectionOpenTry(r)
        | AggregateMsgAfterUpdateView::ConnectionOpenAck(r) => seq![
            proof_fetch(
                light_client,
                chain_id,
                at,
                PathView::ClientState { client_id: r.event.client_id },
            ),
            proof_fetch(
                light_client,
                chain_id,
                at,
                PathView::ClientConsensusState { client_id: r.event.client_id, height: trusted_height },
            ),
            proof_fetch(
                light_client,
                chain_id,
                at,
                PathView::Connection { connection_id: r.event.connection_id },
            ),
        ],
        AggregateMsgAfterUpdateView::ConnectionOpenConfirm(r) => seq![
            proof_fetch(
                light_client,
                chain_id,
                at,
                PathView::Connection { connection_id: r.event.connection_id },
            ),
        ],
        AggregateMsgAfterUpdateView::ChannelOpenTry(r) => seq![
            RelayerMsgView::aggregate(
                seq![
                    RelayerMsgView::fetch(
                        light_client,
                        chain_id,
                        FetchView::ChannelEnd {
                            at,
                            port_id: r.event.port_id,
                            channel_id: r.event.channel_id,
                        },
                    ),
                ],
                AggregateReceiverView::new(
                    light_client,
                    chain_id,
                    AggregateView::ConnectionFetchFromChannelEnd { at },
                ),
            ),
            proof_fetch(
                light_client,
                chain_id,
                at,
                PathView::ChannelEnd { port_id: r.event.port_id, channel_id: r.event.channel_id },
            ),
        ],
        AggregateMsgAfterUpdateView::ChannelOpenAck(r)
        | AggregateMsgAfterUpdateView::ChannelOpenConfirm(r) => seq![
            proof_fetch(
                light_client,
                chain_id,
                at,
                PathView::ChannelEnd { port_id: r.event.port_id, channel_id: r.event.channel_id },
            ),
        ],
        AggregateMsgAfterUpdateView::RecvPacket(r) => seq![
            proof_fetch(
                light_client,
                chain_id,
                at,
                PathView::Commitment {
                    port_id: r.event.packet_src_port,
                    channel_id: r.event.packet_src_channel,
                    sequence: r.event.packet_sequence,
                },
            ),
        ],
        AggregateMsgAfterUpdateView::AckPacket(r) => seq![
            RelayerMsgView::fetch(
                light_client,
                chain_id,
                FetchView::PacketAcknowledgement(
                    FetchPacketAcknowledgementView {
                        block_hash: r.block_hash,
                        destination_port_id: r.event.packet_dst_port,
                        destination_channel_id: r.event.packet_dst_channel,
                        sequence: r.event.packet_sequence,
                    },
                ),
            ),
            proof_fetch(
                light_client,
                chain_id,
                at,
                PathView::Acknowledgement {
                    port_id: r.event.packet_dst_port,
                    channel_id: r.event.packet_dst_channel,
                    sequence: r.event.packet_sequence,
                },
            ),
        ],
    }
}

/// The join point that builds the message `next`.
pub open spec fn final_receiver(next: AggregateMsgAfterUpdateView) -> AggregateView {
    match next {
        AggregateMsgAfterUpdateView::ConnectionOpenTry(r) => AggregateView::ConnectionOpenTry(r),
        AggregateMsgAfterUpdateView::ConnectionOpenAck(r) => AggregateView::ConnectionOpenAck(r),
        AggregateMsgAfterUpdateView::ConnectionOpenConfirm(r) => AggregateView::ConnectionOpenConfirm(
            r,
        ),
        AggregateMsgAfterUpdateView::ChannelOpenTry(r) => AggregateView::ChannelOpenTry(r),
        AggregateMsgAfterUpdateView::ChannelOpenAck(r) => AggregateView::ChannelOpenAck(r),
        AggregateMsgAfterUpdateView::ChannelOpenConfirm(r) => AggregateView::ChannelOpenConfirm(r),
        AggregateMsgAfterUpdateView::RecvPacket(r) => AggregateView::RecvPacket(r),
        AggregateMsgAfterUpdateView::AckPacket(r) => AggregateView::AckPacket(r),
    }
}

/// The counterparty's client has been advanced, and this chain's client state
/// has been read at a height the counterparty trusts. Ask for every proof that
/// the message `next` needs, all at that height, and keep the client state for
/// the join point that builds the message.
///
/// For a handshake step the height the client state was read at must be of the
/// event's revision and not before the event.
pub open spec fn spec_msg_after_update(
    light_client: LightClientKind,
    chain_id: ChainIdView,
    next: AggregateMsgAfterUpdateView,
    state: IdentifiedView<TrustedClientStateView>,
) -> Result<RelayerMsgView, AggregateError> {
    let at = state.data.fetched_at;
    if state.chain_id != chain_id {
        Err(AggregateError::ChainIdMismatch)
    } else if checked_event_height(next) is Some && checked_event_height(
        next,
    )->Some_0.revision_number != at.revision_number {
        Err(AggregateError::RevisionMismatch)
    } else if checked_event_height(next) is Some && checked_event_height(
        next,
    )->Some_0.revision_height > at.revision_height {
        Err(AggregateError::HeightTooLow)
    } else {
        Ok(
            RelayerMsgView::Aggregate {
                queue: proofs_needed(
                    light_client,
                    chain_id,
                    at,
                    state.data.trusted_client_state.height,
                    next,
                ),
                data: seq![
                    AggregateDataView {
                        light_client,
                        chain_id,
                        data: DataView::TrustedClientState(state.data),
                    },
                ],
                receiver: AggregateReceiverView::new(light_client, chain_id, final_receiver(next)),
            },
        )
    }
}

// ------------------------------------------------------------- final messages

/// The packet that a packet event reports.
pub open spec fn packet_of(event: PacketEventDataView) -> PacketView {
    PacketView {
        sequence: event.packet_sequence,
        source_port: event.packet_src_port,
        source_channel: event.packet_src_channel,
        destination_port: event.packet_dst_port,
        destination_channel: event.packet_dst_channel,
        data: event.packet_data_hex,
        timeout_height: event.packet_timeout_height,
        timeout_timestamp: event.packet_timeout_timestamp,
    }
}

/// Answer a connection handshake that was started on this chain.
///
/// The message goes to the chain that this chain's client tracks. It names
/// this chain's end of the connection as its counterparty, under the prefix
/// `ibc`, and claims that this chain trusts the counterparty at the height the
/// trusted client state says. Neither the proof of the client state nor that
/// of the consensus state may be older than the event.
pub open spec fn spec_connection_open_try(
    light_client: LightClientKind,
    chain_id: ChainIdView,
    receiver: AggregateConnectionOpenView,
    state: IdentifiedView<TrustedClientStateView>,
    client_state_proof: IdentifiedView<ClientStateProofView>,
    consensus_state_proof: IdentifiedView<ClientConsensusStateProofView>,
    connection_proof: IdentifiedView<ConnectionProofView>,
) -> Result<RelayerMsgView, AggregateError> {
    let event = receiver.event;
    if state.chain_id != chain_id || client_state_proof.chain_id != chain_id
        || consensus_state_proof.chain_id != chain_id || connection_proof.chain_id != chain_id {
        Err(AggregateError::ChainIdMismatch)
    } else if consensus_state_proof.data.proof_height.revision_height
        < receiver.event_height.revision_height
        || client_state_proof.data.proof_height.revision_height
        < receiver.event_height.revision_height {
        Err(AggregateError::ProofHeightTooLow)
    } else {
        Ok(
            RelayerMsgView::msg(
                light_client.counterparty(),
                state.data.trusted_client_state.chain_id,
                MsgView::ConnectionOpenTry(
                    MsgConnectionOpenTryView {
                        client_id: event.counterparty_client_id,
                        client_state: client_state_proof.data.state,
                        counterparty: ConnectionCounterpartyView {
                            client_id: event.client_id,
                            connection_id: event.connection_id,
                            prefix: ibc_prefix(),
                        },
                        delay_period: DELAY_PERIOD,
                        counterparty_versions: connection_proof.data.state.versions,
                        proof_height: connection_proof.data.proof_height,
                        proof_init: connection_proof.data.proof,
                        proof_client: client_state_proof.data.proof,
                        proof_consensus: consensus_state_proof.data.proof,
                        consensus_height: state.data.trusted_client_state.height,
                    },
                ),
            ),
        )
    }
}

/// Acknowledge the counterparty's answer to a connection handshake. The
/// version acknowledged is the first that this chain's end offers.
pub open spec fn spec_connection_open_ack(
    light_client: LightClientKind,
    chain_id: ChainIdView,
    receiver: AggregateConnectionOpenView,
    state: IdentifiedView<TrustedClientStateView>,
    client_state_proof: IdentifiedView<ClientStateProofView>,
    consensus_state_proof: IdentifiedView<ClientConsensusStateProofView>,
    connection_proof: IdentifiedView<ConnectionProofView>,
) -> Result<RelayerMsgView, AggregateError> {
    let event = receiver.event;
    if state.chain_id != chain_id || client_state_proof.chain_id != chain_id
        || consensus_state_proof.chain_id != chain_id || connection_proof.chain_id != chain_id {
        Err(AggregateError::ChainIdMismatch)
    } else if consensus_state_proof.data.proof_height.revision_height
        < receiver.event_height.revision_height
        || client_state_proof.data.proof_height.revision_height
        < receiver.event_height.revision_height {
        Err(AggregateError::ProofHeightTooLow)
    } else if connection_proof.data.state.versions.len() == 0 {
        Err(AggregateError::NoVersions)
    } else {
        Ok(
            RelayerMsgView::msg(
                light_client.counterparty(),
                state.data.trusted_client_state.chain_id,
                MsgView::ConnectionOpenAck(
                    MsgConnectionOpenAckView {
                        connection_id: event.counterparty_connection_id,
                        counterparty_connection_id: event.connection_id,
                        version: connection_proof.data.state.versions[0],
                        client_state: client_state_proof.data.state,
                        proof_height: connection_proof.data.proof_height,
                        proof_try: connection_proof.data.proof,
                        proof_client: client_state_proof.data.proof,
                        proof_consensus: consensus_state_proof.data.proof,
                        consensus_height: state.data.trusted_client_state.height,
                    },
                ),
            ),
        )
    }
}

/// Confirm a connection that the counterparty has acknowledged.
pub open spec fn spec_connection_open_confirm(
    light_client: LightClientKind,
    chain_id: ChainIdView,
    receiver: AggregateConnectionOpenView,
    state: IdentifiedView<TrustedClientStateView>,
    connection_proof: IdentifiedView<ConnectionProofView>,
) -> Result<RelayerMsgView, AggregateError> {
    if state.chain_id != chain_id || connection_proof.chain_id != chain_id {
        Err(AggregateError::ChainIdMismatch)
    } else {
        Ok(
            RelayerMsgView::msg(
                light_client.counterparty(),
                state.data.trusted_client_state.chain_id,
                MsgView::ConnectionOpenConfirm(
                    MsgConnectionOpenConfirmView {
                        connection_id: receiver.event.counterparty_connection_id,
                        proof_ack: connection_proof.data.proof,
                        proof_height: connection_proof.data.proof_height,
                    },
                ),
            ),
        )
    }
}

/// Answer a channel handshake that was started on this chain.
///
/// The channel proposed to the counterparty is in state `Tryopen`, ordered as
/// this chain's end is, names this chain's end as its counterparty, and runs
/// over the counterparty's end of the connection.
pub open spec fn spec_channel_open_try(
    light_client: LightClientKind,
    chain_id: ChainIdView,
    receiver: AggregateChannelOpenView,
    state: IdentifiedView<TrustedClientStateView>,
    channel_proof: IdentifiedView<ChannelEndProofView>,
    connection: IdentifiedView<ConnectionEndView>,
) -> Result<RelayerMsgView, AggregateError> {
    let event = receiver.event;
    if state.chain_id != chain_id || channel_proof.chain_id != chain_id || connection.chain_id
        != chain_id {
        Err(AggregateError::ChainIdMismatch)
    } else {
        Ok(
            RelayerMsgView::msg(
                light_client.counterparty(),
                state.data.trusted_client_state.chain_id,
                MsgView::ChannelOpenTry(
                    MsgChannelOpenTryView {
                        port_id: channel_proof.data.state.counterparty.port_id,
                        channel: ChannelView {
                            state: ChannelState::Tryopen,
                            ordering: channel_proof.data.state.ordering,
                            counterparty: ChannelCounterpartyView {
                                port_id: event.port_id,
                                channel_id: event.channel_id,
                            },
                            connection_hops: seq![connection.data.counterparty.connection_id],
                            version: event.version,
                        },
                        counterparty_version: event.version,
                        proof_init: channel_proof.data.proof,
                        proof_height: channel_proof.data.proof_height,
                    },
                ),
            ),
        )
    }
}

/// Acknowledge the counterparty's answer to a channel handshake.
pub open spec fn spec_channel_open_ack(
    light_client: LightClientKind,
    chain_id: ChainIdView,
    receiver: AggregateChannelOpenView,
    state: IdentifiedView<TrustedClientStateView>,
    channel_proof: IdentifiedView<ChannelEndProofView>,
) -> Result<RelayerMsgView, AggregateError> {
    let event = receiver.event;
    if state.chain_id != chain_id || channel_proof.chain_id != chain_id {
        Err(AggregateError::ChainIdMismatch)
    } else {
        Ok(
            RelayerMsgView::msg(
                light_client.counterparty(),
                state.data.trusted_client_state.chain_id,
                MsgView::ChannelOpenAck(
                    MsgChannelOpenAckView {
                        port_id: channel_proof.data.state.counterparty.port_id,
                        channel_id: event.counterparty_channel_id,
                        counterparty_channel_id: event.channel_id,
                        counterparty_version: event.version,
                        proof_try: channel_proof.data.proof,
                        proof_height: channel_proof.data.proof_height,
                    },
                ),
            ),
        )
    }
}

/// Confirm a channel that the counterparty has acknowledged.
pub open spec fn spec_channel_open_confirm(
    light_client: LightClientKind,
    chain_id: ChainIdView,
    receiver: AggregateChannelOpenView,
    state: IdentifiedView<TrustedClientStateView>,
    channel_proof: IdentifiedView<ChannelEndProofView>,
) -> Result<RelayerMsgView, AggregateError> {
    if state.chain_id != chain_id || channel_proof.chain_id != chain_id {
        Err(AggregateError::ChainIdMismatch)
    } else {
        Ok(
            RelayerMsgView::msg(
                light_client.counterparty(),
                state.data.trusted_client_state.chain_id,
                MsgView::ChannelOpenConfirm(
                    MsgChannelOpenConfirmView {
                        port_id: channel_proof.data.state.counterparty.port_id,
                        channel_id: receiver.event.counterparty_channel_id,
                        proof_ack: channel_proof.data.proof,
                        proof_height: channel_proof.data.proof_height,
                    },
                ),
            ),
        )
    }
}

/// Deliver a packet that was sent on this chain, with the proof of its
/// commitment at the height the proof was taken at.
pub open spec fn spec_recv_packet(
    light_client: LightClientKind,
    chain_id: ChainIdView,
    receiver: AggregateRecvPacketView,
    state: IdentifiedView<TrustedClientStateView>,
    commitment_proof: IdentifiedView<CommitmentProofView>,
) -> Result<RelayerMsgView, AggregateError> {
    if state.chain_id != chain_id || commitment_proof.chain_id != chain_id {
        Err(AggregateError::ChainIdMismatch)
    } else {
        Ok(
            RelayerMsgView::msg(
                light_client.counterparty(),
                state.data.trusted_client_state.chain_id,
                MsgView::RecvPacket(
                    MsgRecvPacketView {
                        packet: packet_of(receiver.event),
                        proof_commitment: commitment_proof.data.proof,
                        proof_height: commitment_proof.data.proof_height,
                    },
                ),
            ),
        )
    }
}

/// Deliver the acknowledgement of a packet that was received on this chain.
pub open spec fn spec_ack_packet(
    light_client: LightClientKind,
    chain_id: ChainIdView,
    receiver: AggregateAckPacketView,
    state: IdentifiedView<TrustedClientStateView>,
    acknowledgement: IdentifiedView<PacketAcknowledgementView>,
    acknowledgement_proof: IdentifiedView<AcknowledgementProofView>,
) -> Result<RelayerMsgView, AggregateError> {
    if state.chain_id != chain_id || acknowledgement.chain_id != chain_id
        || acknowledgement_proof.chain_id != chain_id {
        Err(AggregateError::ChainIdMismatch)
    } else {
        Ok(
            RelayerMsgView::msg(
                light_client.counterparty(),
                state.data.trusted_client_state.chain_id,
                MsgView::AckPacket(
                    MsgAcknowledgementView {
                        packet: packet_of(receiver.event),
                        acknowledgement: acknowledgement.data.ack,
                        proof_acked: acknowledgement_proof.data.proof,
                        proof_height: acknowledgement_proof.data.proof_height,
                    },
                ),
            ),
        )
    }
}

// ------------------------------------------------------------------ the table

/// What `receiver` builds from `items`, the payloads picked for it in the
/// order of its needs.
pub open spec fn spec_aggregate(receiver: AggregateReceiverView, items: Seq<AggregateDataView>) -> Result<
    RelayerMsgView,
    AggregateError,
> {
    let light_client = receiver.light_client;
    let chain_id = receiver.chain_id;
    match receiver.aggregate {
        AggregateView::ConnectionOpenTry(r) => spec_connection_open_try(
            light_client,
            chain_id,
            r,
            tag(items[0], items[0].data->TrustedClientState_0),
            tag(items[1], items[1].data->ClientStateProof_0),
            tag(items[2], items[2].data->ClientConsensusStateProof_0),
            tag(items[3], items[3].data->ConnectionProof_0),
        ),
        AggregateView::ConnectionOpenAck(r) => spec_connection_open_ack(
            light_client,
            chain_id,
            r,
            tag(items[0], items[0].data->TrustedClientState_0),
            tag(items[1], items[1].data->ClientStateProof_0),
            tag(items[2], items[2].data->ClientConsensusStateProof_0),
            tag(items[3], items[3].data->ConnectionProof_0),
        ),
        AggregateView::ConnectionOpenConfirm(r) => spec_connection_open_confirm(
            light_client,
            chain_id,
            r,
            tag(items[0], items[0].data->TrustedClientState_0),
            tag(items[1], items[1].data->ConnectionProof_0),
        ),
        AggregateView::ChannelOpenTry(r) => spec_channel_open_try(
            light_client,
            chain_id,
            r,
            tag(items[0], items[0].data->TrustedClientState_0),
            tag(items[1], items[1].data->ChannelEndProof_0),
            tag(items[2], items[2].data->ConnectionEnd_0),
        ),
        AggregateView::ChannelOpenAck(r) => spec_channel_open_ack(
            light_client,
            chain_id,
            r,
            tag(items[0], items[0].data->TrustedClientState_0),
            tag(items[1], items[1].data->ChannelEndProof_0),
        ),
        AggregateView::ChannelOpenConfirm(r) => spec_channel_open_confirm(
            light_client,
            chain_id,
            r,
            tag(items[0], items[0].data->TrustedClientState_0),
            tag(items[1], items[1].data->ChannelEndProof_0),
        ),
        AggregateView::RecvPacket(r) => spec_recv_packet(
            light_client,
            chain_id,
            r,
            tag(items[0], items[0].data->TrustedClientState_0),
            tag(items[1], items[1].data->CommitmentProof_0),
        ),
        AggregateView::AckPacket(r) => spec_ack_packet(
            light_client,
            chain_id,
            r,
            tag(items[0], items[0].data->TrustedClientState_0),
            tag(items[1], items[1].data->PacketAcknowledgement_0),
            tag(items[2], items[2].data->AcknowledgementProof_0),
        ),
        AggregateView::UpdateClientFromClientId { client_id, counterparty_client_id } => {
            spec_update_client_from_client_id(
                light_client,
                chain_id,
                client_id,
                counterparty_client_id,
                tag(items[0], items[0].data->TrustedClientState_0),
            )
        },
        AggregateView::UpdateClient { update_to, client_id, counterparty_client_id } => {
            spec_update_client(
                light_client,
                chain_id,
                update_to,
                client_id,
                counterparty_client_id,
                tag(items[0], items[0].data->TrustedClientState_0),
            )
        },
        AggregateView::UpdateClientWithCounterpartyChainIdData {
            update_to,
            client_id,
            counterparty_client_id,
            counterparty_chain_id,
        } => spec_update_client_with_counterparty_chain_id(
            light_client,
            chain_id,
            update_to,
            client_id,
            counterparty_client_id,
            counterparty_chain_id,
            tag(items[0], items[0].data->TrustedClientState_0),
        ),
        AggregateView::CreateClient { config } => spec_create_client(
            light_client,
            chain_id,
            config,
            tag(items[0], items[0].data->SelfClientState_0),
            tag(items[1], items[1].data->SelfConsensusState_0),
        ),
        AggregateView::ConsensusStateProofAtLatestHeight { client_id, at } => {
            spec_consensus_state_proof_at_latest_height(
                light_client,
                chain_id,
                client_id,
                at,
                tag(items[0], items[0].data->TrustedClientState_0),
            )
        },
        AggregateView::AggregateMsgAfterUpdate(next) => spec_msg_after_update(
            light_client,
            chain_id,
            next,
            tag(items[0], items[0].data->TrustedClientState_0),
        ),
        AggregateView::LightClientSpecific(evm) => spec_evm_aggregate(
            light_client,
            chain_id,
            evm,
            items,
        ),
        AggregateView::ConnectionFetchFromChannelEnd { at } => spec_connection_fetch_from_channel_end(
            light_client,
            chain_id,
            at,
            tag(items[0], items[0].data->ChannelEnd_0),
        ),
        AggregateView::ChannelHandshakeUpdateClient {
            update_to,
            event_height,
            channel_handshake_event,
        } => spec_channel_handshake_update_client(
            light_client,
            chain_id,
            update_to,
            event_height,
            channel_handshake_event,
            tag(items[0], items[0].data->ConnectionEnd_0),
        ),
        AggregateView::PacketUpdateClient { update_to, event_height, block_hash, packet_event } => {
            spec_packet_update_client(
                light_client,
                chain_id,
                update_to,
                event_height,
                block_hash,
                packet_event,
                tag(items[0], items[0].data->ConnectionEnd_0),
            )
        },
        AggregateView::WaitForTrustedHeight { wait_for, client_id, counterparty_client_id } => {
            spec_wait_for_trusted_height(
                light_client,
                chain_id,
                wait_for,
                client_id,
                counterparty_client_id,
                tag(items[0], items[0].data->TrustedClientState_0),
            )
        },
        AggregateView::FetchCounterpartyStateproof { counterparty_client_id, fetch } => {
            spec_fetch_counterparty_state_proof(
                light_client,
                chain_id,
                fetch,
                tag(items[0], items[0].data->TrustedClientState_0),
            )
        },
    }
}

/// The successors of an aggregation whose queue is empty: the one message
/// that `receiver` builds from `data`.
///
/// It is an error if `data` is not exactly what `receiver` needs, whatever
/// the order, and an error if a payload does not fit the others: if it comes
/// from another chain, belongs to another client, or is older than what it is
/// to prove.
pub open spec fn spec_do_create(receiver: AggregateReceiverView, data: Seq<AggregateDataView>) -> Result<
    Seq<RelayerMsgView>,
    AggregateError,
> {
    match spec_pick(data, spec_schema(receiver)) {
        Err(e) => Err(e),
        Ok(items) => match spec_aggregate(receiver, items) {
            Ok(msg) => Ok(seq![msg]),
            Err(e) => Err(e),
        },
    }
}

// -------------------------------------------------------------- the builders

fn update_client_from_client_id(
    light_client: LightClientKind,
    chain_id: ChainId,
    client_id: String,
    counterparty_client_id: String,
    state: Identified<TrustedClientState>,
) -> (outcome: Result<RelayerMsg, AggregateError>)
    ensures
        outcome_view(outcome) == spec_update_client_from_client_id(
            light_client,
            chain_id@,
            client_id@,
            counterparty_client_id@,
            state@,
        ),
{
    if !state.chain_id.same(&chain_id) {
        return Err(AggregateError::ChainIdMismatch);
    }
    let counterparty_chain_id = state.data.trusted_client_state.chain_id;
    let fetch = RelayerMsg::fetch(
        light_client.counterparty(),
        counterparty_chain_id.clone(),
        Fetch::TrustedClientState {
            at: QueryHeight::Specific(state.data.trusted_client_state.height),
            client_id: counterparty_client_id.clone(),
        },
    );
    Ok(
        RelayerMsg::aggregate(
            msgs1(fetch),
            AggregateReceiver::new(
                light_client,
                chain_id,
                Aggregate::UpdateClientWithCounterpartyChainIdData {
                    update_to: state.data.fetched_at,
                    client_id,
                    counterparty_client_id,
                    counterparty_chain_id,
                },
            ),
        ),
    )
}

fn update_client(
    light_client: LightClientKind,
    chain_id: ChainId,
    update_to: Height,
    client_id: String,
    counterparty_client_id: String,
    state: Identified<TrustedClientState>,
) -> (outcome: Result<RelayerMsg, AggregateError>)
    ensures
        outcome_view(outcome) == spec_update_client(
            light_client,
            chain_id@,
            update_to,
            client_id@,
            counterparty_client_id@,
            state@,
        ),
{
    if !state.chain_id.same(&chain_id) {
        return Err(AggregateError::ChainIdMismatch);
    }
    if state.data.client_id != client_id {
        return Err(AggregateError::ClientIdMismatch);
    }
    let counterparty_chain_id = state.data.trusted_client_state.chain_id;
    let fetch = RelayerMsg::fetch(
        light_client.counterparty(),
        counterparty_chain_id.clone(),
        Fetch::TrustedClientState {
            at: QueryHeight::Latest,
            client_id: counterparty_client_id.clone(),
        },
    );
    Ok(
        RelayerMsg::aggregate(
            msgs1(fetch),
            AggregateReceiver::new(
                light_client,
                chain_id,
                Aggregate::UpdateClientWithCounterpartyChainIdData {
                    update_to,
                    client_id,
                    counterparty_client_id,
                    counterparty_chain_id,
                },
            ),
        ),
    )
}

fn update_client_with_counterparty_chain_id(
    light_client: LightClientKind,
    chain_id: ChainId,
    update_to: Height,
    client_id: String,
    counterparty_client_id: String,
    counterparty_chain_id: ChainId,
    state: Identified<TrustedClientState>,
) -> (outcome: Result<RelayerMsg, AggregateError>)
    ensures
        outcome_view(outcome) == spec_update_client_with_counterparty_chain_id(
            light_client,
            chain_id@,
            update_to,
            client_id@,
            counterparty_client_id@,
            counterparty_chain_id@,
            state@,
        ),
{
    if !state.data.trusted_client_state.chain_id.same(&chain_id) {
        return Err(AggregateError::ChainIdMismatch);
    }
    if state.data.client_id != counterparty_client_id {
        return Err(AggregateError::ClientIdMismatch);
    }
    if !state.chain_id.same(&counterparty_chain_id) {
        return Err(AggregateError::ChainIdMismatch);
    }
    Ok(
        RelayerMsg::fetch(
            light_client,
            chain_id,
            Fetch::UpdateHeaders(
                FetchUpdateHeaders {
                    client_id,
                    counterparty_client_id,
                    counterparty_chain_id,
                    update_from: state.data.trusted_client_state.height,
                    update_to,
                },
            ),
        ),
    )
}

fn wait_for_trusted_height(
    light_client: LightClientKind,
    chain_id: ChainId,
    wait_for: Height,
    client_id: String,
    counterparty_client_id: String,
    state: Identified<TrustedClientState>,
) -> (outcome: Result<RelayerMsg, AggregateError>)
    ensures
        outcome_view(outcome) == spec_wait_for_trusted_height(
            light_client,
            chain_id@,
            wait_for,
            client_id@,
            counterparty_client_id@,
            state@,
        ),
{
    if !state.chain_id.same(&chain_id) {
        return Err(AggregateError::ChainIdMismatch);
    }
    Ok(
        RelayerMsg::wait(
            light_client.counterparty(),
            state.data.trusted_client_state.chain_id,
            Wait::TrustedHeight {
                client_id: counterparty_client_id,
                height: wait_for,
                counterparty_client_id: client_id,
                counterparty_chain_id: chain_id,
            },
        ),
    )
}

fn consensus_state_proof_at_latest_height(
    light_client: LightClientKind,
    chain_id: ChainId,
    client_id: String,
    at: Height,
    state: Identified<TrustedClientState>,
) -> (outcome: Result<RelayerMsg, AggregateError>)
    ensures
        outcome_view(outcome) == spec_consensus_state_proof_at_latest_height(
            light_client,
            chain_id@,
            client_id@,
            at,
            state@,
        ),
{
    if !state.chain_id.same(&chain_id) {
        return Err(AggregateError::ChainIdMismatch);
    }
    if state.data.client_id != client_id {
        return Err(AggregateError::ClientIdMismatch);
    }
    Ok(
        RelayerMsg::fetch(
            light_client,
            chain_id,
            Fetch::StateProof(
                FetchStateProof {
                    at,
                    path: Path::ClientConsensusState {
                        client_id,
                        height: state.data.trusted_client_state.height,
                    },
                },
            ),
        ),
    )
}

fn fetch_counterparty_state_proof(
    light_client: LightClientKind,
    chain_id: ChainId,
    fetch: FetchStateProof,
    state: Identified<TrustedClientState>,
) -> (outcome: Result<RelayerMsg, AggregateError>)
    ensures
        outcome_view(outcome) == spec_fetch_counterparty_state_proof(
            light_client,
            chain_id@,
            fetch@,
            state@,
        ),
{
    if !state.chain_id.same(&chain_id) {
        return Err(AggregateError::ChainIdMismatch);
    }
    Ok(
        RelayerMsg::fetch(
            light_client.counterparty(),
            state.data.trusted_client_state.chain_id,
            Fetch::StateProof(fetch),
        ),
    )
}

fn create_client(
    light_client: LightClientKind,
    chain_id: ChainId,
    config: ClientConfig,
    client_state: Identified<Vec<u8>>,
    consensus_state: Identified<Vec<u8>>,
) -> (outcome: Result<RelayerMsg, AggregateError>)
    ensures
        outcome_view(outcome) == spec_create_client(
            light_client,
            chain_id@,
            config@,
            client_state@,
            consensus_state@,
        ),
{
    if !client_state.chain_id.same(&consensus_state.chain_id) {
        return Err(AggregateError::ChainIdMismatch);
    }
    Ok(
        RelayerMsg::msg(
            light_client,
            chain_id,
            Msg::CreateClient(
                MsgCreateClient {
                    config,
                    client_state: client_state.data,
                    consensus_state: consensus_state.data,
                },
            ),
        ),
    )
}

fn connection_fetch_from_channel_end(
    light_client: LightClientKind,
    chain_id: ChainId,
    at: Height,
    channel: Identified<Channel>,
) -> (outcome: Result<RelayerMsg, AggregateError>)
    ensures
        outcome_view(outcome) == spec_connection_fetch_from_channel_end(
            light_client,
            chain_id@,
            at,
            channel@,
        ),
{
    if !channel.chain_id.same(&chain_id) {
        return Err(AggregateError::ChainIdMismatch);
    }
    if channel.data.connection_hops.len() == 0 {
        return Err(AggregateError::NoConnectionHops);
    }
    let connection_id = channel.data.connection_hops[0].clone();
    Ok(RelayerMsg::fetch(light_client, chain_id, Fetch::ConnectionEnd { at, connection_id }))
}

fn channel_handshake_update_client(
    light_client: LightClientKind,
    chain_id: ChainId,
    update_to: Height,
    event_height: Height,
    step: ChannelHandshakeEvent,
    connection: Identified<ConnectionEnd>,
) -> (outcome: Result<RelayerMsg, AggregateError>)
    ensures
        outcome_view(outcome) == spec_channel_handshake_update_client(
            light_client,
            chain_id@,
            update_to,
            event_height,
            step@,
            connection@,
        ),
{
    if !connection.chain_id.same(&chain_id) {
        return Err(AggregateError::ChainIdMismatch);
    }
    if update_to.revision_height == u64::MAX {
        return Err(AggregateError::HeightOverflow);
    }
    let next = match step {
        ChannelHandshakeEvent::Init(event) => AggregateMsgAfterUpdate::ChannelOpenTry(
            AggregateChannelOpen { event_height, event },
        ),
        ChannelHandshakeEvent::Try(event) => AggregateMsgAfterUpdate::ChannelOpenAck(
            AggregateChannelOpen { event_height, event },
        ),
        ChannelHandshakeEvent::Ack(event) => AggregateMsgAfterUpdate::ChannelOpenConfirm(
            AggregateChannelOpen { event_height, event },
        ),
    };
    let update = mk_aggregate_update(
        light_client,
        chain_id.clone(),
        connection.data.client_id,
        connection.data.counterparty.client_id,
        update_to,
    );
    Ok(
        RelayerMsg::aggregate(
            msgs1(update),
            AggregateReceiver::new(light_client, chain_id, Aggregate::AggregateMsgAfterUpdate(next)),
        ),
    )
}

fn packet_update_client(
    light_client: LightClientKind,
    chain_id: ChainId,
    update_to: Height,
    event_height: Height,
    block_hash: [u8; 32],
    packet_event: PacketEvent,
    connection: Identified<ConnectionEnd>,
) -> (outcome: Result<RelayerMsg, AggregateError>)
    ensures
        outcome_view(outcome) == spec_packet_update_client(
            light_client,
            chain_id@,
            update_to,
            event_height,
            block_hash@,
            packet_event@,
            connection@,
        ),
{
    if !connection.chain_id.same(&chain_id) {
        return Err(AggregateError::ChainIdMismatch);
    }
    let client_id = connection.data.client_id;
    let counterparty_client_id = connection.data.counterparty.client_id;
    let next = match packet_event {
        PacketEvent::Send(event) => AggregateMsgAfterUpdate::RecvPacket(
            AggregateRecvPacket { event_height, event },
        ),
        PacketEvent::Recv(event) => AggregateMsgAfterUpdate::AckPacket(
            AggregateAckPacket {
                event_height,
                event,
                block_hash,
                counterparty_client_id: counterparty_client_id.clone(),
            },
        ),
    };
    let fetch = RelayerMsg::fetch(
        light_client,
        chain_id.clone(),
        Fetch::TrustedClientState { at: QueryHeight::Latest, client_id: client_id.clone() },
    );
    let wait = RelayerMsg::aggregate(
        msgs1(fetch),
        AggregateReceiver::new(
            light_client,
            chain_id.clone(),
            Aggregate::WaitForTrustedHeight { wait_for: update_to, client_id, counterparty_client_id },
        ),
    );
    Ok(
        RelayerMsg::aggregate(
            msgs1(wait),
            AggregateReceiver::new(light_client, chain_id, Aggregate::AggregateMsgAfterUpdate(next)),
        ),
    )
}

fn mk_proof_fetch(light_client: LightClientKind, chain_id: ChainId, at: Height, path: Path) -> (msg:
    RelayerMsg)
    ensures
        msg@ == proof_fetch(light_client, chain_id@, at, path@),
{
    RelayerMsg::fetch(light_client, chain_id, Fetch::StateProof(FetchStateProof { at, path }))
}

fn connection_proofs(
    light_client: LightClientKind,
    chain_id: &ChainId,
    at: Height,
    trusted_height: Height,
    client_id: &String,
    connection_id: &String,
) -> (queue: Vec<RelayerMsg>)
    ensures
        views(queue@) == seq![
            proof_fetch(light_client, chain_id@, at, PathView::ClientState { client_id: client_id@ }),
            proof_fetch(
                light_client,
                chain_id@,
                at,
                PathView::ClientConsensusState { client_id: client_id@, height: trusted_height },
            ),
            proof_fetch(
                light_client,
                chain_id@,
                at,
                PathView::Connection { connection_id: connection_id@ },
            ),
        ],
{
    msgs3(
        mk_proof_fetch(
            light_client,
            chain_id.clone(),
            at,
            Path::ClientState { client_id: client_id.clone() },
        ),
        mk_proof_fetch(
            light_client,
            chain_id.clone(),
            at,
            Path::ClientConsensusState { client_id: client_id.clone(), height: trusted_height },
        ),
        mk_proof_fetch(
            light_client,
            chain_id.clone(),
            at,
            Path::Connection { connection_id: connection_id.clone() },
        ),
    )
}

fn channel_proof(
    light_client: LightClientKind,
    chain_id: &ChainId,
    at: Height,
    port_id: &String,
    channel_id: &String,
) -> (msg: RelayerMsg)
    ensures
        msg@ == proof_fetch(
            light_client,
            chain_id@,
            at,
            PathView::ChannelEnd { port_id: port_id@, channel_id: channel_id@ },
        ),
{
    mk_proof_fetch(
        light_client,
        chain_id.clone(),
        at,
        Path::ChannelEnd { port_id: port_id.clone(), channel_id: channel_id.clone() },
    )
}

fn mk_proofs_needed(
    light_client: LightClientKind,
    chain_id: &ChainId,
    at: Height,
    trusted_height: Height,
    next: &AggregateMsgAfterUpdate,
) -> (queue: Vec<RelayerMsg>)
    ensures
        views(queue@) == proofs_needed(light_client, chain_id@, at, trusted_height, next@),
{
    match next {
        AggregateMsgAfterUpdate::ConnectionOpenTry(r) => connection_proofs(
            light_client,
            chain_id,
            at,
            trusted_height,
            &r.event.client_id,
            &r.event.connection_id,
        ),
        AggregateMsgAfterUpdate::ConnectionOpenAck(r) => connection_proofs(
            light_client,
            chain_id,
            at,
            trusted_height,
            &r.event.client_id,
            &r.event.connection_id,
        ),
        AggregateMsgAfterUpdate::ConnectionOpenConfirm(r) => msgs1(
            mk_proof_fetch(
                light_client,
                chain_id.clone(),
                at,
                Path::Connection { connection_id: r.event.connection_id.clone() },
            ),
        ),
        AggregateMsgAfterUpdate::ChannelOpenTry(r) => {
            let fetch = RelayerMsg::fetch(
                light_client,
                chain_id.clone(),
                Fetch::ChannelEnd {
                    at,
                    port_id: r.event.port_id.clone(),
                    channel_id: r.event.channel_id.clone(),
                },
            );
            let connection = RelayerMsg::aggregate(
                msgs1(fetch),
                AggregateReceiver::new(
                    light_client,
                    chain_id.clone(),
                    Aggregate::ConnectionFetchFromChannelEnd { at },
                ),
            );
            msgs2(
                connection,
                channel_proof(light_client, chain_id, at, &r.event.port_id, &r.event.channel_id),
            )
        },
        AggregateMsgAfterUpdate::ChannelOpenAck(r) => msgs1(
            channel_proof(light_client, chain_id, at, &r.event.port_id, &r.event.channel_id),
        ),
        AggregateMsgAfterUpdate::ChannelOpenConfirm(r) => msgs1(
            channel_proof(light_client, chain_id, at, &r.event.port_id, &r.event.channel_id),
        ),
        AggregateMsgAfterUpdate::RecvPacket(r) => msgs1(
            mk_proof_fetch(
                light_client,
                chain_id.clone(),
                at,
                Path::Commitment {
                    port_id: r.event.packet_src_port.clone(),
                    channel_id: r.event.packet_src_channel.clone(),
                    sequence: r.event.packet_sequence,
                },
            ),
        ),
        AggregateMsgAfterUpdate::AckPacket(r) => msgs2(
            RelayerMsg::fetch(
                light_client,
                chain_id.clone(),
                Fetch::PacketAcknowledgement(
                    FetchPacketAcknowledgement {
                        block_hash: r.block_hash,
                        destination_port_id: r.event.packet_dst_port.clone(),
                        destination_channel_id: r.event.packet_dst_channel.clone(),
                        sequence: r.event.packet_sequence,
                    },
                ),
            ),
            mk_proof_fetch(
                light_client,
                chain_id.clone(),
                at,
                Path::Acknowledgement {
                    port_id: r.event.packet_dst_port.clone(),
                    channel_id: r.event.packet_dst_channel.clone(),
                    sequence: r.event.packet_sequence,
                },
            ),
        ),
    }
}

fn event_height_to_check(next: &AggregateMsgAfterUpdate) -> (height: Option<Height>)
    ensures
        height == checked_event_height(next@),
{
    match next {
        AggregateMsgAfterUpdate::ConnectionOpenTry(r) => Some(r.event_height),
        AggregateMsgAfterUpdate::ConnectionOpenAck(r) => Some(r.event_height),
        AggregateMsgAfterUpdate::ConnectionOpenConfirm(r) => Some(r.event_height),
        AggregateMsgAfterUpdate::ChannelOpenTry(r) => Some(r.event_height),
        AggregateMsgAfterUpdate::ChannelOpenAck(r) => Some(r.event_height),
        AggregateMsgAfterUpdate::ChannelOpenConfirm(r) => Some(r.event_height),
        AggregateMsgAfterUpdate::RecvPacket(_) => None,
        AggregateMsgAfterUpdate::AckPacket(_) => None,
    }
}

fn mk_final_receiver(next: AggregateMsgAfterUpdate) -> (aggregate: Aggregate)
    ensures
        aggregate@ == final_receiver(next@),
{
    match next {
        AggregateMsgAfterUpdate::ConnectionOpenTry(r) => Aggregate::ConnectionOpenTry(r),
        AggregateMsgAfterUpdate::ConnectionOpenAck(r) => Aggregate::ConnectionOpenAck(r),
        AggregateMsgAfterUpdate::ConnectionOpenConfirm(r) => Aggregate::ConnectionOpenConfirm(r),
        AggregateMsgAfterUpdate::ChannelOpenTry(r) => Aggregate::ChannelOpenTry(r),
        AggregateMsgAfterUpdate::ChannelOpenAck(r) => Aggregate::ChannelOpenAck(r),
        AggregateMsgAfterUpdate::ChannelOpenConfirm(r) => Aggregate::ChannelOpenConfirm(r),
        AggregateMsgAfterUpdate::RecvPacket(r) => Aggregate::RecvPacket(r),
        AggregateMsgAfterUpdate::AckPacket(r) => Aggregate::AckPacket(r),
    }
}

fn msg_after_update(
    light_client: LightClientKind,
    chain_id: ChainId,
    next: AggregateMsgAfterUpdate,
    state: Identified<TrustedClientState>,
) -> (outcome: Result<RelayerMsg, AggregateError>)
    ensures
        outcome_view(outcome) == spec_msg_after_update(light_client, chain_id@, next@, state@),
{
    let at = state.data.fetched_at;
    if !state.chain_id.same(&chain_id) {
        return Err(AggregateError::ChainIdMismatch);
    }
    match event_height_to_check(&next) {
        Some(event_height) => {
            if event_height.revision_number != at.revision_number {
                return Err(AggregateError::RevisionMismatch);
            }
            if event_height.revision_height > at.revision_height {
                return Err(AggregateError::HeightTooLow);
            }
        },
        None => {},
    }
    let queue = mk_proofs_needed(
        light_client,
        &chain_id,
        at,
        state.data.trusted_client_state.height,
        &next,
    );
    let kept = AggregateData {
        light_client,
        chain_id: chain_id.clone(),
        data: Data::TrustedClientState(state.data),
    };
    let data = vec![kept];
    assert(data_views(data@) =~= seq![kept@]);
    Ok(
        RelayerMsg::aggregate_with(
            queue,
            data,
            AggregateReceiver::new(light_client, chain_id, mk_final_receiver(next)),
        ),
    )
}

fn ibc_prefix_bytes() -> (prefix: Vec<u8>)
    ensures
        prefix@ == ibc_prefix(),
{
    let prefix: Vec<u8> = vec![0x69u8, 0x62u8, 0x63u8];
    assert(prefix@ =~= ibc_prefix());
    prefix
}

fn connection_open_try(
    light_client: LightClientKind,
    chain_id: ChainId,
    receiver: AggregateConnectionOpen,
    state: Identified<TrustedClientState>,
    client_state_proof: Identified<ClientStateProof>,
    consensus_state_proof: Identified<ClientConsensusStateProof>,
    connection_proof: Identified<ConnectionProof>,
) -> (outcome: Result<RelayerMsg, AggregateError>)
    ensures
        outcome_view(outcome) == spec_connection_open_try(
            light_client,
            chain_id@,
            receiver@,
            state@,
            client_state_proof@,
            consensus_state_proof@,
            connection_proof@,
        ),
{
    if !state.chain_id.same(&chain_id) || !client_state_proof.chain_id.same(&chain_id)
        || !consensus_state_proof.chain_id.same(&chain_id) || !connection_proof.chain_id.same(
        &chain_id,
    ) {
        return Err(AggregateError::ChainIdMismatch);
    }
    if consensus_state_proof.data.proof_height.revision_height
        < receiver.event_height.revision_height
        || client_state_proof.data.proof_height.revision_height
        < receiver.event_height.revision_height {
        return Err(AggregateError::ProofHeightTooLow);
    }
    let event = receiver.event;
    Ok(
        RelayerMsg::msg(
            light_client.counterparty(),
            state.data.trusted_client_state.chain_id,
            Msg::ConnectionOpenTry(
                MsgConnectionOpenTry {
                    client_id: event.counterparty_client_id,
                    client_state: client_state_proof.data.state,
                    counterparty: ConnectionCounterparty {
                        client_id: event.client_id,
                        connection_id: event.connection_id,
                        prefix: ibc_prefix_bytes(),
                    },
                    delay_period: DELAY_PERIOD,
                    counterparty_versions: connection_proof.data.state.versions,
                    proof_height: connection_proof.data.proof_height,
                    proof_init: connection_proof.data.proof,
                    proof_client: client_state_proof.data.proof,
                    proof_consensus: consensus_state_proof.data.proof,
                    consensus_height: state.data.trusted_client_state.height,
                },
            ),
        ),
    )
}

fn connection_open_ack(
    light_client: LightClientKind,
    chain_id: ChainId,
    receiver: AggregateConnectionOpen,
    state: Identified<TrustedClientState>,
    client_state_proof: Identified<ClientStateProof>,
    consensus_state_proof: Identified<ClientConsensusStateProof>,
    connection_proof: Identified<ConnectionProof>,
) -> (outcome: Result<RelayerMsg, AggregateError>)
    ensures
        outcome_view(outcome) == spec_connection_open_ack(
            light_client,
            chain_id@,
            receiver@,
            state@,
            client_state_proof@,
            consensus_state_proof@,
            connection_proof@,
        ),
{
    if !state.chain_id.same(&chain_id) || !client_state_proof.chain_id.same(&chain_id)
        || !consensus_state_proof.chain_id.same(&chain_id) || !connection_proof.chain_id.same(
        &chain_id,
    ) {
        return Err(AggregateError::ChainIdMismatch);
    }
    if consensus_state_proof.data.proof_height.revision_height
        < receiver.event_height.revision_height
        || client_state_proof.data.proof_height.revision_height
        < receiver.event_height.revision_height {
        return Err(AggregateError::ProofHeightTooLow);
    }
    let mut versions = connection_proof.data.state.versions;
    if versions.len() == 0 {
        return Err(AggregateError::NoVersions);
    }
    let version = versions.swap_remove(0);
    let event = receiver.event;
    Ok(
        RelayerMsg::msg(
            light_client.counterparty(),
            state.data.trusted_client_state.chain_id,
            Msg::ConnectionOpenAck(
                MsgConnectionOpenAck {
                    connection_id: event.counterparty_connection_id,
                    counterparty_connection_id: event.connection_id,
                    version,
                    client_state: client_state_proof.data.state,
                    proof_height: connection_proof.data.proof_height,
                    proof_try: connection_proof.data.proof,
                    proof_client: client_state_proof.data.proof,
                    proof_consensus: consensus_state_proof.data.proof,
                    consensus_height: state.data.trusted_client_state.height,
                },
            ),
        ),
    )
}

fn connection_open_confirm(
    light_client: LightClientKind,
    chain_id: ChainId,
    receiver: AggregateConnectionOpen,
    state: Identified<TrustedClientState>,
    connection_proof: Identified<ConnectionProof>,
) -> (outcome: Result<RelayerMsg, AggregateError>)
    ensures
        outcome_view(outcome) == spec_connection_open_confirm(
            light_client,
            chain_id@,
            receiver@,
            state@,
            connection_proof@,
        ),
{
    if !state.chain_id.same(&chain_id) || !connection_proof.chain_id.same(&chain_id) {
        return Err(AggregateError::ChainIdMismatch);
    }
    Ok(
        RelayerMsg::msg(
            light_client.counterparty(),
            state.data.trusted_client_state.chain_id,
            Msg::ConnectionOpenConfirm(
                MsgConnectionOpenConfirm {
                    connection_id: receiver.event.counterparty_connection_id,
                    proof_ack: connection_proof.data.proof,
                    proof_height: connection_proof.data.proof_height,
                },
            ),
        ),
    )
}

fn channel_open_try(
    light_client: LightClientKind,
    chain_id: ChainId,
    receiver: AggregateChannelOpen,
    state: Identified<TrustedClientState>,
    channel_proof: Identified<ChannelEndProof>,
    connection: Identified<ConnectionEnd>,
) -> (outcome: Result<RelayerMsg, AggregateError>)
    ensures
        outcome_view(outcome) == spec_channel_open_try(
            light_client,
            chain_id@,
            receiver@,
            state@,
            channel_proof@,
            connection@,
        ),
{
    if !state.chain_id.same(&chain_id) || !channel_proof.chain_id.same(&chain_id)
        || !connection.chain_id.same(&chain_id) {
        return Err(AggregateError::ChainIdMismatch);
    }
    let event = receiver.event;
    let hop = connection.data.counterparty.connection_id;
    let connection_hops = vec![hop];
    assert(connection_hops@.map_values(|s: String| s@) =~= seq![hop@]);
    Ok(
        RelayerMsg::msg(
            light_client.counterparty(),
            state.data.trusted_client_state.chain_id,
            Msg::ChannelOpenTry(
                MsgChannelOpenTry {
                    port_id: channel_proof.data.state.counterparty.port_id,
                    channel: Channel {
                        state: ChannelState::Tryopen,
                        ordering: channel_proof.data.state.ordering,
                        counterparty: ChannelCounterparty {
                            port_id: event.port_id,
                            channel_id: event.channel_id,
                        },
                        connection_hops,
                        version: event.version.clone(),
                    },
                    counterparty_version: event.version,
                    proof_init: channel_proof.data.proof,
                    proof_height: channel_proof.data.proof_height,
                },
            ),
        ),
    )
}

fn channel_open_ack(
    light_client: LightClientKind,
    chain_id: ChainId,
    receiver: AggregateChannelOpen,
    state: Identified<TrustedClientState>,
    channel_proof: Identified<ChannelEndProof>,
) -> (outcome: Result<RelayerMsg, AggregateError>)
    ensures
        outcome_view(outcome) == spec_channel_open_ack(
            light_client,
            chain_id@,
            receiver@,
            state@,
            channel_proof@,
        ),
{
    if !state.chain_id.same(&chain_id) || !channel_proof.chain_id.same(&chain_id) {
        return Err(AggregateError::ChainIdMismatch);
    }
    let event = receiver.event;
    Ok(
        RelayerMsg::msg(
            light_client.counterparty(),
            state.data.trusted_client_state.chain_id,
            Msg::ChannelOpenAck(
                MsgChannelOpenAck {
                    port_id: channel_proof.data.state.counterparty.port_id,
                    channel_id: event.counterparty_channel_id,
                    counterparty_channel_id: event.channel_id,
                    counterparty_version: event.version,
                    proof_try: channel_proof.data.proof,
                    proof_height: channel_proof.data.proof_height,
                },
            ),
        ),
    )
}

fn channel_open_confirm(
    light_client: LightClientKind,
    chain_id: ChainId,
    receiver: AggregateChannelOpen,
    state: Identified<TrustedClientState>,
    channel_proof: Identified<ChannelEndProof>,
) -> (outcome: Result<RelayerMsg, AggregateError>)
    ensures
        outcome_view(outcome) == spec_channel_open_confirm(
            light_client,
            chain_id@,
            receiver@,
            state@,
            channel_proof@,
        ),
{
    if !state.chain_id.same(&chain_id) || !channel_proof.chain_id.same(&chain_id) {
        return Err(AggregateError::ChainIdMismatch);
    }
    Ok(
        RelayerMsg::msg(
            light_client.counterparty(),
            state.data.trusted_client_state.chain_id,
            Msg::ChannelOpenConfirm(
                MsgChannelOpenConfirm {
                    port_id: channel_proof.data.state.counterparty.port_id,
                    channel_id: receiver.event.counterparty_channel_id,
                    proof_ack: channel_proof.data.proof,
                    proof_height: channel_proof.data.proof_height,
                },
            ),
        ),
    )
}

fn mk_packet(event: PacketEventData) -> (packet: Packet)
    ensures
        packet@ == packet_of(event@),
{
    Packet {
        sequence: event.packet_sequence,
        source_port: event.packet_src_port,
        source_channel: event.packet_src_channel,
        destination_port: event.packet_dst_port,
        destination_channel: event.packet_dst_channel,
        data: event.packet_data_hex,
        timeout_height: event.packet_timeout_height,
        timeout_timestamp: event.packet_timeout_timestamp,
    }
}

fn recv_packet(
    light_client: LightClientKind,
    chain_id: ChainId,
    receiver: AggregateRecvPacket,
    state: Identified<TrustedClientState>,
    commitment_proof: Identified<CommitmentProof>,
) -> (outcome: Result<RelayerMsg, AggregateError>)
    ensures
        outcome_view(outcome) == spec_recv_packet(
            light_client,
            chain_id@,
            receiver@,
            state@,
            commitment_proof@,
        ),
{
    if !state.chain_id.same(&chain_id) || !commitment_proof.chain_id.same(&chain_id) {
        return Err(AggregateError::ChainIdMismatch);
    }
    Ok(
        RelayerMsg::msg(
            light_client.counterparty(),
            state.data.trusted_client_state.chain_id,
            Msg::RecvPacket(
                MsgRecvPacket {
                    packet: mk_packet(receiver.event),
                    proof_commitment: commitment_proof.data.proof,
                    proof_height: commitment_proof.data.proof_height,
                },
            ),
        ),
    )
}

fn ack_packet(
    light_client: LightClientKind,
    chain_id: ChainId,
    receiver: AggregateAckPacket,
    state: Identified<TrustedClientState>,
    acknowledgement: Identified<PacketAcknowledgement>,
    acknowledgement_proof: Identified<AcknowledgementProof>,
) -> (outcome: Result<RelayerMsg, AggregateError>)
    ensures
        outcome_view(outcome) == spec_ack_packet(
            light_client,
            chain_id@,
            receiver@,
            state@,
            acknowledgement@,
            acknowledgement_proof@,
        ),
{
    if !state.chain_id.same(&chain_id) || !acknowledgement.chain_id.same(&chain_id)
        || !acknowledgement_proof.chain_id.same(&chain_id) {
        return Err(AggregateError::ChainIdMismatch);
    }
    Ok(
        RelayerMsg::msg(
            light_client.counterparty(),
            state.data.trusted_client_state.chain_id,
            Msg::AckPacket(
                MsgAcknowledgement {
                    packet: mk_packet(receiver.event),
                    acknowledgement: acknowledgement.data.ack,
                    proof_acked: acknowledgement_proof.data.proof,
                    proof_height: acknowledgement_proof.data.proof_height,
                },
            ),
        ),
    )
}

fn unpack1(items: Vec<AggregateData>) -> (item: AggregateData)
    requires
        items@.len() == 1,
    ensures
        item == items@[0],
{
    let mut items = items;
    items.pop().unwrap()
}

fn unpack2(items: Vec<AggregateData>) -> (pair: (AggregateData, AggregateData))
    requires
        items@.len() == 2,
    ensures
        pair.0 == items@[0],
        pair.1 == items@[1],
{
    let mut items = items;
    let second = items.pop().unwrap();
    let first = items.pop().unwrap();
    (first, second)
}

fn unpack3(items: Vec<AggregateData>) -> (triple: (AggregateData, AggregateData, AggregateData))
    requires
        items@.len() == 3,
    ensures
        triple.0 == items@[0],
        triple.1 == items@[1],
        triple.2 == items@[2],
{
    let mut items = items;
    let third = items.pop().unwrap();
    let second = items.pop().unwrap();
    let first = items.pop().unwrap();
    (first, second, third)
}

fn unpack4(items: Vec<AggregateData>) -> (four: (
    AggregateData,
    AggregateData,
    AggregateData,
    AggregateData,
))
    requires
        items@.len() == 4,
    ensures
        four.0 == items@[0],
        four.1 == items@[1],
        four.2 == items@[2],
        four.3 == items@[3],
{
    let mut items = items;
    let fourth = items.pop().unwrap();
    let third = items.pop().unwrap();
    let second = items.pop().unwrap();
    let first = items.pop().unwrap();
    (first, second, third, fourth)
}

/// Whether `items` are payloads of the kinds that `aggregate` needs, in the
/// order in which it takes them.
pub open spec fn fit(items: Seq<AggregateDataView>, aggregate: AggregateView) -> bool {
    &&& items.len() == kinds_needed(aggregate).len()
    &&& forall|i: int|
        0 <= i < items.len() ==> kind_of(#[trigger] items[i].data) == kinds_needed(aggregate)[i]
}

/// What `receiver` builds from `items`, the payloads picked for it in the
/// order of its needs.
fn aggregate(receiver: AggregateReceiver, items: Vec<AggregateData>) -> (outcome: Result<
    RelayerMsg,
    AggregateError,
>)
    requires
        fit(data_views(items@), receiver@.aggregate),
    ensures
        outcome_view(outcome) == spec_aggregate(receiver@, data_views(items@)),
{
    let ghost picked = data_views(items@);
    assert(forall|i: int| 0 <= i < items@.len() ==> picked[i] == #[trigger] items@[i]@);
    assert(forall|i: int|
        0 <= i < items@.len() ==> kind_of(#[trigger] items@[i]@.data) == kinds_needed(
            receiver@.aggregate,
        )[i]) by {
        assert forall|i: int| 0 <= i < items@.len() implies kind_of(#[trigger] items@[i]@.data)
            == kinds_needed(receiver@.aggregate)[i] by {
            assert(kind_of(picked[i].data) == kinds_needed(receiver@.aggregate)[i]);
        }
    }
    let AggregateReceiver { light_client, chain_id, aggregate } = receiver;
    match aggregate {
        Aggregate::ConnectionOpenTry(r) => {
            let (item0, item1, item2, item3) = unpack4(items);
            connection_open_try(
                light_client,
                chain_id,
                r,
                item0.into_trusted_client_state(),
                item1.into_client_state_proof(),
                item2.into_client_consensus_state_proof(),
                item3.into_connection_proof(),
            )
        },
        Aggregate::ConnectionOpenAck(r) => {
            let (item0, item1, item2, item3) = unpack4(items);
            connection_open_ack(
                light_client,
                chain_id,
                r,
                item0.into_trusted_client_state(),
                item1.into_client_state_proof(),
                item2.into_client_consensus_state_proof(),
                item3.into_connection_proof(),
            )
        },
        Aggregate::ConnectionOpenConfirm(r) => {
            let (item0, item1) = unpack2(items);
            connection_open_confirm(
                light_client,
                chain_id,
                r,
                item0.into_trusted_client_state(),
                item1.into_connection_proof(),
            )
        },
        Aggregate::ChannelOpenTry(r) => {
            let (item0, item1, item2) = unpack3(items);
            channel_open_try(
                light_client,
                chain_id,
                r,
                item0.into_trusted_client_state(),
                item1.into_channel_end_proof(),
                item2.into_connection_end(),
            )
        },
        Aggregate::ChannelOpenAck(r) => {
            let (item0, item1) = unpack2(items);
            channel_open_ack(
                light_client,
                chain_id,
                r,
                item0.into_trusted_client_state(),
                item1.into_channel_end_proof(),
            )
        },
        Aggregate::ChannelOpenConfirm(r) => {
            let (item0, item1) = unpack2(items);
            channel_open_confirm(
                light_client,
                chain_id,
                r,
                item0.into_trusted_client_state(),
                item1.into_channel_end_proof(),
            )
        },
        Aggregate::RecvPacket(r) => {
            let (item0, item1) = unpack2(items);
            recv_packet(
                light_client,
                chain_id,
                r,
                item0.into_trusted_client_state(),
                item1.into_commitment_proof(),
            )
        },
        Aggregate::AckPacket(r) => {
            let (item0, item1, item2) = unpack3(items);
            ack_packet(
                light_client,
                chain_id,
                r,
                item0.into_trusted_client_state(),
                item1.into_packet_acknowledgement(),
                item2.into_acknowledgement_proof(),
            )
        },
        Aggregate::UpdateClientFromClientId { client_id, counterparty_client_id } => {
            let item0 = unpack1(items);
            update_client_from_client_id(
                light_client,
                chain_id,
                client_id,
                counterparty_client_id,
                item0.into_trusted_client_state(),
            )
        },
        Aggregate::UpdateClient { update_to, client_id, counterparty_client_id } => {
            let item0 = unpack1(items);
            update_client(
                light_client,
                chain_id,
                update_to,
                client_id,
                counterparty_client_id,
                item0.into_trusted_client_state(),
            )
        },
        Aggregate::UpdateClientWithCounterpartyChainIdData {
            update_to,
            client_id,
            counterparty_client_id,
            counterparty_chain_id,
        } => {
            let item0 = unpack1(items);
            update_client_with_counterparty_chain_id(
                light_client,
                chain_id,
                update_to,
                client_id,
                counterparty_client_id,
                counterparty_chain_id,
                item0.into_trusted_client_state(),
            )
        },
        Aggregate::CreateClient { config } => {
            let (item0, item1) = unpack2(items);
            create_client(
                light_client,
                chain_id,
                config,
                item0.into_self_client_state(),
                item1.into_self_consensus_state(),
            )
        },
        Aggregate::ConsensusStateProofAtLatestHeight { client_id, at } => {
            let item0 = unpack1(items);
            consensus_state_proof_at_latest_height(
                light_client,
                chain_id,
                client_id,
                at,
                item0.into_trusted_client_state(),
            )
        },
        Aggregate::AggregateMsgAfterUpdate(next) => {
            let item0 = unpack1(items);
            msg_after_update(
                light_client,
                chain_id,
                next,
                item0.into_trusted_client_state(),
            )
        },
        Aggregate::LightClientSpecific(evm) => evm_aggregate(light_client, chain_id, evm, items),
        Aggregate::ConnectionFetchFromChannelEnd { at } => {
            let item0 = unpack1(items);
            connection_fetch_from_channel_end(
                light_client,
                chain_id,
                at,
                item0.into_channel_end(),
            )
        },
        Aggregate::ChannelHandshakeUpdateClient { update_to, event_height, channel_handshake_event } => {
            let item0 = unpack1(items);
            channel_handshake_update_client(
                light_client,
                chain_id,
                update_to,
                event_height,
                channel_handshake_event,
                item0.into_connection_end(),
            )
        },
        Aggregate::PacketUpdateClient { update_to, event_height, block_hash, packet_event } => {
            let item0 = unpack1(items);
            packet_update_client(
                light_client,
                chain_id,
                update_to,
                event_height,
                block_hash,
                packet_event,
                item0.into_connection_end(),
            )
        },
        Aggregate::WaitForTrustedHeight { wait_for, client_id, counterparty_client_id } => {
            let item0 = unpack1(items);
            wait_for_trusted_height(
                light_client,
                chain_id,
                wait_for,
                client_id,
                counterparty_client_id,
                item0.into_trusted_client_state(),
            )
        },
        Aggregate::FetchCounterpartyStateproof { counterparty_client_id: _, fetch } => {
            let item0 = unpack1(items);
            fetch_counterparty_state_proof(
                light_client,
                chain_id,
                fetch,
                item0.into_trusted_client_state(),
            )
        },
    }
}

/// The successors of an aggregation whose queue is empty: the one message
/// that `receiver` builds from `data`.
///
/// The payloads may stand in `data` in any order. It is an error if they are
/// not exactly those that `receiver` needs, and an error if one of them does
/// not fit the others.
pub fn do_create(receiver: AggregateReceiver, data: Vec<AggregateData>) -> (outcome: Result<
    Vec<RelayerMsg>,
    AggregateError,
>)
    ensures
        outcomes_view(outcome) == spec_do_create(receiver@, data_views(data@)),
        outcome matches Ok(msgs) ==> msgs@.len() == 1,
{
    let needs = schema(&receiver);
    let items = match pick(data, &needs) {
        Ok(items) => items,
        Err(e) => {
            return Err(e);
        },
    };
    proof {
        lemma_pick_meets(data_views(data@), needs@);
        assert(forall|i: int|
            0 <= i < needs@.len() ==> (#[trigger] needs@[i]).kind == kinds_needed(
                receiver@.aggregate,
            )[i]);
    }
    match aggregate(receiver, items) {
        Ok(msg) => Ok(msgs1(msg)),
        Err(e) => Err(e),
    }
}

} // verus!
