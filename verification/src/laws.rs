//! What holds of the engine as a whole.
//!
//! Each statement here relates several steps of a plan, or speaks of every
//! message. They are proved from the definitions that the contracts of the
//! single steps use.

use crate::aggregate::{
    AggregateConnectionOpenView, AggregateMsgAfterUpdateView, AggregateRecvPacketView,
    AggregateView, EvmAggregateMsgView,
};
use crate::aggregation::{
    DELAY_PERIOD, ibc_prefix, packet_of, proof_fetch, spec_aggregate, spec_do_create,
    spec_msg_after_update, spec_recv_packet,
};
use crate::choreography::{spec_handle_event, wait_for_next_block};
use crate::data::{
    ClientConsensusStateProofView, ClientStateProofView, ClientStateView, CommitmentProofView,
    ConnectionCounterpartyView, ConnectionEndView, ConnectionProofView, DataView,
    TrustedClientStateView,
};
use crate::event::{
    ChainEventView, ConnectionHandshakeView, EventView, IbcEventView, PacketEventDataView,
};
use crate::fetch::FetchView;
use crate::identified::IdentifiedView;
use crate::ids::{ChainIdView, Height, LightClientKind, PathView, QueryHeight};
use crate::msg::{MsgConnectionOpenTryView, MsgRecvPacketView, MsgView};
use crate::reducer::{
    collected, requeued, spec_handle_msg, spec_handle_wait, spec_next_effect, ChainStatusView,
    EffectView, HandleError, ResponseView,
};
use crate::relayer_msg::{
    AggregateDataView, AggregateReceiverView, flatten, flatten_all, is_leaf, LcMsgView,
    lemma_flatten_all_concat, lemma_flatten_all_of_leaves, lemma_flatten_leaves, RelayerMsgView,
    spec_flatten_seq,
};
use crate::schema::{
    kinds_needed, lemma_pick_anywhere, lemma_pick_in_order, lemma_pick_meets,
    lemma_schema_distinct, spec_pick, spec_schema, takes_from_counterparty, AggregateError,
};
use crate::wait::WaitView;
use vstd::prelude::*;

verus! {

// ------------------------------------------------------------------ sequences

/// A flattened message flattens to what the message it came from flattens to.
pub proof fn lemma_flatten_of_flattened(msg: RelayerMsgView)
    ensures
        flatten(spec_flatten_seq(msg)) == flatten(msg),
{
    let msgs = flatten(msg);
    lemma_flatten_leaves(msg);
    if msgs.len() == 1 {
        assert(is_leaf(msgs[0]));
        assert(flatten(msgs[0]) =~= msgs);
    } else {
        lemma_flatten_all_of_leaves(msgs);
    }
}

/// Handling a sequence whose first message is itself a sequence gives what
/// handling the one long sequence gives: `[[a, b], c]` is handled as
/// `[a, b, c]` is.
///
/// The inner sequence must hold a message: an empty sequence at the head is
/// handled by being dropped, which takes a step of its own.
pub proof fn lemma_nested_sequence_is_handled_flat(
    inner: Seq<RelayerMsgView>,
    after: Seq<RelayerMsgView>,
    now: u64,
    response: ResponseView,
)
    requires
        inner.len() > 0,
    ensures
        spec_handle_msg(
            RelayerMsgView::Sequence(seq![RelayerMsgView::Sequence(inner)] + after),
            now,
            response,
        ) == spec_handle_msg(RelayerMsgView::Sequence(inner + after), now, response),
{
    let nested = seq![RelayerMsgView::Sequence(inner)] + after;
    let long = inner + after;
    assert(nested[0] == RelayerMsgView::Sequence(inner));
    assert(nested.drop_first() =~= after);
    assert(long[0] == inner[0]);
    assert(long.drop_first() =~= inner.drop_first() + after);
    match spec_handle_msg(inner[0], now, response) {
        Ok(successors) => {
            let first = successors + inner.drop_first();
            let head = spec_flatten_seq(RelayerMsgView::Sequence(first));
            assert(spec_handle_msg(RelayerMsgView::Sequence(inner), now, response) == Ok::<
                Seq<RelayerMsgView>,
                HandleError,
            >(seq![head]));
            lemma_flatten_of_flattened(RelayerMsgView::Sequence(first));
            assert((seq![head] + after).drop_first() =~= after);
            assert(flatten_all(seq![head] + after) == flatten_all(first) + flatten_all(after));
            lemma_flatten_all_concat(first, after);
            assert(successors + (inner.drop_first() + after) =~= first + after);
        },
        Err(_) => {},
    }
}

// ------------------------------------------------------------------- deferral

/// A deferral that is due is done, and asks for nothing. One that is not due
/// asks for a pause and is then its own and only successor.
pub proof fn lemma_defer_progress(timestamp: u64, now: u64, response: ResponseView)
    ensures
        now >= timestamp ==> spec_handle_msg(
            RelayerMsgView::DeferUntil { timestamp },
            now,
            response,
        ) == Ok::<Seq<RelayerMsgView>, HandleError>(Seq::empty()) && spec_next_effect(
            RelayerMsgView::DeferUntil { timestamp },
            now,
        ) == EffectView::Nothing,
        now < timestamp ==> spec_handle_msg(RelayerMsgView::DeferUntil { timestamp }, now, response)
            == Ok::<Seq<RelayerMsgView>, HandleError>(seq![RelayerMsgView::DeferUntil { timestamp }])
            && spec_next_effect(RelayerMsgView::DeferUntil { timestamp }, now) == EffectView::Sleep,
{
}

// ---------------------------------------------------------------- join points

/// The kinds of IBC message.
#[derive(Clone, Copy, Debug, PartialEq, Eq, Structural)]
pub enum MsgKind {
    ConnectionOpenInit,
    ConnectionOpenTry,
    ConnectionOpenAck,
    ConnectionOpenConfirm,
    ChannelOpenInit,
    ChannelOpenTry,
    ChannelOpenAck,
    ChannelOpenConfirm,
    RecvPacket,
    AckPacket,
    CreateClient,
    UpdateClient,
}

/// What a message is, as far as a join point decides it.
#[derive(Clone, Copy, Debug, PartialEq, Eq, Structural)]
pub enum Outbound {
    /// A transaction of the kind named.
    Submit(MsgKind),
    /// A request for chain state.
    Fetch,
    /// A wait on a chain.
    Wait,
    /// Another aggregation.
    Plan,
    /// A sequence of steps.
    Steps,
    /// Anything else.
    Other,
}

/// The kind of the IBC message `msg`.
pub open spec fn msg_kind(msg: MsgView) -> MsgKind {
    match msg {
        MsgView::ConnectionOpenInit(_) => MsgKind::ConnectionOpenInit,
        MsgView::ConnectionOpenTry(_) => MsgKind::ConnectionOpenTry,
        MsgView::ConnectionOpenAck(_) => MsgKind::ConnectionOpenAck,
        MsgView::ConnectionOpenConfirm(_) => MsgKind::ConnectionOpenConfirm,
        MsgView::ChannelOpenInit(_) => MsgKind::ChannelOpenInit,
        MsgView::ChannelOpenTry(_) => MsgKind::ChannelOpenTry,
        MsgView::ChannelOpenAck(_) => MsgKind::ChannelOpenAck,
        MsgView::ChannelOpenConfirm(_) => MsgKind::ChannelOpenConfirm,
        MsgView::RecvPacket(_) => MsgKind::RecvPacket,
        MsgView::AckPacket(_) => MsgKind::AckPacket,
        MsgView::CreateClient(_) => MsgKind::CreateClient,
        MsgView::UpdateClient(_) => MsgKind::UpdateClient,
    }
}

/// What `msg` is.
pub open spec fn outbound_of(msg: RelayerMsgView) -> Outbound {
    match msg {
        RelayerMsgView::Lc(lc) => match lc.msg {
            LcMsgView::Msg(msg) => Outbound::Submit(msg_kind(msg)),
            LcMsgView::Fetch(_) => Outbound::Fetch,
            LcMsgView::Wait(_) => Outbound::Wait,
            _ => Outbound::Other,
        },
        RelayerMsgView::Aggregate { .. } => Outbound::Plan,
        RelayerMsgView::Sequence(_) => Outbound::Steps,
        _ => Outbound::Other,
    }
}

/// What the join point `aggregate` builds.
pub open spec fn builds(aggregate: AggregateView) -> Outbound {
    match aggregate {
        AggregateView::ConnectionOpenTry(_) => Outbound::Submit(MsgKind::ConnectionOpenTry),
        AggregateView::ConnectionOpenAck(_) => Outbound::Submit(MsgKind::ConnectionOpenAck),
        AggregateView::ConnectionOpenConfirm(_) => Outbound::Submit(MsgKind::ConnectionOpenConfirm),
        AggregateView::ChannelOpenTry(_) => Outbound::Submit(MsgKind::ChannelOpenTry),
        AggregateView::ChannelOpenAck(_) => Outbound::Submit(MsgKind::ChannelOpenAck),
        AggregateView::ChannelOpenConfirm(_) => Outbound::Submit(MsgKind::ChannelOpenConfirm),
        AggregateView::RecvPacket(_) => Outbound::Submit(MsgKind::RecvPacket),
        AggregateView::AckPacket(_) => Outbound::Submit(MsgKind::AckPacket),
        AggregateView::CreateClient { .. } => Outbound::Submit(MsgKind::CreateClient),
        AggregateView::UpdateClientFromClientId { .. }
        | AggregateView::UpdateClient { .. }
        | AggregateView::AggregateMsgAfterUpdate(_)
        | AggregateView::ChannelHandshakeUpdateClient { .. }
        | AggregateView::PacketUpdateClient { .. } => Outbound::Plan,
        AggregateView::UpdateClientWithCounterpartyChainIdData { .. }
        | AggregateView::ConsensusStateProofAtLatestHeight { .. }
        | AggregateView::ConnectionFetchFromChannelEnd { .. }
        | AggregateView::FetchCounterpartyStateproof { .. } => Outbound::Fetch,
        AggregateView::WaitForTrustedHeight { .. } => Outbound::Wait,
        AggregateView::LightClientSpecific(evm) => match evm {
            EvmAggregateMsgView::CreateUpdate(_) => Outbound::Steps,
            EvmAggregateMsgView::MakeCreateUpdates(_) => Outbound::Plan,
            EvmAggregateMsgView::MakeCreateUpdatesFromLightClientUpdates(_) => Outbound::Steps,
        },
    }
}

/// Whatever a join point builds, it builds one message, and of the kind that
/// the join point is for.
pub proof fn lemma_aggregate_completeness(
    receiver: AggregateReceiverView,
    data: Seq<AggregateDataView>,
)
    ensures
        match spec_do_create(receiver, data) {
            Ok(msgs) => msgs.len() == 1 && outbound_of(msgs[0]) == builds(receiver.aggregate),
            Err(_) => true,
        },
{
}

/// A join point that takes its payloads from its own chain builds nothing if
/// one of them comes from another chain.
pub proof fn lemma_aggregate_rejects_foreign_payload(
    receiver: AggregateReceiverView,
    data: Seq<AggregateDataView>,
    i: int,
)
    requires
        !takes_from_counterparty(receiver.aggregate),
        spec_pick(data, spec_schema(receiver)) is Ok,
        0 <= i < data.len(),
        spec_pick(data, spec_schema(receiver))->Ok_0[i].chain_id != receiver.chain_id,
    ensures
        spec_do_create(receiver, data) is Err,
{
    lemma_pick_meets(data, spec_schema(receiver));
    let items = spec_pick(data, spec_schema(receiver))->Ok_0;
    assert(items.len() == kinds_needed(receiver.aggregate).len());
}

/// A join point that takes its payloads from the counterparty builds nothing
/// if they do not come from one chain: the client state of the last step of an
/// update must come from the counterparty's chain, and the two states that a
/// client is created from must come from the same chain.
pub proof fn lemma_aggregate_rejects_mixed_counterparty_payloads(
    receiver: AggregateReceiverView,
    data: Seq<AggregateDataView>,
)
    requires
        takes_from_counterparty(receiver.aggregate),
        spec_pick(data, spec_schema(receiver)) is Ok,
        match receiver.aggregate {
            AggregateView::UpdateClientWithCounterpartyChainIdData { counterparty_chain_id, .. } => {
                spec_pick(data, spec_schema(receiver))->Ok_0[0].chain_id != counterparty_chain_id
            },
            _ => spec_pick(data, spec_schema(receiver))->Ok_0[0].chain_id != spec_pick(
                data,
                spec_schema(receiver),
            )->Ok_0[1].chain_id,
        },
    ensures
        spec_do_create(receiver, data) is Err,
{
    lemma_pick_meets(data, spec_schema(receiver));
}

/// What a join point builds does not depend on the order in which its
/// payloads were collected: from two sequences that hold the same payloads it
/// builds the same message, or fails the same way.
pub proof fn lemma_aggregate_is_commutative(
    receiver: AggregateReceiverView,
    a: Seq<AggregateDataView>,
    b: Seq<AggregateDataView>,
)
    requires
        a.to_multiset() == b.to_multiset(),
    ensures
        spec_do_create(receiver, a) == spec_do_create(receiver, b),
{
    lemma_schema_distinct(receiver);
    lemma_pick_anywhere(a, b, spec_schema(receiver));
}

// -------------------------------------------------------------------- heights

/// A packet sent at height `height` is relayed only after the counterparty
/// trusts the height after it.
///
/// The plan for the packet leads, once the packet's connection and this
/// chain's client state are known, to a wait on the counterparty for the
/// height `height + 1`.
pub proof fn lemma_send_packet_waits_for_next_height(
    light_client: LightClientKind,
    chain_id: ChainIdView,
    block_hash: Seq<u8>,
    height: Height,
    packet: PacketEventDataView,
    connection: ConnectionEndView,
    state: TrustedClientStateView,
)
    requires
        height.revision_height < u64::MAX,
    ensures
        ({
            let observed = EventView::Ibc(
                ChainEventView { block_hash, height, event: IbcEventView::SendPacket(packet) },
            );
            let plan = spec_handle_event(light_client, chain_id, observed);
            let connection_found = AggregateDataView {
                light_client,
                chain_id,
                data: DataView::ConnectionEnd(connection),
            };
            let state_found = AggregateDataView {
                light_client,
                chain_id,
                data: DataView::TrustedClientState(state),
            };
            &&& plan.len() == 1
            &&& plan[0] is Sequence
            &&& plan[0]->Sequence_0.len() == 2
            &&& plan[0]->Sequence_0[0] == wait_for_next_block(light_client, chain_id, height)
            &&& plan[0]->Sequence_0[1] is Aggregate
            &&& spec_aggregate(plan[0]->Sequence_0[1]->Aggregate_receiver, seq![connection_found])
                is Ok
            &&& {
                let relay = spec_aggregate(
                    plan[0]->Sequence_0[1]->Aggregate_receiver,
                    seq![connection_found],
                )->Ok_0;
                &&& relay is Aggregate
                &&& relay->Aggregate_queue.len() == 1
                &&& relay->Aggregate_queue[0] is Aggregate
                &&& spec_aggregate(
                    relay->Aggregate_queue[0]->Aggregate_receiver,
                    seq![state_found],
                ) == Ok::<RelayerMsgView, AggregateError>(
                    RelayerMsgView::wait(
                        light_client.counterparty(),
                        state.trusted_client_state.chain_id,
                        WaitView::TrustedHeight {
                            client_id: connection.counterparty.client_id,
                            height: height.increment(),
                            counterparty_client_id: connection.client_id,
                            counterparty_chain_id: chain_id,
                        },
                    ),
                )
                &&& relay->Aggregate_receiver.aggregate == AggregateView::AggregateMsgAfterUpdate(
                    AggregateMsgAfterUpdateView::RecvPacket(
                        AggregateRecvPacketView { event_height: height, event: packet },
                    ),
                )
            }
        }),
{
}

/// The proof that a relayed packet carries is taken at a height that the
/// counterparty trusts, and that height is not below the one waited for.
///
/// A wait for the trusted height `wanted` ends only when the client trusts a
/// height `trusted` that is not below it, and is followed by reading this
/// chain's client state at `trusted`. The commitment proof is then asked for
/// at the height that state was read at. If the chain answers with a proof
/// taken at the height asked for, the message built carries that height.
pub proof fn lemma_recv_packet_proof_height(
    light_client: LightClientKind,
    chain_id: ChainIdView,
    wait: WaitView,
    now: u64,
    client: ClientStateView,
    receiver: AggregateRecvPacketView,
    state: TrustedClientStateView,
    commitment_proof: CommitmentProofView,
)
    requires
        wait is TrustedHeight,
        spec_handle_wait(
            light_client.counterparty(),
            state.trusted_client_state.chain_id,
            wait,
            now,
            ResponseView::Polled(ChainStatusView::ClientState(client)),
        ) is Ok,
        spec_handle_wait(
            light_client.counterparty(),
            state.trusted_client_state.chain_id,
            wait,
            now,
            ResponseView::Polled(ChainStatusView::ClientState(client)),
        )->Ok_0 == seq![
            RelayerMsgView::fetch(
                light_client,
                chain_id,
                FetchView::TrustedClientState {
                    at: QueryHeight::Specific(state.fetched_at),
                    client_id: wait->TrustedHeight_counterparty_client_id,
                },
            ),
        ],
        commitment_proof.proof_height == state.fetched_at,
    ensures
        state.fetched_at == client.height,
        state.fetched_at.revision_height >= wait->TrustedHeight_height.revision_height,
        spec_msg_after_update(
            light_client,
            chain_id,
            AggregateMsgAfterUpdateView::RecvPacket(receiver),
            IdentifiedView { chain_id, data: state },
        ) is Ok,
        spec_msg_after_update(
            light_client,
            chain_id,
            AggregateMsgAfterUpdateView::RecvPacket(receiver),
            IdentifiedView { chain_id, data: state },
        )->Ok_0->Aggregate_queue == seq![
            proof_fetch(
                light_client,
                chain_id,
                state.fetched_at,
                PathView::Commitment {
                    port_id: receiver.event.packet_src_port,
                    channel_id: receiver.event.packet_src_channel,
                    sequence: receiver.event.packet_sequence,
                },
            ),
        ],
        spec_recv_packet(
            light_client,
            chain_id,
            receiver,
            IdentifiedView { chain_id, data: state },
            IdentifiedView { chain_id, data: commitment_proof },
        ) == Ok::<RelayerMsgView, AggregateError>(
            RelayerMsgView::msg(
                light_client.counterparty(),
                state.trusted_client_state.chain_id,
                MsgView::RecvPacket(
                    MsgRecvPacketView {
                        packet: packet_of(receiver.event),
                        proof_commitment: commitment_proof.proof,
                        proof_height: state.fetched_at,
                    },
                ),
            ),
        ),
{
    let answer = spec_handle_wait(
        light_client.counterparty(),
        state.trusted_client_state.chain_id,
        wait,
        now,
        ResponseView::Polled(ChainStatusView::ClientState(client)),
    )->Ok_0;
    assert(answer.len() == 1);
    assert(answer[0] is Lc);
    if client.height.revision_height >= wait->TrustedHeight_height.revision_height {
        let fetch = RelayerMsgView::fetch(
            light_client.counterparty().counterparty(),
            wait->TrustedHeight_counterparty_chain_id,
            FetchView::TrustedClientState {
                at: QueryHeight::Specific(client.height),
                client_id: wait->TrustedHeight_counterparty_client_id,
            },
        );
        assert(answer[0] == fetch);
    }
}

/// A wait for a trusted height is over exactly when the client trusts the
/// height waited for, or a later one. Only then is it followed by the fetch of
/// the client state on the counterparty; before, it is followed by itself.
pub proof fn lemma_trusted_height_is_reached(
    light_client: LightClientKind,
    chain_id: ChainIdView,
    wait: WaitView,
    now: u64,
    client: ClientStateView,
)
    requires
        wait is TrustedHeight,
    ensures
        ({
            let successors = spec_handle_wait(
                light_client,
                chain_id,
                wait,
                now,
                ResponseView::Polled(ChainStatusView::ClientState(client)),
            );
            &&& successors is Ok
            &&& successors->Ok_0.len() == 1
            &&& outbound_of(successors->Ok_0[0]) == Outbound::Fetch <==> client.height.revision_height
                >= wait->TrustedHeight_height.revision_height
            &&& outbound_of(successors->Ok_0[0]) == Outbound::Steps <==> client.height.revision_height
                < wait->TrustedHeight_height.revision_height
        }),
{
}

/// Whatever a sequence is followed by holds no sequence within a sequence: a
/// handled sequence has at most one successor, and that successor is flat.
pub proof fn lemma_sequence_successor_is_flat(
    msgs: Seq<RelayerMsgView>,
    now: u64,
    response: ResponseView,
)
    ensures
        match spec_handle_msg(RelayerMsgView::Sequence(msgs), now, response) {
            Ok(successors) => successors.len() <= 1 && (successors.len() == 1 ==> (
            match successors[0] {
                RelayerMsgView::Sequence(inner) => forall|i: int|
                    0 <= i < inner.len() ==> is_leaf(#[trigger] inner[i]),
                _ => true,
            })),
            Err(_) => true,
        },
{
    if msgs.len() > 0 {
        match spec_handle_msg(msgs[0], now, response) {
            Ok(successors) => {
                crate::relayer_msg::lemma_flatten_seq_flat(
                    RelayerMsgView::Sequence(successors + msgs.drop_first()),
                );
            },
            Err(_) => {},
        }
    }
}

/// An aggregation loses none of the successors of the message it has handed
/// on: each is either collected as a payload or joins the queue.
pub proof fn lemma_aggregation_keeps_every_successor(successors: Seq<RelayerMsgView>)
    ensures
        collected(successors).len() + requeued(successors).len() == successors.len(),
    decreases successors.len(),
{
    if successors.len() > 0 {
        lemma_aggregation_keeps_every_successor(successors.drop_last());
    }
}

// ------------------------------------------------------------------ handshake

/// A connection opened on this chain is answered by exactly one message to the
/// counterparty, and that message names this chain's end.
///
/// From the event of the opening, observed at `height`, the plan leads to the
/// join point that keeps the event. Given this chain's client state, read at a
/// height not before the event, and the three proofs, taken not before the
/// event either, that join point builds one `MsgConnectionOpenTry`. The
/// message is addressed to the chain that the client state names and to the
/// light client there that tracks this chain. Its counterparty is this chain's
/// client and connection, under the prefix `ibc`, and its consensus height is
/// the height that the client state trusts.
pub proof fn lemma_connection_open_init_is_answered(
    light_client: LightClientKind,
    chain_id: ChainIdView,
    block_hash: Seq<u8>,
    height: Height,
    init: ConnectionHandshakeView,
    state: TrustedClientStateView,
    client_state_proof: ClientStateProofView,
    consensus_state_proof: ClientConsensusStateProofView,
    connection_proof: ConnectionProofView,
)
    requires
        height.revision_height < u64::MAX,
        state.fetched_at.revision_number == height.revision_number,
        state.fetched_at.revision_height >= height.revision_height,
        client_state_proof.proof_height.revision_height >= height.revision_height,
        consensus_state_proof.proof_height.revision_height >= height.revision_height,
    ensures
        ({
            let observed = EventView::Ibc(
                ChainEventView { block_hash, height, event: IbcEventView::ConnectionOpenInit(init) },
            );
            let plan = spec_handle_event(light_client, chain_id, observed);
            let item = |data: DataView| AggregateDataView { light_client, chain_id, data };
            let state_found = item(DataView::TrustedClientState(state));
            &&& plan.len() == 1
            &&& plan[0] is Sequence
            &&& plan[0]->Sequence_0.len() == 2
            &&& plan[0]->Sequence_0[0] == wait_for_next_block(light_client, chain_id, height)
            &&& plan[0]->Sequence_0[1] is Aggregate
            &&& spec_aggregate(plan[0]->Sequence_0[1]->Aggregate_receiver, seq![state_found]) is Ok
            &&& {
                let proofs = spec_aggregate(
                    plan[0]->Sequence_0[1]->Aggregate_receiver,
                    seq![state_found],
                )->Ok_0;
                &&& proofs is Aggregate
                &&& proofs->Aggregate_data == seq![state_found]
                &&& spec_do_create(
                    proofs->Aggregate_receiver,
                    seq![
                        state_found,
                        item(DataView::ClientStateProof(client_state_proof)),
                        item(DataView::ClientConsensusStateProof(consensus_state_proof)),
                        item(DataView::ConnectionProof(connection_proof)),
                    ],
                ) == Ok::<Seq<RelayerMsgView>, AggregateError>(
                    seq![
                        RelayerMsgView::msg(
                            light_client.counterparty(),
                            state.trusted_client_state.chain_id,
                            MsgView::ConnectionOpenTry(
                                MsgConnectionOpenTryView {
                                    client_id: init.counterparty_client_id,
                                    client_state: client_state_proof.state,
                                    counterparty: ConnectionCounterpartyView {
                                        client_id: init.client_id,
                                        connection_id: init.connection_id,
                                        prefix: ibc_prefix(),
                                    },
                                    delay_period: DELAY_PERIOD,
                                    counterparty_versions: connection_proof.state.versions,
                                    proof_height: connection_proof.proof_height,
                                    proof_init: connection_proof.proof,
                                    proof_client: client_state_proof.proof,
                                    proof_consensus: consensus_state_proof.proof,
                                    consensus_height: state.trusted_client_state.height,
                                },
                            ),
                        ),
                    ],
                )
            }
        }),
{
    let item = |data: DataView| AggregateDataView { light_client, chain_id, data };
    let data = seq![
        item(DataView::TrustedClientState(state)),
        item(DataView::ClientStateProof(client_state_proof)),
        item(DataView::ClientConsensusStateProof(consensus_state_proof)),
        item(DataView::ConnectionProof(connection_proof)),
    ];
    let receiver = AggregateReceiverView {
        light_client,
        chain_id,
        aggregate: AggregateView::ConnectionOpenTry(
            AggregateConnectionOpenView { event_height: height, event: init },
        ),
    };
    lemma_pick_in_order(data, spec_schema(receiver));
}

} // verus!
