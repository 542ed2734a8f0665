//! Reducing a message to its successors.
//!
//! The reducer is a function. What it needs from the outside world, the
//! clock's reading and the answer of a chain, is handed to it: [`next_effect`]
//! says what handling a message calls for, the caller does it, and
//! [`handle_msg`] turns the message and the answer into the successors.
//! Composite messages are reduced by reducing the one message in them that is
//! due, so a message calls for at most one piece of outside work at a time.

use crate::aggregation::{do_create, spec_do_create};
use crate::choreography::{event_height_in_range, handle_event, spec_handle_event};
use crate::data::{
    ClientState, ClientStateView, Data, DataView, PacketAcknowledgement, PacketAcknowledgementView,
    TrustedClientState, TrustedClientStateView,
};
use crate::event::{Event, IbcEvent};
use crate::evm::{fetch_update_headers, spec_fetch_update_headers};
use crate::fetch::{EvmFetchMsg, EvmFetchMsgView, Fetch, FetchView};
use crate::ids::{
    ChainId, ChainIdView, Height, HostChain, LightClientKind, Path, PathView, QueryHeight,
};
use crate::msg::{Msg, MsgView};
use crate::queue::{flow_view, ProcessFlow, ProcessFlowView};
use crate::relayer_msg::{
    AggregateData, AggregateDataView, AnyLcMsg, AnyLcMsgView, data_views, flatten_seq, LcMsg,
    LcMsgView, lemma_view_aggregate, lemma_view_sequence, msgs1, msgs2, no_msgs, RelayerMsg,
    RelayerMsgView, spec_flatten_seq, views,
};
use crate::schema::{kind_of, AggregateError, DataKind};
use crate::wait::{Wait, WaitView};
use vstd::prelude::*;

verus! {

/// How a chain took a transaction.
#[derive(Clone, Copy, Debug, PartialEq, Eq, Structural)]
pub enum Submission {
    /// The transaction was included, or the chain had already done what it
    /// asks for.
    Accepted,
    /// The transaction failed in a way that a later attempt may not. The
    /// message counts as handled: the event that led to it will be observed
    /// again if its work is still to be done.
    Recoverable,
    /// The transaction failed for good.
    Fatal,
}

/// What a chain reports of itself when polled.
#[derive(Debug, PartialEq, Eq)]
pub enum ChainStatus {
    /// Its latest height.
    Height(Height),
    /// The time of its latest block, in seconds since the Unix epoch.
    Timestamp(i64),
    /// The state of the client asked about, at the chain's latest height.
    ClientState(ClientState),
}

/// The value of a [`ChainStatus`] as contracts see it.
pub enum ChainStatusView {
    Height(Height),
    Timestamp(i64),
    ClientState(ClientStateView),
}

impl View for ChainStatus {
    type V = ChainStatusView;

    open spec fn view(&self) -> ChainStatusView {
        match *self {
            ChainStatus::Height(x) => ChainStatusView::Height(x),
            ChainStatus::Timestamp(x) => ChainStatusView::Timestamp(x),
            ChainStatus::ClientState(x) => ChainStatusView::ClientState(x@),
        }
    }
}

impl Clone for ChainStatus {
    fn clone(&self) -> (copy: ChainStatus)
        ensures
            copy@ == self@,
    {
        match self {
            ChainStatus::Height(x) => ChainStatus::Height(*x),
            ChainStatus::Timestamp(x) => ChainStatus::Timestamp(*x),
            ChainStatus::ClientState(x) => ChainStatus::ClientState(x.clone()),
        }
    }
}

/// What a chain answers to a fetch.
#[derive(Debug, PartialEq, Eq)]
pub enum FetchResponse {
    /// The state of the client asked about, read at `height`.
    ClientState { height: Height, client_state: ClientState },
    /// The bytes asked for: a client state or consensus state of the chain
    /// itself, or an acknowledgement.
    Encoded(Vec<u8>),
    /// The payload asked for.
    Data(Data),
    /// The messages that stand for the answer, where the chain builds its
    /// headers by a plan of its own.
    Messages(Vec<RelayerMsg>),
}

/// The value of a [`FetchResponse`] as contracts see it.
pub enum FetchResponseView {
    ClientState { height: Height, client_state: ClientStateView },
    Encoded(Seq<u8>),
    Data(DataView),
    Messages(Seq<RelayerMsgView>),
}

impl View for FetchResponse {
    type V = FetchResponseView;

    open spec fn view(&self) -> FetchResponseView {
        match *self {
            FetchResponse::ClientState { height, client_state } => FetchResponseView::ClientState {
                height,
                client_state: client_state@,
            },
            FetchResponse::Encoded(x) => FetchResponseView::Encoded(x@),
            FetchResponse::Data(x) => FetchResponseView::Data(x@),
            FetchResponse::Messages(x) => FetchResponseView::Messages(views(x@)),
        }
    }
}

impl Clone for FetchResponse {
    fn clone(&self) -> (copy: FetchResponse)
        ensures
            copy@ == self@,
    {
        match self {
            FetchResponse::ClientState { height, client_state } => FetchResponse::ClientState {
                height: *height,
                client_state: client_state.clone(),
            },
            FetchResponse::Encoded(x) => FetchResponse::Encoded(x.clone()),
            FetchResponse::Data(x) => FetchResponse::Data(x.clone()),
            FetchResponse::Messages(x) => {
                let copy = FetchResponse::Messages(x.clone());
                assert(copy@->Messages_0 =~= self@->Messages_0);
                copy
            },
        }
    }
}

/// What the outside world hands back for an [`Effect`].
#[derive(Debug, PartialEq, Eq)]
pub enum Response {
    /// Nothing was asked for, or only to let time pass.
    Nothing,
    Fetched(FetchResponse),
    Polled(ChainStatus),
    Submitted(Submission),
    /// The chain could not be asked, or did not answer.
    Failed,
}

/// The value of a [`Response`] as contracts see it.
pub enum ResponseView {
    Nothing,
    Fetched(FetchResponseView),
    Polled(ChainStatusView),
    Submitted(Submission),
    Failed,
}

impl View for Response {
    type V = ResponseView;

    open spec fn view(&self) -> ResponseView {
        match *self {
            Response::Nothing => ResponseView::Nothing,
            Response::Fetched(x) => ResponseView::Fetched(x@),
            Response::Polled(x) => ResponseView::Polled(x@),
            Response::Submitted(x) => ResponseView::Submitted(x),
            Response::Failed => ResponseView::Failed,
        }
    }
}

impl Clone for Response {
    fn clone(&self) -> (copy: Response)
        ensures
            copy@ == self@,
    {
        match self {
            Response::Nothing => Response::Nothing,
            Response::Fetched(x) => Response::Fetched(x.clone()),
            Response::Polled(x) => Response::Polled(x.clone()),
            Response::Submitted(x) => Response::Submitted(*x),
            Response::Failed => Response::Failed,
        }
    }
}

/// What handling a message calls for from the outside world.
#[derive(Clone, Copy, Debug, PartialEq, Eq)]
pub enum Effect<'a> {
    /// Nothing.
    Nothing,
    /// Let at most a second pass: the message is deferred to a later time.
    Sleep,
    /// Ask the chain for what `fetch` names.
    Fetch { light_client: LightClientKind, chain_id: &'a ChainId, fetch: &'a Fetch },
    /// Ask the chain for what `wait` depends on: its latest height, its latest
    /// time, or the state of the client waited for.
    Poll { light_client: LightClientKind, chain_id: &'a ChainId, wait: &'a Wait },
    /// Submit `msg` to the chain.
    Submit { light_client: LightClientKind, chain_id: &'a ChainId, msg: &'a Msg },
}

/// The value of an [`Effect`] as contracts see it.
pub enum EffectView {
    Nothing,
    Sleep,
    Fetch { light_client: LightClientKind, chain_id: ChainIdView, fetch: FetchView },
    Poll { light_client: LightClientKind, chain_id: ChainIdView, wait: WaitView },
    Submit { light_client: LightClientKind, chain_id: ChainIdView, msg: MsgView },
}

impl<'a> View for Effect<'a> {
    type V = EffectView;

    open spec fn view(&self) -> EffectView {
        match *self {
            Effect::Nothing => EffectView::Nothing,
            Effect::Sleep => EffectView::Sleep,
            Effect::Fetch { light_client, chain_id, fetch } => EffectView::Fetch {
                light_client,
                chain_id: chain_id@,
                fetch: fetch@,
            },
            Effect::Poll { light_client, chain_id, wait } => EffectView::Poll {
                light_client,
                chain_id: chain_id@,
                wait: wait@,
            },
            Effect::Submit { light_client, chain_id, msg } => EffectView::Submit {
                light_client,
                chain_id: chain_id@,
                msg: msg@,
            },
        }
    }
}

/// Why a message could not be reduced.
#[derive(Clone, Copy, Debug, PartialEq, Eq, Structural)]
pub enum HandleError {
    /// The message is a retry. No policy for retries is defined.
    RetryUnsupported,
    /// The message is a join point outside of an aggregation.
    AggregateUnsupported,
    /// What was handed back is no answer to what the message calls for.
    UnexpectedResponse,
    /// The chain could not be asked, or did not answer. It may answer later.
    QueryFailed,
    /// The event was observed at a height that has no successor.
    EventHeightOverflow,
    /// The chain's height is of another revision than the height waited for.
    RevisionMismatch,
    /// The chain refused the transaction for good.
    SubmitFailed,
    /// A join point could not build its message.
    Aggregate(AggregateError),
}

/// The kind of proof that is stored under `path`.
pub open spec fn proof_kind(path: PathView) -> DataKind {
    match path {
        PathView::ClientState { .. } => DataKind::ClientStateProof,
        PathView::ClientConsensusState { .. } => DataKind::ClientConsensusStateProof,
        PathView::Connection { .. } => DataKind::ConnectionProof,
        PathView::ChannelEnd { .. } => DataKind::ChannelEndProof,
        PathView::Commitment { .. } => DataKind::CommitmentProof,
        PathView::Acknowledgement { .. } => DataKind::AcknowledgementProof,
    }
}

/// The kind of payload in which the value stored under `path` is handed on,
/// for the paths whose values the engine reads.
pub open spec fn state_kind(path: PathView) -> Option<DataKind> {
    match path {
        PathView::ClientState { .. } => Some(DataKind::TrustedClientState),
        PathView::Connection { .. } => Some(DataKind::ConnectionEnd),
        PathView::ChannelEnd { .. } => Some(DataKind::ChannelEnd),
        _ => None,
    }
}

/// The kind of payload that answers `fetch`.
pub open spec fn evm_answer_kind(fetch: EvmFetchMsgView) -> Option<DataKind> {
    match fetch {
        EvmFetchMsgView::FetchFinalityUpdate => Some(DataKind::FinalityUpdate),
        EvmFetchMsgView::FetchLightClientUpdates(_) => Some(DataKind::LightClientUpdates),
        EvmFetchMsgView::FetchLightClientUpdate(_) => Some(DataKind::LightClientUpdate),
        EvmFetchMsgView::FetchBootstrap(_) => Some(DataKind::Bootstrap),
        EvmFetchMsgView::FetchAccountUpdate(_) => Some(DataKind::AccountUpdate),
        EvmFetchMsgView::FetchBeaconGenesis(_) => Some(DataKind::BeaconGenesis),
        EvmFetchMsgView::FetchGetProof(get) => Some(proof_kind(get.path)),
        EvmFetchMsgView::FetchIbcState(get) => state_kind(get.path),
    }
}

/// The kind of payload that answers `fetch` as it is, if one does.
///
/// A client state, the chain's own states and an acknowledgement are answered
/// by their parts, and the payload is built from those and from the fetch.
pub open spec fn answer_kind(light_client: LightClientKind, fetch: FetchView) -> Option<DataKind> {
    match fetch {
        FetchView::StateProof(proof) => Some(proof_kind(proof.path)),
        FetchView::ChannelEnd { .. } => Some(DataKind::ChannelEnd),
        FetchView::ConnectionEnd { .. } => Some(DataKind::ConnectionEnd),
        FetchView::LightClientSpecific(evm) => match light_client.host() {
            HostChain::Evm(_) => evm_answer_kind(evm),
            HostChain::Union => None,
        },
        _ => None,
    }
}

/// Whether `fetch` is answered by a plan that the engine makes itself: the
/// headers of a beacon chain are.
pub open spec fn answered_by_plan(light_client: LightClientKind, fetch: FetchView) -> bool {
    fetch is UpdateHeaders && light_client.host() is Evm
}

/// The successors of a fetch that the chain has answered with `response`: the
/// payload fetched, tagged with the chain it was fetched from.
///
/// A client state asked for at a specific height must have been read at that
/// height. Where the chain was asked for headers it answers with messages of
/// its own, and those are the successors. A chain that did not answer may be
/// asked again.
pub open spec fn spec_handle_fetch(
    light_client: LightClientKind,
    chain_id: ChainIdView,
    fetch: FetchView,
    response: ResponseView,
) -> Result<Seq<RelayerMsgView>, HandleError> {
    if answered_by_plan(light_client, fetch) {
        Ok(seq![spec_fetch_update_headers(light_client, chain_id, fetch->UpdateHeaders_0)])
    } else {
        match response {
            ResponseView::Fetched(answer) => match (fetch, answer) {
                (
                    FetchView::TrustedClientState { at, client_id },
                    FetchResponseView::ClientState { height, client_state },
                ) => if at is Specific && at->Specific_0 != height {
                    Err(HandleError::UnexpectedResponse)
                } else {
                    Ok(
                        seq![
                            RelayerMsgView::data(
                                light_client,
                                chain_id,
                                DataView::TrustedClientState(
                                    TrustedClientStateView {
                                        fetched_at: height,
                                        client_id,
                                        trusted_client_state: client_state,
                                    },
                                ),
                            ),
                        ],
                    )
                },
                (FetchView::SelfClientState { .. }, FetchResponseView::Encoded(state)) => Ok(
                    seq![RelayerMsgView::data(light_client, chain_id, DataView::SelfClientState(state))],
                ),
                (FetchView::SelfConsensusState { .. }, FetchResponseView::Encoded(state)) => Ok(
                    seq![
                        RelayerMsgView::data(light_client, chain_id, DataView::SelfConsensusState(state)),
                    ],
                ),
                (FetchView::PacketAcknowledgement(fetched_by), FetchResponseView::Encoded(ack)) => Ok(
                    seq![
                        RelayerMsgView::data(
                            light_client,
                            chain_id,
                            DataView::PacketAcknowledgement(
                                PacketAcknowledgementView { fetched_by, ack },
                            ),
                        ),
                    ],
                ),
                (FetchView::UpdateHeaders(_), FetchResponseView::Messages(msgs)) => Ok(msgs),
                (_, FetchResponseView::Data(data)) => if answer_kind(light_client, fetch) == Some(
                    kind_of(data),
                ) {
                    Ok(seq![RelayerMsgView::data(light_client, chain_id, data)])
                } else {
                    Err(HandleError::UnexpectedResponse)
                },
                _ => Err(HandleError::UnexpectedResponse),
            },
            ResponseView::Failed => Err(HandleError::QueryFailed),
            _ => Err(HandleError::UnexpectedResponse),
        }
    }
}

/// Look again in a second: the sequence of a deferral to the second after
/// `now` and the wait itself.
pub open spec fn wait_again(
    light_client: LightClientKind,
    chain_id: ChainIdView,
    wait: WaitView,
    now: u64,
) -> RelayerMsgView {
    RelayerMsgView::Sequence(
        seq![
            RelayerMsgView::DeferUntil { timestamp: (now + 1) as u64 },
            RelayerMsgView::wait(light_client, chain_id, wait),
        ],
    )
}

/// The successors of a wait, given what the chain reports of itself.
///
/// A wait that is over has no successors, but for the wait for a trusted
/// height: that one is followed by reading, on the counterparty, the state of
/// the counterparty's client at the height that is now trusted. A wait that
/// is not over is looked at again in a second.
pub open spec fn spec_handle_wait(
    light_client: LightClientKind,
    chain_id: ChainIdView,
    wait: WaitView,
    now: u64,
    response: ResponseView,
) -> Result<Seq<RelayerMsgView>, HandleError> {
    match response {
        ResponseView::Polled(status) => match (wait, status) {
            (WaitView::Block(height), ChainStatusView::Height(latest)) => if latest.revision_number
                != height.revision_number {
                Err(HandleError::RevisionMismatch)
            } else if latest.revision_height >= height.revision_height {
                Ok(Seq::empty())
            } else {
                Ok(seq![wait_again(light_client, chain_id, wait, now)])
            },
            (WaitView::Timestamp(timestamp), ChainStatusView::Timestamp(latest)) => if latest
                >= timestamp {
                Ok(Seq::empty())
            } else {
                Ok(seq![wait_again(light_client, chain_id, wait, now)])
            },
            (
                WaitView::TrustedHeight {
                    client_id,
                    height,
                    counterparty_client_id,
                    counterparty_chain_id,
                },
                ChainStatusView::ClientState(state),
            ) => if state.height.revision_height >= height.revision_height {
                Ok(
                    seq![
                        RelayerMsgView::fetch(
                            light_client.counterparty(),
                            counterparty_chain_id,
                            FetchView::TrustedClientState {
                                at: QueryHeight::Specific(state.height),
                                client_id: counterparty_client_id,
                            },
                        ),
                    ],
                )
            } else {
                Ok(seq![wait_again(light_client, chain_id, wait, now)])
            },
            _ => Err(HandleError::UnexpectedResponse),
        },
        ResponseView::Failed => Err(HandleError::QueryFailed),
        _ => Err(HandleError::UnexpectedResponse),
    }
}

/// The successors of a transaction that the chain took as `response` says.
pub open spec fn spec_handle_submit(response: ResponseView) -> Result<
    Seq<RelayerMsgView>,
    HandleError,
> {
    match response {
        ResponseView::Submitted(Submission::Accepted)
        | ResponseView::Submitted(Submission::Recoverable) => Ok(Seq::empty()),
        ResponseView::Submitted(Submission::Fatal) => Err(HandleError::SubmitFailed),
        _ => Err(HandleError::UnexpectedResponse),
    }
}

/// The payload that `msg` is, if it is one.
pub open spec fn as_data(msg: RelayerMsgView) -> Option<AggregateDataView> {
    match msg {
        RelayerMsgView::Lc(AnyLcMsgView { light_client, chain_id, msg: LcMsgView::Data(data) }) => {
            Some(AggregateDataView { light_client, chain_id, data })
        },
        _ => None,
    }
}

/// The payloads among `msgs`, in their order.
pub open spec fn collected(msgs: Seq<RelayerMsgView>) -> Seq<AggregateDataView>
    decreases msgs.len(),
{
    if msgs.len() == 0 {
        Seq::empty()
    } else {
        match as_data(msgs.last()) {
            Some(data) => collected(msgs.drop_last()).push(data),
            None => collected(msgs.drop_last()),
        }
    }
}

/// The messages among `msgs` that are no payloads, in their order.
pub open spec fn requeued(msgs: Seq<RelayerMsgView>) -> Seq<RelayerMsgView>
    decreases msgs.len(),
{
    if msgs.len() == 0 {
        Seq::empty()
    } else {
        match as_data(msgs.last()) {
            Some(_) => requeued(msgs.drop_last()),
            None => requeued(msgs.drop_last()).push(msgs.last()),
        }
    }
}

/// A failure of a join point, as a failure of the reducer.
pub open spec fn lift<T>(outcome: Result<T, AggregateError>) -> Result<T, HandleError> {
    match outcome {
        Ok(value) => Ok(value),
        Err(e) => Err(HandleError::Aggregate(e)),
    }
}

/// The successors of `msg`, handled at time `now` with the outside world's
/// answer `response`.
///
/// - A deferral that is due has no successors; one that is not is its own
///   successor.
/// - A message that has timed out has no successors; one that has not is
///   handled as if it stood alone.
/// - A sequence hands its first message on; the successors of that message
///   take its place, and the whole is flattened. An empty sequence has no
///   successors.
/// - An aggregation with messages in its queue hands the first one on; the
///   payloads among its successors are collected and the others join the
///   queue at its end. An aggregation with an empty queue is replaced by what
///   its join point builds.
/// - A payload outside of an aggregation is dropped.
pub open spec fn spec_handle_msg(msg: RelayerMsgView, now: u64, response: ResponseView) -> Result<
    Seq<RelayerMsgView>,
    HandleError,
>
    decreases msg,
{
    match msg {
        RelayerMsgView::Lc(lc) => match lc.msg {
            LcMsgView::Event(event) => if event_height_in_range(event) {
                Ok(spec_handle_event(lc.light_client, lc.chain_id, event))
            } else {
                Err(HandleError::EventHeightOverflow)
            },
            LcMsgView::Data(_) => Ok(Seq::empty()),
            LcMsgView::Fetch(fetch) => spec_handle_fetch(
                lc.light_client,
                lc.chain_id,
                fetch,
                response,
            ),
            LcMsgView::Msg(_) => spec_handle_submit(response),
            LcMsgView::Wait(wait) => spec_handle_wait(
                lc.light_client,
                lc.chain_id,
                wait,
                now,
                response,
            ),
            LcMsgView::Aggregate(_) => Err(HandleError::AggregateUnsupported),
        },
        RelayerMsgView::DeferUntil { timestamp } => if now < timestamp {
            Ok(seq![msg])
        } else {
            Ok(Seq::empty())
        },
        RelayerMsgView::Timeout { timeout_timestamp, msg: inner } => if now > timeout_timestamp {
            Ok(Seq::empty())
        } else {
            spec_handle_msg(*inner, now, response)
        },
        RelayerMsgView::Sequence(msgs) => if msgs.len() == 0 {
            Ok(Seq::empty())
        } else {
            match spec_handle_msg(msgs[0], now, response) {
                Ok(successors) => Ok(
                    seq![spec_flatten_seq(RelayerMsgView::Sequence(successors + msgs.drop_first()))],
                ),
                Err(e) => Err(e),
            }
        },
        RelayerMsgView::Retry(_, _) => Err(HandleError::RetryUnsupported),
        RelayerMsgView::Aggregate { queue, data, receiver } => if queue.len() == 0 {
            lift(spec_do_create(receiver, data))
        } else {
            match spec_handle_msg(queue[0], now, response) {
                Ok(successors) => Ok(
                    seq![
                        RelayerMsgView::Aggregate {
                            queue: queue.drop_first() + requeued(successors),
                            data: data + collected(successors),
                            receiver,
                        },
                    ],
                ),
                Err(e) => Err(e),
            }
        },
    }
}

/// What handling `msg` at time `now` calls for from the outside world: what
/// the one message in it that is due calls for.
pub open spec fn spec_next_effect(msg: RelayerMsgView, now: u64) -> EffectView
    decreases msg,
{
    match msg {
        RelayerMsgView::Lc(lc) => match lc.msg {
            LcMsgView::Fetch(fetch) => if answered_by_plan(lc.light_client, fetch) {
                EffectView::Nothing
            } else {
                EffectView::Fetch { light_client: lc.light_client, chain_id: lc.chain_id, fetch }
            },
            LcMsgView::Msg(msg) => EffectView::Submit {
                light_client: lc.light_client,
                chain_id: lc.chain_id,
                msg,
            },
            LcMsgView::Wait(wait) => EffectView::Poll {
                light_client: lc.light_client,
                chain_id: lc.chain_id,
                wait,
            },
            _ => EffectView::Nothing,
        },
        RelayerMsgView::DeferUntil { timestamp } => if now < timestamp {
            EffectView::Sleep
        } else {
            EffectView::Nothing
        },
        RelayerMsgView::Timeout { timeout_timestamp, msg: inner } => if now > timeout_timestamp {
            EffectView::Nothing
        } else {
            spec_next_effect(*inner, now)
        },
        RelayerMsgView::Sequence(msgs) => if msgs.len() == 0 {
            EffectView::Nothing
        } else {
            spec_next_effect(msgs[0], now)
        },
        RelayerMsgView::Retry(_, _) => EffectView::Nothing,
        RelayerMsgView::Aggregate { queue, data, receiver } => if queue.len() == 0 {
            EffectView::Nothing
        } else {
            spec_next_effect(queue[0], now)
        },
    }
}

/// Whether `outcome` holds as many messages as `wanted` does, if it holds any.
pub open spec fn as_many<E>(outcome: Result<Vec<RelayerMsg>, E>, wanted: Result<Seq<RelayerMsgView>, E>) -> bool {
    match (outcome, wanted) {
        (Ok(msgs), Ok(values)) => msgs@.len() == values.len(),
        _ => true,
    }
}

/// The value of what the reducer hands back.
pub open spec fn handled_view(outcome: Result<Vec<RelayerMsg>, HandleError>) -> Result<
    Seq<RelayerMsgView>,
    HandleError,
> {
    match outcome {
        Ok(msgs) => Ok(views(msgs@)),
        Err(e) => Err(e),
    }
}

fn proof_kind_of(path: &Path) -> (kind: DataKind)
    ensures
        kind == proof_kind(path@),
{
    match path {
        Path::ClientState { .. } => DataKind::ClientStateProof,
        Path::ClientConsensusState { .. } => DataKind::ClientConsensusStateProof,
        Path::Connection { .. } => DataKind::ConnectionProof,
        Path::ChannelEnd { .. } => DataKind::ChannelEndProof,
        Path::Commitment { .. } => DataKind::CommitmentProof,
        Path::Acknowledgement { .. } => DataKind::AcknowledgementProof,
    }
}

fn state_kind_of(path: &Path) -> (kind: Option<DataKind>)
    ensures
        kind == state_kind(path@),
{
    match path {
        Path::ClientState { .. } => Some(DataKind::TrustedClientState),
        Path::Connection { .. } => Some(DataKind::ConnectionEnd),
        Path::ChannelEnd { .. } => Some(DataKind::ChannelEnd),
        Path::ClientConsensusState { .. } => None,
        Path::Commitment { .. } => None,
        Path::Acknowledgement { .. } => None,
    }
}

fn answer_kind_of(light_client: LightClientKind, fetch: &Fetch) -> (kind: Option<DataKind>)
    ensures
        kind == answer_kind(light_client, fetch@),
{
    match fetch {
        Fetch::StateProof(proof) => Some(proof_kind_of(&proof.path)),
        Fetch::ChannelEnd { .. } => Some(DataKind::ChannelEnd),
        Fetch::ConnectionEnd { .. } => Some(DataKind::ConnectionEnd),
        Fetch::LightClientSpecific(evm) => match light_client.host() {
            HostChain::Union => None,
            HostChain::Evm(_) => match evm {
                EvmFetchMsg::FetchFinalityUpdate => Some(DataKind::FinalityUpdate),
                EvmFetchMsg::FetchLightClientUpdates(_) => Some(DataKind::LightClientUpdates),
                EvmFetchMsg::FetchLightClientUpdate(_) => Some(DataKind::LightClientUpdate),
                EvmFetchMsg::FetchBootstrap(_) => Some(DataKind::Bootstrap),
                EvmFetchMsg::FetchAccountUpdate(_) => Some(DataKind::AccountUpdate),
                EvmFetchMsg::FetchBeaconGenesis(_) => Some(DataKind::BeaconGenesis),
                EvmFetchMsg::FetchGetProof(get) => Some(proof_kind_of(&get.path)),
                EvmFetchMsg::FetchIbcState(get) => state_kind_of(&get.path),
            },
        },
        Fetch::TrustedClientState { .. } => None,
        Fetch::SelfClientState { .. } => None,
        Fetch::SelfConsensusState { .. } => None,
        Fetch::PacketAcknowledgement(_) => None,
        Fetch::UpdateHeaders(_) => None,
    }
}

fn is_answered_by_plan(light_client: LightClientKind, fetch: &Fetch) -> (by_plan: bool)
    ensures
        by_plan == answered_by_plan(light_client, fetch@),
{
    match fetch {
        Fetch::UpdateHeaders(_) => match light_client.host() {
            HostChain::Evm(_) => true,
            HostChain::Union => false,
        },
        _ => false,
    }
}

/// The successors of a fetch that the chain has answered with `response`.
pub fn handle_fetch(
    light_client: LightClientKind,
    chain_id: ChainId,
    fetch: Fetch,
    response: Response,
) -> (outcome: Result<Vec<RelayerMsg>, HandleError>)
    ensures
        handled_view(outcome) == spec_handle_fetch(light_client, chain_id@, fetch@, response@),
        as_many(outcome, spec_handle_fetch(light_client, chain_id@, fetch@, response@)),
{
    if is_answered_by_plan(light_client, &fetch) {
        return match fetch {
            Fetch::UpdateHeaders(update_info) => Ok(
                msgs1(fetch_update_headers(light_client, chain_id, update_info)),
            ),
            _ => Err(HandleError::UnexpectedResponse),
        };
    }
    let answer = match response {
        Response::Fetched(answer) => answer,
        Response::Failed => {
            return Err(HandleError::QueryFailed);
        },
        _ => {
            return Err(HandleError::UnexpectedResponse);
        },
    };
    match answer {
        FetchResponse::ClientState { height, client_state } => match fetch {
            Fetch::TrustedClientState { at, client_id } => {
                match at {
                    QueryHeight::Specific(asked) => {
                        if asked != height {
                            return Err(HandleError::UnexpectedResponse);
                        }
                    },
                    QueryHeight::Latest => {},
                }
                Ok(
                    msgs1(
                        RelayerMsg::data(
                            light_client,
                            chain_id,
                            Data::TrustedClientState(
                                TrustedClientState {
                                    fetched_at: height,
                                    client_id,
                                    trusted_client_state: client_state,
                                },
                            ),
                        ),
                    ),
                )
            },
            _ => Err(HandleError::UnexpectedResponse),
        },
        FetchResponse::Encoded(bytes) => match fetch {
            Fetch::SelfClientState { .. } => Ok(
                msgs1(RelayerMsg::data(light_client, chain_id, Data::SelfClientState(bytes))),
            ),
            Fetch::SelfConsensusState { .. } => Ok(
                msgs1(RelayerMsg::data(light_client, chain_id, Data::SelfConsensusState(bytes))),
            ),
            Fetch::PacketAcknowledgement(fetched_by) => Ok(
                msgs1(
                    RelayerMsg::data(
                        light_client,
                        chain_id,
                        Data::PacketAcknowledgement(PacketAcknowledgement { fetched_by, ack: bytes }),
                    ),
                ),
            ),
            _ => Err(HandleError::UnexpectedResponse),
        },
        FetchResponse::Messages(msgs) => match fetch {
            Fetch::UpdateHeaders(_) => Ok(msgs),
            _ => Err(HandleError::UnexpectedResponse),
        },
        FetchResponse::Data(data) => {
            let wanted = answer_kind_of(light_client, &fetch);
            let found = data.kind();
            match wanted {
                Some(kind) => {
                    if kind == found {
                        Ok(msgs1(RelayerMsg::data(light_client, chain_id, data)))
                    } else {
                        Err(HandleError::UnexpectedResponse)
                    }
                },
                None => Err(HandleError::UnexpectedResponse),
            }
        },
    }
}

fn mk_wait_again(light_client: LightClientKind, chain_id: ChainId, wait: Wait, now: u64) -> (msgs:
    Vec<RelayerMsg>)
    requires
        now < u64::MAX,
    ensures
        views(msgs@) == seq![wait_again(light_client, chain_id@, wait@, now)],
{
    let defer = RelayerMsg::DeferUntil { timestamp: now + 1 };
    let again = RelayerMsg::wait(light_client, chain_id, wait);
    msgs1(RelayerMsg::seq(msgs2(defer, again)))
}

/// The successors of a wait, given what the chain reports of itself.
pub fn handle_wait(
    light_client: LightClientKind,
    chain_id: ChainId,
    wait: Wait,
    now: u64,
    response: Response,
) -> (outcome: Result<Vec<RelayerMsg>, HandleError>)
    requires
        now < u64::MAX,
    ensures
        handled_view(outcome) == spec_handle_wait(light_client, chain_id@, wait@, now, response@),
        as_many(outcome, spec_handle_wait(light_client, chain_id@, wait@, now, response@)),
{
    let status = match response {
        Response::Polled(status) => status,
        Response::Failed => {
            return Err(HandleError::QueryFailed);
        },
        _ => {
            return Err(HandleError::UnexpectedResponse);
        },
    };
    match wait {
        Wait::Block(height) => match status {
            ChainStatus::Height(latest) => {
                if latest.revision_number != height.revision_number {
                    Err(HandleError::RevisionMismatch)
                } else if latest.revision_height >= height.revision_height {
                    Ok(no_msgs())
                } else {
                    Ok(mk_wait_again(light_client, chain_id, Wait::Block(height), now))
                }
            },
            _ => Err(HandleError::UnexpectedResponse),
        },
        Wait::Timestamp(timestamp) => match status {
            ChainStatus::Timestamp(latest) => {
                if latest >= timestamp {
                    Ok(no_msgs())
                } else {
                    Ok(mk_wait_again(light_client, chain_id, Wait::Timestamp(timestamp), now))
                }
            },
            _ => Err(HandleError::UnexpectedResponse),
        },
        Wait::TrustedHeight { client_id, height, counterparty_client_id, counterparty_chain_id } => {
            match status {
                ChainStatus::ClientState(state) => {
                    if state.height.revision_height >= height.revision_height {
                        Ok(
                            msgs1(
                                RelayerMsg::fetch(
                                    light_client.counterparty(),
                                    counterparty_chain_id,
                                    Fetch::TrustedClientState {
                                        at: QueryHeight::Specific(state.height),
                                        client_id: counterparty_client_id,
                                    },
                                ),
                            ),
                        )
                    } else {
                        Ok(
                            mk_wait_again(
                                light_client,
                                chain_id,
                                Wait::TrustedHeight {
                                    client_id,
                                    height,
                                    counterparty_client_id,
                                    counterparty_chain_id,
                                },
                                now,
                            ),
                        )
                    }
                },
                _ => Err(HandleError::UnexpectedResponse),
            }
        },
    }
}

fn in_range(event: &Event) -> (ok: bool)
    ensures
        ok == event_height_in_range(event@),
{
    match event {
        Event::Ibc(observed) => match &observed.event {
            IbcEvent::ConnectionOpenInit(_)
            | IbcEvent::ConnectionOpenTry(_)
            | IbcEvent::ConnectionOpenAck(_)
            | IbcEvent::ChannelOpenInit(_)
            | IbcEvent::ChannelOpenTry(_)
            | IbcEvent::ChannelOpenAck(_)
            | IbcEvent::SendPacket(_) => observed.height.revision_height < u64::MAX,
            _ => true,
        },
        Event::Command(_) => true,
    }
}

/// The payloads among the messages of a sequence extended by one message.
proof fn lemma_collect_step(msgs: Seq<RelayerMsgView>, next: RelayerMsgView)
    ensures
        collected(msgs.push(next)) == match as_data(next) {
            Some(data) => collected(msgs).push(data),
            None => collected(msgs),
        },
        requeued(msgs.push(next)) == match as_data(next) {
            Some(_) => requeued(msgs),
            None => requeued(msgs).push(next),
        },
{
    assert(msgs.push(next).drop_last() =~= msgs);
    assert(msgs.push(next).last() == next);
}

/// Moves the payloads among `successors` to the end of `data` and the other
/// messages to the end of `queue`.
fn sort_successors(
    successors: Vec<RelayerMsg>,
    queue: &mut Vec<RelayerMsg>,
    data: &mut Vec<AggregateData>,
)
    ensures
        views(final(queue)@) == views(old(queue)@) + requeued(views(successors@)),
        data_views(final(data)@) == data_views(old(data)@) + collected(views(successors@)),
{
    let ghost all = successors@;
    assert(views(all.take(0)) =~= Seq::<RelayerMsgView>::empty());
    assert(views(queue@) =~= views(old(queue)@) + requeued(views(all.take(0))));
    assert(data_views(data@) =~= data_views(old(data)@) + collected(views(all.take(0))));
    for msg in it: successors
        invariant
            it.seq() == all,
            views(queue@) == views(old(queue)@) + requeued(views(all.take(it.index() as int))),
            data_views(data@) == data_views(old(data)@) + collected(
                views(all.take(it.index() as int)),
            ),
    {
        let ghost seen = views(all.take(it.index() as int));
        let ghost queue_before = queue@;
        let ghost data_before = data@;
        proof {
            assert(views(all.take(it.index() + 1)) =~= seen.push(msg@));
            lemma_collect_step(seen, msg@);
        }
        match msg {
            RelayerMsg::Lc(lc) => match lc.msg {
                LcMsg::Data(payload) => {
                    let item = AggregateData {
                        light_client: lc.light_client,
                        chain_id: lc.chain_id,
                        data: payload,
                    };
                    data.push(item);
                    assert(data_views(data@) =~= data_views(data_before).push(item@));
                },
                other => {
                    let back = RelayerMsg::Lc(
                        AnyLcMsg { light_client: lc.light_client, chain_id: lc.chain_id, msg: other },
                    );
                    queue.push(back);
                    assert(views(queue@) =~= views(queue_before).push(back@));
                },
            },
            other => {
                queue.push(other);
                assert(views(queue@) =~= views(queue_before).push(other@));
            },
        }
    }
    assert(all.take(all.len() as int) =~= all);
}

/// The successors of `msg`, handled at time `now` with the outside world's
/// answer `response`.
///
/// `now` is the clock's reading in seconds since the Unix epoch, and
/// `response` what the outside world handed back for
/// [`next_effect`]`(msg, now)`. An answer that does not fit the message is an
/// error, and so is a message that the engine has no rule for.
pub fn handle_msg(msg: RelayerMsg, now: u64, response: Response) -> (outcome: Result<
    Vec<RelayerMsg>,
    HandleError,
>)
    requires
        now < u64::MAX,
    ensures
        handled_view(outcome) == spec_handle_msg(msg@, now, response@),
        as_many(outcome, spec_handle_msg(msg@, now, response@)),
    decreases msg,
{
    match msg {
        RelayerMsg::Lc(AnyLcMsg { light_client, chain_id, msg: lc_msg }) => match lc_msg {
            LcMsg::Event(event) => {
                if in_range(&event) {
                    Ok(handle_event(light_client, chain_id, event))
                } else {
                    Err(HandleError::EventHeightOverflow)
                }
            },
            LcMsg::Data(_) => Ok(no_msgs()),
            LcMsg::Fetch(fetch) => handle_fetch(light_client, chain_id, fetch, response),
            LcMsg::Msg(_) => match response {
                Response::Submitted(Submission::Accepted) => Ok(no_msgs()),
                Response::Submitted(Submission::Recoverable) => Ok(no_msgs()),
                Response::Submitted(Submission::Fatal) => Err(HandleError::SubmitFailed),
                _ => Err(HandleError::UnexpectedResponse),
            },
            LcMsg::Wait(wait) => handle_wait(light_client, chain_id, wait, now, response),
            LcMsg::Aggregate(_) => Err(HandleError::AggregateUnsupported),
        },
        RelayerMsg::DeferUntil { timestamp } => {
            if now < timestamp {
                Ok(msgs1(RelayerMsg::DeferUntil { timestamp }))
            } else {
                Ok(no_msgs())
            }
        },
        RelayerMsg::Timeout { timeout_timestamp, msg: inner } => {
            if now > timeout_timestamp {
                Ok(no_msgs())
            } else {
                handle_msg(*inner, now, response)
            }
        },
        RelayerMsg::Sequence(msgs) => {
            proof {
                lemma_view_sequence(msgs);
            }
            let mut rest = msgs;
            if rest.len() == 0 {
                return Ok(no_msgs());
            }
            let first = rest.remove(0);
            assert(views(rest@) =~= views(msgs@).drop_first());
            match handle_msg(first, now, response) {
                Ok(successors) => {
                    let mut all = successors;
                    all.append(&mut rest);
                    assert(views(all@) =~= views(successors@) + views(msgs@).drop_first());
                    Ok(msgs1(flatten_seq(RelayerMsg::seq(all))))
                },
                Err(e) => Err(e),
            }
        },
        RelayerMsg::Retry(_, _) => Err(HandleError::RetryUnsupported),
        RelayerMsg::Aggregate { queue, data, receiver } => {
            proof {
                lemma_view_aggregate(queue, data, receiver);
            }
            let mut queue = queue;
            let mut data = data;
            if queue.len() == 0 {
                return match do_create(receiver, data) {
                    Ok(msgs) => Ok(msgs),
                    Err(e) => Err(HandleError::Aggregate(e)),
                };
            }
            let ghost queue_before = queue@;
            let first = queue.remove(0);
            assert(views(queue@) =~= views(queue_before).drop_first());
            match handle_msg(first, now, response) {
                Ok(successors) => {
                    sort_successors(successors, &mut queue, &mut data);
                    Ok(msgs1(RelayerMsg::aggregate_with(queue, data, receiver)))
                },
                Err(e) => Err(e),
            }
        },
    }
}

/// What handling `msg` at time `now` calls for from the outside world.
pub fn next_effect<'a>(msg: &'a RelayerMsg, now: u64) -> (effect: Effect<'a>)
    ensures
        effect@ == spec_next_effect(msg@, now),
    decreases msg,
{
    match msg {
        RelayerMsg::Lc(lc) => match &lc.msg {
            LcMsg::Fetch(fetch) => {
                if is_answered_by_plan(lc.light_client, fetch) {
                    Effect::Nothing
                } else {
                    Effect::Fetch { light_client: lc.light_client, chain_id: &lc.chain_id, fetch }
                }
            },
            LcMsg::Msg(msg) => Effect::Submit {
                light_client: lc.light_client,
                chain_id: &lc.chain_id,
                msg,
            },
            LcMsg::Wait(wait) => Effect::Poll {
                light_client: lc.light_client,
                chain_id: &lc.chain_id,
                wait,
            },
            LcMsg::Event(_) => Effect::Nothing,
            LcMsg::Data(_) => Effect::Nothing,
            LcMsg::Aggregate(_) => Effect::Nothing,
        },
        RelayerMsg::DeferUntil { timestamp } => {
            if now < *timestamp {
                Effect::Sleep
            } else {
                Effect::Nothing
            }
        },
        RelayerMsg::Timeout { timeout_timestamp, msg: inner } => {
            if now > *timeout_timestamp {
                Effect::Nothing
            } else {
                next_effect(&**inner, now)
            }
        },
        RelayerMsg::Sequence(msgs) => {
            proof {
                lemma_view_sequence(*msgs);
            }
            if msgs.len() == 0 {
                Effect::Nothing
            } else {
                assert(views(msgs@)[0] == msgs@[0]@);
                next_effect(&msgs[0], now)
            }
        },
        RelayerMsg::Retry(_, _) => Effect::Nothing,
        RelayerMsg::Aggregate { queue, data, receiver } => {
            proof {
                lemma_view_aggregate(*queue, *data, *receiver);
            }
            if queue.len() == 0 {
                Effect::Nothing
            } else {
                assert(views(queue@)[0] == queue@[0]@);
                next_effect(&queue[0], now)
            }
        },
    }
}

impl HandleError {
    /// The error, in words.
    pub open spec fn spec_reason(self) -> Seq<char> {
        match self {
            HandleError::RetryUnsupported => "retries are not supported"@,
            HandleError::AggregateUnsupported => "a join point outside of an aggregation"@,
            HandleError::UnexpectedResponse => "the answer does not fit the message"@,
            HandleError::QueryFailed => "the chain did not answer"@,
            HandleError::EventHeightOverflow => "the event's height has no successor"@,
            HandleError::RevisionMismatch => "the chain is at another revision"@,
            HandleError::SubmitFailed => "the chain refused the transaction"@,
            HandleError::Aggregate(e) => e.spec_reason(),
        }
    }

    /// The error, in words.
    pub fn reason(self) -> (text: &'static str)
        ensures
            text@ == self.spec_reason(),
    {
        match self {
            HandleError::RetryUnsupported => "retries are not supported",
            HandleError::AggregateUnsupported => "a join point outside of an aggregation",
            HandleError::UnexpectedResponse => "the answer does not fit the message",
            HandleError::QueryFailed => "the chain did not answer",
            HandleError::EventHeightOverflow => "the event's height has no successor",
            HandleError::RevisionMismatch => "the chain is at another revision",
            HandleError::SubmitFailed => "the chain refused the transaction",
            HandleError::Aggregate(e) => e.reason(),
        }
    }
}

/// What the queue is told of a message that was reduced with `outcome`: its
/// successors if there are any to tell; to hand the message out again if the
/// chain did not answer; and the reason if the message cannot be reduced.
pub open spec fn spec_flow_of(outcome: Result<Seq<RelayerMsgView>, HandleError>) -> ProcessFlowView {
    match outcome {
        Ok(successors) => ProcessFlowView::Success(successors),
        Err(HandleError::QueryFailed) => ProcessFlowView::Requeue,
        Err(e) => ProcessFlowView::Fail(e.spec_reason()),
    }
}

/// What the queue is told of a message that was reduced with `outcome`.
pub fn flow_of(outcome: Result<Vec<RelayerMsg>, HandleError>) -> (flow: ProcessFlow<RelayerMsg>)
    ensures
        flow_view(flow) == spec_flow_of(handled_view(outcome)),
{
    match outcome {
        Ok(successors) => ProcessFlow::Success(successors),
        Err(HandleError::QueryFailed) => ProcessFlow::Requeue,
        Err(e) => ProcessFlow::Fail(String::from_str(e.reason())),
    }
}

} // verus!
