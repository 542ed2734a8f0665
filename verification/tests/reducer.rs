use voyager::aggregate::Aggregate;
use voyager::data::{
    Channel, ChannelCounterparty, ClientState, ClientStateProof, CommitmentProof, Data,
    FinalityUpdate, BeaconFinalityUpdate, PacketAcknowledgement, TrustedClientState,
};
use voyager::evm::fetch_update_headers;
use voyager::fetch::{
    EvmFetchMsg, Fetch, FetchIbcState, FetchPacketAcknowledgement, FetchStateProof,
    FetchUpdateHeaders, GetProof,
};
use voyager::ids::{ChainId, ChannelState, Height, LightClientKind, Order, Path, QueryHeight};
use voyager::msg::{Msg, MsgConnectionOpenConfirm};
use voyager::queue::ProcessFlow;
use voyager::reducer::{
    flow_of, handle_fetch, handle_msg, handle_wait, next_effect, ChainStatus, Effect,
    FetchResponse, HandleError, Response, Submission,
};
use voyager::relayer_msg::{flatten_seq, AggregateData, AggregateReceiver, AnyLcMsg, LcMsg, RelayerMsg};
use voyager::schema::AggregateError;
use voyager::wait::Wait;

const A: LightClientKind = LightClientKind::EthereumMinimal;
const B: LightClientKind = LightClientKind::CometblsMinimal;

fn chain_a() -> ChainId {
    ChainId::Cosmos("union-devnet-1".to_string())
}

fn chain_b() -> ChainId {
    ChainId::Evm(32382)
}

fn h(revision_height: u64) -> Height {
    Height { revision_number: 0, revision_height }
}

fn defer(timestamp: u64) -> RelayerMsg {
    RelayerMsg::DeferUntil { timestamp }
}

fn confirm() -> Msg {
    Msg::ConnectionOpenConfirm(MsgConnectionOpenConfirm {
        connection_id: "connection-0".to_string(),
        proof_ack: vec![1],
        proof_height: h(5),
    })
}

fn client_state(trusted: u64) -> ClientState {
    ClientState { chain_id: chain_b(), height: h(trusted), encoded: vec![0xa] }
}

fn payload(n: u8) -> RelayerMsg {
    RelayerMsg::data(A, chain_a(), Data::SelfClientState(vec![n]))
}

fn collected(n: u8) -> AggregateData {
    AggregateData { light_client: A, chain_id: chain_a(), data: Data::SelfClientState(vec![n]) }
}

#[test]
fn a_deferral_that_is_due_is_done() {
    assert_eq!(handle_msg(defer(10), 10, Response::Nothing), Ok(vec![]));
    assert_eq!(handle_msg(defer(10), 11, Response::Nothing), Ok(vec![]));
    assert_eq!(next_effect(&defer(10), 10), Effect::Nothing);
    assert_eq!(handle_msg(defer(0), 0, Response::Nothing), Ok(vec![]));
}

#[test]
fn a_deferral_that_is_not_due_is_its_own_successor() {
    assert_eq!(next_effect(&defer(10), 9), Effect::Sleep);
    assert_eq!(handle_msg(defer(10), 9, Response::Nothing), Ok(vec![defer(10)]));
    assert_eq!(handle_msg(defer(u64::MAX), 0, Response::Nothing), Ok(vec![defer(u64::MAX)]));
}

#[test]
fn a_timed_out_message_is_dropped() {
    let inner = RelayerMsg::msg(B, chain_b(), confirm());
    let msg = |at| RelayerMsg::Timeout { timeout_timestamp: at, msg: Box::new(inner.clone()) };
    assert_eq!(next_effect(&msg(99), 100), Effect::Nothing);
    assert_eq!(handle_msg(msg(99), 100, Response::Nothing), Ok(vec![]));
    assert_eq!(
        next_effect(&msg(100), 100),
        Effect::Submit { light_client: B, chain_id: &chain_b(), msg: &confirm() }
    );
    assert_eq!(handle_msg(msg(100), 100, Response::Submitted(Submission::Accepted)), Ok(vec![]));
}

#[test]
fn a_sequence_hands_on_its_first_message() {
    let seq = RelayerMsg::Sequence(vec![defer(5), defer(6), defer(7)]);
    assert_eq!(next_effect(&seq, 4), Effect::Sleep);
    assert_eq!(
        handle_msg(seq.clone(), 4, Response::Nothing),
        Ok(vec![RelayerMsg::Sequence(vec![defer(5), defer(6), defer(7)])])
    );
    assert_eq!(
        handle_msg(seq.clone(), 5, Response::Nothing),
        Ok(vec![RelayerMsg::Sequence(vec![defer(6), defer(7)])])
    );
    assert_eq!(
        handle_msg(RelayerMsg::Sequence(vec![defer(6), defer(7)]), 6, Response::Nothing),
        Ok(vec![defer(7)])
    );
    assert_eq!(handle_msg(RelayerMsg::Sequence(vec![]), 6, Response::Nothing), Ok(vec![]));
    assert_eq!(next_effect(&RelayerMsg::Sequence(vec![]), 6), Effect::Nothing);
    assert_eq!(
        handle_msg(RelayerMsg::Sequence(vec![defer(1)]), 6, Response::Nothing),
        Ok(vec![RelayerMsg::Sequence(vec![])])
    );
}

#[test]
fn a_nested_sequence_is_handled_as_the_flat_one_is() {
    let a = || defer(20);
    let b = || RelayerMsg::wait(A, chain_a(), Wait::Block(h(3)));
    let c = || RelayerMsg::msg(B, chain_b(), confirm());
    for now in [19, 20, 21] {
        let nested = RelayerMsg::Sequence(vec![RelayerMsg::Sequence(vec![a(), b()]), c()]);
        let flat = RelayerMsg::Sequence(vec![a(), b(), c()]);
        assert_eq!(next_effect(&nested, now), next_effect(&flat, now));
        assert_eq!(
            handle_msg(nested, now, Response::Nothing),
            handle_msg(flat, now, Response::Nothing)
        );
    }
    let deep = RelayerMsg::Sequence(vec![
        RelayerMsg::Sequence(vec![RelayerMsg::Sequence(vec![a()]), b()]),
        RelayerMsg::Sequence(vec![]),
        c(),
    ]);
    assert_eq!(flatten_seq(deep), RelayerMsg::Sequence(vec![a(), b(), c()]));
    assert_eq!(flatten_seq(RelayerMsg::Sequence(vec![RelayerMsg::Sequence(vec![c()])])), c());
    assert_eq!(flatten_seq(c()), c());
    assert_eq!(flatten_seq(RelayerMsg::Sequence(vec![])), RelayerMsg::Sequence(vec![]));
}

#[test]
fn an_aggregation_collects_payloads_and_requeues_the_rest() {
    let receiver = AggregateReceiver {
        light_client: A,
        chain_id: chain_a(),
        aggregate: Aggregate::ConnectionFetchFromChannelEnd { at: h(1) },
    };
    let head = RelayerMsg::fetch(
        A,
        chain_a(),
        Fetch::UpdateHeaders(FetchUpdateHeaders {
            client_id: "cA".to_string(),
            counterparty_client_id: "cB".to_string(),
            counterparty_chain_id: chain_b(),
            update_from: h(1),
            update_to: h(2),
        }),
    );
    let msg = RelayerMsg::Aggregate {
        queue: vec![head, defer(1)],
        data: vec![collected(0)],
        receiver: receiver.clone(),
    };
    let answer = Response::Fetched(FetchResponse::Messages(vec![
        payload(1),
        defer(2),
        payload(2),
        RelayerMsg::Sequence(vec![payload(3)]),
    ]));
    assert_eq!(
        handle_msg(msg, 0, answer),
        Ok(vec![RelayerMsg::Aggregate {
            queue: vec![defer(1), defer(2), RelayerMsg::Sequence(vec![payload(3)])],
            data: vec![collected(0), collected(1), collected(2)],
            receiver,
        }])
    );
}

#[test]
fn an_aggregation_with_an_empty_queue_builds() {
    let channel = Channel {
        state: ChannelState::Open,
        ordering: Order::Ordered,
        counterparty: ChannelCounterparty { port_id: "p".to_string(), channel_id: "c".to_string() },
        connection_hops: vec!["connection-3".to_string()],
        version: "v".to_string(),
    };
    let msg = |data| RelayerMsg::Aggregate {
        queue: vec![],
        data,
        receiver: AggregateReceiver {
            light_client: A,
            chain_id: chain_a(),
            aggregate: Aggregate::ConnectionFetchFromChannelEnd { at: h(9) },
        },
    };
    let found = AggregateData { light_client: A, chain_id: chain_a(), data: Data::ChannelEnd(channel) };
    assert_eq!(next_effect(&msg(vec![found.clone()]), 0), Effect::Nothing);
    assert_eq!(
        handle_msg(msg(vec![found]), 0, Response::Nothing),
        Ok(vec![RelayerMsg::fetch(
            A,
            chain_a(),
            Fetch::ConnectionEnd { at: h(9), connection_id: "connection-3".to_string() }
        )])
    );
    assert_eq!(
        handle_msg(msg(vec![]), 0, Response::Nothing),
        Err(HandleError::Aggregate(AggregateError::MissingData))
    );
}

#[test]
fn a_payload_outside_of_an_aggregation_is_dropped() {
    assert_eq!(next_effect(&payload(1), 0), Effect::Nothing);
    assert_eq!(handle_msg(payload(1), 0, Response::Nothing), Ok(vec![]));
}

#[test]
fn what_the_engine_has_no_rule_for_is_refused() {
    assert_eq!(
        handle_msg(RelayerMsg::Retry(3, Box::new(defer(1))), 5, Response::Nothing),
        Err(HandleError::RetryUnsupported)
    );
    let join = RelayerMsg::Lc(AnyLcMsg {
        light_client: A,
        chain_id: chain_a(),
        msg: LcMsg::Aggregate(Aggregate::ConnectionFetchFromChannelEnd { at: h(1) }),
    });
    assert_eq!(handle_msg(join, 5, Response::Nothing), Err(HandleError::AggregateUnsupported));
}

#[test]
fn a_transaction_has_no_successors() {
    let msg = || RelayerMsg::msg(B, chain_b(), confirm());
    assert_eq!(handle_msg(msg(), 0, Response::Submitted(Submission::Accepted)), Ok(vec![]));
    assert_eq!(handle_msg(msg(), 0, Response::Submitted(Submission::Recoverable)), Ok(vec![]));
    assert_eq!(
        handle_msg(msg(), 0, Response::Submitted(Submission::Fatal)),
        Err(HandleError::SubmitFailed)
    );
    assert_eq!(handle_msg(msg(), 0, Response::Nothing), Err(HandleError::UnexpectedResponse));
}

#[test]
fn waiting_for_a_block() {
    let wait = || Wait::Block(h(101));
    let at = |height| Response::Polled(ChainStatus::Height(h(height)));
    assert_eq!(handle_wait(A, chain_a(), wait(), 50, at(101)), Ok(vec![]));
    assert_eq!(handle_wait(A, chain_a(), wait(), 50, at(200)), Ok(vec![]));
    assert_eq!(
        handle_wait(A, chain_a(), wait(), 50, at(100)),
        Ok(vec![RelayerMsg::Sequence(vec![defer(51), RelayerMsg::wait(A, chain_a(), wait())])])
    );
    let other_revision =
        Response::Polled(ChainStatus::Height(Height { revision_number: 1, revision_height: 500 }));
    assert_eq!(
        handle_wait(A, chain_a(), wait(), 50, other_revision),
        Err(HandleError::RevisionMismatch)
    );
    assert_eq!(
        handle_wait(A, chain_a(), wait(), 50, Response::Polled(ChainStatus::Timestamp(1))),
        Err(HandleError::UnexpectedResponse)
    );
    assert_eq!(
        handle_wait(A, chain_a(), wait(), 50, Response::Nothing),
        Err(HandleError::UnexpectedResponse)
    );
}

#[test]
fn waiting_for_a_time() {
    let wait = || Wait::Timestamp(1_700_000_000);
    let at = |time| Response::Polled(ChainStatus::Timestamp(time));
    assert_eq!(handle_wait(B, chain_b(), wait(), 7, at(1_700_000_000)), Ok(vec![]));
    assert_eq!(
        handle_wait(B, chain_b(), wait(), 7, at(1_699_999_999)),
        Ok(vec![RelayerMsg::Sequence(vec![defer(8), RelayerMsg::wait(B, chain_b(), wait())])])
    );
    assert_eq!(handle_wait(B, chain_b(), Wait::Timestamp(-5), 7, at(-5)), Ok(vec![]));
}

#[test]
fn waiting_for_a_trusted_height() {
    let wait = || Wait::TrustedHeight {
        client_id: "cB".to_string(),
        height: h(101),
        counterparty_client_id: "cA".to_string(),
        counterparty_chain_id: chain_a(),
    };
    let trusts = |height| {
        Response::Polled(ChainStatus::ClientState(ClientState {
            chain_id: chain_a(),
            height: h(height),
            encoded: vec![],
        }))
    };
    assert_eq!(
        handle_wait(B, chain_b(), wait(), 7, trusts(103)),
        Ok(vec![RelayerMsg::fetch(
            A,
            chain_a(),
            Fetch::TrustedClientState {
                at: QueryHeight::Specific(h(103)),
                client_id: "cA".to_string()
            }
        )])
    );
    assert_eq!(
        handle_wait(B, chain_b(), wait(), 7, trusts(100)),
        Ok(vec![RelayerMsg::Sequence(vec![defer(8), RelayerMsg::wait(B, chain_b(), wait())])])
    );
    let msg = RelayerMsg::wait(B, chain_b(), wait());
    assert_eq!(
        next_effect(&msg, 7),
        Effect::Poll { light_client: B, chain_id: &chain_b(), wait: &wait() }
    );
}

#[test]
fn a_deferred_wait_comes_to_an_end() {
    // A sequence of a deferral by two seconds and a wait for the next block.
    let mut now = 1_000;
    let mut height = 10;
    let mut slept = 0;
    let mut polled = 0;
    let mut queue = vec![RelayerMsg::Sequence(vec![
        defer(now + 2),
        RelayerMsg::wait(A, chain_a(), Wait::Block(h(11))),
    ])];
    let mut steps = 0;
    while let Some(msg) = queue.pop() {
        let response = match next_effect(&msg, now) {
            Effect::Sleep => {
                slept += 1;
                Response::Nothing
            }
            Effect::Poll { .. } => {
                polled += 1;
                if polled == 3 {
                    height = 11;
                }
                Response::Polled(ChainStatus::Height(h(height)))
            }
            Effect::Nothing => Response::Nothing,
            other => panic!("{other:?}"),
        };
        queue.extend(handle_msg(msg, now, response).unwrap());
        now += 1;
        steps += 1;
        assert!(steps < 100);
    }
    assert!(slept >= 2);
    assert_eq!(polled, 3);
    assert!(now >= 1_002);
    assert!(queue.is_empty());
}

#[test]
fn a_client_state_is_tagged_with_where_it_was_read() {
    let fetch = |at| Fetch::TrustedClientState { at, client_id: "cA".to_string() };
    let answer = |height| {
        Response::Fetched(FetchResponse::ClientState { height: h(height), client_state: client_state(60) })
    };
    let expected = |height| {
        Ok(vec![RelayerMsg::data(
            A,
            chain_a(),
            Data::TrustedClientState(TrustedClientState {
                fetched_at: h(height),
                client_id: "cA".to_string(),
                trusted_client_state: client_state(60),
            }),
        )])
    };
    assert_eq!(handle_fetch(A, chain_a(), fetch(QueryHeight::Latest), answer(120)), expected(120));
    assert_eq!(
        handle_fetch(A, chain_a(), fetch(QueryHeight::Specific(h(101))), answer(101)),
        expected(101)
    );
    assert_eq!(
        handle_fetch(A, chain_a(), fetch(QueryHeight::Specific(h(101))), answer(102)),
        Err(HandleError::UnexpectedResponse)
    );
    assert_eq!(
        handle_fetch(A, chain_a(), fetch(QueryHeight::Latest), Response::Nothing),
        Err(HandleError::UnexpectedResponse)
    );
}

#[test]
fn a_proof_must_be_of_the_kind_its_path_names() {
    let fetch = || {
        Fetch::StateProof(FetchStateProof {
            at: h(101),
            path: Path::ClientState { client_id: "cA".to_string() },
        })
    };
    let right =
        Data::ClientStateProof(ClientStateProof { state: vec![1], proof: vec![2], proof_height: h(101) });
    let wrong =
        Data::CommitmentProof(CommitmentProof { state: vec![1], proof: vec![2], proof_height: h(101) });
    assert_eq!(
        handle_fetch(A, chain_a(), fetch(), Response::Fetched(FetchResponse::Data(right.clone()))),
        Ok(vec![RelayerMsg::data(A, chain_a(), right)])
    );
    assert_eq!(
        handle_fetch(A, chain_a(), fetch(), Response::Fetched(FetchResponse::Data(wrong))),
        Err(HandleError::UnexpectedResponse)
    );
    assert_eq!(
        handle_fetch(A, chain_a(), fetch(), Response::Fetched(FetchResponse::Encoded(vec![]))),
        Err(HandleError::UnexpectedResponse)
    );
}

#[test]
fn bytes_answer_for_own_states_and_acknowledgements() {
    let bytes = || Response::Fetched(FetchResponse::Encoded(vec![4, 5]));
    assert_eq!(
        handle_fetch(A, chain_a(), Fetch::SelfClientState { at: QueryHeight::Latest }, bytes()),
        Ok(vec![RelayerMsg::data(A, chain_a(), Data::SelfClientState(vec![4, 5]))])
    );
    assert_eq!(
        handle_fetch(A, chain_a(), Fetch::SelfConsensusState { at: QueryHeight::Latest }, bytes()),
        Ok(vec![RelayerMsg::data(A, chain_a(), Data::SelfConsensusState(vec![4, 5]))])
    );
    let fetched_by = FetchPacketAcknowledgement {
        block_hash: [1; 32],
        destination_port_id: "p".to_string(),
        destination_channel_id: "c".to_string(),
        sequence: 3,
    };
    assert_eq!(
        handle_fetch(A, chain_a(), Fetch::PacketAcknowledgement(fetched_by.clone()), bytes()),
        Ok(vec![RelayerMsg::data(
            A,
            chain_a(),
            Data::PacketAcknowledgement(PacketAcknowledgement { fetched_by, ack: vec![4, 5] })
        )])
    );
}

#[test]
fn headers_of_a_beacon_chain_are_planned_by_the_engine() {
    let update = || FetchUpdateHeaders {
        client_id: "cB".to_string(),
        counterparty_client_id: "cA".to_string(),
        counterparty_chain_id: chain_a(),
        update_from: h(1),
        update_to: h(2),
    };
    let on_evm = RelayerMsg::fetch(B, chain_b(), Fetch::UpdateHeaders(update()));
    assert_eq!(next_effect(&on_evm, 0), Effect::Nothing);
    assert_eq!(
        handle_msg(on_evm, 0, Response::Nothing),
        Ok(vec![fetch_update_headers(B, chain_b(), update())])
    );
    let on_union = RelayerMsg::fetch(A, chain_a(), Fetch::UpdateHeaders(update()));
    assert_eq!(
        next_effect(&on_union, 0),
        Effect::Fetch { light_client: A, chain_id: &chain_a(), fetch: &Fetch::UpdateHeaders(update()) }
    );
    assert_eq!(
        handle_msg(on_union.clone(), 0, Response::Fetched(FetchResponse::Messages(vec![defer(1)]))),
        Ok(vec![defer(1)])
    );
    assert_eq!(handle_msg(on_union, 0, Response::Nothing), Err(HandleError::UnexpectedResponse));
}

#[test]
fn beacon_fetches_are_answered_on_beacon_chains_only() {
    let finality = || {
        Data::LightClientSpecific(voyager::data::EvmDataMsg::FinalityUpdate(FinalityUpdate {
            finality_update: BeaconFinalityUpdate {
                attested_slot: 1,
                attested_header: vec![],
                finalized_header: vec![],
                finality_branch: vec![],
                sync_aggregate: vec![],
                signature_slot: 2,
            },
        }))
    };
    let fetch = || Fetch::LightClientSpecific(EvmFetchMsg::FetchFinalityUpdate);
    let answer = || Response::Fetched(FetchResponse::Data(finality()));
    assert_eq!(
        handle_fetch(B, chain_b(), fetch(), answer()),
        Ok(vec![RelayerMsg::data(B, chain_b(), finality())])
    );
    assert_eq!(handle_fetch(A, chain_a(), fetch(), answer()), Err(HandleError::UnexpectedResponse));
    let get = |path: Path| GetProof { path, height: h(5) };
    let commitment = Path::Commitment { port_id: "p".to_string(), channel_id: "c".to_string(), sequence: 1 };
    let proof =
        Data::CommitmentProof(CommitmentProof { state: vec![], proof: vec![7], proof_height: h(5) });
    assert_eq!(
        handle_fetch(
            B,
            chain_b(),
            Fetch::LightClientSpecific(EvmFetchMsg::FetchGetProof(get(commitment.clone()))),
            Response::Fetched(FetchResponse::Data(proof.clone()))
        ),
        Ok(vec![RelayerMsg::data(B, chain_b(), proof.clone())])
    );
    assert_eq!(
        handle_fetch(
            B,
            chain_b(),
            Fetch::LightClientSpecific(EvmFetchMsg::FetchIbcState(FetchIbcState {
                path: commitment,
                height: h(5)
            })),
            Response::Fetched(FetchResponse::Data(proof))
        ),
        Err(HandleError::UnexpectedResponse)
    );
}

#[test]
fn a_chain_that_does_not_answer_is_asked_again() {
    let fetch = RelayerMsg::fetch(A, chain_a(), Fetch::SelfClientState { at: QueryHeight::Latest });
    let wait = RelayerMsg::wait(A, chain_a(), Wait::Block(h(3)));
    for msg in [fetch, wait] {
        let nested = RelayerMsg::Sequence(vec![msg.clone(), defer(1)]);
        assert_eq!(handle_msg(msg, 0, Response::Failed), Err(HandleError::QueryFailed));
        let outcome = handle_msg(nested, 0, Response::Failed);
        assert_eq!(outcome, Err(HandleError::QueryFailed));
        assert_eq!(flow_of(outcome), ProcessFlow::Requeue);
    }
    assert_eq!(
        handle_msg(RelayerMsg::msg(B, chain_b(), confirm()), 0, Response::Failed),
        Err(HandleError::UnexpectedResponse)
    );
    assert_eq!(handle_msg(defer(5), 0, Response::Failed), Ok(vec![defer(5)]));
}

#[test]
fn what_the_queue_is_told() {
    assert_eq!(flow_of(Ok(vec![defer(1)])), ProcessFlow::Success(vec![defer(1)]));
    assert_eq!(flow_of(Ok(vec![])), ProcessFlow::Success(vec![]));
    assert_eq!(flow_of(Err(HandleError::QueryFailed)), ProcessFlow::Requeue);
    assert_eq!(
        flow_of(Err(HandleError::RetryUnsupported)),
        ProcessFlow::Fail("retries are not supported".to_string())
    );
    assert_eq!(
        flow_of(Err(HandleError::Aggregate(AggregateError::ChainIdMismatch))),
        ProcessFlow::Fail("a payload comes from another chain".to_string())
    );
    for error in [
        HandleError::AggregateUnsupported,
        HandleError::UnexpectedResponse,
        HandleError::EventHeightOverflow,
        HandleError::RevisionMismatch,
        HandleError::SubmitFailed,
        HandleError::Aggregate(AggregateError::MissingData),
    ] {
        assert_eq!(flow_of(Err(error)), ProcessFlow::Fail(error.reason().to_string()));
        assert!(!error.reason().is_empty());
    }
}
