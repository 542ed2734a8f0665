use voyager::aggregate::{Aggregate, AggregateConnectionOpen, AggregateMsgAfterUpdate};
use voyager::choreography::{handle_event, mk_aggregate_update};
use voyager::data::{
    ClientConsensusStateProof, ClientState, ClientStateProof, ConnectionCounterparty,
    ConnectionEnd, ConnectionProof, Data, Version,
};
use voyager::event::{ChainEvent, ConnectionHandshake, Event, IbcEvent};
use voyager::fetch::{Fetch, FetchStateProof};
use voyager::ids::{ChainId, ConnectionState, Height, LightClientKind, Path, QueryHeight};
use voyager::msg::{ClientMessage, Msg, MsgUpdateClient};
use voyager::queue::{InMemoryQueue, ProcessFlow};
use voyager::reducer::{
    handle_msg, next_effect, ChainStatus, Effect, FetchResponse, Response, Submission,
};
use voyager::relayer_msg::{AggregateReceiver, AnyLcMsg, LcMsg, RelayerMsg};
use voyager::wait::Wait;

const A: LightClientKind = LightClientKind::EthereumMinimal;
const B: LightClientKind = LightClientKind::CometblsMinimal;

fn chain_a() -> ChainId {
    ChainId::Cosmos("union-devnet-1".to_string())
}

fn chain_b() -> ChainId {
    ChainId::Evm(32382)
}

fn h(revision_height: u64) -> Height {
    Height { revision_number: 0, revision_height }
}

fn init() -> ConnectionHandshake {
    ConnectionHandshake {
        connection_id: "connection-0".to_string(),
        client_id: "cA".to_string(),
        counterparty_client_id: "cB".to_string(),
        counterparty_connection_id: String::new(),
    }
}

fn observed(event: IbcEvent, at: u64) -> Event {
    Event::Ibc(ChainEvent { block_hash: [7u8; 32], height: h(at), event })
}

fn connection_end() -> ConnectionEnd {
    ConnectionEnd {
        client_id: "cA".to_string(),
        versions: vec![Version {
            identifier: "1".to_string(),
            features: vec!["ORDER_ORDERED".to_string(), "ORDER_UNORDERED".to_string()],
        }],
        state: ConnectionState::Init,
        counterparty: ConnectionCounterparty {
            client_id: "cB".to_string(),
            connection_id: String::new(),
            prefix: b"ibc".to_vec(),
        },
        delay_period: 0,
    }
}

#[test]
fn update_plan_asks_for_the_client_state_first() {
    let plan = mk_aggregate_update(A, chain_a(), "cA".to_string(), "cB".to_string(), h(100));
    assert_eq!(
        plan,
        RelayerMsg::Aggregate {
            queue: vec![RelayerMsg::fetch(
                A,
                chain_a(),
                Fetch::TrustedClientState { at: QueryHeight::Latest, client_id: "cA".to_string() },
            )],
            data: vec![],
            receiver: AggregateReceiver {
                light_client: A,
                chain_id: chain_a(),
                aggregate: Aggregate::UpdateClient {
                    update_to: h(101),
                    client_id: "cA".to_string(),
                    counterparty_client_id: "cB".to_string(),
                },
            },
        }
    );
}

#[test]
fn connection_open_init_plans_a_try() {
    let successors = handle_event(A, chain_a(), observed(IbcEvent::ConnectionOpenInit(init()), 100));
    assert_eq!(
        successors,
        vec![RelayerMsg::Sequence(vec![
            RelayerMsg::wait(A, chain_a(), Wait::Block(h(101))),
            RelayerMsg::Aggregate {
                queue: vec![mk_aggregate_update(
                    A,
                    chain_a(),
                    "cA".to_string(),
                    "cB".to_string(),
                    h(100)
                )],
                data: vec![],
                receiver: AggregateReceiver {
                    light_client: A,
                    chain_id: chain_a(),
                    aggregate: Aggregate::AggregateMsgAfterUpdate(
                        AggregateMsgAfterUpdate::ConnectionOpenTry(AggregateConnectionOpen {
                            event_height: h(100),
                            event: init(),
                        })
                    ),
                },
            },
        ])]
    );
}

#[test]
fn confirmations_and_client_events_plan_nothing() {
    for event in [
        IbcEvent::ConnectionOpenConfirm(init()),
        IbcEvent::CreateClient(voyager::event::CreateClient {
            client_id: "cA".to_string(),
            client_type: "08-wasm".to_string(),
            consensus_height: h(3),
        }),
        IbcEvent::UpdateClient(voyager::event::UpdateClient {
            client_id: "cA".to_string(),
            client_type: "08-wasm".to_string(),
            consensus_heights: vec![h(3)],
            header: String::new(),
        }),
    ] {
        assert_eq!(handle_event(A, chain_a(), observed(event, u64::MAX)), vec![]);
    }
}

/// The two chains as far as the handshake looks at them.
struct World {
    now: u64,
    height_a: u64,
    b_trusts_a_at: u64,
    a_trusts_b_at: u64,
    submitted: Vec<(LightClientKind, ChainId, Msg)>,
    slept: u64,
}

impl World {
    fn answer(&mut self, effect: &Effect) -> Response {
        match effect {
            Effect::Nothing => Response::Nothing,
            Effect::Sleep => {
                self.slept += 1;
                self.now += 1;
                self.height_a += 1;
                Response::Nothing
            }
            Effect::Poll { light_client, wait, .. } => match wait {
                Wait::Block(_) => {
                    assert_eq!(*light_client, A);
                    Response::Polled(ChainStatus::Height(h(self.height_a)))
                }
                Wait::Timestamp(_) => Response::Polled(ChainStatus::Timestamp(self.now as i64)),
                Wait::TrustedHeight { client_id, .. } => {
                    assert_eq!(*light_client, B);
                    assert_eq!(client_id, "cB");
                    Response::Polled(ChainStatus::ClientState(ClientState {
                        chain_id: chain_a(),
                        height: h(self.b_trusts_a_at),
                        encoded: vec![0xb],
                    }))
                }
            },
            Effect::Submit { light_client, chain_id, msg } => {
                if let Msg::UpdateClient(_) = msg {
                    self.b_trusts_a_at = self.height_a;
                }
                self.submitted.push((*light_client, (*chain_id).clone(), (*msg).clone()));
                Response::Submitted(Submission::Accepted)
            }
            Effect::Fetch { light_client, chain_id, fetch } => {
                Response::Fetched(self.fetch(*light_client, chain_id, fetch))
            }
        }
    }

    fn fetch(&mut self, light_client: LightClientKind, chain_id: &ChainId, fetch: &Fetch) -> FetchResponse {
        match fetch {
            Fetch::TrustedClientState { at, client_id } if light_client == A => {
                assert_eq!(chain_id, &chain_a());
                assert_eq!(client_id, "cA");
                let height = match at {
                    QueryHeight::Latest => h(self.height_a),
                    QueryHeight::Specific(height) => *height,
                };
                FetchResponse::ClientState {
                    height,
                    client_state: ClientState {
                        chain_id: chain_b(),
                        height: h(self.a_trusts_b_at),
                        encoded: vec![0xa],
                    },
                }
            }
            Fetch::TrustedClientState { client_id, .. } => {
                assert_eq!(chain_id, &chain_b());
                assert_eq!(client_id, "cB");
                FetchResponse::ClientState {
                    height: h(7_000),
                    client_state: ClientState {
                        chain_id: chain_a(),
                        height: h(self.b_trusts_a_at),
                        encoded: vec![0xb],
                    },
                }
            }
            Fetch::UpdateHeaders(update) => {
                assert_eq!(light_client, A);
                assert_eq!(update.update_from, h(90));
                assert_eq!(update.update_to, h(101));
                FetchResponse::Messages(vec![RelayerMsg::Sequence(vec![
                    RelayerMsg::msg(
                        B,
                        update.counterparty_chain_id.clone(),
                        Msg::UpdateClient(MsgUpdateClient {
                            client_id: update.counterparty_client_id.clone(),
                            client_message: ClientMessage::Encoded(vec![1, 2, 3]),
                            update_from: update.update_from,
                        }),
                    ),
                    RelayerMsg::wait(
                        B,
                        update.counterparty_chain_id.clone(),
                        Wait::TrustedHeight {
                            client_id: update.counterparty_client_id.clone(),
                            height: update.update_to,
                            counterparty_client_id: update.client_id.clone(),
                            counterparty_chain_id: chain_a(),
                        },
                    ),
                ])])
            }
            Fetch::StateProof(FetchStateProof { at, path }) => {
                assert_eq!(light_client, A);
                let proof = vec![at.revision_height as u8];
                FetchResponse::Data(match path {
                    Path::ClientState { .. } => Data::ClientStateProof(ClientStateProof {
                        state: vec![0xc5],
                        proof,
                        proof_height: *at,
                    }),
                    Path::ClientConsensusState { height, .. } => {
                        assert_eq!(*height, h(self.a_trusts_b_at));
                        Data::ClientConsensusStateProof(ClientConsensusStateProof {
                            state: vec![0xcc],
                            proof,
                            proof_height: *at,
                        })
                    }
                    Path::Connection { connection_id } => {
                        assert_eq!(connection_id, "connection-0");
                        Data::ConnectionProof(ConnectionProof {
                            state: connection_end(),
                            proof,
                            proof_height: *at,
                        })
                    }
                    other => panic!("no proof for {:?}", other),
                })
            }
            other => panic!("nothing to answer {:?} with", other),
        }
    }
}

fn run(world: &mut World, first: Vec<RelayerMsg>) -> usize {
    let mut queue = InMemoryQueue::new();
    for msg in first {
        queue.enqueue(msg);
    }
    let mut steps = 0;
    while let Some(head) = queue.claim() {
        let msg = head.clone();
        let response = world.answer(&next_effect(&msg, world.now));
        let successors = handle_msg(msg, world.now, response).unwrap();
        queue.settle(ProcessFlow::Success(successors)).unwrap();
        steps += 1;
        assert!(steps < 1_000, "the plan does not come to an end");
    }
    steps
}

#[test]
fn connection_handshake_from_a_to_b() {
    let mut world = World {
        now: 1_700_000_000,
        height_a: 100,
        b_trusts_a_at: 90,
        a_trusts_b_at: 60,
        submitted: vec![],
        slept: 0,
    };
    let first = handle_event(A, chain_a(), observed(IbcEvent::ConnectionOpenInit(init()), 100));
    run(&mut world, first);

    assert!(world.slept >= 1, "block 101 had to be waited for");
    let tries: Vec<_> = world
        .submitted
        .iter()
        .filter(|(_, _, msg)| matches!(msg, Msg::ConnectionOpenTry(_)))
        .collect();
    assert_eq!(tries.len(), 1);
    assert_eq!(world.submitted.len(), 2);
    assert!(matches!(world.submitted[0].2, Msg::UpdateClient(_)));

    let (light_client, chain_id, msg) = tries[0];
    assert_eq!(*light_client, B);
    assert_eq!(chain_id, &chain_b());
    let Msg::ConnectionOpenTry(open_try) = msg else { unreachable!() };
    assert_eq!(open_try.client_id, "cB");
    assert_eq!(open_try.counterparty.client_id, "cA");
    assert_eq!(open_try.counterparty.connection_id, "connection-0");
    assert_eq!(open_try.counterparty.prefix, b"ibc".to_vec());
    assert_eq!(open_try.delay_period, 0);
    assert_eq!(open_try.counterparty_versions, connection_end().versions);
    assert_eq!(open_try.proof_height, h(101));
    assert_eq!(open_try.proof_init, vec![101]);
    assert_eq!(open_try.proof_client, vec![101]);
    assert_eq!(open_try.proof_consensus, vec![101]);
    assert_eq!(open_try.client_state, vec![0xc5]);
    assert_eq!(open_try.consensus_height, h(60));
}

#[test]
fn an_event_at_the_last_height_cannot_be_planned_for() {
    let msg = RelayerMsg::Lc(AnyLcMsg {
        light_client: A,
        chain_id: chain_a(),
        msg: LcMsg::Event(observed(IbcEvent::ConnectionOpenInit(init()), u64::MAX)),
    });
    assert_eq!(
        handle_msg(msg, 0, Response::Nothing),
        Err(voyager::reducer::HandleError::EventHeightOverflow)
    );
}
