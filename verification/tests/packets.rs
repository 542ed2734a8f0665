use voyager::aggregate::{Aggregate, PacketEvent};
use voyager::choreography::handle_event;
use voyager::data::{
    ClientState, CommitmentProof, ConnectionCounterparty, ConnectionEnd, Data, Version,
};
use voyager::event::{ChainEvent, ChannelHandshake, Command, Event, IbcEvent, PacketEventData};
use voyager::fetch::{Fetch, FetchStateProof};
use voyager::ids::{ChainId, ConnectionState, Height, LightClientKind, Order, Path, QueryHeight};
use voyager::msg::Msg;
use voyager::reducer::{
    handle_msg, next_effect, ChainStatus, Effect, FetchResponse, Response, Submission,
};
use voyager::relayer_msg::{AggregateReceiver, RelayerMsg};
use voyager::wait::Wait;

const A: LightClientKind = LightClientKind::CometblsMainnet;
const B: LightClientKind = LightClientKind::EthereumMainnet;

fn chain_a() -> ChainId {
    ChainId::Evm(1)
}

fn chain_b() -> ChainId {
    ChainId::Cosmos("union-1".to_string())
}

fn h(revision_height: u64) -> Height {
    Height { revision_number: 0, revision_height }
}

fn sent() -> PacketEventData {
    PacketEventData {
        packet_data_hex: vec![1, 2, 3],
        packet_timeout_height: h(9_999),
        packet_timeout_timestamp: 0,
        packet_sequence: 7,
        packet_src_port: "transfer".to_string(),
        packet_src_channel: "channel-0".to_string(),
        packet_dst_port: "wasm.relay".to_string(),
        packet_dst_channel: "channel-5".to_string(),
        packet_channel_ordering: Order::Unordered,
        connection_id: "connection-0".to_string(),
    }
}

fn observed(event: IbcEvent, at: u64) -> Event {
    Event::Ibc(ChainEvent { block_hash: [9u8; 32], height: h(at), event })
}

#[test]
fn a_sent_packet_is_planned_for() {
    assert_eq!(
        handle_event(A, chain_a(), observed(IbcEvent::SendPacket(sent()), 100)),
        vec![RelayerMsg::Sequence(vec![
            RelayerMsg::wait(A, chain_a(), Wait::Block(h(101))),
            RelayerMsg::Aggregate {
                queue: vec![RelayerMsg::fetch(
                    A,
                    chain_a(),
                    Fetch::ConnectionEnd { at: h(100), connection_id: "connection-0".to_string() }
                )],
                data: vec![],
                receiver: AggregateReceiver {
                    light_client: A,
                    chain_id: chain_a(),
                    aggregate: Aggregate::PacketUpdateClient {
                        update_to: h(101),
                        event_height: h(100),
                        block_hash: [9u8; 32],
                        packet_event: PacketEvent::Send(sent()),
                    },
                },
            },
        ])]
    );
}

#[test]
fn received_acknowledged_and_timed_out_packets_are_left_alone() {
    for event in [
        IbcEvent::RecvPacket(sent()),
        IbcEvent::AcknowledgePacket(sent()),
        IbcEvent::TimeoutPacket(sent()),
        IbcEvent::WriteAcknowledgement { packet: sent(), packet_ack_hex: vec![1] },
    ] {
        assert_eq!(handle_event(A, chain_a(), observed(event, 100)), vec![]);
    }
}

#[test]
fn a_channel_handshake_looks_up_its_connection_at_the_next_height() {
    let event = ChannelHandshake {
        port_id: "transfer".to_string(),
        channel_id: "channel-0".to_string(),
        counterparty_port_id: "wasm.relay".to_string(),
        counterparty_channel_id: String::new(),
        connection_id: "connection-0".to_string(),
        version: "ucs01-0".to_string(),
    };
    let successors = handle_event(A, chain_a(), observed(IbcEvent::ChannelOpenInit(event), 100));
    let [RelayerMsg::Sequence(steps)] = &successors[..] else { panic!("{successors:?}") };
    assert_eq!(steps[0], RelayerMsg::wait(A, chain_a(), Wait::Block(h(101))));
    let RelayerMsg::Aggregate { queue, receiver, .. } = &steps[1] else { panic!() };
    assert!(matches!(
        &receiver.aggregate,
        Aggregate::ChannelHandshakeUpdateClient { update_to, event_height, .. }
            if *update_to == h(101) && *event_height == h(100)
    ));
    let [RelayerMsg::Aggregate { queue, receiver, .. }] = &queue[..] else { panic!() };
    assert_eq!(receiver.aggregate, Aggregate::ConnectionFetchFromChannelEnd { at: h(101) });
    assert_eq!(
        queue[..],
        [RelayerMsg::fetch(
            A,
            chain_a(),
            Fetch::ChannelEnd {
                at: h(101),
                port_id: "transfer".to_string(),
                channel_id: "channel-0".to_string()
            }
        )]
    );
}

#[test]
fn an_operator_can_ask_for_an_update() {
    let command = Event::Command(Command::UpdateClient {
        client_id: "cA".to_string(),
        counterparty_client_id: "cB".to_string(),
    });
    assert_eq!(
        handle_event(A, chain_a(), command),
        vec![RelayerMsg::Aggregate {
            queue: vec![RelayerMsg::fetch(
                A,
                chain_a(),
                Fetch::TrustedClientState { at: QueryHeight::Latest, client_id: "cA".to_string() }
            )],
            data: vec![],
            receiver: AggregateReceiver {
                light_client: A,
                chain_id: chain_a(),
                aggregate: Aggregate::UpdateClientFromClientId {
                    client_id: "cA".to_string(),
                    counterparty_client_id: "cB".to_string(),
                },
            },
        }]
    );
}

#[test]
fn a_sent_packet_is_relayed_with_a_proof_from_after_it_was_sent() {
    let mut now = 500;
    let mut height_a = 100;
    let mut polls_of_b = 0;
    let mut waited_for = vec![];
    let mut proofs_asked_at = vec![];
    let mut submitted = vec![];
    let mut queue = handle_event(A, chain_a(), observed(IbcEvent::SendPacket(sent()), 100));
    let mut steps = 0;
    while !queue.is_empty() {
        let msg = queue.remove(0);
        let response = match next_effect(&msg, now) {
            Effect::Nothing => Response::Nothing,
            Effect::Sleep => {
                now += 1;
                height_a += 1;
                Response::Nothing
            }
            Effect::Poll { light_client, chain_id, wait } => match wait {
                Wait::Block(_) => Response::Polled(ChainStatus::Height(h(height_a))),
                Wait::TrustedHeight { client_id, height, counterparty_client_id, counterparty_chain_id } => {
                    assert_eq!((light_client, chain_id), (B, &chain_b()));
                    assert_eq!((client_id.as_str(), counterparty_client_id.as_str()), ("cB", "cA"));
                    assert_eq!(counterparty_chain_id, &chain_a());
                    waited_for.push(*height);
                    polls_of_b += 1;
                    let trusted = if polls_of_b < 3 { 90 } else { 105 };
                    Response::Polled(ChainStatus::ClientState(ClientState {
                        chain_id: chain_a(),
                        height: h(trusted),
                        encoded: vec![],
                    }))
                }
                other => panic!("{other:?}"),
            },
            Effect::Fetch { light_client, fetch, .. } => {
                assert_eq!(light_client, A);
                Response::Fetched(match fetch {
                    Fetch::ConnectionEnd { at, connection_id } => {
                        assert_eq!((*at, connection_id.as_str()), (h(100), "connection-0"));
                        FetchResponse::Data(Data::ConnectionEnd(ConnectionEnd {
                            client_id: "cA".to_string(),
                            versions: vec![Version { identifier: "1".to_string(), features: vec![] }],
                            state: ConnectionState::Open,
                            counterparty: ConnectionCounterparty {
                                client_id: "cB".to_string(),
                                connection_id: "connection-4".to_string(),
                                prefix: b"ibc".to_vec(),
                            },
                            delay_period: 0,
                        }))
                    }
                    Fetch::TrustedClientState { at, client_id } => {
                        assert_eq!(client_id, "cA");
                        FetchResponse::ClientState {
                            height: match at {
                                QueryHeight::Latest => h(height_a),
                                QueryHeight::Specific(at) => *at,
                            },
                            client_state: ClientState {
                                chain_id: chain_b(),
                                height: h(3_000),
                                encoded: vec![],
                            },
                        }
                    }
                    Fetch::StateProof(FetchStateProof { at, path }) => {
                        assert_eq!(
                            path,
                            &Path::Commitment {
                                port_id: "transfer".to_string(),
                                channel_id: "channel-0".to_string(),
                                sequence: 7
                            }
                        );
                        proofs_asked_at.push(*at);
                        FetchResponse::Data(Data::CommitmentProof(CommitmentProof {
                            state: vec![0xcc],
                            proof: vec![0xee],
                            proof_height: *at,
                        }))
                    }
                    other => panic!("{other:?}"),
                })
            }
            Effect::Submit { light_client, chain_id, msg } => {
                submitted.push((light_client, chain_id.clone(), msg.clone()));
                Response::Submitted(Submission::Accepted)
            }
        };
        queue.extend(handle_msg(msg, now, response).unwrap());
        steps += 1;
        assert!(steps < 200);
    }

    assert_eq!(waited_for, vec![h(101), h(101), h(101)]);
    assert_eq!(proofs_asked_at, vec![h(105)]);
    assert_eq!(submitted.len(), 1);
    let (light_client, chain_id, msg) = &submitted[0];
    assert_eq!((*light_client, chain_id), (B, &chain_b()));
    let Msg::RecvPacket(recv) = msg else { panic!("{msg:?}") };
    assert!(recv.proof_height.revision_height >= 101);
    assert_eq!(recv.proof_height, h(105));
    assert_eq!(recv.proof_commitment, vec![0xee]);
    assert_eq!(recv.packet.sequence, 7);
    assert_eq!(recv.packet.data, vec![1, 2, 3]);
    assert_eq!(recv.packet.source_channel, "channel-0");
    assert_eq!(recv.packet.destination_channel, "channel-5");
    assert_eq!(recv.packet.timeout_height, h(9_999));
}
