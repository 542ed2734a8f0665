use voyager::aggregate::{
    Aggregate, AggregateAckPacket, AggregateChannelOpen, AggregateConnectionOpen,
    AggregateMsgAfterUpdate, AggregateRecvPacket, ChannelHandshakeEvent, PacketEvent,
};
use voyager::aggregation::{do_create, DELAY_PERIOD};
use voyager::choreography::mk_aggregate_update;
use voyager::data::{
    AcknowledgementProof, Channel, ChannelCounterparty, ChannelEndProof, ClientConsensusStateProof,
    ClientState, ClientStateProof, CommitmentProof, ConnectionCounterparty, ConnectionEnd,
    ConnectionProof, Data, PacketAcknowledgement, TrustedClientState, Version,
};
use voyager::event::{ChannelHandshake, ConnectionHandshake, PacketEventData};
use voyager::fetch::{Fetch, FetchPacketAcknowledgement, FetchStateProof, FetchUpdateHeaders};
use voyager::ids::{
    ChainId, ChannelState, ConnectionState, Height, LightClientKind, Order, Path, QueryHeight,
};
use voyager::msg::{
    ClientConfig, EvmConfig, Msg, MsgAcknowledgement, MsgChannelOpenAck, MsgChannelOpenConfirm,
    MsgChannelOpenTry, MsgConnectionOpenAck, MsgConnectionOpenConfirm, MsgConnectionOpenTry,
    MsgCreateClient, MsgRecvPacket, Packet,
};
use voyager::relayer_msg::{AggregateData, AggregateReceiver, RelayerMsg};
use voyager::schema::{schema, AggregateError, DataKind, Requirement};
use voyager::wait::Wait;

const A: LightClientKind = LightClientKind::EthereumMinimal;
const B: LightClientKind = LightClientKind::CometblsMinimal;

fn chain_a() -> ChainId {
    ChainId::Cosmos("union-devnet-1".to_string())
}

fn chain_b() -> ChainId {
    ChainId::Evm(32382)
}

fn h(revision_height: u64) -> Height {
    Height { revision_number: 0, revision_height }
}

fn receiver(aggregate: Aggregate) -> AggregateReceiver {
    AggregateReceiver { light_client: A, chain_id: chain_a(), aggregate }
}

fn on_a(data: Data) -> AggregateData {
    AggregateData { light_client: A, chain_id: chain_a(), data }
}

fn state(fetched_at: u64, trusted: u64) -> Data {
    Data::TrustedClientState(TrustedClientState {
        fetched_at: h(fetched_at),
        client_id: "cA".to_string(),
        trusted_client_state: ClientState { chain_id: chain_b(), height: h(trusted), encoded: vec![0xa] },
    })
}

fn client_state_proof(at: u64) -> Data {
    Data::ClientStateProof(ClientStateProof { state: vec![1], proof: vec![2], proof_height: h(at) })
}

fn consensus_state_proof(at: u64) -> Data {
    Data::ClientConsensusStateProof(ClientConsensusStateProof {
        state: vec![3],
        proof: vec![4],
        proof_height: h(at),
    })
}

fn versions() -> Vec<Version> {
    vec![
        Version { identifier: "1".to_string(), features: vec!["ORDER_UNORDERED".to_string()] },
        Version { identifier: "2".to_string(), features: vec![] },
    ]
}

fn connection_end(versions: Vec<Version>) -> ConnectionEnd {
    ConnectionEnd {
        client_id: "cA".to_string(),
        versions,
        state: ConnectionState::Tryopen,
        counterparty: ConnectionCounterparty {
            client_id: "cB".to_string(),
            connection_id: "connection-9".to_string(),
            prefix: b"ibc".to_vec(),
        },
        delay_period: 0,
    }
}

fn connection_proof(at: u64, versions: Vec<Version>) -> Data {
    Data::ConnectionProof(ConnectionProof {
        state: connection_end(versions),
        proof: vec![5],
        proof_height: h(at),
    })
}

fn connection_event() -> ConnectionHandshake {
    ConnectionHandshake {
        connection_id: "connection-0".to_string(),
        client_id: "cA".to_string(),
        counterparty_client_id: "cB".to_string(),
        counterparty_connection_id: "connection-9".to_string(),
    }
}

fn connection_open(event_height: u64) -> AggregateConnectionOpen {
    AggregateConnectionOpen { event_height: h(event_height), event: connection_event() }
}

fn channel_event() -> ChannelHandshake {
    ChannelHandshake {
        port_id: "transfer".to_string(),
        channel_id: "channel-0".to_string(),
        counterparty_port_id: "wasm.relay".to_string(),
        counterparty_channel_id: "channel-5".to_string(),
        connection_id: "connection-0".to_string(),
        version: "ucs01-0".to_string(),
    }
}

fn channel() -> Channel {
    Channel {
        state: ChannelState::Init,
        ordering: Order::Unordered,
        counterparty: ChannelCounterparty {
            port_id: "wasm.relay".to_string(),
            channel_id: String::new(),
        },
        connection_hops: vec!["connection-0".to_string(), "connection-1".to_string()],
        version: "ucs01-0".to_string(),
    }
}

fn channel_proof(at: u64) -> Data {
    Data::ChannelEndProof(ChannelEndProof { state: channel(), proof: vec![6], proof_height: h(at) })
}

fn packet_event() -> PacketEventData {
    PacketEventData {
        packet_data_hex: vec![0xde, 0xad],
        packet_timeout_height: h(0),
        packet_timeout_timestamp: 1_700_000_123,
        packet_sequence: 42,
        packet_src_port: "transfer".to_string(),
        packet_src_channel: "channel-0".to_string(),
        packet_dst_port: "wasm.relay".to_string(),
        packet_dst_channel: "channel-5".to_string(),
        packet_channel_ordering: Order::Unordered,
        connection_id: "connection-0".to_string(),
    }
}

fn packet() -> Packet {
    Packet {
        sequence: 42,
        source_port: "transfer".to_string(),
        source_channel: "channel-0".to_string(),
        destination_port: "wasm.relay".to_string(),
        destination_channel: "channel-5".to_string(),
        data: vec![0xde, 0xad],
        timeout_height: h(0),
        timeout_timestamp: 1_700_000_123,
    }
}

fn to_b(msg: Msg) -> Result<Vec<RelayerMsg>, AggregateError> {
    Ok(vec![RelayerMsg::msg(B, chain_b(), msg)])
}

fn open_try_data() -> Vec<AggregateData> {
    vec![
        on_a(state(101, 60)),
        on_a(client_state_proof(101)),
        on_a(consensus_state_proof(101)),
        on_a(connection_proof(101, versions())),
    ]
}

fn open_try_msg() -> Msg {
    Msg::ConnectionOpenTry(MsgConnectionOpenTry {
        client_id: "cB".to_string(),
        client_state: vec![1],
        counterparty: ConnectionCounterparty {
            client_id: "cA".to_string(),
            connection_id: "connection-0".to_string(),
            prefix: vec![b'i', b'b', b'c'],
        },
        delay_period: DELAY_PERIOD,
        counterparty_versions: versions(),
        proof_height: h(101),
        proof_init: vec![5],
        proof_client: vec![2],
        proof_consensus: vec![4],
        consensus_height: h(60),
    })
}

#[test]
fn connection_open_try_is_built_from_the_four_payloads() {
    let built = do_create(receiver(Aggregate::ConnectionOpenTry(connection_open(100))), open_try_data());
    assert_eq!(built, to_b(open_try_msg()));
}

#[test]
fn payloads_are_taken_by_kind_not_by_position() {
    let mut data = open_try_data();
    data.reverse();
    let built = do_create(receiver(Aggregate::ConnectionOpenTry(connection_open(100))), data);
    assert_eq!(built, to_b(open_try_msg()));

    let mut data = open_try_data();
    data.swap(0, 2);
    data.swap(1, 3);
    let built = do_create(receiver(Aggregate::ConnectionOpenTry(connection_open(100))), data);
    assert_eq!(built, to_b(open_try_msg()));
}

#[test]
fn of_two_payloads_of_a_kind_the_first_is_taken_and_the_other_is_in_excess() {
    let mut data = open_try_data();
    data.push(on_a(state(7, 7)));
    let built = do_create(receiver(Aggregate::ConnectionOpenTry(connection_open(100))), data);
    assert_eq!(built, Err(AggregateError::ExcessData));
}

#[test]
fn a_missing_payload_is_an_error() {
    let mut data = open_try_data();
    data.remove(2);
    let built = do_create(receiver(Aggregate::ConnectionOpenTry(connection_open(100))), data);
    assert_eq!(built, Err(AggregateError::MissingData));
    assert_eq!(
        do_create(receiver(Aggregate::ConnectionOpenTry(connection_open(100))), vec![]),
        Err(AggregateError::MissingData)
    );
}

#[test]
fn a_payload_fetched_for_the_other_light_client_does_not_count() {
    let mut data = open_try_data();
    data[1].light_client = B;
    let built = do_create(receiver(Aggregate::ConnectionOpenTry(connection_open(100))), data);
    assert_eq!(built, Err(AggregateError::MissingData));
}

#[test]
fn a_payload_from_another_chain_is_an_error() {
    for i in 0..4 {
        let mut data = open_try_data();
        data[i].chain_id = ChainId::Cosmos("elsewhere".to_string());
        let built = do_create(receiver(Aggregate::ConnectionOpenTry(connection_open(100))), data);
        assert_eq!(built, Err(AggregateError::ChainIdMismatch), "payload {i}");
    }
    assert_eq!(
        do_create(
            receiver(Aggregate::RecvPacket(AggregateRecvPacket {
                event_height: h(100),
                event: packet_event()
            })),
            vec![
                on_a(state(101, 60)),
                AggregateData {
                    light_client: A,
                    chain_id: chain_b(),
                    data: Data::CommitmentProof(CommitmentProof {
                        state: vec![],
                        proof: vec![],
                        proof_height: h(101)
                    })
                }
            ]
        ),
        Err(AggregateError::ChainIdMismatch)
    );
}

#[test]
fn a_proof_older_than_the_event_is_an_error() {
    let data = vec![
        on_a(state(101, 60)),
        on_a(client_state_proof(99)),
        on_a(consensus_state_proof(101)),
        on_a(connection_proof(101, versions())),
    ];
    assert_eq!(
        do_create(receiver(Aggregate::ConnectionOpenTry(connection_open(100))), data),
        Err(AggregateError::ProofHeightTooLow)
    );
    let data = vec![
        on_a(state(101, 60)),
        on_a(client_state_proof(100)),
        on_a(consensus_state_proof(99)),
        on_a(connection_proof(101, versions())),
    ];
    assert_eq!(
        do_create(receiver(Aggregate::ConnectionOpenAck(connection_open(100))), data),
        Err(AggregateError::ProofHeightTooLow)
    );
}

#[test]
fn connection_open_ack_takes_the_first_version() {
    let built = do_create(receiver(Aggregate::ConnectionOpenAck(connection_open(100))), open_try_data());
    assert_eq!(
        built,
        to_b(Msg::ConnectionOpenAck(MsgConnectionOpenAck {
            connection_id: "connection-9".to_string(),
            counterparty_connection_id: "connection-0".to_string(),
            version: versions()[0].clone(),
            client_state: vec![1],
            proof_height: h(101),
            proof_try: vec![5],
            proof_client: vec![2],
            proof_consensus: vec![4],
            consensus_height: h(60),
        }))
    );
}

#[test]
fn connection_open_ack_needs_a_version() {
    let data = vec![
        on_a(state(101, 60)),
        on_a(client_state_proof(101)),
        on_a(consensus_state_proof(101)),
        on_a(connection_proof(101, vec![])),
    ];
    assert_eq!(
        do_create(receiver(Aggregate::ConnectionOpenAck(connection_open(100))), data),
        Err(AggregateError::NoVersions)
    );
}

#[test]
fn connection_open_confirm() {
    let data = vec![on_a(connection_proof(105, versions())), on_a(state(101, 60))];
    assert_eq!(
        do_create(receiver(Aggregate::ConnectionOpenConfirm(connection_open(100))), data),
        to_b(Msg::ConnectionOpenConfirm(MsgConnectionOpenConfirm {
            connection_id: "connection-9".to_string(),
            proof_ack: vec![5],
            proof_height: h(105),
        }))
    );
}

#[test]
fn channel_open_try_runs_over_the_counterparty_end_of_the_connection() {
    let data = vec![
        on_a(Data::ConnectionEnd(connection_end(versions()))),
        on_a(state(101, 60)),
        on_a(channel_proof(101)),
    ];
    let built = do_create(
        receiver(Aggregate::ChannelOpenTry(AggregateChannelOpen {
            event_height: h(100),
            event: channel_event(),
        })),
        data,
    );
    assert_eq!(
        built,
        to_b(Msg::ChannelOpenTry(MsgChannelOpenTry {
            port_id: "wasm.relay".to_string(),
            channel: Channel {
                state: ChannelState::Tryopen,
                ordering: Order::Unordered,
                counterparty: ChannelCounterparty {
                    port_id: "transfer".to_string(),
                    channel_id: "channel-0".to_string(),
                },
                connection_hops: vec!["connection-9".to_string()],
                version: "ucs01-0".to_string(),
            },
            counterparty_version: "ucs01-0".to_string(),
            proof_init: vec![6],
            proof_height: h(101),
        }))
    );
}

#[test]
fn channel_open_ack_and_confirm() {
    let open = AggregateChannelOpen { event_height: h(100), event: channel_event() };
    assert_eq!(
        do_create(
            receiver(Aggregate::ChannelOpenAck(open.clone())),
            vec![on_a(state(101, 60)), on_a(channel_proof(102))]
        ),
        to_b(Msg::ChannelOpenAck(MsgChannelOpenAck {
            port_id: "wasm.relay".to_string(),
            channel_id: "channel-5".to_string(),
            counterparty_channel_id: "channel-0".to_string(),
            counterparty_version: "ucs01-0".to_string(),
            proof_try: vec![6],
            proof_height: h(102),
        }))
    );
    assert_eq!(
        do_create(
            receiver(Aggregate::ChannelOpenConfirm(open)),
            vec![on_a(state(101, 60)), on_a(channel_proof(103))]
        ),
        to_b(Msg::ChannelOpenConfirm(MsgChannelOpenConfirm {
            port_id: "wasm.relay".to_string(),
            channel_id: "channel-5".to_string(),
            proof_ack: vec![6],
            proof_height: h(103),
        }))
    );
}

#[test]
fn recv_packet_carries_the_height_of_its_proof() {
    let data = vec![
        on_a(Data::CommitmentProof(CommitmentProof {
            state: vec![9],
            proof: vec![8],
            proof_height: h(101),
        })),
        on_a(state(101, 60)),
    ];
    assert_eq!(
        do_create(
            receiver(Aggregate::RecvPacket(AggregateRecvPacket {
                event_height: h(100),
                event: packet_event()
            })),
            data
        ),
        to_b(Msg::RecvPacket(MsgRecvPacket {
            packet: packet(),
            proof_commitment: vec![8],
            proof_height: h(101),
        }))
    );
}

#[test]
fn ack_packet() {
    let fetched_by = FetchPacketAcknowledgement {
        block_hash: [3u8; 32],
        destination_port_id: "wasm.relay".to_string(),
        destination_channel_id: "channel-5".to_string(),
        sequence: 42,
    };
    let data = vec![
        on_a(state(101, 60)),
        on_a(Data::AcknowledgementProof(AcknowledgementProof {
            state: vec![9],
            proof: vec![8],
            proof_height: h(101),
        })),
        on_a(Data::PacketAcknowledgement(PacketAcknowledgement { fetched_by, ack: vec![1] })),
    ];
    assert_eq!(
        do_create(
            receiver(Aggregate::AckPacket(AggregateAckPacket {
                event_height: h(100),
                event: packet_event(),
                block_hash: [3u8; 32],
                counterparty_client_id: "cB".to_string(),
            })),
            data
        ),
        to_b(Msg::AckPacket(MsgAcknowledgement {
            packet: packet(),
            acknowledgement: vec![1],
            proof_acked: vec![8],
            proof_height: h(101),
        }))
    );
}

#[test]
fn update_client_reads_the_counterparty_client_next() {
    let update = Aggregate::UpdateClient {
        update_to: h(101),
        client_id: "cA".to_string(),
        counterparty_client_id: "cB".to_string(),
    };
    assert_eq!(
        do_create(receiver(update.clone()), vec![on_a(state(100, 60))]),
        Ok(vec![RelayerMsg::Aggregate {
            queue: vec![RelayerMsg::fetch(
                B,
                chain_b(),
                Fetch::TrustedClientState { at: QueryHeight::Latest, client_id: "cB".to_string() }
            )],
            data: vec![],
            receiver: receiver(Aggregate::UpdateClientWithCounterpartyChainIdData {
                update_to: h(101),
                client_id: "cA".to_string(),
                counterparty_client_id: "cB".to_string(),
                counterparty_chain_id: chain_b(),
            }),
        }])
    );
    let other_client = Data::TrustedClientState(TrustedClientState {
        fetched_at: h(100),
        client_id: "cZ".to_string(),
        trusted_client_state: ClientState { chain_id: chain_b(), height: h(60), encoded: vec![] },
    });
    assert_eq!(
        do_create(receiver(update), vec![on_a(other_client)]),
        Err(AggregateError::ClientIdMismatch)
    );
}

#[test]
fn update_client_from_client_id_updates_to_where_the_state_was_read() {
    assert_eq!(
        do_create(
            receiver(Aggregate::UpdateClientFromClientId {
                client_id: "cA".to_string(),
                counterparty_client_id: "cB".to_string(),
            }),
            vec![on_a(state(100, 60))]
        ),
        Ok(vec![RelayerMsg::Aggregate {
            queue: vec![RelayerMsg::fetch(
                B,
                chain_b(),
                Fetch::TrustedClientState {
                    at: QueryHeight::Specific(h(60)),
                    client_id: "cB".to_string()
                }
            )],
            data: vec![],
            receiver: receiver(Aggregate::UpdateClientWithCounterpartyChainIdData {
                update_to: h(100),
                client_id: "cA".to_string(),
                counterparty_client_id: "cB".to_string(),
                counterparty_chain_id: chain_b(),
            }),
        }])
    );
}

fn counterparty_state(client_id: &str, fetched_from: ChainId, tracks: ChainId) -> AggregateData {
    AggregateData {
        light_client: B,
        chain_id: fetched_from,
        data: Data::TrustedClientState(TrustedClientState {
            fetched_at: h(7_000),
            client_id: client_id.to_string(),
            trusted_client_state: ClientState { chain_id: tracks, height: h(90), encoded: vec![] },
        }),
    }
}

#[test]
fn the_last_step_of_an_update_asks_for_headers() {
    let last = || {
        receiver(Aggregate::UpdateClientWithCounterpartyChainIdData {
            update_to: h(101),
            client_id: "cA".to_string(),
            counterparty_client_id: "cB".to_string(),
            counterparty_chain_id: chain_b(),
        })
    };
    assert_eq!(
        do_create(last(), vec![counterparty_state("cB", chain_b(), chain_a())]),
        Ok(vec![RelayerMsg::fetch(
            A,
            chain_a(),
            Fetch::UpdateHeaders(FetchUpdateHeaders {
                client_id: "cA".to_string(),
                counterparty_client_id: "cB".to_string(),
                counterparty_chain_id: chain_b(),
                update_from: h(90),
                update_to: h(101),
            })
        )])
    );
    assert_eq!(
        do_create(last(), vec![counterparty_state("cB", chain_b(), chain_b())]),
        Err(AggregateError::ChainIdMismatch)
    );
    assert_eq!(
        do_create(last(), vec![counterparty_state("cB", chain_a(), chain_a())]),
        Err(AggregateError::ChainIdMismatch)
    );
    assert_eq!(
        do_create(last(), vec![counterparty_state("cX", chain_b(), chain_a())]),
        Err(AggregateError::ClientIdMismatch)
    );
    assert_eq!(do_create(last(), vec![on_a(state(100, 60))]), Err(AggregateError::MissingData));
}

#[test]
fn wait_for_trusted_height_is_addressed_to_the_counterparty() {
    assert_eq!(
        do_create(
            receiver(Aggregate::WaitForTrustedHeight {
                wait_for: h(101),
                client_id: "cA".to_string(),
                counterparty_client_id: "cB".to_string(),
            }),
            vec![on_a(state(100, 60))]
        ),
        Ok(vec![RelayerMsg::wait(
            B,
            chain_b(),
            Wait::TrustedHeight {
                client_id: "cB".to_string(),
                height: h(101),
                counterparty_client_id: "cA".to_string(),
                counterparty_chain_id: chain_a(),
            }
        )])
    );
}

#[test]
fn msg_after_update_asks_for_every_proof_at_the_height_the_state_was_read_at() {
    let next = AggregateMsgAfterUpdate::ConnectionOpenTry(connection_open(100));
    let proof = |path: Path| {
        RelayerMsg::fetch(A, chain_a(), Fetch::StateProof(FetchStateProof { at: h(103), path }))
    };
    assert_eq!(
        do_create(receiver(Aggregate::AggregateMsgAfterUpdate(next)), vec![on_a(state(103, 60))]),
        Ok(vec![RelayerMsg::Aggregate {
            queue: vec![
                proof(Path::ClientState { client_id: "cA".to_string() }),
                proof(Path::ClientConsensusState { client_id: "cA".to_string(), height: h(60) }),
                proof(Path::Connection { connection_id: "connection-0".to_string() }),
            ],
            data: vec![on_a(state(103, 60))],
            receiver: receiver(Aggregate::ConnectionOpenTry(connection_open(100))),
        }])
    );
}

#[test]
fn msg_after_update_holds_the_state_against_the_event() {
    let next = || AggregateMsgAfterUpdate::ChannelOpenAck(AggregateChannelOpen {
        event_height: h(100),
        event: channel_event(),
    });
    assert_eq!(
        do_create(receiver(Aggregate::AggregateMsgAfterUpdate(next())), vec![on_a(state(99, 60))]),
        Err(AggregateError::HeightTooLow)
    );
    let other_revision = Data::TrustedClientState(TrustedClientState {
        fetched_at: Height { revision_number: 1, revision_height: 200 },
        client_id: "cA".to_string(),
        trusted_client_state: ClientState { chain_id: chain_b(), height: h(60), encoded: vec![] },
    });
    assert_eq!(
        do_create(receiver(Aggregate::AggregateMsgAfterUpdate(next())), vec![on_a(other_revision)]),
        Err(AggregateError::RevisionMismatch)
    );
    let packet = AggregateMsgAfterUpdate::RecvPacket(AggregateRecvPacket {
        event_height: h(100),
        event: packet_event(),
    });
    assert_eq!(
        do_create(receiver(Aggregate::AggregateMsgAfterUpdate(packet)), vec![on_a(state(99, 60))]),
        Ok(vec![RelayerMsg::Aggregate {
            queue: vec![RelayerMsg::fetch(
                A,
                chain_a(),
                Fetch::StateProof(FetchStateProof {
                    at: h(99),
                    path: Path::Commitment {
                        port_id: "transfer".to_string(),
                        channel_id: "channel-0".to_string(),
                        sequence: 42
                    }
                })
            )],
            data: vec![on_a(state(99, 60))],
            receiver: receiver(Aggregate::RecvPacket(AggregateRecvPacket {
                event_height: h(100),
                event: packet_event()
            })),
        }])
    );
}

#[test]
fn the_connection_of_a_channel_is_its_first_hop() {
    assert_eq!(
        do_create(
            receiver(Aggregate::ConnectionFetchFromChannelEnd { at: h(101) }),
            vec![on_a(Data::ChannelEnd(channel()))]
        ),
        Ok(vec![RelayerMsg::fetch(
            A,
            chain_a(),
            Fetch::ConnectionEnd { at: h(101), connection_id: "connection-0".to_string() }
        )])
    );
    let mut hopless = channel();
    hopless.connection_hops.clear();
    assert_eq!(
        do_create(
            receiver(Aggregate::ConnectionFetchFromChannelEnd { at: h(101) }),
            vec![on_a(Data::ChannelEnd(hopless))]
        ),
        Err(AggregateError::NoConnectionHops)
    );
}

#[test]
fn a_channel_handshake_updates_the_client_past_its_target() {
    let step = |update_to: Height| {
        receiver(Aggregate::ChannelHandshakeUpdateClient {
            update_to,
            event_height: h(100),
            channel_handshake_event: ChannelHandshakeEvent::Try(channel_event()),
        })
    };
    assert_eq!(
        do_create(step(h(101)), vec![on_a(Data::ConnectionEnd(connection_end(versions())))]),
        Ok(vec![RelayerMsg::Aggregate {
            queue: vec![mk_aggregate_update(
                A,
                chain_a(),
                "cA".to_string(),
                "cB".to_string(),
                h(101)
            )],
            data: vec![],
            receiver: receiver(Aggregate::AggregateMsgAfterUpdate(
                AggregateMsgAfterUpdate::ChannelOpenAck(AggregateChannelOpen {
                    event_height: h(100),
                    event: channel_event()
                })
            )),
        }])
    );
    assert_eq!(
        do_create(step(h(u64::MAX)), vec![on_a(Data::ConnectionEnd(connection_end(versions())))]),
        Err(AggregateError::HeightOverflow)
    );
}

#[test]
fn a_received_packet_would_be_acknowledged() {
    let built = do_create(
        receiver(Aggregate::PacketUpdateClient {
            update_to: h(101),
            event_height: h(100),
            block_hash: [3u8; 32],
            packet_event: PacketEvent::Recv(packet_event()),
        }),
        vec![on_a(Data::ConnectionEnd(connection_end(versions())))],
    )
    .unwrap();
    let [RelayerMsg::Aggregate { receiver: outer, .. }] = &built[..] else {
        panic!("{built:?}")
    };
    assert_eq!(
        outer.aggregate,
        Aggregate::AggregateMsgAfterUpdate(AggregateMsgAfterUpdate::AckPacket(AggregateAckPacket {
            event_height: h(100),
            event: packet_event(),
            block_hash: [3u8; 32],
            counterparty_client_id: "cB".to_string(),
        }))
    );
}

#[test]
fn create_client_takes_what_the_counterparty_offers_of_itself() {
    let config = ClientConfig::Evm(EvmConfig {
        client_type: "cometbls".to_string(),
        client_address: [0x11; 20],
    });
    let offered = |chain_id: ChainId, data: Data| AggregateData { light_client: B, chain_id, data };
    assert_eq!(
        do_create(
            receiver(Aggregate::CreateClient { config: config.clone() }),
            vec![
                offered(chain_b(), Data::SelfConsensusState(vec![2])),
                offered(chain_b(), Data::SelfClientState(vec![1])),
            ]
        ),
        Ok(vec![RelayerMsg::msg(
            A,
            chain_a(),
            Msg::CreateClient(MsgCreateClient {
                config: config.clone(),
                client_state: vec![1],
                consensus_state: vec![2],
            })
        )])
    );
    assert_eq!(
        do_create(
            receiver(Aggregate::CreateClient { config }),
            vec![
                offered(chain_b(), Data::SelfConsensusState(vec![2])),
                offered(chain_a(), Data::SelfClientState(vec![1])),
            ]
        ),
        Err(AggregateError::ChainIdMismatch)
    );
}

#[test]
fn consensus_state_proof_at_latest_height() {
    assert_eq!(
        do_create(
            receiver(Aggregate::ConsensusStateProofAtLatestHeight {
                client_id: "cA".to_string(),
                at: h(120),
            }),
            vec![on_a(state(100, 60))]
        ),
        Ok(vec![RelayerMsg::fetch(
            A,
            chain_a(),
            Fetch::StateProof(FetchStateProof {
                at: h(120),
                path: Path::ClientConsensusState { client_id: "cA".to_string(), height: h(60) }
            })
        )])
    );
}

#[test]
fn a_state_proof_can_be_asked_of_the_counterparty() {
    let fetch = FetchStateProof {
        at: h(60),
        path: Path::Acknowledgement {
            port_id: "wasm.relay".to_string(),
            channel_id: "channel-5".to_string(),
            sequence: 42,
        },
    };
    assert_eq!(
        do_create(
            receiver(Aggregate::FetchCounterpartyStateproof {
                counterparty_client_id: "cB".to_string(),
                fetch: fetch.clone(),
            }),
            vec![on_a(state(100, 60))]
        ),
        Ok(vec![RelayerMsg::fetch(B, chain_b(), Fetch::StateProof(fetch))])
    );
}

#[test]
fn the_schema_names_kind_and_side() {
    let own = |kind| Requirement { kind, light_client: A };
    assert_eq!(
        schema(&receiver(Aggregate::ConnectionOpenTry(connection_open(1)))),
        vec![
            own(DataKind::TrustedClientState),
            own(DataKind::ClientStateProof),
            own(DataKind::ClientConsensusStateProof),
            own(DataKind::ConnectionProof),
        ]
    );
    assert_eq!(
        schema(&receiver(Aggregate::CreateClient {
            config: ClientConfig::Wasm { code_id: [0; 32] }
        })),
        vec![
            Requirement { kind: DataKind::SelfClientState, light_client: B },
            Requirement { kind: DataKind::SelfConsensusState, light_client: B },
        ]
    );
}
