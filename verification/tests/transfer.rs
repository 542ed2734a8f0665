use voyager::ids::Order;
use voyager::text::{decimal, starts_with, strip_prefix};
use voyager::transfer::contract::{
    execute_receive_phase1, execute_transfer, plan_send, plan_transfer,
};
use voyager::transfer::protocol::{
    ack_response, parse_ucs01_ack, receive_error, receive_phase1_allowed, receive_response,
    refunds, same_text, send_response, timeout_response, ucs01_ack, BasicResponse, GenericAck,
    OutMsg, ReceiveResponse, Response, MODULE_NAME, PACKET_EVENT, TIMEOUT_EVENT, TRANSFER_EVENT,
};
use voyager::transfer::types::{
    Attribute, ChannelInfo, ContractError, ContractEvent, IbcEndpoint, Protocol, ProtocolError,
    TransferInput, TransferMsg, TransferPacket, TransferPlan, TransferToken,
};

fn token(denom: &str, amount: u128) -> TransferToken {
    TransferToken { denom: denom.to_string(), amount }
}

fn endpoint() -> IbcEndpoint {
    IbcEndpoint { port_id: "wasm.relay".to_string(), channel_id: "ch-0".to_string() }
}

fn channel(version: &str) -> ChannelInfo {
    ChannelInfo {
        endpoint: endpoint(),
        counterparty_endpoint: IbcEndpoint {
            port_id: "transfer".to_string(),
            channel_id: "channel-9".to_string(),
        },
        connection_id: "connection-0".to_string(),
        protocol_version: version.to_string(),
    }
}

fn transfer(memo: &str) -> TransferMsg {
    TransferMsg { channel: "ch-0".to_string(), receiver: "bob".to_string(), memo: memo.to_string() }
}

fn attr(key: &str, value: &str) -> Attribute {
    Attribute { key: key.to_string(), value: value.to_string() }
}

fn packet() -> TransferPacket {
    TransferPacket {
        sender: "alice".to_string(),
        receiver: "bob".to_string(),
        tokens: vec![token("wasm.relay/ch-0/muno", 10), token("weth", 150)],
        memo: String::new(),
    }
}

#[derive(Clone, Debug, PartialEq)]
enum Bank {
    Escrow(u128),
    Mint(u128),
}

#[test]
fn prefixes() {
    assert!(starts_with("wasm.relay/ch-0/muno", "wasm.relay/ch-0/"));
    assert!(starts_with("abc", ""));
    assert!(starts_with("abc", "abc"));
    assert!(!starts_with("abc", "abcd"));
    assert!(!starts_with("abc", "b"));
    assert!(!starts_with("", "a"));
    assert_eq!(strip_prefix("wasm.relay/ch-0/muno", "wasm.relay/ch-0/"), Some("muno"));
    assert_eq!(strip_prefix("müno/ü", "mü"), Some("no/ü"));
    assert_eq!(strip_prefix("abc", "abc"), Some(""));
    assert_eq!(strip_prefix("abc", "x"), None);
    assert!(same_text("ucs01-0", "ucs01-0"));
    assert!(!same_text("ucs01-0", "ucs01-01"));
    assert!(!same_text("ucs01-01", "ucs01-0"));
}

#[test]
fn numbers_as_text() {
    assert_eq!(decimal(0), "0");
    assert_eq!(decimal(7), "7");
    assert_eq!(decimal(10), "10");
    assert_eq!(decimal(1_234_567_890), "1234567890");
    assert_eq!(decimal(u128::MAX), "340282366920938463463374607431768211455");
}

#[test]
fn a_local_denomination_gets_the_prefix() {
    assert_eq!(
        token("muno", 10).normalize_for_ibc_transfer(&endpoint()),
        token("wasm.relay/ch-0/muno", 10)
    );
    assert_eq!(
        token("wasm.relay/ch-1/muno", 3).normalize_for_ibc_transfer(&endpoint()),
        token("wasm.relay/ch-0/wasm.relay/ch-1/muno", 3)
    );
    assert_eq!(token("", 1).normalize_for_ibc_transfer(&endpoint()), token("wasm.relay/ch-0/", 1));
}

#[test]
fn a_foreign_denomination_loses_the_prefix() {
    assert_eq!(
        token("wasm.relay/ch-0/weth", 150).normalize_for_ibc_transfer(&endpoint()),
        token("weth", 150)
    );
    assert_eq!(token("wasm.relay/ch-0/", 1).normalize_for_ibc_transfer(&endpoint()), token("", 1));
}

#[test]
fn writing_a_denomination_out_twice_gives_it_back() {
    for denom in ["muno", "wasm.relay/ch-0/weth", "factory/x/y", ""] {
        let once = token(denom, 5).normalize_for_ibc_transfer(&endpoint());
        assert_ne!(once.denom, denom);
        assert_eq!(once.normalize_for_ibc_transfer(&endpoint()), token(denom, 5));
    }
}

#[test]
fn the_protocol_variants() {
    assert_eq!(Protocol::Ics20.version(), "ics20-1");
    assert_eq!(Protocol::Ucs01.version(), "ucs01-0");
    assert_eq!(Protocol::from_version("ics20-1"), Some(Protocol::Ics20));
    assert_eq!(Protocol::from_version("ucs01-0"), Some(Protocol::Ucs01));
    assert_eq!(Protocol::from_version("bogus"), None);
    assert_eq!(Protocol::from_version(""), None);
    assert_eq!(Protocol::Ics20.ordering(), Order::Unordered);
    assert_ne!(Protocol::Ics20.receive_reply_id(), Protocol::Ucs01.receive_reply_id());
    assert_eq!(Protocol::Ics20.memo("hi".to_string()), "hi");
    assert_eq!(Protocol::Ucs01.memo("hi".to_string()), "");
    assert_eq!((MODULE_NAME, TRANSFER_EVENT), ("transfer", "ibc_transfer"));
    assert_eq!((PACKET_EVENT, TIMEOUT_EVENT), ("fungible_token_packet", "timeout"));
}

#[test]
fn the_acknowledgement_of_the_multi_token_variant_is_one_byte() {
    assert_eq!(ucs01_ack(true), vec![1]);
    assert_eq!(ucs01_ack(false), vec![0]);
    assert_eq!(parse_ucs01_ack(&[1]), Some(true));
    assert_eq!(parse_ucs01_ack(&[0]), Some(false));
    assert_eq!(parse_ucs01_ack(&[2]), None);
    assert_eq!(parse_ucs01_ack(&[]), None);
    assert_eq!(parse_ucs01_ack(&[1, 1]), None);
}

#[test]
fn protocol_errors_in_words() {
    assert_eq!(
        ProtocolError::NoSuchChannel { channel_id: "ch-7".to_string() }.message(),
        "Channel doesn't exist: ch-7"
    );
    assert_eq!(ProtocolError::Unauthorized.message(), "Protocol must be caller");
}

#[test]
fn an_unknown_protocol_is_refused() {
    let decision = execute_transfer(
        1_000,
        "alice".to_string(),
        vec![token("muno", 10)],
        transfer(""),
        Some(channel("bogus")),
        60,
    );
    assert_eq!(
        decision,
        Err(ContractError::UnknownProtocol {
            channel_id: "ch-0".to_string(),
            protocol_version: "bogus".to_string(),
        })
    );
}

#[test]
fn a_transfer_over_the_multi_token_variant() {
    let now = 1_700_000_000_000_000_000;
    let plan = execute_transfer(
        now,
        "alice".to_string(),
        vec![token("muno", 10)],
        transfer("dropped"),
        Some(channel("ucs01-0")),
        3_600,
    )
    .unwrap();
    assert_eq!(
        plan,
        TransferPlan {
            protocol: Protocol::Ucs01,
            channel_id: "ch-0".to_string(),
            packet: TransferPacket {
                sender: "alice".to_string(),
                receiver: "bob".to_string(),
                tokens: vec![token("wasm.relay/ch-0/muno", 10)],
                memo: String::new(),
            },
            timeout_timestamp: now + 3_600 * 1_000_000_000,
        }
    );

    let response = send_response(
        plan.channel_id.clone(),
        &plan.packet,
        vec![0x7b, 0x7d],
        plan.timeout_timestamp,
        vec![Bank::Escrow(10)],
    );
    assert_eq!(
        response,
        Response {
            messages: vec![
                OutMsg::Custom(Bank::Escrow(10)),
                OutMsg::SendPacket {
                    channel_id: "ch-0".to_string(),
                    data: vec![0x7b, 0x7d],
                    timeout_timestamp: 1_700_003_600_000_000_000,
                },
            ],
            events: vec![
                ContractEvent {
                    ty: "ibc_transfer".to_string(),
                    attributes: vec![
                        attr("sender", "alice"),
                        attr("receiver", "bob"),
                        attr("memo", ""),
                        attr("denom:wasm.relay/ch-0/muno", "10"),
                    ],
                },
                ContractEvent {
                    ty: "message".to_string(),
                    attributes: vec![attr("module", "transfer")],
                },
            ],
        }
    );

    // A success leaves the escrow as it is; a failure asks for the refund.
    assert!(!refunds(&Ok(vec![1])));
    assert!(refunds(&Err("out of gas".to_string())));
}

#[test]
fn a_transfer_over_the_reference_variant_keeps_its_memo() {
    let plan = execute_transfer(
        5,
        "alice".to_string(),
        vec![token("wasm.relay/ch-0/weth", 150)],
        transfer("for rent"),
        Some(channel("ics20-1")),
        1,
    )
    .unwrap();
    assert_eq!(plan.protocol, Protocol::Ics20);
    assert_eq!(plan.packet.memo, "for rent");
    assert_eq!(plan.packet.tokens, vec![token("weth", 150)]);
    assert_eq!(plan.timeout_timestamp, 1_000_000_005);
}

#[test]
fn funds_are_put_in_order() {
    let plan = execute_transfer(
        0,
        "alice".to_string(),
        vec![token("weth", 2), token("zero", 0), token("muno", 1), token("Zeta", 3), token("zero", 0)],
        transfer(""),
        Some(channel("ucs01-0")),
        0,
    )
    .unwrap();
    assert_eq!(
        plan.packet.tokens,
        vec![
            token("wasm.relay/ch-0/Zeta", 3),
            token("wasm.relay/ch-0/muno", 1),
            token("wasm.relay/ch-0/weth", 2),
        ]
    );
}

#[test]
fn a_denomination_named_twice_is_refused() {
    let decision = execute_transfer(
        0,
        "alice".to_string(),
        vec![token("muno", 1), token("weth", 2), token("muno", 3)],
        transfer(""),
        Some(channel("ucs01-0")),
        0,
    );
    assert_eq!(decision, Err(ContractError::InvalidFunds));
}

#[test]
fn at_least_one_token_must_be_transferred() {
    let none = |funds| {
        execute_transfer(0, "alice".to_string(), funds, transfer(""), Some(channel("bogus")), 0)
    };
    assert_eq!(none(vec![]), Err(ContractError::NoFunds));
    assert_eq!(none(vec![token("muno", 0)]), Err(ContractError::NoFunds));
    assert_eq!(
        plan_transfer(0, "alice".to_string(), vec![], transfer(""), None, 0),
        Err(ContractError::NoFunds)
    );
}

#[test]
fn the_channel_must_be_known() {
    assert_eq!(
        execute_transfer(0, "alice".to_string(), vec![token("muno", 1)], transfer(""), None, 0),
        Err(ContractError::Protocol(ProtocolError::NoSuchChannel { channel_id: "ch-0".to_string() }))
    );
}

#[test]
fn the_timeout_must_fit() {
    let at = |now, delta| {
        execute_transfer(
            now,
            "alice".to_string(),
            vec![token("muno", 1)],
            transfer(""),
            Some(channel("ucs01-0")),
            delta,
        )
        .map(|plan| plan.timeout_timestamp)
    };
    assert_eq!(at(u64::MAX - 1_000_000_000, 1), Ok(u64::MAX));
    assert_eq!(at(u64::MAX - 999_999_999, 1), Err(ContractError::TimeoutOverflow));
    assert_eq!(at(0, 18_446_744_074), Err(ContractError::TimeoutOverflow));
    assert_eq!(at(0, 18_446_744_073), Ok(18_446_744_073_000_000_000));
}

#[test]
fn only_the_contract_carries_out_a_received_transfer() {
    assert_eq!(receive_phase1_allowed("contract", "contract"), Ok(()));
    assert_eq!(receive_phase1_allowed("mallory", "contract"), Err(ProtocolError::Unauthorized));
    assert_eq!(
        execute_receive_phase1("ch-0".to_string(), Some(channel("ucs01-0")), "contract", "contract"),
        Ok(Protocol::Ucs01)
    );
    assert_eq!(
        execute_receive_phase1("ch-0".to_string(), Some(channel("ics20-1")), "mallory", "contract"),
        Err(ContractError::Protocol(ProtocolError::Unauthorized))
    );
    assert_eq!(
        execute_receive_phase1("ch-0".to_string(), Some(channel("v9")), "mallory", "contract"),
        Err(ContractError::UnknownProtocol {
            channel_id: "ch-0".to_string(),
            protocol_version: "v9".to_string()
        })
    );
    assert_eq!(
        execute_receive_phase1("ch-3".to_string(), None, "contract", "contract"),
        Err(ContractError::Protocol(ProtocolError::NoSuchChannel { channel_id: "ch-3".to_string() }))
    );
}

fn packet_attributes(extra: Vec<Attribute>) -> Vec<Attribute> {
    let mut attributes = vec![
        attr("module", "transfer"),
        attr("sender", "alice"),
        attr("receiver", "bob"),
        attr("memo", ""),
    ];
    attributes.extend(extra);
    attributes.extend([attr("denom:wasm.relay/ch-0/muno", "10"), attr("denom:weth", "150")]);
    attributes
}

#[test]
fn an_acknowledged_success() {
    let ack: GenericAck = Ok(vec![1]);
    assert_eq!(
        ack_response::<Bank>(&packet(), &vec![1], ack, vec![]),
        BasicResponse {
            messages: vec![],
            events: vec![
                ContractEvent {
                    ty: "fungible_token_packet".to_string(),
                    attributes: packet_attributes(vec![attr("acknowledgement", "AQ==")]),
                },
                ContractEvent {
                    ty: "fungible_token_packet".to_string(),
                    attributes: vec![attr("success", "AQ==")],
                },
            ],
        }
    );
}

#[test]
fn an_acknowledged_failure_refunds() {
    let raw = br#"{"error":"no"}"#.to_vec();
    let response =
        ack_response(&packet(), &raw, Err("no".to_string()), vec![Bank::Mint(10), Bank::Mint(150)]);
    assert_eq!(response.messages, vec![Bank::Mint(10), Bank::Mint(150)]);
    assert_eq!(
        response.events[0].attributes[4],
        attr("acknowledgement", "eyJlcnJvciI6Im5vIn0=")
    );
    assert_eq!(response.events[1].attributes, vec![attr("error", "no")]);
}

#[test]
fn a_timeout_refunds_the_sender() {
    assert_eq!(
        timeout_response(&packet(), vec![Bank::Mint(10)]),
        BasicResponse {
            messages: vec![Bank::Mint(10)],
            events: vec![ContractEvent {
                ty: "timeout".to_string(),
                attributes: vec![
                    attr("module", "transfer"),
                    attr("refund_receiver", "alice"),
                    attr("memo", ""),
                    attr("denom:wasm.relay/ch-0/muno", "10"),
                    attr("denom:weth", "150"),
                ],
            }],
        }
    );
}

#[test]
fn a_received_packet_is_acknowledged_unless_the_transfer_fails() {
    assert_eq!(
        receive_response(&packet(), ucs01_ack(true), "execute", Protocol::Ucs01.receive_reply_id()),
        ReceiveResponse {
            acknowledgement: vec![1],
            events: vec![ContractEvent {
                ty: "fungible_token_packet".to_string(),
                attributes: packet_attributes(vec![attr("success", "true")]),
            }],
            reply_on_error: Some(("execute", 1)),
        }
    );
    assert_eq!(
        receive_error::<&str>("Unauthorized", ucs01_ack(false)),
        ReceiveResponse {
            acknowledgement: vec![0],
            events: vec![ContractEvent {
                ty: "fungible_token_packet".to_string(),
                attributes: vec![
                    attr("module", "transfer"),
                    attr("success", "false"),
                    attr("error", "Unauthorized"),
                ],
            }],
            reply_on_error: None,
        }
    );
}

#[test]
fn a_send_is_planned_from_the_transfer_asked_for() {
    let input = || TransferInput {
        current_time: 7,
        timeout_delta: 2,
        sender: "alice".to_string(),
        receiver: "bob".to_string(),
        tokens: vec![token("muno", 1), token("wasm.relay/ch-0/weth", 2)],
    };
    assert_eq!(
        plan_send(Protocol::Ics20, endpoint(), input(), "m".to_string()),
        Ok(TransferPlan {
            protocol: Protocol::Ics20,
            channel_id: "ch-0".to_string(),
            packet: TransferPacket {
                sender: "alice".to_string(),
                receiver: "bob".to_string(),
                tokens: vec![token("wasm.relay/ch-0/muno", 1), token("weth", 2)],
                memo: "m".to_string(),
            },
            timeout_timestamp: 2_000_000_007,
        })
    );
    let mut late = input();
    late.current_time = u64::MAX;
    assert_eq!(
        plan_send(Protocol::Ucs01, endpoint(), late, String::new()),
        Err(ContractError::TimeoutOverflow)
    );
}
