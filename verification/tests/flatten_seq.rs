use voyager::relayer_msg::{flatten_seq, RelayerMsg};

fn defer(timestamp: u64) -> RelayerMsg {
    RelayerMsg::DeferUntil { timestamp }
}

#[test]
fn flatten() {
    let msg = RelayerMsg::Sequence(
        [
            RelayerMsg::DeferUntil { timestamp: 1 },
            RelayerMsg::Sequence(
                [
                    RelayerMsg::DeferUntil { timestamp: 2 },
                    RelayerMsg::DeferUntil { timestamp: 3 },
                ]
                .into(),
            ),
            RelayerMsg::Sequence([RelayerMsg::DeferUntil { timestamp: 4 }].into()),
            RelayerMsg::DeferUntil { timestamp: 5 },
        ]
        .into(),
    );

    let msg = flatten_seq(msg);

    println!("{:?}", msg);
    assert_eq!(
        msg,
        RelayerMsg::Sequence(vec![defer(1), defer(2), defer(3), defer(4), defer(5)])
    );
}

#[test]
fn a_copy_is_the_same_message() {
    let msg = RelayerMsg::Sequence(vec![
        defer(1),
        RelayerMsg::Timeout { timeout_timestamp: 9, msg: Box::new(defer(2)) },
        RelayerMsg::Retry(2, Box::new(RelayerMsg::Sequence(vec![defer(3)]))),
    ]);
    assert_eq!(msg.clone(), msg);
}
