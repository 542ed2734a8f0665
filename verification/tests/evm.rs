use voyager::aggregate::{Aggregate, CreateUpdateData, EvmAggregateMsg, MakeCreateUpdatesData};
use voyager::aggregation::do_create;
use voyager::data::{
    AccountProofResponse, AccountUpdateData, BeaconFinalityUpdate, BeaconGenesisData,
    BeaconLightClientUpdate, Data, EvmDataMsg, FinalityUpdate, LightClientUpdate,
    LightClientUpdates,
};
use voyager::evm::{
    fetch_update_headers, get_proof, get_state, make_create_update, sync_committee_period,
    EVM_REVISION_NUMBER,
};
use voyager::evm_fetch::{
    commitment_slot, period_start, single_storage_proof, slot_preimage, BeaconError,
    BootstrapAnswer, BootstrapSearch, BootstrapStep, StorageProof,
};
use voyager::evm_tx::{
    registers_client_type, registration_done, submission_of, tx_error, TxOutcome, TxSubmitError,
};
use voyager::fetch::{
    EvmFetchMsg, Fetch, FetchAccountUpdate, FetchBeaconGenesis, FetchIbcState,
    FetchLightClientUpdate, FetchLightClientUpdates, FetchUpdateHeaders, GetProof,
};
use voyager::ids::{ChainId, Height, HostChain, LightClientKind, Path, Preset};
use voyager::ingress::{ingest, observer};
use voyager::msg::{
    ActiveSyncCommittee, ClientConfig, ClientMessage, EthereumHeader, EvmConfig, Msg,
    MsgCreateClient, MsgUpdateClient,
};
use voyager::reducer::{
    handle_msg, next_effect, ChainStatus, Effect, FetchResponse, Response, Submission,
};
use voyager::relayer_msg::{AggregateData, AggregateReceiver, RelayerMsg};
use voyager::schema::AggregateError;
use voyager::wait::Wait;

const EVM: LightClientKind = LightClientKind::CometblsMainnet;
const UNION: LightClientKind = LightClientKind::EthereumMainnet;
const PERIOD: u64 = 8192;
const GENESIS: u64 = 1_606_824_023;

fn evm() -> ChainId {
    ChainId::Evm(1)
}

fn union() -> ChainId {
    ChainId::Cosmos("union-1".to_string())
}

fn slot(revision_height: u64) -> Height {
    Height { revision_number: EVM_REVISION_NUMBER, revision_height }
}

fn req(from: u64, to: u64) -> FetchUpdateHeaders {
    FetchUpdateHeaders {
        client_id: "cometbls-0".to_string(),
        counterparty_client_id: "08-wasm-0".to_string(),
        counterparty_chain_id: union(),
        update_from: slot(from),
        update_to: slot(to),
    }
}

fn update(attested_slot: u64, committee: Option<Vec<u8>>) -> BeaconLightClientUpdate {
    BeaconLightClientUpdate {
        attested_slot,
        attested_header: vec![1],
        next_sync_committee: committee,
        next_sync_committee_branch: Some(vec![2]),
        finalized_header: vec![3],
        finality_branch: vec![4],
        sync_aggregate: vec![5],
        signature_slot: attested_slot + 1,
    }
}

fn finality(attested_slot: u64) -> BeaconFinalityUpdate {
    BeaconFinalityUpdate {
        attested_slot,
        attested_header: vec![1],
        finalized_header: vec![3],
        finality_branch: vec![4],
        sync_aggregate: vec![5],
        signature_slot: attested_slot + 1,
    }
}

fn on_evm(data: EvmDataMsg) -> AggregateData {
    AggregateData { light_client: EVM, chain_id: evm(), data: Data::LightClientSpecific(data) }
}

fn evm_receiver(light_client: LightClientKind, aggregate: EvmAggregateMsg) -> AggregateReceiver {
    AggregateReceiver { light_client, chain_id: evm(), aggregate: Aggregate::LightClientSpecific(aggregate) }
}

fn evm_fetch(fetch: EvmFetchMsg) -> RelayerMsg {
    RelayerMsg::fetch(EVM, evm(), Fetch::LightClientSpecific(fetch))
}

#[test]
fn the_presets() {
    assert_eq!(Preset::Mainnet.seconds_per_slot(), 12);
    assert_eq!(Preset::Mainnet.slots_per_epoch(), 32);
    assert_eq!(Preset::Mainnet.epochs_per_sync_committee_period(), 256);
    assert_eq!(Preset::Mainnet.period(), 8192);
    assert_eq!(Preset::Minimal.seconds_per_slot(), 6);
    assert_eq!(Preset::Minimal.slots_per_epoch(), 8);
    assert_eq!(Preset::Minimal.epochs_per_sync_committee_period(), 8);
    assert_eq!(Preset::Minimal.period(), 64);
}

#[test]
fn sync_committee_periods() {
    assert_eq!(sync_committee_period(0, Preset::Mainnet), 0);
    assert_eq!(sync_committee_period(8191, Preset::Mainnet), 0);
    assert_eq!(sync_committee_period(8192, Preset::Mainnet), 1);
    assert_eq!(sync_committee_period(10 * PERIOD + 5, Preset::Mainnet), 10);
    assert_eq!(sync_committee_period(u64::MAX, Preset::Mainnet), u64::MAX / 8192);
    assert_eq!(sync_committee_period(64, Preset::Minimal), 1);
    assert_eq!(sync_committee_period(127, Preset::Minimal), 1);
    assert_eq!(period_start(127, Preset::Minimal), 64);
    assert_eq!(period_start(10 * PERIOD + 5, Preset::Mainnet), 10 * PERIOD);
    assert_eq!(period_start(3, Preset::Mainnet), 0);
}

#[test]
fn light_clients_and_their_hosts() {
    for light_client in [
        LightClientKind::EthereumMainnet,
        LightClientKind::EthereumMinimal,
        LightClientKind::CometblsMainnet,
        LightClientKind::CometblsMinimal,
    ] {
        assert_ne!(light_client.counterparty(), light_client);
        assert_eq!(light_client.counterparty().counterparty(), light_client);
    }
    assert_eq!(LightClientKind::CometblsMinimal.counterparty(), LightClientKind::EthereumMinimal);
    assert_eq!(LightClientKind::CometblsMainnet.host(), HostChain::Evm(Preset::Mainnet));
    assert_eq!(LightClientKind::EthereumMainnet.host(), HostChain::Union);
    assert_eq!(observer(HostChain::Evm(Preset::Minimal)), LightClientKind::CometblsMinimal);
    assert_eq!(observer(HostChain::Evm(Preset::Mainnet)), LightClientKind::CometblsMainnet);
    assert_eq!(observer(HostChain::Union), LightClientKind::EthereumMinimal);
}

#[test]
fn an_observed_event_enters_the_queue_for_the_observer() {
    let event = voyager::event::IbcEvent::UpdateClient(voyager::event::UpdateClient {
        client_id: "08-wasm-0".to_string(),
        client_type: "08-wasm".to_string(),
        consensus_heights: vec![slot(4)],
        header: "00".to_string(),
    });
    assert_eq!(
        ingest(HostChain::Union, union(), [4; 32], slot(77), event.clone()),
        RelayerMsg::event(
            LightClientKind::EthereumMinimal,
            union(),
            voyager::event::Event::Ibc(voyager::event::ChainEvent {
                block_hash: [4; 32],
                height: slot(77),
                event
            })
        )
    );
}

#[test]
fn one_header_takes_a_committee_an_account_proof_and_the_genesis() {
    let plan = |attested_slot| {
        make_create_update(
            EVM,
            evm(),
            Preset::Mainnet,
            req(1, 2),
            77,
            update(attested_slot, None),
            true,
        )
    };
    let expected = |attested_slot: u64, period: u64| RelayerMsg::Aggregate {
        queue: vec![
            evm_fetch(EvmFetchMsg::FetchLightClientUpdate(FetchLightClientUpdate { period })),
            evm_fetch(EvmFetchMsg::FetchAccountUpdate(FetchAccountUpdate { slot: attested_slot })),
            evm_fetch(EvmFetchMsg::FetchBeaconGenesis(FetchBeaconGenesis {})),
        ],
        data: vec![],
        receiver: evm_receiver(
            EVM,
            EvmAggregateMsg::CreateUpdate(CreateUpdateData {
                req: req(1, 2),
                currently_trusted_slot: 77,
                light_client_update: update(attested_slot, None),
                is_next: true,
            }),
        ),
    };
    assert_eq!(plan(11 * PERIOD + 3), expected(11 * PERIOD + 3, 10));
    assert_eq!(plan(PERIOD), expected(PERIOD, 0));
    assert_eq!(plan(5), expected(5, 0));
}

fn create_update(is_next: bool, signature_slot: u64, genesis_time: u64) -> Result<Vec<RelayerMsg>, AggregateError> {
    let mut consensus_update = update(11 * PERIOD + 3, None);
    consensus_update.signature_slot = signature_slot;
    do_create(
        evm_receiver(
            EVM,
            EvmAggregateMsg::CreateUpdate(CreateUpdateData {
                req: req(10 * PERIOD, 12 * PERIOD),
                currently_trusted_slot: 10 * PERIOD,
                light_client_update: consensus_update,
                is_next,
            }),
        ),
        vec![
            on_evm(EvmDataMsg::BeaconGenesis(BeaconGenesisData {
                genesis_time,
                genesis_validators_root: [0; 32],
            })),
            on_evm(EvmDataMsg::AccountUpdate(AccountUpdateData {
                slot: 11 * PERIOD + 3,
                ibc_handler_address: [0xab; 20],
                update: AccountProofResponse {
                    storage_hash: [0xcd; 32],
                    account_proof: vec![vec![1], vec![2, 3]],
                },
            })),
            on_evm(EvmDataMsg::LightClientUpdate(LightClientUpdate {
                update: update(10 * PERIOD + 9, Some(vec![0x5c])),
            })),
        ],
    )
}

#[test]
fn a_header_waits_for_its_signature_slot() {
    let signature_slot = 11 * PERIOD + 4;
    let mut consensus_update = update(11 * PERIOD + 3, None);
    consensus_update.signature_slot = signature_slot;
    let header = |sync_committee| EthereumHeader {
        consensus_update: consensus_update.clone(),
        trusted_height: slot(10 * PERIOD),
        sync_committee,
        contract_address: [0xab; 20],
        storage_root: [0xcd; 32],
        account_proof: vec![vec![1], vec![2, 3]],
    };
    let expected = |sync_committee| {
        Ok(vec![RelayerMsg::Sequence(vec![
            RelayerMsg::wait(
                UNION,
                union(),
                Wait::Timestamp((GENESIS + signature_slot * 12) as i64),
            ),
            RelayerMsg::msg(
                UNION,
                union(),
                Msg::UpdateClient(MsgUpdateClient {
                    client_id: "08-wasm-0".to_string(),
                    client_message: ClientMessage::Ethereum(header(sync_committee)),
                    update_from: slot(10 * PERIOD),
                }),
            ),
        ])])
    };
    assert_eq!(GENESIS + signature_slot * 12, 1_607_905_415);
    assert_eq!(
        create_update(true, signature_slot, GENESIS),
        expected(ActiveSyncCommittee::Next(vec![0x5c]))
    );
    assert_eq!(
        create_update(false, signature_slot, GENESIS),
        expected(ActiveSyncCommittee::Current(vec![0x5c]))
    );
}

#[test]
fn a_time_that_does_not_fit_is_an_error() {
    assert_eq!(create_update(true, u64::MAX, 0), Err(AggregateError::TimestampOverflow));
    assert_eq!(create_update(true, 1, i64::MAX as u64 - 11), Err(AggregateError::TimestampOverflow));
    assert!(create_update(true, 1, i64::MAX as u64 - 12).is_ok());
}

#[test]
fn a_header_needs_a_committee() {
    let built = do_create(
        evm_receiver(
            EVM,
            EvmAggregateMsg::CreateUpdate(CreateUpdateData {
                req: req(1, 2),
                currently_trusted_slot: 1,
                light_client_update: update(3, None),
                is_next: true,
            }),
        ),
        vec![
            on_evm(EvmDataMsg::LightClientUpdate(LightClientUpdate { update: update(1, None) })),
            on_evm(EvmDataMsg::AccountUpdate(AccountUpdateData {
                slot: 3,
                ibc_handler_address: [0; 20],
                update: AccountProofResponse { storage_hash: [0; 32], account_proof: vec![] },
            })),
            on_evm(EvmDataMsg::BeaconGenesis(BeaconGenesisData {
                genesis_time: 0,
                genesis_validators_root: [0; 32],
            })),
        ],
    );
    assert_eq!(built, Err(AggregateError::MissingSyncCommittee));
}

#[test]
fn headers_are_built_on_beacon_chains_only() {
    let built = do_create(
        evm_receiver(UNION, EvmAggregateMsg::MakeCreateUpdates(MakeCreateUpdatesData { req: req(1, 2) })),
        vec![AggregateData {
            light_client: UNION,
            chain_id: evm(),
            data: Data::LightClientSpecific(EvmDataMsg::FinalityUpdate(FinalityUpdate {
                finality_update: finality(5),
            })),
        }],
    );
    assert_eq!(built, Err(AggregateError::NotEvm));
}

#[test]
fn a_client_ahead_of_the_finalized_chain_is_an_error() {
    let built = do_create(
        evm_receiver(
            EVM,
            EvmAggregateMsg::MakeCreateUpdates(MakeCreateUpdatesData {
                req: req(12 * PERIOD, 13 * PERIOD),
            }),
        ),
        vec![on_evm(EvmDataMsg::FinalityUpdate(FinalityUpdate {
            finality_update: finality(11 * PERIOD + 8191),
        }))],
    );
    assert_eq!(built, Err(AggregateError::TrustedPeriodAhead));
}

#[test]
fn the_updates_between_trusted_and_target_period_are_fetched() {
    let built = do_create(
        evm_receiver(
            EVM,
            EvmAggregateMsg::MakeCreateUpdates(MakeCreateUpdatesData {
                req: req(10 * PERIOD + 5, 12 * PERIOD + 100),
            }),
        ),
        vec![on_evm(EvmDataMsg::FinalityUpdate(FinalityUpdate {
            finality_update: finality(12 * PERIOD + 150),
        }))],
    )
    .unwrap();
    let [RelayerMsg::Aggregate { queue, data, receiver }] = &built[..] else { panic!("{built:?}") };
    assert_eq!(
        queue[..],
        [evm_fetch(EvmFetchMsg::FetchLightClientUpdates(FetchLightClientUpdates {
            trusted_period: 10,
            target_period: 12
        }))]
    );
    assert!(data.is_empty());
    assert!(matches!(
        &receiver.aggregate,
        Aggregate::LightClientSpecific(EvmAggregateMsg::MakeCreateUpdatesFromLightClientUpdates(next))
            if next.trusted_height == slot(10 * PERIOD + 5)
                && next.finality_update == finality(12 * PERIOD + 150)
                && next.req == req(10 * PERIOD + 5, 12 * PERIOD + 100)
    ));
}

/// A beacon chain, an execution chain and the chain that tracks them, as far
/// as building headers looks at them.
struct World {
    head: u64,
    waits: Vec<i64>,
    updates: Vec<MsgUpdateClient>,
    order: Vec<&'static str>,
}

impl World {
    fn answer(&mut self, effect: &Effect) -> Response {
        match effect {
            Effect::Nothing => Response::Nothing,
            Effect::Poll { light_client, chain_id, wait: Wait::Timestamp(at) } => {
                assert_eq!((*light_client, *chain_id), (UNION, &union()));
                self.waits.push(*at);
                self.order.push("wait");
                Response::Polled(ChainStatus::Timestamp(*at))
            }
            Effect::Submit { light_client, chain_id, msg: Msg::UpdateClient(update) } => {
                assert_eq!((*light_client, *chain_id), (UNION, &union()));
                self.updates.push(update.clone());
                self.order.push("update");
                Response::Submitted(Submission::Accepted)
            }
            Effect::Fetch { light_client, chain_id, fetch: Fetch::LightClientSpecific(fetch) } => {
                assert_eq!((*light_client, *chain_id), (EVM, &evm()));
                Response::Fetched(FetchResponse::Data(Data::LightClientSpecific(match fetch {
                    EvmFetchMsg::FetchFinalityUpdate => EvmDataMsg::FinalityUpdate(FinalityUpdate {
                        finality_update: finality(self.head),
                    }),
                    EvmFetchMsg::FetchLightClientUpdates(range) => {
                        EvmDataMsg::LightClientUpdates(LightClientUpdates {
                            light_client_updates: (range.trusted_period + 1..=range.target_period)
                                .map(|period| update(period * PERIOD + 20, Some(vec![period as u8 + 1])))
                                .collect(),
                        })
                    }
                    EvmFetchMsg::FetchLightClientUpdate(one) => {
                        EvmDataMsg::LightClientUpdate(LightClientUpdate {
                            update: update(one.period * PERIOD + 20, Some(vec![one.period as u8 + 1])),
                        })
                    }
                    EvmFetchMsg::FetchAccountUpdate(at) => EvmDataMsg::AccountUpdate(AccountUpdateData {
                        slot: at.slot,
                        ibc_handler_address: [0xab; 20],
                        update: AccountProofResponse {
                            storage_hash: [at.slot as u8; 32],
                            account_proof: vec![],
                        },
                    }),
                    EvmFetchMsg::FetchBeaconGenesis(_) => EvmDataMsg::BeaconGenesis(BeaconGenesisData {
                        genesis_time: GENESIS,
                        genesis_validators_root: [0; 32],
                    }),
                    other => panic!("{other:?}"),
                })))
            }
            other => panic!("{other:?}"),
        }
    }
}

fn run(world: &mut World, first: RelayerMsg) {
    let mut queue = vec![first];
    let mut steps = 0;
    while !queue.is_empty() {
        let msg = queue.remove(0);
        let response = world.answer(&next_effect(&msg, 0));
        queue.extend(handle_msg(msg, 0, response).unwrap());
        steps += 1;
        assert!(steps < 500);
    }
}

#[test]
fn an_update_that_spans_two_periods() {
    let from = 10 * PERIOD + 5;
    let to = 12 * PERIOD + 100;
    let mut world = World { head: 12 * PERIOD + 150, waits: vec![], updates: vec![], order: vec![] };
    run(&mut world, RelayerMsg::fetch(EVM, evm(), Fetch::UpdateHeaders(req(from, to))));

    assert_eq!(world.order, ["wait", "update", "wait", "update", "wait", "update"]);
    let attested: Vec<u64> = world
        .updates
        .iter()
        .map(|update| match &update.client_message {
            ClientMessage::Ethereum(header) => header.consensus_update.attested_slot,
            other => panic!("{other:?}"),
        })
        .collect();
    assert_eq!(attested, [11 * PERIOD + 20, 12 * PERIOD + 20, 12 * PERIOD + 150]);
    assert_eq!(
        attested.iter().map(|slot| sync_committee_period(*slot, Preset::Mainnet)).collect::<Vec<_>>(),
        [11, 12, 12]
    );
    assert_eq!(
        world.waits,
        attested.iter().map(|slot| (GENESIS + (slot + 1) * 12) as i64).collect::<Vec<_>>()
    );
    let trusted: Vec<Height> = world.updates.iter().map(|update| update.update_from).collect();
    assert_eq!(trusted, [slot(from), slot(11 * PERIOD + 20), slot(12 * PERIOD + 20)]);
    let committees: Vec<ActiveSyncCommittee> = world
        .updates
        .iter()
        .map(|update| match &update.client_message {
            ClientMessage::Ethereum(header) => header.sync_committee.clone(),
            other => panic!("{other:?}"),
        })
        .collect();
    assert_eq!(
        committees,
        [
            ActiveSyncCommittee::Next(vec![11]),
            ActiveSyncCommittee::Next(vec![12]),
            ActiveSyncCommittee::Current(vec![12]),
        ]
    );
    assert!(world.updates.iter().all(|update| update.client_id == "08-wasm-0"));
}

#[test]
fn an_update_within_a_period_is_the_finality_update_alone() {
    let mut world = World { head: 10 * PERIOD + 150, waits: vec![], updates: vec![], order: vec![] };
    run(
        &mut world,
        fetch_update_headers(EVM, evm(), req(10 * PERIOD + 5, 10 * PERIOD + 100)),
    );
    assert_eq!(world.order, ["wait", "update"]);
    assert_eq!(world.updates[0].update_from, slot(10 * PERIOD + 5));
}

#[test]
fn a_client_that_is_far_enough_is_given_nothing() {
    let mut world = World { head: 10 * PERIOD + 150, waits: vec![], updates: vec![], order: vec![] };
    run(&mut world, fetch_update_headers(EVM, evm(), req(10 * PERIOD + 5, 10 * PERIOD + 5)));
    assert!(world.order.is_empty());
}

#[test]
fn where_a_commitment_is_stored() {
    let path = b"connections/connection-0";
    let digest = ethers::utils::keccak256(path);
    let mut preimage = digest.to_vec();
    preimage.extend([0u8; 32]);
    assert_eq!(slot_preimage(&digest), preimage);
    assert_eq!(commitment_slot(path), ethers::utils::keccak256(&preimage));
    assert_ne!(commitment_slot(path).to_vec(), path.to_vec());
    assert_ne!(commitment_slot(path), commitment_slot(b"connections/connection-1"));
    // Keccak-256 of the empty string, then of that digest followed by 32
    // zero bytes.
    let empty: [u8; 32] = [
        0xc5, 0xd2, 0x46, 0x01, 0x86, 0xf7, 0x23, 0x3c, 0x92, 0x7e, 0x7d, 0xb2, 0xdc, 0xc7, 0x03,
        0xc0, 0xe5, 0x00, 0xb6, 0x53, 0xca, 0x82, 0x27, 0x3b, 0x7b, 0xfa, 0xd8, 0x04, 0x5d, 0x85,
        0xa4, 0x70,
    ];
    assert_eq!(ethers::utils::keccak256(b""), empty);
    assert_eq!(commitment_slot(b""), ethers::utils::keccak256(slot_preimage(&empty)));
}

#[test]
fn one_storage_proof_is_expected() {
    let proof = |n| StorageProof { key: [n; 32], value: [0; 32], proof: vec![vec![n]] };
    assert_eq!(single_storage_proof(vec![proof(1)]), Some(proof(1)));
    assert_eq!(single_storage_proof(vec![]), None);
    assert_eq!(single_storage_proof(vec![proof(1), proof(2)]), None);
}

#[test]
fn the_bootstrap_is_searched_backwards_from_the_start_of_the_period() {
    let (mut search, step) = BootstrapSearch::start(2 * 64 + 9, Preset::Minimal);
    assert_eq!(step, BootstrapStep::FetchHeader { slot: 128 });
    let missing = || {
        BootstrapAnswer::HeaderFailed(BeaconError::NotFound(
            "No block found for id slot 128".to_string(),
        ))
    };
    assert_eq!(search.advance(missing()), BootstrapStep::FetchHeader { slot: 127 });
    assert_eq!(search.advance(missing()), BootstrapStep::FetchHeader { slot: 126 });
    assert_eq!(search.advance(BootstrapAnswer::Header([6; 32])), BootstrapStep::FetchBootstrap { root: [6; 32] });
    let unavailable = BootstrapAnswer::BootstrapFailed(BeaconError::Internal(
        "syncCommitteeWitness not available".to_string(),
    ));
    assert_eq!(search.advance(unavailable), BootstrapStep::FetchHeader { slot: 125 });
    assert_eq!(search.advance(BootstrapAnswer::Header([5; 32])), BootstrapStep::FetchBootstrap { root: [5; 32] });
    assert_eq!(
        search.advance(BootstrapAnswer::Bootstrap(vec![0xb0])),
        BootstrapStep::Done(voyager::data::BootstrapData { slot: 137, bootstrap: vec![0xb0] })
    );
    assert_eq!(search, BootstrapSearch { slot: 137, start: 128, slots_back: 3 });
}

#[test]
fn the_bootstrap_search_gives_up_on_other_failures() {
    let (search, _) = BootstrapSearch::start(70, Preset::Minimal);
    for answer in [
        BootstrapAnswer::HeaderFailed(BeaconError::NotFound("not here".to_string())),
        BootstrapAnswer::HeaderFailed(BeaconError::Internal("No block found for id".to_string())),
        BootstrapAnswer::HeaderFailed(BeaconError::Other("No block found for id".to_string())),
        BootstrapAnswer::BootstrapFailed(BeaconError::NotFound(
            "syncCommitteeWitness not available".to_string(),
        )),
        BootstrapAnswer::BootstrapFailed(BeaconError::Internal("busy".to_string())),
    ] {
        let mut search = search;
        assert_eq!(search.advance(answer), BootstrapStep::Failed);
        assert_eq!(search.slots_back, 0);
    }
    let (mut search, step) = BootstrapSearch::start(1, Preset::Mainnet);
    assert_eq!(step, BootstrapStep::FetchHeader { slot: 0 });
    let missing = BootstrapAnswer::HeaderFailed(BeaconError::NotFound("No block found for id 0".to_string()));
    assert_eq!(search.advance(missing), BootstrapStep::Failed);
}

#[test]
fn what_became_of_a_transaction() {
    assert_eq!(submission_of(TxOutcome::Included), Submission::Accepted);
    assert_eq!(submission_of(TxOutcome::Reverted), Submission::Accepted);
    assert_eq!(submission_of(TxOutcome::NoReceipt), Submission::Recoverable);
    assert_eq!(submission_of(TxOutcome::ProviderFailed("timeout".to_string())), Submission::Recoverable);
    assert_eq!(submission_of(TxOutcome::SendFailed), Submission::Fatal);
    assert_eq!(tx_error(TxOutcome::NoReceipt), Some(TxSubmitError::NoTxReceipt));
    assert_eq!(
        tx_error(TxOutcome::ProviderFailed("timeout".to_string())),
        Some(TxSubmitError::Provider("timeout".to_string()))
    );
    assert_eq!(tx_error(TxOutcome::Included), None);
    assert_eq!(tx_error(TxOutcome::SendFailed), None);
    assert!(TxSubmitError::NoTxReceipt.is_recoverable());
    assert!(TxSubmitError::Contract("reverted".to_string()).is_recoverable());
    assert!(registration_done(&TxOutcome::Included));
    assert!(registration_done(&TxOutcome::Reverted));
    assert!(!registration_done(&TxOutcome::NoReceipt));
    assert!(!registration_done(&TxOutcome::SendFailed));
    let create = Msg::CreateClient(MsgCreateClient {
        config: ClientConfig::Evm(EvmConfig { client_type: "cometbls".to_string(), client_address: [1; 20] }),
        client_state: vec![],
        consensus_state: vec![],
    });
    assert!(registers_client_type(&create));
    assert!(!registers_client_type(&Msg::UpdateClient(MsgUpdateClient {
        client_id: "c".to_string(),
        client_message: ClientMessage::Encoded(vec![]),
        update_from: slot(0),
    })));
}

#[test]
fn proofs_and_states_are_asked_of_the_execution_layer() {
    let path = || Path::Connection { connection_id: "connection-0".to_string() };
    assert_eq!(
        get_proof(EVM, evm(), slot(9), path()),
        evm_fetch(EvmFetchMsg::FetchGetProof(GetProof { path: path(), height: slot(9) }))
    );
    assert_eq!(
        get_state(EVM, evm(), slot(9), path()),
        evm_fetch(EvmFetchMsg::FetchIbcState(FetchIbcState { path: path(), height: slot(9) }))
    );
}
