//! Building headers for a client that tracks a beacon chain.
//!
//! Such a client trusts a slot, and with it the sync committee of the period
//! that holds the slot. It can follow the chain within that period and into
//! the next one, but not further. So a client that is several periods behind
//! is given one header per period boundary crossed, each verified against the
//! committee that the one before has made known, and then the header of the
//! latest finalized block.

use crate::aggregate::{
    Aggregate, AggregateView, CreateUpdateData, CreateUpdateDataView, EvmAggregateMsg,
    EvmAggregateMsgView, MakeCreateUpdatesData, MakeCreateUpdatesDataView,
    MakeCreateUpdatesFromLightClientUpdatesData, MakeCreateUpdatesFromLightClientUpdatesDataView,
};
use crate::data::{
    AccountUpdateData, AccountUpdateDataView, BeaconFinalityUpdate, BeaconFinalityUpdateView,
    BeaconGenesisData, BeaconGenesisDataView, BeaconLightClientUpdate, BeaconLightClientUpdateView,
    FinalityUpdate, FinalityUpdateView, LightClientUpdate, LightClientUpdateView,
    LightClientUpdates, LightClientUpdatesView,
};
use crate::fetch::{
    EvmFetchMsg, EvmFetchMsgView, Fetch, FetchAccountUpdate, FetchAccountUpdateView,
    FetchBeaconGenesis, FetchBeaconGenesisView, FetchIbcState, FetchIbcStateView,
    FetchLightClientUpdate, FetchLightClientUpdates, FetchLightClientUpdatesView,
    FetchLightClientUpdateView, FetchUpdateHeaders, FetchUpdateHeadersView, FetchView, GetProof,
    GetProofView,
};
use crate::identified::{tag, Identified, IdentifiedView};
use crate::ids::{ChainId, ChainIdView, Height, HostChain, LightClientKind, Path, Preset};
use crate::msg::{
    ActiveSyncCommittee, ActiveSyncCommitteeView, ClientMessage, ClientMessageView,
    EthereumHeader, EthereumHeaderView, Msg, MsgUpdateClient, MsgUpdateClientView, MsgView,
};
use crate::relayer_msg::{
    data_views, msgs1, msgs2, msgs3, views, AggregateData, AggregateDataView, AggregateReceiver,
    AggregateReceiverView, RelayerMsg, RelayerMsgView,
};
use crate::schema::{kind_of, kinds_needed, AggregateError, DataKind};
use crate::wait::{Wait, WaitView};
use vstd::prelude::*;

verus! {

/// The revision of every height on a chain with an execution layer.
pub const EVM_REVISION_NUMBER: u64 = 0;

/// `typenum::Unsigned::to_u64` of `typenum::U6`: the number that the type
/// stands for, six.
#[verifier::external_body]
fn u6() -> (n: u64)
    ensures
        n == 6,
{
    <typenum::U6 as typenum::Unsigned>::to_u64()
}

/// `typenum::Unsigned::to_u64` of `typenum::U8`: the number that the type
/// stands for, eight.
#[verifier::external_body]
fn u8_() -> (n: u64)
    ensures
        n == 8,
{
    <typenum::U8 as typenum::Unsigned>::to_u64()
}

/// `typenum::Unsigned::to_u64` of `typenum::U12`: the number that the type
/// stands for, twelve.
#[verifier::external_body]
fn u12() -> (n: u64)
    ensures
        n == 12,
{
    <typenum::U12 as typenum::Unsigned>::to_u64()
}

/// `typenum::Unsigned::to_u64` of `typenum::U32`: the number that the type
/// stands for, thirty-two.
#[verifier::external_body]
fn u32_() -> (n: u64)
    ensures
        n == 32,
{
    <typenum::U32 as typenum::Unsigned>::to_u64()
}

/// `typenum::Unsigned::to_u64` of `typenum::U256`: the number that the type
/// stands for, two hundred and fifty-six.
#[verifier::external_body]
fn u256_() -> (n: u64)
    ensures
        n == 256,
{
    <typenum::U256 as typenum::Unsigned>::to_u64()
}

impl Preset {
    /// The length of a slot, in seconds.
    pub open spec fn spec_seconds_per_slot(self) -> u64 {
        match self {
            Preset::Mainnet => 12,
            Preset::Minimal => 6,
        }
    }

    /// The length of a slot, in seconds.
    #[verifier::when_used_as_spec(spec_seconds_per_slot)]
    pub fn seconds_per_slot(self) -> (seconds: u64)
        ensures
            seconds == self.spec_seconds_per_slot(),
    {
        match self {
            Preset::Mainnet => u12(),
            Preset::Minimal => u6(),
        }
    }

    /// The number of slots in an epoch.
    pub open spec fn spec_slots_per_epoch(self) -> u64 {
        match self {
            Preset::Mainnet => 32,
            Preset::Minimal => 8,
        }
    }

    /// The number of slots in an epoch.
    #[verifier::when_used_as_spec(spec_slots_per_epoch)]
    pub fn slots_per_epoch(self) -> (slots: u64)
        ensures
            slots == self.spec_slots_per_epoch(),
    {
        match self {
            Preset::Mainnet => u32_(),
            Preset::Minimal => u8_(),
        }
    }

    /// The number of epochs for which one sync committee signs.
    pub open spec fn spec_epochs_per_sync_committee_period(self) -> u64 {
        match self {
            Preset::Mainnet => 256,
            Preset::Minimal => 8,
        }
    }

    /// The number of epochs for which one sync committee signs.
    #[verifier::when_used_as_spec(spec_epochs_per_sync_committee_period)]
    pub fn epochs_per_sync_committee_period(self) -> (epochs: u64)
        ensures
            epochs == self.spec_epochs_per_sync_committee_period(),
    {
        match self {
            Preset::Mainnet => u256_(),
            Preset::Minimal => u8_(),
        }
    }

    /// The number of slots for which one sync committee signs.
    pub open spec fn spec_period(self) -> u64 {
        (self.slots_per_epoch() * self.epochs_per_sync_committee_period()) as u64
    }

    /// The number of slots for which one sync committee signs.
    #[verifier::when_used_as_spec(spec_period)]
    pub fn period(self) -> (slots: u64)
        ensures
            slots == self.spec_period(),
            slots > 0,
    {
        self.slots_per_epoch() * self.epochs_per_sync_committee_period()
    }
}

/// The sync committee period that holds slot `slot`.
pub open spec fn spec_sync_committee_period(slot: u64, preset: Preset) -> u64 {
    slot / preset.period()
}

/// The sync committee period that holds slot `slot`.
pub fn sync_committee_period(slot: u64, preset: Preset) -> (period: u64)
    ensures
        period == spec_sync_committee_period(slot, preset),
{
    slot / preset.period()
}

/// The period whose light client update makes known the committee that signs
/// in the period of `slot`: the one before, or the first if there is none
/// before.
pub open spec fn committee_source_period(slot: u64, preset: Preset) -> u64 {
    let period = spec_sync_committee_period(slot, preset);
    if period >= 1 {
        (period - 1) as u64
    } else {
        0
    }
}

/// A fetch that only a chain with a beacon layer can answer.
pub open spec fn evm_fetch(
    light_client: LightClientKind,
    chain_id: ChainIdView,
    fetch: EvmFetchMsgView,
) -> RelayerMsgView {
    RelayerMsgView::fetch(light_client, chain_id, FetchView::LightClientSpecific(fetch))
}

/// A join point of header building.
pub open spec fn evm_receiver(
    light_client: LightClientKind,
    chain_id: ChainIdView,
    aggregate: EvmAggregateMsgView,
) -> AggregateReceiverView {
    AggregateReceiverView::new(light_client, chain_id, AggregateView::LightClientSpecific(aggregate))
}

/// The plan for one header: fetch the committee to verify against, the
/// account proof of the IBC handler at the attested slot, and the genesis
/// time; then build the header from `light_client_update`.
pub open spec fn spec_make_create_update(
    light_client: LightClientKind,
    chain_id: ChainIdView,
    preset: Preset,
    req: FetchUpdateHeadersView,
    currently_trusted_slot: u64,
    light_client_update: BeaconLightClientUpdateView,
    is_next: bool,
) -> RelayerMsgView {
    RelayerMsgView::aggregate(
        seq![
            evm_fetch(
                light_client,
                chain_id,
                EvmFetchMsgView::FetchLightClientUpdate(
                    FetchLightClientUpdateView {
                        period: committee_source_period(light_client_update.attested_slot, preset),
                    },
                ),
            ),
            evm_fetch(
                light_client,
                chain_id,
                EvmFetchMsgView::FetchAccountUpdate(
                    FetchAccountUpdateView { slot: light_client_update.attested_slot },
                ),
            ),
            evm_fetch(
                light_client,
                chain_id,
                EvmFetchMsgView::FetchBeaconGenesis(FetchBeaconGenesisView {  }),
            ),
        ],
        evm_receiver(
            light_client,
            chain_id,
            EvmAggregateMsgView::CreateUpdate(
                CreateUpdateDataView { req, currently_trusted_slot, light_client_update, is_next },
            ),
        ),
    )
}

/// The time at which the block of `signature_slot` is produced, in seconds
/// since the Unix epoch.
pub open spec fn slot_time(genesis_time: u64, signature_slot: u64, preset: Preset) -> int {
    genesis_time + signature_slot * preset.seconds_per_slot()
}

/// Build one header and hand it to the counterparty.
///
/// The header cannot be verified before its signature slot has passed on the
/// counterparty's clock. So the successor is a sequence: wait until the
/// counterparty's time has reached the time of the signature slot, then
/// submit the update.
pub open spec fn spec_create_update(
    light_client: LightClientKind,
    chain_id: ChainIdView,
    preset: Preset,
    receiver: CreateUpdateDataView,
    committee_update: IdentifiedView<LightClientUpdateView>,
    account_update: IdentifiedView<AccountUpdateDataView>,
    genesis: IdentifiedView<BeaconGenesisDataView>,
) -> Result<RelayerMsgView, AggregateError> {
    let time = slot_time(
        genesis.data.genesis_time,
        receiver.light_client_update.signature_slot,
        preset,
    );
    if committee_update.chain_id != chain_id || account_update.chain_id != chain_id
        || genesis.chain_id != chain_id {
        Err(AggregateError::ChainIdMismatch)
    } else if committee_update.data.update.next_sync_committee is None {
        Err(AggregateError::MissingSyncCommittee)
    } else if time > i64::MAX {
        Err(AggregateError::TimestampOverflow)
    } else {
        let committee = committee_update.data.update.next_sync_committee->Some_0;
        let trusted_height = Height {
            revision_number: EVM_REVISION_NUMBER,
            revision_height: receiver.currently_trusted_slot,
        };
        let header = EthereumHeaderView {
            consensus_update: receiver.light_client_update,
            trusted_height,
            sync_committee: if receiver.is_next {
                ActiveSyncCommitteeView::Next(committee)
            } else {
                ActiveSyncCommitteeView::Current(committee)
            },
            contract_address: account_update.data.ibc_handler_address,
            storage_root: account_update.data.update.storage_hash,
            account_proof: account_update.data.update.account_proof,
        };
        Ok(
            RelayerMsgView::Sequence(
                seq![
                    RelayerMsgView::wait(
                        light_client.counterparty(),
                        receiver.req.counterparty_chain_id,
                        WaitView::Timestamp(time as i64),
                    ),
                    RelayerMsgView::msg(
                        light_client.counterparty(),
                        receiver.req.counterparty_chain_id,
                        MsgView::UpdateClient(
                            MsgUpdateClientView {
                                client_id: receiver.req.counterparty_client_id,
                                client_message: ClientMessageView::Ethereum(header),
                                update_from: trusted_height,
                            },
                        ),
                    ),
                ],
            ),
        )
    }
}

/// The first step of building headers: the latest finality update says which
/// period the chain is in. The light client updates of the periods from the
/// trusted one up to that one are fetched next.
pub open spec fn spec_make_create_updates(
    light_client: LightClientKind,
    chain_id: ChainIdView,
    preset: Preset,
    receiver: MakeCreateUpdatesDataView,
    finality: IdentifiedView<FinalityUpdateView>,
) -> Result<RelayerMsgView, AggregateError> {
    let req = receiver.req;
    let target_period = spec_sync_committee_period(
        finality.data.finality_update.attested_slot,
        preset,
    );
    let trusted_period = spec_sync_committee_period(req.update_from.revision_height, preset);
    if finality.chain_id != chain_id {
        Err(AggregateError::ChainIdMismatch)
    } else if trusted_period > target_period {
        Err(AggregateError::TrustedPeriodAhead)
    } else {
        Ok(
            RelayerMsgView::aggregate(
                seq![
                    evm_fetch(
                        light_client,
                        chain_id,
                        EvmFetchMsgView::FetchLightClientUpdates(
                            FetchLightClientUpdatesView { trusted_period, target_period },
                        ),
                    ),
                ],
                evm_receiver(
                    light_client,
                    chain_id,
                    EvmAggregateMsgView::MakeCreateUpdatesFromLightClientUpdates(
                        MakeCreateUpdatesFromLightClientUpdatesDataView {
                            req,
                            trusted_height: req.update_from,
                            finality_update: finality.data.finality_update,
                        },
                    ),
                ),
            ),
        )
    }
}

/// A finality update as a light client update: one that makes no sync
/// committee known.
pub open spec fn finality_as_update(finality: BeaconFinalityUpdateView) -> BeaconLightClientUpdateView {
    BeaconLightClientUpdateView {
        attested_slot: finality.attested_slot,
        attested_header: finality.attested_header,
        next_sync_committee: None,
        next_sync_committee_branch: None,
        finalized_header: finality.finalized_header,
        finality_branch: finality.finality_branch,
        sync_aggregate: finality.sync_aggregate,
        signature_slot: finality.signature_slot,
    }
}

/// The slot that the client trusts when the update at position `i` is applied:
/// the slot trusted at the start for the first update, and for every other
/// the slot that the update before it attests.
pub open spec fn trusted_slot_before(
    trusted_slot: u64,
    updates: Seq<BeaconLightClientUpdateView>,
    i: int,
) -> u64 {
    if i <= 0 {
        trusted_slot
    } else {
        updates[i - 1].attested_slot
    }
}

/// One plan per light client update, each to be verified against the next
/// sync committee of the slot trusted before it.
pub open spec fn committee_update_plans(
    light_client: LightClientKind,
    chain_id: ChainIdView,
    preset: Preset,
    req: FetchUpdateHeadersView,
    trusted_slot: u64,
    updates: Seq<BeaconLightClientUpdateView>,
) -> Seq<RelayerMsgView> {
    Seq::new(
        updates.len(),
        |i: int|
            spec_make_create_update(
                light_client,
                chain_id,
                preset,
                req,
                trusted_slot_before(trusted_slot, updates, i),
                updates[i],
                true,
            ),
    )
}

/// The second step of building headers: the plans for all the headers, in the
/// order in which they are to be submitted.
///
/// If the finalized chain is in a later period than the trusted slot, there is
/// one plan for each light client update. If the slot that the client will
/// trust after those is still short of `update_to`, the plan for the finality
/// update follows.
pub open spec fn spec_make_create_updates_from_light_client_updates(
    light_client: LightClientKind,
    chain_id: ChainIdView,
    preset: Preset,
    receiver: MakeCreateUpdatesFromLightClientUpdatesDataView,
    updates: IdentifiedView<LightClientUpdatesView>,
) -> Result<RelayerMsgView, AggregateError> {
    let req = receiver.req;
    let all = updates.data.light_client_updates;
    let target_period = spec_sync_committee_period(receiver.finality_update.signature_slot, preset);
    let trusted_period = spec_sync_committee_period(req.update_from.revision_height, preset);
    let last_trusted_slot = trusted_slot_before(
        receiver.trusted_height.revision_height,
        all,
        all.len() as int,
    );
    let committee_updates = if trusted_period < target_period {
        committee_update_plans(
            light_client,
            chain_id,
            preset,
            req,
            receiver.trusted_height.revision_height,
            all,
        )
    } else {
        Seq::empty()
    };
    let finality_update = if last_trusted_slot >= req.update_to.revision_height {
        Seq::empty()
    } else {
        seq![
            spec_make_create_update(
                light_client,
                chain_id,
                preset,
                req,
                last_trusted_slot,
                finality_as_update(receiver.finality_update),
                false,
            ),
        ]
    };
    if updates.chain_id != chain_id {
        Err(AggregateError::ChainIdMismatch)
    } else {
        Ok(RelayerMsgView::Sequence(committee_updates + finality_update))
    }
}

/// What a join point of header building builds from `items`, the payloads
/// picked for it. Only a light client that lives on a chain with a beacon
/// layer can build such headers.
pub open spec fn spec_evm_aggregate(
    light_client: LightClientKind,
    chain_id: ChainIdView,
    aggregate: EvmAggregateMsgView,
    items: Seq<AggregateDataView>,
) -> Result<RelayerMsgView, AggregateError> {
    match light_client.host() {
        HostChain::Union => Err(AggregateError::NotEvm),
        HostChain::Evm(preset) => match aggregate {
            EvmAggregateMsgView::CreateUpdate(r) => spec_create_update(
                light_client,
                chain_id,
                preset,
                r,
                tag(items[0], items[0].data->LightClientSpecific_0->LightClientUpdate_0),
                tag(items[1], items[1].data->LightClientSpecific_0->AccountUpdate_0),
                tag(items[2], items[2].data->LightClientSpecific_0->BeaconGenesis_0),
            ),
            EvmAggregateMsgView::MakeCreateUpdates(r) => spec_make_create_updates(
                light_client,
                chain_id,
                preset,
                r,
                tag(items[0], items[0].data->LightClientSpecific_0->FinalityUpdate_0),
            ),
            EvmAggregateMsgView::MakeCreateUpdatesFromLightClientUpdates(r) => {
                spec_make_create_updates_from_light_client_updates(
                    light_client,
                    chain_id,
                    preset,
                    r,
                    tag(items[0], items[0].data->LightClientSpecific_0->LightClientUpdates_0),
                )
            },
        },
    }
}

/// The headers that bring the counterparty's client from `update_from` to
/// `update_to`, as a plan: learn how far the beacon chain has finalized, then
/// go on with [`EvmAggregateMsg::MakeCreateUpdates`].
pub open spec fn spec_fetch_update_headers(
    light_client: LightClientKind,
    chain_id: ChainIdView,
    update_info: FetchUpdateHeadersView,
) -> RelayerMsgView {
    RelayerMsgView::aggregate(
        seq![
            RelayerMsgView::Sequence(
                seq![evm_fetch(light_client, chain_id, EvmFetchMsgView::FetchFinalityUpdate)],
            ),
        ],
        evm_receiver(
            light_client,
            chain_id,
            EvmAggregateMsgView::MakeCreateUpdates(MakeCreateUpdatesDataView { req: update_info }),
        ),
    )
}

fn mk_evm_fetch(light_client: LightClientKind, chain_id: ChainId, fetch: EvmFetchMsg) -> (msg:
    RelayerMsg)
    ensures
        msg@ == evm_fetch(light_client, chain_id@, fetch@),
{
    RelayerMsg::fetch(light_client, chain_id, Fetch::LightClientSpecific(fetch))
}

fn mk_evm_receiver(light_client: LightClientKind, chain_id: ChainId, aggregate: EvmAggregateMsg) -> (receiver:
    AggregateReceiver)
    ensures
        receiver@ == evm_receiver(light_client, chain_id@, aggregate@),
{
    AggregateReceiver::new(light_client, chain_id, Aggregate::LightClientSpecific(aggregate))
}

/// The message that asks the execution node for the storage proof of the
/// commitment stored under `path`, at height `at`.
pub fn get_proof(light_client: LightClientKind, chain_id: ChainId, at: Height, path: Path) -> (msg:
    RelayerMsg)
    ensures
        msg@ == evm_fetch(
            light_client,
            chain_id@,
            EvmFetchMsgView::FetchGetProof(GetProofView { path: path@, height: at }),
        ),
{
    mk_evm_fetch(light_client, chain_id, EvmFetchMsg::FetchGetProof(GetProof { path, height: at }))
}

/// The message that asks the IBC handler for the value stored under `path`, at
/// height `at`.
pub fn get_state(light_client: LightClientKind, chain_id: ChainId, at: Height, path: Path) -> (msg:
    RelayerMsg)
    ensures
        msg@ == evm_fetch(
            light_client,
            chain_id@,
            EvmFetchMsgView::FetchIbcState(FetchIbcStateView { path: path@, height: at }),
        ),
{
    mk_evm_fetch(
        light_client,
        chain_id,
        EvmFetchMsg::FetchIbcState(FetchIbcState { path, height: at }),
    )
}

/// The headers that bring the counterparty's client from `update_from` to
/// `update_to`, as a plan.
pub fn fetch_update_headers(
    light_client: LightClientKind,
    chain_id: ChainId,
    update_info: FetchUpdateHeaders,
) -> (plan: RelayerMsg)
    ensures
        plan@ == spec_fetch_update_headers(light_client, chain_id@, update_info@),
{
    let fetch = mk_evm_fetch(light_client, chain_id.clone(), EvmFetchMsg::FetchFinalityUpdate);
    let first = RelayerMsg::seq(msgs1(fetch));
    RelayerMsg::aggregate(
        msgs1(first),
        mk_evm_receiver(
            light_client,
            chain_id,
            EvmAggregateMsg::MakeCreateUpdates(MakeCreateUpdatesData { req: update_info }),
        ),
    )
}

/// The plan for one header.
pub fn make_create_update(
    light_client: LightClientKind,
    chain_id: ChainId,
    preset: Preset,
    req: FetchUpdateHeaders,
    currently_trusted_slot: u64,
    light_client_update: BeaconLightClientUpdate,
    is_next: bool,
) -> (plan: RelayerMsg)
    ensures
        plan@ == spec_make_create_update(
            light_client,
            chain_id@,
            preset,
            req@,
            currently_trusted_slot,
            light_client_update@,
            is_next,
        ),
{
    let slot = light_client_update.attested_slot;
    let period = sync_committee_period(slot, preset);
    let previous_period = if period >= 1 {
        period - 1
    } else {
        0
    };
    let committee = mk_evm_fetch(
        light_client,
        chain_id.clone(),
        EvmFetchMsg::FetchLightClientUpdate(FetchLightClientUpdate { period: previous_period }),
    );
    let account = mk_evm_fetch(
        light_client,
        chain_id.clone(),
        EvmFetchMsg::FetchAccountUpdate(FetchAccountUpdate { slot }),
    );
    let genesis = mk_evm_fetch(
        light_client,
        chain_id.clone(),
        EvmFetchMsg::FetchBeaconGenesis(FetchBeaconGenesis {  }),
    );
    RelayerMsg::aggregate(
        msgs3(committee, account, genesis),
        mk_evm_receiver(
            light_client,
            chain_id,
            EvmAggregateMsg::CreateUpdate(
                CreateUpdateData { req, currently_trusted_slot, light_client_update, is_next },
            ),
        ),
    )
}

fn create_update(
    light_client: LightClientKind,
    chain_id: ChainId,
    preset: Preset,
    receiver: CreateUpdateData,
    committee_update: Identified<LightClientUpdate>,
    account_update: Identified<AccountUpdateData>,
    genesis: Identified<BeaconGenesisData>,
) -> (outcome: Result<RelayerMsg, AggregateError>)
    ensures
        crate::aggregation::outcome_view(outcome) == spec_create_update(
            light_client,
            chain_id@,
            preset,
            receiver@,
            committee_update@,
            account_update@,
            genesis@,
        ),
{
    if !committee_update.chain_id.same(&chain_id) || !account_update.chain_id.same(&chain_id)
        || !genesis.chain_id.same(&chain_id) {
        return Err(AggregateError::ChainIdMismatch);
    }
    let committee = match committee_update.data.update.next_sync_committee {
        Some(committee) => committee,
        None => {
            return Err(AggregateError::MissingSyncCommittee);
        },
    };
    let signature_slot = receiver.light_client_update.signature_slot;
    let seconds_per_slot = preset.seconds_per_slot();
    assert(signature_slot * seconds_per_slot <= u64::MAX * 12) by (nonlinear_arith)
        requires
            0 <= signature_slot <= u64::MAX,
            0 <= seconds_per_slot <= 12,
    ;
    let since_genesis: u128 = signature_slot as u128 * seconds_per_slot as u128;
    let time: u128 = genesis.data.genesis_time as u128 + since_genesis;
    if time > i64::MAX as u128 {
        return Err(AggregateError::TimestampOverflow);
    }
    let trusted_height = Height {
        revision_number: EVM_REVISION_NUMBER,
        revision_height: receiver.currently_trusted_slot,
    };
    let header = EthereumHeader {
        consensus_update: receiver.light_client_update,
        trusted_height,
        sync_committee: if receiver.is_next {
            ActiveSyncCommittee::Next(committee)
        } else {
            ActiveSyncCommittee::Current(committee)
        },
        contract_address: account_update.data.ibc_handler_address,
        storage_root: account_update.data.update.storage_hash,
        account_proof: account_update.data.update.account_proof,
    };
    let counterparty = light_client.counterparty();
    let wait = RelayerMsg::wait(
        counterparty,
        receiver.req.counterparty_chain_id.clone(),
        Wait::Timestamp(time as i64),
    );
    let update = RelayerMsg::msg(
        counterparty,
        receiver.req.counterparty_chain_id,
        Msg::UpdateClient(
            MsgUpdateClient {
                client_id: receiver.req.counterparty_client_id,
                client_message: ClientMessage::Ethereum(header),
                update_from: trusted_height,
            },
        ),
    );
    Ok(RelayerMsg::seq(msgs2(wait, update)))
}

fn make_create_updates(
    light_client: LightClientKind,
    chain_id: ChainId,
    preset: Preset,
    receiver: MakeCreateUpdatesData,
    finality: Identified<FinalityUpdate>,
) -> (outcome: Result<RelayerMsg, AggregateError>)
    ensures
        crate::aggregation::outcome_view(outcome) == spec_make_create_updates(
            light_client,
            chain_id@,
            preset,
            receiver@,
            finality@,
        ),
{
    if !finality.chain_id.same(&chain_id) {
        return Err(AggregateError::ChainIdMismatch);
    }
    let req = receiver.req;
    let target_period = sync_committee_period(finality.data.finality_update.attested_slot, preset);
    let trusted_period = sync_committee_period(req.update_from.revision_height, preset);
    if trusted_period > target_period {
        return Err(AggregateError::TrustedPeriodAhead);
    }
    let fetch = mk_evm_fetch(
        light_client,
        chain_id.clone(),
        EvmFetchMsg::FetchLightClientUpdates(FetchLightClientUpdates { trusted_period, target_period }),
    );
    let trusted_height = req.update_from;
    Ok(
        RelayerMsg::aggregate(
            msgs1(fetch),
            mk_evm_receiver(
                light_client,
                chain_id,
                EvmAggregateMsg::MakeCreateUpdatesFromLightClientUpdates(
                    MakeCreateUpdatesFromLightClientUpdatesData {
                        req,
                        trusted_height,
                        finality_update: finality.data.finality_update,
                    },
                ),
            ),
        ),
    )
}

fn finality_to_update(finality: BeaconFinalityUpdate) -> (update: BeaconLightClientUpdate)
    ensures
        update@ == finality_as_update(finality@),
{
    BeaconLightClientUpdate {
        attested_slot: finality.attested_slot,
        attested_header: finality.attested_header,
        next_sync_committee: None,
        next_sync_committee_branch: None,
        finalized_header: finality.finalized_header,
        finality_branch: finality.finality_branch,
        sync_aggregate: finality.sync_aggregate,
        signature_slot: finality.signature_slot,
    }
}

/// The values of a sequence of light client updates.
pub open spec fn update_views(updates: Seq<BeaconLightClientUpdate>) -> Seq<
    BeaconLightClientUpdateView,
> {
    updates.map_values(|e: BeaconLightClientUpdate| e@)
}

fn make_committee_update_plans(
    light_client: LightClientKind,
    chain_id: &ChainId,
    preset: Preset,
    req: &FetchUpdateHeaders,
    trusted_slot: u64,
    updates: Vec<BeaconLightClientUpdate>,
) -> (plans: Vec<RelayerMsg>)
    ensures
        views(plans@) == committee_update_plans(
            light_client,
            chain_id@,
            preset,
            req@,
            trusted_slot,
            update_views(updates@),
        ),
{
    let ghost all = update_views(updates@);
    let ghost n = all.len() as int;
    let ghost wanted = committee_update_plans(light_client, chain_id@, preset, req@, trusted_slot, all);
    let mut rest = updates;
    let mut plans: Vec<RelayerMsg> = Vec::new();
    assert(views(plans@) =~= wanted.subrange(n, n));
    while rest.len() > 0
        invariant
            n == all.len(),
            rest@.len() <= n,
            update_views(rest@) == all.subrange(0, rest@.len() as int),
            views(plans@) == wanted.subrange(rest@.len() as int, n),
            wanted == committee_update_plans(light_client, chain_id@, preset, req@, trusted_slot, all),
        decreases rest@.len(),
    {
        let ghost before = rest@;
        let k = rest.len() - 1;
        let update = rest.pop().unwrap();
        assert(update@ == update_views(before)[k as int]);
        assert(update_views(rest@) =~= all.subrange(0, k as int));
        let slot_before = if k == 0 {
            trusted_slot
        } else {
            assert(rest@[k - 1]@ == update_views(rest@)[k - 1]);
            rest[k - 1].attested_slot
        };
        let plan = make_create_update(
            light_client,
            chain_id.clone(),
            preset,
            req.clone(),
            slot_before,
            update,
            true,
        );
        let ghost old_plans = plans@;
        plans.insert(0, plan);
        assert(views(plans@) =~= seq![plan@] + views(old_plans));
        assert(views(plans@) =~= wanted.subrange(k as int, n));
    }
    assert(wanted.subrange(0, n) =~= wanted);
    plans
}

fn make_create_updates_from_light_client_updates(
    light_client: LightClientKind,
    chain_id: ChainId,
    preset: Preset,
    receiver: MakeCreateUpdatesFromLightClientUpdatesData,
    updates: Identified<LightClientUpdates>,
) -> (outcome: Result<RelayerMsg, AggregateError>)
    ensures
        crate::aggregation::outcome_view(outcome)
            == spec_make_create_updates_from_light_client_updates(
            light_client,
            chain_id@,
            preset,
            receiver@,
            updates@,
        ),
{
    if !updates.chain_id.same(&chain_id) {
        return Err(AggregateError::ChainIdMismatch);
    }
    let req = receiver.req;
    let all = updates.data.light_client_updates;
    let trusted_slot = receiver.trusted_height.revision_height;
    let target_period = sync_committee_period(receiver.finality_update.signature_slot, preset);
    let trusted_period = sync_committee_period(req.update_from.revision_height, preset);
    let last_trusted_slot = if all.len() == 0 {
        trusted_slot
    } else {
        assert(all@[all.len() - 1]@ == update_views(all@)[all.len() - 1]);
        all[all.len() - 1].attested_slot
    };
    let mut plans = if trusted_period < target_period {
        make_committee_update_plans(light_client, &chain_id, preset, &req, trusted_slot, all)
    } else {
        crate::relayer_msg::no_msgs()
    };
    if last_trusted_slot < req.update_to.revision_height {
        let plan = make_create_update(
            light_client,
            chain_id,
            preset,
            req,
            last_trusted_slot,
            finality_to_update(receiver.finality_update),
            false,
        );
        let ghost before = plans@;
        plans.push(plan);
        assert(views(plans@) =~= views(before) + seq![plan@]);
    } else {
        assert(views(plans@) =~= views(plans@) + Seq::<RelayerMsgView>::empty());
    }
    Ok(RelayerMsg::seq(plans))
}

/// What a join point of header building builds from `items`, the payloads
/// picked for it.
pub fn evm_aggregate(
    light_client: LightClientKind,
    chain_id: ChainId,
    aggregate: EvmAggregateMsg,
    items: Vec<AggregateData>,
) -> (outcome: Result<RelayerMsg, AggregateError>)
    requires
        items@.len() == kinds_needed(AggregateView::LightClientSpecific(aggregate@)).len(),
        forall|i: int|
            0 <= i < items@.len() ==> kind_of(#[trigger] items@[i]@.data) == kinds_needed(
                AggregateView::LightClientSpecific(aggregate@),
            )[i],
    ensures
        crate::aggregation::outcome_view(outcome) == spec_evm_aggregate(
            light_client,
            chain_id@,
            aggregate@,
            data_views(items@),
        ),
{
    let preset = match light_client.host() {
        HostChain::Union => {
            return Err(AggregateError::NotEvm);
        },
        HostChain::Evm(preset) => preset,
    };
    let mut items = items;
    let ghost all = items@;
    assert(forall|i: int| 0 <= i < all.len() ==> data_views(all)[i] == all[i]@);
    match aggregate {
        EvmAggregateMsg::CreateUpdate(r) => {
            assert(kind_of(all[0]@.data) == DataKind::LightClientUpdate);
            assert(kind_of(all[1]@.data) == DataKind::AccountUpdate);
            assert(kind_of(all[2]@.data) == DataKind::BeaconGenesis);
            let genesis = items.pop().unwrap().into_beacon_genesis();
            let account = items.pop().unwrap().into_account_update();
            let committee = items.pop().unwrap().into_light_client_update();
            create_update(light_client, chain_id, preset, r, committee, account, genesis)
        },
        EvmAggregateMsg::MakeCreateUpdates(r) => {
            assert(kind_of(all[0]@.data) == DataKind::FinalityUpdate);
            let finality = items.pop().unwrap().into_finality_update();
            make_create_updates(light_client, chain_id, preset, r, finality)
        },
        EvmAggregateMsg::MakeCreateUpdatesFromLightClientUpdates(r) => {
            assert(kind_of(all[0]@.data) == DataKind::LightClientUpdates);
            let updates = items.pop().unwrap().into_light_client_updates();
            make_create_updates_from_light_client_updates(light_client, chain_id, preset, r, updates)
        },
    }
}

} // verus!
