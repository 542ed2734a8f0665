//! Which payloads a join point needs, and how they are picked from what was
//! collected.
//!
//! Payloads are matched by what they are and by the light client they were
//! fetched for, never by position: an aggregation may collect its payloads in
//! any order. Nothing may be missing and nothing may be left over.

use crate::aggregate::{Aggregate, AggregateView, EvmAggregateMsg, EvmAggregateMsgView};
use crate::data::{Data, DataView, EvmDataMsg, EvmDataMsgView};
use crate::ids::LightClientKind;
use crate::relayer_msg::{
    data_views, AggregateData, AggregateDataView, AggregateReceiver, AggregateReceiverView,
};
use vstd::prelude::*;

verus! {

/// Why a join point could not build its message.
#[derive(Clone, Copy, Debug, PartialEq, Eq, Structural)]
pub enum AggregateError {
    /// A payload that the join point needs was not collected.
    MissingData,
    /// A payload was collected that the join point has no use for.
    ExcessData,
    /// A payload was fetched from another chain than the one it is needed of.
    ChainIdMismatch,
    /// A client state belongs to another client than the one asked about.
    ClientIdMismatch,
    /// Two heights that have to be compared are of different revisions.
    RevisionMismatch,
    /// The client state was read before the event it is to prove.
    HeightTooLow,
    /// A proof was taken before the event it is to prove.
    ProofHeightTooLow,
    /// The channel end names no connection.
    NoConnectionHops,
    /// The connection end offers no version.
    NoVersions,
    /// A height or a slot has no successor that fits its type.
    HeightOverflow,
    /// A time does not fit the type it is handed on in.
    TimestampOverflow,
    /// The light client update lacks the sync committee to verify against.
    MissingSyncCommittee,
    /// The client to update is ahead of what the beacon chain has finalized.
    TrustedPeriodAhead,
    /// The join point builds beacon chain headers, for a chain that has none.
    NotEvm,
}

impl AggregateError {
    /// The error, in words.
    pub open spec fn spec_reason(self) -> Seq<char> {
        match self {
            AggregateError::MissingData => "a payload is missing"@,
            AggregateError::ExcessData => "a payload is in excess"@,
            AggregateError::ChainIdMismatch => "a payload comes from another chain"@,
            AggregateError::ClientIdMismatch => "a client state belongs to another client"@,
            AggregateError::RevisionMismatch => "heights of different revisions"@,
            AggregateError::HeightTooLow => "the client state is older than the event"@,
            AggregateError::ProofHeightTooLow => "a proof is older than the event"@,
            AggregateError::NoConnectionHops => "the channel names no connection"@,
            AggregateError::NoVersions => "the connection offers no version"@,
            AggregateError::HeightOverflow => "a height has no successor"@,
            AggregateError::TimestampOverflow => "a time does not fit"@,
            AggregateError::MissingSyncCommittee => "the sync committee is missing"@,
            AggregateError::TrustedPeriodAhead => "the client is ahead of the finalized chain"@,
            AggregateError::NotEvm => "the chain has no beacon layer"@,
        }
    }

    /// The error, in words.
    pub fn reason(self) -> (text: &'static str)
        ensures
            text@ == self.spec_reason(),
    {
        match self {
            AggregateError::MissingData => "a payload is missing",
            AggregateError::ExcessData => "a payload is in excess",
            AggregateError::ChainIdMismatch => "a payload comes from another chain",
            AggregateError::ClientIdMismatch => "a client state belongs to another client",
            AggregateError::RevisionMismatch => "heights of different revisions",
            AggregateError::HeightTooLow => "the client state is older than the event",
            AggregateError::ProofHeightTooLow => "a proof is older than the event",
            AggregateError::NoConnectionHops => "the channel names no connection",
            AggregateError::NoVersions => "the connection offers no version",
            AggregateError::HeightOverflow => "a height has no successor",
            AggregateError::TimestampOverflow => "a time does not fit",
            AggregateError::MissingSyncCommittee => "the sync committee is missing",
            AggregateError::TrustedPeriodAhead => "the client is ahead of the finalized chain",
            AggregateError::NotEvm => "the chain has no beacon layer",
        }
    }
}

/// What a payload is, without what it holds.
#[derive(Clone, Copy, Debug, PartialEq, Eq, Structural)]
pub enum DataKind {
    TrustedClientState,
    SelfClientState,
    SelfConsensusState,
    ClientStateProof,
    ClientConsensusStateProof,
    ConnectionProof,
    ChannelEndProof,
    CommitmentProof,
    AcknowledgementProof,
    ConnectionEnd,
    ChannelEnd,
    PacketAcknowledgement,
    FinalityUpdate,
    LightClientUpdates,
    LightClientUpdate,
    Bootstrap,
    AccountUpdate,
    BeaconGenesis,
}

/// One payload that a join point needs: of this kind, fetched for this light
/// client.
#[derive(Clone, Copy, Debug, PartialEq, Eq, Structural)]
pub struct Requirement {
    pub kind: DataKind,
    pub light_client: LightClientKind,
}

/// What `data` is.
pub open spec fn kind_of(data: DataView) -> DataKind {
    match data {
        DataView::TrustedClientState(_) => DataKind::TrustedClientState,
        DataView::SelfClientState(_) => DataKind::SelfClientState,
        DataView::SelfConsensusState(_) => DataKind::SelfConsensusState,
        DataView::ClientStateProof(_) => DataKind::ClientStateProof,
        DataView::ClientConsensusStateProof(_) => DataKind::ClientConsensusStateProof,
        DataView::ConnectionProof(_) => DataKind::ConnectionProof,
        DataView::ChannelEndProof(_) => DataKind::ChannelEndProof,
        DataView::CommitmentProof(_) => DataKind::CommitmentProof,
        DataView::AcknowledgementProof(_) => DataKind::AcknowledgementProof,
        DataView::ConnectionEnd(_) => DataKind::ConnectionEnd,
        DataView::ChannelEnd(_) => DataKind::ChannelEnd,
        DataView::PacketAcknowledgement(_) => DataKind::PacketAcknowledgement,
        DataView::LightClientSpecific(evm) => match evm {
            EvmDataMsgView::FinalityUpdate(_) => DataKind::FinalityUpdate,
            EvmDataMsgView::LightClientUpdates(_) => DataKind::LightClientUpdates,
            EvmDataMsgView::LightClientUpdate(_) => DataKind::LightClientUpdate,
            EvmDataMsgView::Bootstrap(_) => DataKind::Bootstrap,
            EvmDataMsgView::AccountUpdate(_) => DataKind::AccountUpdate,
            EvmDataMsgView::BeaconGenesis(_) => DataKind::BeaconGenesis,
        },
    }
}

impl Data {
    /// What this payload is.
    pub fn kind(&self) -> (kind: DataKind)
        ensures
            kind == kind_of(self@),
    {
        match self {
            Data::TrustedClientState(_) => DataKind::TrustedClientState,
            Data::SelfClientState(_) => DataKind::SelfClientState,
            Data::SelfConsensusState(_) => DataKind::SelfConsensusState,
            Data::ClientStateProof(_) => DataKind::ClientStateProof,
            Data::ClientConsensusStateProof(_) => DataKind::ClientConsensusStateProof,
            Data::ConnectionProof(_) => DataKind::ConnectionProof,
            Data::ChannelEndProof(_) => DataKind::ChannelEndProof,
            Data::CommitmentProof(_) => DataKind::CommitmentProof,
            Data::AcknowledgementProof(_) => DataKind::AcknowledgementProof,
            Data::ConnectionEnd(_) => DataKind::ConnectionEnd,
            Data::ChannelEnd(_) => DataKind::ChannelEnd,
            Data::PacketAcknowledgement(_) => DataKind::PacketAcknowledgement,
            Data::LightClientSpecific(evm) => match evm {
                EvmDataMsg::FinalityUpdate(_) => DataKind::FinalityUpdate,
                EvmDataMsg::LightClientUpdates(_) => DataKind::LightClientUpdates,
                EvmDataMsg::LightClientUpdate(_) => DataKind::LightClientUpdate,
                EvmDataMsg::Bootstrap(_) => DataKind::Bootstrap,
                EvmDataMsg::AccountUpdate(_) => DataKind::AccountUpdate,
                EvmDataMsg::BeaconGenesis(_) => DataKind::BeaconGenesis,
            },
        }
    }
}

/// The kinds `kinds`, each to be fetched for `light_client`.
pub open spec fn all_for(kinds: Seq<DataKind>, light_client: LightClientKind) -> Seq<Requirement> {
    kinds.map_values(|kind: DataKind| Requirement { kind, light_client })
}

/// The kinds of payload that `aggregate` needs, in the order in which it takes
/// them.
pub open spec fn kinds_needed(aggregate: AggregateView) -> Seq<DataKind> {
    match aggregate {
        AggregateView::ConnectionOpenTry(_) | AggregateView::ConnectionOpenAck(_) => seq![
            DataKind::TrustedClientState,
            DataKind::ClientStateProof,
            DataKind::ClientConsensusStateProof,
            DataKind::ConnectionProof,
        ],
        AggregateView::ConnectionOpenConfirm(_) => seq![
            DataKind::TrustedClientState,
            DataKind::ConnectionProof,
        ],
        AggregateView::ChannelOpenTry(_) => seq![
            DataKind::TrustedClientState,
            DataKind::ChannelEndProof,
            DataKind::ConnectionEnd,
        ],
        AggregateView::ChannelOpenAck(_) | AggregateView::ChannelOpenConfirm(_) => seq![
            DataKind::TrustedClientState,
            DataKind::ChannelEndProof,
        ],
        AggregateView::RecvPacket(_) => seq![DataKind::TrustedClientState, DataKind::CommitmentProof],
        AggregateView::AckPacket(_) => seq![
            DataKind::TrustedClientState,
            DataKind::PacketAcknowledgement,
            DataKind::AcknowledgementProof,
        ],
        AggregateView::CreateClient { .. } => seq![
            DataKind::SelfClientState,
            DataKind::SelfConsensusState,
        ],
        AggregateView::ConnectionFetchFromChannelEnd { .. } => seq![DataKind::ChannelEnd],
        AggregateView::ChannelHandshakeUpdateClient { .. }
        | AggregateView::PacketUpdateClient { .. } => seq![DataKind::ConnectionEnd],
        AggregateView::LightClientSpecific(evm) => match evm {
            EvmAggregateMsgView::CreateUpdate(_) => seq![
                DataKind::LightClientUpdate,
                DataKind::AccountUpdate,
                DataKind::BeaconGenesis,
            ],
            EvmAggregateMsgView::MakeCreateUpdates(_) => seq![DataKind::FinalityUpdate],
            EvmAggregateMsgView::MakeCreateUpdatesFromLightClientUpdates(_) => seq![
                DataKind::LightClientUpdates,
            ],
        },
        AggregateView::UpdateClientFromClientId { .. }
        | AggregateView::UpdateClient { .. }
        | AggregateView::UpdateClientWithCounterpartyChainIdData { .. }
        | AggregateView::ConsensusStateProofAtLatestHeight { .. }
        | AggregateView::AggregateMsgAfterUpdate(_)
        | AggregateView::WaitForTrustedHeight { .. }
        | AggregateView::FetchCounterpartyStateproof { .. } => seq![DataKind::TrustedClientState],
    }
}

/// Whether `aggregate` takes its payloads from the counterparty's side.
///
/// Creating a client takes the two states the counterparty offers of itself,
/// and the last step of a client update takes the counterparty's view of this
/// chain. Every other join point takes what was fetched on its own chain.
pub open spec fn takes_from_counterparty(aggregate: AggregateView) -> bool {
    aggregate is CreateClient || aggregate is UpdateClientWithCounterpartyChainIdData
}

/// The payloads that `receiver` needs, in the order in which it takes them.
pub open spec fn spec_schema(receiver: AggregateReceiverView) -> Seq<Requirement> {
    all_for(
        kinds_needed(receiver.aggregate),
        if takes_from_counterparty(receiver.aggregate) {
            receiver.light_client.counterparty()
        } else {
            receiver.light_client
        },
    )
}

/// Whether `item` meets `need`.
pub open spec fn meets(item: AggregateDataView, need: Requirement) -> bool {
    kind_of(item.data) == need.kind && item.light_client == need.light_client
}

/// The position of the first payload from `from` on that meets `need`, or the
/// length of `data` if there is none.
pub open spec fn first_meeting(data: Seq<AggregateDataView>, need: Requirement, from: int) -> int
    decreases data.len() - from,
{
    if from < 0 || from >= data.len() {
        data.len() as int
    } else if meets(data[from], need) {
        from
    } else {
        first_meeting(data, need, from + 1)
    }
}

/// The payloads that meet `needs`, one for each need and in the order of the
/// needs.
///
/// For each need in turn the first payload that meets it is taken out of
/// `data`. It is an error if there is none, and an error if a payload is left
/// when every need is met.
pub open spec fn spec_pick(data: Seq<AggregateDataView>, needs: Seq<Requirement>) -> Result<
    Seq<AggregateDataView>,
    AggregateError,
>
    decreases needs.len(),
{
    if needs.len() == 0 {
        if data.len() == 0 {
            Ok(Seq::empty())
        } else {
            Err(AggregateError::ExcessData)
        }
    } else {
        let at = first_meeting(data, needs[0], 0);
        if at == data.len() {
            Err(AggregateError::MissingData)
        } else {
            match spec_pick(data.remove(at), needs.drop_first()) {
                Ok(rest) => Ok(seq![data[at]] + rest),
                Err(e) => Err(e),
            }
        }
    }
}

/// What is found where [`first_meeting`] points.
pub proof fn lemma_first_meeting(data: Seq<AggregateDataView>, need: Requirement, from: int)
    requires
        0 <= from <= data.len(),
    ensures
        from <= first_meeting(data, need, from) <= data.len(),
        first_meeting(data, need, from) < data.len() ==> meets(
            data[first_meeting(data, need, from)],
            need,
        ),
        forall|i: int| from <= i < first_meeting(data, need, from) ==> !meets(#[trigger] data[i], need),
    decreases data.len() - from,
{
    if from < data.len() && !meets(data[from], need) {
        lemma_first_meeting(data, need, from + 1);
    }
}

/// What [`spec_pick`] hands over is one payload for each need, meeting it.
pub proof fn lemma_pick_meets(data: Seq<AggregateDataView>, needs: Seq<Requirement>)
    ensures
        match spec_pick(data, needs) {
            Ok(picked) => picked.len() == needs.len() && data.len() == needs.len() && forall|i: int|
                0 <= i < needs.len() ==> meets(#[trigger] picked[i], needs[i]),
            Err(_) => true,
        },
    decreases needs.len(),
{
    if needs.len() > 0 {
        let at = first_meeting(data, needs[0], 0);
        lemma_first_meeting(data, needs[0], 0);
        if at < data.len() {
            lemma_pick_meets(data.remove(at), needs.drop_first());
            match spec_pick(data.remove(at), needs.drop_first()) {
                Ok(rest) => {
                    let picked = seq![data[at]] + rest;
                    assert forall|i: int| 0 <= i < needs.len() implies meets(
                        #[trigger] picked[i],
                        needs[i],
                    ) by {
                        if i > 0 {
                            assert(picked[i] == rest[i - 1]);
                            assert(needs[i] == needs.drop_first()[i - 1]);
                        }
                    }
                },
                Err(_) => {},
            }
        }
    }
}

/// Payloads that stand in the order of the needs they meet are picked as they
/// stand.
pub proof fn lemma_pick_in_order(data: Seq<AggregateDataView>, needs: Seq<Requirement>)
    requires
        data.len() == needs.len(),
        forall|i: int| 0 <= i < data.len() ==> meets(#[trigger] data[i], needs[i]),
    ensures
        spec_pick(data, needs) == Ok::<Seq<AggregateDataView>, AggregateError>(data),
    decreases needs.len(),
{
    if needs.len() > 0 {
        assert(meets(data[0], needs[0]));
        assert(first_meeting(data, needs[0], 0) == 0);
        assert(data.remove(0) =~= data.drop_first());
        assert forall|i: int| 0 <= i < data.drop_first().len() implies meets(
            #[trigger] data.drop_first()[i],
            needs.drop_first()[i],
        ) by {
            assert(data.drop_first()[i] == data[i + 1]);
        }
        lemma_pick_in_order(data.drop_first(), needs.drop_first());
        assert(seq![data[0]] + data.drop_first() =~= data);
    } else {
        assert(data =~= Seq::empty());
    }
}

/// Whether no need is named twice.
pub open spec fn distinct(needs: Seq<Requirement>) -> bool {
    forall|i: int, j: int| 0 <= i < j < needs.len() ==> needs[i] != needs[j]
}

/// Whether some payload of `data` meets `need`.
pub open spec fn met(data: Seq<AggregateDataView>, need: Requirement) -> bool {
    exists|j: int| 0 <= j < data.len() && meets(#[trigger] data[j], need)
}

/// What is picked is what was there: the payloads handed over are the payloads
/// of `data`, each as often as it stands there.
pub proof fn lemma_pick_permutes(data: Seq<AggregateDataView>, needs: Seq<Requirement>)
    ensures
        spec_pick(data, needs) matches Ok(picked) ==> picked.to_multiset() == data.to_multiset(),
    decreases needs.len(),
{
    broadcast use vstd::multiset::group_multiset_axioms;

    if needs.len() == 0 {
        if data.len() == 0 {
            assert(data =~= Seq::empty());
        }
    } else {
        let at = first_meeting(data, needs[0], 0);
        lemma_first_meeting(data, needs[0], 0);
        if at < data.len() {
            lemma_pick_permutes(data.remove(at), needs.drop_first());
            match spec_pick(data.remove(at), needs.drop_first()) {
                Ok(rest) => {
                    let picked = seq![data[at]] + rest;
                    assert(picked =~= rest.insert(0, data[at]));
                    vstd::seq_lib::to_multiset_insert(rest, 0, data[at]);
                    vstd::seq_lib::to_multiset_remove(data, at);
                    vstd::seq_lib::to_multiset_contains(data, data[at]);
                    assert(data.contains(data[at]));
                    assert(data.to_multiset().remove(data[at]).insert(data[at])
                        =~= data.to_multiset());
                },
                Err(_) => {},
            }
        }
    }
}

/// Whether a need is met does not depend on where the payloads stand.
pub proof fn lemma_met_anywhere(
    a: Seq<AggregateDataView>,
    b: Seq<AggregateDataView>,
    need: Requirement,
)
    requires
        a.to_multiset() == b.to_multiset(),
    ensures
        met(a, need) == met(b, need),
{
    if met(a, need) {
        let j = choose|j: int| 0 <= j < a.len() && meets(#[trigger] a[j], need);
        vstd::seq_lib::to_multiset_contains(a, a[j]);
        vstd::seq_lib::to_multiset_contains(b, a[j]);
        assert(a.contains(a[j]));
        let k = choose|k: int| 0 <= k < b.len() && b[k] == a[j];
        assert(meets(b[k], need));
    }
    if met(b, need) {
        let j = choose|j: int| 0 <= j < b.len() && meets(#[trigger] b[j], need);
        vstd::seq_lib::to_multiset_contains(b, b[j]);
        vstd::seq_lib::to_multiset_contains(a, b[j]);
        assert(b.contains(b[j]));
        let k = choose|k: int| 0 <= k < a.len() && a[k] == b[j];
        assert(meets(a[k], need));
    }
}

/// Picking fails for want of a payload exactly if some need is met by none.
pub proof fn lemma_missing_iff_unmet(data: Seq<AggregateDataView>, needs: Seq<Requirement>)
    requires
        distinct(needs),
    ensures
        spec_pick(data, needs) == Err::<Seq<AggregateDataView>, AggregateError>(
            AggregateError::MissingData,
        ) <==> exists|i: int| 0 <= i < needs.len() && !met(data, #[trigger] needs[i]),
        spec_pick(data, needs) is Err ==> spec_pick(data, needs)->Err_0
            == AggregateError::MissingData || spec_pick(data, needs)->Err_0
            == AggregateError::ExcessData,
    decreases needs.len(),
{
    if needs.len() > 0 {
        let need = needs[0];
        let rest = needs.drop_first();
        let at = first_meeting(data, need, 0);
        lemma_first_meeting(data, need, 0);
        if at == data.len() {
            assert(!met(data, needs[0]));
        } else {
            let left = data.remove(at);
            assert(distinct(rest)) by {
                assert forall|i: int, j: int| 0 <= i < j < rest.len() implies rest[i] != rest[j] by {
                    assert(rest[i] == needs[i + 1] && rest[j] == needs[j + 1]);
                }
            }
            lemma_missing_iff_unmet(left, rest);
            assert(met(data, need));
            // Taking out the payload that meets the first need changes nothing
            // for the other needs: it meets none of them.
            assert forall|i: int| 1 <= i < needs.len() implies met(data, needs[i]) == met(
                left,
                needs[i],
            ) by {
                assert(needs[0] != needs[i]);
                if met(data, needs[i]) {
                    let j = choose|j: int| 0 <= j < data.len() && meets(#[trigger] data[j], needs[i]);
                    assert(j != at);
                    if j < at {
                        assert(left[j] == data[j]);
                    } else {
                        assert(left[j - 1] == data[j]);
                    }
                }
                if met(left, needs[i]) {
                    let j = choose|j: int| 0 <= j < left.len() && meets(#[trigger] left[j], needs[i]);
                    if j < at {
                        assert(left[j] == data[j]);
                    } else {
                        assert(left[j] == data[j + 1]);
                    }
                }
            }
            if exists|i: int| 0 <= i < rest.len() && !met(left, #[trigger] rest[i]) {
                let i = choose|i: int| 0 <= i < rest.len() && !met(left, #[trigger] rest[i]);
                assert(rest[i] == needs[i + 1]);
                assert(!met(data, needs[i + 1]));
            }
            if exists|i: int| 0 <= i < needs.len() && !met(data, #[trigger] needs[i]) {
                let i = choose|i: int| 0 <= i < needs.len() && !met(data, #[trigger] needs[i]);
                assert(i >= 1);
                assert(rest[i - 1] == needs[i]);
                assert(!met(left, rest[i - 1]));
            }
        }
    }
}

/// Where picking succeeds, it hands over the same payloads wherever they
/// stand.
pub proof fn lemma_pick_anywhere_ok(
    a: Seq<AggregateDataView>,
    b: Seq<AggregateDataView>,
    needs: Seq<Requirement>,
)
    requires
        a.to_multiset() == b.to_multiset(),
        distinct(needs),
        spec_pick(a, needs) is Ok,
    ensures
        spec_pick(b, needs) == spec_pick(a, needs),
    decreases needs.len(),
{
    broadcast use vstd::multiset::group_multiset_axioms;

    vstd::seq_lib::to_multiset_len(a);
    vstd::seq_lib::to_multiset_len(b);
    if needs.len() == 0 {
        assert(a =~= b);
    } else {
        let need = needs[0];
        let rest = needs.drop_first();
        let ia = first_meeting(a, need, 0);
        lemma_first_meeting(a, need, 0);
        let x = a[ia];
        let a1 = a.remove(ia);
        let picked = spec_pick(a1, rest)->Ok_0;
        lemma_pick_permutes(a1, rest);
        lemma_pick_meets(a1, rest);
        assert forall|j: int| 0 <= j < a1.len() implies !meets(#[trigger] a1[j], need) by {
            vstd::seq_lib::to_multiset_contains(a1, a1[j]);
            vstd::seq_lib::to_multiset_contains(picked, a1[j]);
            assert(a1.contains(a1[j]));
            let k = choose|k: int| 0 <= k < picked.len() && picked[k] == a1[j];
            assert(meets(picked[k], rest[k]));
            assert(rest[k] == needs[k + 1]);
            assert(needs[0] != needs[k + 1]);
        }
        vstd::seq_lib::to_multiset_contains(a, x);
        vstd::seq_lib::to_multiset_contains(b, x);
        assert(a.contains(x));
        let jb = choose|j: int| 0 <= j < b.len() && b[j] == x;
        let ib = first_meeting(b, need, 0);
        lemma_first_meeting(b, need, 0);
        assert(ib <= jb) by {
            if jb < ib {
                assert(!meets(b[jb], need));
            }
        }
        let y = b[ib];
        vstd::seq_lib::to_multiset_remove(a, ia);
        vstd::seq_lib::to_multiset_remove(b, ib);
        if y != x {
            vstd::seq_lib::to_multiset_contains(b, y);
            vstd::seq_lib::to_multiset_contains(a1, y);
            assert(b.contains(y));
            assert(a1.to_multiset().count(y) == a.to_multiset().count(y));
            let j = choose|j: int| 0 <= j < a1.len() && a1[j] == y;
            assert(!meets(a1[j], need));
        }
        let b1 = b.remove(ib);
        assert(distinct(rest)) by {
            assert forall|i: int, j: int| 0 <= i < j < rest.len() implies rest[i] != rest[j] by {
                assert(rest[i] == needs[i + 1] && rest[j] == needs[j + 1]);
            }
        }
        lemma_pick_anywhere_ok(a1, b1, rest);
    }
}

/// Picking does not depend on where the payloads stand: of two sequences that
/// hold the same payloads, each as often, it picks the same or fails the same
/// way. No need may be named twice.
pub proof fn lemma_pick_anywhere(
    a: Seq<AggregateDataView>,
    b: Seq<AggregateDataView>,
    needs: Seq<Requirement>,
)
    requires
        a.to_multiset() == b.to_multiset(),
        distinct(needs),
    ensures
        spec_pick(b, needs) == spec_pick(a, needs),
{
    if spec_pick(a, needs) is Ok {
        lemma_pick_anywhere_ok(a, b, needs);
    } else if spec_pick(b, needs) is Ok {
        lemma_pick_anywhere_ok(b, a, needs);
    } else {
        lemma_missing_iff_unmet(a, needs);
        lemma_missing_iff_unmet(b, needs);
        assert forall|i: int| 0 <= i < needs.len() implies met(a, needs[i]) == met(
            b,
            #[trigger] needs[i],
        ) by {
            lemma_met_anywhere(a, b, needs[i]);
        }
    }
}

/// No join point names a need twice.
pub proof fn lemma_schema_distinct(receiver: AggregateReceiverView)
    ensures
        distinct(spec_schema(receiver)),
{
}

fn needs_of(kinds: Vec<DataKind>, light_client: LightClientKind) -> (needs: Vec<Requirement>)
    ensures
        needs@ == all_for(kinds@, light_client),
{
    let mut needs: Vec<Requirement> = Vec::new();
    let mut i: usize = 0;
    while i < kinds.len()
        invariant
            i <= kinds.len(),
            needs@ == all_for(kinds@.subrange(0, i as int), light_client),
        decreases kinds.len() - i,
    {
        needs.push(Requirement { kind: kinds[i], light_client });
        assert(needs@ =~= all_for(kinds@.subrange(0, i + 1), light_client));
        i += 1;
    }
    assert(kinds@.subrange(0, kinds.len() as int) =~= kinds@);
    needs
}

/// The payloads that `receiver` needs, in the order in which it takes them.
pub fn schema(receiver: &AggregateReceiver) -> (needs: Vec<Requirement>)
    ensures
        needs@ == spec_schema(receiver@),
{
    let own = receiver.light_client;
    let other = receiver.light_client.counterparty();
    match &receiver.aggregate {
        Aggregate::ConnectionOpenTry(_) | Aggregate::ConnectionOpenAck(_) => needs_of(
            vec![
                DataKind::TrustedClientState,
                DataKind::ClientStateProof,
                DataKind::ClientConsensusStateProof,
                DataKind::ConnectionProof,
            ],
            own,
        ),
        Aggregate::ConnectionOpenConfirm(_) => needs_of(
            vec![DataKind::TrustedClientState, DataKind::ConnectionProof],
            own,
        ),
        Aggregate::ChannelOpenTry(_) => needs_of(
            vec![DataKind::TrustedClientState, DataKind::ChannelEndProof, DataKind::ConnectionEnd],
            own,
        ),
        Aggregate::ChannelOpenAck(_) | Aggregate::ChannelOpenConfirm(_) => needs_of(
            vec![DataKind::TrustedClientState, DataKind::ChannelEndProof],
            own,
        ),
        Aggregate::RecvPacket(_) => needs_of(
            vec![DataKind::TrustedClientState, DataKind::CommitmentProof],
            own,
        ),
        Aggregate::AckPacket(_) => needs_of(
            vec![
                DataKind::TrustedClientState,
                DataKind::PacketAcknowledgement,
                DataKind::AcknowledgementProof,
            ],
            own,
        ),
        Aggregate::CreateClient { .. } => needs_of(
            vec![DataKind::SelfClientState, DataKind::SelfConsensusState],
            other,
        ),
        Aggregate::ConnectionFetchFromChannelEnd { .. } => needs_of(vec![DataKind::ChannelEnd], own),
        Aggregate::ChannelHandshakeUpdateClient { .. } | Aggregate::PacketUpdateClient { .. } => {
            needs_of(vec![DataKind::ConnectionEnd], own)
        },
        Aggregate::LightClientSpecific(evm) => match evm {
            EvmAggregateMsg::CreateUpdate(_) => needs_of(
                vec![DataKind::LightClientUpdate, DataKind::AccountUpdate, DataKind::BeaconGenesis],
                own,
            ),
            EvmAggregateMsg::MakeCreateUpdates(_) => needs_of(vec![DataKind::FinalityUpdate], own),
            EvmAggregateMsg::MakeCreateUpdatesFromLightClientUpdates(_) => needs_of(
                vec![DataKind::LightClientUpdates],
                own,
            ),
        },
        Aggregate::UpdateClientWithCounterpartyChainIdData { .. } => needs_of(
            vec![DataKind::TrustedClientState],
            other,
        ),
        Aggregate::UpdateClientFromClientId { .. }
        | Aggregate::UpdateClient { .. }
        | Aggregate::ConsensusStateProofAtLatestHeight { .. }
        | Aggregate::AggregateMsgAfterUpdate(_)
        | Aggregate::WaitForTrustedHeight { .. }
        | Aggregate::FetchCounterpartyStateproof { .. } => needs_of(
            vec![DataKind::TrustedClientState],
            own,
        ),
    }
}

fn find_meeting(data: &Vec<AggregateData>, need: Requirement) -> (at: usize)
    ensures
        at == first_meeting(data_views(data@), need, 0),
{
    let mut i: usize = 0;
    while i < data.len()
        invariant
            i <= data.len(),
            first_meeting(data_views(data@), need, 0) == first_meeting(
                data_views(data@),
                need,
                i as int,
            ),
        decreases data.len() - i,
    {
        let item = &data[i];
        assert(data_views(data@)[i as int] == item@);
        if item.data.kind() == need.kind && item.light_client == need.light_client {
            return i;
        }
        i += 1;
    }
    i
}

fn pick_from(data: Vec<AggregateData>, needs: &Vec<Requirement>, from: usize) -> (picked: Result<
    Vec<AggregateData>,
    AggregateError,
>)
    requires
        from <= needs.len(),
    ensures
        match picked {
            Ok(items) => spec_pick(
                data_views(data@),
                needs@.subrange(from as int, needs.len() as int),
            ) == Ok::<Seq<AggregateDataView>, AggregateError>(data_views(items@)),
            Err(e) => spec_pick(
                data_views(data@),
                needs@.subrange(from as int, needs.len() as int),
            ) == Err::<Seq<AggregateDataView>, AggregateError>(e),
        },
    decreases needs.len() - from,
{
    let ghost left = needs@.subrange(from as int, needs.len() as int);
    if from == needs.len() {
        if data.len() == 0 {
            let items: Vec<AggregateData> = Vec::new();
            assert(data_views(items@) =~= Seq::empty());
            Ok(items)
        } else {
            Err(AggregateError::ExcessData)
        }
    } else {
        let need = needs[from];
        assert(left[0] == need);
        assert(left.drop_first() =~= needs@.subrange(from + 1, needs.len() as int));
        let at = find_meeting(&data, need);
        if at == data.len() {
            Err(AggregateError::MissingData)
        } else {
            proof {
                lemma_first_meeting(data_views(data@), need, 0);
            }
            let mut rest = data;
            let item = rest.remove(at);
            assert(data_views(rest@) =~= data_views(data@).remove(at as int));
            assert(item@ == data_views(data@)[at as int]);
            match pick_from(rest, needs, from + 1) {
                Ok(mut items) => {
                    let ghost before = items@;
                    items.insert(0, item);
                    assert(data_views(items@) =~= seq![item@] + data_views(before));
                    Ok(items)
                },
                Err(e) => Err(e),
            }
        }
    }
}

/// Picks from `data` the payloads that meet `needs`, one for each need and in
/// the order of the needs.
pub fn pick(data: Vec<AggregateData>, needs: &Vec<Requirement>) -> (picked: Result<
    Vec<AggregateData>,
    AggregateError,
>)
    ensures
        match picked {
            Ok(items) => spec_pick(data_views(data@), needs@) == Ok::<
                Seq<AggregateDataView>,
                AggregateError,
            >(data_views(items@)),
            Err(e) => spec_pick(data_views(data@), needs@) == Err::<
                Seq<AggregateDataView>,
                AggregateError,
            >(e),
        },
{
    assert(needs@.subrange(0, needs.len() as int) =~= needs@);
    pick_from(data, needs, 0)
}

} // verus!
