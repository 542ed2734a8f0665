//! Answers to fetches: the payloads that aggregations consume.

use crate::fetch::{FetchPacketAcknowledgement, FetchPacketAcknowledgementView};
use crate::ids::{ChainId, ChainIdView, ChannelState, ConnectionState, Height, Order};
use vstd::prelude::*;

verus! {

/// What the engine reads of a light client's state, and the state itself.
///
/// `chain_id` is the chain the client tracks and `height` the latest height of
/// that chain which the client trusts.
#[derive(Debug, PartialEq, Eq)]
pub struct ClientState {
    pub chain_id: ChainId,
    pub height: Height,
    pub encoded: Vec<u8>,
}

/// The value of a [`ClientState`] as contracts see it.
pub struct ClientStateView {
    pub chain_id: ChainIdView,
    pub height: Height,
    pub encoded: Seq<u8>,
}

impl View for ClientState {
    type V = ClientStateView;

    open spec fn view(&self) -> ClientStateView {
        ClientStateView {
            chain_id: self.chain_id@,
            height: self.height,
            encoded: self.encoded@,
        }
    }
}

impl Clone for ClientState {
    fn clone(&self) -> (copy: ClientState)
        ensures
            copy@ == self@,
    {
        ClientState {
            chain_id: self.chain_id.clone(),
            height: self.height,
            encoded: self.encoded.clone(),
        }
    }
}

/// The state of client `client_id`, read at height `fetched_at` of the chain that hosts it.
#[derive(Debug, PartialEq, Eq)]
pub struct TrustedClientState {
    pub fetched_at: Height,
    pub client_id: String,
    pub trusted_client_state: ClientState,
}

/// The value of a [`TrustedClientState`] as contracts see it.
pub struct TrustedClientStateView {
    pub fetched_at: Height,
    pub client_id: Seq<char>,
    pub trusted_client_state: ClientStateView,
}

impl View for TrustedClientState {
    type V = TrustedClientStateView;

    open spec fn view(&self) -> TrustedClientStateView {
        TrustedClientStateView {
            fetched_at: self.fetched_at,
            client_id: self.client_id@,
            trusted_client_state: self.trusted_client_state@,
        }
    }
}

impl Clone for TrustedClientState {
    fn clone(&self) -> (copy: TrustedClientState)
        ensures
            copy@ == self@,
    {
        TrustedClientState {
            fetched_at: self.fetched_at,
            client_id: self.client_id.clone(),
            trusted_client_state: self.trusted_client_state.clone(),
        }
    }
}

/// A connection version: an identifier and the features it supports.
#[derive(Debug, PartialEq, Eq)]
pub struct Version {
    pub identifier: String,
    pub features: Vec<String>,
}

/// The value of a [`Version`] as contracts see it.
pub struct VersionView {
    pub identifier: Seq<char>,
    pub features: Seq<Seq<char>>,
}

impl View for Version {
    type V = VersionView;

    open spec fn view(&self) -> VersionView {
        VersionView {
            identifier: self.identifier@,
            features: self.features@.map_values(|s: String| s@),
        }
    }
}

impl Clone for Version {
    fn clone(&self) -> (copy: Version)
        ensures
            copy@ == self@,
    {
        let copy = Version {
            identifier: self.identifier.clone(),
            features: self.features.clone(),
        };
        assert(copy@.features =~= self@.features);
        copy
    }
}

/// The other end of a connection.
#[derive(Debug, PartialEq, Eq)]
pub struct ConnectionCounterparty {
    pub client_id: String,
    pub connection_id: String,
    pub prefix: Vec<u8>,
}

/// The value of a [`ConnectionCounterparty`] as contracts see it.
pub struct ConnectionCounterpartyView {
    pub client_id: Seq<char>,
    pub connection_id: Seq<char>,
    pub prefix: Seq<u8>,
}

impl View for ConnectionCounterparty {
    type V = ConnectionCounterpartyView;

    open spec fn view(&self) -> ConnectionCounterpartyView {
        ConnectionCounterpartyView {
            client_id: self.client_id@,
            connection_id: self.connection_id@,
            prefix: self.prefix@,
        }
    }
}

impl Clone for ConnectionCounterparty {
    fn clone(&self) -> (copy: ConnectionCounterparty)
        ensures
            copy@ == self@,
    {
        ConnectionCounterparty {
            client_id: self.client_id.clone(),
            connection_id: self.connection_id.clone(),
            prefix: self.prefix.clone(),
        }
    }
}

/// One end of a connection, as stored on a chain.
#[derive(Debug, PartialEq, Eq)]
pub struct ConnectionEnd {
    pub client_id: String,
    pub versions: Vec<Version>,
    pub state: ConnectionState,
    pub counterparty: ConnectionCounterparty,
    pub delay_period: u64,
}

/// The value of a [`ConnectionEnd`] as contracts see it.
pub struct ConnectionEndView {
    pub client_id: Seq<char>,
    pub versions: Seq<VersionView>,
    pub state: ConnectionState,
    pub counterparty: ConnectionCounterpartyView,
    pub delay_period: u64,
}

impl View for ConnectionEnd {
    type V = ConnectionEndView;

    open spec fn view(&self) -> ConnectionEndView {
        ConnectionEndView {
            client_id: self.client_id@,
            versions: self.versions@.map_values(|e: Version| e@),
            state: self.state,
            counterparty: self.counterparty@,
            delay_period: self.delay_period,
        }
    }
}

impl Clone for ConnectionEnd {
    fn clone(&self) -> (copy: ConnectionEnd)
        ensures
            copy@ == self@,
    {
        let copy = ConnectionEnd {
            client_id: self.client_id.clone(),
            versions: self.versions.clone(),
            state: self.state,
            counterparty: self.counterparty.clone(),
            delay_period: self.delay_period,
        };
        assert(copy@.versions =~= self@.versions);
        copy
    }
}

/// The other end of a channel.
#[derive(Debug, PartialEq, Eq)]
pub struct ChannelCounterparty {
    pub port_id: String,
    pub channel_id: String,
}

/// The value of a [`ChannelCounterparty`] as contracts see it.
pub struct ChannelCounterpartyView {
    pub port_id: Seq<char>,
    pub channel_id: Seq<char>,
}

impl View for ChannelCounterparty {
    type V = ChannelCounterpartyView;

    open spec fn view(&self) -> ChannelCounterpartyView {
        ChannelCounterpartyView {
            port_id: self.port_id@,
            channel_id: self.channel_id@,
        }
    }
}

impl Clone for ChannelCounterparty {
    fn clone(&self) -> (copy: ChannelCounterparty)
        ensures
            copy@ == self@,
    {
        ChannelCounterparty {
            port_id: self.port_id.clone(),
            channel_id: self.channel_id.clone(),
        }
    }
}

/// One end of a channel, as stored on a chain.
#[derive(Debug, PartialEq, Eq)]
pub struct Channel {
    pub state: ChannelState,
    pub ordering: Order,
    pub counterparty: ChannelCounterparty,
    pub connection_hops: Vec<String>,
    pub version: String,
}

/// The value of a [`Channel`] as contracts see it.
pub struct ChannelView {
    pub state: ChannelState,
    pub ordering: Order,
    pub counterparty: ChannelCounterpartyView,
    pub connection_hops: Seq<Seq<char>>,
    pub version: Seq<char>,
}

impl View for Channel {
    type V = ChannelView;

    open spec fn view(&self) -> ChannelView {
        ChannelView {
            state: self.state,
            ordering: self.ordering,
            counterparty: self.counterparty@,
            connection_hops: self.connection_hops@.map_values(|s: String| s@),
            version: self.version@,
        }
    }
}

impl Clone for Channel {
    fn clone(&self) -> (copy: Channel)
        ensures
            copy@ == self@,
    {
        let copy = Channel {
            state: self.state,
            ordering: self.ordering,
            counterparty: self.counterparty.clone(),
            connection_hops: self.connection_hops.clone(),
            version: self.version.clone(),
        };
        assert(copy@.connection_hops =~= self@.connection_hops);
        copy
    }
}

/// A stored client state with the proof that it is stored.
#[derive(Debug, PartialEq, Eq)]
pub struct ClientStateProof {
    pub state: Vec<u8>,
    pub proof: Vec<u8>,
    pub proof_height: Height,
}

/// The value of a [`ClientStateProof`] as contracts see it.
pub struct ClientStateProofView {
    pub state: Seq<u8>,
    pub proof: Seq<u8>,
    pub proof_height: Height,
}

impl View for ClientStateProof {
    type V = ClientStateProofView;

    open spec fn view(&self) -> ClientStateProofView {
        ClientStateProofView {
            state: self.state@,
            proof: self.proof@,
            proof_height: self.proof_height,
        }
    }
}

impl Clone for ClientStateProof {
    fn clone(&self) -> (copy: ClientStateProof)
        ensures
            copy@ == self@,
    {
        ClientStateProof {
            state: self.state.clone(),
            proof: self.proof.clone(),
            proof_height: self.proof_height,
        }
    }
}

/// A stored consensus state with the proof that it is stored.
#[derive(Debug, PartialEq, Eq)]
pub struct ClientConsensusStateProof {
    pub state: Vec<u8>,
    pub proof: Vec<u8>,
    pub proof_height: Height,
}

/// The value of a [`ClientConsensusStateProof`] as contracts see it.
pub struct ClientConsensusStateProofView {
    pub state: Seq<u8>,
    pub proof: Seq<u8>,
    pub proof_height: Height,
}

impl View for ClientConsensusStateProof {
    type V = ClientConsensusStateProofView;

    open spec fn view(&self) -> ClientConsensusStateProofView {
        ClientConsensusStateProofView {
            state: self.state@,
            proof: self.proof@,
            proof_height: self.proof_height,
        }
    }
}

impl Clone for ClientConsensusStateProof {
    fn clone(&self) -> (copy: ClientConsensusStateProof)
        ensures
            copy@ == self@,
    {
        ClientConsensusStateProof {
            state: self.state.clone(),
            proof: self.proof.clone(),
            proof_height: self.proof_height,
        }
    }
}

/// A stored connection end with the proof that it is stored.
#[derive(Debug, PartialEq, Eq)]
pub struct ConnectionProof {
    pub state: ConnectionEnd,
    pub proof: Vec<u8>,
    pub proof_height: Height,
}

/// The value of a [`ConnectionProof`] as contracts see it.
pub struct ConnectionProofView {
    pub state: ConnectionEndView,
    pub proof: Seq<u8>,
    pub proof_height: Height,
}

impl View for ConnectionProof {
    type V = ConnectionProofView;

    open spec fn view(&self) -> ConnectionProofView {
        ConnectionProofView {
            state: self.state@,
            proof: self.proof@,
            proof_height: self.proof_height,
        }
    }
}

impl Clone for ConnectionProof {
    fn clone(&self) -> (copy: ConnectionProof)
        ensures
            copy@ == self@,
    {
        ConnectionProof {
            state: self.state.clone(),
            proof: self.proof.clone(),
            proof_height: self.proof_height,
        }
    }
}

/// A stored channel end with the proof that it is stored.
#[derive(Debug, PartialEq, Eq)]
pub struct ChannelEndProof {
    pub state: Channel,
    pub proof: Vec<u8>,
    pub proof_height: Height,
}

/// The value of a [`ChannelEndProof`] as contracts see it.
pub struct ChannelEndProofView {
    pub state: ChannelView,
    pub proof: Seq<u8>,
    pub proof_height: Height,
}

impl View for ChannelEndProof {
    type V = ChannelEndProofView;

    open spec fn view(&self) -> ChannelEndProofView {
        ChannelEndProofView {
            state: self.state@,
            proof: self.proof@,
            proof_height: self.proof_height,
        }
    }
}

impl Clone for ChannelEndProof {
    fn clone(&self) -> (copy: ChannelEndProof)
        ensures
            copy@ == self@,
    {
        ChannelEndProof {
            state: self.state.clone(),
            proof: self.proof.clone(),
            proof_height: self.proof_height,
        }
    }
}

/// A stored packet commitment with the proof that it is stored.
#[derive(Debug, PartialEq, Eq)]
pub struct CommitmentProof {
    pub state: Vec<u8>,
    pub proof: Vec<u8>,
    pub proof_height: Height,
}

/// The value of a [`CommitmentProof`] as contracts see it.
pub struct CommitmentProofView {
    pub state: Seq<u8>,
    pub proof: Seq<u8>,
    pub proof_height: Height,
}

impl View for CommitmentProof {
    type V = CommitmentProofView;

    open spec fn view(&self) -> CommitmentProofView {
        CommitmentProofView {
            state: self.state@,
            proof: self.proof@,
            proof_height: self.proof_height,
        }
    }
}

impl Clone for CommitmentProof {
    fn clone(&self) -> (copy: CommitmentProof)
        ensures
            copy@ == self@,
    {
        CommitmentProof {
            state: self.state.clone(),
            proof: self.proof.clone(),
            proof_height: self.proof_height,
        }
    }
}

/// A stored packet acknowledgement with the proof that it is stored.
#[derive(Debug, PartialEq, Eq)]
pub struct AcknowledgementProof {
    pub state: Vec<u8>,
    pub proof: Vec<u8>,
    pub proof_height: Height,
}

/// The value of a [`AcknowledgementProof`] as contracts see it.
pub struct AcknowledgementProofView {
    pub state: Seq<u8>,
    pub proof: Seq<u8>,
    pub proof_height: Height,
}

impl View for AcknowledgementProof {
    type V = AcknowledgementProofView;

    open spec fn view(&self) -> AcknowledgementProofView {
        AcknowledgementProofView {
            state: self.state@,
            proof: self.proof@,
            proof_height: self.proof_height,
        }
    }
}

impl Clone for AcknowledgementProof {
    fn clone(&self) -> (copy: AcknowledgementProof)
        ensures
            copy@ == self@,
    {
        AcknowledgementProof {
            state: self.state.clone(),
            proof: self.proof.clone(),
            proof_height: self.proof_height,
        }
    }
}

/// The acknowledgement bytes found for the packet named in `fetched_by`.
#[derive(Debug, PartialEq, Eq)]
pub struct PacketAcknowledgement {
    pub fetched_by: FetchPacketAcknowledgement,
    pub ack: Vec<u8>,
}

/// The value of a [`PacketAcknowledgement`] as contracts see it.
pub struct PacketAcknowledgementView {
    pub fetched_by: FetchPacketAcknowledgementView,
    pub ack: Seq<u8>,
}

impl View for PacketAcknowledgement {
    type V = PacketAcknowledgementView;

    open spec fn view(&self) -> PacketAcknowledgementView {
        PacketAcknowledgementView {
            fetched_by: self.fetched_by@,
            ack: self.ack@,
        }
    }
}

impl Clone for PacketAcknowledgement {
    fn clone(&self) -> (copy: PacketAcknowledgement)
        ensures
            copy@ == self@,
    {
        PacketAcknowledgement {
            fetched_by: self.fetched_by.clone(),
            ack: self.ack.clone(),
        }
    }
}

/// A beacon chain light client update.
///
/// The engine reads the two slots and whether a next sync committee is present;
/// headers, branches and the aggregate signature are carried as encoded.
#[derive(Debug, PartialEq, Eq)]
pub struct BeaconLightClientUpdate {
    pub attested_slot: u64,
    pub attested_header: Vec<u8>,
    pub next_sync_committee: Option<Vec<u8>>,
    pub next_sync_committee_branch: Option<Vec<u8>>,
    pub finalized_header: Vec<u8>,
    pub finality_branch: Vec<u8>,
    pub sync_aggregate: Vec<u8>,
    pub signature_slot: u64,
}

/// The value of a [`BeaconLightClientUpdate`] as contracts see it.
pub struct BeaconLightClientUpdateView {
    pub attested_slot: u64,
    pub attested_header: Seq<u8>,
    pub next_sync_committee: Option<Seq<u8>>,
    pub next_sync_committee_branch: Option<Seq<u8>>,
    pub finalized_header: Seq<u8>,
    pub finality_branch: Seq<u8>,
    pub sync_aggregate: Seq<u8>,
    pub signature_slot: u64,
}

impl View for BeaconLightClientUpdate {
    type V = BeaconLightClientUpdateView;

    open spec fn view(&self) -> BeaconLightClientUpdateView {
        BeaconLightClientUpdateView {
            attested_slot: self.attested_slot,
            attested_header: self.attested_header@,
            next_sync_committee: match self.next_sync_committee { Some(v) => Some(v@), None => None },
            next_sync_committee_branch: match self.next_sync_committee_branch { Some(v) => Some(v@), None => None },
            finalized_header: self.finalized_header@,
            finality_branch: self.finality_branch@,
            sync_aggregate: self.sync_aggregate@,
            signature_slot: self.signature_slot,
        }
    }
}

impl Clone for BeaconLightClientUpdate {
    fn clone(&self) -> (copy: BeaconLightClientUpdate)
        ensures
            copy@ == self@,
    {
        BeaconLightClientUpdate {
            attested_slot: self.attested_slot,
            attested_header: self.attested_header.clone(),
            next_sync_committee: self.next_sync_committee.clone(),
            next_sync_committee_branch: self.next_sync_committee_branch.clone(),
            finalized_header: self.finalized_header.clone(),
            finality_branch: self.finality_branch.clone(),
            sync_aggregate: self.sync_aggregate.clone(),
            signature_slot: self.signature_slot,
        }
    }
}

/// A beacon chain finality update: a light client update without a sync committee change.
#[derive(Debug, PartialEq, Eq)]
pub struct BeaconFinalityUpdate {
    pub attested_slot: u64,
    pub attested_header: Vec<u8>,
    pub finalized_header: Vec<u8>,
    pub finality_branch: Vec<u8>,
    pub sync_aggregate: Vec<u8>,
    pub signature_slot: u64,
}

/// The value of a [`BeaconFinalityUpdate`] as contracts see it.
pub struct BeaconFinalityUpdateView {
    pub attested_slot: u64,
    pub attested_header: Seq<u8>,
    pub finalized_header: Seq<u8>,
    pub finality_branch: Seq<u8>,
    pub sync_aggregate: Seq<u8>,
    pub signature_slot: u64,
}

impl View for BeaconFinalityUpdate {
    type V = BeaconFinalityUpdateView;

    open spec fn view(&self) -> BeaconFinalityUpdateView {
        BeaconFinalityUpdateView {
            attested_slot: self.attested_slot,
            attested_header: self.attested_header@,
            finalized_header: self.finalized_header@,
            finality_branch: self.finality_branch@,
            sync_aggregate: self.sync_aggregate@,
            signature_slot: self.signature_slot,
        }
    }
}

impl Clone for BeaconFinalityUpdate {
    fn clone(&self) -> (copy: BeaconFinalityUpdate)
        ensures
            copy@ == self@,
    {
        BeaconFinalityUpdate {
            attested_slot: self.attested_slot,
            attested_header: self.attested_header.clone(),
            finalized_header: self.finalized_header.clone(),
            finality_branch: self.finality_branch.clone(),
            sync_aggregate: self.sync_aggregate.clone(),
            signature_slot: self.signature_slot,
        }
    }
}

/// The part of an `eth_getProof` answer that proves an account's storage root.
#[derive(Debug, PartialEq, Eq)]
pub struct AccountProofResponse {
    pub storage_hash: [u8; 32],
    pub account_proof: Vec<Vec<u8>>,
}

/// The value of a [`AccountProofResponse`] as contracts see it.
pub struct AccountProofResponseView {
    pub storage_hash: Seq<u8>,
    pub account_proof: Seq<Seq<u8>>,
}

impl View for AccountProofResponse {
    type V = AccountProofResponseView;

    open spec fn view(&self) -> AccountProofResponseView {
        AccountProofResponseView {
            storage_hash: self.storage_hash@,
            account_proof: self.account_proof@.map_values(|b: Vec<u8>| b@),
        }
    }
}

impl Clone for AccountProofResponse {
    fn clone(&self) -> (copy: AccountProofResponse)
        ensures
            copy@ == self@,
    {
        let copy = AccountProofResponse {
            storage_hash: self.storage_hash,
            account_proof: self.account_proof.clone(),
        };
        assert(copy@.account_proof =~= self@.account_proof);
        copy
    }
}

/// The latest finality update of the beacon chain.
#[derive(Debug, PartialEq, Eq)]
pub struct FinalityUpdate {
    pub finality_update: BeaconFinalityUpdate,
}

/// The value of a [`FinalityUpdate`] as contracts see it.
pub struct FinalityUpdateView {
    pub finality_update: BeaconFinalityUpdateView,
}

impl View for FinalityUpdate {
    type V = FinalityUpdateView;

    open spec fn view(&self) -> FinalityUpdateView {
        FinalityUpdateView {
            finality_update: self.finality_update@,
        }
    }
}

impl Clone for FinalityUpdate {
    fn clone(&self) -> (copy: FinalityUpdate)
        ensures
            copy@ == self@,
    {
        FinalityUpdate {
            finality_update: self.finality_update.clone(),
        }
    }
}

/// The light client updates of consecutive sync committee periods, oldest first.
#[derive(Debug, PartialEq, Eq)]
pub struct LightClientUpdates {
    pub light_client_updates: Vec<BeaconLightClientUpdate>,
}

/// The value of a [`LightClientUpdates`] as contracts see it.
pub struct LightClientUpdatesView {
    pub light_client_updates: Seq<BeaconLightClientUpdateView>,
}

impl View for LightClientUpdates {
    type V = LightClientUpdatesView;

    open spec fn view(&self) -> LightClientUpdatesView {
        LightClientUpdatesView {
            light_client_updates: self.light_client_updates@.map_values(|e: BeaconLightClientUpdate| e@),
        }
    }
}

impl Clone for LightClientUpdates {
    fn clone(&self) -> (copy: LightClientUpdates)
        ensures
            copy@ == self@,
    {
        let copy = LightClientUpdates {
            light_client_updates: self.light_client_updates.clone(),
        };
        assert(copy@.light_client_updates =~= self@.light_client_updates);
        copy
    }
}

/// The light client update of one sync committee period.
#[derive(Debug, PartialEq, Eq)]
pub struct LightClientUpdate {
    pub update: BeaconLightClientUpdate,
}

/// The value of a [`LightClientUpdate`] as contracts see it.
pub struct LightClientUpdateView {
    pub update: BeaconLightClientUpdateView,
}

impl View for LightClientUpdate {
    type V = LightClientUpdateView;

    open spec fn view(&self) -> LightClientUpdateView {
        LightClientUpdateView {
            update: self.update@,
        }
    }
}

impl Clone for LightClientUpdate {
    fn clone(&self) -> (copy: LightClientUpdate)
        ensures
            copy@ == self@,
    {
        LightClientUpdate {
            update: self.update.clone(),
        }
    }
}

/// The light client bootstrap for the period that holds `slot`.
#[derive(Debug, PartialEq, Eq)]
pub struct BootstrapData {
    pub slot: u64,
    pub bootstrap: Vec<u8>,
}

/// The value of a [`BootstrapData`] as contracts see it.
pub struct BootstrapDataView {
    pub slot: u64,
    pub bootstrap: Seq<u8>,
}

impl View for BootstrapData {
    type V = BootstrapDataView;

    open spec fn view(&self) -> BootstrapDataView {
        BootstrapDataView {
            slot: self.slot,
            bootstrap: self.bootstrap@,
        }
    }
}

impl Clone for BootstrapData {
    fn clone(&self) -> (copy: BootstrapData)
        ensures
            copy@ == self@,
    {
        BootstrapData {
            slot: self.slot,
            bootstrap: self.bootstrap.clone(),
        }
    }
}

/// The account proof of the IBC handler at beacon slot `slot`.
#[derive(Debug, PartialEq, Eq)]
pub struct AccountUpdateData {
    pub slot: u64,
    pub ibc_handler_address: [u8; 20],
    pub update: AccountProofResponse,
}

/// The value of a [`AccountUpdateData`] as contracts see it.
pub struct AccountUpdateDataView {
    pub slot: u64,
    pub ibc_handler_address: Seq<u8>,
    pub update: AccountProofResponseView,
}

impl View for AccountUpdateData {
    type V = AccountUpdateDataView;

    open spec fn view(&self) -> AccountUpdateDataView {
        AccountUpdateDataView {
            slot: self.slot,
            ibc_handler_address: self.ibc_handler_address@,
            update: self.update@,
        }
    }
}

impl Clone for AccountUpdateData {
    fn clone(&self) -> (copy: AccountUpdateData)
        ensures
            copy@ == self@,
    {
        AccountUpdateData {
            slot: self.slot,
            ibc_handler_address: self.ibc_handler_address,
            update: self.update.clone(),
        }
    }
}

/// The genesis time of the beacon chain, in seconds since the Unix epoch, and its validators root.
#[derive(Debug, PartialEq, Eq)]
pub struct BeaconGenesisData {
    pub genesis_time: u64,
    pub genesis_validators_root: [u8; 32],
}

/// The value of a [`BeaconGenesisData`] as contracts see it.
pub struct BeaconGenesisDataView {
    pub genesis_time: u64,
    pub genesis_validators_root: Seq<u8>,
}

impl View for BeaconGenesisData {
    type V = BeaconGenesisDataView;

    open spec fn view(&self) -> BeaconGenesisDataView {
        BeaconGenesisDataView {
            genesis_time: self.genesis_time,
            genesis_validators_root: self.genesis_validators_root@,
        }
    }
}

impl Clone for BeaconGenesisData {
    fn clone(&self) -> (copy: BeaconGenesisData)
        ensures
            copy@ == self@,
    {
        BeaconGenesisData {
            genesis_time: self.genesis_time,
            genesis_validators_root: self.genesis_validators_root,
        }
    }
}

/// The answers to [`crate::fetch::EvmFetchMsg`] that aggregations consume.
#[derive(Debug, PartialEq, Eq)]
pub enum EvmDataMsg {
    FinalityUpdate(FinalityUpdate),
    LightClientUpdates(LightClientUpdates),
    LightClientUpdate(LightClientUpdate),
    Bootstrap(BootstrapData),
    AccountUpdate(AccountUpdateData),
    BeaconGenesis(BeaconGenesisData),
}

/// The value of a [`EvmDataMsg`] as contracts see it.
pub enum EvmDataMsgView {
    FinalityUpdate(FinalityUpdateView),
    LightClientUpdates(LightClientUpdatesView),
    LightClientUpdate(LightClientUpdateView),
    Bootstrap(BootstrapDataView),
    AccountUpdate(AccountUpdateDataView),
    BeaconGenesis(BeaconGenesisDataView),
}

impl View for EvmDataMsg {
    type V = EvmDataMsgView;

    open spec fn view(&self) -> EvmDataMsgView {
        match *self {
            EvmDataMsg::FinalityUpdate(x) => EvmDataMsgView::FinalityUpdate(x@),
            EvmDataMsg::LightClientUpdates(x) => EvmDataMsgView::LightClientUpdates(x@),
            EvmDataMsg::LightClientUpdate(x) => EvmDataMsgView::LightClientUpdate(x@),
            EvmDataMsg::Bootstrap(x) => EvmDataMsgView::Bootstrap(x@),
            EvmDataMsg::AccountUpdate(x) => EvmDataMsgView::AccountUpdate(x@),
            EvmDataMsg::BeaconGenesis(x) => EvmDataMsgView::BeaconGenesis(x@),
        }
    }
}

impl Clone for EvmDataMsg {
    fn clone(&self) -> (copy: EvmDataMsg)
        ensures
            copy@ == self@,
    {
        match self {
            EvmDataMsg::FinalityUpdate(x) => EvmDataMsg::FinalityUpdate(x.clone()),
            EvmDataMsg::LightClientUpdates(x) => EvmDataMsg::LightClientUpdates(x.clone()),
            EvmDataMsg::LightClientUpdate(x) => EvmDataMsg::LightClientUpdate(x.clone()),
            EvmDataMsg::Bootstrap(x) => EvmDataMsg::Bootstrap(x.clone()),
            EvmDataMsg::AccountUpdate(x) => EvmDataMsg::AccountUpdate(x.clone()),
            EvmDataMsg::BeaconGenesis(x) => EvmDataMsg::BeaconGenesis(x.clone()),
        }
    }
}

/// A payload fetched from a chain.
#[derive(Debug, PartialEq, Eq)]
pub enum Data {
    TrustedClientState(TrustedClientState),
    SelfClientState(Vec<u8>),
    SelfConsensusState(Vec<u8>),
    ClientStateProof(ClientStateProof),
    ClientConsensusStateProof(ClientConsensusStateProof),
    ConnectionProof(ConnectionProof),
    ChannelEndProof(ChannelEndProof),
    CommitmentProof(CommitmentProof),
    AcknowledgementProof(AcknowledgementProof),
    ConnectionEnd(ConnectionEnd),
    ChannelEnd(Channel),
    PacketAcknowledgement(PacketAcknowledgement),
    LightClientSpecific(EvmDataMsg),
}

/// The value of a [`Data`] as contracts see it.
pub enum DataView {
    TrustedClientState(TrustedClientStateView),
    SelfClientState(Seq<u8>),
    SelfConsensusState(Seq<u8>),
    ClientStateProof(ClientStateProofView),
    ClientConsensusStateProof(ClientConsensusStateProofView),
    ConnectionProof(ConnectionProofView),
    ChannelEndProof(ChannelEndProofView),
    CommitmentProof(CommitmentProofView),
    AcknowledgementProof(AcknowledgementProofView),
    ConnectionEnd(ConnectionEndView),
    ChannelEnd(ChannelView),
    PacketAcknowledgement(PacketAcknowledgementView),
    LightClientSpecific(EvmDataMsgView),
}

impl View for Data {
    type V = DataView;

    open spec fn view(&self) -> DataView {
        match *self {
            Data::TrustedClientState(x) => DataView::TrustedClientState(x@),
            Data::SelfClientState(x) => DataView::SelfClientState(x@),
            Data::SelfConsensusState(x) => DataView::SelfConsensusState(x@),
            Data::ClientStateProof(x) => DataView::ClientStateProof(x@),
            Data::ClientConsensusStateProof(x) => DataView::ClientConsensusStateProof(x@),
            Data::ConnectionProof(x) => DataView::ConnectionProof(x@),
            Data::ChannelEndProof(x) => DataView::ChannelEndProof(x@),
            Data::CommitmentProof(x) => DataView::CommitmentProof(x@),
            Data::AcknowledgementProof(x) => DataView::AcknowledgementProof(x@),
            Data::ConnectionEnd(x) => DataView::ConnectionEnd(x@),
            Data::ChannelEnd(x) => DataView::ChannelEnd(x@),
            Data::PacketAcknowledgement(x) => DataView::PacketAcknowledgement(x@),
            Data::LightClientSpecific(x) => DataView::LightClientSpecific(x@),
        }
    }
}

impl Clone for Data {
    fn clone(&self) -> (copy: Data)
        ensures
            copy@ == self@,
    {
        match self {
            Data::TrustedClientState(x) => Data::TrustedClientState(x.clone()),
            Data::SelfClientState(x) => Data::SelfClientState(x.clone()),
            Data::SelfConsensusState(x) => Data::SelfConsensusState(x.clone()),
            Data::ClientStateProof(x) => Data::ClientStateProof(x.clone()),
            Data::ClientConsensusStateProof(x) => Data::ClientConsensusStateProof(x.clone()),
            Data::ConnectionProof(x) => Data::ConnectionProof(x.clone()),
            Data::ChannelEndProof(x) => Data::ChannelEndProof(x.clone()),
            Data::CommitmentProof(x) => Data::CommitmentProof(x.clone()),
            Data::AcknowledgementProof(x) => Data::AcknowledgementProof(x.clone()),
            Data::ConnectionEnd(x) => Data::ConnectionEnd(x.clone()),
            Data::ChannelEnd(x) => Data::ChannelEnd(x.clone()),
            Data::PacketAcknowledgement(x) => Data::PacketAcknowledgement(x.clone()),
            Data::LightClientSpecific(x) => Data::LightClientSpecific(x.clone()),
        }
    }
}

} // verus!
