//! A payload together with the chain it was fetched from.

use crate::data::{
    AccountUpdateData, AcknowledgementProof, BeaconGenesisData, Channel, ChannelEndProof,
    ClientConsensusStateProof, ClientStateProof, CommitmentProof, ConnectionEnd, ConnectionProof,
    Data, EvmDataMsg, FinalityUpdate, LightClientUpdate, LightClientUpdates, PacketAcknowledgement,
    TrustedClientState,
};
use crate::ids::{ChainId, ChainIdView};
use crate::relayer_msg::{AggregateData, AggregateDataView};
use crate::schema::{kind_of, DataKind};
use vstd::pervasive::unreached;
use vstd::prelude::*;

verus! {

/// `data`, fetched from chain `chain_id`.
#[derive(Clone, Debug, PartialEq, Eq)]
pub struct Identified<T> {
    pub chain_id: ChainId,
    pub data: T,
}

/// The value of an [`Identified`] as contracts see it.
pub struct IdentifiedView<T> {
    pub chain_id: ChainIdView,
    pub data: T,
}

impl<T: View> View for Identified<T> {
    type V = IdentifiedView<T::V>;

    open spec fn view(&self) -> IdentifiedView<T::V> {
        IdentifiedView { chain_id: self.chain_id@, data: self.data@ }
    }
}

/// `data`, with the chain that `item` was fetched from.
pub open spec fn tag<T>(item: AggregateDataView, data: T) -> IdentifiedView<T> {
    IdentifiedView { chain_id: item.chain_id, data }
}

impl AggregateData {
    /// The trusted client state this payload is, with the chain it was fetched from.
    pub fn into_trusted_client_state(self) -> (found: Identified<TrustedClientState>)
        requires
            kind_of(self@.data) == DataKind::TrustedClientState,
        ensures
            found@ == tag(self@, self@.data->TrustedClientState_0),
    {
        match self.data {
            Data::TrustedClientState(data) => Identified { chain_id: self.chain_id, data },
            _ => unreached(),
        }
    }

    /// The self client state this payload is, with the chain it was fetched from.
    pub fn into_self_client_state(self) -> (found: Identified<Vec<u8>>)
        requires
            kind_of(self@.data) == DataKind::SelfClientState,
        ensures
            found@ == tag(self@, self@.data->SelfClientState_0),
    {
        match self.data {
            Data::SelfClientState(data) => Identified { chain_id: self.chain_id, data },
            _ => unreached(),
        }
    }

    /// The self consensus state this payload is, with the chain it was fetched from.
    pub fn into_self_consensus_state(self) -> (found: Identified<Vec<u8>>)
        requires
            kind_of(self@.data) == DataKind::SelfConsensusState,
        ensures
            found@ == tag(self@, self@.data->SelfConsensusState_0),
    {
        match self.data {
            Data::SelfConsensusState(data) => Identified { chain_id: self.chain_id, data },
            _ => unreached(),
        }
    }

    /// The client state proof this payload is, with the chain it was fetched from.
    pub fn into_client_state_proof(self) -> (found: Identified<ClientStateProof>)
        requires
            kind_of(self@.data) == DataKind::ClientStateProof,
        ensures
            found@ == tag(self@, self@.data->ClientStateProof_0),
    {
        match self.data {
            Data::ClientStateProof(data) => Identified { chain_id: self.chain_id, data },
            _ => unreached(),
        }
    }

    /// The client consensus state proof this payload is, with the chain it was fetched from.
    pub fn into_client_consensus_state_proof(self) -> (found: Identified<ClientConsensusStateProof>)
        requires
            kind_of(self@.data) == DataKind::ClientConsensusStateProof,
        ensures
            found@ == tag(self@, self@.data->ClientConsensusStateProof_0),
    {
        match self.data {
            Data::ClientConsensusStateProof(data) => Identified { chain_id: self.chain_id, data },
            _ => unreached(),
        }
    }

    /// The connection proof this payload is, with the chain it was fetched from.
    pub fn into_connection_proof(self) -> (found: Identified<ConnectionProof>)
        requires
            kind_of(self@.data) == DataKind::ConnectionProof,
        ensures
            found@ == tag(self@, self@.data->ConnectionProof_0),
    {
        match self.data {
            Data::ConnectionProof(data) => Identified { chain_id: self.chain_id, data },
            _ => unreached(),
        }
    }

    /// The channel end proof this payload is, with the chain it was fetched from.
    pub fn into_channel_end_proof(self) -> (found: Identified<ChannelEndProof>)
        requires
            kind_of(self@.data) == DataKind::ChannelEndProof,
        ensures
            found@ == tag(self@, self@.data->ChannelEndProof_0),
    {
        match self.data {
            Data::ChannelEndProof(data) => Identified { chain_id: self.chain_id, data },
            _ => unreached(),
        }
    }

    /// The commitment proof this payload is, with the chain it was fetched from.
    pub fn into_commitment_proof(self) -> (found: Identified<CommitmentProof>)
        requires
            kind_of(self@.data) == DataKind::CommitmentProof,
        ensures
            found@ == tag(self@, self@.data->CommitmentProof_0),
    {
        match self.data {
            Data::CommitmentProof(data) => Identified { chain_id: self.chain_id, data },
            _ => unreached(),
        }
    }

    /// The acknowledgement proof this payload is, with the chain it was fetched from.
    pub fn into_acknowledgement_proof(self) -> (found: Identified<AcknowledgementProof>)
        requires
            kind_of(self@.data) == DataKind::AcknowledgementProof,
        ensures
            found@ == tag(self@, self@.data->AcknowledgementProof_0),
    {
        match self.data {
            Data::AcknowledgementProof(data) => Identified { chain_id: self.chain_id, data },
            _ => unreached(),
        }
    }

    /// The connection end this payload is, with the chain it was fetched from.
    pub fn into_connection_end(self) -> (found: Identified<ConnectionEnd>)
        requires
            kind_of(self@.data) == DataKind::ConnectionEnd,
        ensures
            found@ == tag(self@, self@.data->ConnectionEnd_0),
    {
        match self.data {
            Data::ConnectionEnd(data) => Identified { chain_id: self.chain_id, data },
            _ => unreached(),
        }
    }

    /// The channel end this payload is, with the chain it was fetched from.
    pub fn into_channel_end(self) -> (found: Identified<Channel>)
        requires
            kind_of(self@.data) == DataKind::ChannelEnd,
        ensures
            found@ == tag(self@, self@.data->ChannelEnd_0),
    {
        match self.data {
            Data::ChannelEnd(data) => Identified { chain_id: self.chain_id, data },
            _ => unreached(),
        }
    }

    /// The packet acknowledgement this payload is, with the chain it was fetched from.
    pub fn into_packet_acknowledgement(self) -> (found: Identified<PacketAcknowledgement>)
        requires
            kind_of(self@.data) == DataKind::PacketAcknowledgement,
        ensures
            found@ == tag(self@, self@.data->PacketAcknowledgement_0),
    {
        match self.data {
            Data::PacketAcknowledgement(data) => Identified { chain_id: self.chain_id, data },
            _ => unreached(),
        }
    }

    /// The finality update this payload is, with the chain it was fetched from.
    pub fn into_finality_update(self) -> (found: Identified<FinalityUpdate>)
        requires
            kind_of(self@.data) == DataKind::FinalityUpdate,
        ensures
            found@ == tag(self@, self@.data->LightClientSpecific_0->FinalityUpdate_0),
    {
        match self.data {
            Data::LightClientSpecific(EvmDataMsg::FinalityUpdate(data)) => Identified {
                chain_id: self.chain_id,
                data,
            },
            _ => unreached(),
        }
    }

    /// The light client updates this payload is, with the chain it was fetched from.
    pub fn into_light_client_updates(self) -> (found: Identified<LightClientUpdates>)
        requires
            kind_of(self@.data) == DataKind::LightClientUpdates,
        ensures
            found@ == tag(self@, self@.data->LightClientSpecific_0->LightClientUpdates_0),
    {
        match self.data {
            Data::LightClientSpecific(EvmDataMsg::LightClientUpdates(data)) => Identified {
                chain_id: self.chain_id,
                data,
            },
            _ => unreached(),
        }
    }

    /// The light client update this payload is, with the chain it was fetched from.
    pub fn into_light_client_update(self) -> (found: Identified<LightClientUpdate>)
        requires
            kind_of(self@.data) == DataKind::LightClientUpdate,
        ensures
            found@ == tag(self@, self@.data->LightClientSpecific_0->LightClientUpdate_0),
    {
        match self.data {
            Data::LightClientSpecific(EvmDataMsg::LightClientUpdate(data)) => Identified {
                chain_id: self.chain_id,
                data,
            },
            _ => unreached(),
        }
    }

    /// The account update this payload is, with the chain it was fetched from.
    pub fn into_account_update(self) -> (found: Identified<AccountUpdateData>)
        requires
            kind_of(self@.data) == DataKind::AccountUpdate,
        ensures
            found@ == tag(self@, self@.data->LightClientSpecific_0->AccountUpdate_0),
    {
        match self.data {
            Data::LightClientSpecific(EvmDataMsg::AccountUpdate(data)) => Identified {
                chain_id: self.chain_id,
                data,
            },
            _ => unreached(),
        }
    }

    /// The beacon genesis this payload is, with the chain it was fetched from.
    pub fn into_beacon_genesis(self) -> (found: Identified<BeaconGenesisData>)
        requires
            kind_of(self@.data) == DataKind::BeaconGenesis,
        ensures
            found@ == tag(self@, self@.data->LightClientSpecific_0->BeaconGenesis_0),
    {
        match self.data {
            Data::LightClientSpecific(EvmDataMsg::BeaconGenesis(data)) => Identified {
                chain_id: self.chain_id,
                data,
            },
            _ => unreached(),
        }
    }
}

} // verus!
