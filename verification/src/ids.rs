//! Heights, chains, light clients and the paths under which IBC state is stored.

use vstd::prelude::*;

verus! {

/// A height on a chain: a revision, and a block number within that revision.
///
/// Heights of one revision are ordered by their block number. Heights of
/// different revisions are not compared by the engine.
#[derive(Clone, Copy, Debug, PartialEq, Eq, Hash, Structural)]
pub struct Height {
    pub revision_number: u64,
    pub revision_height: u64,
}

impl Height {
    /// The height of the next block of the same revision.
    pub open spec fn spec_increment(self) -> Height {
        Height {
            revision_number: self.revision_number,
            revision_height: (self.revision_height + 1) as u64,
        }
    }

    /// The height of the next block of the same revision.
    #[verifier::when_used_as_spec(spec_increment)]
    pub fn increment(self) -> (next: Height)
        requires
            self.revision_height < u64::MAX,
        ensures
            next == self.spec_increment(),
            next.revision_number == self.revision_number,
            next.revision_height == self.revision_height + 1,
    {
        Height { revision_number: self.revision_number, revision_height: self.revision_height + 1 }
    }
}

/// The height a query is made at.
#[derive(Clone, Copy, Debug, PartialEq, Eq, Hash, Structural)]
pub enum QueryHeight {
    /// Whatever the chain's latest height is when the query is answered.
    Latest,
    Specific(Height),
}

/// Whether a channel delivers packets in the order they were sent.
#[derive(Clone, Copy, Debug, PartialEq, Eq, Hash, Structural)]
pub enum Order {
    NoneUnspecified,
    Unordered,
    Ordered,
}

/// How far a connection handshake has come on one end.
#[derive(Clone, Copy, Debug, PartialEq, Eq, Hash, Structural)]
pub enum ConnectionState {
    UninitializedUnspecified,
    Init,
    Tryopen,
    Open,
}

/// How far a channel handshake has come on one end.
#[derive(Clone, Copy, Debug, PartialEq, Eq, Hash, Structural)]
pub enum ChannelState {
    UninitializedUnspecified,
    Init,
    Tryopen,
    Open,
    Closed,
}

/// The two sizes of beacon chain the engine knows.
#[derive(Clone, Copy, Debug, PartialEq, Eq, Hash, Structural)]
pub enum Preset {
    Mainnet,
    Minimal,
}

/// The kind of chain that hosts a light client.
#[derive(Clone, Copy, Debug, PartialEq, Eq, Hash, Structural)]
pub enum HostChain {
    /// A chain with a beacon layer and an execution layer.
    Evm(Preset),
    /// A Cosmos chain.
    Union,
}

/// A light client together with the chain that hosts it.
///
/// An `Ethereum*` client lives on a Cosmos chain and tracks a beacon chain of
/// the named preset; a `Cometbls*` client lives on such a beacon chain and
/// tracks a Cosmos chain. The set is closed: every message of the engine is
/// addressed to one of these four.
#[derive(Clone, Copy, Debug, PartialEq, Eq, Hash, Structural)]
pub enum LightClientKind {
    EthereumMainnet,
    EthereumMinimal,
    CometblsMainnet,
    CometblsMinimal,
}

impl LightClientKind {
    /// The light client on the other side: the one that tracks this one's host.
    pub open spec fn spec_counterparty(self) -> LightClientKind {
        match self {
            LightClientKind::EthereumMainnet => LightClientKind::CometblsMainnet,
            LightClientKind::EthereumMinimal => LightClientKind::CometblsMinimal,
            LightClientKind::CometblsMainnet => LightClientKind::EthereumMainnet,
            LightClientKind::CometblsMinimal => LightClientKind::EthereumMinimal,
        }
    }

    /// The light client on the other side: the one that tracks this one's host.
    #[verifier::when_used_as_spec(spec_counterparty)]
    pub fn counterparty(self) -> (other: LightClientKind)
        ensures
            other == self.spec_counterparty(),
    {
        match self {
            LightClientKind::EthereumMainnet => LightClientKind::CometblsMainnet,
            LightClientKind::EthereumMinimal => LightClientKind::CometblsMinimal,
            LightClientKind::CometblsMainnet => LightClientKind::EthereumMainnet,
            LightClientKind::CometblsMinimal => LightClientKind::EthereumMinimal,
        }
    }

    /// The kind of chain this light client lives on.
    pub open spec fn spec_host(self) -> HostChain {
        match self {
            LightClientKind::EthereumMainnet => HostChain::Union,
            LightClientKind::EthereumMinimal => HostChain::Union,
            LightClientKind::CometblsMainnet => HostChain::Evm(Preset::Mainnet),
            LightClientKind::CometblsMinimal => HostChain::Evm(Preset::Minimal),
        }
    }

    /// The kind of chain this light client lives on.
    #[verifier::when_used_as_spec(spec_host)]
    pub fn host(self) -> (host: HostChain)
        ensures
            host == self.spec_host(),
    {
        match self {
            LightClientKind::EthereumMainnet => HostChain::Union,
            LightClientKind::EthereumMinimal => HostChain::Union,
            LightClientKind::CometblsMainnet => HostChain::Evm(Preset::Mainnet),
            LightClientKind::CometblsMinimal => HostChain::Evm(Preset::Minimal),
        }
    }
}

/// The counterparty of a light client's counterparty is the light client itself.
pub proof fn lemma_counterparty_involution(light_client: LightClientKind)
    ensures
        light_client.counterparty().counterparty() == light_client,
        light_client.counterparty() != light_client,
{
}

/// The name of a chain: a number on chains with an execution layer, a string on
/// Cosmos chains.
#[derive(Debug, PartialEq, Eq, Hash)]
pub enum ChainId {
    Evm(u64),
    Cosmos(String),
}

/// The value of a [`ChainId`] as contracts see it.
pub enum ChainIdView {
    Evm(u64),
    Cosmos(Seq<char>),
}

impl View for ChainId {
    type V = ChainIdView;

    open spec fn view(&self) -> ChainIdView {
        match *self {
            ChainId::Evm(x) => ChainIdView::Evm(x),
            ChainId::Cosmos(x) => ChainIdView::Cosmos(x@),
        }
    }
}

impl Clone for ChainId {
    fn clone(&self) -> (copy: ChainId)
        ensures
            copy@ == self@,
    {
        match self {
            ChainId::Evm(n) => ChainId::Evm(*n),
            ChainId::Cosmos(s) => ChainId::Cosmos(s.clone()),
        }
    }
}

impl ChainId {
    /// Whether two chain identifiers name the same chain.
    pub fn same(&self, other: &ChainId) -> (equal: bool)
        ensures
            equal == (self@ == other@),
    {
        match self {
            ChainId::Evm(a) => match other {
                ChainId::Evm(b) => *a == *b,
                ChainId::Cosmos(_) => false,
            },
            ChainId::Cosmos(a) => match other {
                ChainId::Evm(_) => false,
                ChainId::Cosmos(b) => {
                    proof {
                        assert(a@ == b@ <==> self@ == other@);
                    }
                    *a == *b
                },
            },
        }
    }
}

/// Where a piece of IBC state is stored on a chain.
#[derive(Debug, PartialEq, Eq)]
pub enum Path {
    ClientState {
        client_id: String,
    },
    ClientConsensusState {
        client_id: String,
        height: Height,
    },
    Connection {
        connection_id: String,
    },
    ChannelEnd {
        port_id: String,
        channel_id: String,
    },
    Commitment {
        port_id: String,
        channel_id: String,
        sequence: u64,
    },
    Acknowledgement {
        port_id: String,
        channel_id: String,
        sequence: u64,
    },
}

/// The value of a [`Path`] as contracts see it.
pub enum PathView {
    ClientState {
        client_id: Seq<char>,
    },
    ClientConsensusState {
        client_id: Seq<char>,
        height: Height,
    },
    Connection {
        connection_id: Seq<char>,
    },
    ChannelEnd {
        port_id: Seq<char>,
        channel_id: Seq<char>,
    },
    Commitment {
        port_id: Seq<char>,
        channel_id: Seq<char>,
        sequence: u64,
    },
    Acknowledgement {
        port_id: Seq<char>,
        channel_id: Seq<char>,
        sequence: u64,
    },
}

impl View for Path {
    type V = PathView;

    open spec fn view(&self) -> PathView {
        match *self {
            Path::ClientState { client_id } => PathView::ClientState {
                client_id: client_id@,
            },
            Path::ClientConsensusState { client_id, height } => PathView::ClientConsensusState {
                client_id: client_id@,
                height,
            },
            Path::Connection { connection_id } => PathView::Connection {
                connection_id: connection_id@,
            },
            Path::ChannelEnd { port_id, channel_id } => PathView::ChannelEnd {
                port_id: port_id@,
                channel_id: channel_id@,
            },
            Path::Commitment { port_id, channel_id, sequence } => PathView::Commitment {
                port_id: port_id@,
                channel_id: channel_id@,
                sequence,
            },
            Path::Acknowledgement { port_id, channel_id, sequence } => PathView::Acknowledgement {
                port_id: port_id@,
                channel_id: channel_id@,
                sequence,
            },
        }
    }
}

impl Clone for Path {
    fn clone(&self) -> (copy: Path)
        ensures
            copy@ == self@,
    {
        match self {
            Path::ClientState { client_id } => Path::ClientState {
                client_id: client_id.clone(),
            },
            Path::ClientConsensusState { client_id, height } => Path::ClientConsensusState {
                client_id: client_id.clone(),
                height: *height,
            },
            Path::Connection { connection_id } => Path::Connection {
                connection_id: connection_id.clone(),
            },
            Path::ChannelEnd { port_id, channel_id } => Path::ChannelEnd {
                port_id: port_id.clone(),
                channel_id: channel_id.clone(),
            },
            Path::Commitment { port_id, channel_id, sequence } => Path::Commitment {
                port_id: port_id.clone(),
                channel_id: channel_id.clone(),
                sequence: *sequence,
            },
            Path::Acknowledgement { port_id, channel_id, sequence } => Path::Acknowledgement {
                port_id: port_id.clone(),
                channel_id: channel_id.clone(),
                sequence: *sequence,
            },
        }
    }
}

} // verus!
