//! What answering a fetch on a chain with a beacon layer takes besides asking
//! the nodes: where a commitment is stored, and how the bootstrap of a period
//! is found.

use crate::data::{BootstrapData, BootstrapDataView};
use crate::ids::Preset;
use crate::text::starts_with;
use vstd::prelude::*;

verus! {

/// The Keccak-256 digest of `input`.
pub uninterp spec fn keccak256_digest(input: Seq<u8>) -> Seq<u8>;

/// `ethers::utils::keccak256`: the Keccak-256 digest of `bytes`. The digest
/// depends on the bytes alone.
#[verifier::external_body]
fn keccak256(bytes: &[u8]) -> (digest: [u8; 32])
    ensures
        digest@ == keccak256_digest(bytes@),
{
    ethers::utils::keccak256(bytes)
}

/// The 32 bytes that encode the number zero: the index of the mapping in which
/// the IBC handler keeps its commitments.
pub open spec fn commitments_index() -> Seq<u8> {
    Seq::new(32, |i: int| 0u8)
}

/// What is hashed to find the storage slot of a commitment: the digest of the
/// commitment's path, followed by the index of the commitments mapping.
pub open spec fn spec_slot_preimage(path_digest: Seq<u8>) -> Seq<u8> {
    path_digest + commitments_index()
}

/// What is hashed to find the storage slot of a commitment.
pub fn slot_preimage(path_digest: &[u8; 32]) -> (preimage: Vec<u8>)
    ensures
        preimage@ == spec_slot_preimage(path_digest@),
{
    let mut preimage: Vec<u8> = Vec::new();
    let mut i: usize = 0;
    while i < 32
        invariant
            i <= 32,
            preimage@ == path_digest@.subrange(0, i as int),
        decreases 32 - i,
    {
        preimage.push(path_digest[i]);
        assert(preimage@ =~= path_digest@.subrange(0, i + 1));
        i += 1;
    }
    assert(path_digest@.subrange(0, 32) =~= path_digest@);
    let mut k: usize = 0;
    while k < 32
        invariant
            k <= 32,
            preimage@ == path_digest@ + Seq::new(k as nat, |i: int| 0u8),
        decreases 32 - k,
    {
        preimage.push(0u8);
        assert(preimage@ =~= path_digest@ + Seq::new((k + 1) as nat, |i: int| 0u8));
        k += 1;
    }
    preimage
}

/// The storage slot of the IBC handler under which the commitment for `path`
/// is kept.
pub open spec fn spec_commitment_slot(path: Seq<u8>) -> Seq<u8> {
    keccak256_digest(spec_slot_preimage(keccak256_digest(path)))
}

/// The storage slot of the IBC handler under which the commitment for the path
/// `path` is kept. The path is given as the bytes of its text.
pub fn commitment_slot(path: &[u8]) -> (slot: [u8; 32])
    ensures
        slot@ == spec_commitment_slot(path@),
{
    let path_digest = keccak256(path);
    let preimage = slot_preimage(&path_digest);
    keccak256(preimage.as_slice())
}

/// One entry of the storage proof in an `eth_getProof` answer.
#[derive(Clone, Debug, PartialEq, Eq)]
pub struct StorageProof {
    pub key: [u8; 32],
    pub value: [u8; 32],
    pub proof: Vec<Vec<u8>>,
}

/// The one storage proof of an answer to a request for one slot; nothing if
/// the answer holds none or several.
pub fn single_storage_proof(proofs: Vec<StorageProof>) -> (only: Option<StorageProof>)
    ensures
        match only {
            Some(proof) => proofs@.len() == 1 && proof == proofs@[0],
            None => proofs@.len() != 1,
        },
{
    let mut proofs = proofs;
    if proofs.len() == 1 {
        proofs.pop()
    } else {
        None
    }
}

/// The first slot of the sync committee period that holds `slot`.
pub open spec fn spec_period_start(slot: u64, preset: Preset) -> u64 {
    (slot / preset.period() * preset.period()) as u64
}

/// The first slot of the sync committee period that holds `slot`.
pub fn period_start(slot: u64, preset: Preset) -> (start: u64)
    ensures
        start == spec_period_start(slot, preset),
        start <= slot,
{
    let period = preset.period();
    let index = slot / period;
    assert(index * period <= slot) by (nonlinear_arith)
        requires
            index == slot / period,
            period > 0,
    ;
    index * period
}

/// How a beacon node's failure reads.
#[derive(Clone, Debug, PartialEq, Eq)]
pub enum BeaconError {
    /// The node does not have what was asked for.
    NotFound(String),
    /// The node failed inside.
    Internal(String),
    /// Any other failure.
    Other(String),
}

/// What a beacon node answers while a bootstrap is searched.
#[derive(Clone, Debug, PartialEq, Eq)]
pub enum BootstrapAnswer {
    /// The block root of the header asked for.
    Header([u8; 32]),
    HeaderFailed(BeaconError),
    /// The bootstrap asked for, encoded.
    Bootstrap(Vec<u8>),
    BootstrapFailed(BeaconError),
}

/// What to do next while a bootstrap is searched.
#[derive(Clone, Debug, PartialEq, Eq)]
pub enum BootstrapStep {
    /// Ask for the header of the block at `slot`.
    FetchHeader { slot: u64 },
    /// Ask for the bootstrap of the block with root `root`.
    FetchBootstrap { root: [u8; 32] },
    /// The bootstrap is found.
    Done(BootstrapData),
    /// The node failed in a way that looking further back does not mend, or
    /// there is no slot further back.
    Failed,
}

/// The value of a [`BootstrapStep`] as contracts see it.
pub enum BootstrapStepView {
    FetchHeader { slot: u64 },
    FetchBootstrap { root: Seq<u8> },
    Done(BootstrapDataView),
    Failed,
}

impl View for BootstrapStep {
    type V = BootstrapStepView;

    open spec fn view(&self) -> BootstrapStepView {
        match *self {
            BootstrapStep::FetchHeader { slot } => BootstrapStepView::FetchHeader { slot },
            BootstrapStep::FetchBootstrap { root } => BootstrapStepView::FetchBootstrap { root: root@ },
            BootstrapStep::Done(data) => BootstrapStepView::Done(data@),
            BootstrapStep::Failed => BootstrapStepView::Failed,
        }
    }
}

/// The search for the bootstrap of the period that holds `slot`.
///
/// The bootstrap is that of the block at the first slot of the period. If no
/// block was proposed in that slot, or the node cannot give its bootstrap, the
/// search goes back slot by slot.
#[derive(Clone, Copy, Debug, PartialEq, Eq, Structural)]
pub struct BootstrapSearch {
    /// The slot whose period is asked about.
    pub slot: u64,
    /// The first slot of that period.
    pub start: u64,
    /// How far the search has gone back from there.
    pub slots_back: u64,
}

/// Whether `answer` says that the search has to go one slot further back: the
/// node has no block for the slot, or no sync committee witness for the block.
pub open spec fn goes_back(answer: BootstrapAnswer) -> bool {
    match answer {
        BootstrapAnswer::HeaderFailed(BeaconError::NotFound(message)) => "No block found for id"@.is_prefix_of(
            message@,
        ),
        BootstrapAnswer::BootstrapFailed(BeaconError::Internal(message)) => "syncCommitteeWitness not available"@.is_prefix_of(
            message@,
        ),
        _ => false,
    }
}

impl BootstrapSearch {
    /// What to ask the node now.
    pub open spec fn spec_header_step(self) -> BootstrapStepView {
        if self.slots_back <= self.start {
            BootstrapStepView::FetchHeader { slot: (self.start - self.slots_back) as u64 }
        } else {
            BootstrapStepView::Failed
        }
    }

    /// The search after `answer`.
    pub open spec fn spec_after(self, answer: BootstrapAnswer) -> BootstrapSearch {
        if goes_back(answer) && self.slots_back < u64::MAX {
            BootstrapSearch { slots_back: (self.slots_back + 1) as u64, ..self }
        } else {
            self
        }
    }

    /// What to do after `answer`.
    pub open spec fn spec_step_after(self, answer: BootstrapAnswer) -> BootstrapStepView {
        match answer {
            BootstrapAnswer::Header(root) => BootstrapStepView::FetchBootstrap { root: root@ },
            BootstrapAnswer::Bootstrap(bootstrap) => BootstrapStepView::Done(
                BootstrapDataView { slot: self.slot, bootstrap: bootstrap@ },
            ),
            _ => if goes_back(answer) && self.slots_back < u64::MAX {
                self.spec_after(answer).spec_header_step()
            } else {
                BootstrapStepView::Failed
            },
        }
    }

    /// Starts the search for the bootstrap of the period that holds `slot`.
    pub fn start(slot: u64, preset: Preset) -> (started: (BootstrapSearch, BootstrapStep))
        ensures
            started.0 == (BootstrapSearch {
                slot,
                start: spec_period_start(slot, preset),
                slots_back: 0,
            }),
            started.1@ == started.0.spec_header_step(),
    {
        let start = period_start(slot, preset);
        (BootstrapSearch { slot, start, slots_back: 0 }, BootstrapStep::FetchHeader { slot: start })
    }

    /// Takes the node's answer to the last step and says what to do next.
    pub fn advance(&mut self, answer: BootstrapAnswer) -> (step: BootstrapStep)
        ensures
            *final(self) == old(self).spec_after(answer),
            step@ == old(self).spec_step_after(answer),
    {
        let back = match &answer {
            BootstrapAnswer::HeaderFailed(BeaconError::NotFound(message)) => starts_with(
                message.as_str(),
                "No block found for id",
            ),
            BootstrapAnswer::BootstrapFailed(BeaconError::Internal(message)) => starts_with(
                message.as_str(),
                "syncCommitteeWitness not available",
            ),
            _ => false,
        };
        match answer {
            BootstrapAnswer::Header(root) => BootstrapStep::FetchBootstrap { root },
            BootstrapAnswer::Bootstrap(bootstrap) => BootstrapStep::Done(
                BootstrapData { slot: self.slot, bootstrap },
            ),
            _ => {
                if back && self.slots_back < u64::MAX {
                    self.slots_back = self.slots_back + 1;
                    if self.slots_back <= self.start {
                        BootstrapStep::FetchHeader { slot: self.start - self.slots_back }
                    } else {
                        BootstrapStep::Failed
                    }
                } else {
                    BootstrapStep::Failed
                }
            },
        }
    }
}

} // verus!
