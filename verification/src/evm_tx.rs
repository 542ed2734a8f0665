//! What became of a transaction on a chain with an execution layer.

use crate::msg::{Msg, MsgView};
use crate::reducer::Submission;
use vstd::prelude::*;

verus! {

/// Why submitting a transaction failed.
#[derive(Clone, Debug, PartialEq, Eq)]
pub enum TxSubmitError {
    /// The contract call failed, as the text says.
    Contract(String),
    /// The node failed while the transaction was pending, as the text says.
    Provider(String),
    /// The transaction was sent, and the node has no receipt for it.
    NoTxReceipt,
}

impl TxSubmitError {
    /// Whether the transaction may succeed if it is sent again. No failure is
    /// known to rule that out.
    pub fn is_recoverable(&self) -> (recoverable: bool)
        ensures
            recoverable,
    {
        true
    }
}

/// How far a transaction got.
#[derive(Clone, Debug, PartialEq, Eq)]
pub enum TxOutcome {
    /// It was sent and included: there is a receipt.
    Included,
    /// It was sent, and the node knows of no receipt.
    NoReceipt,
    /// It was sent, and the node failed before the receipt came.
    ProviderFailed(String),
    /// It was not sent: the call reverts.
    Reverted,
    /// It was not sent, for another reason than a revert.
    SendFailed,
}

/// The value of a [`TxOutcome`] as contracts see it.
pub enum TxOutcomeView {
    Included,
    NoReceipt,
    ProviderFailed(Seq<char>),
    Reverted,
    SendFailed,
}

impl View for TxOutcome {
    type V = TxOutcomeView;

    open spec fn view(&self) -> TxOutcomeView {
        match *self {
            TxOutcome::Included => TxOutcomeView::Included,
            TxOutcome::NoReceipt => TxOutcomeView::NoReceipt,
            TxOutcome::ProviderFailed(why) => TxOutcomeView::ProviderFailed(why@),
            TxOutcome::Reverted => TxOutcomeView::Reverted,
            TxOutcome::SendFailed => TxOutcomeView::SendFailed,
        }
    }
}

/// Whether `msg` needs its client type registered before it is submitted:
/// creating a client does.
pub open spec fn spec_registers_client_type(msg: MsgView) -> bool {
    msg is CreateClient
}

/// Whether `msg` needs its client type registered before it is submitted.
pub fn registers_client_type(msg: &Msg) -> (needed: bool)
    ensures
        needed == spec_registers_client_type(msg@),
{
    match msg {
        Msg::CreateClient(_) => true,
        _ => false,
    }
}

/// Whether the message may be submitted after registering its client type
/// ended as `outcome` says.
///
/// A registration that reverts is taken to mean that the type was registered
/// before. A registration that was sent must be seen to be included.
pub open spec fn spec_registration_done(outcome: TxOutcomeView) -> bool {
    outcome is Included || outcome is Reverted
}

/// Whether the message may be submitted after registering its client type
/// ended as `outcome` says.
pub fn registration_done(outcome: &TxOutcome) -> (done: bool)
    ensures
        done == spec_registration_done(outcome@),
{
    match outcome {
        TxOutcome::Included => true,
        TxOutcome::Reverted => true,
        _ => false,
    }
}

/// What the engine makes of a transaction that ended as `outcome` says.
///
/// A transaction that reverts counts as accepted: the chain refuses what it
/// has already done. A transaction that was sent and cannot be seen to be
/// included may be sent again. One that could not be sent at all has failed
/// for good.
pub open spec fn spec_submission_of(outcome: TxOutcomeView) -> Submission {
    match outcome {
        TxOutcomeView::Included | TxOutcomeView::Reverted => Submission::Accepted,
        TxOutcomeView::NoReceipt | TxOutcomeView::ProviderFailed(_) => Submission::Recoverable,
        TxOutcomeView::SendFailed => Submission::Fatal,
    }
}

/// The error that `outcome` amounts to, if it is one that may be recovered
/// from.
pub open spec fn spec_tx_error(outcome: TxOutcomeView) -> Option<TxSubmitErrorView> {
    match outcome {
        TxOutcomeView::NoReceipt => Some(TxSubmitErrorView::NoTxReceipt),
        TxOutcomeView::ProviderFailed(why) => Some(TxSubmitErrorView::Provider(why)),
        _ => None,
    }
}

/// The value of a [`TxSubmitError`] as contracts see it.
pub enum TxSubmitErrorView {
    Contract(Seq<char>),
    Provider(Seq<char>),
    NoTxReceipt,
}

impl View for TxSubmitError {
    type V = TxSubmitErrorView;

    open spec fn view(&self) -> TxSubmitErrorView {
        match *self {
            TxSubmitError::Contract(why) => TxSubmitErrorView::Contract(why@),
            TxSubmitError::Provider(why) => TxSubmitErrorView::Provider(why@),
            TxSubmitError::NoTxReceipt => TxSubmitErrorView::NoTxReceipt,
        }
    }
}

/// The error that `outcome` amounts to, if it is one that may be recovered
/// from.
pub fn tx_error(outcome: TxOutcome) -> (error: Option<TxSubmitError>)
    ensures
        match error {
            Some(e) => spec_tx_error(outcome@) == Some(e@),
            None => spec_tx_error(outcome@) is None,
        },
{
    match outcome {
        TxOutcome::NoReceipt => Some(TxSubmitError::NoTxReceipt),
        TxOutcome::ProviderFailed(why) => Some(TxSubmitError::Provider(why)),
        _ => None,
    }
}

/// What the engine makes of a transaction that ended as `outcome` says.
pub fn submission_of(outcome: TxOutcome) -> (submission: Submission)
    ensures
        submission == spec_submission_of(outcome@),
{
    match outcome {
        TxOutcome::Included => Submission::Accepted,
        TxOutcome::Reverted => Submission::Accepted,
        TxOutcome::SendFailed => Submission::Fatal,
        other => match tx_error(other) {
            Some(e) => if e.is_recoverable() {
                Submission::Recoverable
            } else {
                Submission::Fatal
            },
            None => Submission::Fatal,
        },
    }
}

} // verus!
