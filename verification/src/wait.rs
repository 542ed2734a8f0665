//! Conditions on a chain that a plan waits for.

use crate::ids::{ChainId, ChainIdView, Height};
use vstd::prelude::*;

verus! {

/// A condition on the chain the message is addressed to.
#[derive(Debug, PartialEq, Eq)]
pub enum Wait {
    /// The chain has reached this height.
    Block(Height),
    /// The chain's latest block time, in seconds since the Unix epoch, has reached this value.
    Timestamp(i64),
    /// The chain's client `client_id` trusts `height` or a later height of the chain it tracks.
    TrustedHeight {
        client_id: String,
        height: Height,
        counterparty_client_id: String,
        counterparty_chain_id: ChainId,
    },
}

/// The value of a [`Wait`] as contracts see it.
pub enum WaitView {
    Block(Height),
    Timestamp(i64),
    TrustedHeight {
        client_id: Seq<char>,
        height: Height,
        counterparty_client_id: Seq<char>,
        counterparty_chain_id: ChainIdView,
    },
}

impl View for Wait {
    type V = WaitView;

    open spec fn view(&self) -> WaitView {
        match *self {
            Wait::Block(x) => WaitView::Block(x),
            Wait::Timestamp(x) => WaitView::Timestamp(x),
            Wait::TrustedHeight { client_id, height, counterparty_client_id, counterparty_chain_id } => WaitView::TrustedHeight {
                client_id: client_id@,
                height,
                counterparty_client_id: counterparty_client_id@,
                counterparty_chain_id: counterparty_chain_id@,
            },
        }
    }
}

impl Clone for Wait {
    fn clone(&self) -> (copy: Wait)
        ensures
            copy@ == self@,
    {
        match self {
            Wait::Block(x) => Wait::Block(*x),
            Wait::Timestamp(x) => Wait::Timestamp(*x),
            Wait::TrustedHeight { client_id, height, counterparty_client_id, counterparty_chain_id } => Wait::TrustedHeight {
                client_id: client_id.clone(),
                height: *height,
                counterparty_client_id: counterparty_client_id.clone(),
                counterparty_chain_id: counterparty_chain_id.clone(),
            },
        }
    }
}

} // verus!
