//! The funds sent along with a request, put in order.

use crate::transfer::denom::token_views;
use crate::transfer::types::{TransferToken, TransferTokenView};
use vstd::prelude::*;

verus! {

/// Whether `a` comes before `b` in the order of strings: at the first place
/// where they differ `a` has the smaller character, or `a` ends there and `b`
/// goes on.
pub open spec fn comes_before(a: Seq<char>, b: Seq<char>) -> bool
    decreases a.len(),
{
    if b.len() == 0 {
        false
    } else if a.len() == 0 {
        true
    } else if a[0] != b[0] {
        (a[0] as u32) < (b[0] as u32)
    } else {
        comes_before(a.drop_first(), b.drop_first())
    }
}

/// The tokens of `funds` whose amount is not zero.
pub open spec fn nonzero(funds: Seq<TransferTokenView>) -> Seq<TransferTokenView> {
    funds.filter(|token: TransferTokenView| token.amount != 0)
}

/// Whether no two tokens are of the same denomination.
pub open spec fn distinct_denoms(tokens: Seq<TransferTokenView>) -> bool {
    forall|i: int, j: int| 0 <= i < j < tokens.len() ==> tokens[i].denom != tokens[j].denom
}

/// Whether the tokens stand in the order of their denominations.
pub open spec fn sorted_by_denom(tokens: Seq<TransferTokenView>) -> bool {
    forall|i: int, j: int|
        0 <= i < j < tokens.len() ==> comes_before(tokens[i].denom, tokens[j].denom)
}

/// Whether `ordered` is `funds` put in order: the tokens of `funds` whose
/// amount is not zero, in the order of their denominations.
pub open spec fn is_ordering_of(ordered: Seq<TransferTokenView>, funds: Seq<TransferTokenView>) -> bool {
    sorted_by_denom(ordered) && ordered.to_multiset() == nonzero(funds).to_multiset()
}

/// `cosmwasm_std::Coins::try_from` on the funds as coins, then
/// `Coins::into_vec`.
///
/// The conversion leaves out coins whose amount is zero and fails if two of
/// the others are of one denomination. What it yields holds every other coin
/// once, in the order of the denominations as strings.
#[verifier::external_body]
pub(crate) fn coins_of(funds: Vec<TransferToken>) -> (coins: Option<Vec<TransferToken>>)
    ensures
        coins is Some <==> distinct_denoms(nonzero(token_views(funds@))),
        coins matches Some(ordered) ==> is_ordering_of(token_views(ordered@), token_views(funds@)),
{
    let coins: Vec<cosmwasm_std::Coin> =
        funds.into_iter().map(|t| cosmwasm_std::Coin::new(t.amount, t.denom)).collect();
    cosmwasm_std::Coins::try_from(coins).ok().map(|coins| {
        coins
            .into_vec()
            .into_iter()
            .map(|c| TransferToken { denom: c.denom, amount: c.amount.u128() })
            .collect()
    })
}

} // verus!
