//! How a denomination is written on the two sides of a channel.
//!
//! A token that crossed a channel carries, on the side it arrived at, the
//! port and channel of that side in front of its denomination. Sending it out
//! over the same channel takes that prefix off again, and sending out a token
//! without it puts the prefix on for the other side to find.

use crate::text::strip_prefix;
use crate::transfer::types::{IbcEndpoint, IbcEndpointView, TransferToken, TransferTokenView};
use vstd::prelude::*;

verus! {

/// What stands in front of a denomination that arrived over `endpoint`: the
/// port, a slash, the channel, a slash.
pub open spec fn denom_prefix(endpoint: IbcEndpointView) -> Seq<char> {
    endpoint.port_id + seq!['/'] + endpoint.channel_id + seq!['/']
}

/// Whether `denom` names a token that arrived over `endpoint`.
pub open spec fn is_foreign(denom: Seq<char>, endpoint: IbcEndpointView) -> bool {
    denom_prefix(endpoint).is_prefix_of(denom)
}

/// How `denom` is written in a packet that leaves over `endpoint`: without the
/// prefix if it has it, with the prefix if it has not.
pub open spec fn spec_normalize_denom(denom: Seq<char>, endpoint: IbcEndpointView) -> Seq<char> {
    if is_foreign(denom, endpoint) {
        denom.skip(denom_prefix(endpoint).len() as int)
    } else {
        denom_prefix(endpoint) + denom
    }
}

/// `token` as it is written in a packet that leaves over `endpoint`.
pub open spec fn spec_normalize(token: TransferTokenView, endpoint: IbcEndpointView) -> TransferTokenView {
    TransferTokenView { denom: spec_normalize_denom(token.denom, endpoint), amount: token.amount }
}

/// The tokens `tokens` as they are written in a packet that leaves over
/// `endpoint`.
pub open spec fn spec_normalize_all(tokens: Seq<TransferTokenView>, endpoint: IbcEndpointView) -> Seq<
    TransferTokenView,
> {
    tokens.map_values(|token: TransferTokenView| spec_normalize(token, endpoint))
}

/// The values of a sequence of tokens.
pub open spec fn token_views(tokens: Seq<TransferToken>) -> Seq<TransferTokenView> {
    tokens.map_values(|e: TransferToken| e@)
}

fn prefix_of(endpoint: &IbcEndpoint) -> (prefix: String)
    ensures
        prefix@ == denom_prefix(endpoint@),
{
    proof {
        reveal_strlit("/");
    }
    let mut prefix = endpoint.port_id.clone();
    prefix.append("/");
    prefix.append(endpoint.channel_id.as_str());
    prefix.append("/");
    assert(prefix@ =~= denom_prefix(endpoint@));
    prefix
}

impl TransferToken {
    /// This token as it is written in a packet that leaves over `endpoint`.
    pub fn normalize_for_ibc_transfer(self, endpoint: &IbcEndpoint) -> (token: TransferToken)
        ensures
            token@ == spec_normalize(self@, endpoint@),
    {
        let prefix = prefix_of(endpoint);
        let denom = match strip_prefix(self.denom.as_str(), prefix.as_str()) {
            Some(rest) => String::from_str(rest),
            None => prefix.concat(self.denom.as_str()),
        };
        TransferToken { denom, amount: self.amount }
    }
}

/// The tokens `tokens` as they are written in a packet that leaves over
/// `endpoint`.
pub fn normalize_all(tokens: Vec<TransferToken>, endpoint: &IbcEndpoint) -> (normalized: Vec<
    TransferToken,
>)
    ensures
        token_views(normalized@) == spec_normalize_all(token_views(tokens@), endpoint@),
{
    let ghost all = tokens@;
    let mut normalized: Vec<TransferToken> = Vec::new();
    assert(token_views(normalized@) =~= spec_normalize_all(token_views(all.take(0)), endpoint@));
    for token in it: tokens
        invariant
            it.seq() == all,
            token_views(normalized@) == spec_normalize_all(
                token_views(all.take(it.index() as int)),
                endpoint@,
            ),
    {
        let ghost before = normalized@;
        let out = token.normalize_for_ibc_transfer(endpoint);
        normalized.push(out);
        assert(token_views(normalized@) =~= spec_normalize_all(
            token_views(all.take(it.index() + 1)),
            endpoint@,
        )) by {
            assert(token_views(normalized@) =~= token_views(before).push(out@));
            assert(token_views(all.take(it.index() + 1)) =~= token_views(
                all.take(it.index() as int),
            ).push(token@));
        }
    }
    assert(all.take(all.len() as int) =~= all);
    normalized
}

/// A denomination that is written out and then written out again, over the
/// same channel end, is as it was: the prefix that the first writing put on is
/// taken off by the second.
pub proof fn lemma_normalize_round_trip(denom: Seq<char>, endpoint: IbcEndpointView)
    requires
        !is_foreign(denom, endpoint),
    ensures
        is_foreign(spec_normalize_denom(denom, endpoint), endpoint),
        spec_normalize_denom(spec_normalize_denom(denom, endpoint), endpoint) == denom,
{
    let prefix = denom_prefix(endpoint);
    let out = prefix + denom;
    assert(out.subrange(0, prefix.len() as int) =~= prefix);
    assert(out.skip(prefix.len() as int) =~= denom);
}

/// A denomination with the prefix is as it was after being written out twice,
/// unless what follows the prefix begins with the prefix again.
pub proof fn lemma_normalize_round_trip_foreign(denom: Seq<char>, endpoint: IbcEndpointView)
    requires
        is_foreign(denom, endpoint),
        !is_foreign(denom.skip(denom_prefix(endpoint).len() as int), endpoint),
    ensures
        spec_normalize_denom(spec_normalize_denom(denom, endpoint), endpoint) == denom,
{
    let prefix = denom_prefix(endpoint);
    assert(prefix + denom.skip(prefix.len() as int) =~= denom);
}

} // verus!
