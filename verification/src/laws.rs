//! What holds of selection and resolution taken together.

use vstd::prelude::*;
use crate::error::ResolutionError;
use crate::mode::{select_spec, ResolutionMode};
use crate::node::{NodeQuery, NodeReply};
use crate::nonce::{nonce_state_decoding, stored_value_spec};
use crate::resolve::resolve_spec;
use crate::values::{Address, HashValue};

verus! {

/// A value that the caller gave settles everything: it is the mode whatever
/// the other two inputs are, the node is asked nothing, and the value is the
/// outcome whatever the node might have said.
pub proof fn lemma_explicit_value_settles(
    value: HashValue,
    sign_only: bool,
    nonce_account: Option<Address>,
    reply: Option<NodeReply>,
)
    ensures
        select_spec(Some(value), sign_only, nonce_account) == Ok::<
            ResolutionMode,
            ResolutionError,
        >(ResolutionMode::FixedHash(value)),
        ResolutionMode::FixedHash(value).query_spec() is None,
        resolve_spec(ResolutionMode::FixedHash(value), reply) == Ok::<HashValue, ResolutionError>(
            value,
        ),
{
}

/// Without a value from the caller, signing offline is rejected, with a
/// nonce account as much as without one.
pub proof fn lemma_offline_needs_explicit_value(nonce_account: Option<Address>)
    ensures
        select_spec(None, true, nonce_account) == Err::<ResolutionMode, ResolutionError>(
            ResolutionError::InvalidModeCombination,
        ),
{
}

/// The only mode that signing offline ever gets is the caller's own value,
/// so a mode chosen for signing offline never needs the node.
pub proof fn lemma_offline_mode_is_fixed(
    explicit_value: Option<HashValue>,
    nonce_account: Option<Address>,
)
    ensures
        select_spec(explicit_value, true, nonce_account) matches Ok(mode) ==> {
            &&& explicit_value matches Some(value)
            &&& mode == ResolutionMode::FixedHash(value)
            &&& mode.query_spec() is None
        },
{
}

/// Online and without a value from the caller, a nonce account is the mode,
/// and resolving it asks once, for exactly that account.
pub proof fn lemma_nonce_account_selects_durable_nonce(address: Address)
    ensures
        select_spec(None, false, Some(address)) == Ok::<ResolutionMode, ResolutionError>(
            ResolutionMode::DurableNonce(address),
        ),
        ResolutionMode::DurableNonce(address).query_spec() == Some(NodeQuery::AccountData(address)),
{
}

/// What a nonce account resolves to, for each answer to its question: the
/// value that the account's bytes yield, the account's absence, or the
/// node's failure.
pub proof fn lemma_durable_nonce_outcomes(address: Address, data: Vec<u8>)
    ensures
        resolve_spec(ResolutionMode::DurableNonce(address), Some(NodeReply::AccountData(data)))
            == stored_value_spec(nonce_state_decoding(data@)),
        resolve_spec(ResolutionMode::DurableNonce(address), Some(NodeReply::AccountNotFound))
            == Err::<HashValue, ResolutionError>(ResolutionError::AccountNotFound),
        resolve_spec(ResolutionMode::DurableNonce(address), Some(NodeReply::Unavailable)) == Err::<
            HashValue,
            ResolutionError,
        >(ResolutionError::NetworkUnavailable),
{
}

/// Online with nothing given, the node's latest blockhash is the mode;
/// resolving it asks once, for that blockhash, and hands it on unchanged.
pub proof fn lemma_nothing_given_selects_live_lookup(latest: HashValue)
    ensures
        select_spec(None, false, None) == Ok::<ResolutionMode, ResolutionError>(
            ResolutionMode::LiveLookup,
        ),
        ResolutionMode::LiveLookup.query_spec() == Some(NodeQuery::RecentBlockhash),
        resolve_spec(ResolutionMode::LiveLookup, Some(NodeReply::RecentBlockhash(latest))) == Ok::<
            HashValue,
            ResolutionError,
        >(latest),
{
}

/// Resolving the caller's own value again gives the same value again: the
/// outcome does not depend on anything but the value.
pub proof fn lemma_fixed_hash_resolves_alike(
    value: HashValue,
    first: Option<NodeReply>,
    second: Option<NodeReply>,
)
    ensures
        resolve_spec(ResolutionMode::FixedHash(value), first) == resolve_spec(
            ResolutionMode::FixedHash(value),
            second,
        ),
{
}

/// Contradictory inputs are found when the mode is chosen, never later:
/// resolution does not report them.
pub proof fn lemma_resolution_never_rejects_the_mode(mode: ResolutionMode, reply: Option<NodeReply>)
    ensures
        resolve_spec(mode, reply) != Err::<HashValue, ResolutionError>(
            ResolutionError::InvalidModeCombination,
        ),
{
}

/// The fee-calculator fallback asks what a live lookup asks and resolves to
/// what a live lookup resolves to.
pub proof fn lemma_fallback_is_live_lookup(reply: Option<NodeReply>)
    ensures
        ResolutionMode::FeeCalculatorFallback.query_spec()
            == ResolutionMode::LiveLookup.query_spec(),
        resolve_spec(ResolutionMode::FeeCalculatorFallback, reply) == resolve_spec(
            ResolutionMode::LiveLookup,
            reply,
        ),
{
}

/// A mode that needs the node gets no value without the node's answer.
pub proof fn lemma_no_answer_no_value(mode: ResolutionMode)
    requires
        mode.query_spec() is Some,
    ensures
        resolve_spec(mode, None) == Err::<HashValue, ResolutionError>(
            ResolutionError::NetworkUnavailable,
        ),
{
}

} // verus!
