//! From a mode and the node's answer to the blockhash.

use vstd::prelude::*;
use crate::error::ResolutionError;
use crate::mode::ResolutionMode;
use crate::node::NodeReply;
use crate::nonce::{durable_nonce, nonce_state_decoding, stored_value_spec};
use crate::values::HashValue;

verus! {

/// The outcome of resolving `mode` when the node answered `reply`.
///
/// A value that the caller gave is the outcome, whatever the reply. Every
/// other mode needs the answer to its own question: an answer to another
/// question, or none, leaves it without one.
pub open spec fn resolve_spec(mode: ResolutionMode, reply: Option<NodeReply>) -> Result<
    HashValue,
    ResolutionError,
> {
    match mode {
        ResolutionMode::FixedHash(value) => Ok(value),
        ResolutionMode::DurableNonce(_) => match reply {
            Some(NodeReply::AccountData(data)) => stored_value_spec(nonce_state_decoding(data@)),
            Some(NodeReply::AccountNotFound) => Err(ResolutionError::AccountNotFound),
            _ => Err(ResolutionError::NetworkUnavailable),
        },
        ResolutionMode::LiveLookup | ResolutionMode::FeeCalculatorFallback => match reply {
            Some(NodeReply::RecentBlockhash(value)) => Ok(value),
            _ => Err(ResolutionError::NetworkUnavailable),
        },
    }
}

/// Resolves `mode` to a blockhash, given the node's answer to
/// [`ResolutionMode::query`].
///
/// This is the single step from a mode to either a value or an error. It
/// asks nothing, retries nothing and keeps nothing.
pub fn resolve(mode: ResolutionMode, reply: Option<NodeReply>) -> (value: Result<
    HashValue,
    ResolutionError,
>)
    ensures
        value == resolve_spec(mode, reply),
        value != Err::<HashValue, ResolutionError>(ResolutionError::InvalidModeCombination),
{
    match mode {
        ResolutionMode::FixedHash(value) => Ok(value),
        ResolutionMode::DurableNonce(_) => match reply {
            Some(NodeReply::AccountData(data)) => durable_nonce(data.as_slice()),
            Some(NodeReply::AccountNotFound) => Err(ResolutionError::AccountNotFound),
            _ => Err(ResolutionError::NetworkUnavailable),
        },
        ResolutionMode::LiveLookup | ResolutionMode::FeeCalculatorFallback => match reply {
            Some(NodeReply::RecentBlockhash(value)) => Ok(value),
            _ => Err(ResolutionError::NetworkUnavailable),
        },
    }
}

} // verus!
