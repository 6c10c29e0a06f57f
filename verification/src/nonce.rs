//! Reading the value that a nonce account stores.
//!
//! How a nonce account lays out its state is the chain's affair, so the
//! bytes are decoded by the chain's own code. What is decided here is only
//! which decoded states yield a value.

use vstd::prelude::*;
use solana_sdk::nonce::state::{State, Versions};
use crate::error::ResolutionError;
use crate::values::HashValue;

verus! {

/// The state of a nonce account, as far as resolution reads it.
#[derive(Clone, Copy, Debug, PartialEq, Eq)]
pub enum NonceState {
    /// The account was created and never given a value.
    Uninitialized,
    /// The account stores this value.
    Initialized(HashValue),
}

/// What the bytes of an account decode to as the state of a nonce account:
/// `None` where they do not decode.
pub uninterp spec fn nonce_state_decoding(data: Seq<u8>) -> Option<NonceState>;

/// Decodes the bytes of an account as the state of a nonce account.
///
/// Calls `bincode::deserialize` for `solana_sdk::nonce::state::Versions`, the
/// type that the chain serialises into a nonce account, and reads the state
/// out of either version with `Versions::state`. The contract only gives the
/// outcome its name: the same bytes always decode alike, and nothing is
/// claimed about which bytes decode to what.
#[verifier::external_body]
fn decode_nonce_state(data: &[u8]) -> (state: Option<NonceState>)
    ensures
        state == nonce_state_decoding(data@),
{
    match bincode::deserialize::<Versions>(data) {
        Ok(versions) => match versions.state() {
            State::Uninitialized => Some(NonceState::Uninitialized),
            State::Initialized(stored) => Some(
                NonceState::Initialized(HashValue { bytes: stored.blockhash().to_bytes() }),
            ),
        },
        Err(_) => None,
    }
}

/// The value that a decoded account yields: the stored one where the account
/// holds the state of a nonce account with a value in it, and
/// `InvalidAccountState` for anything else.
pub open spec fn stored_value_spec(decoded: Option<NonceState>) -> Result<
    HashValue,
    ResolutionError,
> {
    match decoded {
        Some(NonceState::Initialized(value)) => Ok(value),
        Some(NonceState::Uninitialized) => Err(ResolutionError::InvalidAccountState),
        None => Err(ResolutionError::InvalidAccountState),
    }
}

/// Takes the stored value out of a decoded account.
pub fn stored_value(decoded: Option<NonceState>) -> (value: Result<HashValue, ResolutionError>)
    ensures
        value == stored_value_spec(decoded),
        value is Ok <==> decoded matches Some(NonceState::Initialized(_)),
        value is Err ==> value == Err::<HashValue, ResolutionError>(
            ResolutionError::InvalidAccountState,
        ),
{
    match decoded {
        Some(NonceState::Initialized(value)) => Ok(value),
        Some(NonceState::Uninitialized) => Err(ResolutionError::InvalidAccountState),
        None => Err(ResolutionError::InvalidAccountState),
    }
}

/// Reads the value that a nonce account stores out of the account's bytes.
pub fn durable_nonce(data: &[u8]) -> (value: Result<HashValue, ResolutionError>)
    ensures
        value == stored_value_spec(nonce_state_decoding(data@)),
{
    stored_value(decode_nonce_state(data))
}

} // verus!
